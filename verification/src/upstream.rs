//! The upstream resources: their addresses, and which stories are asked for.

use vstd::prelude::*;
use vstd::string::*;

verus! {

/// Root of the upstream API.
pub const API_BASE: &'static str = "https://hacker-news.firebaseio.com";

/// How many stories a page shows at most.
pub const STORY_LIMIT: usize = 5;

/// The character of one decimal digit.
pub open spec fn digit_char(d: nat) -> char
    recommends
        d < 10,
{
    if d == 0 {
        '0'
    } else if d == 1 {
        '1'
    } else if d == 2 {
        '2'
    } else if d == 3 {
        '3'
    } else if d == 4 {
        '4'
    } else if d == 5 {
        '5'
    } else if d == 6 {
        '6'
    } else if d == 7 {
        '7'
    } else if d == 8 {
        '8'
    } else {
        '9'
    }
}

/// The decimal numeral of `n`: most significant digit first, no sign, and no
/// leading zero but for zero itself.
pub open spec fn decimal(n: nat) -> Seq<char>
    decreases n,
{
    if n < 10 {
        seq![digit_char(n)]
    } else {
        decimal(n / 10).push(digit_char(n % 10))
    }
}

/// Address of the ranked list of story ids.
pub open spec fn top_stories_address() -> Seq<char> {
    API_BASE@ + "/v0/topstories.json"@
}

/// Address of the record of story `id`.
pub open spec fn item_address(id: u64) -> Seq<char> {
    API_BASE@ + "/v0/item/"@ + decimal(id as nat) + ".json"@
}

/// The ids that a request asks details for: the first `STORY_LIMIT` of the
/// list, or all of a shorter list, in the list's order.
pub open spec fn selected(ids: Seq<u64>) -> Seq<u64> {
    if ids.len() <= STORY_LIMIT {
        ids
    } else {
        ids.take(STORY_LIMIT as int)
    }
}

fn digit_text(d: u64) -> (text: &'static str)
    requires
        d < 10,
    ensures
        text@ == seq![digit_char(d as nat)],
{
    proof {
        reveal_strlit("0");
        reveal_strlit("1");
        reveal_strlit("2");
        reveal_strlit("3");
        reveal_strlit("4");
        reveal_strlit("5");
        reveal_strlit("6");
        reveal_strlit("7");
        reveal_strlit("8");
        reveal_strlit("9");
    }
    if d == 0 {
        "0"
    } else if d == 1 {
        "1"
    } else if d == 2 {
        "2"
    } else if d == 3 {
        "3"
    } else if d == 4 {
        "4"
    } else if d == 5 {
        "5"
    } else if d == 6 {
        "6"
    } else if d == 7 {
        "7"
    } else if d == 8 {
        "8"
    } else {
        "9"
    }
}

/// Appends the decimal numeral of `n` to `out`.
fn push_decimal(out: &mut String, n: u64)
    ensures
        final(out)@ == old(out)@ + decimal(n as nat),
    decreases n,
{
    if n >= 10 {
        push_decimal(out, n / 10);
    }
    out.append(digit_text(n % 10));
}

/// The address to ask for the ranked list of story ids.
pub fn top_stories_url() -> (url: String)
    ensures
        url@ == top_stories_address(),
{
    let mut url = String::from_str(API_BASE);
    url.append("/v0/topstories.json");
    url
}

/// The address to ask for the record of story `id`.
pub fn item_url(id: u64) -> (url: String)
    ensures
        url@ == item_address(id),
{
    let mut url = String::from_str(API_BASE);
    url.append("/v0/item/");
    push_decimal(&mut url, id);
    url.append(".json");
    url
}

/// Picks the ids to ask details for.
pub fn select_ids(ids: &Vec<u64>) -> (picked: Vec<u64>)
    ensures
        picked@ == selected(ids@),
{
    let mut picked: Vec<u64> = Vec::new();
    let mut i: usize = 0;
    while i < ids.len() && i < STORY_LIMIT
        invariant
            i <= ids.len(),
            i <= STORY_LIMIT,
            picked@ == ids@.take(i as int),
        decreases ids.len() - i,
    {
        picked.push(ids[i]);
        i = i + 1;
    }
    picked
}

/// The number that a row of decimal digits stands for.
pub open spec fn decimal_value(digits: Seq<char>) -> nat
    decreases digits.len(),
{
    if digits.len() == 0 {
        0
    } else {
        10 * decimal_value(digits.drop_last()) + digit_value(digits.last())
    }
}

/// The value of one decimal digit.
pub open spec fn digit_value(c: char) -> nat {
    if c == '1' {
        1
    } else if c == '2' {
        2
    } else if c == '3' {
        3
    } else if c == '4' {
        4
    } else if c == '5' {
        5
    } else if c == '6' {
        6
    } else if c == '7' {
        7
    } else if c == '8' {
        8
    } else if c == '9' {
        9
    } else {
        0
    }
}

/// The numeral of a number reads back as that number.
pub proof fn decimal_reads_back(n: nat)
    ensures
        decimal_value(decimal(n)) == n,
        decimal(n).len() >= 1,
    decreases n,
{
    if n < 10 {
        assert(seq![digit_char(n)].drop_last() =~= Seq::empty());
        assert(decimal_value(seq![digit_char(n)].drop_last()) == 0);
    } else {
        decimal_reads_back(n / 10);
        assert(decimal(n).drop_last() =~= decimal(n / 10));
    }
}

/// Different numbers have different numerals.
pub proof fn decimal_is_injective(a: nat, b: nat)
    requires
        decimal(a) == decimal(b),
    ensures
        a == b,
{
    decimal_reads_back(a);
    decimal_reads_back(b);
}

/// The picked ids are no more than `STORY_LIMIT` and no more than the list
/// holds, and they are the list's first, in its order.
pub proof fn selection_is_a_bounded_prefix(ids: Seq<u64>)
    ensures
        selected(ids).len() <= STORY_LIMIT,
        selected(ids).len() <= ids.len(),
        selected(ids).len() == ids.len() || selected(ids).len() == STORY_LIMIT,
        forall|i: int| 0 <= i < selected(ids).len() ==> selected(ids)[i] == ids[i],
{
}

} // verus!
