//! The HTML page: one list item per story, set into a fixed document.

use crate::story::{StoryDetail, StoryDetailView};
use vstd::prelude::*;
use vstd::string::*;

verus! {

/// The document up to the place where the list items go.
pub const PAGE_HEAD: &'static str = "<!DOCTYPE html>
<html>
<head>
    <title>Top 5 Hacker News</title>
    <style>
        body { 
            font-family: Arial, sans-serif; 
            max-width: 800px; 
            margin: 0 auto; 
            padding: 20px; 
        }
        .header { 
            display: flex; 
            align-items: center; 
            margin-bottom: 30px; 
        }
        .logo { 
            width: 40px; 
            height: 40px; 
            margin-right: 15px; 
        }
        h1 { 
            margin: 0; 
            color: #ff6600; 
        }
        ul { 
            list-style-type: none; 
            padding: 0; 
        }
        li { 
            margin: 15px 0; 
            padding: 10px; 
            border-left: 3px solid #ff6600; 
            background-color: #f6f6ef; 
        }
        a { 
            text-decoration: none; 
            color: #000; 
            font-weight: bold; 
        }
        a:visited { 
            color: #828282; 
        }
        a:hover { 
            color: #ff6600; 
        }
        footer {
            margin-top: 40px;
            text-align: center;
            color: #888;
            font-size: 0.95em;
        }
        .github-link {
            color: #24292f;
            text-decoration: none;
            display: inline-flex;
            align-items: center;
            gap: 6px;
        }
        .github-link:hover {
            color: #ff6600;
        }
        .github-icon {
            width: 18px;
            height: 18px;
            vertical-align: middle;
        }
    </style>
    <link rel=\"icon\" href=\"https://news.ycombinator.com/y18.svg\">
</head>
<body>
    <div class=\"header\">
        <img src=\"https://news.ycombinator.com/y18.svg\" alt=\"Y Combinator\" class=\"logo\">
        <h1>Top 5 Hacker News Articles</h1>
    </div>
    <ul>
        ";

/// The document from the end of the list items on.
pub const PAGE_TAIL: &'static str = "
    </ul>
    <footer>
        <a class=\"github-link\" href=\"https://github.com/mateolafalce/hacker5news\" target=\"_blank\" rel=\"noopener\">
            <svg class=\"github-icon\" viewBox=\"0 0 16 16\" fill=\"currentColor\" aria-hidden=\"true\">
                <path d=\"M8 0C3.58 0 0 3.58 0 8c0 3.54 2.29 6.53 5.47 7.59.4.07.55-.17.55-.38
                0-.19-.01-.82-.01-1.49-2.01.37-2.53-.49-2.69-.94-.09-.23-.48-.94-.82-1.13-.28-.15-.68-.52
                -.01-.53.63-.01 1.08.58 1.23.82.72 1.21 1.87.87 2.33.66.07-.52.28-.87.51-1.07-1.78-.2
                -3.64-.89-3.64-3.95 0-.87.31-1.59.82-2.15-.08-.2-.36-1.02.08-2.12 0 0 .67-.21 2.2.82a7.65
                7.65 0 0 1 2-.27c.68 0 1.36.09 2 .27 1.53-1.04 2.2-.82 2.2-.82.44 1.1.16 1.92.08
                2.12.51.56.82 1.27.82 2.15 0 3.07-1.87 3.75-3.65 3.95.29.25.54.73.54 1.48 0 1.07-.01
                1.93-.01 2.2 0 .21.15.46.55.38A8.013 8.013 0 0 0 16 8c0-4.42-3.58-8-8-8z\"/>
            </svg>
            GitHub
        </a>
    </footer>
</body>
</html>";

/// The link target that stands in for a story without one.
pub const NO_LINK: &'static str = "#";

/// Models of the stories in a vector, in its order.
pub open spec fn views(stories: Seq<StoryDetail>) -> Seq<StoryDetailView> {
    stories.map_values(|d: StoryDetail| d@)
}

/// Where a story's item links to: its own address, or `#` where it has none.
pub open spec fn link_target(story: StoryDetailView) -> Seq<char> {
    match story.url {
        Some(u) => u,
        None => NO_LINK@,
    }
}

/// The list item of one story: a hyperlink to its target, with the title as
/// the link's text, taken as it is.
pub open spec fn item_markup(story: StoryDetailView) -> Seq<char> {
    "<li><a href=\""@ + link_target(story) + "\">"@ + story.title + "</a></li>"@
}

/// The list items of the stories, one after the other in their order and with
/// nothing between them.
pub open spec fn list_markup(stories: Seq<StoryDetailView>) -> Seq<char>
    decreases stories.len(),
{
    if stories.len() == 0 {
        Seq::empty()
    } else {
        list_markup(stories.drop_last()) + item_markup(stories.last())
    }
}

/// The whole document for the stories.
pub open spec fn page_markup(stories: Seq<StoryDetailView>) -> Seq<char> {
    PAGE_HEAD@ + list_markup(stories) + PAGE_TAIL@
}

/// Renders the list item of one story.
pub fn render_item(story: &StoryDetail) -> (markup: String)
    ensures
        markup@ == item_markup(story@),
{
    let target: &str = match &story.url {
        Some(u) => u.as_str(),
        None => NO_LINK,
    };
    let mut markup = String::from_str("<li><a href=\"");
    markup.append(target);
    markup.append("\">");
    markup.append(story.title.as_str());
    markup.append("</a></li>");
    markup
}

/// Renders the list items of the stories in their order.
pub fn render_list(stories: &Vec<StoryDetail>) -> (markup: String)
    ensures
        markup@ == list_markup(views(stories@)),
{
    let mut markup = String::new();
    let mut i: usize = 0;
    while i < stories.len()
        invariant
            i <= stories.len(),
            markup@ == list_markup(views(stories@).take(i as int)),
        decreases stories.len() - i,
    {
        let item = render_item(&stories[i]);
        proof {
            let upto = views(stories@).take(i + 1);
            assert(upto.drop_last() == views(stories@).take(i as int));
            assert(upto.last() == stories[i as int]@);
        }
        markup.append(item.as_str());
        i = i + 1;
    }
    proof {
        assert(views(stories@).take(stories.len() as int) == views(stories@));
    }
    markup
}

/// Renders the document for the stories: the fixed head, their list items, the
/// fixed tail.
pub fn render_page(stories: &Vec<StoryDetail>) -> (page: String)
    ensures
        page@ == page_markup(views(stories@)),
{
    let mut page = String::from_str(PAGE_HEAD);
    let items = render_list(stories);
    page.append(items.as_str());
    page.append(PAGE_TAIL);
    page
}

/// The list region of a page without stories is empty: the page is the fixed
/// head followed at once by the fixed tail.
pub proof fn empty_page_has_no_items()
    ensures
        list_markup(Seq::empty()) == Seq::<char>::empty(),
        page_markup(Seq::empty()) == PAGE_HEAD@ + PAGE_TAIL@,
{
    assert(PAGE_HEAD@ + Seq::<char>::empty() =~= PAGE_HEAD@);
}

/// The list items stand in the order of the stories: the markup of two rows
/// of stories, one after the other, is the markup of the first row followed
/// by that of the second.
pub proof fn list_markup_keeps_order(first: Seq<StoryDetailView>, second: Seq<StoryDetailView>)
    ensures
        list_markup(first + second) == list_markup(first) + list_markup(second),
    decreases second.len(),
{
    if second.len() == 0 {
        assert(first + second =~= first);
        assert(list_markup(first) + list_markup(second) =~= list_markup(first));
    } else {
        list_markup_keeps_order(first, second.drop_last());
        assert((first + second).drop_last() =~= first + second.drop_last());
        assert((first + second).last() == second.last());
        assert(list_markup(first + second) =~= list_markup(first) + list_markup(second));
    }
}

/// A list of one story is that story's item and nothing else.
pub proof fn single_story_is_one_item(story: StoryDetailView)
    ensures
        list_markup(seq![story]) == item_markup(story),
{
    assert(seq![story].drop_last() =~= Seq::empty());
    assert(list_markup(seq![story].drop_last()) =~= Seq::empty());
    assert(Seq::<char>::empty() + item_markup(story) =~= item_markup(story));
}

/// A story without an address links to `#`; one with an address links there.
/// Either way the link's text is the title.
pub proof fn item_links_to_address_or_placeholder(story: StoryDetailView)
    ensures
        story.url is None ==> item_markup(story) == "<li><a href=\""@ + "#"@ + "\">"@
            + story.title + "</a></li>"@,
        story.url is Some ==> item_markup(story) == "<li><a href=\""@ + story.url->0 + "\">"@
            + story.title + "</a></li>"@,
{
}

/// Rendering depends on the stories alone: two pages rendered for the same
/// stories are the same text, character for character.
pub proof fn rendering_is_repeatable(
    stories: Seq<StoryDetailView>,
    first: Seq<char>,
    second: Seq<char>,
)
    requires
        first == page_markup(stories),
        second == page_markup(stories),
    ensures
        first == second,
{
}

} // verus!
