//! Story records and the answers that upstream calls give.

use vstd::prelude::*;

verus! {

/// Title and optional link of one story.
#[derive(Clone, Debug, PartialEq, Eq)]
pub struct StoryDetail {
    pub title: String,
    pub url: Option<String>,
}

/// Mathematical model of a [`StoryDetail`].
pub struct StoryDetailView {
    pub title: Seq<char>,
    pub url: Option<Seq<char>>,
}

impl View for StoryDetail {
    type V = StoryDetailView;

    open spec fn view(&self) -> StoryDetailView {
        StoryDetailView {
            title: self.title@,
            url: match self.url {
                Some(u) => Some(u@),
                None => None,
            },
        }
    }
}

/// What came of one upstream call: no answer at all, or an answer with its
/// HTTP status and the body as far as it could be read as a value of `T`.
#[derive(Debug, PartialEq, Eq)]
pub enum Reply<T> {
    NoAnswer,
    Answer { status: u16, parsed: Option<T> },
}

/// True for the HTTP status codes that report success.
pub open spec fn is_success(status: u16) -> bool {
    200 <= status < 300
}

/// The value that a reply yields: the parsed body of a successful answer,
/// nothing in every other case.
pub open spec fn accepted<T>(reply: Reply<T>) -> Option<T> {
    match reply {
        Reply::Answer { status, parsed: Some(v) } => if is_success(status) {
            Some(v)
        } else {
            None
        },
        _ => None,
    }
}

/// Keeps the value of a successful, well-formed answer and drops the rest.
pub fn accept<T>(reply: Reply<T>) -> (kept: Option<T>)
    ensures
        kept == accepted(reply),
{
    match reply {
        Reply::Answer { status, parsed } => {
            if 200 <= status && status < 300 {
                parsed
            } else {
                None
            }
        },
        Reply::NoAnswer => None,
    }
}

} // verus!
