//! One request, step by step: what to ask upstream next, what to keep of each
//! answer, and the page to respond with once every picked story was asked for.

use crate::render::{page_markup, render_page, views};
use crate::story::{accept, accepted, Reply, StoryDetail, StoryDetailView};
use crate::upstream::{
    item_address, item_url, select_ids, selected, top_stories_address, top_stories_url,
    STORY_LIMIT,
};
use vstd::prelude::*;

verus! {

/// What the caller is to do next for a request.
#[derive(Debug, PartialEq, Eq)]
pub enum Action {
    /// Ask `url` for the ranked list of story ids.
    FetchList { url: String },
    /// Ask `url` for the record of story `id`.
    FetchItem { id: u64, url: String },
    /// Answer the request with `page`.
    Respond { page: String },
}

/// Mathematical model of an [`Action`].
pub enum ActionView {
    FetchList { url: Seq<char> },
    FetchItem { id: u64, url: Seq<char> },
    Respond { page: Seq<char> },
}

impl View for Action {
    type V = ActionView;

    open spec fn view(&self) -> ActionView {
        match self {
            Action::FetchList { url } => ActionView::FetchList { url: url@ },
            Action::FetchItem { id, url } => ActionView::FetchItem { id: *id, url: url@ },
            Action::Respond { page } => ActionView::Respond { page: page@ },
        }
    }
}

/// What came of the last action.
#[derive(Debug, PartialEq, Eq)]
pub enum Event {
    /// The reply to a request for the list of ids.
    List(Reply<Vec<u64>>),
    /// The reply to a request for one story's record.
    Item(Reply<StoryDetail>),
}

/// What an [`Event`] means to the pipeline: the ids that a list reply yields
/// (none where the reply is no success), or the story that an item reply
/// yields, if any.
pub enum EventView {
    List(Seq<u64>),
    Item(Option<StoryDetailView>),
}

impl View for Event {
    type V = EventView;

    open spec fn view(&self) -> EventView {
        match self {
            Event::List(reply) => EventView::List(
                match accepted(*reply) {
                    Some(ids) => ids@,
                    None => Seq::empty(),
                },
            ),
            Event::Item(reply) => EventView::Item(
                match accepted(*reply) {
                    Some(story) => Some(story@),
                    None => None,
                },
            ),
        }
    }
}

/// Mathematical model of a [`Pipeline`].
pub struct PipelineView {
    /// Whether the reply to the list request has come.
    pub listed: bool,
    /// The ids to ask details for, in the list's order.
    pub picked: Seq<u64>,
    /// How many of `picked`, from the front, have had their reply.
    pub asked: nat,
    /// The stories kept so far, in the order of their ids.
    pub kept: Seq<StoryDetailView>,
}

impl PipelineView {
    /// A request for which nothing has been asked yet.
    pub open spec fn initial() -> PipelineView {
        PipelineView { listed: false, picked: Seq::empty(), asked: 0, kept: Seq::empty() }
    }

    /// What holds of a request at every step: no more stories are kept than
    /// picked ids have had their reply, and no more ids are picked than
    /// `STORY_LIMIT`.
    pub open spec fn bounded(self) -> bool {
        &&& self.kept.len() <= self.asked
        &&& self.asked <= self.picked.len()
        &&& self.picked.len() <= STORY_LIMIT
        &&& !self.listed ==> self.picked.len() == 0
    }

    /// True once every picked id has had its reply.
    pub open spec fn finished(self) -> bool {
        self.listed && self.asked >= self.picked.len()
    }

    /// The next thing to do: ask for the list, ask for the first picked story
    /// without a reply, or respond with the page of the stories kept.
    pub open spec fn pending(self) -> ActionView {
        if !self.listed {
            ActionView::FetchList { url: top_stories_address() }
        } else if self.asked < self.picked.len() {
            ActionView::FetchItem {
                id: self.picked[self.asked as int],
                url: item_address(self.picked[self.asked as int]),
            }
        } else {
            ActionView::Respond { page: page_markup(self.kept) }
        }
    }

    /// The state after `event`. A list reply picks the ids; an item reply
    /// counts as the reply for the story that was pending and adds its story,
    /// if it yields one, behind those kept. An event that does not answer the
    /// pending action changes nothing.
    pub open spec fn deliver(self, event: EventView) -> PipelineView {
        match event {
            EventView::List(ids) => if !self.listed {
                PipelineView {
                    listed: true,
                    picked: selected(ids),
                    asked: 0,
                    kept: Seq::empty(),
                }
            } else {
                self
            },
            EventView::Item(outcome) => if self.listed && self.asked < self.picked.len() {
                PipelineView {
                    listed: true,
                    picked: self.picked,
                    asked: self.asked + 1,
                    kept: match outcome {
                        Some(story) => self.kept.push(story),
                        None => self.kept,
                    },
                }
            } else {
                self
            },
        }
    }
}

/// The state of one request.
pub struct Pipeline {
    listed: bool,
    picked: Vec<u64>,
    asked: usize,
    kept: Vec<StoryDetail>,
}

impl View for Pipeline {
    type V = PipelineView;

    closed spec fn view(&self) -> PipelineView {
        PipelineView {
            listed: self.listed,
            picked: self.picked@,
            asked: self.asked as nat,
            kept: views(self.kept@),
        }
    }
}

impl Pipeline {
    #[verifier::type_invariant]
    spec fn inv(self) -> bool {
        &&& self.asked <= self.picked.len()
        &&& self.picked.len() <= STORY_LIMIT
        &&& self.kept.len() <= self.asked
        &&& !self.listed ==> self.picked.len() == 0
    }

    /// Starts a request.
    pub fn new() -> (pipeline: Pipeline)
        ensures
            pipeline@ == PipelineView::initial(),
            pipeline@.bounded(),
    {
        let pipeline = Pipeline { listed: false, picked: Vec::new(), asked: 0, kept: Vec::new() };
        assert(pipeline@.picked =~= Seq::empty());
        assert(pipeline@.kept =~= Seq::empty());
        pipeline
    }

    /// The next thing to do for this request.
    pub fn pending(&self) -> (action: Action)
        ensures
            action@ == self@.pending(),
            self@.bounded(),
    {
        proof {
            use_type_invariant(self);
        }
        if !self.listed {
            Action::FetchList { url: top_stories_url() }
        } else if self.asked < self.picked.len() {
            let id = self.picked[self.asked];
            Action::FetchItem { id, url: item_url(id) }
        } else {
            Action::Respond { page: render_page(&self.kept) }
        }
    }

    /// The state after `event`, which tells what came of the pending action.
    pub fn deliver(self, event: Event) -> (next: Pipeline)
        ensures
            next@ == self@.deliver(event@),
            self@.bounded(),
            next@.bounded(),
    {
        proof {
            use_type_invariant(&self);
        }
        let Pipeline { listed, picked, asked, mut kept } = self;
        match event {
            Event::List(reply) => {
                if listed {
                    Pipeline { listed, picked, asked, kept }
                } else {
                    let ids = match accept(reply) {
                        Some(ids) => ids,
                        None => Vec::new(),
                    };
                    let next =
                        Pipeline { listed: true, picked: select_ids(&ids), asked: 0, kept: Vec::new() };
                    assert(next@.kept =~= Seq::empty());
                    next
                }
            },
            Event::Item(reply) => {
                if listed && asked < picked.len() {
                    match accept(reply) {
                        Some(story) => {
                            kept.push(story);
                            assert(views(kept@) =~= views(self.kept@).push(story@));
                        },
                        None => {},
                    }
                    Pipeline { listed, picked, asked: asked + 1, kept }
                } else {
                    Pipeline { listed, picked, asked, kept }
                }
            },
        }
    }
}

/// The stories among the outcomes of a row of attempts, in the order of the
/// attempts; a failed attempt leaves nothing behind.
pub open spec fn successes(outcomes: Seq<Option<StoryDetailView>>) -> Seq<StoryDetailView>
    decreases outcomes.len(),
{
    if outcomes.len() == 0 {
        Seq::empty()
    } else {
        match outcomes.last() {
            Some(story) => successes(outcomes.drop_last()).push(story),
            None => successes(outcomes.drop_last()),
        }
    }
}

/// The state that `events`, delivered in turn, lead to from `state`.
pub open spec fn run(state: PipelineView, events: Seq<EventView>) -> PipelineView
    decreases events.len(),
{
    if events.len() == 0 {
        state
    } else {
        run(state, events.drop_last()).deliver(events.last())
    }
}

/// The events of a request whose list reply yields `ids` and whose item
/// replies yield `outcomes`, one for each attempt in turn.
pub open spec fn request_events(
    ids: Seq<u64>,
    outcomes: Seq<Option<StoryDetailView>>,
) -> Seq<EventView> {
    seq![EventView::List(ids)] + outcomes.map_values(
        |o: Option<StoryDetailView>| EventView::Item(o),
    )
}

/// No more stories come out of a row of attempts than attempts were made.
pub proof fn successes_are_no_more_than_attempts(outcomes: Seq<Option<StoryDetailView>>)
    ensures
        successes(outcomes).len() <= outcomes.len(),
    decreases outcomes.len(),
{
    if outcomes.len() > 0 {
        successes_are_no_more_than_attempts(outcomes.drop_last());
    }
}

/// The stories of two rows of attempts made one after the other are those of
/// the first row followed by those of the second: the order of the attempts
/// is the order of the stories.
pub proof fn successes_keep_order(
    first: Seq<Option<StoryDetailView>>,
    second: Seq<Option<StoryDetailView>>,
)
    ensures
        successes(first + second) == successes(first) + successes(second),
    decreases second.len(),
{
    if second.len() == 0 {
        assert(first + second =~= first);
        assert(successes(first) + successes(second) =~= successes(first));
    } else {
        successes_keep_order(first, second.drop_last());
        assert((first + second).drop_last() =~= first + second.drop_last());
        assert((first + second).last() == second.last());
        match second.last() {
            Some(story) => {
                assert(successes(first + second) =~= successes(first) + successes(second));
            },
            None => {},
        }
    }
}

/// Where every attempt succeeds, the stories are those of the attempts, one
/// for one and in their order.
pub proof fn all_successes_are_kept(stories: Seq<StoryDetailView>)
    ensures
        successes(stories.map_values(|s: StoryDetailView| Some(s))) == stories,
    decreases stories.len(),
{
    let outcomes = stories.map_values(|s: StoryDetailView| Some(s));
    if stories.len() == 0 {
        assert(successes(outcomes) =~= stories);
    } else {
        all_successes_are_kept(stories.drop_last());
        assert(outcomes.drop_last() =~= stories.drop_last().map_values(
            |s: StoryDetailView| Some(s),
        ));
        assert(successes(outcomes) =~= stories);
    }
}

/// A failed attempt leaves no gap and no stand-in: the stories are those of
/// the attempts before it followed by those of the attempts after it.
pub proof fn failure_leaves_nothing(outcomes: Seq<Option<StoryDetailView>>, at: int)
    requires
        0 <= at < outcomes.len(),
        outcomes[at] is None,
    ensures
        successes(outcomes) == successes(outcomes.take(at)) + successes(outcomes.skip(at + 1)),
        successes(outcomes) == successes(outcomes.remove(at)),
{
    let before = outcomes.take(at);
    let after = outcomes.skip(at + 1);
    let failed = seq![outcomes[at]];
    assert(successes(failed.drop_last()) =~= Seq::empty());
    assert(successes(failed) =~= Seq::empty());
    assert(outcomes =~= before + failed + after);
    assert(outcomes.remove(at) =~= before + after);
    successes_keep_order(before, failed);
    successes_keep_order(before + failed, after);
    successes_keep_order(before, after);
    assert(successes(before) + successes(failed) =~= successes(before));
}

/// No event takes a request out of its bounds.
pub proof fn deliver_keeps_bounds(state: PipelineView, event: EventView)
    requires
        state.bounded(),
    ensures
        state.deliver(event).bounded(),
{
}

/// Whatever events come and in whatever order, no more stories are kept than
/// picked ids have had their reply, and no more ids are picked than
/// `STORY_LIMIT`: a page never shows more than `STORY_LIMIT` stories.
pub proof fn run_keeps_bounds(events: Seq<EventView>)
    ensures
        run(PipelineView::initial(), events).bounded(),
        run(PipelineView::initial(), events).kept.len() <= STORY_LIMIT,
    decreases events.len(),
{
    if events.len() > 0 {
        run_keeps_bounds(events.drop_last());
    }
}

/// After the list reply and the replies to the first attempts, the picked ids
/// are the first of the list, as many of them have had their reply as replies
/// came, and the stories kept are those of the successful attempts, in the
/// order of their ids.
pub proof fn run_of_a_request(ids: Seq<u64>, outcomes: Seq<Option<StoryDetailView>>)
    requires
        outcomes.len() <= selected(ids).len(),
    ensures
        run(PipelineView::initial(), request_events(ids, outcomes)) == (PipelineView {
            listed: true,
            picked: selected(ids),
            asked: outcomes.len(),
            kept: successes(outcomes),
        }),
    decreases outcomes.len(),
{
    let events = request_events(ids, outcomes);
    if outcomes.len() == 0 {
        assert(events.drop_last() =~= Seq::empty());
        assert(run(PipelineView::initial(), events.drop_last()) == PipelineView::initial());
    } else {
        run_of_a_request(ids, outcomes.drop_last());
        assert(events.drop_last() =~= request_events(ids, outcomes.drop_last()));
        assert(events.last() == EventView::Item(outcomes.last()));
    }
}

/// While picked ids are without a reply, the pending action asks for the
/// first of them, by its own address: the attempts go through the first
/// `STORY_LIMIT` ids of the list in its order, and no id behind them is ever
/// asked for.
pub proof fn attempts_follow_the_list(ids: Seq<u64>, outcomes: Seq<Option<StoryDetailView>>)
    requires
        outcomes.len() < selected(ids).len(),
    ensures
        outcomes.len() < STORY_LIMIT,
        outcomes.len() < ids.len(),
        run(PipelineView::initial(), request_events(ids, outcomes)).pending() == (
        ActionView::FetchItem {
            id: ids[outcomes.len() as int],
            url: item_address(ids[outcomes.len() as int]),
        }),
{
    run_of_a_request(ids, outcomes);
}

/// Once every picked id has had its reply, the pending action responds with
/// the page of the successful attempts' stories, in the order of their ids.
/// They are no more than `STORY_LIMIT` and no more than the list has ids.
pub proof fn response_shows_the_successes(ids: Seq<u64>, outcomes: Seq<Option<StoryDetailView>>)
    requires
        outcomes.len() == selected(ids).len(),
    ensures
        run(PipelineView::initial(), request_events(ids, outcomes)).pending() == (
        ActionView::Respond { page: page_markup(successes(outcomes)) }),
        successes(outcomes).len() <= STORY_LIMIT,
        successes(outcomes).len() <= ids.len(),
{
    run_of_a_request(ids, outcomes);
    successes_are_no_more_than_attempts(outcomes);
}

/// A finished request stays finished: further events change neither the state
/// nor the page.
pub proof fn finished_request_ignores_events(state: PipelineView, event: EventView)
    requires
        state.finished(),
    ensures
        state.deliver(event) == state,
{
}

} // verus!
