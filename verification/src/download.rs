//! The download loop as a state machine.
//!
//! The loop itself does no input or output. It tells its driver what to do
//! next (an [`Action`]), the driver does it and reports what came of it (an
//! [`Event`]), and [`DownloadLoop::step`] moves on. A failed search ends the
//! run; a failed fetch costs one item and nothing else.
//!
//! [`LoopState`] is the mathematical model of the loop: `step` is specified
//! as one application of [`LoopState::next`], and the laws at the end of this
//! file are proved about the model.

use crate::client::SearchError;
use crate::fetch::FetchError;
use crate::schema::{Item, Response};
use vstd::prelude::*;

verus! {

/// Where the loop stands.
#[derive(Debug, Clone, Copy, PartialEq, Eq, Structural)]
pub enum Phase {
    /// A search for the page at the current offset is under way.
    Searching,
    /// The fetch of one item of the current page is under way.
    Fetching,
    /// The run has ended: the target was reached or the results ran out.
    Finished,
    /// The run was given up because a search failed.
    Aborted { error: SearchError },
}

/// What the driver reports back after carrying out an action.
#[derive(Debug)]
pub enum Event {
    /// The search gave this page.
    Page(Response),
    /// The search gave no page.
    SearchFailed(SearchError),
    /// The image was fetched and stored.
    Saved,
    /// The image could not be fetched or stored.
    FetchFailed(FetchError),
}

/// What the driver is to do next.
#[derive(Debug, PartialEq, Eq)]
pub enum Action {
    /// Ask the provider for the page of results that begins at the 1-based
    /// position `start`.
    Search { start: u64 },
    /// Fetch the image at `link` and store it.
    Fetch { link: String },
    /// Stop: the run is over and `saved` images were stored.
    Finish { saved: u64 },
    /// Stop: the run failed with `error`.
    Abort { error: SearchError },
}

/// An [`Event`] as the model sees it: of a page, the hits in order.
pub enum EventView {
    Page(Seq<Item>),
    SearchFailed(SearchError),
    Saved,
    FetchFailed(FetchError),
}

/// An [`Action`] as the model sees it.
pub enum ActionView {
    Search { start: nat },
    Fetch { link: Seq<char> },
    Finish { saved: nat },
    Abort { error: SearchError },
}

impl View for Event {
    type V = EventView;

    open spec fn view(&self) -> EventView {
        match *self {
            Event::Page(response) => EventView::Page(response.items@),
            Event::SearchFailed(error) => EventView::SearchFailed(error),
            Event::Saved => EventView::Saved,
            Event::FetchFailed(error) => EventView::FetchFailed(error),
        }
    }
}

impl View for Action {
    type V = ActionView;

    open spec fn view(&self) -> ActionView {
        match *self {
            Action::Search { start } => ActionView::Search { start: start as nat },
            Action::Fetch { link } => ActionView::Fetch { link: link@ },
            Action::Finish { saved } => ActionView::Finish { saved: saved as nat },
            Action::Abort { error } => ActionView::Abort { error },
        }
    }
}

/// The model of the download loop.
pub struct LoopState {
    pub phase: Phase,
    /// Number of stored images at which the run ends.
    pub target: nat,
    /// Number of images stored so far.
    pub saved: nat,
    /// Number of results that the pages before the current one held.
    pub offset: nat,
    /// Hits of the current page; empty unless a fetch is under way.
    pub page: Seq<Item>,
    /// Position in `page` of the item whose fetch is under way.
    pub cursor: nat,
}

impl LoopState {
    /// The state in which a run for `target` images begins.
    pub open spec fn initial(target: nat) -> LoopState {
        LoopState {
            phase: Phase::Searching,
            target,
            saved: 0,
            offset: 0,
            page: Seq::empty(),
            cursor: 0,
        }
    }

    /// Whether the run has ended, either way.
    pub open spec fn is_terminal(self) -> bool {
        self.phase is Finished || self.phase is Aborted
    }

    /// The states that a run can be in: the cursor points into the page
    /// while a fetch is under way, no page is kept otherwise, a run that
    /// has not ended has not reached its target, and no run stores more
    /// images than its target asks for (one, where the target is zero: the
    /// count is held against the target only after an image was stored).
    pub open spec fn wf(self) -> bool {
        &&& self.phase is Fetching ==> self.cursor < self.page.len()
        &&& !(self.phase is Fetching) ==> self.page.len() == 0 && self.cursor == 0
        &&& !self.is_terminal() ==> self.saved < self.target || self.saved == 0
        &&& self.saved <= self.target || self.saved <= 1
    }

    /// What the driver is to do in this state. The first page is asked for
    /// at position 1: the provider counts from 1, the offset from 0.
    pub open spec fn pending(self) -> ActionView {
        match self.phase {
            Phase::Searching => ActionView::Search { start: self.offset + 1 },
            Phase::Fetching => ActionView::Fetch { link: self.page[self.cursor as int].link@ },
            Phase::Finished => ActionView::Finish { saved: self.saved },
            Phase::Aborted { error } => ActionView::Abort { error },
        }
    }

    /// The state after the item under the cursor has been dealt with: the
    /// next item of the page, or, behind the last one, the search for the
    /// page that follows, as many positions further as this page had items.
    pub open spec fn advance(self) -> LoopState {
        if self.cursor + 1 < self.page.len() {
            LoopState { cursor: self.cursor + 1, ..self }
        } else {
            LoopState {
                phase: Phase::Searching,
                offset: self.offset + self.page.len(),
                page: Seq::empty(),
                cursor: 0,
                ..self
            }
        }
    }

    /// The state that `event` leads to.
    ///
    /// While searching, an empty page ends the run, any other page starts
    /// the fetch of its first item, and a failure aborts the run. While
    /// fetching, a stored image is counted and ends the run if the target is
    /// reached; otherwise, and after a failed fetch, the loop advances. An
    /// event that does not answer the pending action changes nothing; so
    /// does any event once the run has ended.
    pub open spec fn next(self, event: EventView) -> LoopState {
        match (self.phase, event) {
            (Phase::Searching, EventView::Page(items)) => {
                if items.len() == 0 {
                    LoopState { phase: Phase::Finished, ..self }
                } else {
                    LoopState { phase: Phase::Fetching, page: items, cursor: 0, ..self }
                }
            },
            (Phase::Searching, EventView::SearchFailed(error)) => {
                LoopState { phase: Phase::Aborted { error }, ..self }
            },
            (Phase::Fetching, EventView::Saved) => {
                if self.saved + 1 >= self.target {
                    LoopState {
                        phase: Phase::Finished,
                        saved: self.saved + 1,
                        page: Seq::empty(),
                        cursor: 0,
                        ..self
                    }
                } else {
                    LoopState { saved: self.saved + 1, ..self }.advance()
                }
            },
            (Phase::Fetching, EventView::FetchFailed(_)) => self.advance(),
            _ => self,
        }
    }

    /// Whether the position after the page that `event` brings can still be
    /// written as a 64-bit start index. Only a page that arrives while
    /// searching can fail this.
    pub open spec fn admits(self, event: EventView) -> bool {
        self.phase is Searching ==> (event matches EventView::Page(items) ==> self.offset
            + items.len() < u64::MAX)
    }

    /// The state after a sequence of events, taken in order.
    pub open spec fn run(self, events: Seq<EventView>) -> LoopState
        decreases events.len(),
    {
        if events.len() == 0 {
            self
        } else {
            self.run(events.drop_last()).next(events.last())
        }
    }
}

/// The number of stored images that a sequence of events reports.
pub open spec fn saved_in(events: Seq<EventView>) -> nat
    decreases events.len(),
{
    if events.len() == 0 {
        0
    } else {
        saved_in(events.drop_last()) + if events.last() is Saved {
            1nat
        } else {
            0nat
        }
    }
}

/// Whether every event of the sequence is the outcome of a fetch.
pub open spec fn fetch_outcomes(events: Seq<EventView>) -> bool {
    forall|i: int|
        0 <= i < events.len() ==> (#[trigger] events[i] is Saved || events[i] is FetchFailed)
}

/// The download loop: a target count, the running count of stored images,
/// the offset into the result set and the page being worked through.
#[derive(Debug)]
pub struct DownloadLoop {
    phase: Phase,
    target: u64,
    saved: u64,
    offset: u64,
    items: Vec<Item>,
    cursor: usize,
}

impl View for DownloadLoop {
    type V = LoopState;

    closed spec fn view(&self) -> LoopState {
        LoopState {
            phase: self.phase,
            target: self.target as nat,
            saved: self.saved as nat,
            offset: self.offset as nat,
            page: self.items@,
            cursor: self.cursor as nat,
        }
    }
}

impl DownloadLoop {
    /// What holds of every loop: its state is one that a run can be in, and
    /// the position behind the page at hand fits a 64-bit start index.
    #[verifier::type_invariant]
    spec fn inv(self) -> bool {
        &&& self@.wf()
        &&& self.phase is Searching ==> self.offset < u64::MAX
        &&& self.phase is Fetching ==> self.offset + self.items@.len() < u64::MAX
    }

    /// A loop that is to store `target` images, about to ask for its first
    /// page.
    pub fn new(target: u64) -> (machine: Self)
        ensures
            machine@ == LoopState::initial(target as nat),
    {
        DownloadLoop {
            phase: Phase::Searching,
            target,
            saved: 0,
            offset: 0,
            items: Vec::new(),
            cursor: 0,
        }
    }

    /// What the driver is to do now.
    pub fn pending(&self) -> (action: Action)
        ensures
            action@ == self@.pending(),
            self@.wf(),
    {
        proof {
            use_type_invariant(self);
        }
        match self.phase {
            Phase::Searching => Action::Search { start: self.offset + 1 },
            Phase::Fetching => Action::Fetch { link: self.items[self.cursor].link.clone() },
            Phase::Finished => Action::Finish { saved: self.saved },
            Phase::Aborted { error } => Action::Abort { error },
        }
    }

    /// Whether `step` may be called with `event`.
    pub fn admits(&self, event: &Event) -> (ok: bool)
        ensures
            ok == self@.admits(event@),
    {
        proof {
            use_type_invariant(self);
        }
        match self.phase {
            Phase::Searching => match event {
                Event::Page(response) => {
                    (response.items.len() as u64) < u64::MAX - self.offset
                },
                _ => true,
            },
            _ => true,
        }
    }

    /// Takes in what came of the pending action and says what to do next.
    pub fn step(&mut self, event: Event) -> (action: Action)
        requires
            old(self)@.admits(event@),
        ensures
            final(self)@ == old(self)@.next(event@),
            action@ == final(self)@.pending(),
            final(self)@.wf(),
    {
        proof {
            use_type_invariant(&*self);
        }
        match self.phase {
            Phase::Searching => match event {
                Event::Page(response) => {
                    let items = response.items;
                    if items.len() == 0 {
                        self.phase = Phase::Finished;
                    } else {
                        *self = DownloadLoop {
                            phase: Phase::Fetching,
                            target: self.target,
                            saved: self.saved,
                            offset: self.offset,
                            items,
                            cursor: 0,
                        };
                    }
                },
                Event::SearchFailed(error) => {
                    self.phase = Phase::Aborted { error };
                },
                _ => {},
            },
            Phase::Fetching => match event {
                Event::Saved => {
                    let saved = self.saved + 1;
                    if saved >= self.target {
                        *self = DownloadLoop {
                            phase: Phase::Finished,
                            target: self.target,
                            saved,
                            offset: self.offset,
                            items: Vec::new(),
                            cursor: 0,
                        };
                    } else {
                        self.advance(saved);
                    }
                },
                Event::FetchFailed(_) => {
                    let saved = self.saved;
                    self.advance(saved);
                },
                _ => {},
            },
            _ => {},
        }
        self.pending()
    }

    /// Moves past the item under the cursor, with `saved` as the new count
    /// of stored images.
    fn advance(&mut self, saved: u64)
        requires
            old(self).phase is Fetching,
            saved < old(self).target || saved == 0,
        ensures
            final(self)@ == (LoopState { saved: saved as nat, ..old(self)@ }).advance(),
    {
        proof {
            use_type_invariant(&*self);
        }
        assert(self.cursor < self.items.len());
        if self.cursor + 1 < self.items.len() {
            self.saved = saved;
            self.cursor = self.cursor + 1;
        } else {
            *self = DownloadLoop {
                phase: Phase::Searching,
                target: self.target,
                saved,
                offset: self.offset + self.items.len() as u64,
                items: Vec::new(),
                cursor: 0,
            };
        }
    }

    /// The hit whose fetch is under way, if one is.
    pub fn current(&self) -> (item: Option<&Item>)
        ensures
            item == if self@.phase is Fetching {
                Some(&self@.page[self@.cursor as int])
            } else {
                None
            },
    {
        proof {
            use_type_invariant(self);
        }
        match self.phase {
            Phase::Fetching => Some(&self.items[self.cursor]),
            _ => None,
        }
    }

    /// Where the loop stands.
    pub fn phase(&self) -> (phase: Phase)
        ensures
            phase == self@.phase,
    {
        self.phase
    }

    /// The number of images stored so far.
    pub fn saved(&self) -> (saved: u64)
        ensures
            saved == self@.saved,
    {
        self.saved
    }
}

/// Every step leads from a state that a run can be in to another such
/// state.
pub proof fn lemma_next_preserves_wf(s: LoopState, event: EventView)
    requires
        s.wf(),
    ensures
        s.next(event).wf(),
{
}

/// A step never changes the target, and it changes the count of stored
/// images in one case only: a stored image reported while a fetch is under
/// way adds one.
pub proof fn lemma_saved_counts_saves(s: LoopState, event: EventView)
    ensures
        s.next(event).target == s.target,
        s.next(event).saved == s.saved + if s.phase is Fetching && event is Saved {
            1nat
        } else {
            0nat
        },
{
}

/// Once a run has ended, nothing that is reported changes its state: the
/// pending action stays the same `Finish` or `Abort`.
pub proof fn lemma_ended_run_stays_ended(s: LoopState, later: Seq<EventView>)
    requires
        s.is_terminal(),
    ensures
        s.run(later) == s,
    decreases later.len(),
{
    if later.len() > 0 {
        lemma_ended_run_stays_ended(s, later.drop_last());
    }
}

/// An empty page ends the run without an error: the loop asks for no fetch,
/// then or later, and finishes with the count that it had.
pub proof fn lemma_empty_page_finishes(s: LoopState, later: Seq<EventView>)
    requires
        s.wf(),
        s.phase is Searching,
    ensures
        s.next(EventView::Page(Seq::empty())).run(later).pending() == (ActionView::Finish {
            saved: s.saved,
        }),
{
    lemma_ended_run_stays_ended(s.next(EventView::Page(Seq::empty())), later);
}

/// A failed search aborts the run with the error of the search: the loop
/// asks for no fetch, then or later.
pub proof fn lemma_failed_search_aborts(s: LoopState, error: SearchError, later: Seq<EventView>)
    requires
        s.phase is Searching,
    ensures
        s.next(EventView::SearchFailed(error)).run(later).pending() == (ActionView::Abort {
            error,
        }),
{
    lemma_ended_run_stays_ended(s.next(EventView::SearchFailed(error)), later);
}

/// All but the last of a sequence of fetch outcomes are fetch outcomes, and
/// so is the last.
proof fn lemma_fetch_outcomes_before_last(outcomes: Seq<EventView>)
    requires
        fetch_outcomes(outcomes),
        outcomes.len() > 0,
    ensures
        fetch_outcomes(outcomes.drop_last()),
        outcomes.last() is Saved || outcomes.last() is FetchFailed,
{
    let before = outcomes.drop_last();
    assert forall|i: int| 0 <= i < before.len() implies (#[trigger] before[i] is Saved
        || before[i] is FetchFailed) by {
        assert(before[i] == outcomes[i]);
    }
    assert(outcomes.last() == outcomes[outcomes.len() - 1]);
}

/// While the fetches of a page are under way, the loop holds that page and
/// its cursor stands behind as many items as outcomes have come.
proof fn lemma_page_keeps_its_place(s: LoopState, items: Seq<Item>, outcomes: Seq<EventView>)
    requires
        s.wf(),
        s.phase is Searching,
        fetch_outcomes(outcomes),
    ensures
        s.next(EventView::Page(items)).run(outcomes).phase is Fetching ==> {
            &&& s.next(EventView::Page(items)).run(outcomes).page == items
            &&& s.next(EventView::Page(items)).run(outcomes).cursor == outcomes.len()
            &&& outcomes.len() < items.len()
        },
    decreases outcomes.len(),
{
    if outcomes.len() > 0 {
        lemma_fetch_outcomes_before_last(outcomes);
        lemma_page_keeps_its_place(s, items, outcomes.drop_last());
    }
}

/// Where the loop stands after a page has arrived and the fetches of its
/// first items have been answered, none of them reaching the target.
proof fn lemma_page_progress(s: LoopState, items: Seq<Item>, outcomes: Seq<EventView>)
    requires
        s.wf(),
        s.phase is Searching,
        items.len() > 0,
        fetch_outcomes(outcomes),
        outcomes.len() <= items.len(),
        saved_in(outcomes) == 0 || s.saved + saved_in(outcomes) < s.target,
    ensures
        s.next(EventView::Page(items)).run(outcomes) == if outcomes.len() < items.len() {
            LoopState {
                phase: Phase::Fetching,
                saved: s.saved + saved_in(outcomes),
                page: items,
                cursor: outcomes.len(),
                ..s
            }
        } else {
            LoopState {
                saved: s.saved + saved_in(outcomes),
                offset: s.offset + items.len(),
                ..s
            }
        },
    decreases outcomes.len(),
{
    assert(s.page =~= Seq::empty());
    if outcomes.len() > 0 {
        lemma_fetch_outcomes_before_last(outcomes);
        lemma_page_progress(s, items, outcomes.drop_last());
    }
}

/// The length of a page bounds the fetches that it causes. However many
/// outcomes of fetches are reported after a page has arrived, the loop asks
/// for the fetch of an item of that page only while fewer outcomes have
/// come than the page has items, and then for the item at that position.
pub proof fn lemma_page_bounds_fetches(
    s: LoopState,
    items: Seq<Item>,
    outcomes: Seq<EventView>,
)
    requires
        s.wf(),
        s.phase is Searching,
        fetch_outcomes(outcomes),
    ensures
        s.next(EventView::Page(items)).run(outcomes).phase is Fetching ==> {
            &&& outcomes.len() < items.len()
            &&& s.next(EventView::Page(items)).run(outcomes).pending() == (ActionView::Fetch {
                link: items[outcomes.len() as int].link@,
            })
        },
{
    lemma_page_keeps_its_place(s, items, outcomes);
}

/// A failed fetch costs its own item and nothing else. After a page has
/// arrived and some of its items have been dealt with, the target not
/// reached, the loop asks for the fetch of the item that follows them,
/// however many of the fetches before failed, and it has counted the stored
/// images among them and no others.
pub proof fn lemma_failed_fetch_is_skipped(
    s: LoopState,
    items: Seq<Item>,
    outcomes: Seq<EventView>,
)
    requires
        s.wf(),
        s.phase is Searching,
        fetch_outcomes(outcomes),
        outcomes.len() < items.len(),
        saved_in(outcomes) == 0 || s.saved + saved_in(outcomes) < s.target,
    ensures
        s.next(EventView::Page(items)).run(outcomes).pending() == (ActionView::Fetch {
            link: items[outcomes.len() as int].link@,
        }),
        s.next(EventView::Page(items)).run(outcomes).saved == s.saved + saved_in(outcomes),
{
    lemma_page_progress(s, items, outcomes);
}

/// The offset advances by the length of the page as it came. After every
/// item of a page has been dealt with, the target not reached, the loop
/// asks for the page that begins as many positions after the start of this
/// one as this one had items, be that a full page or a short one.
pub proof fn lemma_offset_advances_by_page_length(
    s: LoopState,
    items: Seq<Item>,
    outcomes: Seq<EventView>,
)
    requires
        s.wf(),
        s.phase is Searching,
        items.len() > 0,
        fetch_outcomes(outcomes),
        outcomes.len() == items.len(),
        saved_in(outcomes) == 0 || s.saved + saved_in(outcomes) < s.target,
    ensures
        s.pending() == (ActionView::Search { start: s.offset + 1 }),
        s.next(EventView::Page(items)).run(outcomes).pending() == (ActionView::Search {
            start: s.offset + 1 + items.len(),
        }),
{
    lemma_page_progress(s, items, outcomes);
}

/// The run stops at the stored image that reaches the target, in the middle
/// of a page too. When the outcomes so far have left the target unreached
/// and one more stored image reaches it, the loop finishes with the count at
/// that moment, and no item behind that one is fetched, whatever is
/// reported later.
pub proof fn lemma_stops_at_target(
    s: LoopState,
    items: Seq<Item>,
    outcomes: Seq<EventView>,
    later: Seq<EventView>,
)
    requires
        s.wf(),
        s.phase is Searching,
        fetch_outcomes(outcomes),
        outcomes.len() < items.len(),
        saved_in(outcomes) == 0 || s.saved + saved_in(outcomes) < s.target,
        s.saved + saved_in(outcomes) + 1 >= s.target,
    ensures
        s.next(EventView::Page(items)).run(outcomes).next(EventView::Saved).run(later).pending()
            == (ActionView::Finish { saved: s.saved + saved_in(outcomes) + 1 }),
{
    lemma_page_progress(s, items, outcomes);
    lemma_ended_run_stays_ended(
        s.next(EventView::Page(items)).run(outcomes).next(EventView::Saved),
        later,
    );
}

} // verus!
