//! The pagination driver: which page is asked for next, when a page is
//! written, and when the synchronisation ends.

use vstd::prelude::*;
use crate::batch::total;
use crate::cmc::status::Status;
use crate::error::{Error, ErrorView};

verus! {

/// Where a synchronisation stands. `total` counts the records of the pages
/// written so far, `fetches` the pages asked for.
#[derive(Clone, Debug, PartialEq, Eq)]
pub enum State {
    /// The page that begins with record number `offset` has been asked for.
    Fetching { offset: usize, total: usize, fetches: usize },
    /// A page of `len` records is being written.
    Writing { offset: usize, total: usize, fetches: usize, len: usize },
    /// The remote has no more records.
    Done { total: usize, fetches: usize },
    /// The synchronisation was given up.
    Failed { error: Error, total: usize, fetches: usize },
}

/// What happened since the last step.
#[derive(Clone, Debug, PartialEq, Eq)]
pub enum Event {
    /// The remote answered with this status and, where `len` is not
    /// `None`, with that many records.
    Page { status: Status, len: Option<usize> },
    /// The page at hand has been written, all of it.
    Written,
    /// The transport or the store failed.
    Failure(Error),
}

/// What is to be done next.
#[derive(Clone, Copy, Debug, PartialEq, Eq, Structural)]
pub enum Action {
    /// Ask for the page that begins with record number `start`.
    Fetch { start: usize },
    /// Record the call and write the `len` records of its page.
    Write { len: usize },
    /// Nothing: the synchronisation has ended.
    Stop,
}

/// What a state holds.
pub enum StateView {
    Fetching { offset: usize, total: usize, fetches: usize },
    Writing { offset: usize, total: usize, fetches: usize, len: usize },
    Done { total: usize, fetches: usize },
    Failed { error: ErrorView, total: usize, fetches: usize },
}

/// What an event holds.
pub enum EventView {
    Page { failure: Option<ErrorView>, len: Option<usize> },
    Written,
    Failure(ErrorView),
}

impl View for State {
    type V = StateView;

    open spec fn view(&self) -> StateView {
        match *self {
            State::Fetching { offset, total, fetches } => StateView::Fetching {
                offset,
                total,
                fetches,
            },
            State::Writing { offset, total, fetches, len } => StateView::Writing {
                offset,
                total,
                fetches,
                len,
            },
            State::Done { total, fetches } => StateView::Done { total, fetches },
            State::Failed { error, total, fetches } => StateView::Failed {
                error: error@,
                total,
                fetches,
            },
        }
    }
}

impl View for Event {
    type V = EventView;

    open spec fn view(&self) -> EventView {
        match *self {
            Event::Page { status, len } => EventView::Page {
                failure: if status.error_code == 0 {
                    None
                } else {
                    Some(status.failure())
                },
                len: len,
            },
            Event::Written => EventView::Written,
            Event::Failure(error) => EventView::Failure(error@),
        }
    }
}

/// The failure of a synchronisation that would need more pages than it
/// may ask for.
pub open spec fn limit_failure() -> ErrorView {
    ErrorView::RqError("page limit reached"@)
}

/// The failure of a synchronisation whose record count leaves the range
/// of the machine word.
pub open spec fn count_failure() -> ErrorView {
    ErrorView::Error("record count out of range"@)
}

/// The state in which a synchronisation that may ask for `limit` pages
/// begins: the first page starts with record number 1.
pub open spec fn initial(limit: usize) -> StateView {
    if limit == 0 {
        StateView::Failed { error: limit_failure(), total: 0, fetches: 0 }
    } else {
        StateView::Fetching { offset: 1, total: 0, fetches: 1 }
    }
}

/// The state that follows `state` on `event`.
///
/// While a page is awaited: a failure reported by the remote or by the
/// transport ends the synchronisation before anything of that page is
/// written; a page without records ends it in success; any other page is
/// written. While a page is written: once it is, its records are counted
/// and the page behind it is asked for, unless the limit of pages or the
/// range of the count is exhausted; a failure of the store ends the
/// synchronisation with the count as it stood before the page. An event
/// that the state does not wait for changes nothing.
pub open spec fn next(state: StateView, event: EventView, limit: usize) -> StateView {
    match state {
        StateView::Fetching { offset, total, fetches } => match event {
            EventView::Page { failure: Some(error), len } => StateView::Failed {
                error,
                total,
                fetches,
            },
            EventView::Page { failure: None, len: Some(len) } => if len == 0 {
                StateView::Done { total, fetches }
            } else {
                StateView::Writing { offset, total, fetches, len }
            },
            EventView::Page { failure: None, len: None } => StateView::Done { total, fetches },
            EventView::Failure(error) => StateView::Failed { error, total, fetches },
            EventView::Written => state,
        },
        StateView::Writing { offset, total, fetches, len } => match event {
            EventView::Written => if offset + len > usize::MAX || total + len > usize::MAX {
                StateView::Failed { error: count_failure(), total, fetches }
            } else if fetches >= limit {
                StateView::Failed {
                    error: limit_failure(),
                    total: (total + len) as usize,
                    fetches,
                }
            } else {
                StateView::Fetching {
                    offset: (offset + len) as usize,
                    total: (total + len) as usize,
                    fetches: (fetches + 1) as usize,
                }
            },
            EventView::Failure(error) => StateView::Failed { error, total, fetches },
            EventView::Page { .. } => state,
        },
        _ => state,
    }
}

/// What a state asks for.
pub open spec fn action_of(state: StateView) -> Action {
    match state {
        StateView::Fetching { offset, .. } => Action::Fetch { start: offset },
        StateView::Writing { len, .. } => Action::Write { len },
        _ => Action::Stop,
    }
}

impl State {
    /// What the state asks for.
    pub fn action(&self) -> (r: Action)
        ensures
            r == action_of(self@),
    {
        match self {
            State::Fetching { offset, .. } => Action::Fetch { start: *offset },
            State::Writing { len, .. } => Action::Write { len: *len },
            _ => Action::Stop,
        }
    }

    /// The outcome of a synchronisation that has ended: the number of
    /// records written, or the failure together with the number of records
    /// written before it. `None` while the synchronisation goes on.
    pub fn finish(self) -> (r: Option<Result<usize, (Error, usize)>>)
        ensures
            match self@ {
                StateView::Done { total, .. } => r == Some(
                    Ok::<usize, (Error, usize)>(total),
                ),
                StateView::Failed { error, total, .. } => r matches Some(Err(pair))
                    && pair.0@ == error && pair.1 == total,
                _ => r is None,
            },
    {
        match self {
            State::Done { total, .. } => Some(Ok(total)),
            State::Failed { error, total, .. } => Some(Err((error, total))),
            _ => None,
        }
    }
}

/// Begins a synchronisation that may ask for at most `limit` pages.
pub fn start(limit: usize) -> (r: State)
    ensures
        r@ == initial(limit),
{
    if limit == 0 {
        State::Failed {
            error: Error::RqError(String::from_str("page limit reached")),
            total: 0,
            fetches: 0,
        }
    } else {
        State::Fetching { offset: 1, total: 0, fetches: 1 }
    }
}

/// Takes a synchronisation one step on: the state that follows `state` on
/// `event`, and what that state asks for.
pub fn step(state: State, event: Event, limit: usize) -> (r: (State, Action))
    ensures
        r.0@ == next(state@, event@, limit),
        r.1 == action_of(r.0@),
{
    let after: State = match state {
        State::Fetching { offset, total, fetches } => match event {
            Event::Page { status, len } => match status.check() {
                Err(error) => State::Failed { error, total, fetches },
                Ok(_) => match len {
                    Some(len) => if len == 0 {
                        State::Done { total, fetches }
                    } else {
                        State::Writing { offset, total, fetches, len }
                    },
                    None => State::Done { total, fetches },
                },
            },
            Event::Failure(error) => State::Failed { error, total, fetches },
            Event::Written => State::Fetching { offset, total, fetches },
        },
        State::Writing { offset, total, fetches, len } => match event {
            Event::Written => match (offset.checked_add(len), total.checked_add(len)) {
                (Some(next_offset), Some(next_total)) => if fetches >= limit {
                    State::Failed {
                        error: Error::RqError(String::from_str("page limit reached")),
                        total: next_total,
                        fetches,
                    }
                } else {
                    State::Fetching {
                        offset: next_offset,
                        total: next_total,
                        fetches: fetches + 1,
                    }
                },
                _ => State::Failed {
                    error: Error::new(String::from_str("record count out of range")),
                    total,
                    fetches,
                },
            },
            Event::Failure(error) => State::Failed { error, total, fetches },
            Event::Page { .. } => State::Writing { offset, total, fetches, len },
        },
        State::Done { total, fetches } => State::Done { total, fetches },
        State::Failed { error, total, fetches } => State::Failed { error, total, fetches },
    };
    let action: Action = after.action();
    (after, action)
}

/// The event of a page of `len` records that the remote sent without
/// complaint.
pub open spec fn page_of(len: nat) -> EventView {
    EventView::Page { failure: None, len: Some(len as usize) }
}

/// The state after the remote has answered with pages of the given
/// lengths, one after another, and each page that was to be written has
/// been written.
pub open spec fn after_pages(state: StateView, pages: Seq<nat>, limit: usize) -> StateView
    decreases pages.len(),
{
    if pages.len() == 0 {
        state
    } else {
        let fetched = next(state, page_of(pages.first()), limit);
        let written = if fetched is Writing {
            next(fetched, EventView::Written, limit)
        } else {
            fetched
        };
        after_pages(written, pages.drop_first(), limit)
    }
}

/// Pages with records followed by a page without: the synchronisation
/// ends in success with the records of all pages counted, having asked for
/// each of the pages once, the empty one included. Every page is asked for
/// at the record number that follows the records counted so far.
pub proof fn pagination_terminates(
    offset: usize,
    counted: usize,
    fetches: usize,
    pages: Seq<nat>,
    limit: usize,
)
    requires
        forall|i: int| 0 <= i < pages.len() ==> #[trigger] pages[i] > 0,
        fetches + pages.len() <= limit,
        offset + total(pages) <= usize::MAX,
        counted + total(pages) <= usize::MAX,
    ensures
        after_pages(StateView::Fetching { offset, total: counted, fetches }, pages.push(0), limit)
            == (StateView::Done {
            total: (counted + total(pages)) as usize,
            fetches: (fetches + pages.len()) as usize,
        }),
    decreases pages.len(),
{
    let state = StateView::Fetching { offset, total: counted, fetches };
    let all = pages.push(0);
    if pages.len() == 0 {
        assert(all.drop_first() =~= Seq::<nat>::empty());
        let ended = next(state, page_of(0), limit);
        assert(after_pages(ended, all.drop_first(), limit) == ended);
    } else {
        let len = pages.first();
        let rest = pages.drop_first();
        assert(all.drop_first() =~= rest.push(0));
        assert(all.first() == len);
        assert(total(pages) == len + total(rest));
        assert forall|i: int| 0 <= i < rest.len() implies #[trigger] rest[i] > 0 by {
            assert(rest[i] == pages[i + 1]);
        }
        pagination_terminates(
            (offset + len) as usize,
            (counted + len) as usize,
            (fetches + 1) as usize,
            rest,
            limit,
        );
    }
}

} // verus!
