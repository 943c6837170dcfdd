//! The single-flight SRS cache, as a state machine.
//!
//! The cache is the one piece of state shared between concurrent proving
//! sessions: a cell created empty, populated by at most one fetch at a
//! time, and immutable once populated. The surrounding application owns the
//! cell and the synchronisation primitive guarding it; this module owns the
//! decisions. Every change to the cell goes through [`cache_step`], which
//! maps the current state and an observed event to the next state and the
//! one action the application must perform. The lemmas at the end pin the
//! single-flight discipline: only a request against the empty cache starts
//! a fetch, a populated cache never changes or refetches, and a failed
//! fetch leaves the cache empty so a later request may retry.

use vstd::prelude::*;

use crate::BbError;
use crate::srs::Srs;

verus! {

/// The lifecycle of the shared SRS cache cell.
pub enum CacheState {
    /// No resolution has succeeded yet and none is running.
    Empty,
    /// The first requester's fetch is running; later requesters share its
    /// outcome instead of fetching again.
    Fetching,
    /// A resolution succeeded; the stored value never changes again during
    /// the session.
    Ready(Srs),
}

/// What the cache can observe.
pub enum CacheEvent {
    /// A caller asks for the SRS.
    Request,
    /// The running fetch came back with an assembled SRS.
    FetchSucceeded(Srs),
    /// The running fetch failed.
    FetchFailed,
}

/// What the application must do after a step.
#[derive(Clone, Copy, Debug, PartialEq, Eq, Structural)]
pub enum CacheAction {
    /// Start the one fetch and feed its outcome back as an event.
    StartFetch,
    /// Wait for the running fetch's shared outcome; do not fetch again.
    AwaitResult,
    /// Read the cached value; it is available.
    UseCached,
    /// Report the failure to the requesters that waited on the fetch.
    ReportFailure,
    /// Nothing: the event cannot arise in this state.
    Ignore,
}

/// The state after `event` hits `state`.
pub open spec fn spec_next(state: CacheState, event: CacheEvent) -> CacheState {
    match (state, event) {
        (CacheState::Empty, CacheEvent::Request) => CacheState::Fetching,
        (CacheState::Fetching, CacheEvent::FetchSucceeded(s)) => CacheState::Ready(s),
        (CacheState::Fetching, CacheEvent::FetchFailed) => CacheState::Empty,
        (s, _) => s,
    }
}

/// The action `event` demands in `state`.
pub open spec fn spec_action(state: CacheState, event: CacheEvent) -> CacheAction {
    match (state, event) {
        (CacheState::Empty, CacheEvent::Request) => CacheAction::StartFetch,
        (CacheState::Fetching, CacheEvent::Request) => CacheAction::AwaitResult,
        (CacheState::Ready(_), CacheEvent::Request) => CacheAction::UseCached,
        (CacheState::Fetching, CacheEvent::FetchSucceeded(_)) => CacheAction::UseCached,
        (CacheState::Fetching, CacheEvent::FetchFailed) => CacheAction::ReportFailure,
        (_, _) => CacheAction::Ignore,
    }
}

/// Advances the cache by one observed event.
pub fn cache_step(state: CacheState, event: CacheEvent) -> (r: (CacheState, CacheAction))
    ensures
        r.0 == spec_next(state, event),
        r.1 == spec_action(state, event),
{
    match (state, event) {
        (CacheState::Empty, CacheEvent::Request) => (CacheState::Fetching, CacheAction::StartFetch),
        (CacheState::Fetching, CacheEvent::Request) => (
            CacheState::Fetching,
            CacheAction::AwaitResult,
        ),
        (CacheState::Ready(s), CacheEvent::Request) => (
            CacheState::Ready(s),
            CacheAction::UseCached,
        ),
        (CacheState::Fetching, CacheEvent::FetchSucceeded(s)) => (
            CacheState::Ready(s),
            CacheAction::UseCached,
        ),
        (CacheState::Fetching, CacheEvent::FetchFailed) => (
            CacheState::Empty,
            CacheAction::ReportFailure,
        ),
        (s, _) => (s, CacheAction::Ignore),
    }
}

/// Reads the cached value. Before the cache was ever populated the read is
/// refused as [`BbError::NotInitialized`]; afterwards it hands out a copy
/// of the stored SRS.
pub fn cached_value(state: &CacheState) -> (r: Result<Srs, BbError>)
    ensures
        match r {
            Ok(s) => state is Ready && s@ == state->Ready_0@,
            Err(e) => !(state is Ready) && e == BbError::NotInitialized,
        },
{
    match state {
        CacheState::Ready(s) => Ok(s.clone()),
        _ => Err(BbError::NotInitialized),
    }
}

/// Only a request against the empty cache starts a fetch: the first
/// requester fetches, every concurrent requester is told to wait.
pub proof fn lemma_single_flight(state: CacheState, event: CacheEvent)
    ensures
        spec_action(state, event) == CacheAction::StartFetch <==> (state is Empty
            && event is Request),
{
}

/// A populated cache is write-once: no event changes the stored value, and
/// no further fetch ever starts.
pub proof fn lemma_write_once(state: CacheState, event: CacheEvent)
    requires
        state is Ready,
    ensures
        spec_next(state, event) == state,
        spec_action(state, event) != CacheAction::StartFetch,
{
}

/// A failed fetch does not poison the cache: the cache is empty again, and
/// the next request starts a fresh fetch.
pub proof fn lemma_retry_after_failure()
    ensures
        spec_next(CacheState::Fetching, CacheEvent::FetchFailed) is Empty,
        spec_action(CacheState::Empty, CacheEvent::Request) == CacheAction::StartFetch,
{
}

/// The state after a whole sequence of events.
pub open spec fn run_events(state: CacheState, events: Seq<CacheEvent>) -> CacheState
    decreases events.len(),
{
    if events.len() == 0 {
        state
    } else {
        run_events(spec_next(state, events[0]), events.drop_first())
    }
}

/// How many of the events start a fetch.
pub open spec fn count_fetch_starts(state: CacheState, events: Seq<CacheEvent>) -> nat
    decreases events.len(),
{
    if events.len() == 0 {
        0
    } else {
        (if spec_action(state, events[0]) is StartFetch {
            1nat
        } else {
            0nat
        }) + count_fetch_starts(spec_next(state, events[0]), events.drop_first())
    }
}

/// How many of the events are fetch failures.
pub open spec fn count_failures(events: Seq<CacheEvent>) -> nat
    decreases events.len(),
{
    if events.len() == 0 {
        0
    } else {
        (if events[0] is FetchFailed {
            1nat
        } else {
            0nat
        }) + count_failures(events.drop_first())
    }
}

/// Across any sequence of events, the cache starts at most one more fetch
/// than it saw failures: fetches are never redundant, only retries of
/// failed ones.
pub proof fn lemma_fetch_count_bound(state: CacheState, events: Seq<CacheEvent>)
    ensures
        count_fetch_starts(state, events) <= count_failures(events) + (if state is Empty {
            1int
        } else {
            0int
        }),
    decreases events.len(),
{
    if events.len() != 0 {
        lemma_fetch_count_bound(spec_next(state, events[0]), events.drop_first());
    }
}

/// Requests that find a fetch already running never start another one.
proof fn lemma_requests_join_running_fetch(events: Seq<CacheEvent>)
    requires
        forall|i: int| 0 <= i < events.len() ==> (#[trigger] events[i]) is Request,
    ensures
        count_fetch_starts(CacheState::Fetching, events) == 0,
    decreases events.len(),
{
    if events.len() != 0 {
        lemma_requests_join_running_fetch(events.drop_first());
    }
}

/// Any number of concurrent resolution requests against an empty cache
/// triggers exactly one fetch.
pub proof fn lemma_one_fetch_for_concurrent_requests(events: Seq<CacheEvent>)
    requires
        events.len() >= 1,
        forall|i: int| 0 <= i < events.len() ==> (#[trigger] events[i]) is Request,
    ensures
        count_fetch_starts(CacheState::Empty, events) == 1,
{
    lemma_requests_join_running_fetch(events.drop_first());
}

/// Once the cache is populated, every later requester observes the same
/// stored value, whatever else happens.
pub proof fn lemma_ready_stable(srs: Srs, events: Seq<CacheEvent>)
    ensures
        run_events(CacheState::Ready(srs), events) == CacheState::Ready(srs),
    decreases events.len(),
{
    if events.len() != 0 {
        lemma_ready_stable(srs, events.drop_first());
    }
}

} // verus!
