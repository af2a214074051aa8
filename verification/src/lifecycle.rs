//! Whole runs of the fetch bridge, and what holds of every one of them.
//!
//! `poll_request` speaks of one poll. A fetch is a run of polls, and two
//! fetches may take turns. The functions here say what such runs come to, and
//! the proofs say what no run can do.

use crate::error::FetchError;
use crate::request::{
    body, complete, fresh, in_flight, in_setup, next_action, poll, status_class, step, step_error,
    waiting, Action, Observation, PolledView, RequestState, RequestView,
};
use vstd::prelude::*;

verus! {

/// What one more poll makes of the outcome so far: a fetch that is settled
/// stays settled, whatever the host reports afterwards.
pub open spec fn advance(so_far: PolledView, observed: Observation) -> PolledView {
    match so_far {
        PolledView::Pending(request) => poll(request, observed),
        settled => settled,
    }
}

/// The request for `url` that stands in `state`.
pub open spec fn in_state(url: Seq<char>, state: RequestState) -> RequestView {
    RequestView { url, state }
}

/// The outcome of polling a request once for each report, in order.
pub open spec fn poll_all(request: RequestView, reports: Seq<Observation>) -> PolledView
    decreases reports.len(),
{
    if reports.len() == 0 {
        PolledView::Pending(request)
    } else {
        advance(poll_all(request, reports.drop_last()), reports.last())
    }
}

/// One poll in a run of two fetches that take turns.
pub ghost struct Turn {
    /// Whether the poll is of the first fetch.
    pub first: bool,
    /// What the host reports of that fetch.
    pub observed: Observation,
}

/// The reports that a run of turns holds for one of the two fetches, in order.
pub open spec fn reports_of(turns: Seq<Turn>, first: bool) -> Seq<Observation>
    decreases turns.len(),
{
    if turns.len() == 0 {
        Seq::empty()
    } else if turns.last().first == first {
        reports_of(turns.drop_last(), first).push(turns.last().observed)
    } else {
        reports_of(turns.drop_last(), first)
    }
}

/// The outcomes of two fetches that are polled in turns.
pub open spec fn poll_both(first: RequestView, second: RequestView, turns: Seq<Turn>) -> (
    PolledView,
    PolledView,
)
    decreases turns.len(),
{
    if turns.len() == 0 {
        (PolledView::Pending(first), PolledView::Pending(second))
    } else {
        let (one, other) = poll_both(first, second, turns.drop_last());
        if turns.last().first {
            (advance(one, turns.last().observed), other)
        } else {
            (one, advance(other, turns.last().observed))
        }
    }
}

/// The setup is four steps in a fixed order: construct, open, set the response
/// type, send. When each succeeds the request is sent, to the URL it was made
/// for, and the host is asked to watch the exchange.
pub proof fn lemma_setup_dispatches(url: Seq<char>)
    ensures
        fresh(url) == in_state(url, RequestState::Unbuilt),
        next_action(RequestState::Unbuilt) == Action::Construct,
        step(in_state(url, RequestState::Unbuilt), true) == Ok::<RequestView, FetchError>(
            in_state(url, RequestState::Built),
        ),
        next_action(RequestState::Built) == Action::Open,
        step(in_state(url, RequestState::Built), true) == Ok::<RequestView, FetchError>(
            in_state(url, RequestState::Opened),
        ),
        next_action(RequestState::Opened) == Action::SetBinaryResponse,
        step(in_state(url, RequestState::Opened), true) == Ok::<RequestView, FetchError>(
            in_state(url, RequestState::Created),
        ),
        next_action(RequestState::Created) == Action::Send,
        step(in_state(url, RequestState::Created), true) == Ok::<RequestView, FetchError>(
            in_state(url, RequestState::Sent),
        ),
        next_action(RequestState::Sent) == Action::Watch,
{
}

/// A step of the setup that fails ends the fetch, with the error of that step
/// and of no other.
pub proof fn lemma_setup_failure(request: RequestView)
    requires
        in_setup(request.state),
    ensures
        step(request, false) == Err::<RequestView, FetchError>(step_error(request.state)),
        request.state == RequestState::Unbuilt <==> step_error(request.state)
            == FetchError::CreateFailed,
        request.state == RequestState::Built <==> step_error(request.state)
            == FetchError::OpenFailed,
        request.state == RequestState::Opened <==> step_error(request.state)
            == FetchError::ResponseTypeFailed,
        request.state == RequestState::Created <==> step_error(request.state)
            == FetchError::SendFailed,
{
}

/// A request that was never dispatched has no answer, whatever is reported.
pub proof fn lemma_unsent_stays_pending(request: RequestView, reports: Seq<Observation>)
    requires
        in_setup(request.state),
    ensures
        poll_all(request, reports) == PolledView::Pending(request),
    decreases reports.len(),
{
    if reports.len() > 0 {
        lemma_unsent_stays_pending(request, reports.drop_last());
    }
}

/// While every report says "not yet", a request in flight stays pending, and
/// keeps its URL.
pub proof fn lemma_waiting_stays_pending(request: RequestView, reports: Seq<Observation>)
    requires
        in_flight(request.state),
        forall|i: int| 0 <= i < reports.len() ==> waiting(#[trigger] reports[i]),
    ensures
        poll_all(request, reports) matches PolledView::Pending(later) && later.url == request.url
            && in_flight(later.state) && (reports.len() > 0 ==> later.state
            == RequestState::Pending),
    decreases reports.len(),
{
    if reports.len() > 0 {
        lemma_waiting_stays_pending(request, reports.drop_last());
    }
}

/// A fetch whose response is complete at the n-th poll, with status 2xx, has
/// no answer after any earlier poll, and succeeds at the n-th with the bytes
/// of that response.
pub proof fn lemma_success_at_completion(
    request: RequestView,
    reports: Seq<Observation>,
    bytes: Seq<u8>,
)
    requires
        in_flight(request.state),
        reports.len() >= 1,
        forall|i: int| 0 <= i < reports.len() - 1 ==> waiting(#[trigger] reports[i]),
        complete(reports.last()),
        body(reports.last().response) == Ok::<Seq<u8>, FetchError>(bytes),
    ensures
        forall|k: int|
            0 <= k < reports.len() ==> #[trigger] poll_all(request, reports.take(k)) is Pending,
        poll_all(request, reports) == PolledView::Succeeded(bytes),
{
    assert forall|k: int| 0 <= k < reports.len() implies #[trigger] poll_all(
        request,
        reports.take(k),
    ) is Pending by {
        lemma_waiting_stays_pending(request, reports.take(k));
    }
    lemma_waiting_stays_pending(request, reports.drop_last());
}

/// A status that is known and outside 2xx fails a fetch in flight at once,
/// with that status in the error.
pub proof fn lemma_bad_status_fails(request: RequestView, observed: Observation)
    requires
        in_flight(request.state),
        status_class(observed.status) != 2,
        status_class(observed.status) != 0,
    ensures
        poll(request, observed) == PolledView::Failed(FetchError::BadStatus(observed.status)),
{
}

/// A fetch that has settled never changes its answer: no later report turns a
/// failure into a success, or a success into anything else.
pub proof fn lemma_settled_is_final(
    request: RequestView,
    reports: Seq<Observation>,
    later: Seq<Observation>,
)
    requires
        !(poll_all(request, reports) is Pending),
    ensures
        poll_all(request, reports + later) == poll_all(request, reports),
    decreases later.len(),
{
    if later.len() == 0 {
    } else {
        lemma_settled_is_final(request, reports, later.drop_last());
        assert((reports + later).drop_last() =~= reports + later.drop_last());
    }
}

/// A fetch that meets a bad status after any wait ends in that failure and
/// stays there: it never succeeds, whatever the host reports afterwards.
pub proof fn lemma_bad_status_is_final(
    request: RequestView,
    waits: Seq<Observation>,
    bad: Observation,
    later: Seq<Observation>,
)
    requires
        in_flight(request.state),
        forall|i: int| 0 <= i < waits.len() ==> waiting(#[trigger] waits[i]),
        status_class(bad.status) != 2,
        status_class(bad.status) != 0,
    ensures
        poll_all(request, waits.push(bad) + later) == PolledView::Failed(
            FetchError::BadStatus(bad.status),
        ),
{
    lemma_waiting_stays_pending(request, waits);
    assert(waits.push(bad).drop_last() =~= waits);
    lemma_settled_is_final(request, waits.push(bad), later);
}

/// The host is asked to watch an exchange once: at the first poll of a sent
/// request, and at no poll after it.
pub proof fn lemma_watch_once(request: RequestView, reports: Seq<Observation>)
    requires
        request.state == RequestState::Sent,
        reports.len() >= 1,
    ensures
        next_action(request.state) == Action::Watch,
        poll_all(request, reports) matches PolledView::Pending(later) ==> later.state
            == RequestState::Pending && next_action(later.state) == Action::Observe,
    decreases reports.len(),
{
    let earlier = reports.drop_last();
    if earlier.len() > 0 {
        lemma_watch_once(request, earlier);
    } else {
        assert(poll_all(request, earlier) == PolledView::Pending(request));
    }
}

/// Two fetches that are polled in turns do not touch each other: each comes
/// to what it would have come to alone, on the reports that were its own.
pub proof fn lemma_turns_are_independent(
    first: RequestView,
    second: RequestView,
    turns: Seq<Turn>,
)
    ensures
        poll_both(first, second, turns) == (
            poll_all(first, reports_of(turns, true)),
            poll_all(second, reports_of(turns, false)),
        ),
    decreases turns.len(),
{
    if turns.len() > 0 {
        let earlier = turns.drop_last();
        let last = turns.last();
        lemma_turns_are_independent(first, second, earlier);
        let mine = reports_of(earlier, last.first);
        assert(mine.push(last.observed).drop_last() =~= mine);
    }
}

} // verus!
