//! Whole runs, and what holds of every one of them.
//!
//! A run is the sequence of events that the caller reported, starting from
//! the initial state. The laws below speak of every such sequence, whatever
//! the outside world answered and in whatever order it was reported.

use crate::ledger::{decimal_text, lemma_render_then_parse, parse_request_id_spec};
use crate::orchestrator::{next_state, pending, Action, Event, State};
use vstd::prelude::*;

verus! {

/// The state that a run is in once `events` have been reported.
pub open spec fn state_after(events: Seq<Event<Seq<char>>>) -> State<Seq<char>>
    decreases events.len(),
{
    if events.len() == 0 {
        State::Init
    } else {
        next_state(state_after(events.drop_last()), events.last())
    }
}

/// The action that a run asks for once the first `i` of `events` have been
/// reported.
pub open spec fn action_at(events: Seq<Event<Seq<char>>>, i: int) -> Action<Seq<char>> {
    pending(state_after(events.take(i)))
}

/// The `j`-th event reports that the token `token` was granted, in answer
/// to a request for authorization.
pub open spec fn grants_at(events: Seq<Event<Seq<char>>>, j: int, token: Seq<char>) -> bool {
    &&& 0 <= j < events.len()
    &&& action_at(events, j) == Action::<Seq<char>>::Authorize
    &&& events[j] == Event::TokenGranted { token }
}

/// The `j`-th event confirms the creation of an event, in answer to a
/// creation call that carried `request_id`.
pub open spec fn confirms_at(events: Seq<Event<Seq<char>>>, j: int, request_id: u64) -> bool {
    &&& 0 <= j < events.len()
    &&& action_at(events, j) matches Action::CreateEvent { request_id: used, .. }
    &&& used == request_id
    &&& events[j] is EventCreated
}

/// The `j`-th event reports that the ledger took new contents, in answer to
/// a request to write them.
pub open spec fn writes_at(events: Seq<Event<Seq<char>>>, j: int) -> bool {
    &&& 0 <= j < events.len()
    &&& action_at(events, j) is WriteLedger
    &&& events[j] == Event::<Seq<char>>::LedgerWritten { ok: true }
}

pub open spec fn token_granted_before(events: Seq<Event<Seq<char>>>, i: int, token: Seq<char>)
    -> bool {
    exists|j: int| j < i && #[trigger] grants_at(events, j, token)
}

pub open spec fn create_confirmed_before(events: Seq<Event<Seq<char>>>, i: int, request_id: u64)
    -> bool {
    exists|j: int| j < i && #[trigger] confirms_at(events, j, request_id)
}

/// Among the first `i` events, one reports a write to the ledger.
pub open spec fn ledger_written_before(events: Seq<Event<Seq<char>>>, i: int) -> bool {
    exists|j: int| j < i && #[trigger] writes_at(events, j)
}

/// What the ledger file holds once `events` have been reported, given what
/// it held before the run: a write that was reported as done replaces the
/// contents, and nothing else touches them. `None` stands for a missing
/// file.
pub open spec fn ledger_after(before: Option<Seq<char>>, events: Seq<Event<Seq<char>>>) -> Option<
    Seq<char>,
>
    decreases events.len(),
{
    if events.len() == 0 {
        before
    } else {
        let earlier = events.drop_last();
        match pending(state_after(earlier)) {
            Action::WriteLedger { contents } if events.last() == (Event::<
                Seq<char>,
            >::LedgerWritten { ok: true }) => Some(contents),
            _ => ledger_after(before, earlier),
        }
    }
}

/// The request identifier that the ledger file holds, if it holds one.
pub open spec fn ledger_value(contents: Option<Seq<char>>) -> Option<u64> {
    match contents {
        Some(text) => match parse_request_id_spec(text) {
            Ok(request_id) => Some(request_id),
            Err(_) => None,
        },
        None => None,
    }
}

/// Whenever the run asked to read the ledger, the answer reported the file
/// as it was before the run.
pub open spec fn reads_faithfully(before: Option<Seq<char>>, events: Seq<Event<Seq<char>>>)
    -> bool {
    forall|j: int|
        0 <= j < events.len() && #[trigger] action_at(events, j) == Action::<
            Seq<char>,
        >::ReadLedger ==> match events[j] {
            Event::LedgerRead { contents } => before == Some(contents),
            Event::LedgerUnreadable => before is None,
            _ => true,
        }
}

/// Two runs that differ at most in how deletions ended.
pub open spec fn same_but_for_deletions(
    first: Seq<Event<Seq<char>>>,
    second: Seq<Event<Seq<char>>>,
) -> bool {
    &&& first.len() == second.len()
    &&& forall|j: int|
        0 <= j < first.len() ==> #[trigger] first[j] == second[j] || (first[j] is DeleteFinished
            && second[j] is DeleteFinished)
}

/// The access token that a state holds.
pub open spec fn token_of(state: State<Seq<char>>) -> Option<Seq<char>> {
    match state {
        State::Authorized { token, .. } => Some(token),
        State::Created { meeting } => Some(meeting.token),
        State::LinkDelivered { meeting } => Some(meeting.token),
        State::AdvancedLedger { meeting, .. } => Some(meeting.token),
        _ => None,
    }
}

/// The request identifier that a state holds.
pub open spec fn request_id_of(state: State<Seq<char>>) -> Option<u64> {
    match state {
        State::Ready { request_id } => Some(request_id),
        State::Authorized { request_id, .. } => Some(request_id),
        State::Created { meeting } => Some(meeting.request_id),
        State::LinkDelivered { meeting } => Some(meeting.request_id),
        State::AdvancedLedger { meeting, .. } => Some(meeting.request_id),
        _ => None,
    }
}

/// The meeting link that the user has been given.
pub open spec fn link_of(state: State<Seq<char>>) -> Option<Seq<char>> {
    match state {
        State::Created { meeting } => Some(meeting.link),
        State::LinkDelivered { meeting } => Some(meeting.link),
        State::AdvancedLedger { meeting, .. } => Some(meeting.link),
        State::Deleted { link, .. } => Some(link),
        State::Done { link, .. } => Some(link),
        _ => None,
    }
}

/// The event exists.
pub open spec fn past_creation(state: State<Seq<char>>) -> bool {
    link_of(state) is Some
}

/// Whether the write to the ledger was reported as done.
pub open spec fn advanced_in(state: State<Seq<char>>) -> bool {
    match state {
        State::AdvancedLedger { advanced, .. } => advanced,
        State::Deleted { advanced, .. } => advanced,
        State::Done { advanced, .. } => advanced,
        _ => false,
    }
}

proof fn lemma_step(events: Seq<Event<Seq<char>>>, k: int)
    requires
        0 <= k < events.len(),
    ensures
        state_after(events.take(k + 1)) == next_state(state_after(events.take(k)), events[k]),
{
    assert(events.take(k + 1).drop_last() =~= events.take(k));
    assert(events.take(k + 1).last() == events[k]);
}

proof fn lemma_ledger_step(before: Option<Seq<char>>, events: Seq<Event<Seq<char>>>, k: int)
    requires
        0 <= k < events.len(),
    ensures
        ledger_after(before, events.take(k + 1)) == if writes_at(events, k) {
            Some(action_at(events, k)->contents)
        } else {
            ledger_after(before, events.take(k))
        },
{
    assert(events.take(k + 1).drop_last() =~= events.take(k));
    assert(events.take(k + 1).last() == events[k]);
}

/// What a run's state says of the ledger and of the events that led to it.
spec fn ledger_consistent(before: Option<Seq<char>>, events: Seq<Event<Seq<char>>>, k: int) -> bool {
    let state = state_after(events.take(k));
    let ledger = ledger_after(before, events.take(k));
    &&& request_id_of(state) matches Some(request_id) ==> ledger_value(before) == Some(request_id)
    &&& past_creation(state) ==> (ledger_value(before) matches Some(request_id)
        && create_confirmed_before(events, k, request_id))
    &&& advanced_in(state) ==> ledger_written_before(events, k) && (ledger_value(before) matches Some(
        request_id,
    ) && ledger == Some(decimal_text((request_id + 1) as nat)))
    &&& !advanced_in(state) ==> !ledger_written_before(events, k) && ledger == before
}

proof fn lemma_ledger_consistent(before: Option<Seq<char>>, events: Seq<Event<Seq<char>>>, k: int)
    requires
        reads_faithfully(before, events),
        0 <= k <= events.len(),
    ensures
        ledger_consistent(before, events, k),
    decreases k,
{
    if k == 0 {
        assert(events.take(0) =~= Seq::<Event<Seq<char>>>::empty());
    } else {
        let i = k - 1;
        lemma_ledger_consistent(before, events, i);
        lemma_step(events, i);
        lemma_ledger_step(before, events, i);
        let state = state_after(events.take(i));
        let next = state_after(events.take(k));
        assert(action_at(events, i) == pending(state));
        if past_creation(next) {
            let request_id = ledger_value(before)->0;
            if past_creation(state) {
                let j = choose|j: int| j < i && #[trigger] confirms_at(events, j, request_id);
                assert(j < k && confirms_at(events, j, request_id));
            } else {
                assert(confirms_at(events, i, request_id));
            }
        }
        if advanced_in(next) {
            if advanced_in(state) {
                let j = choose|j: int| j < i && #[trigger] writes_at(events, j);
                assert(j < k && writes_at(events, j));
            } else {
                assert(writes_at(events, i));
            }
        } else {
            assert(!writes_at(events, i));
        }
    }
}

proof fn lemma_token_invariant(events: Seq<Event<Seq<char>>>, k: int)
    requires
        0 <= k <= events.len(),
    ensures
        token_of(state_after(events.take(k))) matches Some(token) ==> token_granted_before(
            events,
            k,
            token,
        ),
    decreases k,
{
    if k == 0 {
        assert(events.take(0) =~= Seq::<Event<Seq<char>>>::empty());
    } else {
        let i = k - 1;
        lemma_token_invariant(events, i);
        lemma_step(events, i);
        let state = state_after(events.take(i));
        let next = state_after(events.take(k));
        if let Some(token) = token_of(next) {
            if token_of(state) == Some(token) {
                let j = choose|j: int| j < i && #[trigger] grants_at(events, j, token);
                assert(j < k && grants_at(events, j, token));
            } else {
                assert(grants_at(events, i, token));
            }
        }
    }
}

proof fn lemma_creation_invariant(events: Seq<Event<Seq<char>>>, k: int)
    requires
        0 <= k <= events.len(),
    ensures
        past_creation(state_after(events.take(k))) ==> (request_id_of(
            state_after(events.take(k)),
        ) matches Some(request_id) ==> create_confirmed_before(events, k, request_id)),
    decreases k,
{
    if k == 0 {
        assert(events.take(0) =~= Seq::<Event<Seq<char>>>::empty());
    } else {
        let i = k - 1;
        lemma_creation_invariant(events, i);
        lemma_step(events, i);
        let state = state_after(events.take(i));
        let next = state_after(events.take(k));
        if past_creation(next) {
            if let Some(request_id) = request_id_of(next) {
                if past_creation(state) {
                    let j = choose|j: int| j < i && #[trigger] confirms_at(events, j, request_id);
                    assert(j < k && confirms_at(events, j, request_id));
                } else {
                    assert(confirms_at(events, i, request_id));
                }
            }
        }
    }
}

/// No creation and no deletion is asked for before an access token has been
/// granted, and both carry a token that was granted.
pub proof fn lemma_token_precedes_calendar_calls(events: Seq<Event<Seq<char>>>, i: int)
    requires
        0 <= i <= events.len(),
    ensures
        action_at(events, i) matches Action::CreateEvent { token, .. } ==> token_granted_before(
            events,
            i,
            token,
        ),
        action_at(events, i) matches Action::DeleteEvent { token, .. } ==> token_granted_before(
            events,
            i,
            token,
        ),
{
    lemma_token_invariant(events, i);
}

/// The ledger is told to advance only after the creation that carried its
/// value has been confirmed, and it is told to hold that value's successor.
pub proof fn lemma_advance_follows_confirmed_creation(events: Seq<Event<Seq<char>>>, i: int)
    requires
        0 <= i <= events.len(),
    ensures
        action_at(events, i) matches Action::WriteLedger { contents } ==> exists|request_id: u64|
            #[trigger] create_confirmed_before(events, i, request_id) && contents == decimal_text(
                (request_id + 1) as nat,
            ),
{
    lemma_creation_invariant(events, i);
    if let State::LinkDelivered { meeting } = state_after(events.take(i)) {
        assert(create_confirmed_before(events, i, meeting.request_id));
    }
}

/// Every creation call carries the request identifier that the ledger held
/// when the run began.
pub proof fn lemma_creation_carries_ledger_value(
    before: Option<Seq<char>>,
    events: Seq<Event<Seq<char>>>,
    i: int,
)
    requires
        reads_faithfully(before, events),
        0 <= i <= events.len(),
    ensures
        action_at(events, i) matches Action::CreateEvent { request_id, .. } ==> ledger_value(before)
            == Some(request_id),
{
    lemma_ledger_consistent(before, events, i);
}

/// The ledger after a run holds the successor of what it held before if the
/// run wrote to it, which it does only once the creation that carried the
/// former value has been confirmed. After any other run the ledger holds
/// what it held before. So the next run reads a request identifier that is
/// greater by one exactly if this run had its creation confirmed and wrote
/// to the ledger.
///
/// The largest request identifier has no successor that is one: a run that
/// started from it leaves text in the ledger that the next run rejects.
pub proof fn lemma_ledger_advances_by_one_or_stays(
    before: Option<Seq<char>>,
    events: Seq<Event<Seq<char>>>,
)
    requires
        reads_faithfully(before, events),
    ensures
        ledger_written_before(events, events.len() as int) ==> (ledger_value(before) matches Some(
            request_id,
        ) && create_confirmed_before(events, events.len() as int, request_id) && ledger_after(
            before,
            events,
        ) == Some(decimal_text((request_id + 1) as nat))),
        !ledger_written_before(events, events.len() as int) ==> ledger_after(before, events)
            == before,
        ledger_value(before) matches Some(request_id) ==> request_id < u64::MAX ==> (ledger_value(
            ledger_after(before, events),
        ) == Some((request_id + 1) as u64) <==> ledger_written_before(events, events.len() as int)
            && create_confirmed_before(events, events.len() as int, request_id)),
{
    lemma_ledger_consistent(before, events, events.len() as int);
    assert(events.take(events.len() as int) =~= events);
    if let Some(request_id) = ledger_value(before) {
        if request_id < u64::MAX {
            lemma_render_then_parse((request_id + 1) as nat);
        }
    }
}

/// A run that follows one which did not write to the ledger sends the same
/// request identifier again, so that the calendar can recognise a repeated
/// creation.
pub proof fn lemma_retry_reuses_identifier(
    before: Option<Seq<char>>,
    first: Seq<Event<Seq<char>>>,
    second: Seq<Event<Seq<char>>>,
    i: int,
    j: int,
)
    requires
        reads_faithfully(before, first),
        reads_faithfully(ledger_after(before, first), second),
        !ledger_written_before(first, first.len() as int),
        0 <= i <= first.len(),
        0 <= j <= second.len(),
        action_at(first, i) is CreateEvent,
        action_at(second, j) is CreateEvent,
    ensures
        action_at(first, i)->request_id == action_at(second, j)->request_id,
{
    lemma_ledger_advances_by_one_or_stays(before, first);
    lemma_creation_carries_ledger_value(before, first, i);
    lemma_creation_carries_ledger_value(before, second, j);
}

/// How a deletion ends changes nothing but what the user is told about it:
/// two runs that differ only there are in the same state, and so hold the
/// same link and ask for the same action next.
pub proof fn lemma_deletion_outcome_is_immaterial(
    first: Seq<Event<Seq<char>>>,
    second: Seq<Event<Seq<char>>>,
)
    requires
        same_but_for_deletions(first, second),
    ensures
        state_after(first) == state_after(second),
        link_of(state_after(first)) == link_of(state_after(second)),
        pending(state_after(first)) == pending(state_after(second)),
    decreases first.len(),
{
    if first.len() > 0 {
        assert(same_but_for_deletions(first.drop_last(), second.drop_last()));
        lemma_deletion_outcome_is_immaterial(first.drop_last(), second.drop_last());
        assert(first[first.len() - 1] == second[first.len() - 1] || (first[first.len() - 1]
            is DeleteFinished && second[first.len() - 1] is DeleteFinished));
    }
}

/// The run is over: it ended with a link or was given up.
pub open spec fn finished(state: State<Seq<char>>) -> bool {
    state is Done || state is Aborted
}

/// A run that is over stays as it ended, whatever is reported afterwards:
/// it asks for nothing more than to leave, and the ledger is left alone.
pub proof fn lemma_finished_run_stays_finished(
    before: Option<Seq<char>>,
    events: Seq<Event<Seq<char>>>,
    more: Seq<Event<Seq<char>>>,
)
    requires
        finished(state_after(events)),
    ensures
        state_after(events + more) == state_after(events),
        pending(state_after(events + more)) is Exit,
        ledger_after(before, events + more) == ledger_after(before, events),
    decreases more.len(),
{
    if more.len() == 0 {
        assert(events + more =~= events);
    } else {
        lemma_finished_run_stays_finished(before, events, more.drop_last());
        assert((events + more).drop_last() =~= events + more.drop_last());
        assert((events + more).last() == more.last());
    }
}

} // verus!
