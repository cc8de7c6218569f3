//! What holds of whole runs: of every sequence of events that can reach the machine.

use crate::error::ErrorKind;
use crate::pipeline::{
    exit_code_error, invalid_input_error, is_terminal, next_action, next_state, ActionView,
    EventView, StateView, SUCCESS_EXIT_CODE,
};
use crate::record::{encode_record, fingerprint_of, RecordView};
use crate::toolchain::build_succeeded_spec;
use crate::workspace::proof_slot;
use vstd::prelude::*;
use vstd::utf8::*;

verus! {

/// The state that a run in `state` reaches when `events` arrive in order.
pub open spec fn state_after(state: StateView, events: Seq<EventView>) -> StateView
    decreases events.len(),
{
    if events.len() == 0 {
        state
    } else {
        state_after(next_state(state, events.first()), events.drop_first())
    }
}

/// The work that the run `run_id` asks for, event by event, when `events` arrive in
/// order in `state`.
pub open spec fn actions_after(run_id: u64, state: StateView, events: Seq<EventView>) -> Seq<
    ActionView,
>
    decreases events.len(),
{
    if events.len() == 0 {
        Seq::empty()
    } else {
        seq![next_action(run_id, state, events.first())] + actions_after(
            run_id,
            next_state(state, events.first()),
            events.drop_first(),
        )
    }
}

/// How far a run has come: every state change moves it forward.
pub open spec fn progress(state: StateView) -> nat {
    match state {
        StateView::Received => 0,
        StateView::Synthesizing => 1,
        StateView::Building => 2,
        StateView::Proving { .. } => 3,
        StateView::ValidatingOutcome { .. } => 4,
        StateView::Persisting { proof_bytes: None, .. } => 5,
        StateView::Persisting { proof_bytes: Some(_), .. } => 6,
        StateView::Completed { .. } => 7,
        StateView::Failed { .. } => 7,
    }
}

/// A run asks for one piece of work per event.
pub proof fn lemma_one_action_per_event(run_id: u64, state: StateView, events: Seq<EventView>)
    ensures
        actions_after(run_id, state, events).len() == events.len(),
    decreases events.len(),
{
    if events.len() > 0 {
        lemma_one_action_per_event(
            run_id,
            next_state(state, events.first()),
            events.drop_first(),
        );
    }
}

/// Taking the first of several events is one step of the machine.
pub proof fn lemma_first_step(
    run_id: u64,
    state: StateView,
    event: EventView,
    later: Seq<EventView>,
)
    ensures
        state_after(state, seq![event] + later) == state_after(next_state(state, event), later),
        actions_after(run_id, state, seq![event] + later) == seq![
            next_action(run_id, state, event),
        ] + actions_after(run_id, next_state(state, event), later),
{
    let events = seq![event] + later;
    assert(events.first() == event);
    assert(events.drop_first() == later);
}

/// A run never goes back and never repeats a step: an event either leaves the state
/// as it is and asks for nothing, or moves the run forward.
pub proof fn lemma_run_advances(run_id: u64, state: StateView, event: EventView)
    ensures
        next_state(state, event) == state ==> next_action(run_id, state, event) == ActionView::Idle,
        next_state(state, event) != state ==> progress(next_state(state, event)) > progress(state),
        progress(state) <= 7,
        progress(state) == 7 <==> is_terminal(state),
{
}

/// A run that is over stays as it is and asks for no more work, whatever arrives.
pub proof fn lemma_terminal_is_final(run_id: u64, state: StateView, events: Seq<EventView>)
    requires
        is_terminal(state),
    ensures
        state_after(state, events) == state,
        actions_after(run_id, state, events).len() == events.len(),
        forall|i: int|
            0 <= i < events.len() ==> #[trigger] actions_after(run_id, state, events)[i]
                == ActionView::Idle,
    decreases events.len(),
{
    if events.len() > 0 {
        lemma_terminal_is_final(run_id, state, events.drop_first());
    }
}

/// A request body that is not text ends the run at once with `InvalidInput`: the
/// run asks for no work then or later, so no source is written and nothing is built.
pub proof fn lemma_malformed_body_is_rejected(run_id: u64, body: Seq<u8>, later: Seq<EventView>)
    requires
        !valid_utf8(body),
    ensures
        next_state(StateView::Received, EventView::Submitted { body }) == (StateView::Failed {
            error: invalid_input_error(),
        }),
        state_after(StateView::Received, seq![EventView::Submitted { body }] + later) == (
        StateView::Failed { error: invalid_input_error() }),
        forall|i: int|
            0 <= i <= later.len() ==> #[trigger] actions_after(
                run_id,
                StateView::Received,
                seq![EventView::Submitted { body }] + later,
            )[i] == ActionView::Idle,
{
    let events = seq![EventView::Submitted { body }] + later;
    let failed = StateView::Failed { error: invalid_input_error() };
    assert(events.first() == EventView::Submitted { body });
    assert(events.drop_first() == later);
    lemma_terminal_is_final(run_id, failed, later);
    let actions = actions_after(run_id, StateView::Received, events);
    assert(actions == seq![ActionView::Idle] + actions_after(run_id, failed, later));
    assert forall|i: int| 0 <= i <= later.len() implies #[trigger] actions[i]
        == ActionView::Idle by {
        if i > 0 {
            assert(actions[i] == actions_after(run_id, failed, later)[i - 1]);
        }
    }
}

/// An execution that did not end with the success status is never stored: the proof
/// is discarded, the run ends with `ExitCodeMismatch`, and no work is asked for then
/// or later, so no record is written.
pub proof fn lemma_unsuccessful_outcome_is_discarded(
    run_id: u64,
    fingerprint: Seq<u8>,
    exit_code: u32,
    later: Seq<EventView>,
)
    requires
        exit_code != SUCCESS_EXIT_CODE,
    ensures
        next_state(
            StateView::ValidatingOutcome { fingerprint },
            EventView::OutcomeObserved { exit_code },
        ) == (StateView::Failed { error: exit_code_error(exit_code) }),
        exit_code_error(exit_code).kind == ErrorKind::ExitCodeMismatch,
        state_after(
            StateView::ValidatingOutcome { fingerprint },
            seq![EventView::OutcomeObserved { exit_code }] + later,
        ) == (StateView::Failed { error: exit_code_error(exit_code) }),
        forall|i: int|
            0 <= i <= later.len() ==> #[trigger] actions_after(
                run_id,
                StateView::ValidatingOutcome { fingerprint },
                seq![EventView::OutcomeObserved { exit_code }] + later,
            )[i] == ActionView::Idle,
{
    let start = StateView::ValidatingOutcome { fingerprint };
    let events = seq![EventView::OutcomeObserved { exit_code }] + later;
    let failed = StateView::Failed { error: exit_code_error(exit_code) };
    assert(events.first() == EventView::OutcomeObserved { exit_code });
    assert(events.drop_first() == later);
    lemma_terminal_is_final(run_id, failed, later);
    let actions = actions_after(run_id, start, events);
    assert(actions == seq![ActionView::Idle] + actions_after(run_id, failed, later));
    assert forall|i: int| 0 <= i <= later.len() implies #[trigger] actions[i]
        == ActionView::Idle by {
        if i > 0 {
            assert(actions[i] == actions_after(run_id, failed, later)[i - 1]);
        }
    }
}

/// Whatever events arrive, in whatever order: a run that starts in a state before
/// `Persisting` asks for a record to be written only after it has been told that the
/// execution ended with the success status.
pub proof fn lemma_record_needs_success(
    run_id: u64,
    state: StateView,
    events: Seq<EventView>,
    i: int,
)
    requires
        !(state is Persisting),
        0 <= i < events.len(),
        actions_after(run_id, state, events)[i] is WriteRecord,
    ensures
        exists|j: int|
            0 <= j < i && #[trigger] events[j] == (EventView::OutcomeObserved {
                exit_code: SUCCESS_EXIT_CODE,
            }),
    decreases events.len(),
{
    let first = events.first();
    let rest = events.drop_first();
    let following = next_state(state, first);
    let actions = actions_after(run_id, state, events);
    lemma_one_action_per_event(run_id, following, rest);
    assert(actions == seq![next_action(run_id, state, first)] + actions_after(
        run_id,
        following,
        rest,
    ));
    if i == 0 {
        assert(actions[0] == next_action(run_id, state, first));
    } else {
        assert(actions[i] == actions_after(run_id, following, rest)[i - 1]);
        if following is Persisting {
            assert(events[0] == (EventView::OutcomeObserved { exit_code: SUCCESS_EXIT_CODE }));
        } else {
            lemma_record_needs_success(run_id, following, rest, i - 1);
            let j = choose|j: int|
                0 <= j < i - 1 && #[trigger] rest[j] == (EventView::OutcomeObserved {
                    exit_code: SUCCESS_EXIT_CODE,
                });
            assert(events[j + 1] == rest[j]);
        }
    }
}

/// The binary that an event delivers as built, if it delivers one.
pub open spec fn built_binary(event: EventView) -> Option<Seq<u8>> {
    match event {
        EventView::BuildFinished { status, binary, .. } => if build_succeeded_spec(status) {
            Some(binary)
        } else {
            None
        },
        _ => None,
    }
}

/// The fingerprint that a run in `state` holds, if it holds one.
pub open spec fn held_fingerprint(state: StateView) -> Option<Seq<u8>> {
    match state {
        StateView::Proving { fingerprint } => Some(fingerprint),
        StateView::ValidatingOutcome { fingerprint } => Some(fingerprint),
        StateView::Persisting { fingerprint, .. } => Some(fingerprint),
        StateView::Completed { record } => Some(record.fingerprint),
        _ => None,
    }
}

/// A run that holds a fingerprint and completes, completes with that fingerprint.
pub proof fn lemma_fingerprint_is_kept(state: StateView, events: Seq<EventView>)
    requires
        held_fingerprint(state) is Some,
        state_after(state, events) is Completed,
    ensures
        held_fingerprint(state_after(state, events)) == held_fingerprint(state),
    decreases events.len(),
{
    if events.len() > 0 {
        let following = next_state(state, events.first());
        if following is Failed {
            lemma_terminal_is_final(0, following, events.drop_first());
        } else {
            lemma_fingerprint_is_kept(following, events.drop_first());
        }
    }
}

/// A run that has a serialized proof staged and completes, completes with the record
/// of its fingerprint and that proof.
pub proof fn lemma_staged_record_is_final(state: StateView, events: Seq<EventView>)
    requires
        state matches StateView::Persisting { proof_bytes: Some(_), .. },
        state_after(state, events) is Completed,
    ensures
        state_after(state, events) == (StateView::Completed {
            record: RecordView {
                fingerprint: state->Persisting_fingerprint,
                proof_bytes: state->Persisting_proof_bytes->Some_0,
            },
        }),
    decreases events.len(),
{
    if events.len() > 0 {
        let following = next_state(state, events.first());
        if is_terminal(following) {
            lemma_terminal_is_final(0, following, events.drop_first());
        } else {
            lemma_staged_record_is_final(following, events.drop_first());
        }
    }
}

/// Whatever events arrive, in whatever order: a run that completes has asked for
/// the record it completed with, in its byte layout, to be written to its own slot.
pub proof fn lemma_completed_means_written(run_id: u64, state: StateView, events: Seq<EventView>)
    requires
        progress(state) <= 5,
        state_after(state, events) is Completed,
    ensures
        exists|i: int|
            0 <= i < events.len() && #[trigger] actions_after(run_id, state, events)[i] == (
            ActionView::WriteRecord {
                path: proof_slot(run_id),
                bytes: encode_record(state_after(state, events)->Completed_record),
            }),
    decreases events.len(),
{
    let first = events.first();
    let rest = events.drop_first();
    let following = next_state(state, first);
    let actions = actions_after(run_id, state, events);
    let written = ActionView::WriteRecord {
        path: proof_slot(run_id),
        bytes: encode_record(state_after(state, events)->Completed_record),
    };
    lemma_one_action_per_event(run_id, following, rest);
    assert(actions == seq![next_action(run_id, state, first)] + actions_after(
        run_id,
        following,
        rest,
    ));
    if following is Failed {
        lemma_terminal_is_final(run_id, following, rest);
    } else if following matches StateView::Persisting { proof_bytes: Some(_), .. } {
        lemma_staged_record_is_final(following, rest);
        assert(actions[0] == written);
    } else {
        lemma_completed_means_written(run_id, following, rest);
        let i = choose|i: int|
            0 <= i < rest.len() && #[trigger] actions_after(run_id, following, rest)[i] == written;
        assert(actions[i + 1] == written);
    }
}

/// Whatever events arrive, in whatever order: a run that completes was told of a
/// finished build, and its record names the binary of that build.
pub proof fn lemma_completed_names_built_binary(state: StateView, events: Seq<EventView>)
    requires
        progress(state) <= 2,
        state_after(state, events) is Completed,
    ensures
        exists|j: int|
            0 <= j < events.len() && built_binary(#[trigger] events[j]) is Some && fingerprint_of(
                built_binary(events[j]).unwrap(),
            ) == state_after(state, events)->Completed_record.fingerprint,
    decreases events.len(),
{
    let first = events.first();
    let rest = events.drop_first();
    let following = next_state(state, first);
    let named = state_after(state, events)->Completed_record.fingerprint;
    if following is Failed {
        lemma_terminal_is_final(0, following, rest);
    } else if following is Proving {
        lemma_fingerprint_is_kept(following, rest);
        assert(built_binary(events[0]) is Some);
        assert(fingerprint_of(built_binary(events[0]).unwrap()) == named);
    } else {
        lemma_completed_names_built_binary(following, rest);
        let j = choose|j: int|
            0 <= j < rest.len() && built_binary(#[trigger] rest[j]) is Some && fingerprint_of(
                built_binary(rest[j]).unwrap(),
            ) == named;
        assert(events[j + 1] == rest[j]);
    }
}

} // verus!
