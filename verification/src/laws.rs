//! What holds of every operation, whatever the system answers.

use vstd::prelude::*;
use crate::error::{PasteError, Stage};
use crate::keys::{Direction, KeyEvent, Platform};
use crate::model::{phase_of, Action, Event, Progress, State};
use crate::plan::{chord, paste_key, spec_plan, switch_key, Step, SETTLE_DELAY_MS};

verus! {

/// On a supported platform the steps are exactly these seven, in this order:
/// switch modifier down, Tab clicked, switch modifier up, the settle delay,
/// paste modifier down, 'v' clicked, paste modifier up. The delay is the
/// fourth step and the only one that is not a key event.
pub proof fn lemma_plan_shape(platform: Platform, settle_ms: u64)
    requires
        platform.supported(),
    ensures
        spec_plan(platform, settle_ms) =~= seq![
            Step::Emit(
                KeyEvent {
                    key: platform.spec_switch_modifier()->0,
                    direction: Direction::Press,
                },
            ),
            Step::Emit(KeyEvent { key: switch_key(), direction: Direction::Click }),
            Step::Emit(
                KeyEvent {
                    key: platform.spec_switch_modifier()->0,
                    direction: Direction::Release,
                },
            ),
            Step::Wait(settle_ms),
            Step::Emit(
                KeyEvent { key: platform.spec_paste_modifier()->0, direction: Direction::Press },
            ),
            Step::Emit(KeyEvent { key: paste_key(), direction: Direction::Click }),
            Step::Emit(
                KeyEvent {
                    key: platform.spec_paste_modifier()->0,
                    direction: Direction::Release,
                },
            ),
        ],
        forall|i: int|
            0 <= i < 7 ==> ((#[trigger] spec_plan(platform, settle_ms)[i]) is Wait <==> i == 3),
{
}

/// On a platform without a paste sequence there are no steps at all.
pub proof fn lemma_plan_empty(platform: Platform, settle_ms: u64)
    requires
        !platform.supported(),
    ensures
        spec_plan(platform, settle_ms) =~= Seq::<Step>::empty(),
{
}

/// A report leaves the platform and the delay as they were, and keeps the
/// state one that an operation can be in.
pub proof fn lemma_after_keeps_inv(state: State, event: Event)
    requires
        state.inv(),
    ensures
        state.after(event).inv(),
        state.after(event).platform == state.platform,
        state.after(event).settle_ms == state.settle_ms,
{
}

/// Every state that an operation reaches from its start, whatever is
/// reported and in whatever order, is one that an operation can be in.
pub proof fn lemma_reachable_inv(platform: Platform, settle_ms: u64, events: Seq<Event>)
    ensures
        State::start(platform, settle_ms).after_all(events).inv(),
        State::start(platform, settle_ms).after_all(events).platform == platform,
        State::start(platform, settle_ms).after_all(events).settle_ms == settle_ms,
    decreases events.len(),
{
    if events.len() > 0 {
        lemma_reachable_inv(platform, settle_ms, events.drop_last());
        lemma_after_keeps_inv(
            State::start(platform, settle_ms).after_all(events.drop_last()),
            events.last(),
        );
    }
}

/// What has been put to the system is always a leading part of the steps:
/// nothing is skipped and nothing comes out of order.
pub proof fn lemma_attempted_is_prefix(state: State)
    requires
        state.inv(),
    ensures
        state.attempted().len() <= state.plan().len(),
        state.attempted() =~= state.plan().take(state.attempted().len() as int),
{
}

/// A report adds at most one step to what has been put to the system, and
/// then it is the step that was pending.
pub proof fn lemma_only_pending_is_attempted(state: State, event: Event)
    requires
        state.inv(),
    ensures
        state.after(event).attempted() =~= state.attempted() || match state.pending() {
            Action::Emit(key_event) => state.after(event).attempted() =~= state.attempted().push(
                Step::Emit(key_event),
            ),
            Action::Wait(millis) => state.after(event).attempted() =~= state.attempted().push(
                Step::Wait(millis),
            ),
            _ => false,
        },
{
}

/// Once the operation is over, no report changes anything: no further step
/// is asked for and the result stays.
pub proof fn lemma_finished_is_final(state: State, events: Seq<Event>)
    requires
        state.finished(),
    ensures
        state.after_all(events) == state,
    decreases events.len(),
{
    if events.len() > 0 {
        lemma_finished_is_final(state, events.drop_last());
    }
}

/// On a platform without a paste sequence the operation is over before it
/// begins: it succeeds, asks for no handle and puts nothing to the system,
/// whatever is reported.
pub proof fn lemma_unsupported_is_noop(platform: Platform, settle_ms: u64, events: Seq<Event>)
    requires
        !platform.supported(),
    ensures
        State::start(platform, settle_ms).pending() == Action::Finish(Ok(())),
        State::start(platform, settle_ms).after_all(events) == State::start(platform, settle_ms),
        State::start(platform, settle_ms).after_all(events).attempted() =~= Seq::<Step>::empty(),
{
    lemma_plan_empty(platform, settle_ms);
    lemma_finished_is_final(State::start(platform, settle_ms), events);
}

/// On a supported platform the first thing asked for is the handle. If it
/// cannot be had, the operation is over with that error and nothing is ever
/// put to the system.
pub proof fn lemma_no_handle_no_events(
    platform: Platform,
    settle_ms: u64,
    message: String,
    events: Seq<Event>,
)
    requires
        platform.supported(),
    ensures
        State::start(platform, settle_ms).pending() == Action::Acquire,
        ({
            let end = State::start(platform, settle_ms).after(
                Event::HandleUnavailable(message),
            ).after_all(events);
            &&& end.pending() == Action::Finish(
                Err(PasteError::InputHandleUnavailable { message }),
            )
            &&& end.attempted() =~= Seq::<Step>::empty()
        }),
{
    lemma_finished_is_final(
        State::start(platform, settle_ms).after(Event::HandleUnavailable(message)),
        events,
    );
}

/// As long as no report says that the handle was acquired, nothing is put
/// to the system and neither a key event nor the delay is asked for.
pub proof fn lemma_nothing_before_handle(platform: Platform, settle_ms: u64, events: Seq<Event>)
    requires
        platform.supported(),
        forall|i: int| 0 <= i < events.len() ==> !(#[trigger] events[i] is HandleAcquired),
    ensures
        State::start(platform, settle_ms).after_all(events).attempted() =~= Seq::<Step>::empty(),
        !(State::start(platform, settle_ms).after_all(events).progress is Running),
        !(State::start(platform, settle_ms).after_all(events).pending() is Emit),
        !(State::start(platform, settle_ms).after_all(events).pending() is Wait),
    decreases events.len(),
{
    if events.len() > 0 {
        lemma_nothing_before_handle(platform, settle_ms, events.drop_last());
    }
}

/// A rejected key event ends the operation at once. The error names the
/// event and the half of the operation it belongs to, and the rejected event
/// is the last thing put to the system, whatever is reported afterwards.
pub proof fn lemma_rejection_stops(state: State, message: String, events: Seq<Event>)
    requires
        state.inv(),
        state.pending() is Emit,
    ensures
        ({
            let end = state.after(Event::KeyRejected(message)).after_all(events);
            let failed = state.pending()->Emit_0;
            &&& end.pending() == Action::Finish(
                Err(
                    PasteError::KeyEventFailed {
                        stage: Stage {
                            phase: phase_of(state.attempted().len()),
                            event: failed,
                        },
                        message,
                    },
                ),
            )
            &&& end.attempted() =~= state.attempted().push(Step::Emit(failed))
        }),
{
    lemma_finished_is_final(state.after(Event::KeyRejected(message)), events);
}

/// The delay is asked for at one point only: when the whole switch shortcut
/// has gone through and nothing of the paste shortcut has been sent. Its
/// length is the one the operation was set up with.
pub proof fn lemma_delay_between(state: State)
    requires
        state.inv(),
        state.pending() is Wait,
    ensures
        state.platform.supported(),
        state.pending() == Action::Wait(state.settle_ms),
        state.attempted() =~= chord(state.platform.spec_switch_modifier()->0, switch_key()),
{
}

/// With the standard delay, whatever is reported and in whatever order: when
/// the delay is asked for it is 300 milliseconds, and it comes after the
/// whole switch shortcut and before anything of the paste shortcut.
pub proof fn lemma_standard_delay(platform: Platform, events: Seq<Event>)
    ensures
        ({
            let state = State::start(platform, SETTLE_DELAY_MS).after_all(events);
            state.pending() is Wait ==> {
                &&& state.pending() == Action::Wait(300)
                &&& state.attempted() =~= chord(platform.spec_switch_modifier()->0, switch_key())
            }
        }),
{
    lemma_reachable_inv(platform, SETTLE_DELAY_MS, events);
    let state = State::start(platform, SETTLE_DELAY_MS).after_all(events);
    if state.pending() is Wait {
        lemma_delay_between(state);
    }
}

/// The operation reports success only when every step has gone through.
pub proof fn lemma_success_means_all(state: State)
    requires
        state.inv(),
        state.pending() == Action::Finish(Ok(())),
    ensures
        state.attempted() =~= state.plan(),
{
}

/// On a supported platform, when every action goes through, the operation
/// is over after the handle and the seven steps, and not before; it then
/// reports success, and what was put to the system is the steps in full.
pub proof fn lemma_all_succeed(platform: Platform, settle_ms: u64)
    requires
        platform.supported(),
    ensures
        forall|count: nat|
            count < 8 ==> !(#[trigger] State::start(platform, settle_ms).after_successes(
                count,
            )).finished(),
        State::start(platform, settle_ms).after_successes(8).pending() == Action::Finish(Ok(())),
        State::start(platform, settle_ms).after_successes(8).attempted() =~= spec_plan(
            platform,
            settle_ms,
        ),
{
    let start = State::start(platform, settle_ms);
    lemma_plan_shape(platform, settle_ms);
    assert(start.after_successes(0) == start);
    assert(start.after_successes(1).progress == Progress::Running { done: 0 });
    assert(start.after_successes(2).progress == Progress::Running { done: 1 });
    assert(start.after_successes(3).progress == Progress::Running { done: 2 });
    assert(start.after_successes(4).progress == Progress::Running { done: 3 });
    assert(start.after_successes(5).progress == Progress::Running { done: 4 });
    assert(start.after_successes(6).progress == Progress::Running { done: 5 });
    assert(start.after_successes(7).progress == Progress::Running { done: 6 });
    assert(start.after_successes(8).progress == Progress::Running { done: 7 });
}

} // verus!
