//! The operation as a state machine over plain values.
//!
//! A [`State`] says how far one operation has come. [`State::pending`] is the
//! action a driver has to perform next, [`State::after`] the state once the
//! driver has reported what came of it, and [`State::attempted`] the steps
//! that have been put to the system so far.

use vstd::prelude::*;
use crate::error::{PasteError, Phase, Stage};
use crate::keys::{KeyEvent, Platform};
use crate::plan::{spec_plan, Step};

verus! {

/// What the driver is asked to do next.
#[derive(Debug, PartialEq, Eq)]
pub enum Action {
    /// Create the input-synthesis handle.
    Acquire,
    /// Synthesize this key event.
    Emit(KeyEvent),
    /// Block the calling thread for this many milliseconds.
    Wait(u64),
    /// Nothing more: the operation is over, with this result.
    Finish(Result<(), PasteError>),
}

/// What the driver reports after performing an action.
#[derive(Debug, PartialEq, Eq)]
pub enum Event {
    /// The handle was created.
    HandleAcquired,
    /// The handle could not be created; the backend's text says why.
    HandleUnavailable(String),
    /// The key event was delivered.
    KeySent,
    /// The key event was rejected; the backend's text says why.
    KeyRejected(String),
    /// The pause is over.
    DelayElapsed,
}

/// How far an operation has come.
pub enum Progress {
    /// No handle yet.
    AwaitingHandle,
    /// The first `done` steps went through.
    Running { done: nat },
    /// Stopped by `error`, after `attempted` steps were put to the system,
    /// the rejected one included.
    Failed { attempted: nat, error: PasteError },
}

/// One operation: where it runs, how long it pauses, how far it has come.
pub struct State {
    pub platform: Platform,
    pub settle_ms: u64,
    pub progress: Progress,
}

/// The half of the operation that the step at `index` belongs to: the switch
/// shortcut comes before the delay, the paste shortcut after it.
pub open spec fn phase_of(index: nat) -> Phase {
    if index < 3 {
        Phase::Switch
    } else {
        Phase::Paste
    }
}

/// The action that carries out the step at `index`, or the successful end
/// when no step is left.
pub open spec fn action_at(steps: Seq<Step>, index: nat) -> Action {
    if index < steps.len() {
        match steps[index as int] {
            Step::Emit(event) => Action::Emit(event),
            Step::Wait(millis) => Action::Wait(millis),
        }
    } else {
        Action::Finish(Ok(()))
    }
}

/// The report that lets `action` count as done. Once the operation is over
/// no report has any effect, so any will do there.
pub open spec fn success_of(action: Action) -> Event {
    match action {
        Action::Acquire => Event::HandleAcquired,
        Action::Emit(_) => Event::KeySent,
        _ => Event::DelayElapsed,
    }
}

impl State {
    /// The state before anything has happened. On a platform without a paste
    /// sequence there is nothing to do, not even to get a handle.
    pub open spec fn start(platform: Platform, settle_ms: u64) -> State {
        State {
            platform,
            settle_ms,
            progress: if platform.supported() {
                Progress::AwaitingHandle
            } else {
                Progress::Running { done: 0 }
            },
        }
    }

    /// The steps of this operation.
    pub open spec fn plan(self) -> Seq<Step> {
        spec_plan(self.platform, self.settle_ms)
    }

    /// What holds of every state that an operation can reach.
    pub open spec fn inv(self) -> bool {
        match self.progress {
            Progress::AwaitingHandle => self.platform.supported(),
            Progress::Running { done } => done <= self.plan().len(),
            Progress::Failed { attempted, error } => match error {
                PasteError::InputHandleUnavailable { .. } => {
                    &&& self.platform.supported()
                    &&& attempted == 0
                },
                PasteError::KeyEventFailed { stage, .. } => {
                    &&& 1 <= attempted <= self.plan().len()
                    &&& self.plan()[attempted - 1] == Step::Emit(stage.event)
                    &&& stage.phase == phase_of((attempted - 1) as nat)
                },
            },
        }
    }

    /// The action that the driver has to perform now.
    pub open spec fn pending(self) -> Action {
        match self.progress {
            Progress::AwaitingHandle => Action::Acquire,
            Progress::Running { done } => action_at(self.plan(), done),
            Progress::Failed { error, .. } => Action::Finish(Err(error)),
        }
    }

    /// Whether the operation is over.
    pub open spec fn finished(self) -> bool {
        self.pending() is Finish
    }

    /// The steps that have been put to the system so far, in the order in
    /// which they were, a rejected key event included.
    pub open spec fn attempted(self) -> Seq<Step> {
        match self.progress {
            Progress::AwaitingHandle => Seq::empty(),
            Progress::Running { done } => self.plan().take(done as int),
            Progress::Failed { attempted, .. } => self.plan().take(attempted as int),
        }
    }

    /// The state once the driver has reported `event`. A report that does
    /// not answer the pending action changes nothing, and neither does any
    /// report once the operation is over.
    pub open spec fn after(self, event: Event) -> State {
        match self.progress {
            Progress::AwaitingHandle => match event {
                Event::HandleAcquired => State { progress: Progress::Running { done: 0 }, ..self },
                Event::HandleUnavailable(message) => State {
                    progress: Progress::Failed {
                        attempted: 0,
                        error: PasteError::InputHandleUnavailable { message },
                    },
                    ..self
                },
                _ => self,
            },
            Progress::Running { done } => match (self.pending(), event) {
                (Action::Emit(_), Event::KeySent) => State {
                    progress: Progress::Running { done: done + 1 },
                    ..self
                },
                (Action::Emit(key_event), Event::KeyRejected(message)) => State {
                    progress: Progress::Failed {
                        attempted: done + 1,
                        error: PasteError::KeyEventFailed {
                            stage: Stage { phase: phase_of(done), event: key_event },
                            message,
                        },
                    },
                    ..self
                },
                (Action::Wait(_), Event::DelayElapsed) => State {
                    progress: Progress::Running { done: done + 1 },
                    ..self
                },
                _ => self,
            },
            Progress::Failed { .. } => self,
        }
    }

    /// The state after the reports in `events`, taken in order.
    pub open spec fn after_all(self, events: Seq<Event>) -> State
        decreases events.len(),
    {
        if events.len() == 0 {
            self
        } else {
            self.after_all(events.drop_last()).after(events.last())
        }
    }

    /// The state after `count` actions in a row have each gone through.
    pub open spec fn after_successes(self, count: nat) -> State
        decreases count,
    {
        if count == 0 {
            self
        } else {
            let before = self.after_successes((count - 1) as nat);
            before.after(success_of(before.pending()))
        }
    }
}

} // verus!
