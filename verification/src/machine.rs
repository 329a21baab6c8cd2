//! The executable state machine that a driver runs an operation with.

use vstd::prelude::*;
use crate::error::{PasteError, Phase, Stage};
use crate::keys::Platform;
use crate::model::{Action, Event, Progress, State};
use crate::plan::{plan, spec_plan, Step, SETTLE_DELAY_MS};

verus! {

enum Track {
    AwaitingHandle,
    Running { done: usize },
    Failed { attempted: usize, error: PasteError },
}

/// One focus-restore-and-paste operation in progress.
///
/// The driver asks [`PasteMachine::next_action`] what to do, does it, and
/// tells [`PasteMachine::advance`] what happened, until the action is
/// [`Action::Finish`]. The view of a machine is its [`State`], and it always
/// satisfies [`State::inv`].
pub struct PasteMachine {
    platform: Platform,
    settle_ms: u64,
    steps: Vec<Step>,
    track: Track,
}

impl View for PasteMachine {
    type V = State;

    closed spec fn view(&self) -> State {
        State {
            platform: self.platform,
            settle_ms: self.settle_ms,
            progress: match self.track {
                Track::AwaitingHandle => Progress::AwaitingHandle,
                Track::Running { done } => Progress::Running { done: done as nat },
                Track::Failed { attempted, error } => Progress::Failed {
                    attempted: attempted as nat,
                    error,
                },
            },
        }
    }
}

impl PasteMachine {
    #[verifier::type_invariant]
    spec fn well_formed(self) -> bool {
        &&& self.steps@ == spec_plan(self.platform, self.settle_ms)
        &&& self@.inv()
    }

    /// A machine for `platform` with the standard settle delay.
    pub fn new(platform: Platform) -> (machine: PasteMachine)
        ensures
            machine@ == State::start(platform, SETTLE_DELAY_MS),
            machine@.inv(),
    {
        PasteMachine::with_settle_delay(platform, SETTLE_DELAY_MS)
    }

    /// A machine for `platform` that pauses `settle_ms` milliseconds between
    /// the switch and the paste.
    pub fn with_settle_delay(platform: Platform, settle_ms: u64) -> (machine: PasteMachine)
        ensures
            machine@ == State::start(platform, settle_ms),
            machine@.inv(),
    {
        let track = if platform.is_supported() {
            Track::AwaitingHandle
        } else {
            Track::Running { done: 0 }
        };
        PasteMachine { platform, settle_ms, steps: plan(platform, settle_ms), track }
    }

    /// The action to perform now.
    pub fn next_action(&self) -> (action: Action)
        ensures
            action == self@.pending(),
            self@.inv(),
    {
        proof {
            use_type_invariant(self);
        }
        match &self.track {
            Track::AwaitingHandle => Action::Acquire,
            Track::Running { done } => {
                if *done < self.steps.len() {
                    match self.steps[*done] {
                        Step::Emit(event) => Action::Emit(event),
                        Step::Wait(millis) => Action::Wait(millis),
                    }
                } else {
                    Action::Finish(Ok(()))
                }
            },
            Track::Failed { error, .. } => Action::Finish(Err(error.clone())),
        }
    }

    /// Takes the driver's report of what came of the pending action.
    pub fn advance(&mut self, event: Event)
        ensures
            final(self)@ == old(self)@.after(event),
            old(self)@.inv(),
            final(self)@.inv(),
    {
        proof {
            use_type_invariant(&*self);
        }
        match self.track {
            Track::AwaitingHandle => match event {
                Event::HandleAcquired => {
                    self.track = Track::Running { done: 0 };
                },
                Event::HandleUnavailable(message) => {
                    self.track = Track::Failed {
                        attempted: 0,
                        error: PasteError::InputHandleUnavailable { message },
                    };
                },
                _ => {},
            },
            Track::Running { done } => {
                if done < self.steps.len() {
                    match (self.steps[done], event) {
                        (Step::Emit(_), Event::KeySent) => {
                            self.track = Track::Running { done: done + 1 };
                        },
                        (Step::Emit(key_event), Event::KeyRejected(message)) => {
                            let phase = if done < 3 {
                                Phase::Switch
                            } else {
                                Phase::Paste
                            };
                            self.track = Track::Failed {
                                attempted: done + 1,
                                error: PasteError::KeyEventFailed {
                                    stage: Stage { phase, event: key_event },
                                    message,
                                },
                            };
                        },
                        (Step::Wait(_), Event::DelayElapsed) => {
                            self.track = Track::Running { done: done + 1 };
                        },
                        _ => {},
                    }
                }
            },
            Track::Failed { .. } => {},
        }
    }

    /// The steps put to the system so far, in order, a rejected key event
    /// included.
    pub fn attempted(&self) -> (steps: Vec<Step>)
        ensures
            steps@ == self@.attempted(),
            self@.inv(),
    {
        proof {
            use_type_invariant(self);
        }
        let count = match &self.track {
            Track::AwaitingHandle => 0,
            Track::Running { done } => *done,
            Track::Failed { attempted, .. } => *attempted,
        };
        let mut steps: Vec<Step> = Vec::new();
        let mut index: usize = 0;
        while index < count
            invariant
                index <= count <= self.steps.len(),
                steps@ == self.steps@.take(index as int),
            decreases count - index,
        {
            steps.push(self.steps[index]);
            index = index + 1;
        }
        steps
    }
}

} // verus!
