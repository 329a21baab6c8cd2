//! How a paste operation can fail.

use vstd::prelude::*;
use crate::keys::KeyEvent;

verus! {

/// The two halves of the operation, on either side of the settle delay.
#[derive(Clone, Copy, Debug, PartialEq, Eq)]
pub enum Phase {
    /// Switching to the previously active application.
    Switch,
    /// Sending the paste shortcut.
    Paste,
}

/// Which key event of the operation was rejected.
#[derive(Clone, Copy, Debug, PartialEq, Eq)]
pub struct Stage {
    pub phase: Phase,
    pub event: KeyEvent,
}

/// Why a paste operation stopped. Each failure ends the operation: nothing
/// is retried and nothing more is sent.
#[derive(Debug, PartialEq, Eq)]
pub enum PasteError {
    /// The input-synthesis handle could not be created, for instance because
    /// the system denies the permission.
    InputHandleUnavailable { message: String },
    /// The system rejected one key event.
    KeyEventFailed { stage: Stage, message: String },
}

impl PasteError {
    /// The text that the input backend gave for the failure.
    pub open spec fn spec_message(self) -> String {
        match self {
            PasteError::InputHandleUnavailable { message } => message,
            PasteError::KeyEventFailed { message, .. } => message,
        }
    }

    /// The human-readable text of the failure, which is all that a caller at
    /// the command boundary gets to see.
    pub fn message(&self) -> (text: String)
        ensures
            text == self.spec_message(),
    {
        match self {
            PasteError::InputHandleUnavailable { message } => message.clone(),
            PasteError::KeyEventFailed { message, .. } => message.clone(),
        }
    }
}

impl Clone for PasteError {
    fn clone(&self) -> (copy: Self)
        ensures
            copy == *self,
    {
        match self {
            PasteError::InputHandleUnavailable { message } => PasteError::InputHandleUnavailable {
                message: message.clone(),
            },
            PasteError::KeyEventFailed { stage, message } => PasteError::KeyEventFailed {
                stage: *stage,
                message: message.clone(),
            },
        }
    }
}

} // verus!
