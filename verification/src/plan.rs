//! The ordered steps of one focus-restore-and-paste operation.

use vstd::prelude::*;
use crate::keys::{Direction, Key, KeyEvent, Platform};

verus! {

/// One step of the operation: a key event to synthesize, or a pause.
#[derive(Clone, Copy, Debug, PartialEq, Eq)]
pub enum Step {
    Emit(KeyEvent),
    /// Block for this many milliseconds.
    Wait(u64),
}

/// How long the focus change is given to settle before the paste is sent.
pub const SETTLE_DELAY_MS: u64 = 300;

/// The key the switch shortcut clicks.
pub open spec fn switch_key() -> Key {
    Key::Tab
}

/// The key the paste shortcut clicks.
pub open spec fn paste_key() -> Key {
    Key::Unicode('v')
}

/// A shortcut: hold `modifier`, click `key`, let `modifier` go.
pub open spec fn chord(modifier: Key, key: Key) -> Seq<Step> {
    seq![
        Step::Emit(KeyEvent { key: modifier, direction: Direction::Press }),
        Step::Emit(KeyEvent { key: key, direction: Direction::Click }),
        Step::Emit(KeyEvent { key: modifier, direction: Direction::Release }),
    ]
}

/// Everything the operation does on `platform`, in order: the switch
/// shortcut, the settle delay, the paste shortcut. Empty where the platform
/// is not supported.
pub open spec fn spec_plan(platform: Platform, settle_ms: u64) -> Seq<Step> {
    match (platform.spec_switch_modifier(), platform.spec_paste_modifier()) {
        (Some(switch), Some(paste)) => chord(switch, switch_key()) + seq![Step::Wait(settle_ms)]
            + chord(paste, paste_key()),
        _ => Seq::empty(),
    }
}

fn push_chord(steps: &mut Vec<Step>, modifier: Key, key: Key)
    ensures
        final(steps)@ == old(steps)@ + chord(modifier, key),
{
    steps.push(Step::Emit(KeyEvent { key: modifier, direction: Direction::Press }));
    steps.push(Step::Emit(KeyEvent { key: key, direction: Direction::Click }));
    steps.push(Step::Emit(KeyEvent { key: modifier, direction: Direction::Release }));
}

/// Builds the steps for `platform` with the given settle delay.
pub fn plan(platform: Platform, settle_ms: u64) -> (steps: Vec<Step>)
    ensures
        steps@ == spec_plan(platform, settle_ms),
{
    let mut steps: Vec<Step> = Vec::new();
    match (platform.switch_modifier(), platform.paste_modifier()) {
        (Some(switch), Some(paste)) => {
            push_chord(&mut steps, switch, Key::Tab);
            steps.push(Step::Wait(settle_ms));
            push_chord(&mut steps, paste, Key::Unicode('v'));
        },
        _ => {},
    }
    steps
}

} // verus!
