//! The vocabulary of synthesized keyboard input.

use vstd::prelude::*;

verus! {

/// The host platform, as far as the paste sequence distinguishes it.
#[derive(Clone, Copy, Debug, PartialEq, Eq)]
pub enum Platform {
    MacOs,
    Windows,
    /// Any other host: nothing is sent there.
    Other,
}

/// A keyboard key that the paste sequence uses.
#[derive(Clone, Copy, Debug, PartialEq, Eq)]
pub enum Key {
    Alt,
    Control,
    Meta,
    Tab,
    /// The key that produces this character.
    Unicode(char),
}

/// What is done to a key.
#[derive(Clone, Copy, Debug, PartialEq, Eq)]
pub enum Direction {
    Press,
    /// A press followed at once by a release.
    Click,
    Release,
}

/// One atomic input action on one key.
#[derive(Clone, Copy, Debug, PartialEq, Eq)]
pub struct KeyEvent {
    pub key: Key,
    pub direction: Direction,
}

impl Platform {
    /// Whether a paste sequence is defined for this platform.
    pub open spec fn supported(self) -> bool {
        self != Platform::Other
    }

    /// The modifier held while Tab switches to the previous application.
    pub open spec fn spec_switch_modifier(self) -> Option<Key> {
        match self {
            Platform::MacOs => Some(Key::Meta),
            Platform::Windows => Some(Key::Alt),
            Platform::Other => None,
        }
    }

    /// The modifier held while 'v' pastes.
    pub open spec fn spec_paste_modifier(self) -> Option<Key> {
        match self {
            Platform::MacOs => Some(Key::Meta),
            Platform::Windows => Some(Key::Control),
            Platform::Other => None,
        }
    }

    pub fn is_supported(self) -> (b: bool)
        ensures
            b == self.supported(),
    {
        match self {
            Platform::Other => false,
            _ => true,
        }
    }

    #[verifier::when_used_as_spec(spec_switch_modifier)]
    pub fn switch_modifier(self) -> (key: Option<Key>)
        ensures
            key == self.spec_switch_modifier(),
    {
        match self {
            Platform::MacOs => Some(Key::Meta),
            Platform::Windows => Some(Key::Alt),
            Platform::Other => None,
        }
    }

    #[verifier::when_used_as_spec(spec_paste_modifier)]
    pub fn paste_modifier(self) -> (key: Option<Key>)
        ensures
            key == self.spec_paste_modifier(),
    {
        match self {
            Platform::MacOs => Some(Key::Meta),
            Platform::Windows => Some(Key::Control),
            Platform::Other => None,
        }
    }
}

} // verus!
