//! Keyboard input as the library sees it.

use vstd::prelude::*;

verus! {

/// A key on the keyboard.
#[derive(Clone, Copy, Debug, PartialEq, Eq, Structural)]
pub enum KeyCode {
    Char(char),
    Enter,
    Esc,
    Tab,
    BackTab,
    Backspace,
    Delete,
    Left,
    Right,
    Up,
    Down,
    Home,
    End,
    PageUp,
    PageDown,
    /// Any other key (function keys, media keys, ...).
    Other,
}

/// Modifier keys held while a key was pressed.
#[derive(Clone, Copy, Debug, PartialEq, Eq, Structural)]
pub struct KeyModifiers {
    pub shift: bool,
    pub control: bool,
    pub alt: bool,
}

impl KeyModifiers {
    /// No modifier held.
    pub open spec fn spec_none() -> Self {
        KeyModifiers { shift: false, control: false, alt: false }
    }

    /// No modifier held.
    pub fn none() -> (r: Self)
        ensures
            r == Self::spec_none(),
    {
        KeyModifiers { shift: false, control: false, alt: false }
    }

    /// Only the control key held.
    pub fn control() -> (r: Self)
        ensures
            r == (KeyModifiers { shift: false, control: true, alt: false }),
    {
        KeyModifiers { shift: false, control: true, alt: false }
    }

    /// Whether no modifier is held.
    pub fn is_none(&self) -> (r: bool)
        ensures
            r == (*self == Self::spec_none()),
    {
        !self.shift && !self.control && !self.alt
    }
}

/// A key press.
#[derive(Clone, Copy, Debug, PartialEq, Eq, Structural)]
pub struct KeyEvent {
    pub code: KeyCode,
    pub modifiers: KeyModifiers,
}

impl KeyEvent {
    /// A key press with the given modifiers.
    pub fn new(code: KeyCode, modifiers: KeyModifiers) -> (r: Self)
        ensures
            r.code == code,
            r.modifiers == modifiers,
    {
        KeyEvent { code, modifiers }
    }
}

impl From<KeyCode> for KeyEvent {
    fn from(code: KeyCode) -> (r: Self) {
        KeyEvent { code, modifiers: KeyModifiers::none() }
    }
}

impl vstd::std_specs::convert::FromSpecImpl<KeyCode> for KeyEvent {
    open spec fn obeys_from_spec() -> bool {
        true
    }

    open spec fn from_spec(v: KeyCode) -> KeyEvent {
        KeyEvent { code: v, modifiers: KeyModifiers::spec_none() }
    }
}

} // verus!
