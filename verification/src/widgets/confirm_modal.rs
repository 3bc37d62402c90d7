//! Yes/No confirmation popup.

use vstd::prelude::*;
use crate::keys::{KeyCode, KeyEvent};

verus! {

/// What the user answered.
#[derive(Debug, Clone, Copy, PartialEq, Eq, Structural)]
pub enum ConfirmAction {
    /// No answer yet.
    Nothing,
    /// Confirmed (y or Enter).
    Yes,
    /// Cancelled (n or Esc).
    No,
}

/// The answer a key gives.
pub open spec fn confirm_action_of(code: KeyCode) -> ConfirmAction {
    match code {
        KeyCode::Char('y') | KeyCode::Enter => ConfirmAction::Yes,
        KeyCode::Char('n') | KeyCode::Esc => ConfirmAction::No,
        _ => ConfirmAction::Nothing,
    }
}

/// A confirmation popup with a message and Yes/No buttons.
pub struct ConfirmModal {
    message: String,
    visible: bool,
    selected_button: usize,
}

impl ConfirmModal {
    /// The message.
    pub closed spec fn message_view(&self) -> Seq<char> {
        self.message@
    }

    /// Whether the popup is shown.
    pub closed spec fn visible_spec(&self) -> bool {
        self.visible
    }

    /// The highlighted button: 0 is Yes, 1 is No.
    pub closed spec fn button(&self) -> nat {
        self.selected_button as nat
    }

    /// A shown popup with the given message and Yes highlighted.
    pub fn new(message: String) -> (r: Self)
        ensures
            r.message_view() == message@,
            r.visible_spec(),
            r.button() == 0,
    {
        ConfirmModal { message, visible: true, selected_button: 0 }
    }

    /// Handles a key: y/Enter answer Yes, n/Esc answer No, Left highlights
    /// Yes and Right/Tab highlight No.
    pub fn handle_input(&mut self, key: KeyEvent) -> (r: ConfirmAction)
        ensures
            r == confirm_action_of(key.code),
            final(self).message_view() == old(self).message_view(),
            final(self).visible_spec() == old(self).visible_spec(),
            final(self).button() == match key.code {
                KeyCode::Left => 0,
                KeyCode::Right | KeyCode::Tab => 1,
                _ => old(self).button(),
            },
    {
        match key.code {
            KeyCode::Char('y') | KeyCode::Enter => ConfirmAction::Yes,
            KeyCode::Char('n') | KeyCode::Esc => ConfirmAction::No,
            KeyCode::Left => {
                self.selected_button = 0;
                ConfirmAction::Nothing
            },
            KeyCode::Right | KeyCode::Tab => {
                self.selected_button = 1;
                ConfirmAction::Nothing
            },
            _ => ConfirmAction::Nothing,
        }
    }

    /// The message.
    pub fn message(&self) -> (r: &str)
        ensures
            r@ == self.message_view(),
    {
        self.message.as_str()
    }

    /// The highlighted button: 0 is Yes, 1 is No.
    pub fn selected_button(&self) -> (r: usize)
        ensures
            r == self.button(),
    {
        self.selected_button
    }

    /// Whether the popup is shown.
    pub fn is_visible(&self) -> (r: bool)
        ensures
            r == self.visible_spec(),
    {
        self.visible
    }

    /// Hides the popup.
    pub fn dismiss(&mut self)
        ensures
            !final(self).visible_spec(),
            final(self).message_view() == old(self).message_view(),
            final(self).button() == old(self).button(),
    {
        self.visible = false;
    }
}

} // verus!
