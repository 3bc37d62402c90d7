//! Popup listing the keyboard shortcuts.

use vstd::prelude::*;
use crate::keys::{KeyCode, KeyEvent};

verus! {

/// What the user asked for.
#[derive(Debug, Clone, Copy, PartialEq, Eq, Structural)]
pub enum HelpAction {
    /// Nothing.
    Nothing,
    /// Close the popup (Esc, ? or q).
    Close,
}

/// The help popup.
pub struct HelpModal {
    visible: bool,
}

impl HelpModal {
    /// Whether the popup is shown.
    pub closed spec fn visible_spec(&self) -> bool {
        self.visible
    }

    /// A shown popup.
    pub fn new() -> (r: Self)
        ensures
            r.visible_spec(),
    {
        HelpModal { visible: true }
    }

    /// Handles a key: Esc, ? and q close the popup.
    pub fn handle_input(&mut self, key: KeyEvent) -> (r: HelpAction)
        ensures
            r == match key.code {
                KeyCode::Esc | KeyCode::Char('?') | KeyCode::Char('q') => HelpAction::Close,
                _ => HelpAction::Nothing,
            },
            final(self).visible_spec() == old(self).visible_spec(),
    {
        match key.code {
            KeyCode::Esc | KeyCode::Char('?') | KeyCode::Char('q') => HelpAction::Close,
            _ => HelpAction::Nothing,
        }
    }

    /// Whether the popup is shown.
    pub fn is_visible(&self) -> (r: bool)
        ensures
            r == self.visible_spec(),
    {
        self.visible
    }

    /// Hides the popup.
    pub fn dismiss(&mut self)
        ensures
            !final(self).visible_spec(),
    {
        self.visible = false;
    }
}

impl Default for HelpModal {
    fn default() -> (r: Self)
        ensures
            r.visible_spec(),
    {
        HelpModal::new()
    }
}

} // verus!
