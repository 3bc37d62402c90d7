//! Popup asking which log lines to copy, in a Vim-like range syntax.

use vstd::prelude::*;
use crate::keys::{KeyCode, KeyEvent};
use crate::text::{concat, decimal, owned, usize_to_string};
use crate::widgets::text_input::TextInput;

verus! {

/// What the user asked for.
pub enum LineRangeAction {
    /// Nothing yet.
    Nothing,
    /// Copy the entered range (the text as typed).
    Confirm(String),
    /// Cancelled.
    Cancel,
}

/// Lines above which the suggested range is the last thousand lines.
pub const SUGGESTED_RANGE_LINES: usize = 1000;

/// The range suggested when the popup opens for a log of `total` lines:
/// all lines ("%") up to a thousand, otherwise the last thousand ("N,$").
pub open spec fn suggested_range(total: nat) -> Seq<char> {
    if total <= 1000 {
        "%"@
    } else {
        decimal((total - 999) as nat) + ",$"@
    }
}

/// The copy-range popup.
pub struct LineRangeModal {
    visible: bool,
    input: TextInput,
    total_lines: usize,
}

impl LineRangeModal {
    /// Whether the popup is shown.
    pub closed spec fn visible_spec(&self) -> bool {
        self.visible
    }

    /// The range input.
    pub closed spec fn input_spec(&self) -> TextInput {
        self.input
    }

    /// Lines in the log being copied from.
    pub closed spec fn total(&self) -> nat {
        self.total_lines as nat
    }

    /// Well-formed: the input's cursor is within its text.
    pub open spec fn wf(&self) -> bool {
        self.input_spec().wf()
    }

    /// Whether a key can be handled: typing needs room for one more character.
    pub open spec fn accepts_key(&self, key: KeyCode) -> bool {
        key != KeyCode::Esc && key != KeyCode::Enter ==> self.input_spec().value_view().len() < usize::MAX
    }

    /// A hidden popup with a focused, empty input.
    pub fn new() -> (r: Self)
        ensures
            r.wf(),
            !r.visible_spec(),
            r.total() == 0,
            r.input_spec().value_view() == Seq::<char>::empty(),
            r.input_spec().is_focused_spec(),
    {
        let mut input = TextInput::new("1,1000");
        input.set_focused(true);
        LineRangeModal { visible: false, input, total_lines: 0 }
    }

    /// Shows the popup for a log of `total_lines` lines, with the suggested
    /// range filled in.
    pub fn show(&mut self, total_lines: usize)
        ensures
            final(self).wf(),
            final(self).visible_spec(),
            final(self).total() == total_lines,
            final(self).input_spec().is_focused_spec(),
            final(self).input_spec().value_view() == suggested_range(total_lines as nat),
            final(self).input_spec().cursor() == suggested_range(total_lines as nat).len(),
    {
        self.visible = true;
        self.total_lines = total_lines;
        self.input.set_focused(true);
        let default_value = if total_lines <= SUGGESTED_RANGE_LINES {
            proof {
                reveal_strlit("%");
            }
            owned("%")
        } else {
            let start = usize_to_string(total_lines - 999);
            concat(start.as_str(), ",$")
        };
        assert(default_value@.len() <= usize::MAX) by {
            lemma_decimal_short((total_lines - 999) as nat);
            reveal_strlit(",$");
            reveal_strlit("%");
        }
        self.input.set_value(default_value);
    }

    /// Hides the popup and unfocuses the input.
    pub fn dismiss(&mut self)
        ensures
            final(self).wf() == old(self).wf(),
            !final(self).visible_spec(),
            final(self).total() == old(self).total(),
            final(self).input_spec().value_view() == old(self).input_spec().value_view(),
            !final(self).input_spec().is_focused_spec(),
    {
        self.visible = false;
        self.input.set_focused(false);
    }

    /// Whether the popup is shown.
    pub fn is_visible(&self) -> (r: bool)
        ensures
            r == self.visible_spec(),
    {
        self.visible
    }

    /// The range input.
    pub fn input(&self) -> (r: &TextInput)
        ensures
            *r == self.input_spec(),
    {
        &self.input
    }

    /// Lines in the log being copied from.
    pub fn total_lines(&self) -> (r: usize)
        ensures
            r == self.total(),
    {
        self.total_lines
    }

    /// Handles a key: Esc hides and cancels, Enter hides and confirms the
    /// typed range, any other key goes to the input.
    pub fn handle_input(&mut self, key: KeyEvent) -> (r: LineRangeAction)
        requires
            old(self).wf(),
            old(self).accepts_key(key.code),
        ensures
            final(self).wf(),
            final(self).total() == old(self).total(),
            match key.code {
                KeyCode::Esc => r is Cancel && !final(self).visible_spec()
                    && final(self).input_spec().value_view() == old(self).input_spec().value_view(),
                KeyCode::Enter => (r matches LineRangeAction::Confirm(v) && v@ == old(self).input_spec().value_view())
                    && !final(self).visible_spec()
                    && final(self).input_spec().value_view() == old(self).input_spec().value_view(),
                _ => r is Nothing && final(self).visible_spec() == old(self).visible_spec(),
            },
    {
        match key.code {
            KeyCode::Esc => {
                self.dismiss();
                LineRangeAction::Cancel
            },
            KeyCode::Enter => {
                let value = owned(self.input.value());
                self.dismiss();
                LineRangeAction::Confirm(value)
            },
            _ => {
                self.input.handle_key(key.code);
                LineRangeAction::Nothing
            },
        }
    }
}

/// The decimal form of a number has no more digits than the number's size.
pub proof fn lemma_decimal_short(n: nat)
    ensures
        decimal(n).len() <= n + 1,
        decimal(n).len() >= 1,
    decreases n,
{
    if n >= 10 {
        lemma_decimal_short(n / 10);
    }
}

} // verus!
