//! Single-line text input with a cursor.

use vstd::prelude::*;
use crate::keys::KeyCode;
use crate::text::{owned, push_char};

verus! {

/// Which sides of a widget get a border line.
#[derive(Clone, Copy, Debug, PartialEq, Eq, Structural)]
pub struct Borders {
    pub top: bool,
    pub bottom: bool,
    pub left: bool,
    pub right: bool,
}

impl Borders {
    /// Borders on every side.
    pub fn all() -> (r: Self)
        ensures
            r == (Borders { top: true, bottom: true, left: true, right: true }),
    {
        Borders { top: true, bottom: true, left: true, right: true }
    }
}

/// `s` with `c` inserted before character `pos`.
pub fn insert_char_at(s: &str, pos: usize, c: char) -> (r: String)
    requires
        pos <= s@.len(),
    ensures
        r@ == s@.insert(pos as int, c),
{
    let n = s.unicode_len();
    let mut r = String::new();
    let mut i: usize = 0;
    while i < n
        invariant
            n == s@.len(),
            pos <= n,
            i <= n,
            r@ == if i <= pos { s@.subrange(0, i as int) } else { s@.subrange(0, pos as int).push(c) + s@.subrange(pos as int, i as int) },
        decreases n - i,
    {
        if i == pos {
            push_char(&mut r, c);
        }
        push_char(&mut r, s.get_char(i));
        i = i + 1;
        assert(r@ =~= if i <= pos { s@.subrange(0, i as int) } else { s@.subrange(0, pos as int).push(c) + s@.subrange(pos as int, i as int) });
    }
    if pos == n {
        push_char(&mut r, c);
    }
    assert(r@ =~= s@.insert(pos as int, c));
    r
}

/// `s` without character `pos`.
pub fn remove_char_at(s: &str, pos: usize) -> (r: String)
    requires
        pos < s@.len(),
    ensures
        r@ == s@.remove(pos as int),
{
    let n = s.unicode_len();
    let mut r = String::new();
    let mut i: usize = 0;
    while i < n
        invariant
            n == s@.len(),
            pos < n,
            i <= n,
            r@ == if i <= pos { s@.subrange(0, i as int) } else { s@.subrange(0, pos as int) + s@.subrange(pos + 1, i as int) },
        decreases n - i,
    {
        if i != pos {
            push_char(&mut r, s.get_char(i));
        }
        i = i + 1;
        assert(r@ =~= if i <= pos { s@.subrange(0, i as int) } else { s@.subrange(0, pos as int) + s@.subrange(pos + 1, i as int) });
    }
    assert(r@ =~= s@.remove(pos as int));
    r
}

/// A text input: its value, a placeholder shown while it is empty and
/// unfocused, and a cursor counted in characters.
pub struct TextInput {
    value: String,
    placeholder: String,
    cursor_pos: usize,
    focused: bool,
    borders: Borders,
}

impl TextInput {
    /// The text.
    pub closed spec fn value_view(&self) -> Seq<char> {
        self.value@
    }

    /// The placeholder.
    pub closed spec fn placeholder_view(&self) -> Seq<char> {
        self.placeholder@
    }

    /// The cursor, in characters from the start.
    pub closed spec fn cursor(&self) -> nat {
        self.cursor_pos as nat
    }

    /// Whether the input has focus.
    pub closed spec fn is_focused_spec(&self) -> bool {
        self.focused
    }

    /// The border sides.
    pub closed spec fn borders_spec(&self) -> Borders {
        self.borders
    }

    /// Well-formed: the cursor is within the text.
    pub open spec fn wf(&self) -> bool {
        self.cursor() <= self.value_view().len()
    }

    /// `other` shows the same text, cursor, focus, placeholder and borders.
    pub open spec fn same_as(self, other: TextInput) -> bool {
        &&& other.value_view() == self.value_view()
        &&& other.cursor() == self.cursor()
        &&& other.is_focused_spec() == self.is_focused_spec()
        &&& other.placeholder_view() == self.placeholder_view()
        &&& other.borders_spec() == self.borders_spec()
    }

    /// `other` differs from `self` at most in text and cursor.
    pub open spec fn edited(self, other: TextInput, value: Seq<char>, cursor: nat) -> bool {
        &&& other.value_view() == value
        &&& other.cursor() == cursor
        &&& other.is_focused_spec() == self.is_focused_spec()
        &&& other.placeholder_view() == self.placeholder_view()
        &&& other.borders_spec() == self.borders_spec()
    }

    /// An empty, unfocused input with the given placeholder and all borders.
    pub fn new(placeholder: &str) -> (r: Self)
        ensures
            r.wf(),
            r.value_view() == Seq::<char>::empty(),
            r.placeholder_view() == placeholder@,
            r.cursor() == 0,
            !r.is_focused_spec(),
            r.borders_spec() == (Borders { top: true, bottom: true, left: true, right: true }),
    {
        TextInput {
            value: String::new(),
            placeholder: owned(placeholder),
            cursor_pos: 0,
            focused: false,
            borders: Borders::all(),
        }
    }

    /// The same input with the given borders.
    pub fn with_borders(self, borders: Borders) -> (r: Self)
        ensures
            r.borders_spec() == borders,
            r.value_view() == self.value_view(),
            r.placeholder_view() == self.placeholder_view(),
            r.cursor() == self.cursor(),
            r.is_focused_spec() == self.is_focused_spec(),
    {
        let mut r = self;
        r.borders = borders;
        r
    }

    /// The text.
    pub fn value(&self) -> (r: &str)
        ensures
            r@ == self.value_view(),
    {
        self.value.as_str()
    }

    /// The placeholder.
    pub fn placeholder(&self) -> (r: &str)
        ensures
            r@ == self.placeholder_view(),
    {
        self.placeholder.as_str()
    }

    /// The cursor, in characters from the start.
    pub fn cursor_pos(&self) -> (r: usize)
        ensures
            r == self.cursor(),
    {
        self.cursor_pos
    }

    /// The border sides.
    pub fn borders(&self) -> (r: Borders)
        ensures
            r == self.borders_spec(),
    {
        self.borders
    }

    /// Replaces the text and moves the cursor after it.
    pub fn set_value(&mut self, value: String)
        requires
            value@.len() <= usize::MAX,
        ensures
            final(self).wf(),
            old(self).edited(*final(self), value@, value@.len()),
    {
        self.value = value;
        self.cursor_pos = self.value.as_str().unicode_len();
    }

    /// Empties the text.
    pub fn clear(&mut self)
        ensures
            final(self).wf(),
            old(self).edited(*final(self), Seq::<char>::empty(), 0),
    {
        self.value = String::new();
        self.cursor_pos = 0;
    }

    /// Whether the text is empty.
    pub fn is_empty(&self) -> (r: bool)
        ensures
            r == (self.value_view().len() == 0),
    {
        self.value.as_str().is_empty()
    }

    /// Gives or takes focus; gaining focus pulls the cursor back inside the text.
    pub fn set_focused(&mut self, focused: bool)
        ensures
            final(self).is_focused_spec() == focused,
            final(self).value_view() == old(self).value_view(),
            final(self).placeholder_view() == old(self).placeholder_view(),
            final(self).borders_spec() == old(self).borders_spec(),
            final(self).cursor() == if focused && old(self).cursor() > old(self).value_view().len() {
                old(self).value_view().len()
            } else {
                old(self).cursor()
            },
            old(self).wf() ==> final(self).wf(),
    {
        self.focused = focused;
        let char_count = self.value.as_str().unicode_len();
        if focused && self.cursor_pos > char_count {
            self.cursor_pos = char_count;
        }
    }

    /// Whether the input has focus.
    pub fn is_focused(&self) -> (r: bool)
        ensures
            r == self.is_focused_spec(),
    {
        self.focused
    }

    /// Whether a key is used: while focused, characters and the editing
    /// and cursor keys are.
    pub open spec fn key_handled(self, key: KeyCode) -> bool {
        self.is_focused_spec() && match key {
            KeyCode::Char(_) | KeyCode::Backspace | KeyCode::Delete | KeyCode::Left | KeyCode::Right
            | KeyCode::Home | KeyCode::End => true,
            _ => false,
        }
    }

    /// `n` is this input after `key`.
    pub open spec fn key_step(self, n: TextInput, key: KeyCode) -> bool {
        let o = self;
        let v = o.value_view();
        let c = o.cursor();
        if !o.is_focused_spec() {
            n.same_as(o)
        } else {
            match key {
                KeyCode::Char(ch) => o.edited(n, v.insert(c as int, ch), c + 1),
                KeyCode::Backspace => if c > 0 {
                    o.edited(n, v.remove(c - 1), (c - 1) as nat)
                } else {
                    n.same_as(o)
                },
                KeyCode::Delete => if c < v.len() {
                    o.edited(n, v.remove(c as int), c)
                } else {
                    n.same_as(o)
                },
                KeyCode::Left => o.edited(n, v, if c > 0 { (c - 1) as nat } else { 0 }),
                KeyCode::Right => o.edited(n, v, if c < v.len() { c + 1 } else { c }),
                KeyCode::Home => o.edited(n, v, 0),
                KeyCode::End => o.edited(n, v, v.len()),
                _ => n.same_as(o),
            }
        }
    }

    /// Handles a key while focused: characters are inserted at the cursor,
    /// Backspace and Delete remove the character before or at the cursor,
    /// Left/Right/Home/End move the cursor. Returns whether the key was used;
    /// nothing is used while unfocused.
    pub fn handle_key(&mut self, key: KeyCode) -> (handled: bool)
        requires
            old(self).wf(),
            old(self).value_view().len() < usize::MAX,
        ensures
            final(self).wf(),
            handled == old(self).key_handled(key),
            old(self).key_step(*final(self), key),
    {
        if !self.focused {
            return false;
        }
        match key {
            KeyCode::Char(c) => {
                let char_count = self.value.as_str().unicode_len();
                if self.cursor_pos <= char_count {
                    self.value = insert_char_at(self.value.as_str(), self.cursor_pos, c);
                    self.cursor_pos = self.cursor_pos + 1;
                }
                true
            },
            KeyCode::Backspace => {
                if self.cursor_pos > 0 {
                    let char_count = self.value.as_str().unicode_len();
                    if self.cursor_pos <= char_count {
                        self.value = remove_char_at(self.value.as_str(), self.cursor_pos - 1);
                        self.cursor_pos = self.cursor_pos - 1;
                    }
                }
                true
            },
            KeyCode::Delete => {
                let char_count = self.value.as_str().unicode_len();
                if self.cursor_pos < char_count {
                    self.value = remove_char_at(self.value.as_str(), self.cursor_pos);
                }
                true
            },
            KeyCode::Left => {
                if self.cursor_pos > 0 {
                    self.cursor_pos = self.cursor_pos - 1;
                }
                true
            },
            KeyCode::Right => {
                let char_count = self.value.as_str().unicode_len();
                if self.cursor_pos < char_count {
                    self.cursor_pos = self.cursor_pos + 1;
                }
                true
            },
            KeyCode::Home => {
                self.cursor_pos = 0;
                true
            },
            KeyCode::End => {
                self.cursor_pos = self.value.as_str().unicode_len();
                true
            },
            _ => false,
        }
    }
}

/// Typing a character into a focused input and then pressing Backspace
/// gives back the text and cursor that were there before.
pub proof fn law_backspace_undoes_typing(a: TextInput, b: TextInput, c: TextInput, ch: char)
    requires
        a.wf(),
        a.is_focused_spec(),
        a.edited(b, a.value_view().insert(a.cursor() as int, ch), a.cursor() + 1),
        b.cursor() > 0,
        b.edited(c, b.value_view().remove(b.cursor() - 1), (b.cursor() - 1) as nat),
    ensures
        c.same_as(a),
{
    assert(a.value_view().insert(a.cursor() as int, ch).remove(a.cursor() as int) =~= a.value_view());
}

} // verus!
