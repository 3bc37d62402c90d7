//! Popup showing an error, with optional details and retry.

use vstd::prelude::*;
use crate::keys::{KeyCode, KeyEvent};

verus! {

/// What the user asked for.
#[derive(Debug, Clone, Copy, PartialEq, Eq, Structural)]
pub enum ErrorAction {
    /// Nothing yet.
    Nothing,
    /// Close the popup (c, Enter or Esc).
    Close,
    /// Retry the failed operation (r, when offered).
    Retry,
}

/// An error popup.
pub struct ErrorModal {
    title: String,
    error_message: String,
    details: Option<String>,
    visible: bool,
    details_expanded: bool,
    can_retry: bool,
}

impl ErrorModal {
    /// The title.
    pub closed spec fn title_view(&self) -> Seq<char> {
        self.title@
    }

    /// The message.
    pub closed spec fn message_view(&self) -> Seq<char> {
        self.error_message@
    }

    /// The details, if any.
    pub closed spec fn details_view(&self) -> Option<Seq<char>> {
        match self.details {
            Some(d) => Some(d@),
            None => None,
        }
    }

    /// Whether the popup is shown.
    pub closed spec fn visible_spec(&self) -> bool {
        self.visible
    }

    /// Whether the details are expanded.
    pub closed spec fn expanded(&self) -> bool {
        self.details_expanded
    }

    /// Whether retry is offered.
    pub closed spec fn retry_offered(&self) -> bool {
        self.can_retry
    }

    /// A shown popup with a title and message, no details and no retry.
    pub fn new(title: String, error_message: String) -> (r: Self)
        ensures
            r.title_view() == title@,
            r.message_view() == error_message@,
            r.details_view() is None,
            r.visible_spec(),
            !r.expanded(),
            !r.retry_offered(),
    {
        ErrorModal { title, error_message, details: None, visible: true, details_expanded: false, can_retry: false }
    }

    /// A shown popup with a title, message and collapsed details, no retry.
    pub fn with_details(title: String, error_message: String, details: String) -> (r: Self)
        ensures
            r.title_view() == title@,
            r.message_view() == error_message@,
            r.details_view() == Some(details@),
            r.visible_spec(),
            !r.expanded(),
            !r.retry_offered(),
    {
        ErrorModal {
            title,
            error_message,
            details: Some(details),
            visible: true,
            details_expanded: false,
            can_retry: false,
        }
    }

    /// The same popup, offering retry.
    pub fn with_retry(self) -> (r: Self)
        ensures
            r.retry_offered(),
            r.title_view() == self.title_view(),
            r.message_view() == self.message_view(),
            r.details_view() == self.details_view(),
            r.visible_spec() == self.visible_spec(),
            r.expanded() == self.expanded(),
    {
        let mut r = self;
        r.can_retry = true;
        r
    }

    /// Handles a key: c/Enter/Esc close, r retries when offered, d toggles
    /// the details when there are some.
    pub fn handle_input(&mut self, key: KeyEvent) -> (r: ErrorAction)
        ensures
            r == match key.code {
                KeyCode::Char('c') | KeyCode::Enter | KeyCode::Esc => ErrorAction::Close,
                KeyCode::Char('r') => if old(self).retry_offered() { ErrorAction::Retry } else { ErrorAction::Nothing },
                _ => ErrorAction::Nothing,
            },
            final(self).expanded() == if key.code == KeyCode::Char('d') && old(self).details_view() is Some {
                !old(self).expanded()
            } else {
                old(self).expanded()
            },
            final(self).title_view() == old(self).title_view(),
            final(self).message_view() == old(self).message_view(),
            final(self).details_view() == old(self).details_view(),
            final(self).visible_spec() == old(self).visible_spec(),
            final(self).retry_offered() == old(self).retry_offered(),
    {
        match key.code {
            KeyCode::Char('c') | KeyCode::Enter | KeyCode::Esc => ErrorAction::Close,
            KeyCode::Char('r') => {
                if self.can_retry {
                    ErrorAction::Retry
                } else {
                    ErrorAction::Nothing
                }
            },
            KeyCode::Char('d') => {
                if self.details.is_some() {
                    self.details_expanded = !self.details_expanded;
                }
                ErrorAction::Nothing
            },
            _ => ErrorAction::Nothing,
        }
    }

    /// The title.
    pub fn title(&self) -> (r: &str)
        ensures
            r@ == self.title_view(),
    {
        self.title.as_str()
    }

    /// The message.
    pub fn error_message(&self) -> (r: &str)
        ensures
            r@ == self.message_view(),
    {
        self.error_message.as_str()
    }

    /// The details, if any.
    pub fn details(&self) -> (r: Option<&str>)
        ensures
            match r {
                Some(d) => self.details_view() == Some(d@),
                None => self.details_view() is None,
            },
    {
        match &self.details {
            Some(d) => Some(d.as_str()),
            None => None,
        }
    }

    /// Whether the details are expanded.
    pub fn details_expanded(&self) -> (r: bool)
        ensures
            r == self.expanded(),
    {
        self.details_expanded
    }

    /// Whether retry is offered.
    pub fn can_retry(&self) -> (r: bool)
        ensures
            r == self.retry_offered(),
    {
        self.can_retry
    }

    /// Whether the popup is shown.
    pub fn is_visible(&self) -> (r: bool)
        ensures
            r == self.visible_spec(),
    {
        self.visible
    }

    /// Hides the popup.
    pub fn dismiss(&mut self)
        ensures
            !final(self).visible_spec(),
            final(self).title_view() == old(self).title_view(),
            final(self).message_view() == old(self).message_view(),
            final(self).details_view() == old(self).details_view(),
            final(self).expanded() == old(self).expanded(),
            final(self).retry_offered() == old(self).retry_offered(),
    {
        self.visible = false;
    }
}

} // verus!
