//! Temporary status message shown at the bottom of the screen.

use vstd::prelude::*;
use std::time::Instant;
use crate::clock::{elapsed_millis, instant_now};
use crate::text::owned;

verus! {

/// Message severity.
#[derive(Clone, Copy, Debug, PartialEq, Eq, Structural)]
pub enum MessageLevel {
    /// Success message.
    _Success,
    /// Info message.
    Info,
    /// Error message.
    _Error,
}

/// Milliseconds a message stays visible unless told otherwise.
pub const DEFAULT_MESSAGE_MS: u64 = 5000;

/// A message that hides itself after a while.
pub struct StatusMessage {
    text: String,
    level: MessageLevel,
    created_at: Instant,
    duration_ms: u64,
}

impl StatusMessage {
    /// The text.
    pub closed spec fn text_view(&self) -> Seq<char> {
        self.text@
    }

    /// The level.
    pub closed spec fn level_spec(&self) -> MessageLevel {
        self.level
    }

    /// How long the message stays, in milliseconds.
    pub closed spec fn duration(&self) -> nat {
        self.duration_ms as nat
    }

    /// A message shown for five seconds from now.
    pub fn new(text: &str, level: MessageLevel) -> (r: Self)
        ensures
            r.text_view() == text@,
            r.level_spec() == level,
            r.duration() == DEFAULT_MESSAGE_MS,
    {
        StatusMessage { text: owned(text), level, created_at: instant_now(), duration_ms: DEFAULT_MESSAGE_MS }
    }

    /// An info message.
    pub fn info(text: &str) -> (r: Self)
        ensures
            r.text_view() == text@,
            r.level_spec() == MessageLevel::Info,
            r.duration() == DEFAULT_MESSAGE_MS,
    {
        Self::new(text, MessageLevel::Info)
    }

    /// A success message.
    pub fn success(text: &str) -> (r: Self)
        ensures
            r.text_view() == text@,
            r.level_spec() == MessageLevel::_Success,
            r.duration() == DEFAULT_MESSAGE_MS,
    {
        Self::new(text, MessageLevel::_Success)
    }

    /// An error message.
    pub fn error(text: &str) -> (r: Self)
        ensures
            r.text_view() == text@,
            r.level_spec() == MessageLevel::_Error,
            r.duration() == DEFAULT_MESSAGE_MS,
    {
        Self::new(text, MessageLevel::_Error)
    }

    /// The same message, shown for `duration_ms` milliseconds.
    pub fn with_duration(self, duration_ms: u64) -> (r: Self)
        ensures
            r.text_view() == self.text_view(),
            r.level_spec() == self.level_spec(),
            r.duration() == duration_ms,
    {
        let mut r = self;
        r.duration_ms = duration_ms;
        r
    }

    /// The text.
    pub fn text(&self) -> (r: &str)
        ensures
            r@ == self.text_view(),
    {
        self.text.as_str()
    }

    /// The level.
    pub fn level(&self) -> (r: MessageLevel)
        ensures
            r == self.level_spec(),
    {
        self.level
    }

    /// Whether the message's time is up after `elapsed_ms` milliseconds.
    pub fn expired_after(&self, elapsed_ms: u64) -> (r: bool)
        ensures
            r == (elapsed_ms >= self.duration()),
    {
        elapsed_ms >= self.duration_ms
    }

    /// Whether the message's time is up after `elapsed_ms` milliseconds.
    pub open spec fn expired_for(&self, elapsed_ms: u64) -> bool {
        elapsed_ms >= self.duration()
    }

    /// Whether the message's time is up: what `expired_after` answers for
    /// the time read since the message was made, so a message shown for no
    /// time at all always is.
    pub fn is_expired(&self) -> (r: bool)
        ensures
            exists|elapsed_ms: u64| r == #[trigger] self.expired_for(elapsed_ms),
    {
        let elapsed = elapsed_millis(&self.created_at);
        let r = self.expired_after(elapsed);
        assert(r == self.expired_for(elapsed));
        r
    }
}

} // verus!
