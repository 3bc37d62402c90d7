//! Status bar showing a loading message or a notification that expires.

use vstd::prelude::*;
use std::time::Instant;
use crate::clock::{elapsed_millis, instant_now};

verus! {

/// Notification severity.
#[derive(Clone, Copy, Debug, PartialEq, Eq, Structural)]
pub enum NotificationLevel {
    /// Success message.
    Success,
    /// Error message.
    Error,
}

/// What the bar shows.
#[derive(Debug)]
pub enum PowerlineContent {
    /// A notification shown until `duration_ms` milliseconds after `created_at`.
    Notification { message: String, level: NotificationLevel, created_at: Instant, duration_ms: u64 },
    /// A loading message.
    Loading { message: String },
    /// Nothing.
    Empty,
}

/// The status bar.
pub struct PowerlineBar {
    pub content: PowerlineContent,
}

impl PowerlineBar {
    /// An empty bar.
    pub fn new() -> (r: Self)
        ensures
            r.content is Empty,
    {
        PowerlineBar { content: PowerlineContent::Empty }
    }

    /// Shows a notification for `duration_ms` milliseconds from now.
    pub fn set_notification(&mut self, message: String, level: NotificationLevel, duration_ms: u64)
        ensures
            final(self).content matches PowerlineContent::Notification { message: m, level: l, duration_ms: d, .. }
                && m@ == message@ && l == level && d == duration_ms,
    {
        self.content = PowerlineContent::Notification {
            message,
            level,
            created_at: instant_now(),
            duration_ms,
        };
    }

    /// Shows a loading message.
    pub fn set_loading(&mut self, message: String)
        ensures
            final(self).content matches PowerlineContent::Loading { message: m } && m@ == message@,
    {
        self.content = PowerlineContent::Loading { message };
    }

    /// Shows nothing.
    pub fn clear(&mut self)
        ensures
            final(self).content is Empty,
    {
        self.content = PowerlineContent::Empty;
    }

    /// `n` is this bar once `elapsed_ms` milliseconds have passed since its
    /// notification was set: a notification whose time is up is cleared
    /// (`cleared`), anything else stays.
    pub open spec fn ticked_to(self, n: Self, elapsed_ms: u64, cleared: bool) -> bool {
        &&& cleared == (self.content matches PowerlineContent::Notification { duration_ms, .. }
            && elapsed_ms >= duration_ms)
        &&& cleared ==> n.content is Empty
        &&& !cleared ==> n.content == self.content
    }

    /// Clears a notification whose time is up, given how many milliseconds
    /// have passed since it was set. Returns whether it was cleared.
    pub fn tick_with_elapsed(&mut self, elapsed_ms: u64) -> (cleared: bool)
        ensures
            old(self).ticked_to(*final(self), elapsed_ms, cleared),
    {
        let expired = match &self.content {
            PowerlineContent::Notification { duration_ms, .. } => elapsed_ms >= *duration_ms,
            _ => false,
        };
        if expired {
            self.content = PowerlineContent::Empty;
        }
        expired
    }

    /// Clears an expired notification. Returns whether it was cleared: the
    /// bar changes as `tick_with_elapsed` gives for the time read since the
    /// notification was set, so only a notification is ever cleared, and one
    /// set for no time at all always is.
    pub fn tick(&mut self) -> (cleared: bool)
        ensures
            exists|elapsed_ms: u64| #[trigger] old(self).ticked_to(*final(self), elapsed_ms, cleared),
    {
        let elapsed = match &self.content {
            PowerlineContent::Notification { created_at, .. } => elapsed_millis(created_at),
            _ => 0,
        };
        let ghost before = *self;
        let cleared = self.tick_with_elapsed(elapsed);
        assert(before.ticked_to(*self, elapsed, cleared));
        cleared
    }
}

impl Default for PowerlineBar {
    fn default() -> (r: Self)
        ensures
            r.content is Empty,
    {
        PowerlineBar::new()
    }
}

} // verus!
