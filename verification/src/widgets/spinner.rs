//! Animated spinner for loading states.

use vstd::prelude::*;
use std::time::Instant;
use crate::clock::{elapsed_millis, elapsed_secs, instant_now};
use crate::text::owned;

verus! {

/// Number of animation frames.
pub const SPINNER_FRAME_COUNT: usize = 10;

/// Milliseconds each frame is shown.
pub const FRAME_DURATION_MS: u64 = 100;

/// The animation frame with the given index.
pub open spec fn frame_of(i: nat) -> Seq<char> {
    if i == 0 {
        "⠋"@
    } else if i == 1 {
        "⠙"@
    } else if i == 2 {
        "⠹"@
    } else if i == 3 {
        "⠸"@
    } else if i == 4 {
        "⠼"@
    } else if i == 5 {
        "⠴"@
    } else if i == 6 {
        "⠦"@
    } else if i == 7 {
        "⠧"@
    } else if i == 8 {
        "⠇"@
    } else {
        "⠏"@
    }
}

/// The animation frame with the given index.
pub fn spinner_frame(i: usize) -> (r: &'static str)
    requires
        i < SPINNER_FRAME_COUNT,
    ensures
        r@ == frame_of(i as nat),
{
    if i == 0 {
        "⠋"
    } else if i == 1 {
        "⠙"
    } else if i == 2 {
        "⠹"
    } else if i == 3 {
        "⠸"
    } else if i == 4 {
        "⠼"
    } else if i == 5 {
        "⠴"
    } else if i == 6 {
        "⠦"
    } else if i == 7 {
        "⠧"
    } else if i == 8 {
        "⠇"
    } else {
        "⠏"
    }
}

/// An animated spinner with a message.
pub struct Spinner {
    current_frame: usize,
    last_update: Instant,
    message: String,
    created_at: Instant,
    show_elapsed: bool,
}

impl Spinner {
    /// The current frame index.
    pub closed spec fn frame(&self) -> nat {
        self.current_frame as nat
    }

    /// The message.
    pub closed spec fn message_view(&self) -> Seq<char> {
        self.message@
    }

    /// Whether the elapsed time is shown.
    pub closed spec fn shows_elapsed(&self) -> bool {
        self.show_elapsed
    }

    /// The instant of the last frame advance (or of creation).
    pub closed spec fn last_update_at(&self) -> Instant {
        self.last_update
    }

    /// The instant the spinner was created.
    pub closed spec fn created_instant(&self) -> Instant {
        self.created_at
    }

    /// Well-formed: the frame index names a frame.
    pub open spec fn wf(&self) -> bool {
        self.frame() < SPINNER_FRAME_COUNT
    }

    /// A spinner at its first frame with the given message.
    pub fn new(message: &str) -> (r: Self)
        ensures
            r.wf(),
            r.frame() == 0,
            r.message_view() == message@,
            !r.shows_elapsed(),
    {
        let now = instant_now();
        let created = instant_now();
        Spinner { current_frame: 0, last_update: now, message: owned(message), created_at: created, show_elapsed: false }
    }

    /// The same spinner, showing the elapsed time.
    pub fn with_elapsed_time(self) -> (r: Self)
        ensures
            r.shows_elapsed(),
            r.frame() == self.frame(),
            r.message_view() == self.message_view(),
    {
        let mut r = self;
        r.show_elapsed = true;
        r
    }

    /// Moves to the next frame, wrapping around after the last.
    pub fn advance_frame(&mut self)
        requires
            old(self).wf(),
        ensures
            final(self).wf(),
            final(self).frame() == (old(self).frame() + 1) % (SPINNER_FRAME_COUNT as nat),
            final(self).message_view() == old(self).message_view(),
            final(self).shows_elapsed() == old(self).shows_elapsed(),
            final(self).last_update_at() == old(self).last_update_at(),
            final(self).created_instant() == old(self).created_instant(),
    {
        self.current_frame = (self.current_frame + 1) % SPINNER_FRAME_COUNT;
    }

    /// Advances the animation when a frame's time is up, given the
    /// milliseconds since the last advance. Returns whether it advanced.
    pub fn advance_if_due(&mut self, elapsed_ms: u64) -> (advanced: bool)
        requires
            old(self).wf(),
        ensures
            final(self).wf(),
            advanced == (elapsed_ms >= FRAME_DURATION_MS),
            final(self).frame() == if advanced {
                (old(self).frame() + 1) % (SPINNER_FRAME_COUNT as nat)
            } else {
                old(self).frame()
            },
            final(self).message_view() == old(self).message_view(),
            final(self).shows_elapsed() == old(self).shows_elapsed(),
            final(self).last_update_at() == old(self).last_update_at(),
            final(self).created_instant() == old(self).created_instant(),
            !advanced ==> *final(self) == *old(self),
    {
        if elapsed_ms >= FRAME_DURATION_MS {
            self.advance_frame();
            true
        } else {
            false
        }
    }

    /// Advances the animation when a frame's time is up. Returns whether it
    /// advanced; the frame moves by one exactly when it did, and then the
    /// last-update instant is renewed. When it did not, nothing changes.
    /// Whether a frame is due depends on the clock.
    pub fn tick(&mut self) -> (advanced: bool)
        requires
            old(self).wf(),
        ensures
            final(self).wf(),
            final(self).frame() == if advanced {
                (old(self).frame() + 1) % (SPINNER_FRAME_COUNT as nat)
            } else {
                old(self).frame()
            },
            final(self).message_view() == old(self).message_view(),
            final(self).shows_elapsed() == old(self).shows_elapsed(),
            final(self).created_instant() == old(self).created_instant(),
            !advanced ==> *final(self) == *old(self),
    {
        let elapsed = elapsed_millis(&self.last_update);
        if self.advance_if_due(elapsed) {
            self.last_update = instant_now();
            true
        } else {
            false
        }
    }

    /// The current frame.
    pub fn current_frame(&self) -> (r: &'static str)
        requires
            self.wf(),
        ensures
            r@ == frame_of(self.frame()),
    {
        spinner_frame(self.current_frame)
    }

    /// The current frame index.
    pub fn frame_index(&self) -> (r: usize)
        ensures
            r == self.frame(),
    {
        self.current_frame
    }

    /// The message.
    pub fn message(&self) -> (r: &str)
        ensures
            r@ == self.message_view(),
    {
        self.message.as_str()
    }

    /// Whether the elapsed time is shown.
    pub fn show_elapsed(&self) -> (r: bool)
        ensures
            r == self.shows_elapsed(),
    {
        self.show_elapsed
    }

    /// Replaces the message.
    pub fn set_message(&mut self, message: &str)
        ensures
            final(self).message_view() == message@,
            final(self).frame() == old(self).frame(),
            final(self).shows_elapsed() == old(self).shows_elapsed(),
            final(self).last_update_at() == old(self).last_update_at(),
            final(self).created_instant() == old(self).created_instant(),
    {
        self.message = owned(message);
    }

    /// Whole seconds since the spinner was created.
    pub fn elapsed_seconds(&self) -> u64 {
        elapsed_secs(&self.created_at)
    }
}

impl Default for Spinner {
    fn default() -> (r: Self)
        ensures
            r.wf(),
            r.frame() == 0,
            r.message_view() == "Loading..."@,
    {
        Spinner::new("Loading...")
    }
}

} // verus!
