//! Status classification, icons and colours.

use vstd::prelude::*;
use crate::text::{ascii_lower_char, ascii_lowercase, is_ascii_text, lowercase, str_eq, to_lower};

verus! {

/// Colours are packed RGB values, `0xRRGGBB`.
/// Success status (green).
pub const SUCCESS: u32 = 0x98c379;

/// Failed status (deep brown-red).
pub const FAILED: u32 = 0x370e0c;

/// Running status (bright magenta).
pub const RUNNING: u32 = 0xf71abd;

/// Blocked status (coral).
pub const BLOCKED: u32 = 0xeb636b;

/// Pending status (dim).
pub const PENDING: u32 = 0x5c6370;

/// Canceled status (dim).
pub const CANCELED: u32 = 0x5c6370;

/// The families into which status strings fall.
#[derive(Clone, Copy, Debug, PartialEq, Eq, Structural)]
pub enum StatusKind {
    Success,
    Failed,
    Running,
    Blocked,
    Pending,
    Canceled,
    Unknown,
}

/// The family of a (lowercase) status string.
pub open spec fn status_kind_of(s: Seq<char>) -> StatusKind {
    if s == "success"@ || s == "passed"@ || s == "fixed"@ || s == "successful"@ {
        StatusKind::Success
    } else if s == "failed"@ || s == "error"@ || s == "failure"@ {
        StatusKind::Failed
    } else if s == "running"@ || s == "in_progress"@ || s == "in-progress"@ {
        StatusKind::Running
    } else if s == "blocked"@ || s == "waiting"@ || s == "on_hold"@ || s == "on-hold"@ {
        StatusKind::Blocked
    } else if s == "pending"@ || s == "queued"@ || s == "not_run"@ || s == "not-run"@
        || s == "not_running"@ {
        StatusKind::Pending
    } else if s == "canceled"@ || s == "cancelled"@ || s == "aborted"@ || s == "terminated"@ {
        StatusKind::Canceled
    } else {
        StatusKind::Unknown
    }
}

/// The icon shown for a status family.
pub open spec fn icon_of(k: StatusKind) -> Seq<char> {
    match k {
        StatusKind::Success => "✓"@,
        StatusKind::Failed => "✗"@,
        StatusKind::Running => "●"@,
        StatusKind::Blocked => "◆"@,
        StatusKind::Pending => "○"@,
        StatusKind::Canceled => "◌"@,
        StatusKind::Unknown => "?"@,
    }
}

/// The colour shown for a status family.
pub open spec fn color_of(k: StatusKind) -> u32 {
    match k {
        StatusKind::Success => SUCCESS,
        StatusKind::Failed => FAILED,
        StatusKind::Running => RUNNING,
        StatusKind::Blocked => BLOCKED,
        StatusKind::Pending => PENDING,
        StatusKind::Canceled => CANCELED,
        StatusKind::Unknown => PENDING,
    }
}

/// Classifies an already lowercased status string.
pub fn status_kind(lowered: &str) -> (k: StatusKind)
    ensures
        k == status_kind_of(lowered@),
{
    if str_eq(lowered, "success") || str_eq(lowered, "passed") || str_eq(lowered, "fixed")
        || str_eq(lowered, "successful") {
        StatusKind::Success
    } else if str_eq(lowered, "failed") || str_eq(lowered, "error") || str_eq(lowered, "failure") {
        StatusKind::Failed
    } else if str_eq(lowered, "running") || str_eq(lowered, "in_progress") || str_eq(
        lowered,
        "in-progress",
    ) {
        StatusKind::Running
    } else if str_eq(lowered, "blocked") || str_eq(lowered, "waiting") || str_eq(lowered, "on_hold")
        || str_eq(lowered, "on-hold") {
        StatusKind::Blocked
    } else if str_eq(lowered, "pending") || str_eq(lowered, "queued") || str_eq(lowered, "not_run")
        || str_eq(lowered, "not-run") || str_eq(lowered, "not_running") {
        StatusKind::Pending
    } else if str_eq(lowered, "canceled") || str_eq(lowered, "cancelled") || str_eq(
        lowered,
        "aborted",
    ) || str_eq(lowered, "terminated") {
        StatusKind::Canceled
    } else {
        StatusKind::Unknown
    }
}

/// The icon of a status family.
pub fn icon_for(k: StatusKind) -> (r: &'static str)
    ensures
        r@ == icon_of(k),
{
    match k {
        StatusKind::Success => "✓",
        StatusKind::Failed => "✗",
        StatusKind::Running => "●",
        StatusKind::Blocked => "◆",
        StatusKind::Pending => "○",
        StatusKind::Canceled => "◌",
        StatusKind::Unknown => "?",
    }
}

/// The colour of a status family.
pub fn color_for(k: StatusKind) -> (r: u32)
    ensures
        r == color_of(k),
{
    match k {
        StatusKind::Success => SUCCESS,
        StatusKind::Failed => FAILED,
        StatusKind::Running => RUNNING,
        StatusKind::Blocked => BLOCKED,
        StatusKind::Pending => PENDING,
        StatusKind::Canceled => CANCELED,
        StatusKind::Unknown => PENDING,
    }
}

/// The icon for a status string, compared without regard to case.
pub fn get_status_icon(status: &str) -> (r: &'static str)
    ensures
        r@ == icon_of(status_kind_of(lowercase(status@))),
        is_ascii_text(status@) ==> r@ == icon_of(status_kind_of(ascii_lowercase(status@))),
{
    let lowered = to_lower(status);
    icon_for(status_kind(lowered.as_str()))
}

/// The colour for a status string, compared without regard to case.
pub fn get_status_color(status: &str) -> (r: u32)
    ensures
        r == color_of(status_kind_of(lowercase(status@))),
        is_ascii_text(status@) ==> r == color_of(status_kind_of(ascii_lowercase(status@))),
{
    let lowered = to_lower(status);
    color_for(status_kind(lowered.as_str()))
}

/// A status written in ASCII gets the same icon and colour as its
/// lower-cased form: that form is ASCII too, and lower-casing it again
/// changes nothing.
pub proof fn law_status_case_insensitive(s: Seq<char>)
    requires
        is_ascii_text(s),
    ensures
        is_ascii_text(ascii_lowercase(s)),
        ascii_lowercase(ascii_lowercase(s)) == ascii_lowercase(s),
        icon_of(status_kind_of(ascii_lowercase(ascii_lowercase(s)))) == icon_of(status_kind_of(ascii_lowercase(s))),
        color_of(status_kind_of(ascii_lowercase(ascii_lowercase(s)))) == color_of(status_kind_of(ascii_lowercase(s))),
{
    let l = ascii_lowercase(s);
    assert forall|i: int| 0 <= i < l.len() implies (#[trigger] l[i] as int) < 128
        && ascii_lower_char(l[i]) == l[i] by {
        assert(l[i] == ascii_lower_char(s[i]));
        assert((s[i] as int) < 128);
    }
    assert(ascii_lowercase(l) =~= l);
}

/// The icon and colour of a (lowercase) status by its family: success,
/// passed, fixed and successful show a green tick; failed, error and
/// failure a red cross; running, in_progress and in-progress a magenta
/// dot; blocked, waiting, on_hold and on-hold a coral diamond; pending,
/// queued, not_run, not-run and not_running a dim circle; canceled,
/// cancelled, aborted and terminated a dim dotted circle; any other
/// status a question mark.
pub proof fn law_status_families(s: Seq<char>)
    ensures
        (s == "success"@ || s == "passed"@ || s == "fixed"@ || s == "successful"@) ==> icon_of(status_kind_of(s))
            == "✓"@ && color_of(status_kind_of(s)) == 0x98c379u32,
        (s == "failed"@ || s == "error"@ || s == "failure"@) ==> icon_of(status_kind_of(s)) == "✗"@ && color_of(
            status_kind_of(s),
        ) == 0x370e0cu32,
        (s == "running"@ || s == "in_progress"@ || s == "in-progress"@) ==> icon_of(status_kind_of(s)) == "●"@
            && color_of(status_kind_of(s)) == 0xf71abdu32,
        (s == "blocked"@ || s == "waiting"@ || s == "on_hold"@ || s == "on-hold"@) ==> icon_of(status_kind_of(s))
            == "◆"@ && color_of(status_kind_of(s)) == 0xeb636bu32,
        (s == "pending"@ || s == "queued"@ || s == "not_run"@ || s == "not-run"@ || s == "not_running"@)
            ==> icon_of(status_kind_of(s)) == "○"@ && color_of(status_kind_of(s)) == 0x5c6370u32,
        (s == "canceled"@ || s == "cancelled"@ || s == "aborted"@ || s == "terminated"@) ==> icon_of(
            status_kind_of(s),
        ) == "◌"@ && color_of(status_kind_of(s)) == 0x5c6370u32,
        !(s == "success"@ || s == "passed"@ || s == "fixed"@ || s == "successful"@ || s == "failed"@ || s
            == "error"@ || s == "failure"@ || s == "running"@ || s == "in_progress"@ || s == "in-progress"@ || s
            == "blocked"@ || s == "waiting"@ || s == "on_hold"@ || s == "on-hold"@ || s == "pending"@ || s
            == "queued"@ || s == "not_run"@ || s == "not-run"@ || s == "not_running"@ || s == "canceled"@ || s
            == "cancelled"@ || s == "aborted"@ || s == "terminated"@) ==> icon_of(status_kind_of(s)) == "?"@,
{
    reveal_strlit("success");
    reveal_strlit("passed");
    reveal_strlit("fixed");
    reveal_strlit("successful");
    reveal_strlit("failed");
    reveal_strlit("error");
    reveal_strlit("failure");
    reveal_strlit("running");
    reveal_strlit("in_progress");
    reveal_strlit("in-progress");
    reveal_strlit("blocked");
    reveal_strlit("waiting");
    reveal_strlit("on_hold");
    reveal_strlit("on-hold");
    reveal_strlit("pending");
    reveal_strlit("queued");
    reveal_strlit("not_run");
    reveal_strlit("not-run");
    reveal_strlit("not_running");
    reveal_strlit("canceled");
    reveal_strlit("cancelled");
    reveal_strlit("aborted");
    reveal_strlit("terminated");
    if s.len() > 1 {
        let a = s[0];
        let b = s[1];
        assert(s == "success"@ ==> a == 's' && b == 'u');
        assert(s == "passed"@ ==> a == 'p' && b == 'a');
        assert(s == "fixed"@ ==> a == 'f' && b == 'i');
        assert(s == "successful"@ ==> a == 's' && b == 'u');
        assert(s == "failed"@ ==> a == 'f' && b == 'a');
        assert(s == "error"@ ==> a == 'e' && b == 'r');
        assert(s == "failure"@ ==> a == 'f' && b == 'a');
        assert(s == "running"@ ==> a == 'r' && b == 'u');
        assert(s == "in_progress"@ ==> a == 'i' && b == 'n');
        assert(s == "in-progress"@ ==> a == 'i' && b == 'n');
        assert(s == "blocked"@ ==> a == 'b' && b == 'l');
        assert(s == "waiting"@ ==> a == 'w' && b == 'a');
        assert(s == "on_hold"@ ==> a == 'o' && b == 'n');
        assert(s == "on-hold"@ ==> a == 'o' && b == 'n');
        assert(s == "pending"@ ==> a == 'p' && b == 'e');
        assert(s == "queued"@ ==> a == 'q' && b == 'u');
        assert(s == "not_run"@ ==> a == 'n' && b == 'o');
        assert(s == "not-run"@ ==> a == 'n' && b == 'o');
        assert(s == "not_running"@ ==> a == 'n' && b == 'o');
        assert(s == "canceled"@ ==> a == 'c' && b == 'a');
        assert(s == "cancelled"@ ==> a == 'c' && b == 'a');
        assert(s == "aborted"@ ==> a == 'a' && b == 'b');
        assert(s == "terminated"@ ==> a == 't' && b == 'e');
    }
}

} // verus!
