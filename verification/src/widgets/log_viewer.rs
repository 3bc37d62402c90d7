//! Scrollable log view. The scroll offset counts lines up from the bottom.

use vstd::prelude::*;
use crate::widgets::faceted_search::strings_view;
use crate::text::{has_prefix, is_infix, str_contains, str_starts_with, trim_start, trim_start_of};

verus! {

/// Log lines with a scroll position.
pub struct LogViewer {
    log_buffer: Vec<String>,
    scroll_offset: usize,
    loading: bool,
}

impl LogViewer {
    /// The lines.
    pub closed spec fn lines(&self) -> Seq<Seq<char>> {
        strings_view(self.log_buffer@)
    }

    /// Lines scrolled up from the bottom.
    pub closed spec fn offset(&self) -> nat {
        self.scroll_offset as nat
    }

    /// Whether logs are loading.
    pub closed spec fn is_loading(&self) -> bool {
        self.loading
    }

    /// An empty viewer at the bottom.
    pub fn new() -> (r: Self)
        ensures
            r.lines() == Seq::<Seq<char>>::empty(),
            r.offset() == 0,
            !r.is_loading(),
    {
        LogViewer { log_buffer: Vec::new(), scroll_offset: 0, loading: false }
    }

    /// Replaces the lines and goes back to the bottom.
    pub fn set_logs(&mut self, logs: Vec<String>)
        ensures
            final(self).lines() == strings_view(logs@),
            final(self).offset() == 0,
            final(self).is_loading() == old(self).is_loading(),
    {
        self.log_buffer = logs;
        self.scroll_offset = 0;
    }

    /// Adds a line at the end.
    pub fn append_line(&mut self, line: String)
        ensures
            final(self).lines() == old(self).lines().push(line@),
            final(self).offset() == old(self).offset(),
            final(self).is_loading() == old(self).is_loading(),
    {
        let ghost before = self.log_buffer@;
        self.log_buffer.push(line);
        assert(strings_view(self.log_buffer@) =~= strings_view(before).push(line@));
    }

    /// Removes every line and goes back to the bottom.
    pub fn clear(&mut self)
        ensures
            final(self).lines() == Seq::<Seq<char>>::empty(),
            final(self).offset() == 0,
            final(self).is_loading() == old(self).is_loading(),
    {
        self.log_buffer.clear();
        self.scroll_offset = 0;
        assert(strings_view(self.log_buffer@) =~= Seq::<Seq<char>>::empty());
    }

    /// Whether there are no lines.
    pub fn is_empty(&self) -> (r: bool)
        ensures
            r == (self.lines().len() == 0),
    {
        self.log_buffer.len() == 0
    }

    /// Sets whether logs are loading.
    pub fn set_loading(&mut self, loading: bool)
        ensures
            final(self).is_loading() == loading,
            final(self).lines() == old(self).lines(),
            final(self).offset() == old(self).offset(),
    {
        self.loading = loading;
    }

    /// Whether logs are loading.
    pub fn loading(&self) -> (r: bool)
        ensures
            r == self.is_loading(),
    {
        self.loading
    }

    /// The lines.
    pub fn log_buffer(&self) -> (r: &Vec<String>)
        ensures
            strings_view(r@) == self.lines(),
    {
        &self.log_buffer
    }

    /// Lines scrolled up from the bottom.
    pub fn scroll_offset(&self) -> (r: usize)
        ensures
            r == self.offset(),
    {
        self.scroll_offset
    }

    /// Scrolls up by `lines`, stopping at the largest offset.
    pub fn scroll_up(&mut self, lines: usize)
        ensures
            final(self).offset() == if old(self).offset() + lines > usize::MAX {
                usize::MAX as nat
            } else {
                (old(self).offset() + lines) as nat
            },
            final(self).lines() == old(self).lines(),
            final(self).is_loading() == old(self).is_loading(),
    {
        self.scroll_offset = self.scroll_offset.saturating_add(lines);
    }

    /// Scrolls down by `lines`, stopping at the bottom.
    pub fn scroll_down(&mut self, lines: usize)
        ensures
            final(self).offset() == if old(self).offset() >= lines {
                (old(self).offset() - lines) as nat
            } else {
                0
            },
            final(self).lines() == old(self).lines(),
            final(self).is_loading() == old(self).is_loading(),
    {
        self.scroll_offset = self.scroll_offset.saturating_sub(lines);
    }

    /// Scrolls so that the first line is at the top; nothing changes when
    /// there are no lines.
    pub fn scroll_to_top(&mut self)
        ensures
            final(self).offset() == if old(self).lines().len() > 0 {
                (old(self).lines().len() - 1) as nat
            } else {
                old(self).offset()
            },
            final(self).lines() == old(self).lines(),
            final(self).is_loading() == old(self).is_loading(),
    {
        if self.log_buffer.len() > 0 {
            self.scroll_offset = self.log_buffer.len() - 1;
        }
    }

    /// Goes back to the bottom.
    pub fn scroll_to_bottom(&mut self)
        ensures
            final(self).offset() == 0,
            final(self).lines() == old(self).lines(),
            final(self).is_loading() == old(self).is_loading(),
    {
        self.scroll_offset = 0;
    }

    /// The range of line indices shown in a view `height` lines tall, as
    /// (first, end): the last shown line is the one `offset` lines above the
    /// end of the log.
    pub fn visible_range(&self, height: usize) -> (r: (usize, usize))
        ensures
            ({
                let total = self.lines().len();
                let off = self.offset();
                &&& r.0 == if off >= total { 0 } else if off + height >= total { 0 } else { (total - off - height) as nat }
                &&& r.1 == if off == 0 { total } else if off >= total { 0 } else { (total - off) as nat }
            }),
    {
        let total = self.log_buffer.len();
        let start = if self.scroll_offset >= total {
            0
        } else if self.scroll_offset as u128 + height as u128 >= total as u128 {
            0
        } else {
            total - self.scroll_offset - height
        };
        let end = if self.scroll_offset == 0 {
            total
        } else {
            total.saturating_sub(self.scroll_offset)
        };
        (start, end)
    }
}

impl Default for LogViewer {
    fn default() -> (r: Self)
        ensures
            r.lines() == Seq::<Seq<char>>::empty(),
            r.offset() == 0,
            !r.is_loading(),
    {
        LogViewer::new()
    }
}

/// Scrolling up by some lines and then down by as many comes back to the
/// same place with the same lines, when the way up did not reach the
/// largest offset.
pub proof fn law_scroll_up_then_down(a: LogViewer, b: LogViewer, c: LogViewer, n: usize)
    requires
        a.offset() + n <= usize::MAX,
        b.offset() == a.offset() + n,
        b.lines() == a.lines(),
        c.offset() == if b.offset() >= n { (b.offset() - n) as nat } else { 0 },
        c.lines() == b.lines(),
    ensures
        c.offset() == a.offset(),
        c.lines() == a.lines(),
{
}

/// How a log line is shown.
#[derive(Debug, Clone, Copy, PartialEq, Eq, Structural)]
pub enum LineKind {
    /// A command ("$ ...").
    Command,
    /// A success.
    Success,
    /// An error.
    Error,
    /// A warning.
    Warning,
    /// Other output.
    Plain,
}

/// How a log line is shown, by how it starts (after leading whitespace) or
/// what it contains.
pub open spec fn line_kind(line: Seq<char>) -> LineKind {
    let t = trim_start_of(line);
    if has_prefix(t, "$"@) {
        LineKind::Command
    } else if has_prefix(t, "✓"@) || has_prefix(t, "Success"@) || has_prefix(t, "Done"@) || has_prefix(t, "Completed"@)
        || is_infix("successfully"@, line) {
        LineKind::Success
    } else if has_prefix(t, "✗"@) || has_prefix(t, "Error:"@) || has_prefix(t, "ERROR:"@) || has_prefix(t, "FAIL:"@)
        || has_prefix(t, "Failed"@) || has_prefix(t, "error:"@) || is_infix("fatal:"@, line) || is_infix(" error "@, line) {
        LineKind::Error
    } else if has_prefix(t, "Warning:"@) || has_prefix(t, "WARN:"@) || has_prefix(t, "warning:"@) {
        LineKind::Warning
    } else {
        LineKind::Plain
    }
}

/// How a log line is shown.
pub fn classify_line(line: &str) -> (r: LineKind)
    ensures
        r == line_kind(line@),
{
    let t = trim_start(line);
    if str_starts_with(t, "$") {
        LineKind::Command
    } else if str_starts_with(t, "✓") || str_starts_with(t, "Success") || str_starts_with(t, "Done") || str_starts_with(
        t,
        "Completed",
    ) || str_contains(line, "successfully") {
        LineKind::Success
    } else if str_starts_with(t, "✗") || str_starts_with(t, "Error:") || str_starts_with(t, "ERROR:") || str_starts_with(
        t,
        "FAIL:",
    ) || str_starts_with(t, "Failed") || str_starts_with(t, "error:") || str_contains(line, "fatal:") || str_contains(
        line,
        " error ",
    ) {
        LineKind::Error
    } else if str_starts_with(t, "Warning:") || str_starts_with(t, "WARN:") || str_starts_with(t, "warning:") {
        LineKind::Warning
    } else {
        LineKind::Plain
    }
}

} // verus!
