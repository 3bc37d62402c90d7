//! The job log popup: the steps of a job, each collapsible, over one
//! scrolling view of step headers and log lines.

use vstd::prelude::*;
use std::time::Instant;
use crate::api::models::Job;
use crate::clock::{elapsed_secs, instant_now};
use crate::keys::{KeyCode, KeyEvent};
use crate::text::{concat, decimal, join_lines, joined_lines, owned, str_eq, u64_to_string};
use crate::widgets::faceted_search::strings_view;
use crate::widgets::spinner::{SPINNER_FRAME_COUNT, frame_of, spinner_frame};

verus! {

/// What a key in the log popup asks for.
#[derive(Debug, Clone, Copy, PartialEq, Eq, Structural)]
pub enum ModalAction {
    /// Nothing.
    Nothing,
    /// Close the popup.
    Close,
    /// Rerun the job's workflow.
    Rerun,
    /// Copy the selected step's logs (`selected_step_text`) to the clipboard.
    CopyStepLogs,
}

/// A step of a job's log.
pub struct LogStep {
    pub name: String,
    /// "success", "failed", "running" or "pending".
    pub status: String,
    /// Run time in seconds, if known.
    pub duration_secs: Option<u32>,
    pub logs: Vec<String>,
    /// Whether the log lines are shown.
    pub expanded: bool,
    /// Whether the lines are still being fetched.
    pub is_loading: bool,
}

/// Rows a step takes in the view: its header and, when expanded, one
/// loading row or its lines (at least one row).
pub open spec fn step_rows(s: LogStep) -> nat {
    1 + if s.expanded {
        if s.is_loading {
            1nat
        } else if s.logs@.len() > 0 {
            s.logs@.len()
        } else {
            1nat
        }
    } else {
        0nat
    }
}

/// Rows taken by the first `k` steps.
pub open spec fn rows_before(steps: Seq<LogStep>, k: int) -> nat
    decreases k,
{
    if k <= 0 || steps.len() == 0 {
        0
    } else if k > steps.len() {
        rows_before(steps, steps.len() as int)
    } else {
        rows_before(steps, k - 1) + step_rows(steps[k - 1])
    }
}

/// An upper bound of the rows the first `k` steps can take, however they
/// are expanded or loaded: two rows and the lines of each.
pub open spec fn full_rows_before(steps: Seq<LogStep>, k: int) -> nat
    decreases k,
{
    if k <= 0 || steps.len() == 0 {
        0
    } else if k > steps.len() {
        full_rows_before(steps, steps.len() as int)
    } else {
        full_rows_before(steps, k - 1) + 2 + steps[k - 1].logs@.len()
    }
}

/// The rows taken never exceed the bound.
pub proof fn lemma_rows_within_bound(steps: Seq<LogStep>, k: int)
    requires
        0 <= k <= steps.len(),
    ensures
        rows_before(steps, k) <= full_rows_before(steps, k),
    decreases k,
{
    if k > 0 {
        lemma_rows_within_bound(steps, k - 1);
    }
}

/// Rows before a step never exceed the rows of all steps.
pub proof fn lemma_rows_before_monotonic(steps: Seq<LogStep>, j: int, k: int)
    requires
        0 <= j <= k <= steps.len(),
    ensures
        rows_before(steps, j) <= rows_before(steps, k),
    decreases k - j,
{
    if j < k {
        lemma_rows_before_monotonic(steps, j, k - 1);
    }
}

/// A step's duration: "2m 15s" from a minute on, else "45s".
pub open spec fn step_duration_text(secs: nat) -> Seq<char> {
    if secs >= 60 {
        decimal(secs / 60) + "m "@ + decimal(secs % 60) + "s"@
    } else {
        decimal(secs) + "s"@
    }
}

/// The popup over a job's log.
pub struct LogModal {
    /// The job shown.
    pub job: Job,
    pub steps: Vec<LogStep>,
    /// Selected step.
    pub selected_step: usize,
    /// First row of the view shown.
    pub scroll_offset: usize,
    pub visible: bool,
    /// The job is running, so its log grows.
    pub is_streaming: bool,
    /// When the log was last fetched.
    pub last_fetch: Instant,
    /// Whether the view follows the end of the log.
    pub auto_scroll: bool,
    /// Frame of the loading animation.
    pub spinner_frame: usize,
    /// The steps are still being discovered.
    pub is_loading: bool,
    /// Rows the view showed when last drawn.
    pub last_visible_height: usize,
    /// Scroll to the end when next drawn.
    pub scroll_to_bottom_pending: bool,
    /// Loading progress: steps done, steps in all, current step.
    pub load_progress: Option<(usize, usize, String)>,
    /// When the popup was opened.
    pub created_at: Instant,
}

impl LogModal {
    /// Rows of the whole view.
    pub open spec fn total_rows(self) -> nat {
        rows_before(self.steps@, self.steps@.len() as int)
    }

    /// Row of the header of step `i`.
    pub open spec fn header_row(self, i: int) -> nat {
        rows_before(self.steps@, i)
    }

    /// The last first row that still fills the view.
    pub open spec fn max_scroll(self) -> nat {
        if self.total_rows() > self.last_visible_height { (self.total_rows() - self.last_visible_height) as nat } else { 0 }
    }

    /// The bound of the view's rows.
    pub open spec fn full_rows(self) -> nat {
        full_rows_before(self.steps@, self.steps@.len() as int)
    }

    /// The view's rows can be counted however steps are expanded or
    /// loaded, and the animation frame exists.
    pub open spec fn wf(self) -> bool {
        &&& self.full_rows() <= usize::MAX
        &&& self.spinner_frame < SPINNER_FRAME_COUNT
    }

    /// A popup for `job`, loading, with nothing scrolled; it follows the end
    /// of the log when the job is running.
    pub fn new(job: Job) -> (r: Self)
        ensures
            r.wf(),
            r.job == job,
            r.steps@.len() == 0,
            r.selected_step == 0,
            r.scroll_offset == 0,
            r.visible,
            r.is_streaming == (job.status@ == "running"@ && job.stopped_at is None),
            r.auto_scroll == r.is_streaming,
            r.spinner_frame == 0,
            r.is_loading,
            r.last_visible_height == 1,
            !r.scroll_to_bottom_pending,
            r.load_progress is None,
    {
        let is_streaming = job.is_running();
        LogModal {
            job,
            steps: Vec::new(),
            selected_step: 0,
            scroll_offset: 0,
            visible: true,
            is_streaming,
            last_fetch: instant_now(),
            auto_scroll: is_streaming,
            spinner_frame: 0,
            is_loading: true,
            last_visible_height: 1,
            scroll_to_bottom_pending: false,
            load_progress: None,
            created_at: instant_now(),
        }
    }

    /// `n` is this popup with the discovered (name, status) pairs as its
    /// steps, no lines yet; failed steps start expanded. The selection is
    /// moved onto the last step when past it.
    pub open spec fn steps_discovered_to(self, n: Self, steps: Seq<(String, String)>) -> bool {
        &&& n.steps@.len() == steps.len()
        &&& forall|i: int| 0 <= i < steps.len() ==> {
            let s = #[trigger] n.steps@[i];
            &&& s.name == steps[i].0
            &&& s.status == steps[i].1
            &&& s.duration_secs is None
            &&& s.logs@.len() == 0
            &&& s.expanded == (steps[i].1@ == "failed"@)
            &&& s.is_loading
        }
        &&& n == (LogModal {
            steps: n.steps,
            is_loading: false,
            load_progress: None,
            selected_step: if steps.len() > 0 && self.selected_step >= steps.len() {
                (steps.len() - 1) as usize
            } else {
                self.selected_step
            },
            ..self
        })
    }

    /// `n` is this popup with the lines of step `idx` filled in and that
    /// step loaded; nothing changes when there is no such step.
    pub open spec fn step_logs_filled_to(self, n: Self, idx: usize, logs: Vec<String>) -> bool {
        &&& idx < self.steps@.len() ==> {
            let s = n.steps@[idx as int];
            let o = self.steps@[idx as int];
            &&& n.steps@ =~= self.steps@.update(idx as int, s)
            &&& s.logs == logs && !s.is_loading
            &&& s.name == o.name && s.status == o.status && s.duration_secs == o.duration_secs
            &&& s.expanded == o.expanded
        }
        &&& idx >= self.steps@.len() ==> n.steps == self.steps
        &&& n == (LogModal { steps: n.steps, ..self })
    }

    /// `n` is this popup with every step and the popup itself marked loaded,
    /// the time of the last fetch taken anew.
    pub open spec fn loading_completed_to(self, n: Self) -> bool {
        &&& n.steps@.len() == self.steps@.len()
        &&& forall|i: int| 0 <= i < self.steps@.len() ==> {
            let s = #[trigger] n.steps@[i];
            let o = self.steps@[i];
            same_step_content(s, o) && s.expanded == o.expanded && !s.is_loading
        }
        &&& n == (LogModal { steps: n.steps, is_loading: false, load_progress: None, last_fetch: n.last_fetch, ..self })
    }

    /// Replaces the steps with the discovered (name, status) pairs, no lines
    /// yet; failed steps start expanded. The selection is moved onto the
    /// last step when past it.
    pub fn set_steps(&mut self, steps: Vec<(String, String)>)
        requires
            old(self).wf(),
            steps@.len() <= usize::MAX / 2,
        ensures
            final(self).wf(),
            old(self).steps_discovered_to(*final(self), steps@),
    {
        let mut new_steps: Vec<LogStep> = Vec::new();
        let mut i: usize = 0;
        while i < steps.len()
            invariant
                i <= steps@.len(),
                steps@.len() <= usize::MAX / 2,
                new_steps@.len() == i,
                full_rows_before(new_steps@, i as int) == 2 * i,
                forall|k: int| 0 <= k < i ==> {
                    let s = #[trigger] new_steps@[k];
                    &&& s.name == steps@[k].0
                    &&& s.status == steps@[k].1
                    &&& s.duration_secs is None
                    &&& s.logs@.len() == 0
                    &&& s.expanded == (steps@[k].1@ == "failed"@)
                    &&& s.is_loading
                },
            decreases steps@.len() - i,
        {
            let name = steps[i].0.clone();
            let status = steps[i].1.clone();
            let expanded = str_eq(status.as_str(), "failed");
            let ghost before = new_steps@;
            new_steps.push(LogStep { name, status, duration_secs: None, logs: Vec::new(), expanded, is_loading: true });
            assert(new_steps@.drop_last() =~= before);
            assert(full_rows_before(new_steps@, i as int) == full_rows_before(before, i as int)) by {
                lemma_rows_before_prefix(before, new_steps@, i as int);
            }
            i = i + 1;
        }
        let n = new_steps.len();
        self.steps = new_steps;
        self.is_loading = false;
        self.load_progress = None;
        if n > 0 && self.selected_step >= n {
            self.selected_step = n - 1;
        }
    }

    /// Fills in the lines of step `step_index`, which is then loaded; nothing
    /// happens when there is no such step.
    pub fn set_step_logs(&mut self, step_index: usize, logs: Vec<String>)
        requires
            old(self).wf(),
            old(self).full_rows() + logs@.len() <= usize::MAX,
        ensures
            final(self).wf(),
            old(self).step_logs_filled_to(*final(self), step_index, logs),
    {
        if step_index < self.steps.len() {
            let ghost before = self.steps@;
            let ghost n = logs@.len();
            self.steps[step_index].logs = logs;
            self.steps[step_index].is_loading = false;
            proof {
                lemma_rows_update(before, self.steps@, step_index as int);
            }
        }
    }
}

/// Rows are determined by the steps before.
proof fn lemma_rows_before_prefix(a: Seq<LogStep>, b: Seq<LogStep>, k: int)
    requires
        0 <= k <= a.len(),
        k <= b.len(),
        forall|i: int| 0 <= i < k ==> #[trigger] a[i] == b[i],
    ensures
        rows_before(a, k) == rows_before(b, k),
        full_rows_before(a, k) == full_rows_before(b, k),
    decreases k,
{
    if k > 0 {
        lemma_rows_before_prefix(a, b, k - 1);
    }
}

/// Changing one step changes the rows by the difference of its rows.
proof fn lemma_rows_update(a: Seq<LogStep>, b: Seq<LogStep>, i: int)
    requires
        0 <= i < a.len(),
        b.len() == a.len(),
        forall|j: int| 0 <= j < a.len() && j != i ==> #[trigger] a[j] == b[j],
    ensures
        rows_before(b, b.len() as int) + step_rows(a[i]) == rows_before(a, a.len() as int) + step_rows(b[i]),
        full_rows_before(b, b.len() as int) + a[i].logs@.len() == full_rows_before(a, a.len() as int) + b[i].logs@.len(),
    decreases a.len(),
{
    lemma_rows_update_upto(a, b, i, a.len() as int);
}

proof fn lemma_rows_update_upto(a: Seq<LogStep>, b: Seq<LogStep>, i: int, k: int)
    requires
        0 <= i < a.len(),
        b.len() == a.len(),
        i < k <= a.len(),
        forall|j: int| 0 <= j < a.len() && j != i ==> #[trigger] a[j] == b[j],
    ensures
        rows_before(b, k) + step_rows(a[i]) == rows_before(a, k) + step_rows(b[i]),
        full_rows_before(b, k) + a[i].logs@.len() == full_rows_before(a, k) + b[i].logs@.len(),
    decreases k,
{
    if k == i + 1 {
        lemma_rows_before_prefix(a, b, i);
    } else {
        lemma_rows_update_upto(a, b, i, k - 1);
    }
}


/// The first row to show so that row `header` is in a view of `height`
/// rows starting at `offset`: up to it when above, down to it when below.
pub open spec fn offset_showing(header: nat, offset: nat, height: nat) -> nat {
    if header < offset {
        header
    } else if header >= offset + height {
        if header >= height - 1 { (header - (height - 1)) as nat } else { 0 }
    } else {
        offset
    }
}

/// A step with the same name, status, duration and lines.
pub open spec fn same_step_content(a: LogStep, b: LogStep) -> bool {
    a.name == b.name && a.status == b.status && a.duration_secs == b.duration_secs && a.logs == b.logs
}

impl LogModal {
    /// Whether `key` can be handled: moving between steps needs a view at
    /// least one row high whose end fits in a `usize`.
    pub open spec fn accepts_key(self, key: KeyCode) -> bool {
        (key == KeyCode::Up || key == KeyCode::Char('k') || key == KeyCode::Down || key == KeyCode::Char('j')) ==> {
            &&& self.last_visible_height >= 1
            &&& self.scroll_offset + self.last_visible_height <= usize::MAX
        }
    }

    /// Shows `logs` as loaded: as one expanded "All Logs" step when there are
    /// no steps, else as the lines of the first step; the view scrolls to
    /// the end when next drawn.
    pub fn set_logs(&mut self, logs: Vec<String>)
        requires
            old(self).wf(),
            old(self).full_rows() + logs@.len() + 2 <= usize::MAX,
        ensures
            final(self).wf(),
            old(self).steps@.len() == 0 ==> {
                &&& final(self).steps@.len() == 1
                &&& final(self).steps@[0].name@ == "All Logs"@
                &&& final(self).steps@[0].status@ == "success"@
                &&& final(self).steps@[0].duration_secs is None
                &&& final(self).steps@[0].logs == logs
                &&& final(self).steps@[0].expanded
                &&& !final(self).steps@[0].is_loading
                &&& final(self).selected_step == 0
            },
            old(self).steps@.len() > 0 ==> {
                let s = final(self).steps@[0];
                let o = old(self).steps@[0];
                &&& final(self).steps@ == old(self).steps@.update(0, s)
                &&& s.logs == logs && !s.is_loading
                &&& s.name == o.name && s.status == o.status && s.duration_secs == o.duration_secs
                &&& s.expanded == o.expanded
                &&& final(self).selected_step == old(self).selected_step
            },
            !final(self).is_loading,
            final(self).load_progress is None,
            final(self).scroll_to_bottom_pending,
            final(self).scroll_offset == old(self).scroll_offset,
            final(self).last_visible_height == old(self).last_visible_height,
            final(self).auto_scroll == old(self).auto_scroll,
            final(self).job == old(self).job,
            final(self).is_streaming == old(self).is_streaming,
            final(self).spinner_frame == old(self).spinner_frame,
    {
        if self.steps.len() == 0 {
            let step = LogStep {
                name: owned("All Logs"),
                status: owned("success"),
                duration_secs: None,
                logs,
                expanded: true,
                is_loading: false,
            };
            self.steps = vec![step];
            self.selected_step = 0;
            assert(full_rows_before(self.steps@, 0) == 0);
            assert(full_rows_before(self.steps@, 1) == 2 + self.steps@[0].logs@.len());
        } else {
            let ghost before = self.steps@;
            self.steps[0].logs = logs;
            self.steps[0].is_loading = false;
            proof {
                lemma_rows_update(before, self.steps@, 0);
            }
        }
        self.is_loading = false;
        self.load_progress = None;
        self.last_fetch = instant_now();
        self.scroll_to_bottom_pending = true;
    }

    /// Marks every step and the popup as loaded.
    pub fn mark_loading_complete(&mut self)
        requires
            old(self).wf(),
        ensures
            final(self).wf(),
            old(self).loading_completed_to(*final(self)),
    {
        self.is_loading = false;
        self.load_progress = None;
        self.last_fetch = instant_now();
        let ghost start = self.steps@;
        let ghost start_self = *self;
        let mut i: usize = 0;
        while i < self.steps.len()
            invariant
                i <= self.steps@.len(),
                self.steps@.len() == start.len(),
                *self == (LogModal { steps: self.steps, ..start_self }),
                full_rows_before(self.steps@, self.steps@.len() as int) == full_rows_before(start, start.len() as int),
                forall|k: int| 0 <= k < start.len() ==> {
                    let s = #[trigger] self.steps@[k];
                    let o = start[k];
                    same_step_content(s, o) && s.expanded == o.expanded && (k < i ==> !s.is_loading) && (k >= i
                        ==> s.is_loading == o.is_loading)
                },
            decreases self.steps@.len() - i,
        {
            let ghost before = self.steps@;
            self.steps[i].is_loading = false;
            proof {
                lemma_rows_update(before, self.steps@, i as int);
            }
            i = i + 1;
        }
    }

    /// Moves the loading animation on one frame.
    pub fn advance_spinner(&mut self)
        requires
            old(self).wf(),
        ensures
            final(self).wf(),
            final(self).spinner_frame == (old(self).spinner_frame + 1) % (SPINNER_FRAME_COUNT as int),
            *final(self) == (LogModal { spinner_frame: final(self).spinner_frame, ..*old(self) }),
    {
        self.spinner_frame = (self.spinner_frame + 1) % SPINNER_FRAME_COUNT;
    }

    /// The loading animation's current frame.
    pub fn spinner_char(&self) -> (r: &'static str)
        requires
            self.wf(),
        ensures
            r@ == frame_of(self.spinner_frame as nat),
    {
        spinner_frame(self.spinner_frame)
    }

    /// Whether a running job's log is due to be fetched again, `elapsed_secs`
    /// seconds after the last fetch: every two seconds.
    pub fn should_refresh_after(&self, elapsed_secs: u64) -> (r: bool)
        ensures
            r == (self.is_streaming && elapsed_secs >= 2),
    {
        self.is_streaming && elapsed_secs >= 2
    }

    /// Whether a running job's log is due to be fetched again now; never for
    /// a job that is not running.
    pub fn should_refresh(&self) -> (r: bool)
        ensures
            r ==> self.is_streaming,
    {
        self.should_refresh_after(elapsed_secs(&self.last_fetch))
    }

    /// Notes that a fetch of the log has started.
    pub fn mark_refresh_started(&mut self)
        ensures
            *final(self) == (LogModal { last_fetch: final(self).last_fetch, ..*old(self) }),
    {
        self.last_fetch = instant_now();
    }

    /// The job's number.
    pub fn job_number(&self) -> (r: u32)
        ensures
            r == self.job.job_number,
    {
        self.job.job_number
    }

    /// The steps.
    pub fn steps_ref(&self) -> (r: &Vec<LogStep>)
        ensures
            r@ == self.steps@,
    {
        &self.steps
    }

    /// Rows of the whole view: each step's header and, for expanded steps,
    /// a loading row or their lines (at least one).
    pub fn total_virtual_rows(&self) -> (r: usize)
        requires
            self.wf(),
        ensures
            r == self.total_rows(),
    {
        self.step_header_row(self.steps.len())
    }

    /// Row of the header of step `step_index` (past the last step: the
    /// number of rows).
    pub fn step_header_row(&self, step_index: usize) -> (r: usize)
        requires
            self.wf(),
        ensures
            r == rows_before(self.steps@, step_index as int),
    {
        let n = self.steps.len();
        let stop = if step_index < n { step_index } else { n };
        let mut row: usize = 0;
        let mut i: usize = 0;
        proof {
            lemma_rows_within_bound(self.steps@, n as int);
        }
        while i < stop
            invariant
                i <= stop <= n,
                n == self.steps@.len(),
                row == rows_before(self.steps@, i as int),
                rows_before(self.steps@, n as int) <= usize::MAX,
            decreases stop - i,
        {
            proof {
                lemma_rows_before_monotonic(self.steps@, i + 1, n as int);
            }
            let step = &self.steps[i];
            row = row + 1;
            if step.expanded {
                if step.is_loading {
                    row = row + 1;
                } else if step.logs.len() > 0 {
                    row = row + step.logs.len();
                } else {
                    row = row + 1;
                }
            }
            i = i + 1;
        }
        row
    }

    /// The last first row that still fills the view.
    fn max_scroll_offset(&self) -> (r: usize)
        requires
            self.wf(),
        ensures
            r == self.max_scroll(),
    {
        let total = self.total_virtual_rows();
        if total > self.last_visible_height { total - self.last_visible_height } else { 0 }
    }

    /// The lines of the selected step joined with newlines; empty when no
    /// step is selected.
    pub fn selected_step_text(&self) -> (r: String)
        ensures
            self.selected_step < self.steps@.len() ==> r@ == joined_lines(
                strings_view(self.steps@[self.selected_step as int].logs@),
            ),
            self.selected_step >= self.steps@.len() ==> r@.len() == 0,
    {
        if self.selected_step < self.steps.len() {
            join_lines(self.steps[self.selected_step].logs.as_slice())
        } else {
            String::new()
        }
    }

    /// `n` is this popup scrolled up one row, if it can be.
    pub open spec fn scrolled_up_to(self, n: Self) -> bool {
        &&& n.scroll_offset == if self.scroll_offset > 0 { (self.scroll_offset - 1) as usize } else { 0 }
        &&& n == (LogModal { scroll_offset: n.scroll_offset, ..self })
    }

    /// `n` is this popup scrolled down one row, not past the last first row
    /// that fills the view.
    pub open spec fn scrolled_down_to(self, n: Self) -> bool {
        &&& n.scroll_offset == if self.scroll_offset < self.max_scroll() {
            (self.scroll_offset + 1) as usize
        } else {
            self.scroll_offset
        }
        &&& n == (LogModal { scroll_offset: n.scroll_offset, ..self })
    }

    /// `n` is this popup with the selected step expanded or collapsed; an
    /// expanded step's header goes to the top of the view.
    pub open spec fn toggled_to(self, n: Self) -> bool {
        if self.selected_step < self.steps@.len() {
            let i = self.selected_step as int;
            let s = n.steps@[i];
            let o = self.steps@[i];
            &&& n.steps@ == self.steps@.update(i, s)
            &&& same_step_content(s, o) && s.is_loading == o.is_loading
            &&& s.expanded == !o.expanded
            &&& n.scroll_offset == if s.expanded { self.header_row(i) as usize } else { self.scroll_offset }
            &&& n == (LogModal { steps: n.steps, scroll_offset: n.scroll_offset, ..self })
        } else {
            n == self
        }
    }

    /// Scrolls up one row.
    pub fn scroll_up(&mut self)
        ensures
            old(self).scrolled_up_to(*final(self)),
    {
        if self.scroll_offset > 0 {
            self.scroll_offset = self.scroll_offset - 1;
        }
    }

    /// Scrolls down one row, not past the last first row that fills the
    /// view.
    pub fn scroll_down(&mut self)
        requires
            old(self).wf(),
        ensures
            old(self).scrolled_down_to(*final(self)),
    {
        let max = self.max_scroll_offset();
        if self.scroll_offset < max {
            self.scroll_offset = self.scroll_offset + 1;
        }
    }

    /// Scrolls so that the selected step's header is in view.
    fn ensure_selected_visible(&mut self)
        requires
            old(self).wf(),
            old(self).last_visible_height >= 1,
            old(self).scroll_offset + old(self).last_visible_height <= usize::MAX,
        ensures
            final(self).scroll_offset == offset_showing(
                old(self).header_row(old(self).selected_step as int),
                old(self).scroll_offset as nat,
                old(self).last_visible_height as nat,
            ),
            *final(self) == (LogModal { scroll_offset: final(self).scroll_offset, ..*old(self) }),
    {
        let header = self.step_header_row(self.selected_step);
        let h = self.last_visible_height;
        if header < self.scroll_offset {
            self.scroll_offset = header;
        } else if header >= self.scroll_offset + h {
            self.scroll_offset = if header >= h - 1 { header - (h - 1) } else { 0 };
        }
    }

    /// Expands or collapses the selected step; an expanded step's header
    /// goes to the top of the view.
    pub fn toggle_selected_step(&mut self)
        requires
            old(self).wf(),
        ensures
            final(self).wf(),
            old(self).toggled_to(*final(self)),
    {
        let i = self.selected_step;
        if i < self.steps.len() {
            let ghost before = self.steps@;
            let ghost old_self = *self;
            let now_expanded = !self.steps[i].expanded;
            self.steps[i].expanded = now_expanded;
            proof {
                lemma_rows_update(before, self.steps@, i as int);
                lemma_rows_before_prefix(before, self.steps@, i as int);
            }
            if now_expanded {
                self.scroll_offset = self.step_header_row(i);
            }
        }
    }

    /// Selects the step above, scrolling it into view.
    fn move_selected_step_up(&mut self)
        requires
            old(self).wf(),
            old(self).last_visible_height >= 1,
            old(self).scroll_offset + old(self).last_visible_height <= usize::MAX,
        ensures
            old(self).selected_step > 0 ==> *final(self) == (LogModal {
                selected_step: (old(self).selected_step - 1) as usize,
                scroll_offset: offset_showing(
                    old(self).header_row(old(self).selected_step - 1),
                    old(self).scroll_offset as nat,
                    old(self).last_visible_height as nat,
                ) as usize,
                ..*old(self)
            }),
            old(self).selected_step == 0 ==> *final(self) == *old(self),
    {
        if self.selected_step > 0 {
            self.selected_step = self.selected_step - 1;
            self.ensure_selected_visible();
        }
    }

    /// Selects the step below, scrolling it into view.
    fn move_selected_step_down(&mut self)
        requires
            old(self).wf(),
            old(self).last_visible_height >= 1,
            old(self).scroll_offset + old(self).last_visible_height <= usize::MAX,
        ensures
            old(self).selected_step + 1 < old(self).steps@.len() ==> *final(self) == (LogModal {
                selected_step: (old(self).selected_step + 1) as usize,
                scroll_offset: offset_showing(
                    old(self).header_row(old(self).selected_step + 1),
                    old(self).scroll_offset as nat,
                    old(self).last_visible_height as nat,
                ) as usize,
                ..*old(self)
            }),
            old(self).selected_step + 1 >= old(self).steps@.len() ==> *final(self) == *old(self),
    {
        if self.steps.len() > 0 && self.selected_step < self.steps.len() - 1 {
            self.selected_step = self.selected_step + 1;
            self.ensure_selected_visible();
        }
    }
}


/// A step's duration: "2m 15s" from a minute on, else "45s".
pub fn format_duration(secs: u32) -> (r: String)
    ensures
        r@ == step_duration_text(secs as nat),
{
    if secs >= 60 {
        let m = concat(u64_to_string((secs / 60) as u64).as_str(), "m ");
        let ms = concat(m.as_str(), u64_to_string((secs % 60) as u64).as_str());
        concat(ms.as_str(), "s")
    } else {
        concat(u64_to_string(secs as u64).as_str(), "s")
    }
}

/// `n` steps of scrolling up from `offset`.
pub open spec fn scrolled_up(offset: nat, n: nat) -> nat {
    if offset >= n { (offset - n) as nat } else { 0 }
}

/// `n` steps of scrolling down from `offset`, not past `max`.
pub open spec fn scrolled_down(offset: nat, n: nat, max: nat) -> nat {
    if offset >= max {
        offset
    } else if offset + n <= max {
        offset + n
    } else {
        max
    }
}

/// Rows a page key scrolls.
pub const PAGE_ROWS: usize = 10;

/// What a key asks for in the log popup.
pub open spec fn modal_action_for(key: KeyCode) -> ModalAction {
    match key {
        KeyCode::Esc | KeyCode::Char('q') => ModalAction::Close,
        KeyCode::Char('r') => ModalAction::Rerun,
        KeyCode::Char('c') | KeyCode::Char('y') => ModalAction::CopyStepLogs,
        _ => ModalAction::Nothing,
    }
}

impl LogModal {
    /// `n` and `r` follow `key`: Esc or 'q' close, 'r' asks to rerun, Enter
    /// or space expand or collapse the selected step, 'c' or 'y' ask to copy
    /// its lines, arrows and 'k'/'j' move between steps, the page keys
    /// scroll ten rows, Home and End go to the top and the end.
    pub open spec fn key_step(self, n: Self, key: KeyCode, r: ModalAction) -> bool {
        let h = self.last_visible_height as nat;
        let sel = self.selected_step as int;
        match key {
            KeyCode::Esc | KeyCode::Char('q') => r == ModalAction::Close && n == self,
            KeyCode::Char('r') => r == ModalAction::Rerun && n == self,
            KeyCode::Enter | KeyCode::Char(' ') => r == ModalAction::Nothing && if self.selected_step < self.steps@.len() {
                let s = n.steps@[sel];
                let o = self.steps@[sel];
                &&& n.steps@ == self.steps@.update(sel, s)
                &&& same_step_content(s, o) && s.is_loading == o.is_loading
                &&& s.expanded == !o.expanded
                &&& n.scroll_offset == if s.expanded { self.header_row(sel) as usize } else { self.scroll_offset }
                &&& n == (LogModal { steps: n.steps, scroll_offset: n.scroll_offset, ..self })
            } else {
                n == self
            },
            KeyCode::Char('c') | KeyCode::Char('y') => r == ModalAction::CopyStepLogs && n == self,
            KeyCode::Up | KeyCode::Char('k') => r == ModalAction::Nothing && n == if self.selected_step > 0 {
                LogModal {
                    selected_step: (self.selected_step - 1) as usize,
                    scroll_offset: offset_showing(self.header_row(sel - 1), self.scroll_offset as nat, h) as usize,
                    auto_scroll: false,
                    ..self
                }
            } else {
                LogModal { auto_scroll: false, ..self }
            },
            KeyCode::Down | KeyCode::Char('j') => r == ModalAction::Nothing && n == if sel + 1 < self.steps@.len() {
                LogModal {
                    selected_step: (self.selected_step + 1) as usize,
                    scroll_offset: offset_showing(self.header_row(sel + 1), self.scroll_offset as nat, h) as usize,
                    ..self
                }
            } else {
                self
            },
            KeyCode::PageUp => r == ModalAction::Nothing && n == (LogModal {
                scroll_offset: scrolled_up(self.scroll_offset as nat, PAGE_ROWS as nat) as usize,
                auto_scroll: false,
                ..self
            }),
            KeyCode::PageDown => r == ModalAction::Nothing && n == (LogModal {
                scroll_offset: scrolled_down(self.scroll_offset as nat, PAGE_ROWS as nat, self.max_scroll()) as usize,
                ..self
            }),
            KeyCode::Home => r == ModalAction::Nothing && n == (LogModal { scroll_offset: 0, auto_scroll: false, ..self }),
            KeyCode::End => r == ModalAction::Nothing && n == (LogModal {
                scroll_offset: self.max_scroll() as usize,
                auto_scroll: if self.is_streaming { true } else { self.auto_scroll },
                ..self
            }),
            _ => r == ModalAction::Nothing && n == self,
        }
    }

    /// Handles a key.
    pub fn handle_input(&mut self, key: KeyEvent) -> (r: ModalAction)
        requires
            old(self).wf(),
            old(self).accepts_key(key.code),
        ensures
            final(self).wf(),
            r == modal_action_for(key.code),
            old(self).key_step(*final(self), key.code, r),
    {
        match key.code {
            KeyCode::Esc | KeyCode::Char('q') => ModalAction::Close,
            KeyCode::Char('r') => ModalAction::Rerun,
            KeyCode::Enter | KeyCode::Char(' ') => {
                self.toggle_selected_step();
                ModalAction::Nothing
            },
            KeyCode::Char('c') | KeyCode::Char('y') => ModalAction::CopyStepLogs,
            KeyCode::Up | KeyCode::Char('k') => {
                self.move_selected_step_up();
                self.auto_scroll = false;
                ModalAction::Nothing
            },
            KeyCode::Down | KeyCode::Char('j') => {
                self.move_selected_step_down();
                ModalAction::Nothing
            },
            KeyCode::PageUp => {
                let mut k: usize = 0;
                let ghost start = *self;
                while k < PAGE_ROWS
                    invariant
                        k <= PAGE_ROWS,
                        *self == (LogModal { scroll_offset: self.scroll_offset, ..start }),
                        self.scroll_offset == scrolled_up(start.scroll_offset as nat, k as nat),
                    decreases PAGE_ROWS - k,
                {
                    self.scroll_up();
                    k = k + 1;
                }
                self.auto_scroll = false;
                ModalAction::Nothing
            },
            KeyCode::PageDown => {
                let mut k: usize = 0;
                let ghost start = *self;
                while k < PAGE_ROWS
                    invariant
                        k <= PAGE_ROWS,
                        start.wf(),
                        *self == (LogModal { scroll_offset: self.scroll_offset, ..start }),
                        self.scroll_offset == scrolled_down(start.scroll_offset as nat, k as nat, start.max_scroll()),
                    decreases PAGE_ROWS - k,
                {
                    assert(self.steps == start.steps && self.last_visible_height == start.last_visible_height);
                    assert(self.max_scroll() == start.max_scroll());
                    let ghost cur = self.scroll_offset as nat;
                    let ghost o = start.scroll_offset as nat;
                    let ghost mx = start.max_scroll();
                    proof {
                        lemma_rows_within_bound(start.steps@, start.steps@.len() as int);
                    }
                    self.scroll_down();
                    k = k + 1;
                }
                ModalAction::Nothing
            },
            KeyCode::Home => {
                self.scroll_offset = 0;
                self.auto_scroll = false;
                ModalAction::Nothing
            },
            KeyCode::End => {
                self.scroll_offset = self.max_scroll_offset();
                if self.is_streaming {
                    self.auto_scroll = true;
                }
                ModalAction::Nothing
            },
            _ => ModalAction::Nothing,
        }
    }

    /// Fits the view to `visible_height` rows before it is drawn: once the
    /// steps are known, the height is remembered, a pending scroll to the
    /// end is done, and the first row is kept within the rows.
    pub fn prepare_view(&mut self, visible_height: usize)
        requires
            old(self).wf(),
        ensures
            final(self).wf(),
            old(self).is_loading || old(self).steps@.len() == 0 ==> *final(self) == *old(self),
            !(old(self).is_loading || old(self).steps@.len() == 0) ==> {
                let m = LogModal { last_visible_height: visible_height, ..*old(self) };
                let start = if old(self).scroll_to_bottom_pending { m.max_scroll() } else { old(self).scroll_offset as nat };
                *final(self) == (LogModal {
                    last_visible_height: visible_height,
                    scroll_to_bottom_pending: false,
                    scroll_offset: (if start < m.max_scroll() { start } else { m.max_scroll() }) as usize,
                    ..*old(self)
                })
            },
    {
        if self.is_loading || self.steps.len() == 0 {
            return;
        }
        self.last_visible_height = visible_height;
        let max = self.max_scroll_offset();
        if self.scroll_to_bottom_pending {
            self.scroll_offset = max;
            self.scroll_to_bottom_pending = false;
        }
        if self.scroll_offset > max {
            self.scroll_offset = max;
        }
    }
}

/// Expanding and then collapsing a step (or the other way round) gives
/// back the same steps, with the same step selected.
pub proof fn law_toggle_twice_restores_steps(a: LogModal, b: LogModal, c: LogModal)
    requires
        a.toggled_to(b),
        b.toggled_to(c),
    ensures
        c.steps@ == a.steps@,
        c.selected_step == a.selected_step,
{
    if a.selected_step < a.steps@.len() {
        let i = a.selected_step as int;
        assert(c.steps@[i] == a.steps@[i]);
        assert(c.steps@ =~= a.steps@);
    }
}

/// Scrolling down one row and then up one row comes back to the same view,
/// when the view was not already at its last first row.
pub proof fn law_scroll_down_then_up(a: LogModal, b: LogModal, c: LogModal)
    requires
        a.wf(),
        a.scroll_offset < a.max_scroll(),
        a.scrolled_down_to(b),
        b.scrolled_up_to(c),
    ensures
        c == a,
{
    lemma_rows_within_bound(a.steps@, a.steps@.len() as int);
}

} // verus!
