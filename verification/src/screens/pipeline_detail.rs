//! Pipeline detail: the workflows of a pipeline on the left, the jobs of the
//! selected workflow on the right, status and duration filters, pagination
//! and copying of log line ranges.

use vstd::prelude::*;
use std::collections::HashMap;
use crate::api::models::{Job, Pipeline, Workflow};
use crate::keys::{KeyCode, KeyEvent};
use crate::preferences::PipelineDetailFilterPrefs;
use crate::screens::line_range::{extract_line_range, line_range_of, line_range_spec, parse_line_range};
use crate::text::{
    concat, decimal, join_lines, joined_lines, owned, pad_end, pad_start, padded_end, padded_start,
    str_eq, usize_to_string,
};
use crate::widgets::faceted_search::{Facet, FacetedSearchBar, strings_view};
use crate::widgets::line_range_modal::{LineRangeAction, LineRangeModal, suggested_range};
use crate::widgets::powerline::{NotificationLevel, PowerlineBar, PowerlineContent};
use crate::widgets::spinner::Spinner;

verus! {

broadcast use vstd::std_specs::hash::group_hash_axioms;

/// Which panel has the keyboard.
#[derive(Debug, Clone, Copy, PartialEq, Eq, Structural)]
pub enum PanelFocus {
    /// The workflow list.
    Workflows,
    /// The job list.
    Jobs,
    /// The filter buttons.
    Filters,
}

/// Lines of a log to put on the clipboard.
pub struct CopyRequest {
    /// The lines, joined with newlines.
    pub text: String,
    /// First line copied (from 1).
    pub start: usize,
    /// Last line of the requested range.
    pub end: usize,
    /// Number of lines copied.
    pub count: usize,
}

/// What the screen asks the application to do.
pub enum PipelineDetailAction {
    /// Nothing.
    Nothing,
    /// Open the log popup for a job.
    OpenJobLog(Job),
    /// Open the SSH popup for a job.
    OpenSsh(Job),
    /// Go back to the pipeline list.
    Back,
    /// Load the next page of jobs.
    LoadMoreJobs,
    /// Ask to rerun the workflow with this id.
    RerunWorkflow(String),
    /// Load the jobs of the workflow with this id.
    LoadJobs(String),
    /// Fetch the logs of this job so that lines can be copied.
    CopyLogs(u32),
    /// Put these lines on the clipboard and report back with `finish_copy`.
    CopyToClipboard(CopyRequest),
}

/// Options of the job status filter.
pub open spec fn status_filter_options() -> Seq<Seq<char>> {
    seq!["All"@, "success"@, "running"@, "failed"@, "pending"@, "blocked"@]
}

/// Options of the job duration filter.
pub open spec fn duration_filter_options() -> Seq<Seq<char>> {
    seq![
        "All durations"@,
        "Quick (< 1min)"@,
        "Short (1-5min)"@,
        "Medium (5-15min)"@,
        "Long (15-30min)"@,
        "Very Long (>30min)"@,
    ]
}

/// Whether a job status passes the status filter. Statuses outside the
/// known families always pass.
pub open spec fn status_matches(filter: Seq<char>, status: Seq<char>) -> bool {
    if filter == "All"@ {
        true
    } else if status == "success"@ || status == "passed"@ || status == "fixed"@ || status == "successful"@ {
        filter == "success"@
    } else if status == "running"@ || status == "in_progress"@ || status == "in-progress"@ {
        filter == "running"@
    } else if status == "failed"@ || status == "error"@ || status == "failure"@ {
        filter == "failed"@
    } else if status == "pending"@ || status == "queued"@ {
        filter == "pending"@
    } else if status == "blocked"@ || status == "waiting"@ {
        filter == "blocked"@
    } else {
        true
    }
}

/// Whether a job duration passes the duration filter. Jobs without a
/// duration pass only "All durations" (and unknown filters).
pub open spec fn duration_matches(filter: Seq<char>, duration: Option<u32>) -> bool {
    if filter == "All durations"@ {
        true
    } else if filter == "Quick (< 1min)"@ {
        duration matches Some(d) && d < 60
    } else if filter == "Short (1-5min)"@ {
        duration matches Some(d) && 60 <= d < 300
    } else if filter == "Medium (5-15min)"@ {
        duration matches Some(d) && 300 <= d < 900
    } else if filter == "Long (15-30min)"@ {
        duration matches Some(d) && 900 <= d < 1800
    } else if filter == "Very Long (>30min)"@ {
        duration matches Some(d) && d >= 1800
    } else {
        true
    }
}

/// Whether a job passes both filters.
pub open spec fn job_matches(j: Job, status_filter: Seq<char>, duration_filter: Seq<char>) -> bool {
    status_matches(status_filter, j.status@) && duration_matches(duration_filter, j.duration)
}

/// The jobs that pass both filters, in order.
pub open spec fn filter_jobs(jobs: Seq<Job>, status_filter: Seq<char>, duration_filter: Seq<char>) -> Seq<Job>
    decreases jobs.len(),
{
    if jobs.len() == 0 {
        seq![]
    } else {
        let rest = filter_jobs(jobs.drop_last(), status_filter, duration_filter);
        if job_matches(jobs.last(), status_filter, duration_filter) {
            rest.push(jobs.last())
        } else {
            rest
        }
    }
}

/// The duration filters by what they say: "Quick (< 1min)" keeps jobs of
/// under 60 seconds, "Short (1-5min)" 60 to under 300, "Medium (5-15min)"
/// 300 to under 900, "Long (15-30min)" 900 to under 1800 and
/// "Very Long (>30min)" 1800 or more; a job of known duration passes
/// exactly one of these five, a job without a duration none of them, and
/// "All durations" keeps every job.
pub proof fn law_duration_buckets(d: u32)
    ensures
        duration_matches("Quick (< 1min)"@, Some(d)) <==> d < 60,
        duration_matches("Short (1-5min)"@, Some(d)) <==> 60 <= d && d < 300,
        duration_matches("Medium (5-15min)"@, Some(d)) <==> 300 <= d && d < 900,
        duration_matches("Long (15-30min)"@, Some(d)) <==> 900 <= d && d < 1800,
        duration_matches("Very Long (>30min)"@, Some(d)) <==> d >= 1800,
        (if duration_matches("Quick (< 1min)"@, Some(d)) { 1int } else { 0int })
            + (if duration_matches("Short (1-5min)"@, Some(d)) { 1int } else { 0int })
            + (if duration_matches("Medium (5-15min)"@, Some(d)) { 1int } else { 0int })
            + (if duration_matches("Long (15-30min)"@, Some(d)) { 1int } else { 0int })
            + (if duration_matches("Very Long (>30min)"@, Some(d)) { 1int } else { 0int }) == 1,
        !duration_matches("Quick (< 1min)"@, None),
        !duration_matches("Short (1-5min)"@, None),
        !duration_matches("Medium (5-15min)"@, None),
        !duration_matches("Long (15-30min)"@, None),
        !duration_matches("Very Long (>30min)"@, None),
        duration_matches("All durations"@, Some(d)),
        duration_matches("All durations"@, None),
{
    reveal_strlit("All durations");
    reveal_strlit("Quick (< 1min)");
    reveal_strlit("Short (1-5min)");
    reveal_strlit("Medium (5-15min)");
    reveal_strlit("Long (15-30min)");
    reveal_strlit("Very Long (>30min)");
    let names = seq![
        "All durations"@,
        "Quick (< 1min)"@,
        "Short (1-5min)"@,
        "Medium (5-15min)"@,
        "Long (15-30min)"@,
        "Very Long (>30min)"@,
    ];
    assert forall|i: int, j: int| 0 <= i < j < 6 implies names[i] != names[j] by {
        assert(names[i][0] != names[j][0] || names[i][1] != names[j][1]);
    }
    assert(names[0] != names[1] && names[0] != names[2] && names[0] != names[3] && names[0] != names[4]
        && names[0] != names[5]);
    assert(names[1] != names[2] && names[1] != names[3] && names[1] != names[4] && names[1] != names[5]);
    assert(names[2] != names[3] && names[2] != names[4] && names[2] != names[5]);
    assert(names[3] != names[4] && names[3] != names[5]);
    assert(names[4] != names[5]);
}

/// Whether `s` is a known job status of the success family.
pub open spec fn in_success_family(s: Seq<char>) -> bool {
    s == "success"@ || s == "passed"@ || s == "fixed"@ || s == "successful"@
}

/// Whether `s` is a known job status of the running family.
pub open spec fn in_running_family(s: Seq<char>) -> bool {
    s == "running"@ || s == "in_progress"@ || s == "in-progress"@
}

/// Whether `s` is a known job status of the failure family.
pub open spec fn in_failure_family(s: Seq<char>) -> bool {
    s == "failed"@ || s == "error"@ || s == "failure"@
}

/// Whether `s` is a known job status of the pending family.
pub open spec fn in_pending_family(s: Seq<char>) -> bool {
    s == "pending"@ || s == "queued"@
}

/// Whether `s` is a known job status of the blocked family.
pub open spec fn in_blocked_family(s: Seq<char>) -> bool {
    s == "blocked"@ || s == "waiting"@
}

/// The status filter keeps, besides everything under "All", the jobs of
/// the chosen family and no other: "success" keeps success, passed, fixed
/// and successful; "running" keeps running, in_progress and in-progress;
/// "failed" keeps failed, error and failure; "pending" keeps pending and
/// queued; "blocked" keeps blocked and waiting. A status of none of these
/// families passes every filter.
pub proof fn law_status_filter_families(s: Seq<char>, f: Seq<char>)
    requires
        f == "success"@ || f == "running"@ || f == "failed"@ || f == "pending"@ || f == "blocked"@,
    ensures
        status_matches("All"@, s),
        in_success_family(s) ==> (status_matches(f, s) <==> f == "success"@),
        in_running_family(s) ==> (status_matches(f, s) <==> f == "running"@),
        in_failure_family(s) ==> (status_matches(f, s) <==> f == "failed"@),
        in_pending_family(s) ==> (status_matches(f, s) <==> f == "pending"@),
        in_blocked_family(s) ==> (status_matches(f, s) <==> f == "blocked"@),
        !in_success_family(s) && !in_running_family(s) && !in_failure_family(s) && !in_pending_family(s)
            && !in_blocked_family(s) ==> status_matches(f, s),
{
    reveal_strlit("All");
    reveal_strlit("success");
    reveal_strlit("passed");
    reveal_strlit("fixed");
    reveal_strlit("successful");
    reveal_strlit("running");
    reveal_strlit("in_progress");
    reveal_strlit("in-progress");
    reveal_strlit("failed");
    reveal_strlit("error");
    reveal_strlit("failure");
    reveal_strlit("pending");
    reveal_strlit("queued");
    reveal_strlit("blocked");
    reveal_strlit("waiting");
    assert(f != "All"@) by {
        assert(f[0] != 'A');
    }
    if in_running_family(s) {
        assert(!in_success_family(s)) by {
            assert(s[0] == 'r' || s[0] == 'i');
        }
    }
    if in_failure_family(s) {
        assert(!in_success_family(s)) by {
            assert(s[0] == 'e' || s[1] == 'a');
        }
        assert(!in_running_family(s)) by {
            assert(s[0] == 'f' || s[0] == 'e');
        }
    }
    if in_pending_family(s) {
        assert(!in_success_family(s)) by {
            assert(s[0] == 'q' || s[1] == 'e');
        }
        assert(!in_running_family(s)) by {
            assert(s[0] == 'p' || s[0] == 'q');
        }
        assert(!in_failure_family(s)) by {
            assert(s[0] == 'p' || s[0] == 'q');
        }
    }
    if in_blocked_family(s) {
        assert(!in_success_family(s)) by {
            assert(s[0] == 'b' || s[0] == 'w');
        }
        assert(!in_running_family(s)) by {
            assert(s[0] == 'b' || s[0] == 'w');
        }
        assert(!in_failure_family(s)) by {
            assert(s[0] == 'b' || s[0] == 'w');
        }
        assert(!in_pending_family(s)) by {
            assert(s[0] == 'b' || s[0] == 'w');
        }
    }
    assert(f == "success"@ ==> f[0] == 's');
    assert(f == "running"@ ==> f[0] == 'r');
    assert(f == "failed"@ ==> f[0] == 'f');
    assert(f == "pending"@ ==> f[0] == 'p');
    assert(f == "blocked"@ ==> f[0] == 'b');
}

/// The statuses counted as running.
pub open spec fn running_family() -> spec_fn(Job) -> bool {
    |j: Job| j.status@ == "running"@ || j.status@ == "in_progress"@ || j.status@ == "in-progress"@
}

/// The statuses counted as passed.
pub open spec fn passed_family() -> spec_fn(Job) -> bool {
    |j: Job| j.status@ == "success"@ || j.status@ == "passed"@ || j.status@ == "fixed"@ || j.status@ == "successful"@
}

/// The statuses counted as failed.
pub open spec fn failed_family() -> spec_fn(Job) -> bool {
    |j: Job| j.status@ == "failed"@ || j.status@ == "error"@ || j.status@ == "failure"@
}

/// The counts of the status summary are the numbers of jobs in each
/// family: running ("running", "in_progress", "in-progress"), passed
/// ("success", "passed", "fixed", "successful") and failed ("failed",
/// "error", "failure"). Adding a job with status "running" adds one to the
/// running count and leaves the others.
pub proof fn law_summary_counts(jobs: Seq<Job>, j: Job)
    ensures
        count_running(jobs) == jobs.filter(running_family()).len(),
        count_passed(jobs) == jobs.filter(passed_family()).len(),
        count_failed(jobs) == jobs.filter(failed_family()).len(),
        j.status@ == "running"@ ==> count_running(jobs.push(j)) == count_running(jobs) + 1
            && count_passed(jobs.push(j)) == count_passed(jobs)
            && count_failed(jobs.push(j)) == count_failed(jobs),
    decreases jobs.len(),
{
    reveal(Seq::filter);
    if jobs.len() > 0 {
        law_summary_counts(jobs.drop_last(), j);
    }
    let k = jobs.push(j);
    assert(k.drop_last() =~= jobs);
    assert(k.last() == j);
    if j.status@ == "running"@ {
        reveal_strlit("running");
        reveal_strlit("success");
        reveal_strlit("passed");
        reveal_strlit("fixed");
        reveal_strlit("successful");
        reveal_strlit("failed");
        reveal_strlit("error");
        reveal_strlit("failure");
        assert("running"@ != "success"@ && "running"@ != "passed"@ && "running"@ != "fixed"@
            && "running"@ != "successful"@) by {
            assert("running"@[0] != "success"@[0] && "running"@[0] != "passed"@[0] && "running"@[0] != "fixed"@[0]
                && "running"@[0] != "successful"@[0]);
        }
        assert("running"@ != "failed"@ && "running"@ != "error"@ && "running"@ != "failure"@) by {
            assert("running"@[0] != "failed"@[0] && "running"@[0] != "error"@[0] && "running"@[0] != "failure"@[0]);
        }
    }
}

/// The test a job must pass to be listed.
pub open spec fn job_test(status_filter: Seq<char>, duration_filter: Seq<char>) -> spec_fn(Job) -> bool {
    |j: Job| job_matches(j, status_filter, duration_filter)
}

/// The job filter keeps exactly the jobs that pass both filters, in their
/// order: it is the sequence filtered by that test. Every job listed
/// passes, every job that passes is listed, and no more are listed than
/// there were.
pub proof fn law_job_filter_keeps_matches(jobs: Seq<Job>, status_filter: Seq<char>, duration_filter: Seq<char>)
    ensures
        filter_jobs(jobs, status_filter, duration_filter) == jobs.filter(job_test(status_filter, duration_filter)),
        forall|i: int|
            0 <= i < filter_jobs(jobs, status_filter, duration_filter).len() ==> job_matches(
                #[trigger] filter_jobs(jobs, status_filter, duration_filter)[i],
                status_filter,
                duration_filter,
            ),
        forall|i: int|
            0 <= i < jobs.len() && job_matches(jobs[i], status_filter, duration_filter)
                ==> #[trigger] filter_jobs(jobs, status_filter, duration_filter).contains(jobs[i]),
        filter_jobs(jobs, status_filter, duration_filter).len() <= jobs.len(),
    decreases jobs.len(),
{
    broadcast use vstd::seq_lib::group_filter_ensures;
    reveal(Seq::filter);
    if jobs.len() > 0 {
        law_job_filter_keeps_matches(jobs.drop_last(), status_filter, duration_filter);
    }
    let f = job_test(status_filter, duration_filter);
    assert forall|i: int|
        0 <= i < jobs.filter(f).len() implies job_matches(#[trigger] jobs.filter(f)[i], status_filter, duration_filter) by {
        assert(f(jobs.filter(f)[i]));
    }
    assert forall|i: int|
        0 <= i < jobs.len() && job_matches(jobs[i], status_filter, duration_filter) implies #[trigger] jobs.filter(f).contains(jobs[i]) by {
        assert(f(jobs[i]));
    }
}

fn status_matches_exec(filter: &str, status: &str) -> (r: bool)
    ensures
        r == status_matches(filter@, status@),
{
    if str_eq(filter, "All") {
        true
    } else if str_eq(status, "success") || str_eq(status, "passed") || str_eq(status, "fixed") || str_eq(
        status,
        "successful",
    ) {
        str_eq(filter, "success")
    } else if str_eq(status, "running") || str_eq(status, "in_progress") || str_eq(status, "in-progress") {
        str_eq(filter, "running")
    } else if str_eq(status, "failed") || str_eq(status, "error") || str_eq(status, "failure") {
        str_eq(filter, "failed")
    } else if str_eq(status, "pending") || str_eq(status, "queued") {
        str_eq(filter, "pending")
    } else if str_eq(status, "blocked") || str_eq(status, "waiting") {
        str_eq(filter, "blocked")
    } else {
        true
    }
}

fn duration_matches_exec(filter: &str, duration: Option<u32>) -> (r: bool)
    ensures
        r == duration_matches(filter@, duration),
{
    if str_eq(filter, "All durations") {
        true
    } else if str_eq(filter, "Quick (< 1min)") {
        match duration {
            Some(d) => d < 60,
            None => false,
        }
    } else if str_eq(filter, "Short (1-5min)") {
        match duration {
            Some(d) => 60 <= d && d < 300,
            None => false,
        }
    } else if str_eq(filter, "Medium (5-15min)") {
        match duration {
            Some(d) => 300 <= d && d < 900,
            None => false,
        }
    } else if str_eq(filter, "Long (15-30min)") {
        match duration {
            Some(d) => 900 <= d && d < 1800,
            None => false,
        }
    } else if str_eq(filter, "Very Long (>30min)") {
        match duration {
            Some(d) => d >= 1800,
            None => false,
        }
    } else {
        true
    }
}

/// Number of jobs whose status is in the success family.
pub open spec fn count_passed(jobs: Seq<Job>) -> nat
    decreases jobs.len(),
{
    if jobs.len() == 0 {
        0
    } else {
        let s = jobs.last().status@;
        count_passed(jobs.drop_last()) + if s == "success"@ || s == "passed"@ || s == "fixed"@ || s == "successful"@ {
            1nat
        } else {
            0nat
        }
    }
}

/// Number of jobs whose status is in the failure family.
pub open spec fn count_failed(jobs: Seq<Job>) -> nat
    decreases jobs.len(),
{
    if jobs.len() == 0 {
        0
    } else {
        let s = jobs.last().status@;
        count_failed(jobs.drop_last()) + if s == "failed"@ || s == "error"@ || s == "failure"@ {
            1nat
        } else {
            0nat
        }
    }
}

/// Number of jobs whose status is in the running family.
pub open spec fn count_running(jobs: Seq<Job>) -> nat
    decreases jobs.len(),
{
    if jobs.len() == 0 {
        0
    } else {
        let s = jobs.last().status@;
        count_running(jobs.drop_last()) + if s == "running"@ || s == "in_progress"@ || s == "in-progress"@ {
            1nat
        } else {
            0nat
        }
    }
}

/// A count in the summary: right-aligned in two columns after its icon.
pub open spec fn summary_part(icon: Seq<char>, n: nat) -> Seq<char> {
    icon + " "@ + padded_start(decimal(n), 2)
}

/// The job status summary: "│ ✓  3  ●  1  ✗  2", leaving out zero counts,
/// and empty when all three are zero.
pub open spec fn job_summary_text(passed: nat, running: nat, failed: nat) -> Seq<char> {
    let a: Seq<Seq<char>> = if passed > 0 { seq![summary_part("✓"@, passed)] } else { seq![] };
    let b: Seq<Seq<char>> = if running > 0 { a.push(summary_part("●"@, running)) } else { a };
    let c: Seq<Seq<char>> = if failed > 0 { b.push(summary_part("✗"@, failed)) } else { b };
    if c.len() == 0 {
        seq![]
    } else {
        "│ "@ + crate::text::joined_by(c, "  "@)
    }
}

/// The pagination line below the job list.
pub open spec fn pagination_text(
    loaded: nat,
    shown: nat,
    filtered: bool,
    total: Option<usize>,
    more_pages: bool,
) -> Seq<char> {
    match total {
        Some(t) => if filtered {
            "(Showing "@ + decimal(shown) + " of "@ + decimal(t as nat) + " total jobs)"@
        } else {
            "(Showing "@ + decimal(loaded) + " of "@ + decimal(t as nat) + ")"@
        },
        None => if more_pages {
            if filtered {
                "(Showing "@ + decimal(shown) + " of "@ + decimal(loaded) + "+ total jobs)"@
            } else {
                "(Showing "@ + decimal(loaded) + " of "@ + decimal(loaded) + "+)"@
            }
        } else {
            if filtered {
                "(Showing "@ + decimal(shown) + " of "@ + decimal(loaded) + " total jobs)"@
            } else {
                "(All "@ + decimal(loaded) + " jobs loaded)"@
            }
        },
    }
}

/// The notification after lines were copied.
pub open spec fn copied_text(start: nat, end: nat, count: nat) -> Seq<char> {
    "Copied lines "@ + padded_start(decimal(start), 5) + "-"@ + padded_end(decimal(end), 5) + " ("@
        + padded_start(decimal(count), 4) + " lines)"@
}

/// Jobs shown ahead of the selection when prefetching logs.
pub const PREFETCH_AHEAD: usize = 3;

/// Jobs shown behind the selection when prefetching logs.
pub const PREFETCH_BEHIND: usize = 3;

/// Milliseconds a copy notice stays.
pub const SHORT_NOTICE_MS: u64 = 2000;

/// Milliseconds an error about the range or the clipboard stays.
pub const LONG_NOTICE_MS: u64 = 3000;

/// The pipeline detail screen.
pub struct PipelineDetailScreen {
    pub pipeline: Pipeline,
    pub workflows: Vec<Workflow>,
    /// Jobs of the selected workflow.
    pub jobs: Vec<Job>,
    pub selected_workflow_index: usize,
    /// Selected job, as an index into the filtered jobs.
    pub selected_job_index: Option<usize>,
    pub focus: PanelFocus,
    /// Status (facet 0) and duration (facet 1) filters.
    pub faceted_search: FacetedSearchBar,
    pub loading_workflows: bool,
    pub loading_jobs: bool,
    pub loading_more_jobs: bool,
    /// Token of the next page of jobs, when there is one.
    pub next_page_token: Option<String>,
    /// Number of jobs in all pages, once known.
    pub total_jobs_count: Option<usize>,
    /// Workflow waiting for rerun confirmation.
    pub confirm_workflow_id: Option<String>,
    pub spinner: Spinner,
    /// Fetched logs by job number.
    pub log_cache: HashMap<u32, Vec<String>>,
    /// Job whose logs should be fetched.
    pub pending_log_fetch: Option<u32>,
    /// Job numbers prefetched last time.
    pub previous_visible_jobs: Vec<u32>,
    pub line_range_modal: LineRangeModal,
    /// Job whose lines are to be copied once a range is entered.
    pub pending_copy_job: Option<u32>,
    pub powerline: PowerlineBar,
}

impl PipelineDetailScreen {
    /// The selected status filter option.
    pub open spec fn status_filter(self) -> Seq<char> {
        self.faceted_search.facets_view()[0].options_view()[self.faceted_search.facets_view()[0].selected() as int]
    }

    /// The selected duration filter option.
    pub open spec fn duration_filter(self) -> Seq<char> {
        self.faceted_search.facets_view()[1].options_view()[self.faceted_search.facets_view()[1].selected() as int]
    }

    /// The jobs that pass the filters.
    pub open spec fn filtered(self) -> Seq<Job> {
        filter_jobs(self.jobs@, self.status_filter(), self.duration_filter())
    }

    /// The selected job, if the selection points at a filtered job.
    pub open spec fn selected_job_spec(self) -> Option<Job> {
        match self.selected_job_index {
            Some(i) => if i < self.filtered().len() { Some(self.filtered()[i as int]) } else { None },
            None => None,
        }
    }

    /// Well-formed: two filters with valid selections and defaults, a valid
    /// range popup and spinner, and a selected workflow whenever there are
    /// workflows.
    pub open spec fn wf(self) -> bool {
        &&& self.faceted_search.wf()
        &&& self.faceted_search.defaults_in_range()
        &&& self.faceted_search.facets_view().len() == 2
        &&& self.line_range_modal.wf()
        &&& self.spinner.wf()
        &&& self.workflows@.len() > 0 ==> self.selected_workflow_index < self.workflows@.len()
    }

    /// Whether a key can be handled without running out of room.
    pub open spec fn accepts_key(self, key: KeyEvent) -> bool {
        &&& self.line_range_modal.visible_spec() ==> self.line_range_modal.accepts_key(key.code)
        &&& !self.line_range_modal.visible_spec() && self.focus == PanelFocus::Filters ==> self.faceted_search.accepts_key(key.code)
    }

    /// A screen for `pipeline` with no workflows or jobs yet, the workflow
    /// panel focused and both filters at "All".
    pub fn new(pipeline: Pipeline) -> (r: Self)
        ensures
            r.wf(),
            r.pipeline == pipeline,
            r.workflows@.len() == 0,
            r.jobs@.len() == 0,
            r.selected_workflow_index == 0,
            r.selected_job_index is None,
            r.focus == PanelFocus::Workflows,
            r.faceted_search.facets_view()[0].options_view() == status_filter_options(),
            r.faceted_search.facets_view()[1].options_view() == duration_filter_options(),
            r.faceted_search.selections() == seq![0nat, 0nat],
            r.faceted_search.facets_view()[0].default() == 0,
            r.faceted_search.facets_view()[1].default() == 0,
            !r.faceted_search.spec_is_filtered(),
            !r.faceted_search.open(),
            !r.loading_workflows && !r.loading_jobs && !r.loading_more_jobs,
            r.next_page_token is None,
            r.total_jobs_count is None,
            r.confirm_workflow_id is None,
            r.log_cache@ == Map::<u32, Vec<String>>::empty(),
            r.pending_log_fetch is None,
            r.previous_visible_jobs@.len() == 0,
            !r.line_range_modal.visible_spec(),
            r.pending_copy_job is None,
            r.powerline.content is Empty,
    {
        let status_options = vec![
            owned("All"),
            owned("success"),
            owned("running"),
            owned("failed"),
            owned("pending"),
            owned("blocked"),
        ];
        let duration_options = vec![
            owned("All durations"),
            owned("Quick (< 1min)"),
            owned("Short (1-5min)"),
            owned("Medium (5-15min)"),
            owned("Long (15-30min)"),
            owned("Very Long (>30min)"),
        ];
        assert(strings_view(status_options@) =~= status_filter_options());
        assert(strings_view(duration_options@) =~= duration_filter_options());
        let status_facet = Facet::new("●", status_options, 0);
        let duration_facet = Facet::new("⏱", duration_options, 0);
        let facets = vec![status_facet, duration_facet];
        let faceted_search = FacetedSearchBar::new(facets);
        let r = PipelineDetailScreen {
            pipeline,
            workflows: Vec::new(),
            jobs: Vec::new(),
            selected_workflow_index: 0,
            selected_job_index: None,
            focus: PanelFocus::Workflows,
            faceted_search,
            loading_workflows: false,
            loading_jobs: false,
            loading_more_jobs: false,
            next_page_token: None,
            total_jobs_count: None,
            confirm_workflow_id: None,
            spinner: Spinner::new("Loading..."),
            log_cache: HashMap::new(),
            pending_log_fetch: None,
            previous_visible_jobs: Vec::new(),
            line_range_modal: LineRangeModal::new(),
            pending_copy_job: None,
            powerline: PowerlineBar::new(),
        };
        assert(r.faceted_search.selections() =~= seq![0nat, 0nat]);
        assert forall|i: int| 0 <= i < r.faceted_search.facets_view().len() implies !(
        #[trigger] r.faceted_search.facets_view()[i]).spec_is_filtered() by {
            assert(r.faceted_search.facets_view()[i] == facets@[i]);
        }
        r
    }

    /// `p` records this screen's status and duration filter selections.
    pub open spec fn saved_as(self, p: PipelineDetailFilterPrefs) -> bool {
        &&& p.status_index == self.faceted_search.facets_view()[0].selected()
        &&& p.duration_index == self.faceted_search.facets_view()[1].selected()
    }

    /// This screen's filters are those of `before` with the selections of
    /// `p` applied; a selection that is not one of its filter's options is
    /// ignored.
    pub open spec fn filters_applied_from(self, before: Self, p: PipelineDetailFilterPrefs) -> bool {
        &&& self.faceted_search.facets_view()[0].selected() == if p.status_index
            < before.faceted_search.facets_view()[0].options_view().len() {
            p.status_index as nat
        } else {
            before.faceted_search.facets_view()[0].selected()
        }
        &&& self.faceted_search.facets_view()[1].selected() == if p.duration_index
            < before.faceted_search.facets_view()[1].options_view().len() {
            p.duration_index as nat
        } else {
            before.faceted_search.facets_view()[1].selected()
        }
        &&& self.faceted_search.facets_view()[0].options_view() == before.faceted_search.facets_view()[0].options_view()
        &&& self.faceted_search.facets_view()[1].options_view() == before.faceted_search.facets_view()[1].options_view()
    }

    /// The filter selections to save.
    pub fn get_filter_preferences(&self) -> (r: PipelineDetailFilterPrefs)
        requires
            self.wf(),
        ensures
            self.saved_as(r),
    {
        PipelineDetailFilterPrefs {
            status_index: self.faceted_search.get_facet_selection(0),
            duration_index: self.faceted_search.get_facet_selection(1),
        }
    }

    /// Applies saved filter selections; a saved selection that is not one
    /// of its filter's options is ignored.
    pub fn apply_filter_preferences(&mut self, prefs: &PipelineDetailFilterPrefs)
        requires
            old(self).wf(),
        ensures
            final(self).wf(),
            final(self).filters_applied_from(*old(self), *prefs),
            *final(self) == (PipelineDetailScreen { faceted_search: final(self).faceted_search, ..*old(self) }),
    {
        self.faceted_search.set_facet_selection(0, prefs.status_index);
        self.faceted_search.set_facet_selection(1, prefs.duration_index);
    }

    /// Replaces the workflows; when there are some, the first is selected.
    pub fn set_workflows(&mut self, workflows: Vec<Workflow>)
        requires
            old(self).wf(),
        ensures
            final(self).wf(),
            final(self).workflows == workflows,
            *final(self) == (PipelineDetailScreen {
                workflows: final(self).workflows,
                selected_workflow_index: if workflows@.len() > 0 { 0 } else { old(self).selected_workflow_index },
                ..*old(self)
            }),
    {
        self.workflows = workflows;
        if self.workflows.len() > 0 {
            self.selected_workflow_index = 0;
        }
    }

    /// Replaces the jobs with a first page; the first job is selected when
    /// there is one.
    pub fn set_jobs_with_pagination(&mut self, jobs: Vec<Job>, next_page_token: Option<String>, total_count: Option<usize>)
        requires
            old(self).wf(),
        ensures
            final(self).wf(),
            final(self).jobs == jobs,
            final(self).next_page_token == next_page_token,
            final(self).total_jobs_count == total_count,
            final(self).selected_job_index == if jobs@.len() > 0 { Some(0usize) } else { None },
            *final(self) == (PipelineDetailScreen {
                jobs: final(self).jobs,
                next_page_token: final(self).next_page_token,
                total_jobs_count: final(self).total_jobs_count,
                selected_job_index: final(self).selected_job_index,
                ..*old(self)
            }),
    {
        self.jobs = jobs;
        self.next_page_token = next_page_token;
        self.total_jobs_count = total_count;
        if self.jobs.len() > 0 {
            self.selected_job_index = Some(0);
        } else {
            self.selected_job_index = None;
        }
    }

    /// Replaces the jobs, with no further pages known.
    pub fn set_jobs(&mut self, jobs: Vec<Job>)
        requires
            old(self).wf(),
        ensures
            final(self).wf(),
            final(self).jobs == jobs,
            final(self).next_page_token is None,
            final(self).total_jobs_count is None,
            final(self).selected_job_index == if jobs@.len() > 0 { Some(0usize) } else { None },
            final(self).faceted_search == old(self).faceted_search,
            final(self).focus == old(self).focus,
    {
        self.set_jobs_with_pagination(jobs, None, None);
    }

    /// Adds a further page of jobs, keeping the selection; once there are no
    /// more pages the total is the number of jobs loaded.
    pub fn append_jobs(&mut self, jobs: Vec<Job>, next_page_token: Option<String>)
        requires
            old(self).wf(),
        ensures
            final(self).wf(),
            final(self).jobs@ == old(self).jobs@ + jobs@,
            final(self).next_page_token == next_page_token,
            final(self).total_jobs_count == if next_page_token is None {
                Some((old(self).jobs@.len() + jobs@.len()) as usize)
            } else {
                old(self).total_jobs_count
            },
            *final(self) == (PipelineDetailScreen {
                jobs: final(self).jobs,
                next_page_token: final(self).next_page_token,
                total_jobs_count: final(self).total_jobs_count,
                ..*old(self)
            }),
    {
        let mut more = jobs;
        self.jobs.append(&mut more);
        self.next_page_token = next_page_token;
        if self.next_page_token.is_none() {
            self.total_jobs_count = Some(self.jobs.len());
        }
    }

    /// Whether another page of jobs can be requested.
    pub fn can_load_more(&self) -> (r: bool)
        ensures
            r == (self.next_page_token is Some && !self.loading_more_jobs),
    {
        self.next_page_token.is_some() && !self.loading_more_jobs
    }

    /// Selects workflow `index` and clears the jobs, which the application
    /// then loads; nothing happens when there is no such workflow.
    pub fn select_workflow(&mut self, index: usize)
        requires
            old(self).wf(),
        ensures
            final(self).wf(),
            index < old(self).workflows@.len() ==> {
                &&& final(self).jobs@.len() == 0
                &&& *final(self) == (PipelineDetailScreen {
                    selected_workflow_index: index,
                    jobs: final(self).jobs,
                    selected_job_index: None,
                    ..*old(self)
                })
            },
            index >= old(self).workflows@.len() ==> *final(self) == *old(self),
    {
        if index >= self.workflows.len() {
            return;
        }
        self.selected_workflow_index = index;
        self.jobs.clear();
        self.selected_job_index = None;
    }

    /// The selected status filter option.
    fn status_filter_value(&self) -> (r: &str)
        requires
            self.wf(),
        ensures
            r@ == self.status_filter(),
    {
        match self.faceted_search.get_filter_value(0) {
            Some(v) => v,
            None => "All",
        }
    }

    /// The selected duration filter option.
    fn duration_filter_value(&self) -> (r: &str)
        requires
            self.wf(),
        ensures
            r@ == self.duration_filter(),
    {
        match self.faceted_search.get_filter_value(1) {
            Some(v) => v,
            None => "All durations",
        }
    }

    /// The jobs that pass the status and duration filters, in order.
    pub fn get_filtered_jobs(&self) -> (r: Vec<Job>)
        requires
            self.wf(),
        ensures
            r@ == self.filtered(),
    {
        let sf = self.status_filter_value();
        let df = self.duration_filter_value();
        let mut r: Vec<Job> = Vec::new();
        let mut i: usize = 0;
        while i < self.jobs.len()
            invariant
                i <= self.jobs@.len(),
                sf@ == self.status_filter(),
                df@ == self.duration_filter(),
                r@ == filter_jobs(self.jobs@.take(i as int), sf@, df@),
            decreases self.jobs@.len() - i,
        {
            assert(self.jobs@.take(i + 1).drop_last() =~= self.jobs@.take(i as int));
            let job = &self.jobs[i];
            if status_matches_exec(sf, job.status.as_str()) && duration_matches_exec(df, job.duration) {
                r.push(job.clone());
            }
            i = i + 1;
        }
        assert(self.jobs@.take(i as int) =~= self.jobs@);
        r
    }

    /// Number of jobs that pass the filters.
    fn filtered_count(&self) -> (r: usize)
        requires
            self.wf(),
        ensures
            r == self.filtered().len(),
    {
        self.get_filtered_jobs().len()
    }

    /// The selected job, if the selection points at a filtered job.
    pub fn get_selected_job(&self) -> (r: Option<Job>)
        requires
            self.wf(),
        ensures
            r == self.selected_job_spec(),
    {
        match self.selected_job_index {
            Some(idx) => {
                let filtered = self.get_filtered_jobs();
                if idx < filtered.len() {
                    Some(filtered[idx].clone())
                } else {
                    None
                }
            },
            None => None,
        }
    }

    /// The pagination line shown under the job list.
    pub fn get_pagination_info(&self) -> (r: String)
        requires
            self.wf(),
        ensures
            r@ == pagination_text(
                self.jobs@.len(),
                self.filtered().len(),
                self.faceted_search.spec_is_filtered(),
                self.total_jobs_count,
                self.next_page_token is Some,
            ),
    {
        let current = usize_to_string(self.jobs.len());
        let shown = usize_to_string(self.filtered_count());
        let has_filter = self.faceted_search.is_filtered();
        match self.total_jobs_count {
            Some(total) => {
                let t = usize_to_string(total);
                if has_filter {
                    let a = concat("(Showing ", shown.as_str());
                    let b = concat(a.as_str(), " of ");
                    let c = concat(b.as_str(), t.as_str());
                    concat(c.as_str(), " total jobs)")
                } else {
                    let a = concat("(Showing ", current.as_str());
                    let b = concat(a.as_str(), " of ");
                    let c = concat(b.as_str(), t.as_str());
                    concat(c.as_str(), ")")
                }
            },
            None => {
                if self.next_page_token.is_some() {
                    if has_filter {
                        let a = concat("(Showing ", shown.as_str());
                        let b = concat(a.as_str(), " of ");
                        let c = concat(b.as_str(), current.as_str());
                        concat(c.as_str(), "+ total jobs)")
                    } else {
                        let a = concat("(Showing ", current.as_str());
                        let b = concat(a.as_str(), " of ");
                        let c = concat(b.as_str(), current.as_str());
                        concat(c.as_str(), "+)")
                    }
                } else {
                    if has_filter {
                        let a = concat("(Showing ", shown.as_str());
                        let b = concat(a.as_str(), " of ");
                        let c = concat(b.as_str(), current.as_str());
                        concat(c.as_str(), " total jobs)")
                    } else {
                        let a = concat("(All ", current.as_str());
                        concat(a.as_str(), " jobs loaded)")
                    }
                }
            },
        }
    }

    /// The status summary of all loaded jobs.
    pub fn calculate_status_summary(&self) -> (r: String)
        ensures
            r@ == job_summary_text(count_passed(self.jobs@), count_running(self.jobs@), count_failed(self.jobs@)),
    {
        let mut passed: usize = 0;
        let mut failed: usize = 0;
        let mut running: usize = 0;
        let mut i: usize = 0;
        while i < self.jobs.len()
            invariant
                i <= self.jobs@.len(),
                passed == count_passed(self.jobs@.take(i as int)),
                failed == count_failed(self.jobs@.take(i as int)),
                running == count_running(self.jobs@.take(i as int)),
                passed <= i && failed <= i && running <= i,
            decreases self.jobs@.len() - i,
        {
            assert(self.jobs@.take(i + 1).drop_last() =~= self.jobs@.take(i as int));
            let s = self.jobs[i].status.as_str();
            if str_eq(s, "success") || str_eq(s, "passed") || str_eq(s, "fixed") || str_eq(s, "successful") {
                passed = passed + 1;
            }
            if str_eq(s, "failed") || str_eq(s, "error") || str_eq(s, "failure") {
                failed = failed + 1;
            }
            if str_eq(s, "running") || str_eq(s, "in_progress") || str_eq(s, "in-progress") {
                running = running + 1;
            }
            i = i + 1;
        }
        assert(self.jobs@.take(i as int) =~= self.jobs@);
        proof {
            reveal_strlit("✓ ");
            reveal_strlit("● ");
            reveal_strlit("✗ ");
            reveal_strlit("✓");
            reveal_strlit("●");
            reveal_strlit("✗");
            reveal_strlit(" ");
        }
        let ghost a: Seq<Seq<char>> = if passed > 0 { seq![summary_part("✓"@, passed as nat)] } else { seq![] };
        let ghost b: Seq<Seq<char>> = if running > 0 { a.push(summary_part("●"@, running as nat)) } else { a };
        let ghost c: Seq<Seq<char>> = if failed > 0 { b.push(summary_part("✗"@, failed as nat)) } else { b };
        let mut parts: Vec<String> = Vec::new();
        if passed > 0 {
            let n = pad_start(usize_to_string(passed).as_str(), 2);
            parts.push(concat("✓ ", n.as_str()));
            assert(parts@[0]@ =~= summary_part("✓"@, passed as nat));
        }
        assert(parts@.map_values(|l: String| l@) =~= a);
        if running > 0 {
            let n = pad_start(usize_to_string(running).as_str(), 2);
            parts.push(concat("● ", n.as_str()));
            assert(parts@.last()@ =~= summary_part("●"@, running as nat));
        }
        assert(parts@.map_values(|l: String| l@) =~= b);
        if failed > 0 {
            let n = pad_start(usize_to_string(failed).as_str(), 2);
            parts.push(concat("✗ ", n.as_str()));
            assert(parts@.last()@ =~= summary_part("✗"@, failed as nat));
        }
        assert(parts@.map_values(|l: String| l@) =~= c);
        if parts.len() == 0 {
            String::new()
        } else {
            let joined = crate::text::join_with(parts.as_slice(), "  ");
            concat("│ ", joined.as_str())
        }
    }
}


/// The selection after moving down a list of `n` items: the next item,
/// wrapping from the last to the first; the first when nothing is selected.
pub open spec fn next_index(sel: Option<usize>, n: nat) -> usize {
    match sel {
        Some(i) => if i + 1 >= n { 0 } else { (i + 1) as usize },
        None => 0,
    }
}

/// The selection after moving up a list of `n` items: the previous item,
/// wrapping from the first to the last; the first when nothing is selected.
pub open spec fn previous_index(sel: Option<usize>, n: nat) -> usize {
    match sel {
        Some(i) => if i == 0 { (n - 1) as usize } else { (i - 1) as usize },
        None => 0,
    }
}

/// Moving down and then up in a list, or up and then down, comes back to
/// the item that was selected.
pub proof fn law_next_then_previous(i: usize, n: nat)
    requires
        i < n,
        n <= usize::MAX,
    ensures
        previous_index(Some(next_index(Some(i), n)), n) == i,
        next_index(Some(previous_index(Some(i), n)), n) == i,
{
}

/// The copy request an action carries, if any.
pub open spec fn request_of(a: PipelineDetailAction) -> Option<CopyRequest> {
    match a {
        PipelineDetailAction::CopyToClipboard(q) => Some(q),
        _ => None,
    }
}

/// The powerline shows `message` at `level` for `ms` milliseconds.
pub open spec fn notifies(p: PowerlineBar, message: Seq<char>, level: NotificationLevel, ms: u64) -> bool {
    p.content matches PowerlineContent::Notification { message: m, level: l, duration_ms: d, .. } && m@ == message
        && l == level && d == ms
}

impl PipelineDetailScreen {
    /// `n` is this screen after moving down the workflow list.
    pub open spec fn next_workflow_step(self, n: Self) -> bool {
        if self.workflows@.len() == 0 {
            n == self
        } else {
            &&& n.jobs@.len() == 0
            &&& n == (PipelineDetailScreen {
                selected_workflow_index: next_index(Some(self.selected_workflow_index), self.workflows@.len()),
                jobs: n.jobs,
                selected_job_index: None,
                ..self
            })
        }
    }

    /// `n` is this screen after moving up the workflow list.
    pub open spec fn previous_workflow_step(self, n: Self) -> bool {
        if self.workflows@.len() == 0 {
            n == self
        } else {
            &&& n.jobs@.len() == 0
            &&& n == (PipelineDetailScreen {
                selected_workflow_index: previous_index(Some(self.selected_workflow_index), self.workflows@.len()),
                jobs: n.jobs,
                selected_job_index: None,
                ..self
            })
        }
    }

    /// `n` is this screen after moving down the filtered job list.
    pub open spec fn next_job_step(self, n: Self) -> bool {
        if self.filtered().len() == 0 {
            n == self
        } else {
            n == (PipelineDetailScreen {
                selected_job_index: Some(next_index(self.selected_job_index, self.filtered().len())),
                ..self
            })
        }
    }

    /// `n` is this screen after moving up the filtered job list.
    pub open spec fn previous_job_step(self, n: Self) -> bool {
        if self.filtered().len() == 0 {
            n == self
        } else {
            n == (PipelineDetailScreen {
                selected_job_index: Some(previous_index(self.selected_job_index, self.filtered().len())),
                ..self
            })
        }
    }

    /// `n` is this screen after `key` went to the filter bar: Esc and 'f'
    /// close an open dropdown (Esc) or leave the bar; any other key goes
    /// to the bar, and when it changed something the first filtered job is
    /// selected.
    pub open spec fn filter_key_step(self, n: Self, key: KeyCode) -> bool {
        if key == KeyCode::Esc || key == KeyCode::Char('f') {
            if self.faceted_search.open() {
                &&& self.faceted_search.key_step(n.faceted_search, key)
                &&& n == (PipelineDetailScreen { faceted_search: n.faceted_search, ..self })
            } else {
                n == (PipelineDetailScreen { focus: PanelFocus::Jobs, ..self })
            }
        } else {
            &&& self.faceted_search.key_step(n.faceted_search, key)
            &&& n == (PipelineDetailScreen {
                faceted_search: n.faceted_search,
                selected_job_index: if self.faceted_search.key_handled(key) {
                    if n.filtered().len() > 0 { Some(0usize) } else { None }
                } else {
                    self.selected_job_index
                },
                ..self
            })
        }
    }

    /// `n` and `r` follow a request to copy the lines `range` of the logs of
    /// job `job`: nothing happens when the logs are not fetched; a range
    /// that does not parse, or selects no line, is reported on the
    /// powerline; otherwise the lines are handed out for the clipboard.
    pub open spec fn copy_range_step(self, n: Self, job: u32, range: Seq<char>, r: Option<CopyRequest>) -> bool {
        if !self.log_cache@.contains_key(job) {
            r is None && n == self
        } else {
            let logs = self.log_cache@[job]@;
            &&& n == (PipelineDetailScreen { powerline: n.powerline, ..self })
            &&& match line_range_spec(range, logs.len()) {
                Ok((a, b)) => {
                    let lines = line_range_of(logs, a, b);
                    if lines.len() == 0 {
                        r is None && notifies(n.powerline, "No lines to copy"@, NotificationLevel::Error, SHORT_NOTICE_MS)
                    } else {
                        &&& r matches Some(q) && q.text@ == joined_lines(strings_view(lines))
                            && q.start == a && q.end == b && q.count == lines.len()
                        &&& n.powerline == self.powerline
                    }
                },
                Err(e) => r is None && notifies(
                    n.powerline,
                    "Invalid range: "@ + e,
                    NotificationLevel::Error,
                    LONG_NOTICE_MS,
                ),
            }
        }
    }

    /// `n` and `r` follow 'c' on the job list: with logs of the selected job
    /// at hand the range popup opens; otherwise they are asked for and the
    /// popup opens when they come.
    pub open spec fn start_copy_step(self, n: Self, r: PipelineDetailAction) -> bool {
        match self.selected_job_spec() {
            None => r is Nothing && n == self,
            Some(job) => {
                let jn = job.job_number;
                if self.log_cache@.contains_key(jn) {
                    &&& r is Nothing
                    &&& n.line_range_modal.visible_spec()
                    &&& n.line_range_modal.total() == self.log_cache@[jn]@.len()
                    &&& n.line_range_modal.input_spec().value_view() == suggested_range(self.log_cache@[jn]@.len())
                    &&& n == (PipelineDetailScreen {
                        line_range_modal: n.line_range_modal,
                        pending_copy_job: Some(jn),
                        ..self
                    })
                } else {
                    &&& r == PipelineDetailAction::CopyLogs(jn)
                    &&& n.powerline.content matches PowerlineContent::Loading { message } && message@
                        == "Loading logs..."@
                    &&& n == (PipelineDetailScreen {
                        powerline: n.powerline,
                        pending_log_fetch: Some(jn),
                        pending_copy_job: Some(jn),
                        ..self
                    })
                }
            },
        }
    }
}


impl PipelineDetailScreen {
    /// Moves the workflow selection down, wrapping to the first, and clears
    /// the jobs; nothing happens when there are no workflows.
    pub fn select_next_workflow(&mut self)
        requires
            old(self).wf(),
        ensures
            final(self).wf(),
            old(self).next_workflow_step(*final(self)),
    {
        if self.workflows.len() == 0 {
            return;
        }
        let next = if self.selected_workflow_index >= self.workflows.len() - 1 {
            0
        } else {
            self.selected_workflow_index + 1
        };
        self.select_workflow(next);
    }

    /// Moves the workflow selection up, wrapping to the last, and clears
    /// the jobs; nothing happens when there are no workflows.
    pub fn select_previous_workflow(&mut self)
        requires
            old(self).wf(),
        ensures
            final(self).wf(),
            old(self).previous_workflow_step(*final(self)),
    {
        if self.workflows.len() == 0 {
            return;
        }
        let prev = if self.selected_workflow_index == 0 {
            self.workflows.len() - 1
        } else {
            self.selected_workflow_index - 1
        };
        self.select_workflow(prev);
    }

    /// Moves the job selection down the filtered jobs, wrapping to the
    /// first; nothing happens when no job passes the filters.
    pub fn select_next_job(&mut self)
        requires
            old(self).wf(),
        ensures
            final(self).wf(),
            old(self).next_job_step(*final(self)),
    {
        let n = self.filtered_count();
        if n == 0 {
            return;
        }
        let next = match self.selected_job_index {
            Some(idx) => if idx >= n - 1 {
                0
            } else {
                idx + 1
            },
            None => 0,
        };
        self.selected_job_index = Some(next);
    }

    /// Moves the job selection up the filtered jobs, wrapping to the last;
    /// nothing happens when no job passes the filters.
    pub fn select_previous_job(&mut self)
        requires
            old(self).wf(),
        ensures
            final(self).wf(),
            old(self).previous_job_step(*final(self)),
    {
        let n = self.filtered_count();
        if n == 0 {
            return;
        }
        let prev = match self.selected_job_index {
            Some(idx) => if idx == 0 {
                n - 1
            } else {
                idx - 1
            },
            None => 0,
        };
        self.selected_job_index = Some(prev);
    }

    /// Handles a key while the filter bar has the keyboard.
    fn handle_filter_input(&mut self, key: KeyEvent) -> (r: PipelineDetailAction)
        requires
            old(self).wf(),
            old(self).faceted_search.accepts_key(key.code),
        ensures
            final(self).wf(),
            r is Nothing,
            old(self).filter_key_step(*final(self), key.code),
    {
        if key.code == KeyCode::Esc || key.code == KeyCode::Char('f') {
            if self.faceted_search.is_active() {
                self.faceted_search.handle_key(key.code);
            } else {
                self.focus = PanelFocus::Jobs;
            }
            PipelineDetailAction::Nothing
        } else {
            let handled = self.faceted_search.handle_key(key.code);
            if handled {
                if self.filtered_count() > 0 {
                    self.selected_job_index = Some(0);
                } else {
                    self.selected_job_index = None;
                }
            }
            PipelineDetailAction::Nothing
        }
    }

    /// Stores the fetched logs of a job; when they were asked for to copy
    /// lines, the range popup opens.
    pub fn set_logs_for_job(&mut self, job_number: u32, logs: Vec<String>)
        requires
            old(self).wf(),
        ensures
            final(self).wf(),
            final(self).log_cache@ == old(self).log_cache@.insert(job_number, logs),
            old(self).pending_copy_job == Some(job_number) ==> {
                &&& final(self).line_range_modal.visible_spec()
                &&& final(self).line_range_modal.total() == logs@.len()
                &&& final(self).line_range_modal.input_spec().value_view() == suggested_range(logs@.len())
            },
            old(self).pending_copy_job != Some(job_number) ==> final(self).line_range_modal
                == old(self).line_range_modal,
            *final(self) == (PipelineDetailScreen {
                log_cache: final(self).log_cache,
                pending_log_fetch: None,
                line_range_modal: final(self).line_range_modal,
                ..*old(self)
            }),
    {
        let n = logs.len();
        self.log_cache.insert(job_number, logs);
        self.pending_log_fetch = None;
        let waiting = match self.pending_copy_job {
            Some(j) => j == job_number,
            None => false,
        };
        if waiting {
            self.line_range_modal.show(n);
        }
    }

    /// Clears the powerline notification once its time is up.
    pub fn tick_powerline(&mut self)
        ensures
            exists|elapsed_ms: u64, cleared: bool| #[trigger] old(self).powerline.ticked_to(
                final(self).powerline,
                elapsed_ms,
                cleared,
            ),
            *final(self) == (PipelineDetailScreen { powerline: final(self).powerline, ..*old(self) }),
    {
        self.powerline.tick();
    }

    /// Turns a confirmed range of the logs of job `job_number` into lines
    /// to copy, or reports why there are none.
    fn handle_copy_logs_range(&mut self, job_number: u32, range_str: &str) -> (r: Option<CopyRequest>)
        requires
            old(self).wf(),
        ensures
            final(self).wf(),
            old(self).copy_range_step(*final(self), job_number, range_str@, r),
    {
        let (total, parsed) = match self.log_cache.get(&job_number) {
            Some(logs) => (logs.len(), parse_line_range(range_str, logs.len())),
            None => return None,
        };
        match parsed {
            Ok((start, end)) => {
                let lines = match self.log_cache.get(&job_number) {
                    Some(logs) => extract_line_range(logs.as_slice(), start, end),
                    None => return None,
                };
                if lines.len() == 0 {
                    self.powerline.set_notification(owned("No lines to copy"), NotificationLevel::Error, SHORT_NOTICE_MS);
                    return None;
                }
                let text = join_lines(lines.as_slice());
                Some(CopyRequest { text, start, end, count: lines.len() })
            },
            Err(err) => {
                let message = concat("Invalid range: ", err.as_str());
                self.powerline.set_notification(message, NotificationLevel::Error, LONG_NOTICE_MS);
                None
            },
        }
    }

    /// Reports on the powerline how copying `request` to the clipboard went.
    pub fn finish_copy(&mut self, request: &CopyRequest, outcome: Result<(), String>)
        ensures
            match outcome {
                Ok(_) => notifies(
                    final(self).powerline,
                    copied_text(request.start as nat, request.end as nat, request.count as nat),
                    NotificationLevel::Success,
                    SHORT_NOTICE_MS,
                ),
                Err(e) => notifies(final(self).powerline, e@, NotificationLevel::Error, LONG_NOTICE_MS),
            },
            *final(self) == (PipelineDetailScreen { powerline: final(self).powerline, ..*old(self) }),
    {
        match outcome {
            Ok(_) => {
                let a = concat("Copied lines ", pad_start(usize_to_string(request.start).as_str(), 5).as_str());
                let b = concat(a.as_str(), "-");
                let c = concat(b.as_str(), pad_end(usize_to_string(request.end).as_str(), 5).as_str());
                let d = concat(c.as_str(), " (");
                let e = concat(d.as_str(), pad_start(usize_to_string(request.count).as_str(), 4).as_str());
                let message = concat(e.as_str(), " lines)");
                self.powerline.set_notification(message, NotificationLevel::Success, SHORT_NOTICE_MS);
            },
            Err(e) => {
                self.powerline.set_notification(e, NotificationLevel::Error, LONG_NOTICE_MS);
            },
        }
    }

    /// 'c' on the job list: opens the range popup for the selected job, or
    /// asks for its logs first.
    fn start_copy(&mut self) -> (r: PipelineDetailAction)
        requires
            old(self).wf(),
        ensures
            final(self).wf(),
            old(self).start_copy_step(*final(self), r),
    {
        let job_number = match self.get_selected_job() {
            Some(job) => job.job_number,
            None => return PipelineDetailAction::Nothing,
        };
        let cached = match self.log_cache.get(&job_number) {
            Some(logs) => Some(logs.len()),
            None => None,
        };
        match cached {
            Some(n) => {
                self.line_range_modal.show(n);
                self.pending_copy_job = Some(job_number);
                PipelineDetailAction::Nothing
            },
            None => {
                self.powerline.set_loading(owned("Loading logs..."));
                self.pending_log_fetch = Some(job_number);
                self.pending_copy_job = Some(job_number);
                PipelineDetailAction::CopyLogs(job_number)
            },
        }
    }
}


impl PipelineDetailScreen {
    /// `n` and `r` follow `key` while the range popup is open: Esc closes it
    /// and forgets the pending copy, Enter closes it and copies the typed
    /// range of the pending job, any other key edits the range.
    pub open spec fn popup_key_step(self, n: Self, key: KeyEvent, r: PipelineDetailAction) -> bool {
        let closed = PipelineDetailScreen { line_range_modal: n.line_range_modal, pending_copy_job: None, ..self };
        let typed = self.line_range_modal.input_spec().value_view();
        match key.code {
            KeyCode::Esc => {
                &&& r is Nothing
                &&& !n.line_range_modal.visible_spec()
                &&& n == closed
            },
            KeyCode::Enter => {
                &&& !n.line_range_modal.visible_spec()
                &&& match self.pending_copy_job {
                    Some(job) => {
                        &&& (r is Nothing || r is CopyToClipboard)
                        &&& closed.copy_range_step(n, job, typed, request_of(r))
                    },
                    None => r is Nothing && n == closed,
                }
            },
            _ => {
                &&& r is Nothing
                &&& n.line_range_modal.visible_spec()
                &&& n == (PipelineDetailScreen { line_range_modal: n.line_range_modal, ..self })
            },
        }
    }

    /// `n` and `r` follow `key` on the workflow or job list.
    pub open spec fn list_key_step(self, n: Self, key: KeyEvent, r: PipelineDetailAction) -> bool {
        let on_jobs = self.focus == PanelFocus::Jobs;
        let on_workflows = self.focus == PanelFocus::Workflows;
        match key.code {
            KeyCode::Tab => r is Nothing && n == (PipelineDetailScreen {
                focus: if on_workflows { PanelFocus::Jobs } else { PanelFocus::Workflows },
                ..self
            }),
            KeyCode::Up => if on_workflows {
                &&& self.previous_workflow_step(n)
                &&& if self.workflows@.len() > 0 {
                    r == PipelineDetailAction::LoadJobs(n.workflows@[n.selected_workflow_index as int].id)
                } else {
                    r is Nothing
                }
            } else {
                r is Nothing && self.previous_job_step(n)
            },
            KeyCode::Down => if on_workflows {
                &&& self.next_workflow_step(n)
                &&& if self.workflows@.len() > 0 {
                    r == PipelineDetailAction::LoadJobs(n.workflows@[n.selected_workflow_index as int].id)
                } else {
                    r is Nothing
                }
            } else {
                r is Nothing && self.next_job_step(n)
            },
            KeyCode::Enter => n == self && if on_jobs && self.selected_job_spec() is Some {
                r == PipelineDetailAction::OpenJobLog(self.selected_job_spec()->0)
            } else {
                r is Nothing
            },
            KeyCode::Char('f') => r is Nothing && n == (PipelineDetailScreen { focus: PanelFocus::Filters, ..self }),
            KeyCode::Char('l') => n == self && if on_jobs && self.next_page_token is Some && !self.loading_more_jobs {
                r is LoadMoreJobs
            } else {
                r is Nothing
            },
            KeyCode::Char('R') => n == self && if on_workflows && self.workflows@.len() > 0 {
                r == PipelineDetailAction::RerunWorkflow(self.workflows@[self.selected_workflow_index as int].id)
            } else {
                r is Nothing
            },
            KeyCode::Char('s') => n == self && if on_jobs && self.selected_job_spec() is Some {
                r == PipelineDetailAction::OpenSsh(self.selected_job_spec()->0)
            } else {
                r is Nothing
            },
            KeyCode::Char('c') => if on_jobs {
                self.start_copy_step(n, r)
            } else {
                r is Nothing && n == self
            },
            KeyCode::Esc => r is Back && n == self,
            _ => r is Nothing && n == self,
        }
    }

    /// `n` and `r` follow `key`: the range popup takes it while open, then
    /// the filter bar while it has the keyboard, then the lists.
    pub open spec fn key_outcome(self, n: Self, key: KeyEvent, r: PipelineDetailAction) -> bool {
        &&& self.line_range_modal.visible_spec() ==> self.popup_key_step(n, key, r)
        &&& !self.line_range_modal.visible_spec() && self.focus == PanelFocus::Filters ==> {
            &&& r is Nothing
            &&& self.filter_key_step(n, key.code)
        }
        &&& !self.line_range_modal.visible_spec() && self.focus != PanelFocus::Filters ==> self.list_key_step(n, key, r)
    }

    /// Handles a key: the range popup takes it while open, then the filter
    /// bar while it has the keyboard, then the workflow and job lists.
    pub fn handle_input(&mut self, key: KeyEvent) -> (r: PipelineDetailAction)
        requires
            old(self).wf(),
            old(self).accepts_key(key),
        ensures
            final(self).wf(),
            old(self).key_outcome(*final(self), key, r),
    {
        if self.line_range_modal.is_visible() {
            let action = self.line_range_modal.handle_input(key);
            match action {
                LineRangeAction::Confirm(range_str) => {
                    let pending = self.pending_copy_job;
                    self.pending_copy_job = None;
                    match pending {
                        Some(job_number) => {
                            match self.handle_copy_logs_range(job_number, range_str.as_str()) {
                                Some(request) => return PipelineDetailAction::CopyToClipboard(request),
                                None => return PipelineDetailAction::Nothing,
                            }
                        },
                        None => return PipelineDetailAction::Nothing,
                    }
                },
                LineRangeAction::Cancel => {
                    self.pending_copy_job = None;
                    return PipelineDetailAction::Nothing;
                },
                LineRangeAction::Nothing => return PipelineDetailAction::Nothing,
            }
        }
        if self.focus == PanelFocus::Filters {
            return self.handle_filter_input(key);
        }
        match key.code {
            KeyCode::Tab => {
                self.focus = match self.focus {
                    PanelFocus::Workflows => PanelFocus::Jobs,
                    PanelFocus::Jobs => PanelFocus::Workflows,
                    PanelFocus::Filters => PanelFocus::Jobs,
                };
                PipelineDetailAction::Nothing
            },
            KeyCode::Up => {
                if self.focus == PanelFocus::Workflows {
                    self.select_previous_workflow();
                    if self.workflows.len() > 0 {
                        let id = self.workflows[self.selected_workflow_index].id.clone();
                        return PipelineDetailAction::LoadJobs(id);
                    }
                } else {
                    self.select_previous_job();
                }
                PipelineDetailAction::Nothing
            },
            KeyCode::Down => {
                if self.focus == PanelFocus::Workflows {
                    self.select_next_workflow();
                    if self.workflows.len() > 0 {
                        let id = self.workflows[self.selected_workflow_index].id.clone();
                        return PipelineDetailAction::LoadJobs(id);
                    }
                } else {
                    self.select_next_job();
                }
                PipelineDetailAction::Nothing
            },
            KeyCode::Enter => {
                if self.focus == PanelFocus::Jobs {
                    if let Some(job) = self.get_selected_job() {
                        return PipelineDetailAction::OpenJobLog(job);
                    }
                }
                PipelineDetailAction::Nothing
            },
            KeyCode::Char('f') => {
                self.focus = PanelFocus::Filters;
                PipelineDetailAction::Nothing
            },
            KeyCode::Char('l') => {
                if self.focus == PanelFocus::Jobs && self.can_load_more() {
                    PipelineDetailAction::LoadMoreJobs
                } else {
                    PipelineDetailAction::Nothing
                }
            },
            KeyCode::Char('R') => {
                if self.focus == PanelFocus::Workflows && self.workflows.len() > 0 {
                    let id = self.workflows[self.selected_workflow_index].id.clone();
                    return PipelineDetailAction::RerunWorkflow(id);
                }
                PipelineDetailAction::Nothing
            },
            KeyCode::Char('s') => {
                if self.focus == PanelFocus::Jobs {
                    if let Some(job) = self.get_selected_job() {
                        return PipelineDetailAction::OpenSsh(job);
                    }
                }
                PipelineDetailAction::Nothing
            },
            KeyCode::Char('c') => {
                if self.focus == PanelFocus::Jobs {
                    return self.start_copy();
                }
                PipelineDetailAction::Nothing
            },
            KeyCode::Esc => PipelineDetailAction::Back,
            _ => PipelineDetailAction::Nothing,
        }
    }
}


/// The line under a job's name in the job list.
pub open spec fn job_status_message(status: Seq<char>) -> Seq<char> {
    if status == "success"@ {
        "Completed successfully"@
    } else if status == "failed"@ {
        "Connection timeout"@
    } else if status == "running"@ {
        "In progress..."@
    } else if status == "blocked"@ {
        "Waiting for dependencies"@
    } else if status == "pending"@ {
        "Queued"@
    } else {
        status
    }
}

/// The line under a job's name in the job list.
pub fn status_message_for(status: &str) -> (r: String)
    ensures
        r@ == job_status_message(status@),
{
    if str_eq(status, "success") {
        owned("Completed successfully")
    } else if str_eq(status, "failed") {
        owned("Connection timeout")
    } else if str_eq(status, "running") {
        owned("In progress...")
    } else if str_eq(status, "blocked") {
        owned("Waiting for dependencies")
    } else if str_eq(status, "pending") {
        owned("Queued")
    } else {
        owned(status)
    }
}

impl PipelineDetailScreen {
    /// First filtered job to prefetch logs for: up to three before the
    /// selection (the first job when nothing is selected).
    pub open spec fn prefetch_start(self) -> int {
        let sel = match self.selected_job_index { Some(i) => i as int, None => 0 };
        if sel >= PREFETCH_BEHIND { sel - PREFETCH_BEHIND } else { 0 }
    }

    /// One past the last filtered job to prefetch logs for: up to three
    /// after the selection.
    pub open spec fn prefetch_end(self) -> int {
        let sel = match self.selected_job_index { Some(i) => i as int, None => 0 };
        let e = sel + PREFETCH_AHEAD + 1;
        if e < self.filtered().len() { e } else { self.filtered().len() as int }
    }

    /// The selection leaves a window of jobs to prefetch: it is not more
    /// than three past the filtered jobs.
    pub open spec fn prefetch_window_ok(self) -> bool {
        self.selected_job_index matches Some(i) ==> i <= self.filtered().len() + PREFETCH_BEHIND
    }

    /// Numbers of the filtered jobs around the selection whose logs are
    /// worth fetching ahead: three before it, the selected one and three
    /// after it, as far as there are jobs.
    pub fn get_visible_job_numbers(&self, viewport_height: u16) -> (r: Vec<u32>)
        requires
            self.wf(),
            self.prefetch_window_ok(),
        ensures
            r@ == self.filtered().subrange(self.prefetch_start(), self.prefetch_end()).map_values(
                |j: Job| j.job_number,
            ),
    {
        let filtered = self.get_filtered_jobs();
        if filtered.len() == 0 {
            assert(self.filtered().subrange(self.prefetch_start(), self.prefetch_end()).len() == 0);
            return Vec::new();
        }
        let selected = match self.selected_job_index {
            Some(i) => i,
            None => 0,
        };
        let start = if selected >= PREFETCH_BEHIND { selected - PREFETCH_BEHIND } else { 0 };
        let end = if selected < filtered.len() && filtered.len() - selected > PREFETCH_AHEAD + 1 {
            selected + PREFETCH_AHEAD + 1
        } else {
            filtered.len()
        };
        let mut r: Vec<u32> = Vec::new();
        let mut i = start;
        while i < end
            invariant
                start <= i <= end,
                end <= filtered@.len(),
                filtered@ == self.filtered(),
                r@ == filtered@.subrange(start as int, i as int).map_values(|j: Job| j.job_number),
            decreases end - i,
        {
            r.push(filtered[i].job_number);
            i = i + 1;
            assert(r@ =~= filtered@.subrange(start as int, i as int).map_values(|j: Job| j.job_number));
        }
        r
    }
}

/// Saving a detail screen's filter selections and applying them to a
/// screen whose filters offer the same options selects the same options.
pub proof fn law_detail_filters_restore(
    s: PipelineDetailScreen,
    p: PipelineDetailFilterPrefs,
    t: PipelineDetailScreen,
    u: PipelineDetailScreen,
)
    requires
        s.wf(),
        s.saved_as(p),
        t.faceted_search.facets_view()[0].options_view() == s.faceted_search.facets_view()[0].options_view(),
        t.faceted_search.facets_view()[1].options_view() == s.faceted_search.facets_view()[1].options_view(),
        u.filters_applied_from(t, p),
    ensures
        u.faceted_search.facets_view()[0].selected() == s.faceted_search.facets_view()[0].selected(),
        u.faceted_search.facets_view()[1].selected() == s.faceted_search.facets_view()[1].selected(),
        u.faceted_search.facets_view()[0].options_view() == s.faceted_search.facets_view()[0].options_view(),
        u.faceted_search.facets_view()[1].options_view() == s.faceted_search.facets_view()[1].options_view(),
{
    assert(s.faceted_search.facets_view()[0].wf());
    assert(s.faceted_search.facets_view()[1].wf());
}

} // verus!
