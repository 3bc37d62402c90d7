//! The workflow screen: a workflow's jobs, and the log of the selected job.

use vstd::prelude::*;
use vstd::utf8::*;
use crate::api::models::{Job, Pipeline, Workflow, job_duration_text};
use crate::keys::{KeyCode, KeyEvent, KeyModifiers};
use crate::text::{concat, decimal, is_infix, owned, str_contains, str_eq, u64_to_string, utf8_prefix, joined_by};
use crate::theme::{get_status_icon, icon_of, status_kind_of};
use crate::text::lowercase;
use crate::widgets::faceted_search::strings_view;

verus! {

broadcast use vstd::utf8::encode_utf8_decode_utf8;

/// What a key on the workflow screen asks for.
#[derive(Debug, Clone, Copy, PartialEq, Eq, Structural)]
pub enum NavigationAction {
    /// Go back to the previous screen.
    Back,
    /// Quit the application.
    Quit,
    /// Nothing.
    Nothing,
}

/// Appends a line.
fn push_line(logs: &mut Vec<String>, line: &str)
    ensures
        strings_view(final(logs)@) == strings_view(old(logs)@).push(line@),
{
    let ghost before = strings_view(logs@);
    logs.push(owned(line));
    assert(strings_view(logs@) =~= before.push(line@));
}

/// The separator line of a sample log.
pub open spec fn log_bar() -> Seq<char> {
    "━━━━━━━━━━━━━━━━━━━━━━━━━━━━━━━━━━━━━━━━"@
}

/// The job-specific part of a sample log, by what the job's name mentions.
pub open spec fn job_kind_lines(n: Seq<char>, status: Seq<char>) -> Seq<Seq<char>> {
    if is_infix("install"@, n) || is_infix("deps"@, n) {
        seq!["$ npm install"@, "  npm WARN deprecated request@2.88.2"@, "  added 847 packages, and audited 848 packages in 1m 24s"@, "✓ Dependencies installed (847 packages)"@, ""@]
    } else if is_infix("lint"@, n) {
        seq!["$ npm run lint"@, "  > eslint . --ext .js,.jsx,.ts,.tsx"@, "✓ No linting errors found"@, ""@]
    } else if is_infix("test"@, n) {
        seq!["$ npm run test"@, "  PASS  src/auth/login.test.ts"@, "    ✓ should authenticate valid user (142ms)"@, "    ✓ should reject invalid credentials (89ms)"@, "  PASS  src/api/webhooks.test.ts"@, "    ✓ should process webhook payload (67ms)"@, "    ✓ should validate signature (45ms)"@, ""@, "  Test Suites: 42 passed, 42 total"@, "  Tests:       287 passed, 287 total"@, "  Snapshots:   12 passed, 12 total"@, "  Time:        23.456s"@] + if status == "failed"@ { seq![""@, "✗ Test suite failed"@, "  FAIL  src/api/deploy.test.ts"@, "    ✗ should deploy to production (1234ms)"@, "      Error: Connection timeout"@, "        at deploy.js:42:15"@, "        at processTicksAndRejections (internal/process/task_queues.js:93:5)"@, ""@, "✗ Failed with exit code 1"@] } else { seq!["✓ All tests passed"@] } + seq![""@]
    } else if is_infix("build"@, n) {
        seq!["$ npm run build"@, "  > webpack --mode production"@, "  asset main.js 287 KiB [emitted] [minimized] (name: main)"@, "  asset styles.css 42 KiB [emitted] [minimized]"@, "  webpack 5.89.0 compiled successfully in 12.3s"@, "✓ Build completed in 2m 15s"@, ""@]
    } else if is_infix("e2e"@, n) {
        seq!["$ npm run e2e"@, "  > cypress run"@, "  Running: login_spec.js"@, "    ✓ User can log in (2341ms)"@, "    ✓ User can log out (876ms)"@, "  Running: dashboard_spec.js"@, "    ✓ Dashboard loads correctly (1543ms)"@, ""@, "  (Tests passed: 12)"@, "  (Tests failed: 0)"@, "✓ E2E tests passed"@, ""@]
    } else if is_infix("security"@, n) {
        seq!["$ npm audit"@, "  found 0 vulnerabilities"@, ""@, "$ snyk test"@, "  ✓ Tested 847 dependencies for known issues"@, "  ✓ No vulnerable paths found"@, ""@]
    } else if is_infix("artifact"@, n) || is_infix("upload"@, n) {
        seq!["$ tar -czf artifacts.tar.gz dist/"@, "✓ Created artifacts.tar.gz (42.3 MB)"@, ""@, "$ aws s3 cp artifacts.tar.gz s3://circleci-artifacts/"@, "  upload: artifacts.tar.gz to s3://circleci-artifacts/build-1234/"@, "✓ Artifacts uploaded successfully"@, ""@]
    } else {
        seq!["$ Running job steps..."@, "✓ Job completed successfully"@, ""@]
    }
}

/// The closing part of a sample log, by the job's status.
pub open spec fn job_summary_lines(j: Job) -> Seq<Seq<char>> {
    seq![log_bar(), ""@] + if j.status@ == "success"@ {
        seq!["✓ Job completed successfully"@, "  Duration: "@ + job_duration_text(j)]
    } else if j.status@ == "failed"@ {
        seq!["✗ Job failed"@, "  See error details above"@, "  Duration: "@ + job_duration_text(j)]
    } else if j.status@ == "running"@ {
        seq!["● Job is currently running..."@, "  Please wait for completion"@]
    } else {
        seq!["○ Job status: "@ + j.status@]
    }
}

/// The sample log of a job: its header, the environment set-up, a
/// checkout for the first or a checkout job, the job's own steps and a
/// summary of its status.
pub open spec fn mock_log_lines(j: Job) -> Seq<Seq<char>> {
    seq![
        "Job #"@ + decimal(j.job_number as nat) + ": "@ + j.name@,
        "Executor: "@ + j.executor.executor_type@ + " (docker:latest)"@,
        ""@,
        log_bar(),
        ""@,
    ] + seq!["$ Spinning up environment..."@, "✓ Pulling Docker image: cimg/base:2024.01"@, "✓ Starting container"@, ""@, "$ Preparing environment variables"@, "  CIRCLE_BRANCH=main"@, "  CIRCLE_BUILD_NUM=1234"@] + seq!["  CIRCLE_JOB="@ + j.name@] + seq!["✓ Environment ready"@, ""@] + if is_infix("checkout"@, j.name@) || j.job_number == 1 {
        seq!["$ git clone --depth=1 https://github.com/acme/api-service"@, "  Cloning into 'api-service'..."@, "✓ Repository cloned (142 files)"@, ""@]
    } else {
        seq![]
    } + job_kind_lines(j.name@, j.status@) + job_summary_lines(j)
}

/// Appends the job-specific part of a sample log.
fn push_job_kind_lines(logs: &mut Vec<String>, name: &str, status: &str)
    ensures
        strings_view(final(logs)@) == strings_view(old(logs)@) + job_kind_lines(name@, status@),
{
    let ghost start = strings_view(logs@);
    if str_contains(name, "install") || str_contains(name, "deps") {
        push_line(logs, "$ npm install");
        push_line(logs, "  npm WARN deprecated request@2.88.2");
        push_line(logs, "  added 847 packages, and audited 848 packages in 1m 24s");
        push_line(logs, "✓ Dependencies installed (847 packages)");
        push_line(logs, "");
        assert(strings_view(logs@) =~= start + job_kind_lines(name@, status@));
    } else if str_contains(name, "lint") {
        push_line(logs, "$ npm run lint");
        push_line(logs, "  > eslint . --ext .js,.jsx,.ts,.tsx");
        push_line(logs, "✓ No linting errors found");
        push_line(logs, "");
        assert(strings_view(logs@) =~= start + job_kind_lines(name@, status@));
    } else if str_contains(name, "test") {
        push_line(logs, "$ npm run test");
        push_line(logs, "  PASS  src/auth/login.test.ts");
        push_line(logs, "    ✓ should authenticate valid user (142ms)");
        push_line(logs, "    ✓ should reject invalid credentials (89ms)");
        push_line(logs, "  PASS  src/api/webhooks.test.ts");
        push_line(logs, "    ✓ should process webhook payload (67ms)");
        push_line(logs, "    ✓ should validate signature (45ms)");
        push_line(logs, "");
        push_line(logs, "  Test Suites: 42 passed, 42 total");
        push_line(logs, "  Tests:       287 passed, 287 total");
        push_line(logs, "  Snapshots:   12 passed, 12 total");
        push_line(logs, "  Time:        23.456s");
        if str_eq(status, "failed") {
            push_line(logs, "");
            push_line(logs, "✗ Test suite failed");
            push_line(logs, "  FAIL  src/api/deploy.test.ts");
            push_line(logs, "    ✗ should deploy to production (1234ms)");
            push_line(logs, "      Error: Connection timeout");
            push_line(logs, "        at deploy.js:42:15");
            push_line(logs, "        at processTicksAndRejections (internal/process/task_queues.js:93:5)");
            push_line(logs, "");
            push_line(logs, "✗ Failed with exit code 1");
        } else {
            push_line(logs, "✓ All tests passed");
        }
        push_line(logs, "");
        assert(strings_view(logs@) =~= start + job_kind_lines(name@, status@));
    } else if str_contains(name, "build") {
        push_line(logs, "$ npm run build");
        push_line(logs, "  > webpack --mode production");
        push_line(logs, "  asset main.js 287 KiB [emitted] [minimized] (name: main)");
        push_line(logs, "  asset styles.css 42 KiB [emitted] [minimized]");
        push_line(logs, "  webpack 5.89.0 compiled successfully in 12.3s");
        push_line(logs, "✓ Build completed in 2m 15s");
        push_line(logs, "");
        assert(strings_view(logs@) =~= start + job_kind_lines(name@, status@));
    } else if str_contains(name, "e2e") {
        push_line(logs, "$ npm run e2e");
        push_line(logs, "  > cypress run");
        push_line(logs, "  Running: login_spec.js");
        push_line(logs, "    ✓ User can log in (2341ms)");
        push_line(logs, "    ✓ User can log out (876ms)");
        push_line(logs, "  Running: dashboard_spec.js");
        push_line(logs, "    ✓ Dashboard loads correctly (1543ms)");
        push_line(logs, "");
        push_line(logs, "  (Tests passed: 12)");
        push_line(logs, "  (Tests failed: 0)");
        push_line(logs, "✓ E2E tests passed");
        push_line(logs, "");
        assert(strings_view(logs@) =~= start + job_kind_lines(name@, status@));
    } else if str_contains(name, "security") {
        push_line(logs, "$ npm audit");
        push_line(logs, "  found 0 vulnerabilities");
        push_line(logs, "");
        push_line(logs, "$ snyk test");
        push_line(logs, "  ✓ Tested 847 dependencies for known issues");
        push_line(logs, "  ✓ No vulnerable paths found");
        push_line(logs, "");
        assert(strings_view(logs@) =~= start + job_kind_lines(name@, status@));
    } else if str_contains(name, "artifact") || str_contains(name, "upload") {
        push_line(logs, "$ tar -czf artifacts.tar.gz dist/");
        push_line(logs, "✓ Created artifacts.tar.gz (42.3 MB)");
        push_line(logs, "");
        push_line(logs, "$ aws s3 cp artifacts.tar.gz s3://circleci-artifacts/");
        push_line(logs, "  upload: artifacts.tar.gz to s3://circleci-artifacts/build-1234/");
        push_line(logs, "✓ Artifacts uploaded successfully");
        push_line(logs, "");
        assert(strings_view(logs@) =~= start + job_kind_lines(name@, status@));
    } else {
        push_line(logs, "$ Running job steps...");
        push_line(logs, "✓ Job completed successfully");
        push_line(logs, "");
        assert(strings_view(logs@) =~= start + job_kind_lines(name@, status@));
    }
}

/// Appends the closing part of a sample log.
fn push_summary_lines(logs: &mut Vec<String>, j: &Job)
    ensures
        strings_view(final(logs)@) == strings_view(old(logs)@) + job_summary_lines(*j),
{
    let ghost start = strings_view(logs@);
    push_line(logs, "━━━━━━━━━━━━━━━━━━━━━━━━━━━━━━━━━━━━━━━━");
    push_line(logs, "");
    let status = j.status.as_str();
    if str_eq(status, "success") {
        push_line(logs, "✓ Job completed successfully");
        push_line(logs, concat("  Duration: ", j.duration_formatted().as_str()).as_str());
    } else if str_eq(status, "failed") {
        push_line(logs, "✗ Job failed");
        push_line(logs, "  See error details above");
        push_line(logs, concat("  Duration: ", j.duration_formatted().as_str()).as_str());
    } else if str_eq(status, "running") {
        push_line(logs, "● Job is currently running...");
        push_line(logs, "  Please wait for completion");
    } else {
        push_line(logs, concat("○ Job status: ", status).as_str());
    }
    assert(strings_view(logs@) =~= start + job_summary_lines(*j));
}

/// The sample log of a job.
pub fn mock_logs_for(j: &Job) -> (r: Vec<String>)
    ensures
        strings_view(r@) == mock_log_lines(*j),
{
    let mut logs: Vec<String> = Vec::new();
    let a = concat("Job #", u64_to_string(j.job_number as u64).as_str());
    let b = concat(a.as_str(), ": ");
    push_line(&mut logs, concat(b.as_str(), j.name.as_str()).as_str());
    let c = concat("Executor: ", j.executor.executor_type.as_str());
    push_line(&mut logs, concat(c.as_str(), " (docker:latest)").as_str());
    push_line(&mut logs, "");
    push_line(&mut logs, "━━━━━━━━━━━━━━━━━━━━━━━━━━━━━━━━━━━━━━━━");
    push_line(&mut logs, "");
    push_line(&mut logs, "$ Spinning up environment...");
    push_line(&mut logs, "✓ Pulling Docker image: cimg/base:2024.01");
    push_line(&mut logs, "✓ Starting container");
    push_line(&mut logs, "");
    push_line(&mut logs, "$ Preparing environment variables");
    push_line(&mut logs, "  CIRCLE_BRANCH=main");
    push_line(&mut logs, "  CIRCLE_BUILD_NUM=1234");
    push_line(&mut logs, concat("  CIRCLE_JOB=", j.name.as_str()).as_str());
    push_line(&mut logs, "✓ Environment ready");
    push_line(&mut logs, "");
    let ghost before_checkout = strings_view(logs@);
    if str_contains(j.name.as_str(), "checkout") || j.job_number == 1 {
        push_line(&mut logs, "$ git clone --depth=1 https://github.com/acme/api-service");
        push_line(&mut logs, "  Cloning into 'api-service'...");
        push_line(&mut logs, "✓ Repository cloned (142 files)");
        push_line(&mut logs, "");
    }
    let ghost before_kind = strings_view(logs@);
    push_job_kind_lines(&mut logs, j.name.as_str(), j.status.as_str());
    push_summary_lines(&mut logs, j);
    assert(strings_view(logs@) =~= mock_log_lines(*j));
    logs
}


/// The name of a job in the workflow graph: cut to nine bytes and "..."
/// when longer than twelve bytes.
pub open spec fn dag_name(name: Seq<char>) -> Seq<char> {
    if encode_utf8(name).len() > 12 { utf8_prefix(name, 9) + "..."@ } else { name }
}

/// A job's name can be cut for the graph.
pub open spec fn dag_name_cuttable(name: Seq<char>) -> bool {
    &&& encode_utf8(name).len() <= usize::MAX
    &&& encode_utf8(name).len() > 12 ==> is_char_boundary(encode_utf8(name), 9)
}

/// The parts of the workflow graph for the first `k` of the first five jobs.
pub open spec fn dag_parts(jobs: Seq<Job>, k: int) -> Seq<Seq<char>>
    decreases k,
{
    if k <= 0 {
        seq![]
    } else {
        let shown = if jobs.len() < 5 { jobs.len() as int } else { 5 };
        let j = jobs[k - 1];
        let part = icon_of(status_kind_of(lowercase(j.status@))) + " "@ + dag_name(j.name@);
        let before = dag_parts(jobs, k - 1).push(part);
        if k - 1 < shown - 1 { before.push(" → "@) } else { before }
    }
}

/// The workflow graph: the first five jobs, each with its status icon, in a
/// chain, and how many more jobs there are.
pub open spec fn dag_text(jobs: Seq<Job>) -> Seq<char> {
    let shown = if jobs.len() < 5 { jobs.len() as int } else { 5 };
    let parts = dag_parts(jobs, shown);
    let all = if jobs.len() > 5 { parts.push(" ... (+"@ + decimal((jobs.len() - 5) as nat) + " more)"@) } else { parts };
    joined_by(all, ""@)
}

/// The workflow screen.
pub struct WorkflowScreen {
    pub pipeline_id: String,
    pub workflow_id: String,
    pub pipeline: Pipeline,
    pub workflow: Workflow,
    pub jobs: Vec<Job>,
    /// Selected job.
    pub selected_job_index: Option<usize>,
    /// Log of the selected job.
    pub log_lines: Vec<String>,
    /// First log line shown.
    pub log_scroll: usize,
    pub loading: bool,
}

impl WorkflowScreen {
    /// A screen for a workflow of a pipeline with its jobs; the first job is
    /// selected and its log shown.
    pub fn new(pipeline: Pipeline, workflow: Workflow, jobs: Vec<Job>) -> (r: Self)
        ensures
            r.pipeline_id == pipeline.id,
            r.workflow_id == workflow.id,
            r.pipeline == pipeline,
            r.workflow == workflow,
            r.jobs == jobs,
            r.log_scroll == 0,
            !r.loading,
            jobs@.len() > 0 ==> r.selected_job_index == Some(0usize) && strings_view(r.log_lines@) == mock_log_lines(jobs@[0]),
            jobs@.len() == 0 ==> r.selected_job_index is None && r.log_lines@.len() == 0,
    {
        let workflow_id = workflow.id.clone();
        let pipeline_id = pipeline.id.clone();
        let mut screen = WorkflowScreen {
            pipeline_id,
            workflow_id,
            pipeline,
            workflow,
            jobs,
            selected_job_index: None,
            log_lines: Vec::new(),
            log_scroll: 0,
            loading: false,
        };
        if screen.jobs.len() > 0 {
            screen.selected_job_index = Some(0);
            screen.load_mock_logs();
        }
        screen
    }

    /// Shows the sample log of the selected job; nothing happens when no
    /// job is selected.
    pub fn load_mock_logs(&mut self)
        requires
            old(self).selected_job_index matches Some(i) ==> i < old(self).jobs@.len(),
        ensures
            old(self).selected_job_index matches Some(i) ==> strings_view(final(self).log_lines@) == mock_log_lines(
                old(self).jobs@[i as int],
            ),
            *final(self) == (WorkflowScreen { log_lines: final(self).log_lines, ..*old(self) }),
            old(self).selected_job_index is None ==> final(self).log_lines == old(self).log_lines,
    {
        match self.selected_job_index {
            Some(idx) => {
                let logs = mock_logs_for(&self.jobs[idx]);
                self.log_lines = logs;
            },
            None => {},
        }
    }

    /// `n` shows job `i` selected, with its log from the top.
    pub open spec fn shows_job(self, n: Self, i: usize) -> bool {
        &&& n.selected_job_index == Some(i)
        &&& n.log_scroll == 0
        &&& strings_view(n.log_lines@) == mock_log_lines(self.jobs@[i as int])
        &&& n == (WorkflowScreen { selected_job_index: Some(i), log_scroll: 0, log_lines: n.log_lines, ..self })
    }

    /// `n` is this screen with the next job selected (staying on the last)
    /// and its log shown from the top; unchanged when there are no jobs.
    pub open spec fn next_job_step(self, n: Self) -> bool {
        if self.jobs@.len() == 0 {
            n == self
        } else {
            self.shows_job(n, match self.selected_job_index {
                Some(i) => if i + 1 >= self.jobs@.len() { i } else { (i + 1) as usize },
                None => 0,
            })
        }
    }

    /// `n` is this screen with the previous job selected (staying on the
    /// first) and its log shown from the top; unchanged when there are no
    /// jobs.
    pub open spec fn previous_job_step(self, n: Self) -> bool {
        if self.jobs@.len() == 0 {
            n == self
        } else {
            self.shows_job(n, match self.selected_job_index {
                Some(i) => if i == 0 { 0 } else { (i - 1) as usize },
                None => 0,
            })
        }
    }

    /// This screen with the log scrolled down a line, not past its last line.
    pub open spec fn log_scrolled_down(self) -> Self {
        WorkflowScreen {
            log_scroll: if self.log_scroll + 1 < self.log_lines@.len() {
                (self.log_scroll + 1) as usize
            } else {
                self.log_scroll
            },
            ..self
        }
    }

    /// This screen with the log scrolled up a line.
    pub open spec fn log_scrolled_up(self) -> Self {
        WorkflowScreen { log_scroll: if self.log_scroll > 0 { (self.log_scroll - 1) as usize } else { 0 }, ..self }
    }

    /// Selects the next job, staying on the last, and shows its log from the
    /// top; nothing happens when there are no jobs.
    pub fn select_next_job(&mut self)
        requires
            old(self).selected_job_index matches Some(i) ==> i < old(self).jobs@.len(),
        ensures
            old(self).next_job_step(*final(self)),
    {
        if self.jobs.len() == 0 {
            return;
        }
        let i = match self.selected_job_index {
            Some(i) => if i >= self.jobs.len() - 1 {
                i
            } else {
                i + 1
            },
            None => 0,
        };
        self.selected_job_index = Some(i);
        self.log_scroll = 0;
        self.load_mock_logs();
    }

    /// Selects the previous job, staying on the first, and shows its log
    /// from the top; nothing happens when there are no jobs.
    pub fn select_previous_job(&mut self)
        requires
            old(self).selected_job_index matches Some(i) ==> i < old(self).jobs@.len(),
        ensures
            old(self).previous_job_step(*final(self)),
    {
        if self.jobs.len() == 0 {
            return;
        }
        let i = match self.selected_job_index {
            Some(i) => if i == 0 {
                0
            } else {
                i - 1
            },
            None => 0,
        };
        self.selected_job_index = Some(i);
        self.log_scroll = 0;
        self.load_mock_logs();
    }

    /// Scrolls the log down a line, not past its last line.
    pub fn scroll_log_down(&mut self)
        ensures
            *final(self) == old(self).log_scrolled_down(),
    {
        if self.log_lines.len() == 0 {
            return;
        }
        let max_scroll = self.log_lines.len() - 1;
        if self.log_scroll < max_scroll {
            self.log_scroll = self.log_scroll + 1;
        }
    }

    /// Scrolls the log up a line.
    pub fn scroll_log_up(&mut self)
        ensures
            *final(self) == old(self).log_scrolled_up(),
    {
        if self.log_scroll > 0 {
            self.log_scroll = self.log_scroll - 1;
        }
    }

    /// Handles a key: up/k and down/j move between jobs, the page keys
    /// scroll the log, Esc and h go back, q and Ctrl+C quit; only keys
    /// without modifiers count, but for Ctrl+C.
    pub fn handle_input(&mut self, key: KeyEvent) -> (r: NavigationAction)
        requires
            old(self).selected_job_index matches Some(i) ==> i < old(self).jobs@.len(),
        ensures
            final(self).selected_job_index matches Some(i) ==> i < final(self).jobs@.len(),
            ({
                let plain = key.modifiers == KeyModifiers::spec_none();
                let ctrl = key.modifiers == (KeyModifiers { shift: false, control: true, alt: false });
                if plain && (key.code == KeyCode::Up || key.code == KeyCode::Char('k')) {
                    r == NavigationAction::Nothing && old(self).previous_job_step(*final(self))
                } else if plain && (key.code == KeyCode::Down || key.code == KeyCode::Char('j')) {
                    r == NavigationAction::Nothing && old(self).next_job_step(*final(self))
                } else if plain && key.code == KeyCode::PageUp {
                    r == NavigationAction::Nothing && *final(self) == old(self).log_scrolled_up()
                } else if plain && key.code == KeyCode::PageDown {
                    r == NavigationAction::Nothing && *final(self) == old(self).log_scrolled_down()
                } else if plain && (key.code == KeyCode::Esc || key.code == KeyCode::Char('h')) {
                    r == NavigationAction::Back && *final(self) == *old(self)
                } else if plain && key.code == KeyCode::Char('q') || ctrl && key.code == KeyCode::Char('c') {
                    r == NavigationAction::Quit && *final(self) == *old(self)
                } else {
                    r == NavigationAction::Nothing && *final(self) == *old(self)
                }
            }),
    {
        let plain = key.modifiers.is_none();
        let ctrl = !key.modifiers.shift && key.modifiers.control && !key.modifiers.alt;
        if plain && (key.code == KeyCode::Up || key.code == KeyCode::Char('k')) {
            self.select_previous_job();
            NavigationAction::Nothing
        } else if plain && (key.code == KeyCode::Down || key.code == KeyCode::Char('j')) {
            self.select_next_job();
            NavigationAction::Nothing
        } else if plain && key.code == KeyCode::PageUp {
            self.scroll_log_up();
            NavigationAction::Nothing
        } else if plain && key.code == KeyCode::PageDown {
            self.scroll_log_down();
            NavigationAction::Nothing
        } else if plain && (key.code == KeyCode::Esc || key.code == KeyCode::Char('h')) {
            NavigationAction::Back
        } else if plain && key.code == KeyCode::Char('q') {
            NavigationAction::Quit
        } else if ctrl && key.code == KeyCode::Char('c') {
            NavigationAction::Quit
        } else {
            NavigationAction::Nothing
        }
    }

    /// The workflow graph: the first five jobs in a chain, with how many
    /// more there are.
    pub fn generate_dag_text(&self) -> (r: String)
        requires
            forall|i: int| 0 <= i < self.jobs@.len() && i < 5 ==> dag_name_cuttable(#[trigger] self.jobs@[i].name@),
        ensures
            r@ == dag_text(self.jobs@),
    {
        let n = self.jobs.len();
        let shown: usize = if n < 5 { n } else { 5 };
        let mut parts: Vec<String> = Vec::new();
        let mut i: usize = 0;
        while i < shown
            invariant
                i <= shown,
                shown == if self.jobs@.len() < 5 { self.jobs@.len() as int } else { 5 },
                n == self.jobs@.len(),
                forall|k: int| 0 <= k < self.jobs@.len() && k < 5 ==> dag_name_cuttable(#[trigger] self.jobs@[k].name@),
                strings_view(parts@) == dag_parts(self.jobs@, i as int),
            decreases shown - i,
        {
            let job = &self.jobs[i];
            let icon = get_status_icon(job.status.as_str());
            let name_str = job.name.as_str();
            assert(dag_name_cuttable(self.jobs@[i as int].name@));
            let len = name_str.len();
            let name = if len > 12 {
                let (head, _tail) = name_str.split_at(9);
                assert(encode_utf8(head@) == encode_utf8(name_str@).subrange(0, 9));
                assert(head@ == utf8_prefix(name_str@, 9));
                concat(head, "...")
            } else {
                owned(name_str)
            };
            let a = concat(icon, " ");
            let part = concat(a.as_str(), name.as_str());
            let ghost before = strings_view(parts@);
            parts.push(part);
            if i < shown - 1 {
                parts.push(owned(" → "));
            }
            assert(strings_view(parts@) =~= dag_parts(self.jobs@, i + 1));
            i = i + 1;
        }
        let ghost chain = strings_view(parts@);
        if n > 5 {
            let a = concat(" ... (+", u64_to_string((n - 5) as u64).as_str());
            parts.push(concat(a.as_str(), " more)"));
            assert(strings_view(parts@) =~= chain.push(" ... (+"@ + decimal((self.jobs@.len() - 5) as nat) + " more)"@));
        }
        let r = crate::text::join_with(parts.as_slice(), "");
        proof {
            reveal_strlit("");
        }
        r
    }
}

/// Selecting the next job and then the previous one comes back to the job
/// that was selected, with its log from the top, unless it was the last.
pub proof fn law_next_then_previous_job(a: WorkflowScreen, b: WorkflowScreen, c: WorkflowScreen, i: usize)
    requires
        a.selected_job_index == Some(i),
        i + 1 < a.jobs.len(),
        a.next_job_step(b),
        b.previous_job_step(c),
    ensures
        c.selected_job_index == Some(i),
        c.log_scroll == 0,
        strings_view(c.log_lines@) == mock_log_lines(a.jobs@[i as int]),
        c.jobs == a.jobs,
{
}

} // verus!
