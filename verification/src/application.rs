//! The application: which screen and popups are shown, how keys are routed
//! among them, and what the results of background work do. The event loop,
//! the terminal, the network, the clipboard and the disk stay outside: they
//! hand events and results in, and take the requested work out.

use vstd::prelude::*;
use crate::api::mock_data::MOCK_EARLIEST_NOW;
use crate::api::models::{Job, Pipeline, Workflow};
use crate::clock::unix_now;
use crate::keys::{KeyCode, KeyEvent};
use crate::preferences::{PreferencesManager, UserPreferences};
use crate::screens::pipeline_detail::{
    CopyRequest, PipelineDetailAction, PipelineDetailScreen, duration_filter_options, status_filter_options,
};
use crate::screens::pipelines::PipelineScreen;
use crate::text::{concat, join_lines, joined_lines, owned, str_contains, str_eq, is_infix};
use crate::widgets::confirm_modal::{ConfirmAction, ConfirmModal, confirm_action_of};
use crate::widgets::error_modal::{ErrorAction, ErrorModal};
use crate::widgets::faceted_search::strings_view;
use crate::widgets::help_modal::{HelpAction, HelpModal};
use crate::widgets::log_modal::{LogModal, LogStep, ModalAction, modal_action_for};
use crate::widgets::spinner::{frame_of, Spinner, SPINNER_FRAME_COUNT};
use crate::widgets::ssh_modal::{SshAction, SshModal, id_cuttable};
use crate::widgets::status_message::{MessageLevel, StatusMessage, DEFAULT_MESSAGE_MS};

verus! {

/// The screens.
#[derive(Debug, Clone, Copy, PartialEq, Eq, Structural)]
pub enum Screen {
    /// The pipeline list.
    Pipelines,
    /// One pipeline's workflows and jobs.
    PipelineDetail,
}

/// Work a key asks the surrounding program to do.
pub enum AppEffect {
    /// Nothing.
    Nothing,
    /// Put these log lines on the clipboard and report back to the detail
    /// screen's `finish_copy`.
    CopyToClipboard(CopyRequest),
    /// Put this text, a step's log, on the clipboard.
    CopyStepLogs(String),
}

/// The application's state.
pub struct App {
    pub current_screen: Screen,
    pub pipeline_screen: PipelineScreen,
    pub pipeline_detail_screen: Option<PipelineDetailScreen>,
    /// The job log popup, over any screen.
    pub log_modal: Option<LogModal>,
    pub should_quit: bool,
    pub is_loading: bool,
    /// Asks to confirm a workflow rerun.
    pub confirm_modal: Option<ConfirmModal>,
    pub error_modal: Option<ErrorModal>,
    pub help_modal: Option<HelpModal>,
    pub ssh_modal: Option<SshModal>,
    /// A short message at the top, hidden after a while.
    pub status_message: Option<StatusMessage>,
    /// Pipeline whose workflows should be loaded.
    pub pending_workflow_load: Option<String>,
    /// Workflow whose jobs should be loaded.
    pub pending_job_load: Option<String>,
    /// Job whose log should be loaded.
    pub pending_log_load: Option<u32>,
    /// Workflow whose next page of jobs should be loaded.
    pub pending_load_more_jobs: Option<String>,
    pub preferences: PreferencesManager,
    /// Spinner of a long fetch.
    pub fetch_spinner: Spinner,
    /// A long fetch is running.
    pub is_fetching: bool,
}

impl App {
    /// The screens and the log popup are well formed.
    pub open spec fn wf(self) -> bool {
        &&& self.pipeline_screen.wf()
        &&& self.pipeline_detail_screen matches Some(d) ==> d.wf()
        &&& self.log_modal matches Some(m) ==> m.wf()
        &&& self.fetch_spinner.wf()
    }

    /// Opens the detail screen of `pipeline` with the saved detail filters,
    /// its workflows to be loaded.
    pub fn navigate_to_pipeline_detail(&mut self, pipeline: Pipeline)
        requires
            old(self).wf(),
        ensures
            final(self).wf(),
            final(self).current_screen == Screen::PipelineDetail,
            final(self).pending_workflow_load == Some(pipeline.id),
            final(self).pipeline_detail_screen matches Some(d) && d.pipeline == pipeline && d.loading_workflows
                && d.workflows@.len() == 0 && d.jobs@.len() == 0,
            final(self).pipeline_detail_screen matches Some(d) && ({
                let p = old(self).preferences.prefs().detail_filters;
                &&& d.faceted_search.facets_view()[0].options_view() == status_filter_options()
                &&& d.faceted_search.facets_view()[1].options_view() == duration_filter_options()
                &&& d.faceted_search.facets_view()[0].selected() == if p.status_index < status_filter_options().len() {
                    p.status_index as nat
                } else {
                    0
                }
                &&& d.faceted_search.facets_view()[1].selected() == if p.duration_index
                    < duration_filter_options().len() {
                    p.duration_index as nat
                } else {
                    0
                }
            }),
            *final(self) == (App {
                current_screen: Screen::PipelineDetail,
                pipeline_detail_screen: final(self).pipeline_detail_screen,
                pending_workflow_load: Some(pipeline.id),
                ..*old(self)
            }),
    {
        let id = pipeline.id.clone();
        let mut detail = PipelineDetailScreen::new(pipeline);
        let prefs = self.preferences.get_preferences().detail_filters;
        detail.apply_filter_preferences(&prefs);
        detail.loading_workflows = true;
        self.pipeline_detail_screen = Some(detail);
        self.pending_workflow_load = Some(id);
        self.current_screen = Screen::PipelineDetail;
    }

    /// Goes back to the pipeline list, dropping the detail screen and
    /// closing the log and SSH popups.
    pub fn navigate_back_to_pipelines(&mut self)
        requires
            old(self).wf(),
        ensures
            final(self).wf(),
            *final(self) == (App {
                current_screen: Screen::Pipelines,
                pipeline_detail_screen: None,
                log_modal: None,
                ssh_modal: None,
                ..*old(self)
            }),
    {
        self.current_screen = Screen::Pipelines;
        self.pipeline_detail_screen = None;
        self.log_modal = None;
        self.ssh_modal = None;
    }

    /// Opens the log popup of `job`, whose log is then to be loaded.
    pub fn open_job_log_modal(&mut self, job: Job)
        requires
            old(self).wf(),
        ensures
            final(self).wf(),
            final(self).log_modal matches Some(m) && m.job == job && m.visible && m.is_loading && m.steps@.len() == 0,
            *final(self) == (App {
                log_modal: final(self).log_modal,
                pending_log_load: Some(job.job_number),
                ..*old(self)
            }),
    {
        let job_number = job.job_number;
        self.log_modal = Some(LogModal::new(job));
        self.pending_log_load = Some(job_number);
    }

    /// Closes the log popup.
    pub fn close_log_modal(&mut self)
        ensures
            *final(self) == (App { log_modal: None, ..*old(self) }),
    {
        self.log_modal = None;
    }

    /// Opens the SSH popup of `job`.
    pub fn open_ssh_modal(&mut self, job: Job)
        requires
            id_cuttable(job.id@),
        ensures
            final(self).ssh_modal matches Some(m) && m.job == job && m.visible,
            *final(self) == (App { ssh_modal: final(self).ssh_modal, ..*old(self) }),
    {
        self.ssh_modal = Some(SshModal::new(job));
    }

    /// The job whose running log is due to be fetched again, if any.
    pub fn should_refresh_logs(&self) -> (r: Option<u32>)
        ensures
            r matches Some(n) ==> self.log_modal matches Some(m) && m.is_streaming && n == m.job.job_number,
            self.log_modal is None ==> r is None,
    {
        match &self.log_modal {
            Some(modal) => if modal.should_refresh() {
                Some(modal.job_number())
            } else {
                None
            },
            None => None,
        }
    }

    /// Starts loading the pipeline list; returns the filters the server
    /// applies: only the user's own pipelines when the owner filter is
    /// "Mine", and the selected branch unless it is "All".
    pub fn begin_pipeline_load(&mut self) -> (r: (bool, Option<String>))
        requires
            old(self).wf(),
        ensures
            r.0 == (old(self).pipeline_screen.filter_option(0) == "Mine"@),
            old(self).pipeline_screen.filter_option(1) == "All"@ ==> r.1 is None,
            old(self).pipeline_screen.filter_option(1) != "All"@ ==> (r.1 matches Some(b) && b@
                == old(self).pipeline_screen.filter_option(1)),
            *final(self) == (App { is_loading: true, ..*old(self) }),
    {
        self.is_loading = true;
        let owner = self.pipeline_screen.faceted_search.get_filter_value(0);
        let mine = match owner {
            Some(o) => str_eq(o, "Mine"),
            None => false,
        };
        let branch = match self.pipeline_screen.faceted_search.get_filter_value(1) {
            Some(b) => if str_eq(b, "All") {
                None
            } else {
                Some(owned(b))
            },
            None => None,
        };
        (mine, branch)
    }

    /// Asks for the jobs of a workflow, marking the detail screen as loading
    /// them.
    pub fn trigger_job_load(&mut self, workflow_id: String)
        requires
            old(self).wf(),
        ensures
            final(self).wf(),
            final(self).pending_job_load == Some(workflow_id),
            *final(self) == (App {
                pending_job_load: Some(workflow_id),
                pipeline_detail_screen: match old(self).pipeline_detail_screen {
                    Some(d) => Some(PipelineDetailScreen { loading_jobs: true, ..d }),
                    None => None,
                },
                ..*old(self)
            }),
    {
        match &mut self.pipeline_detail_screen {
            Some(detail) => {
                detail.loading_jobs = true;
            },
            None => {},
        }
        self.pending_job_load = Some(workflow_id);
    }

    /// Clears the detail screen's powerline notification once its time is up.
    pub fn tick_powerline(&mut self)
        requires
            old(self).wf(),
        ensures
            final(self).wf(),
            *final(self) == (App { pipeline_detail_screen: final(self).pipeline_detail_screen, ..*old(self) }),
            old(self).pipeline_detail_screen is None ==> final(self).pipeline_detail_screen is None,
            old(self).pipeline_detail_screen matches Some(d) ==> final(self).pipeline_detail_screen matches Some(e)
                && e == (PipelineDetailScreen { powerline: e.powerline, ..d }) && exists|elapsed_ms: u64, cleared: bool|
                #[trigger] d.powerline.ticked_to(e.powerline, elapsed_ms, cleared),
    {
        match &mut self.pipeline_detail_screen {
            Some(detail) => detail.tick_powerline(),
            None => {},
        }
    }

    /// Shows an error popup with a title and message.
    pub fn show_error(&mut self, title: &str, message: &str)
        ensures
            final(self).error_modal matches Some(m) && m.title_view() == title@ && m.message_view() == message@
                && m.details_view() is None && m.visible_spec(),
            *final(self) == (App { error_modal: final(self).error_modal, ..*old(self) }),
    {
        self.error_modal = Some(ErrorModal::new(owned(title), owned(message)));
    }

    /// Shows an error popup with a title, message and details.
    pub fn show_error_with_details(&mut self, title: &str, message: &str, details: &str)
        ensures
            final(self).error_modal matches Some(m) && m.title_view() == title@ && m.message_view() == message@
                && m.details_view() == Some(details@) && m.visible_spec(),
            *final(self) == (App { error_modal: final(self).error_modal, ..*old(self) }),
    {
        self.error_modal = Some(ErrorModal::with_details(owned(title), owned(message), owned(details)));
    }

    /// The preferences to save: the current filters of the pipeline list
    /// and, when it is open, of the detail screen.
    pub fn collect_preferences(&mut self)
        requires
            old(self).wf(),
        ensures
            final(self).wf(),
            ({
                let p = old(self).preferences.prefs();
                let n = final(self).preferences.prefs();
                &&& n.version == p.version && n.user == p.user && n.first_run == p.first_run
                &&& n.pipeline_filters.owner_index == old(self).pipeline_screen.faceted_search.facets_view()[0].selected()
                &&& n.pipeline_filters.date_index == old(self).pipeline_screen.faceted_search.facets_view()[2].selected()
                &&& n.pipeline_filters.status_index == old(self).pipeline_screen.faceted_search.facets_view()[3].selected()
                &&& n.pipeline_filters.search_text@ == old(self).pipeline_screen.search_input.value_view()
                &&& (n.pipeline_filters.branch is None) == (old(self).pipeline_screen.filter_option(1) == "All"@)
                &&& (n.pipeline_filters.branch matches Some(b) ==> b@ == old(self).pipeline_screen.filter_option(1))
                &&& match old(self).pipeline_detail_screen {
                    Some(d) => n.detail_filters.status_index == d.faceted_search.facets_view()[0].selected()
                        && n.detail_filters.duration_index == d.faceted_search.facets_view()[1].selected(),
                    None => n.detail_filters == p.detail_filters,
                }
            }),
            *final(self) == (App { preferences: final(self).preferences, ..*old(self) }),
    {
        let filters = self.pipeline_screen.get_filter_preferences();
        self.preferences.set_pipeline_filters(filters);
        match &self.pipeline_detail_screen {
            Some(detail) => {
                let d = detail.get_filter_preferences();
                self.preferences.set_detail_filters(d);
            },
            None => {},
        }
    }
}

/// Number of kinds of API error.
pub const API_ERROR_KINDS: usize = 8;

/// The kind of an API error, by what its message mentions: a timeout, a
/// missing resource, failed authentication, a refused permission, a network
/// failure, a rate limit, a server error, or anything else.
pub open spec fn api_error_kind(m: Seq<char>) -> nat {
    if is_infix("timeout"@, m) {
        0nat
    } else if is_infix("404"@, m) || is_infix("Not Found"@, m) {
        1nat
    } else if is_infix("401"@, m) || is_infix("Unauthorized"@, m) {
        2nat
    } else if is_infix("403"@, m) || is_infix("Forbidden"@, m) {
        3nat
    } else if is_infix("connect"@, m) || is_infix("network"@, m) || is_infix("dns"@, m) {
        4nat
    } else if is_infix("rate limit"@, m) || is_infix("429"@, m) {
        5nat
    } else if is_infix("500"@, m) || is_infix("502"@, m) || is_infix("503"@, m) {
        6nat
    } else {
        7nat
    }
}

/// The popup title for an API error kind.
pub open spec fn api_error_title(k: nat) -> Seq<char> {
    if k == 0 {
        "Timeout Error"@
    } else if k == 1 {
        "Not Found"@
    } else if k == 2 {
        "Authentication Error"@
    } else if k == 3 {
        "Permission Denied"@
    } else if k == 4 {
        "Network Error"@
    } else if k == 5 {
        "Rate Limited"@
    } else if k == 6 {
        "Server Error"@
    } else {
        "API Error"@
    }
}

/// The popup title of an API error message is decided by the first of
/// these that the message contains: "timeout" (Timeout Error), "404" or
/// "Not Found" (Not Found), "401" or "Unauthorized" (Authentication
/// Error), "403" or "Forbidden" (Permission Denied), "connect", "network"
/// or "dns" (Network Error), "rate limit" or "429" (Rate Limited), "500",
/// "502" or "503" (Server Error); a message with none of them is an API
/// Error. Each title comes with its own account of what went wrong.
pub proof fn law_api_error_titles(m: Seq<char>)
    ensures
        is_infix("timeout"@, m) ==> api_error_title(api_error_kind(m)) == "Timeout Error"@
            && api_error_summary(api_error_kind(m)) == "The request to CircleCI API timed out"@,
        !is_infix("timeout"@, m) && (is_infix("404"@, m) || is_infix("Not Found"@, m))
            ==> api_error_title(api_error_kind(m)) == "Not Found"@
            && api_error_summary(api_error_kind(m)) == "The requested resource was not found"@,
        !is_infix("timeout"@, m) && !is_infix("404"@, m) && !is_infix("Not Found"@, m) && (is_infix("401"@, m)
            || is_infix("Unauthorized"@, m)) ==> api_error_title(api_error_kind(m)) == "Authentication Error"@
            && api_error_summary(api_error_kind(m)) == "Failed to authenticate with CircleCI API"@,
        !is_infix("timeout"@, m) && !is_infix("404"@, m) && !is_infix("Not Found"@, m) && !is_infix("401"@, m)
            && !is_infix("Unauthorized"@, m) && (is_infix("403"@, m) || is_infix("Forbidden"@, m))
            ==> api_error_title(api_error_kind(m)) == "Permission Denied"@
            && api_error_summary(api_error_kind(m)) == "You don't have permission to access this resource"@,
        !is_infix("timeout"@, m) && !is_infix("404"@, m) && !is_infix("Not Found"@, m) && !is_infix("401"@, m)
            && !is_infix("Unauthorized"@, m) && !is_infix("403"@, m) && !is_infix("Forbidden"@, m) && (is_infix(
            "connect"@,
            m,
        ) || is_infix("network"@, m) || is_infix("dns"@, m)) ==> api_error_title(api_error_kind(m)) == "Network Error"@
            && api_error_summary(api_error_kind(m)) == "Failed to connect to CircleCI API"@,
        !is_infix("timeout"@, m) && !is_infix("404"@, m) && !is_infix("Not Found"@, m) && !is_infix("401"@, m)
            && !is_infix("Unauthorized"@, m) && !is_infix("403"@, m) && !is_infix("Forbidden"@, m) && !is_infix(
            "connect"@,
            m,
        ) && !is_infix("network"@, m) && !is_infix("dns"@, m) && (is_infix("rate limit"@, m) || is_infix(
            "429"@,
            m,
        )) ==> api_error_title(api_error_kind(m)) == "Rate Limited"@
            && api_error_summary(api_error_kind(m)) == "Too many requests to CircleCI API"@,
        !is_infix("timeout"@, m) && !is_infix("404"@, m) && !is_infix("Not Found"@, m) && !is_infix("401"@, m)
            && !is_infix("Unauthorized"@, m) && !is_infix("403"@, m) && !is_infix("Forbidden"@, m) && !is_infix(
            "connect"@,
            m,
        ) && !is_infix("network"@, m) && !is_infix("dns"@, m) && !is_infix("rate limit"@, m) && !is_infix(
            "429"@,
            m,
        ) && (is_infix("500"@, m) || is_infix("502"@, m) || is_infix("503"@, m)) ==> api_error_title(
            api_error_kind(m),
        ) == "Server Error"@
            && api_error_summary(api_error_kind(m)) == "CircleCI API returned a server error"@,
        !is_infix("timeout"@, m) && !is_infix("404"@, m) && !is_infix("Not Found"@, m) && !is_infix("401"@, m)
            && !is_infix("Unauthorized"@, m) && !is_infix("403"@, m) && !is_infix("Forbidden"@, m) && !is_infix(
            "connect"@,
            m,
        ) && !is_infix("network"@, m) && !is_infix("dns"@, m) && !is_infix("rate limit"@, m) && !is_infix(
            "429"@,
            m,
        ) && !is_infix("500"@, m) && !is_infix("502"@, m) && !is_infix("503"@, m) ==> api_error_title(
            api_error_kind(m),
        ) == "API Error"@
            && api_error_summary(api_error_kind(m)) == "An error occurred while communicating with CircleCI"@,
{
}

/// What went wrong, for an API error kind.
pub open spec fn api_error_summary(k: nat) -> Seq<char> {
    if k == 0 {
        "The request to CircleCI API timed out"@
    } else if k == 1 {
        "The requested resource was not found"@
    } else if k == 2 {
        "Failed to authenticate with CircleCI API"@
    } else if k == 3 {
        "You don't have permission to access this resource"@
    } else if k == 4 {
        "Failed to connect to CircleCI API"@
    } else if k == 5 {
        "Too many requests to CircleCI API"@
    } else if k == 6 {
        "CircleCI API returned a server error"@
    } else {
        "An error occurred while communicating with CircleCI"@
    }
}

/// What to try, for an API error kind.
pub open spec fn api_error_hints(k: nat) -> Seq<Seq<char>> {
    if k == 0 {
        seq!["Check your network connection"@, "CircleCI API might be experiencing issues"@, "Try again in a moment"@]
    } else if k == 1 {
        seq!["Verify your project slug is correct (gh/owner/repo)"@, "Check that the pipeline/workflow/job still exists"@, "You may need to refresh the pipeline list"@]
    } else if k == 2 {
        seq!["Check your CIRCLECI_TOKEN environment variable"@, "Verify your token is valid and not expired"@, "Ensure your token has the required permissions"@]
    } else if k == 3 {
        seq!["Verify your CircleCI token has access to this project"@, "Check that you're a member of the organization"@, "Your token may need additional permissions"@]
    } else if k == 4 {
        seq!["Check your internet connection"@, "Verify you can reach circleci.com"@, "Check if you're behind a proxy or firewall"@]
    } else if k == 5 {
        seq!["Wait a moment before trying again"@, "CircleCI has rate limits on API usage"@, "Consider reducing polling frequency"@]
    } else if k == 6 {
        seq!["CircleCI may be experiencing issues"@, "Check https://status.circleci.com/"@, "Try again in a few minutes"@]
    } else {
        seq!["Check the error details below for more information"@, "Verify your configuration is correct"@, "Try refreshing or restarting the application"@]
    }
}

/// The kind of an API error, by what its message mentions.
pub fn api_error_kind_of(m: &str) -> (k: usize)
    ensures
        k == api_error_kind(m@),
{
    if str_contains(m, "timeout") {
        0
    } else if str_contains(m, "404") || str_contains(m, "Not Found") {
        1
    } else if str_contains(m, "401") || str_contains(m, "Unauthorized") {
        2
    } else if str_contains(m, "403") || str_contains(m, "Forbidden") {
        3
    } else if str_contains(m, "connect") || str_contains(m, "network") || str_contains(m, "dns") {
        4
    } else if str_contains(m, "rate limit") || str_contains(m, "429") {
        5
    } else if str_contains(m, "500") || str_contains(m, "502") || str_contains(m, "503") {
        6
    } else {
        7
    }
}

/// The popup title for an API error kind.
pub fn api_error_title_of(k: usize) -> (r: &'static str)
    requires
        k < API_ERROR_KINDS,
    ensures
        r@ == api_error_title(k as nat),
{
    if k == 0 {
        "Timeout Error"
    } else if k == 1 {
        "Not Found"
    } else if k == 2 {
        "Authentication Error"
    } else if k == 3 {
        "Permission Denied"
    } else if k == 4 {
        "Network Error"
    } else if k == 5 {
        "Rate Limited"
    } else if k == 6 {
        "Server Error"
    } else {
        "API Error"
    }
}

/// What went wrong, for an API error kind.
pub fn api_error_summary_of(k: usize) -> (r: &'static str)
    requires
        k < API_ERROR_KINDS,
    ensures
        r@ == api_error_summary(k as nat),
{
    if k == 0 {
        "The request to CircleCI API timed out"
    } else if k == 1 {
        "The requested resource was not found"
    } else if k == 2 {
        "Failed to authenticate with CircleCI API"
    } else if k == 3 {
        "You don't have permission to access this resource"
    } else if k == 4 {
        "Failed to connect to CircleCI API"
    } else if k == 5 {
        "Too many requests to CircleCI API"
    } else if k == 6 {
        "CircleCI API returned a server error"
    } else {
        "An error occurred while communicating with CircleCI"
    }
}

/// The hints for an API error kind, each as a bulleted line.
pub fn api_error_hint_lines(k: usize) -> (r: Vec<String>)
    requires
        k < API_ERROR_KINDS,
    ensures
        strings_view(r@) == api_error_hints(k as nat).map_values(|h: Seq<char>| "  • "@ + h),
{
    if k == 0 {
        bullet_lines("Check your network connection", "CircleCI API might be experiencing issues", "Try again in a moment")
    } else if k == 1 {
        bullet_lines("Verify your project slug is correct (gh/owner/repo)", "Check that the pipeline/workflow/job still exists", "You may need to refresh the pipeline list")
    } else if k == 2 {
        bullet_lines("Check your CIRCLECI_TOKEN environment variable", "Verify your token is valid and not expired", "Ensure your token has the required permissions")
    } else if k == 3 {
        bullet_lines("Verify your CircleCI token has access to this project", "Check that you're a member of the organization", "Your token may need additional permissions")
    } else if k == 4 {
        bullet_lines("Check your internet connection", "Verify you can reach circleci.com", "Check if you're behind a proxy or firewall")
    } else if k == 5 {
        bullet_lines("Wait a moment before trying again", "CircleCI has rate limits on API usage", "Consider reducing polling frequency")
    } else if k == 6 {
        bullet_lines("CircleCI may be experiencing issues", "Check https://status.circleci.com/", "Try again in a few minutes")
    } else {
        bullet_lines("Check the error details below for more information", "Verify your configuration is correct", "Try refreshing or restarting the application")
    }
}


/// Three hints, each as a bulleted line.
fn bullet_lines(a: &str, b: &str, c: &str) -> (r: Vec<String>)
    ensures
        strings_view(r@) == seq![a@, b@, c@].map_values(|h: Seq<char>| "  • "@ + h),
{
    let r = vec![concat("  • ", a), concat("  • ", b), concat("  • ", c)];
    assert(strings_view(r@) =~= seq![a@, b@, c@].map_values(|h: Seq<char>| "  • "@ + h));
    r
}

/// The error popup's text: what went wrong, what to try, and the
/// technical details.
pub open spec fn api_error_text(k: nat, details: Seq<char>) -> Seq<char> {
    api_error_summary(k) + "\n\nWhat to try:\n"@ + joined_lines(api_error_hints(k).map_values(|h: Seq<char>| "  • "@ + h))
        + "\n\nTechnical details:\n"@ + details
}

impl App {
    /// Shows an API error: a popup whose title, summary and hints follow
    /// what the error's message mentions, with the details below and retry
    /// offered.
    pub fn show_api_error(&mut self, message: &str, details: &str)
        ensures
            final(self).error_modal matches Some(m) && m.title_view() == api_error_title(api_error_kind(message@))
                && m.message_view() == api_error_summary(api_error_kind(message@))
                && m.details_view() == Some(api_error_text(api_error_kind(message@), details@))
                && m.visible_spec() && m.retry_offered(),
            *final(self) == (App { error_modal: final(self).error_modal, ..*old(self) }),
    {
        let k = api_error_kind_of(message);
        let title = api_error_title_of(k);
        let summary = api_error_summary_of(k);
        let hints = api_error_hint_lines(k);
        let a = concat(summary, "\n\nWhat to try:\n");
        let b = concat(a.as_str(), join_lines(hints.as_slice()).as_str());
        let c = concat(b.as_str(), "\n\nTechnical details:\n");
        let text = concat(c.as_str(), details);
        self.error_modal = Some(ErrorModal::with_details(owned(title), owned(summary), text).with_retry());
    }
}


/// Index of the first workflow with the given id.
pub open spec fn first_workflow_with_id(ws: Seq<Workflow>, id: Seq<char>) -> Option<int>
    decreases ws.len(),
{
    if ws.len() == 0 {
        None
    } else {
        match first_workflow_with_id(ws.drop_last(), id) {
            Some(i) => Some(i),
            None => if ws.last().id@ == id { Some(ws.len() - 1) } else { None },
        }
    }
}

/// Finds the first workflow with the given id.
fn find_workflow(ws: &Vec<Workflow>, id: &str) -> (r: Option<usize>)
    ensures
        r matches Some(i) ==> first_workflow_with_id(ws@, id@) == Some(i as int) && i < ws@.len(),
        r is None ==> first_workflow_with_id(ws@, id@) is None,
{
    let mut i: usize = 0;
    while i < ws.len()
        invariant
            i <= ws@.len(),
            first_workflow_with_id(ws@.take(i as int), id@) is None,
        decreases ws@.len() - i,
    {
        assert(ws@.take(i + 1).drop_last() =~= ws@.take(i as int));
        if str_eq(ws[i].id.as_str(), id) {
            proof {
                lemma_first_workflow_prefix(ws@, id@, (i + 1) as int);
            }
            return Some(i);
        }
        i = i + 1;
    }
    assert(ws@.take(i as int) =~= ws@);
    None
}

/// Once found in a prefix, the first workflow with an id is found in the
/// whole list.
proof fn lemma_first_workflow_prefix(ws: Seq<Workflow>, id: Seq<char>, k: int)
    requires
        0 <= k <= ws.len(),
        first_workflow_with_id(ws.take(k), id) is Some,
    ensures
        first_workflow_with_id(ws, id) == first_workflow_with_id(ws.take(k), id),
    decreases ws.len() - k,
{
    if k < ws.len() {
        assert(ws.take(k + 1).drop_last() =~= ws.take(k));
        lemma_first_workflow_prefix(ws, id, k + 1);
    } else {
        assert(ws.take(k) =~= ws);
    }
}

impl App {
    /// `n` is this state after asking to confirm a rerun of workflow `id`:
    /// when the detail screen has such a workflow, the confirmation popup
    /// names it and the screen remembers the id.
    pub open spec fn rerun_asked(self, n: Self, id: Seq<char>, id_value: String) -> bool {
        match self.pipeline_detail_screen {
            Some(d) => match first_workflow_with_id(d.workflows@, id) {
                Some(i) => {
                    &&& n.confirm_modal matches Some(c) && c.visible_spec() && c.message_view() == "Rerun workflow: "@
                        + d.workflows@[i].name@ + "?"@
                    &&& n == (App {
                        confirm_modal: n.confirm_modal,
                        pipeline_detail_screen: Some(PipelineDetailScreen { confirm_workflow_id: Some(id_value), ..d }),
                        ..self
                    })
                },
                None => n == self,
            },
            None => n == self,
        }
    }

    /// Asks to confirm a rerun of workflow `workflow_id`.
    fn ask_rerun(&mut self, workflow_id: String)
        requires
            old(self).wf(),
        ensures
            final(self).wf(),
            old(self).rerun_asked(*final(self), workflow_id@, workflow_id),
    {
        let found = match &self.pipeline_detail_screen {
            Some(detail) => match find_workflow(&detail.workflows, workflow_id.as_str()) {
                Some(i) => {
                    let a = concat("Rerun workflow: ", detail.workflows[i].name.as_str());
                    Some(concat(a.as_str(), "?"))
                },
                None => None,
            },
            None => None,
        };
        match found {
            Some(message) => {
                self.confirm_modal = Some(ConfirmModal::new(message));
                match &mut self.pipeline_detail_screen {
                    Some(detail) => {
                        detail.confirm_workflow_id = Some(workflow_id);
                    },
                    None => {},
                }
            },
            None => {},
        }
    }

    /// `n` and `e` follow `key` in the log popup: closing it, asking to rerun
    /// its job's workflow, copying the selected step, or a key for the popup.
    pub open spec fn log_key_step(self, n: Self, key: KeyEvent, e: AppEffect) -> bool {
        let m = self.log_modal->0;
        match modal_action_for(key.code) {
            ModalAction::Close => e is Nothing && n == (App { log_modal: None, ..self }),
            ModalAction::Rerun => e is Nothing && (App { log_modal: None, ..self }).rerun_asked(
                n,
                m.job.workflow_id@,
                m.job.workflow_id,
            ),
            ModalAction::CopyStepLogs => {
                &&& e matches AppEffect::CopyStepLogs(t) && (m.selected_step < m.steps@.len() ==> t@ == joined_lines(
                    strings_view(m.steps@[m.selected_step as int].logs@),
                )) && (m.selected_step >= m.steps@.len() ==> t@.len() == 0)
                &&& n.status_message matches Some(sm) && sm.text_view() == "Step logs copied to clipboard"@
                &&& n == (App { status_message: n.status_message, ..self })
            },
            ModalAction::Nothing => {
                &&& e is Nothing
                &&& n.log_modal matches Some(m2) && m.key_step(m2, key.code, ModalAction::Nothing)
                &&& n == (App { log_modal: n.log_modal, ..self })
            },
        }
    }

    /// Handles a key while the log popup is open.
    fn handle_log_modal_key(&mut self, key: KeyEvent) -> (e: AppEffect)
        requires
            old(self).wf(),
            old(self).log_modal matches Some(m) && m.accepts_key(key.code),
        ensures
            final(self).wf(),
            old(self).log_key_step(*final(self), key, e),
    {
        let (action, text, workflow_id) = match &mut self.log_modal {
            Some(modal) => {
                let action = modal.handle_input(key);
                let text = modal.selected_step_text();
                let wid = modal.job.workflow_id.clone();
                (action, text, wid)
            },
            None => return AppEffect::Nothing,
        };
        match action {
            ModalAction::Close => {
                self.close_log_modal();
                AppEffect::Nothing
            },
            ModalAction::Rerun => {
                self.log_modal = None;
                self.ask_rerun(workflow_id);
                AppEffect::Nothing
            },
            ModalAction::CopyStepLogs => {
                self.status_message = Some(StatusMessage::info("Step logs copied to clipboard"));
                AppEffect::CopyStepLogs(text)
            },
            ModalAction::Nothing => AppEffect::Nothing,
        }
    }

    /// `n` follows `key` in the confirmation popup: Yes reports the rerun of
    /// the remembered workflow and forgets it, No closes the popup, other
    /// keys go to the popup.
    pub open spec fn confirm_key_step(self, n: Self, key: KeyEvent) -> bool {
        let c = self.confirm_modal->0;
        match confirm_action_of(key.code) {
            ConfirmAction::Yes => match self.pipeline_detail_screen {
                Some(d) => {
                    &&& n.pipeline_detail_screen == Some(PipelineDetailScreen { confirm_workflow_id: None, ..d })
                    &&& match d.confirm_workflow_id {
                        Some(id) => n.status_message matches Some(sm) && sm.text_view() == "Rerunning workflow "@
                            + id@ + "..."@,
                        None => n.status_message == self.status_message,
                    }
                    &&& n == (App {
                        confirm_modal: None,
                        pipeline_detail_screen: n.pipeline_detail_screen,
                        status_message: n.status_message,
                        ..self
                    })
                },
                None => n == (App { confirm_modal: None, ..self }),
            },
            ConfirmAction::No => n == (App { confirm_modal: None, ..self }),
            ConfirmAction::Nothing => {
                &&& n.confirm_modal matches Some(c2) && c2.message_view() == c.message_view() && c2.visible_spec()
                    == c.visible_spec()
                &&& n == (App { confirm_modal: n.confirm_modal, ..self })
            },
        }
    }

    /// Handles a key while the confirmation popup is open.
    fn handle_confirm_key(&mut self, key: KeyEvent)
        requires
            old(self).wf(),
            old(self).confirm_modal is Some,
        ensures
            final(self).wf(),
            old(self).confirm_key_step(*final(self), key),
    {
        let action = match &mut self.confirm_modal {
            Some(modal) => modal.handle_input(key),
            None => return,
        };
        match action {
            ConfirmAction::Yes => {
                self.confirm_modal = None;
                match &mut self.pipeline_detail_screen {
                    Some(detail) => {
                        match &detail.confirm_workflow_id {
                            Some(id) => {
                                let a = concat("Rerunning workflow ", id.as_str());
                                let text = concat(a.as_str(), "...");
                                self.status_message = Some(StatusMessage::info(text.as_str()));
                            },
                            None => {},
                        }
                        detail.confirm_workflow_id = None;
                    },
                    None => {},
                }
            },
            ConfirmAction::No => {
                self.confirm_modal = None;
            },
            ConfirmAction::Nothing => {},
        }
    }
}


impl App {
    /// `n` is this state with the detail screen of `p` opened.
    pub open spec fn detail_opened(self, n: Self, p: Pipeline) -> bool {
        &&& n.pipeline_detail_screen matches Some(d) && d.pipeline == p && d.loading_workflows && d.workflows@.len() == 0
            && d.jobs@.len() == 0
        &&& n == (App {
            current_screen: Screen::PipelineDetail,
            pipeline_detail_screen: n.pipeline_detail_screen,
            pending_workflow_load: Some(p.id),
            ..self
        })
    }

    /// `n` is this state back on the pipeline list.
    pub open spec fn back_to_list(self, n: Self) -> bool {
        n == (App {
            current_screen: Screen::Pipelines,
            pipeline_detail_screen: None,
            log_modal: None,
            ssh_modal: None,
            ..self
        })
    }

    /// `n` and `e` follow the detail screen's answer `r` to a key.
    pub open spec fn detail_action_step(self, n: Self, r: PipelineDetailAction, e: AppEffect) -> bool {
        match r {
            PipelineDetailAction::Back => e is Nothing && self.back_to_list(n),
            PipelineDetailAction::OpenJobLog(job) => {
                &&& e is Nothing
                &&& n.log_modal matches Some(m) && m.job == job && m.visible && m.is_loading && m.steps@.len() == 0
                &&& n == (App { log_modal: n.log_modal, pending_log_load: Some(job.job_number), ..self })
            },
            PipelineDetailAction::OpenSsh(job) => {
                &&& e is Nothing
                &&& n.ssh_modal matches Some(m) && m.job == job && m.visible
                &&& n == (App { ssh_modal: n.ssh_modal, ..self })
            },
            PipelineDetailAction::LoadMoreJobs => e is Nothing && match self.pipeline_detail_screen {
                Some(d) => if d.workflows@.len() > 0 {
                    n == (App {
                        pipeline_detail_screen: Some(PipelineDetailScreen { loading_more_jobs: true, ..d }),
                        pending_load_more_jobs: Some(d.workflows@[d.selected_workflow_index as int].id),
                        ..self
                    })
                } else {
                    n == self
                },
                None => n == self,
            },
            PipelineDetailAction::LoadJobs(id) => e is Nothing && n == (App {
                pending_job_load: Some(id),
                pipeline_detail_screen: match self.pipeline_detail_screen {
                    Some(d) => Some(PipelineDetailScreen { loading_jobs: true, ..d }),
                    None => None,
                },
                ..self
            }),
            PipelineDetailAction::RerunWorkflow(id) => e is Nothing && self.rerun_asked(n, id@, id),
            PipelineDetailAction::CopyToClipboard(q) => e == AppEffect::CopyToClipboard(q) && n == self,
            _ => e is Nothing && n == self,
        }
    }

    /// Carries out the detail screen's answer to a key.
    fn follow_detail_action(&mut self, r: PipelineDetailAction) -> (e: AppEffect)
        requires
            old(self).wf(),
            r matches PipelineDetailAction::OpenSsh(job) ==> id_cuttable(job.id@),
        ensures
            final(self).wf(),
            old(self).detail_action_step(*final(self), r, e),
    {
        match r {
            PipelineDetailAction::Back => {
                self.navigate_back_to_pipelines();
                AppEffect::Nothing
            },
            PipelineDetailAction::OpenJobLog(job) => {
                self.open_job_log_modal(job);
                AppEffect::Nothing
            },
            PipelineDetailAction::OpenSsh(job) => {
                self.open_ssh_modal(job);
                AppEffect::Nothing
            },
            PipelineDetailAction::LoadMoreJobs => {
                let id = match &self.pipeline_detail_screen {
                    Some(detail) => if detail.workflows.len() > 0 {
                        Some(detail.workflows[detail.selected_workflow_index].id.clone())
                    } else {
                        None
                    },
                    None => None,
                };
                match id {
                    Some(workflow_id) => {
                        match &mut self.pipeline_detail_screen {
                            Some(detail) => {
                                detail.loading_more_jobs = true;
                            },
                            None => {},
                        }
                        self.pending_load_more_jobs = Some(workflow_id);
                    },
                    None => {},
                }
                AppEffect::Nothing
            },
            PipelineDetailAction::LoadJobs(workflow_id) => {
                self.trigger_job_load(workflow_id);
                AppEffect::Nothing
            },
            PipelineDetailAction::RerunWorkflow(workflow_id) => {
                self.ask_rerun(workflow_id);
                AppEffect::Nothing
            },
            PipelineDetailAction::CopyToClipboard(request) => AppEffect::CopyToClipboard(request),
            _ => AppEffect::Nothing,
        }
    }
}


/// What the error popup answers to a key.
pub open spec fn error_action_for(m: ErrorModal, key: KeyCode) -> ErrorAction {
    match key {
        KeyCode::Char('c') | KeyCode::Enter | KeyCode::Esc => ErrorAction::Close,
        KeyCode::Char('r') => if m.retry_offered() { ErrorAction::Retry } else { ErrorAction::Nothing },
        _ => ErrorAction::Nothing,
    }
}

impl App {
    /// Whether `key` can be handled without running out of room, on the
    /// route it takes: 'q', '?', the help popup and the error popup need
    /// nothing; the log popup must accept the key; the SSH and confirm
    /// popups need nothing; on the pipeline list the search text has room
    /// for a character and an open filter dropdown has its focused option;
    /// on the detail screen (but for Esc) the screen accepts the key and
    /// the selected job's id can name its host.
    pub open spec fn accepts_key(self, key: KeyEvent) -> bool {
        if key.code == KeyCode::Char('q') || key.code == KeyCode::Char('?') || self.help_modal is Some
            || self.error_modal is Some {
            true
        } else if self.log_modal is Some {
            self.log_modal matches Some(m) && m.accepts_key(key.code)
        } else if self.ssh_modal is Some || self.confirm_modal is Some {
            true
        } else {
            match self.current_screen {
                Screen::Pipelines => {
                    &&& self.pipeline_screen.search_input.value_view().len() < usize::MAX
                    &&& !self.pipeline_screen.search_focused && self.pipeline_screen.filter_active
                        ==> self.pipeline_screen.faceted_search.accepts_key(key.code)
                },
                Screen::PipelineDetail => key.code == KeyCode::Esc || (self.pipeline_detail_screen matches Some(d)
                    ==> d.accepts_key(key) && (d.selected_job_spec() matches Some(j) ==> id_cuttable(j.id@))),
            }
        }
    }

    /// Whether the pipeline list answers `key` by opening the selected
    /// pipeline.
    pub open spec fn opens_pipeline(self, key: KeyEvent) -> bool {
        let ps = self.pipeline_screen;
        !ps.search_focused && !ps.filter_active && key.code == KeyCode::Enter && ps.selected_index is Some
    }

    /// `n` follows `key` on the pipeline list at `now`; a pipeline opened
    /// there gets its detail screen.
    pub open spec fn pipelines_key_step(self, n: Self, key: KeyEvent, now: i64) -> bool {
        let ps2 = n.pipeline_screen;
        let open = self.opens_pipeline(key);
        &&& self.pipeline_screen.input_step(ps2, key.code, now, open)
        &&& if open && (ps2.selected_index matches Some(i) && i < ps2.filtered_pipelines@.len()) {
            (App { pipeline_screen: ps2, ..self }).detail_opened(
                n,
                ps2.filtered_pipelines@[ps2.selected_index->0 as int],
            )
        } else {
            n == (App { pipeline_screen: ps2, ..self })
        }
    }

    /// `n` and `e` follow `key` at `now`. 'q' quits from anywhere and '?'
    /// opens the help; otherwise the first open popup takes the key (help,
    /// error, log, SSH, confirmation), else the current screen, where Esc
    /// on the detail screen goes back to the list.
    pub open spec fn event_step(self, n: Self, key: KeyEvent, now: i64, e: AppEffect) -> bool {
        if key.code == KeyCode::Char('q') {
            e is Nothing && n == (App { should_quit: true, ..self })
        } else if key.code == KeyCode::Char('?') && self.help_modal is None {
            &&& e is Nothing
            &&& n.help_modal matches Some(h) && h.visible_spec()
            &&& n == (App { help_modal: n.help_modal, ..self })
        } else if self.help_modal is Some {
            &&& e is Nothing
            &&& if key.code == KeyCode::Esc || key.code == KeyCode::Char('?') {
                n == (App { help_modal: None, ..self })
            } else {
                &&& n.help_modal matches Some(h) && h.visible_spec() == self.help_modal->0.visible_spec()
                &&& n == (App { help_modal: n.help_modal, ..self })
            }
        } else if self.error_modal is Some {
            let m = self.error_modal->0;
            &&& e is Nothing
            &&& match error_action_for(m, key.code) {
                ErrorAction::Nothing => {
                    &&& n.error_modal matches Some(m2) && m2.title_view() == m.title_view() && m2.message_view()
                        == m.message_view() && m2.details_view() == m.details_view() && m2.visible_spec()
                        == m.visible_spec() && m2.retry_offered() == m.retry_offered() && m2.expanded() == if key.code
                        == KeyCode::Char('d') && m.details_view() is Some {
                        !m.expanded()
                    } else {
                        m.expanded()
                    }
                    &&& n == (App { error_modal: n.error_modal, ..self })
                },
                _ => n == (App { error_modal: None, ..self }),
            }
        } else if self.log_modal is Some {
            self.log_key_step(n, key, e)
        } else if self.ssh_modal is Some {
            e is Nothing && if key.code == KeyCode::Char('c') || key.code == KeyCode::Enter || key.code == KeyCode::Esc {
                n == (App { ssh_modal: None, ..self })
            } else {
                n == self
            }
        } else if self.confirm_modal is Some {
            e is Nothing && self.confirm_key_step(n, key)
        } else if self.current_screen == Screen::Pipelines {
            e is Nothing && self.pipelines_key_step(n, key, now)
        } else if key.code == KeyCode::Esc {
            e is Nothing && self.back_to_list(n)
        } else {
            match self.pipeline_detail_screen {
                Some(d) => exists|d2: PipelineDetailScreen, r: PipelineDetailAction| #[trigger] d.key_outcome(d2, key, r)
                    && (App { pipeline_detail_screen: Some(d2), ..self }).detail_action_step(n, r, e),
                None => e is Nothing && n == self,
            }
        }
    }

    /// Handles a key at `now` (seconds since the epoch); returns the work
    /// it asks for outside.
    pub fn handle_event_at(&mut self, key: KeyEvent, now: i64) -> (e: AppEffect)
        requires
            old(self).wf(),
            old(self).accepts_key(key),
            now >= MOCK_EARLIEST_NOW,
        ensures
            final(self).wf(),
            old(self).event_step(*final(self), key, now, e),
    {
        if key.code == KeyCode::Char('q') {
            self.should_quit = true;
            return AppEffect::Nothing;
        }
        if key.code == KeyCode::Char('?') && self.help_modal.is_none() {
            self.help_modal = Some(HelpModal::new());
            return AppEffect::Nothing;
        }
        if self.help_modal.is_some() {
            let action = match &mut self.help_modal {
                Some(modal) => modal.handle_input(key),
                None => HelpAction::Nothing,
            };
            match action {
                HelpAction::Close => {
                    self.help_modal = None;
                },
                HelpAction::Nothing => {},
            }
            return AppEffect::Nothing;
        }
        if self.error_modal.is_some() {
            let action = match &mut self.error_modal {
                Some(modal) => modal.handle_input(key),
                None => ErrorAction::Nothing,
            };
            match action {
                ErrorAction::Close => {
                    self.error_modal = None;
                },
                ErrorAction::Retry => {
                    self.error_modal = None;
                },
                ErrorAction::Nothing => {},
            }
            return AppEffect::Nothing;
        }
        if self.log_modal.is_some() {
            return self.handle_log_modal_key(key);
        }
        if self.ssh_modal.is_some() {
            let action = match &mut self.ssh_modal {
                Some(modal) => modal.handle_input(key),
                None => SshAction::Nothing,
            };
            match action {
                SshAction::Close => {
                    self.ssh_modal = None;
                },
                SshAction::Nothing => {},
            }
            return AppEffect::Nothing;
        }
        if self.confirm_modal.is_some() {
            self.handle_confirm_key(key);
            return AppEffect::Nothing;
        }
        match self.current_screen {
            Screen::Pipelines => {
                if self.pipeline_screen.handle_input_at(key, now) {
                    let selected = match self.pipeline_screen.get_selected_pipeline() {
                        Some(p) => Some(p.clone()),
                        None => None,
                    };
                    match selected {
                        Some(pipeline) => self.navigate_to_pipeline_detail(pipeline),
                        None => {},
                    }
                }
                AppEffect::Nothing
            },
            Screen::PipelineDetail => {
                if key.code == KeyCode::Esc {
                    self.navigate_back_to_pipelines();
                    return AppEffect::Nothing;
                }
                let action = match &mut self.pipeline_detail_screen {
                    Some(detail) => detail.handle_input(key),
                    None => return AppEffect::Nothing,
                };
                self.follow_detail_action(action)
            },
        }
    }

    /// Handles a key as of the current time.
    pub fn handle_event(&mut self, key: KeyEvent) -> (e: AppEffect)
        requires
            old(self).wf(),
            old(self).accepts_key(key),
        ensures
            final(self).wf(),
            exists|now: i64| now >= MOCK_EARLIEST_NOW && #[trigger] old(self).event_step(*final(self), key, now, e),
    {
        let t = unix_now();
        let now = if t < MOCK_EARLIEST_NOW { MOCK_EARLIEST_NOW } else { t };
        self.handle_event_at(key, now)
    }
}


/// An error from the API, as its message and its detailed form.
pub struct ApiFailure {
    pub message: String,
    pub details: String,
}

/// Results of background work.
pub enum BgTaskResult {
    /// The steps of the job in the log popup: (name, status) pairs.
    LogStepsDiscovered { steps: Vec<(String, String)> },
    /// The lines of one step.
    LogStepFetched { step_index: usize, logs: Vec<String> },
    /// All steps were fetched.
    LogsComplete { job_number: u32, job_status: Option<String> },
    LogsError(ApiFailure),
    WorkflowsLoaded(Vec<Workflow>),
    WorkflowsError(ApiFailure),
    /// The first page of jobs.
    JobsLoaded { jobs: Vec<Job>, next_page_token: Option<String> },
    JobsError(ApiFailure),
    /// A further page of jobs.
    MoreJobsLoaded { jobs: Vec<Job>, next_page_token: Option<String> },
    MoreJobsError(ApiFailure),
    /// A job's whole log, fetched to copy lines from.
    PowerlineLogsLoaded { job_number: u32, logs: Vec<String>, job_status: Option<String> },
    PowerlineLogsError(ApiFailure),
    /// Writing the failed jobs' report went wrong, with this message.
    FailedJobsLogsReady(String),
    /// The failed jobs' report was written into this folder.
    FailedJobsLogsWrittenToFile(String),
}

/// A log to store in the cache.
pub struct CacheWrite {
    pub job_number: u32,
    pub logs: Vec<String>,
    pub job_status: String,
}

/// The non-empty lines of a log.
pub open spec fn nonempty_lines(ls: Seq<String>) -> Seq<Seq<char>>
    decreases ls.len(),
{
    if ls.len() == 0 {
        seq![]
    } else {
        let rest = nonempty_lines(ls.drop_last());
        if ls.last()@.len() > 0 { rest.push(ls.last()@) } else { rest }
    }
}

/// The log of a job assembled from its steps: each step's name, its
/// non-empty lines and an empty line, with an empty line between steps.
pub open spec fn assembled_log(steps: Seq<LogStep>) -> Seq<Seq<char>>
    decreases steps.len(),
{
    if steps.len() == 0 {
        seq![]
    } else {
        let prev = assembled_log(steps.drop_last());
        let s = steps.last();
        let sep: Seq<Seq<char>> = if steps.len() > 1 { seq![seq![]] } else { seq![] };
        prev + sep + seq![s.name@] + nonempty_lines(s.logs@) + seq![seq![]]
    }
}

/// A copy of some lines.
fn copy_lines(v: &Vec<String>) -> (r: Vec<String>)
    ensures
        r@ == v@,
{
    let mut r: Vec<String> = Vec::new();
    let mut i: usize = 0;
    while i < v.len()
        invariant
            i <= v@.len(),
            r@ == v@.take(i as int),
        decreases v@.len() - i,
    {
        r.push(v[i].clone());
        i = i + 1;
        assert(r@ =~= v@.take(i as int));
    }
    assert(v@.take(i as int) =~= v@);
    r
}

/// Appends the non-empty lines of `logs` to `out`.
fn push_nonempty(out: &mut Vec<String>, logs: &Vec<String>)
    ensures
        strings_view(final(out)@) == strings_view(old(out)@) + nonempty_lines(logs@),
{
    let mut i: usize = 0;
    while i < logs.len()
        invariant
            i <= logs@.len(),
            strings_view(out@) == strings_view(old(out)@) + nonempty_lines(logs@.take(i as int)),
        decreases logs@.len() - i,
    {
        assert(logs@.take(i + 1).drop_last() =~= logs@.take(i as int));
        let ghost before = strings_view(out@);
        if logs[i].as_str().unicode_len() > 0 {
            out.push(logs[i].clone());
            assert(strings_view(out@) =~= before.push(logs@[i as int]@));
        }
        i = i + 1;
    }
    assert(logs@.take(i as int) =~= logs@);
}

/// The log of a job assembled from its steps.
pub fn assemble_log(steps: &Vec<LogStep>) -> (r: Vec<String>)
    ensures
        strings_view(r@) == assembled_log(steps@),
{
    let mut r: Vec<String> = Vec::new();
    let mut i: usize = 0;
    while i < steps.len()
        invariant
            i <= steps@.len(),
            strings_view(r@) == assembled_log(steps@.take(i as int)),
        decreases steps@.len() - i,
    {
        let ghost before = strings_view(r@);
        assert(steps@.take(i + 1).drop_last() =~= steps@.take(i as int));
        let ghost sep: Seq<Seq<char>> = if i > 0 { seq![seq![]] } else { seq![] };
        if i > 0 {
            r.push(String::new());
        }
        assert(strings_view(r@) =~= before + sep);
        r.push(steps[i].name.clone());
        assert(strings_view(r@) =~= before + sep + seq![steps@[i as int].name@]);
        push_nonempty(&mut r, &steps[i].logs);
        let ghost mid = strings_view(r@);
        r.push(String::new());
        assert(strings_view(r@) =~= mid + seq![seq![]]);
        assert(strings_view(r@) =~= before + sep + seq![steps@[i as int].name@] + nonempty_lines(steps@[i as int].logs@)
            + seq![seq![]]);
        i = i + 1;
    }
    assert(steps@.take(i as int) =~= steps@);
    r
}


impl App {
    /// Whether a result can be taken in without running out of room in the
    /// log popup's view.
    pub open spec fn accepts_result(self, result: BgTaskResult) -> bool {
        match result {
            BgTaskResult::LogStepsDiscovered { steps } => steps@.len() <= usize::MAX / 2,
            BgTaskResult::LogStepFetched { logs, .. } => self.log_modal matches Some(m) ==> m.full_rows() + logs@.len()
                <= usize::MAX,
            _ => true,
        }
    }

    /// `n` is this state with the error popup of an API failure shown.
    pub open spec fn failure_shown(self, n: Self, f: ApiFailure) -> bool {
        &&& n.error_modal matches Some(m) && m.title_view() == api_error_title(api_error_kind(f.message@))
            && m.details_view() == Some(api_error_text(api_error_kind(f.message@), f.details@)) && m.retry_offered()
        &&& n == (App { error_modal: n.error_modal, ..self })
    }

    /// `n` is this state once a pipeline's workflows arrived: the detail
    /// screen shows them with the first selected, and the jobs of the first
    /// are asked for.
    pub open spec fn workflows_taken(self, n: Self, ws: Vec<Workflow>) -> bool {
        match self.pipeline_detail_screen {
            Some(d) => {
                &&& n.pipeline_detail_screen == Some(PipelineDetailScreen {
                    workflows: ws,
                    selected_workflow_index: if ws@.len() > 0 { 0 } else { d.selected_workflow_index },
                    loading_workflows: false,
                    loading_jobs: ws@.len() > 0 || d.loading_jobs,
                    ..d
                })
                &&& n.pending_job_load == if ws@.len() > 0 { Some(ws@[0].id) } else { self.pending_job_load }
                &&& n == (App {
                    pipeline_detail_screen: n.pipeline_detail_screen,
                    pending_job_load: n.pending_job_load,
                    is_loading: false,
                    ..self
                })
            },
            None => n == (App { is_loading: false, ..self }),
        }
    }

    /// `n` is this state once the first page of a workflow's jobs arrived:
    /// the detail screen shows them with the first selected.
    pub open spec fn jobs_taken(self, n: Self, jobs: Vec<Job>, next_page_token: Option<String>) -> bool {
        match self.pipeline_detail_screen {
            Some(d) => {
                &&& n.pipeline_detail_screen == Some(PipelineDetailScreen {
                    jobs,
                    next_page_token,
                    total_jobs_count: None,
                    loading_jobs: false,
                    selected_job_index: if jobs@.len() > 0 { Some(0usize) } else { None },
                    ..d
                })
                &&& n == (App { pipeline_detail_screen: n.pipeline_detail_screen, is_loading: false, ..self })
            },
            None => n == (App { is_loading: false, ..self }),
        }
    }

    /// `n` is this state once a further page of jobs arrived: the detail
    /// screen adds them after its jobs, keeping the selection; once there
    /// are no more pages the total is the number of jobs loaded.
    pub open spec fn more_jobs_taken(self, n: Self, jobs: Vec<Job>, next_page_token: Option<String>) -> bool {
        match self.pipeline_detail_screen {
            Some(d) => {
                &&& n.pipeline_detail_screen matches Some(d2) && d2.jobs@ == d.jobs@ + jobs@ && d2 == (PipelineDetailScreen {
                    jobs: d2.jobs,
                    next_page_token,
                    total_jobs_count: if next_page_token is None {
                        Some((d.jobs@.len() + jobs@.len()) as usize)
                    } else {
                        d.total_jobs_count
                    },
                    loading_more_jobs: false,
                    ..d
                })
                &&& n == (App { pipeline_detail_screen: n.pipeline_detail_screen, ..self })
            },
            None => n == self,
        }
    }

    /// Shows a pipeline's workflows.
    fn take_workflows(&mut self, workflows: Vec<Workflow>)
        requires
            old(self).wf(),
        ensures
            final(self).wf(),
            old(self).workflows_taken(*final(self), workflows),
    {
        let first = if workflows.len() > 0 { Some(workflows[0].id.clone()) } else { None };
        match &mut self.pipeline_detail_screen {
            Some(detail) => {
                detail.set_workflows(workflows);
                detail.loading_workflows = false;
                match first {
                    Some(id) => {
                        detail.loading_jobs = true;
                        self.pending_job_load = Some(id);
                    },
                    None => {},
                }
            },
            None => {},
        }
        self.is_loading = false;
    }

    /// Shows the first page of a workflow's jobs.
    fn take_jobs(&mut self, jobs: Vec<Job>, next_page_token: Option<String>)
        requires
            old(self).wf(),
        ensures
            final(self).wf(),
            old(self).jobs_taken(*final(self), jobs, next_page_token),
    {
        match &mut self.pipeline_detail_screen {
            Some(detail) => {
                detail.set_jobs_with_pagination(jobs, next_page_token, None);
                detail.loading_jobs = false;
            },
            None => {},
        }
        self.is_loading = false;
    }

    /// Adds a further page of jobs.
    fn take_more_jobs(&mut self, jobs: Vec<Job>, next_page_token: Option<String>)
        requires
            old(self).wf(),
        ensures
            final(self).wf(),
            old(self).more_jobs_taken(*final(self), jobs, next_page_token),
    {
        match &mut self.pipeline_detail_screen {
            Some(detail) => {
                detail.append_jobs(jobs, next_page_token);
                detail.loading_more_jobs = false;
            },
            None => {},
        }
    }

    /// Takes in the result of background work; returns a log to store in
    /// the cache when the result gives a finished job's whole log.
    #[verifier::rlimit(30)]
    #[verifier::spinoff_prover]
    pub fn process_bg_result(&mut self, result: BgTaskResult) -> (w: Option<CacheWrite>)
        requires
            old(self).wf(),
            old(self).accepts_result(result),
        ensures
            final(self).wf(),
            result matches BgTaskResult::LogStepsDiscovered { steps } ==> (w is None && match old(self).log_modal {
                    Some(m) => final(self).log_modal matches Some(m2) && m.steps_discovered_to(m2, steps@)
                        && *final(self) == (App { log_modal: final(self).log_modal, ..*old(self) }),
                    None => *final(self) == *old(self),
                }),
            result matches BgTaskResult::LogStepFetched { step_index, logs } ==> (w is None && match old(self).log_modal {
                    Some(m) => final(self).log_modal matches Some(m2) && m.step_logs_filled_to(m2, step_index, logs)
                        && *final(self) == (App { log_modal: final(self).log_modal, ..*old(self) }),
                    None => *final(self) == *old(self),
                }),
            result matches BgTaskResult::LogsComplete { job_number, job_status } ==> ({
                    &&& match (job_status, old(self).log_modal) {
                        (Some(st), Some(m)) => if st@ != "running"@ {
                            w matches Some(c) && c.job_number == job_number && c.job_status == st && strings_view(c.logs@)
                                == assembled_log(m.steps@)
                        } else {
                            w is None
                        },
                        _ => w is None,
                    }
                    &&& match old(self).log_modal {
                        Some(m) => final(self).log_modal matches Some(m2) && m.loading_completed_to(m2) && *final(self)
                            == (App { log_modal: final(self).log_modal, ..*old(self) }),
                        None => *final(self) == *old(self),
                    }
                }),
            result matches BgTaskResult::WorkflowsLoaded(ws) ==> (w is None && old(self).workflows_taken(*final(self), ws)),
            result matches BgTaskResult::JobsLoaded { jobs, next_page_token } ==> (w is None && old(self).jobs_taken(
                *final(self),
                jobs,
                next_page_token,
            )),
            result matches BgTaskResult::MoreJobsLoaded { jobs, next_page_token } ==> (w is None
                && old(self).more_jobs_taken(*final(self), jobs, next_page_token)),
            result matches BgTaskResult::PowerlineLogsLoaded { job_number, logs, job_status } ==> ({
                    &&& match job_status {
                        Some(st) => if st@ != "running"@ {
                            w matches Some(c) && c.job_number == job_number && c.job_status == st && c.logs@ == logs@
                        } else {
                            w is None
                        },
                        None => w is None,
                    }
                    &&& match old(self).pipeline_detail_screen {
                        Some(d) => final(self).pipeline_detail_screen matches Some(d2) && d2.log_cache@ == d.log_cache@.insert(
                            job_number,
                            logs,
                        ) && d2.pending_log_fetch is None && *final(self) == (App {
                            pipeline_detail_screen: final(self).pipeline_detail_screen,
                            ..*old(self)
                        }),
                        None => *final(self) == *old(self),
                    }
                }),
            result matches BgTaskResult::LogsError(f) ==> (w is None && old(self).failure_shown(*final(self), f)),
            result matches BgTaskResult::PowerlineLogsError(f) ==> (w is None && old(self).failure_shown(*final(self), f)),
            result matches BgTaskResult::WorkflowsError(f) ==> (w is None && (App {
                    is_loading: false,
                    pipeline_detail_screen: match old(self).pipeline_detail_screen {
                        Some(d) => Some(PipelineDetailScreen { loading_workflows: false, ..d }),
                        None => None,
                    },
                    ..*old(self)
                }).failure_shown(*final(self), f)),
            result matches BgTaskResult::JobsError(f) ==> (w is None && (App {
                    is_loading: false,
                    pipeline_detail_screen: match old(self).pipeline_detail_screen {
                        Some(d) => Some(PipelineDetailScreen { loading_jobs: false, ..d }),
                        None => None,
                    },
                    ..*old(self)
                }).failure_shown(*final(self), f)),
            result matches BgTaskResult::MoreJobsError(f) ==> (w is None && (App {
                    pipeline_detail_screen: match old(self).pipeline_detail_screen {
                        Some(d) => Some(PipelineDetailScreen { loading_more_jobs: false, ..d }),
                        None => None,
                    },
                    ..*old(self)
                }).failure_shown(*final(self), f)),
            result matches BgTaskResult::FailedJobsLogsReady(err) ==> ({
                    &&& w is None
                    &&& final(self).status_message matches Some(sm) && sm.text_view() == err@
                    &&& *final(self) == (App { status_message: final(self).status_message, is_fetching: false, ..*old(self) })
                }),
            result matches BgTaskResult::FailedJobsLogsWrittenToFile(folder) ==> ({
                    &&& w is None
                    &&& final(self).status_message matches Some(sm) && sm.text_view() == "Saved to "@ + folder@
                        + "/summary.md"@
                    &&& *final(self) == (App { status_message: final(self).status_message, is_fetching: false, ..*old(self) })
                }),
    {
        match result {
            BgTaskResult::LogStepsDiscovered { steps } => {
                match &mut self.log_modal {
                    Some(modal) => modal.set_steps(steps),
                    None => {},
                }
                None
            },
            BgTaskResult::LogStepFetched { step_index, logs } => {
                match &mut self.log_modal {
                    Some(modal) => modal.set_step_logs(step_index, logs),
                    None => {},
                }
                None
            },
            BgTaskResult::LogsComplete { job_number, job_status } => {
                let write = match (&job_status, &self.log_modal) {
                    (Some(status), Some(modal)) => if !str_eq(status.as_str(), "running") {
                        Some(CacheWrite { job_number, logs: assemble_log(modal.steps_ref()), job_status: status.clone() })
                    } else {
                        None
                    },
                    _ => None,
                };
                match &mut self.log_modal {
                    Some(modal) => modal.mark_loading_complete(),
                    None => {},
                }
                write
            },
            BgTaskResult::LogsError(f) => {
                self.show_api_error(f.message.as_str(), f.details.as_str());
                None
            },
            BgTaskResult::WorkflowsLoaded(workflows) => {
                self.take_workflows(workflows);
                None
            },
            BgTaskResult::WorkflowsError(f) => {
                match &mut self.pipeline_detail_screen {
                    Some(detail) => {
                        detail.loading_workflows = false;
                    },
                    None => {},
                }
                self.is_loading = false;
                self.show_api_error(f.message.as_str(), f.details.as_str());
                None
            },
            BgTaskResult::JobsLoaded { jobs, next_page_token } => {
                self.take_jobs(jobs, next_page_token);
                None
            },
            BgTaskResult::JobsError(f) => {
                match &mut self.pipeline_detail_screen {
                    Some(detail) => {
                        detail.loading_jobs = false;
                    },
                    None => {},
                }
                self.is_loading = false;
                self.show_api_error(f.message.as_str(), f.details.as_str());
                None
            },
            BgTaskResult::MoreJobsLoaded { jobs, next_page_token } => {
                self.take_more_jobs(jobs, next_page_token);
                None
            },
            BgTaskResult::MoreJobsError(f) => {
                match &mut self.pipeline_detail_screen {
                    Some(detail) => {
                        detail.loading_more_jobs = false;
                    },
                    None => {},
                }
                self.show_api_error(f.message.as_str(), f.details.as_str());
                None
            },
            BgTaskResult::PowerlineLogsLoaded { job_number, logs, job_status } => {
                let write = match &job_status {
                    Some(status) => if !str_eq(status.as_str(), "running") {
                        Some(CacheWrite { job_number, logs: copy_lines(&logs), job_status: status.clone() })
                    } else {
                        None
                    },
                    None => None,
                };
                match &mut self.pipeline_detail_screen {
                    Some(detail) => detail.set_logs_for_job(job_number, logs),
                    None => {},
                }
                write
            },
            BgTaskResult::PowerlineLogsError(f) => {
                self.show_api_error(f.message.as_str(), f.details.as_str());
                None
            },
            BgTaskResult::FailedJobsLogsReady(err) => {
                self.is_fetching = false;
                self.status_message = Some(StatusMessage::error(err.as_str()));
                None
            },
            BgTaskResult::FailedJobsLogsWrittenToFile(folder) => {
                self.is_fetching = false;
                let a = concat("Saved to ", folder.as_str());
                let text = concat(a.as_str(), "/summary.md");
                self.status_message = Some(StatusMessage::info(text.as_str()));
                None
            },
        }
    }

    /// Moves the fetch spinner on while a long fetch runs, showing its frame
    /// and message as the status message.
    pub fn tick_fetch_spinner(&mut self)
        requires
            old(self).wf(),
        ensures
            final(self).wf(),
            !old(self).is_fetching ==> *final(self) == *old(self),
            final(self).fetch_spinner.message_view() == old(self).fetch_spinner.message_view(),
            final(self).fetch_spinner.frame() == old(self).fetch_spinner.frame() ==> final(self).status_message
                == old(self).status_message,
            final(self).fetch_spinner.frame() != old(self).fetch_spinner.frame() ==> {
                &&& final(self).fetch_spinner.frame() == (old(self).fetch_spinner.frame() + 1) % (
                SPINNER_FRAME_COUNT as nat)
                &&& final(self).status_message matches Some(sm) && sm.text_view() == frame_of(
                    final(self).fetch_spinner.frame(),
                ) + " "@ + final(self).fetch_spinner.message_view() && sm.level_spec() == MessageLevel::Info
                    && sm.duration() == DEFAULT_MESSAGE_MS
            },
            *final(self) == (App {
                fetch_spinner: final(self).fetch_spinner,
                status_message: final(self).status_message,
                ..*old(self)
            }),
    {
        if self.is_fetching {
            if self.fetch_spinner.tick() {
                let a = concat(self.fetch_spinner.current_frame(), " ");
                let text = concat(a.as_str(), self.fetch_spinner.message());
                self.status_message = Some(StatusMessage::info(text.as_str()));
            }
        }
    }
}


/// Fetching ahead to do after the job selection moved.
pub struct PrefetchPlan {
    /// Fetches to stop.
    pub cancel: Vec<u32>,
    /// Jobs around the selection, whose logs to fetch.
    pub visible: Vec<u32>,
    /// The loaded jobs, for their statuses.
    pub jobs: Vec<Job>,
}

/// A copy of a list of job numbers.
fn copy_numbers(v: &Vec<u32>) -> (r: Vec<u32>)
    ensures
        r@ == v@,
{
    let mut r: Vec<u32> = Vec::new();
    let mut i: usize = 0;
    while i < v.len()
        invariant
            i <= v@.len(),
            r@ == v@.take(i as int),
        decreases v@.len() - i,
    {
        r.push(v[i]);
        i = i + 1;
        assert(r@ =~= v@.take(i as int));
    }
    assert(v@.take(i as int) =~= v@);
    r
}

/// A copy of a list of jobs.
fn copy_jobs(v: &Vec<Job>) -> (r: Vec<Job>)
    ensures
        r@ == v@,
{
    let mut r: Vec<Job> = Vec::new();
    let mut i: usize = 0;
    while i < v.len()
        invariant
            i <= v@.len(),
            r@ == v@.take(i as int),
        decreases v@.len() - i,
    {
        r.push(v[i].clone());
        i = i + 1;
        assert(r@ =~= v@.take(i as int));
    }
    assert(v@.take(i as int) =~= v@);
    r
}

/// The signed-in user as cached in the preferences: login and name.
pub open spec fn cached_identity_of(p: UserPreferences) -> (Option<String>, Option<String>) {
    match p.user {
        Some(u) => (Some(u.login), u.name),
        None => (None, None),
    }
}

impl App {
    /// Plans fetching ahead around the selected job: the jobs around it,
    /// those fetched for before that are no longer around it, and the
    /// loaded jobs; the jobs around it are remembered for next time.
    pub fn trigger_prefetch(&mut self, viewport_height: u16) -> (r: Option<PrefetchPlan>)
        requires
            old(self).wf(),
            old(self).pipeline_detail_screen matches Some(d) ==> d.prefetch_window_ok(),
        ensures
            final(self).wf(),
            old(self).pipeline_detail_screen is None ==> r is None && *final(self) == *old(self),
            old(self).pipeline_detail_screen matches Some(d) ==> {
                let visible = d.filtered().subrange(d.prefetch_start(), d.prefetch_end()).map_values(|j: Job| j.job_number);
                &&& r matches Some(plan) && plan.visible@ == visible && plan.jobs@ == d.jobs@
                    && plan.cancel@ == d.previous_visible_jobs@.filter(|n: u32| !visible.contains(n))
                &&& final(self).pipeline_detail_screen matches Some(d2) && d2.previous_visible_jobs@ == visible
                    && d2 == (PipelineDetailScreen { previous_visible_jobs: d2.previous_visible_jobs, ..d })
                &&& *final(self) == (App { pipeline_detail_screen: final(self).pipeline_detail_screen, ..*old(self) })
            },
    {
        let plan = match &self.pipeline_detail_screen {
            Some(detail) => {
                let visible = detail.get_visible_job_numbers(viewport_height);
                let jobs = copy_jobs(&detail.jobs);
                let cancel = crate::cache::prefetch::jobs_to_cancel(&detail.previous_visible_jobs, &visible);
                PrefetchPlan { cancel, visible, jobs }
            },
            None => return None,
        };
        match &mut self.pipeline_detail_screen {
            Some(detail) => {
                detail.previous_visible_jobs = copy_numbers(&plan.visible);
            },
            None => {},
        }
        Some(plan)
    }

    /// The signed-in user as cached in the preferences.
    pub fn cached_identity(prefs: &PreferencesManager) -> (r: (Option<String>, Option<String>))
        ensures
            r == cached_identity_of(prefs.prefs()),
    {
        match &prefs.get_preferences().user {
            Some(u) => (Some(u.login.clone()), crate::api::models::clone_opt_string(&u.name)),
            None => (None, None),
        }
    }

    /// The signed-in user after asking the API at `now`: a user fetched is
    /// cached and used; after a failure the cached one is used.
    pub fn identity_after_fetch(
        prefs: &mut PreferencesManager,
        fetched: Result<(String, Option<String>), String>,
        now: i64,
    ) -> (r: (Option<String>, Option<String>))
        ensures
            match fetched {
                Ok((login, name)) => r == (Some(login), name) && final(prefs).prefs() == (UserPreferences {
                    user: Some(crate::preferences::CachedUser { login, name, cached_at: now }),
                    ..old(prefs).prefs()
                }),
                Err(_) => r == cached_identity_of(old(prefs).prefs()) && final(prefs).prefs() == old(prefs).prefs(),
            },
    {
        match fetched {
            Ok((login, name)) => {
                let l = login.clone();
                let n = crate::api::models::clone_opt_string(&name);
                prefs.update_user_cache_at(login, name, now);
                (Some(l), n)
            },
            Err(_) => Self::cached_identity(prefs),
        }
    }

    /// The application at start, at `now`: on a first run the owner filter
    /// starts at "Mine" and the first run is over; the pipeline list takes
    /// the saved filters, with the checked-out branch, when there is one,
    /// in place of the saved branch.
    pub fn from_parts(
        mut preferences: PreferencesManager,
        authenticated_user: Option<String>,
        authenticated_user_name: Option<String>,
        git_branch: Option<String>,
        now: i64,
    ) -> (r: App)
        requires
            now >= MOCK_EARLIEST_NOW,
            preferences.prefs().pipeline_filters.search_text@.len() <= usize::MAX,
        ensures
            r.wf(),
            r.current_screen == Screen::Pipelines,
            !r.should_quit && !r.is_loading && !r.is_fetching,
            r.pipeline_detail_screen is None && r.log_modal is None && r.error_modal is None,
            r.help_modal is None && r.ssh_modal is None && r.confirm_modal is None,
            r.status_message is None,
            r.pending_workflow_load is None && r.pending_job_load is None && r.pending_log_load is None
                && r.pending_load_more_jobs is None,
            !r.preferences.prefs().first_run,
            r.preferences.prefs().pipeline_filters.owner_index == if preferences.prefs().first_run {
                1
            } else {
                preferences.prefs().pipeline_filters.owner_index
            },
            r.pipeline_screen.authenticated_user == authenticated_user,
            r.pipeline_screen.authenticated_user_name == authenticated_user_name,
            r.pipeline_screen.search_input.value_view() == preferences.prefs().pipeline_filters.search_text@,
            match git_branch {
                Some(b) => r.pipeline_screen.filter_option(1) == b@,
                None => match preferences.prefs().pipeline_filters.branch {
                    Some(b) => r.pipeline_screen.filter_option(1) == b@,
                    None => r.pipeline_screen.filter_option(1) == "All"@,
                },
            },
    {
        if preferences.get_preferences().first_run {
            let mut filters = preferences.get_preferences().pipeline_filters.clone();
            filters.owner_index = 1;
            preferences.set_pipeline_filters(filters);
            preferences.clear_first_run();
        }
        let mut filter_prefs = preferences.get_preferences().pipeline_filters.clone();
        let branch = match git_branch {
            Some(b) => Some(b),
            None => crate::api::models::clone_opt_string(&filter_prefs.branch),
        };
        filter_prefs.branch = branch;
        let pipeline_screen = PipelineScreen::with_preferences_at(
            &filter_prefs,
            authenticated_user,
            authenticated_user_name,
            now,
        );
        App {
            current_screen: Screen::Pipelines,
            pipeline_screen,
            pipeline_detail_screen: None,
            log_modal: None,
            should_quit: false,
            is_loading: false,
            confirm_modal: None,
            error_modal: None,
            help_modal: None,
            ssh_modal: None,
            status_message: None,
            pending_workflow_load: None,
            pending_job_load: None,
            pending_log_load: None,
            pending_load_more_jobs: None,
            preferences,
            fetch_spinner: Spinner::new("Fetching..."),
            is_fetching: false,
        }
    }
}

} // verus!
