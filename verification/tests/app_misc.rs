use circleci_tui_rs::api::client::{
    read_pipeline_page, wants_next_page, CircleCIClient, RawPipeline, RawPipelinePage, DEFAULT_BASE_URL,
};
use circleci_tui_rs::api::error::ApiError;
use circleci_tui_rs::api::mock_data::mock_pipelines_at;
use circleci_tui_rs::api::models::{ExecutorInfo, Job, JobStep, Pipeline, StepAction, TriggerInfo, VcsInfo, Workflow};
use circleci_tui_rs::application::{ApiFailure, App, AppEffect, BgTaskResult, Screen};
use circleci_tui_rs::cache::log_cache::{split_lines, CacheStatus, LogCacheManager};
use circleci_tui_rs::cache::prefetch::{jobs_to_cancel, may_use_cache, plan_prefetch, should_prefetch};
use circleci_tui_rs::config::Config;
use circleci_tui_rs::git::remote_branch_name;
use circleci_tui_rs::keys::{KeyCode, KeyEvent};
use circleci_tui_rs::preferences::{CachedUser, PipelineDetailFilterPrefs, PreferencesManager, UserPreferences};
use circleci_tui_rs::report::{
    failed_action_output_url, full_log_content, job_report, log_lines_from_fetch, replace_slashes, reproduce_command,
    run_dir_name, strip_ansi_codes, summary_content,
};
use circleci_tui_rs::text::truncate_string;
use circleci_tui_rs::theme::{
    get_status_color, get_status_icon, BLOCKED, CANCELED, FAILED, PENDING, RUNNING, SUCCESS,
};
use circleci_tui_rs::widgets::log_modal::{LogModal, ModalAction};
use circleci_tui_rs::widgets::ssh_modal::{SshAction, SshModal};

const NOW: i64 = 1_700_000_000;
const HOUR: i64 = 3600;

fn s(v: &str) -> String {
    v.to_string()
}

fn create_test_app() -> App {
    App::from_parts(PreferencesManager::from_preferences(UserPreferences::default()), None, None, None, NOW)
}

fn create_test_pipeline() -> Pipeline {
    Pipeline {
        id: s("test-pipeline-id"),
        number: 123,
        state: s("success"),
        created_at: NOW,
        updated_at: NOW,
        vcs: VcsInfo {
            branch: s("main"),
            revision: s("abc123"),
            commit_subject: s("Test commit"),
            commit_author_name: s("Test Author"),
            commit_timestamp: NOW,
        },
        trigger: TriggerInfo { trigger_type: s("webhook") },
        project_slug: s("gh/test/repo"),
    }
}

fn create_test_job() -> Job {
    Job {
        id: s("test-job-id"),
        name: s("test-job"),
        status: s("success"),
        job_number: 456,
        workflow_id: s("test-workflow-id"),
        started_at: Some(NOW),
        stopped_at: Some(NOW),
        duration: Some(60),
        executor: ExecutorInfo { executor_type: s("docker") },
    }
}

fn log_modal_job() -> Job {
    Job {
        id: s("test-job-1"),
        name: s("test-job"),
        status: s("failed"),
        job_number: 123,
        workflow_id: s("test-workflow"),
        started_at: Some(NOW - 300),
        stopped_at: Some(NOW - 180),
        duration: Some(135),
        executor: ExecutorInfo { executor_type: s("docker") },
    }
}

fn ssh_job() -> Job {
    Job {
        id: s("test-job-id-12345"),
        name: s("test-job"),
        status: s("success"),
        job_number: 123,
        workflow_id: s("test-workflow-id"),
        started_at: Some(NOW),
        stopped_at: Some(NOW),
        duration: Some(60),
        executor: ExecutorInfo { executor_type: s("docker") },
    }
}

fn key(c: KeyCode) -> KeyEvent {
    KeyEvent::from(c)
}

// ---- application ----

#[test]
fn test_app_creation() {
    let app = create_test_app();
    assert!(matches!(app.current_screen, Screen::Pipelines));
    assert!(!app.should_quit);
    assert!(app.pipeline_detail_screen.is_none());
    assert!(app.log_modal.is_none());
    assert!(app.error_modal.is_none());
}

#[test]
fn test_navigation_to_pipeline_detail() {
    let mut app = create_test_app();
    let pipeline = create_test_pipeline();

    app.navigate_to_pipeline_detail(pipeline.clone());
    assert!(matches!(app.current_screen, Screen::PipelineDetail));
    assert!(app.pipeline_detail_screen.is_some());
    assert!(app.log_modal.is_none());

    app.navigate_back_to_pipelines();
    assert!(matches!(app.current_screen, Screen::Pipelines));
    assert!(app.pipeline_detail_screen.is_none());
    assert!(app.log_modal.is_none());
}

#[test]
fn navigation_to_detail_applies_saved_filters() {
    let mut prefs = UserPreferences::default();
    prefs.detail_filters = PipelineDetailFilterPrefs { status_index: 2, duration_index: 40 };
    let mut app = App::from_parts(PreferencesManager::from_preferences(prefs), None, None, None, NOW);
    app.navigate_to_pipeline_detail(create_test_pipeline());
    let detail = app.pipeline_detail_screen.as_ref().unwrap();
    assert_eq!(
        detail.get_filter_preferences(),
        PipelineDetailFilterPrefs { status_index: 2, duration_index: 0 }
    );
}

#[test]
fn test_log_modal_operations() {
    let mut app = create_test_app();
    let job = create_test_job();

    app.open_job_log_modal(job.clone());
    assert!(app.log_modal.is_some());
    assert!(matches!(app.current_screen, Screen::Pipelines));

    app.close_log_modal();
    assert!(app.log_modal.is_none());
}

#[test]
fn test_navigation_closes_modal() {
    let mut app = create_test_app();
    let pipeline = create_test_pipeline();
    let job = create_test_job();

    app.navigate_to_pipeline_detail(pipeline);
    app.open_job_log_modal(job);
    assert!(app.log_modal.is_some());

    app.navigate_back_to_pipelines();
    assert!(app.log_modal.is_none());
}

#[test]
fn test_two_screen_architecture() {
    let mut app = create_test_app();
    let pipeline = create_test_pipeline();

    assert!(matches!(app.current_screen, Screen::Pipelines));

    app.navigate_to_pipeline_detail(pipeline.clone());
    assert!(matches!(app.current_screen, Screen::PipelineDetail));
    assert!(app.pipeline_detail_screen.is_some());

    app.navigate_back_to_pipelines();
    assert!(matches!(app.current_screen, Screen::Pipelines));
}

#[test]
fn test_error_modal_operations() {
    let mut app = create_test_app();

    app.show_error("Test Error", "Something went wrong");
    assert!(app.error_modal.is_some());

    app.error_modal = None;
    assert!(app.error_modal.is_none());
}

#[test]
fn app_test_error_modal_with_details() {
    let mut app = create_test_app();

    app.show_error_with_details("API Error", "Request failed", "Details here");
    assert!(app.error_modal.is_some());
    if let Some(modal) = &app.error_modal {
        assert!(modal.is_visible());
    }
}

#[test]
fn app_first_run_starts_with_own_pipelines() {
    let app = create_test_app();
    assert!(!app.preferences.get_preferences().first_run);
    assert_eq!(app.preferences.get_preferences().pipeline_filters.owner_index, 1);
}

#[test]
fn app_quits_on_q() {
    let mut app = create_test_app();
    let e = app.handle_event_at(key(KeyCode::Char('q')), NOW);
    assert!(matches!(e, AppEffect::Nothing));
    assert!(app.should_quit);
}

#[test]
fn app_help_opens_and_closes() {
    let mut app = create_test_app();
    app.handle_event_at(key(KeyCode::Char('?')), NOW);
    assert!(app.help_modal.is_some());
    app.handle_event_at(key(KeyCode::Esc), NOW);
    assert!(app.help_modal.is_none());
    assert!(!app.should_quit);
}

#[test]
fn app_escape_leaves_detail_screen() {
    let mut app = create_test_app();
    app.navigate_to_pipeline_detail(create_test_pipeline());
    app.handle_event_at(key(KeyCode::Esc), NOW);
    assert!(matches!(app.current_screen, Screen::Pipelines));
    assert!(app.pipeline_detail_screen.is_none());
}

#[test]
fn app_error_modal_closes_on_escape() {
    let mut app = create_test_app();
    app.show_error("Oops", "It broke");
    app.handle_event_at(key(KeyCode::Esc), NOW);
    assert!(app.error_modal.is_none());
}

#[test]
fn app_api_error_is_classified_by_message() {
    let mut app = create_test_app();
    app.show_api_error("HTTP error 404: Not Found", "GET /pipeline");
    let m = app.error_modal.as_ref().unwrap();
    assert_eq!(m.title(), "Not Found");
    assert_eq!(m.error_message(), "The requested resource was not found");
    let details = m.details().unwrap();
    assert!(details.starts_with("The requested resource was not found\n\nWhat to try:\n  • "));
    assert!(details.ends_with("\n\nTechnical details:\nGET /pipeline"));
    assert!(m.can_retry());

    app.show_api_error("Request timeout", "");
    assert_eq!(app.error_modal.as_ref().unwrap().title(), "Timeout Error");
    app.show_api_error("something odd", "");
    assert_eq!(app.error_modal.as_ref().unwrap().title(), "API Error");
    app.show_api_error("HTTP error 429: rate limit", "");
    assert_eq!(app.error_modal.as_ref().unwrap().title(), "Rate Limited");
}

#[test]
fn app_workflow_error_shows_popup() {
    let mut app = create_test_app();
    app.navigate_to_pipeline_detail(create_test_pipeline());
    let w = app.process_bg_result(BgTaskResult::WorkflowsError(ApiFailure {
        message: s("HTTP error 403: Forbidden"),
        details: s("no access"),
    }));
    assert!(w.is_none());
    assert_eq!(app.error_modal.as_ref().unwrap().title(), "Permission Denied");
}

#[test]
fn app_finished_log_goes_to_cache() {
    let mut app = create_test_app();
    app.open_job_log_modal(log_modal_job());
    assert!(app.process_bg_result(BgTaskResult::LogStepsDiscovered {
        steps: vec![(s("Checkout"), s("success")), (s("Test"), s("failed"))],
    })
    .is_none());
    assert!(app.process_bg_result(BgTaskResult::LogStepFetched { step_index: 1, logs: vec![s("boom")] }).is_none());
    let w = app.process_bg_result(BgTaskResult::LogsComplete { job_number: 123, job_status: Some(s("failed")) });
    let w = w.unwrap();
    assert_eq!(w.job_number, 123);
    assert_eq!(w.job_status, "failed");
    assert!(w.logs.contains(&s("boom")));
}

#[test]
fn app_running_log_is_not_cached() {
    let mut app = create_test_app();
    app.open_job_log_modal(log_modal_job());
    let w = app.process_bg_result(BgTaskResult::LogsComplete { job_number: 123, job_status: Some(s("running")) });
    assert!(w.is_none());
}

// ---- config ----

#[test]
fn test_config_creation() {
    let config = Config { circle_token: s("test_token"), project_slug: s("gh/owner/repo") };
    assert_eq!(config.circle_token, "test_token");
    assert_eq!(config.project_slug, "gh/owner/repo");
}

#[test]
fn test_config_clone() {
    let config = Config { circle_token: s("test_token"), project_slug: s("gh/owner/repo") };
    let cloned = config.clone();
    assert_eq!(config.circle_token, cloned.circle_token);
    assert_eq!(config.project_slug, cloned.project_slug);
}

#[test]
fn config_needs_token_and_slug() {
    let ok = Config::from_values(Some(s("tok")), Some(s("gh/a/b"))).unwrap();
    assert_eq!(ok.circle_token, "tok");
    assert_eq!(ok.project_slug, "gh/a/b");
    assert!(Config::from_values(None, Some(s("gh/a/b"))).is_err());
    assert!(Config::from_values(Some(s("tok")), None).is_err());
}

// ---- theme ----

#[test]
fn test_get_status_icon() {
    assert_eq!(get_status_icon("success"), "✓");
    assert_eq!(get_status_icon("failed"), "✗");
    assert_eq!(get_status_icon("running"), "●");
    assert_eq!(get_status_icon("blocked"), "◆");
    assert_eq!(get_status_icon("pending"), "○");
    assert_eq!(get_status_icon("canceled"), "◌");
    assert_eq!(get_status_icon("unknown"), "?");
}

#[test]
fn test_get_status_color_success() {
    assert_eq!(get_status_color("success"), SUCCESS);
    assert_eq!(get_status_color("passed"), SUCCESS);
    assert_eq!(get_status_color("successful"), SUCCESS);
}

#[test]
fn test_get_status_color_failed() {
    assert_eq!(get_status_color("failed"), FAILED);
    assert_eq!(get_status_color("error"), FAILED);
    assert_eq!(get_status_color("failure"), FAILED);
}

#[test]
fn test_get_status_color_running() {
    assert_eq!(get_status_color("running"), RUNNING);
    assert_eq!(get_status_color("in_progress"), RUNNING);
    assert_eq!(get_status_color("in-progress"), RUNNING);
}

#[test]
fn test_get_status_color_case_insensitive() {
    assert_eq!(get_status_color("SUCCESS"), SUCCESS);
    assert_eq!(get_status_color("Failed"), FAILED);
    assert_eq!(get_status_color("RUNNING"), RUNNING);
}

#[test]
fn test_status_icons() {
    assert_eq!(get_status_icon("running"), "●");
    assert_eq!(get_status_icon("success"), "✓");
    assert_eq!(get_status_icon("failed"), "✗");
    assert_eq!(get_status_icon("blocked"), "◆");
    assert_eq!(get_status_icon("pending"), "○");
}

#[test]
fn test_status_colors() {
    assert_eq!(get_status_color("running"), RUNNING);
    assert_eq!(get_status_color("success"), SUCCESS);
    assert_eq!(get_status_color("failed"), FAILED);
    assert_eq!(get_status_color("blocked"), BLOCKED);
    assert_eq!(get_status_color("pending"), PENDING);
}

#[test]
fn theme_other_statuses() {
    assert_eq!(get_status_color("cancelled"), CANCELED);
    assert_eq!(get_status_icon("Canceled"), "◌");
    assert_eq!(get_status_icon("on_hold"), "◆");
    assert_eq!(get_status_icon("whatever"), "?");
}

// ---- truncation ----

#[test]
fn test_truncate_string_no_truncation() {
    assert_eq!(truncate_string("short", 10), "short");
}

#[test]
fn test_truncate_string_with_truncation() {
    assert_eq!(truncate_string("this is a very long string", 10), "this is...");
}

#[test]
fn test_truncate_string_edge_cases() {
    assert_eq!(truncate_string("hello", 3), "...");
    assert_eq!(truncate_string("", 10), "");
}

#[test]
fn workflow_test_truncate_string() {
    assert_eq!(truncate_string("short", 10), "short");
    assert_eq!(truncate_string("this is a very long string", 10), "this is...");
    assert_eq!(truncate_string("exact", 5), "exact");
}

#[test]
fn job_item_test_truncate_string() {
    assert_eq!(truncate_string("short", 10), "short");
    assert_eq!(truncate_string("this is a very long job name", 10), "this is...");
}

// ---- preferences ----

#[test]
fn test_default_preferences() {
    let prefs = UserPreferences::default();
    assert_eq!(prefs.version, 1);
    assert!(prefs.user.is_none());
    assert!(prefs.first_run);
    assert_eq!(prefs.pipeline_filters.owner_index, 0);
    assert_eq!(prefs.pipeline_filters.branch, None);
    assert_eq!(prefs.pipeline_filters.search_text, "");
}

#[test]
fn test_cached_user_creation() {
    let user = CachedUser::new(s("testuser"), Some(s("Test User")));
    assert_eq!(user.login, "testuser");
    assert_eq!(user.name, Some(s("Test User")));
    assert!(!user.is_stale());
}

#[test]
fn test_cached_user_staleness() {
    let mut user = CachedUser::new_at(s("testuser"), None, NOW);
    assert!(!user.is_stale_at(NOW));

    user.cached_at = NOW - 25 * HOUR;
    assert!(user.is_stale_at(NOW));

    user.cached_at = NOW - 23 * HOUR;
    assert!(!user.is_stale_at(NOW));
}

#[test]
fn test_preferences_manager_user_cache() {
    let mut manager = PreferencesManager::from_preferences(UserPreferences::default());
    assert!(manager.is_user_cache_stale());

    manager.update_user_cache(s("testuser"), Some(s("Test User")));
    assert!(!manager.is_user_cache_stale());

    let prefs = manager.get_preferences();
    assert!(prefs.user.is_some());
    assert_eq!(prefs.user.as_ref().unwrap().login, "testuser");
}

#[test]
fn test_first_run_flag() {
    let mut manager = PreferencesManager::from_preferences(UserPreferences::default());
    assert!(manager.get_preferences().first_run);
    manager.clear_first_run();
    assert!(!manager.get_preferences().first_run);
}

#[test]
fn preferences_user_cache_exactly_one_day_is_fresh() {
    let mut manager = PreferencesManager::from_preferences(UserPreferences::default());
    manager.update_user_cache_at(s("u"), None, NOW);
    assert!(!manager.is_user_cache_stale_at(NOW + 24 * HOUR));
    assert!(manager.is_user_cache_stale_at(NOW + 24 * HOUR + 1));
    manager.reset_to_defaults();
    assert!(manager.get_preferences().user.is_none());
    assert!(manager.get_preferences().first_run);
}

// ---- log popup ----

#[test]
fn test_modal_creation() {
    let modal = LogModal::new(log_modal_job());
    assert!(modal.visible);
    assert_eq!(modal.scroll_offset, 0);
    assert!(modal.steps.is_empty());
    assert!(modal.is_loading);
}

#[test]
fn test_modal_actions() {
    let mut modal = LogModal::new(log_modal_job());
    let action = modal.handle_input(key(KeyCode::Esc));
    assert_eq!(action, ModalAction::Close);
    let action = modal.handle_input(key(KeyCode::Char('r')));
    assert_eq!(action, ModalAction::Rerun);
}

#[test]
fn test_scrolling() {
    let mut modal = LogModal::new(log_modal_job());
    modal.set_steps(vec![
        (s("Step 1"), s("success")),
        (s("Step 2"), s("failed")),
        (s("Step 3"), s("success")),
    ]);
    assert!(!modal.steps[0].expanded);
    assert!(modal.steps[1].expanded);
    assert!(!modal.steps[2].expanded);

    modal.set_step_logs(1, vec![s("Error line 1"), s("Error line 2"), s("Error line 3")]);

    modal.scroll_offset = 0;
    modal.scroll_down();
    assert!(modal.scroll_offset > 0);

    modal.scroll_up();
    assert_eq!(modal.scroll_offset, 0);

    modal.scroll_up();
    assert_eq!(modal.scroll_offset, 0);
}

#[test]
fn test_set_logs_backward_compat() {
    let mut modal = LogModal::new(log_modal_job());
    modal.set_logs(vec![s("Line 1"), s("Line 2"), s("Line 3")]);
    assert_eq!(modal.steps.len(), 1);
    assert_eq!(modal.steps[0].name, "All Logs");
    assert!(modal.steps[0].expanded);
    assert_eq!(modal.steps[0].logs.len(), 3);
    assert!(!modal.is_loading);
}

#[test]
fn test_step_expand_collapse() {
    let mut modal = LogModal::new(log_modal_job());
    modal.set_steps(vec![(s("Step 1"), s("success")), (s("Step 2"), s("success"))]);
    assert!(!modal.steps[0].expanded);
    assert!(!modal.steps[1].expanded);

    modal.toggle_selected_step();
    assert!(modal.steps[0].expanded);

    modal.toggle_selected_step();
    assert!(!modal.steps[0].expanded);
}

#[test]
fn test_total_virtual_rows() {
    let mut modal = LogModal::new(log_modal_job());
    modal.set_steps(vec![(s("Step 1"), s("success")), (s("Step 2"), s("failed"))]);
    assert_eq!(modal.total_virtual_rows(), 3);

    modal.set_step_logs(1, vec![s("line1"), s("line2")]);
    assert_eq!(modal.total_virtual_rows(), 4);
}

#[test]
fn log_modal_step_header_rows() {
    let mut modal = LogModal::new(log_modal_job());
    modal.set_steps(vec![(s("a"), s("failed")), (s("b"), s("success"))]);
    modal.set_step_logs(0, vec![s("x"), s("y"), s("z")]);
    assert_eq!(modal.step_header_row(0), 0);
    assert_eq!(modal.step_header_row(1), 4);
}

#[test]
fn log_modal_duration_format() {
    assert_eq!(circleci_tui_rs::widgets::log_modal::format_duration(59), "59s");
    assert_eq!(circleci_tui_rs::widgets::log_modal::format_duration(135), "2m 15s");
}

// ---- SSH popup ----

#[test]
fn test_ssh_modal_creation() {
    let modal = SshModal::new(ssh_job());
    assert!(modal.is_visible());
    assert!(modal.ssh_command.contains("ssh -p 64535"));
    assert!(modal.ssh_command.contains("123-90db2e@"));
}

#[test]
fn test_ssh_modal_input() {
    let mut modal = SshModal::new(ssh_job());
    let action = modal.handle_input(key(KeyCode::Char('c')));
    assert_eq!(action, SshAction::Close);
    let action = modal.handle_input(key(KeyCode::Enter));
    assert_eq!(action, SshAction::Close);
    let action = modal.handle_input(key(KeyCode::Esc));
    assert_eq!(action, SshAction::Close);
}

#[test]
fn test_ssh_modal_hide() {
    let mut modal = SshModal::new(ssh_job());
    assert!(modal.is_visible());
    modal.dismiss();
    assert!(!modal.is_visible());
}

#[test]
fn test_ssh_command_format() {
    let modal = SshModal::new(ssh_job());
    assert_eq!(modal.ssh_command, "ssh -p 64535 123-90db2e@test-job.circleci.com");
}

#[test]
fn ssh_short_id_is_kept_whole() {
    let mut j = ssh_job();
    j.id = s("abc");
    j.job_number = 7;
    let modal = SshModal::new(j);
    assert_eq!(modal.ssh_command, "ssh -p 64535 7-90db2e@abc.circleci.com");
}

#[test]
fn ssh_other_keys_do_nothing() {
    let mut modal = SshModal::new(ssh_job());
    assert_eq!(modal.handle_input(key(KeyCode::Char('x'))), SshAction::Nothing);
    assert!(modal.is_visible());
}

// ---- API errors and sample data ----

#[test]
fn api_error_messages() {
    assert_eq!(ApiError::Network(s("refused")).message(), "Network error: refused");
    assert_eq!(ApiError::Http(404, s("Not Found")).message(), "HTTP error 404: Not Found");
    assert_eq!(ApiError::Parse(s("bad json")).message(), "Parse error: bad json");
    assert_eq!(ApiError::Timeout.message(), "Request timeout");
}

#[test]
fn api_error_classification() {
    assert!(matches!(ApiError::classify(true, Some(500), s("x")), ApiError::Timeout));
    match ApiError::classify(false, Some(503), s("down")) {
        ApiError::Http(code, m) => {
            assert_eq!(code, 503);
            assert_eq!(m, "down");
        }
        _ => panic!("expected an HTTP error"),
    }
    match ApiError::classify(false, None, s("dns")) {
        ApiError::Network(m) => assert_eq!(m, "dns"),
        _ => panic!("expected a network error"),
    }
}

#[test]
fn mock_pipelines_are_fixed() {
    let ps = mock_pipelines_at(NOW);
    assert_eq!(ps.len(), 8);
    assert_eq!(ps[0].id, "pipe-001");
    assert_eq!(ps[0].number, 1234);
    assert_eq!(ps[0].created_at, NOW - 7200);
    assert_eq!(ps[1].state, "running");
    assert_eq!(ps[3].trigger.trigger_type, "scheduled");
    assert_eq!(ps[7].vcs.commit_subject, "perf: optimize query performance");
}

// ---- cache ----

#[test]
fn cache_split_lines_like_str_lines() {
    assert_eq!(split_lines("a\nb\r\nc"), vec![s("a"), s("b"), s("c")]);
    assert_eq!(split_lines("a\n"), vec![s("a")]);
    assert_eq!(split_lines(""), Vec::<String>::new());
    assert_eq!(split_lines("\n\nx"), vec![s(""), s(""), s("x")]);
}

#[test]
fn cache_file_names() {
    assert_eq!(LogCacheManager::log_file_name(42), "42.log");
    assert_eq!(LogCacheManager::meta_file_name(42), "42.meta");
    assert_eq!(LogCacheManager::job_number_of("42"), Some(42));
    assert_eq!(LogCacheManager::job_number_of("x42"), None);
    assert_eq!(LogCacheManager::job_number_of("99999999999"), None);
}

#[test]
fn cache_validity_by_age_and_status() {
    let m = LogCacheManager::new(s("/tmp/c"));
    let logs = vec![s("one"), s("two")];
    let meta = LogCacheManager::metadata_at(&logs, s("success"), NOW);
    assert_eq!(meta.log_hash, "2");
    assert!(m.is_cache_valid_at(&meta, NOW));
    assert!(m.is_cache_valid_at(&meta, NOW + 15 * 86400 + 86399));
    assert!(!m.is_cache_valid_at(&meta, NOW + 16 * 86400));
    assert!(m.is_expired_at(&meta, NOW + 16 * 86400));
    assert!(!m.is_expired_at(&meta, NOW + 15 * 86400));
    let running = LogCacheManager::metadata_at(&logs, s("running"), NOW);
    assert!(!m.is_cache_valid_at(&running, NOW));
}

#[test]
fn cache_stored_log_reads_back() {
    let m = LogCacheManager::new(s("/tmp/c"));
    let logs = vec![s("first"), s(""), s("third")];
    let meta = LogCacheManager::metadata_at(&logs, s("failed"), NOW);
    let content = LogCacheManager::log_content(&logs);
    assert_eq!(content, "first\n\nthird");
    match m.status_of(&meta, &content, NOW + 60) {
        CacheStatus::Valid(e) => assert_eq!(e.logs, logs),
        _ => panic!("expected a valid entry"),
    }
    assert!(matches!(m.status_of(&meta, &content, NOW + 20 * 86400), CacheStatus::Stale));
}

#[test]
fn cache_job_number_from_file_stem() {
    assert_eq!(LogCacheManager::job_number_of("123"), Some(123));
    assert_eq!(LogCacheManager::job_number_of("+7"), Some(7));
    assert_eq!(LogCacheManager::job_number_of("007"), Some(7));
    assert_eq!(LogCacheManager::job_number_of("4294967295"), Some(4294967295));
    assert_eq!(LogCacheManager::job_number_of("4294967296"), None);
    assert_eq!(LogCacheManager::job_number_of("99999999999999999999999"), None);
    assert_eq!(LogCacheManager::job_number_of(""), None);
    assert_eq!(LogCacheManager::job_number_of("+"), None);
    assert_eq!(LogCacheManager::job_number_of("-1"), None);
    assert_eq!(LogCacheManager::job_number_of("12a"), None);
    assert_eq!(LogCacheManager::job_number_of(" 12"), None);
}

#[test]
fn cache_put_then_get_by_status() {
    let m = LogCacheManager::new(s("/tmp/c"));
    let logs = vec![s("a"), s("b")];
    let content = LogCacheManager::log_content(&logs);
    let done = LogCacheManager::metadata_at(&logs, s("success"), NOW);
    match m.status_of(&done, &content, NOW + 16 * 86400 - 1) {
        CacheStatus::Valid(e) => assert_eq!(e.logs, logs),
        _ => panic!("expected a valid entry"),
    }
    let running = LogCacheManager::metadata_at(&logs, s("running"), NOW);
    assert!(matches!(m.status_of(&running, &content, NOW + 1), CacheStatus::Stale));
}

#[test]
fn status_icon_ignores_ascii_case() {
    assert_eq!(get_status_icon("SUCCESS"), get_status_icon("success"));
    assert_eq!(get_status_icon("Failed"), get_status_icon("failed"));
    assert_eq!(get_status_color("RUNNING"), get_status_color("running"));
}

#[test]
fn prefetch_rules() {
    assert!(!should_prefetch("pending"));
    assert!(!should_prefetch("blocked"));
    assert!(should_prefetch("failed"));
    assert!(!may_use_cache("running"));
    assert!(may_use_cache("success"));
    assert_eq!(jobs_to_cancel(&vec![1, 2, 3, 4], &vec![2, 4, 5]), vec![1, 3]);
}

#[test]
fn prefetch_plan_skips_active_and_repeats() {
    let mut a = create_test_job();
    a.job_number = 1;
    a.status = s("failed");
    let mut b = create_test_job();
    b.job_number = 2;
    b.status = s("success");
    let plan = plan_prefetch(&vec![1, 2, 1, 3], &vec![a, b], &vec![2]);
    assert_eq!(plan, vec![(1, s("failed")), (3, s("unknown"))]);
}

// ---- git ----

#[test]
fn git_remote_branch_from_upstream() {
    assert_eq!(remote_branch_name(s("local"), Some(s("refs/remotes/origin/feat/x"))), "feat/x");
    assert_eq!(remote_branch_name(s("local"), Some(s("refs/heads/main"))), "local");
    assert_eq!(remote_branch_name(s("local"), Some(s("refs/remotes/origin"))), "local");
    assert_eq!(remote_branch_name(s("local"), None), "local");
}

// ---- failure report ----

#[test]
fn report_names_and_content() {
    assert_eq!(replace_slashes("ci/build/test"), "ci-build-test");
    assert_eq!(run_dir_name("20240101-120000"), "ci-failures-20240101-120000");
    let lines: Vec<String> = (0..200).map(|i| format!("l{}", i)).collect();
    let r = job_report(s("unit/tests"), s("cargo test"), &lines);
    assert_eq!(r.full_filename, "unit-tests.md");
    assert!(r.summary_logs.starts_with("l50\n"));
    assert!(r.summary_logs.ends_with("l199"));
    assert!(r.full_logs.starts_with("l0\nl1\n"));
    let full = full_log_content(&r);
    assert!(full.starts_with("# Full logs - unit/tests\n\n**To reproduce:** `cargo test`\n\n```\nl0\n"));
    assert!(full.ends_with("l199\n```\n"));
    let summary = summary_content("T", &vec![r]);
    assert!(summary.starts_with("# CI Failures - T\n\nYou are a senior engineer."));
    assert!(summary.contains("`rm -rf ci-failures-T`\n\n- [ ] fix unit/tests\n\n---\n\n## unit/tests\n**Command:** `cargo test`"));
    assert!(summary.ends_with("l199\n```\n"));
}

fn action(name: &str, status: &str, url: Option<&str>, index: usize) -> StepAction {
    StepAction { name: s(name), status: s(status), output_url: url.map(s), index }
}

fn step(name: &str, status: &str, actions: Vec<StepAction>) -> JobStep {
    JobStep { name: s(name), status: s(status), actions }
}

#[test]
fn report_strips_control_sequences() {
    assert_eq!(strip_ansi_codes("\u{1b}[31mred\u{1b}[0m text"), "red text");
    assert_eq!(strip_ansi_codes("\u{1b}[1;32mok"), "ok");
    assert_eq!(strip_ansi_codes("plain"), "plain");
    assert_eq!(strip_ansi_codes("a\u{1b}b"), "a\u{1b}b");
    assert_eq!(strip_ansi_codes("end\u{1b}"), "end\u{1b}");
    assert_eq!(strip_ansi_codes("open\u{1b}[12"), "open");
    let lines = vec![s("\u{1b}[33mwarn\u{1b}[0m"), s("done")];
    let r = job_report(s("j"), s("cmd"), &lines);
    assert_eq!(r.full_logs, "warn\ndone");
    assert_eq!(r.summary_logs, "warn\ndone");
}

#[test]
fn report_output_url_of_first_failed_action() {
    let steps = vec![
        step("checkout", "success", vec![action("checkout", "success", Some("u0"), 0)]),
        step("test", "failed", vec![
            action("a", "success", Some("u1"), 0),
            action("b", "failed", Some("u2"), 1),
            action("c", "failed", Some("u3"), 2),
        ]),
        step("later", "failed", vec![action("d", "failed", Some("u4"), 0)]),
    ];
    assert_eq!(failed_action_output_url(&steps), Some(s("u2")));

    let no_failed_action = vec![
        step("test", "failed", vec![action("a", "success", Some("u1"), 0)]),
        step("later", "failed", vec![action("d", "failed", Some("u4"), 0)]),
    ];
    assert_eq!(failed_action_output_url(&no_failed_action), None);

    let no_output = vec![step("test", "failed", vec![action("a", "failed", None, 0)])];
    assert_eq!(failed_action_output_url(&no_output), None);

    let all_passed = vec![step("test", "success", vec![action("a", "success", Some("u1"), 0)])];
    assert_eq!(failed_action_output_url(&all_passed), None);
    assert_eq!(failed_action_output_url(&vec![]), None);
}

#[test]
fn report_reproduce_command_from_output() {
    let out = Some(vec![s("  \u{1b}[1mcargo test --all\u{1b}[0m \t"), s("second")]);
    assert_eq!(reproduce_command(&out), "cargo test --all");
    assert_eq!(reproduce_command(&Some(vec![])), "");
    assert_eq!(reproduce_command(&None), "");
}

#[test]
fn client_error_without_answer_is_network_error() {
    let err = reqwest::Client::new().get("not a url").build().unwrap_err();
    assert!(!err.is_timeout());
    assert!(err.status().is_none());
    match ApiError::from_reqwest(&err) {
        ApiError::Network(text) => assert_eq!(text, err.to_string()),
        other => panic!("expected a network error, got {:?}", other),
    }
}

#[test]
fn report_log_lines_from_fetch_outcome() {
    assert_eq!(log_lines_from_fetch(Some(Ok(vec![s("a"), s("b")]))), vec![s("a"), s("b")]);
    assert_eq!(log_lines_from_fetch(Some(Err(ApiError::Timeout))), vec![s("(fetch error: Request timeout)")]);
    assert_eq!(
        log_lines_from_fetch(Some(Err(ApiError::Http(404, s("Not Found"))))),
        vec![s("(fetch error: HTTP error 404: Not Found)")]
    );
    assert_eq!(log_lines_from_fetch(None), vec![s("(timed out)")]);
}

#[test]
fn app_pipeline_load_uses_owner_and_branch_filters() {
    let mut app = create_test_app();
    let (mine, branch) = app.begin_pipeline_load();
    assert!(app.is_loading);
    assert!(mine);
    assert_eq!(branch, None);

    let mut prefs = UserPreferences::default();
    prefs.first_run = false;
    let mut app = App::from_parts(PreferencesManager::from_preferences(prefs), None, None, Some(s("feat/x")), NOW);
    let (mine, branch) = app.begin_pipeline_load();
    assert!(!mine);
    assert_eq!(branch, Some(s("feat/x")));
}

#[test]
fn preferences_changed_in_place() {
    let mut manager = PreferencesManager::from_preferences(UserPreferences::default());
    manager.get_preferences_mut().version = 2;
    manager.get_preferences_mut().pipeline_filters.status_index = 3;
    assert_eq!(manager.get_preferences().version, 2);
    assert_eq!(manager.get_preferences().pipeline_filters.status_index, 3);
}

#[test]
fn text_trimming() {
    assert_eq!(circleci_tui_rs::text::trim("  a b \t\n"), "a b");
    assert_eq!(circleci_tui_rs::text::trim_start("  a b  "), "a b  ");
    assert_eq!(circleci_tui_rs::text::trim("   "), "");
    assert_eq!(circleci_tui_rs::text::trim("\u{2003}x\u{2003}"), "x");
}

#[test]
fn pipeline_duration_from_workflows() {
    let p = create_test_pipeline();
    let wf = |created: i64, stopped: Option<i64>| Workflow {
        id: s("w"),
        name: s("build"),
        status: s("success"),
        created_at: created,
        stopped_at: stopped,
        pipeline_id: s("p"),
    };
    assert_eq!(p.calculate_duration_from_workflows(None), "--");
    assert_eq!(p.calculate_duration_from_workflows(Some(&vec![])), "--");
    assert_eq!(p.calculate_duration_from_workflows(Some(&vec![wf(NOW, None)])), "...");
    let two = vec![wf(NOW + 10, Some(NOW + 100)), wf(NOW, Some(NOW + 190))];
    assert_eq!(p.calculate_duration_from_workflows(Some(&two)), "3m 10s");
}

#[test]
fn preferences_replaced_whole() {
    let mut manager = PreferencesManager::from_preferences(UserPreferences::default());
    let mut prefs = UserPreferences::default();
    prefs.first_run = false;
    prefs.version = 7;
    manager.set_preferences(prefs);
    assert!(!manager.get_preferences().first_run);
    assert_eq!(manager.get_preferences().version, 7);
}

fn raw(id: &str, number: u32) -> RawPipeline {
    RawPipeline {
        id: s(id),
        number,
        state: s("success"),
        created_at: NOW,
        updated_at: NOW + 60,
        project_slug: s("gh/test-org/test-repo"),
        branch: Some(s("main")),
        revision: Some(s("abc123def456ghi789jkl012")),
        commit_subject: Some(s("feat: add new feature")),
        trigger_type: Some(s("webhook")),
        actor_login: Some(s("testuser")),
    }
}

fn test_client() -> CircleCIClient {
    CircleCIClient::new_with_base_url(s("test-token"), s("gh/test-org/test-repo"), s("http://127.0.0.1:1234")).unwrap()
}

#[test]
fn pipelines_page_404_not_found() {
    match read_pipeline_page(404, s("Project not found"), Err(s("expected value"))) {
        Err(ApiError::Http(status, msg)) => {
            assert_eq!(status, 404);
            assert_eq!(msg, "Project not found");
        }
        _ => panic!("expected an HTTP error"),
    }
    match read_pipeline_page(500, s("Internal server error"), Ok(RawPipelinePage { items: vec![], next_page_token: None })) {
        Err(ApiError::Http(500, msg)) => assert_eq!(msg, "Internal server error"),
        _ => panic!("expected an HTTP error"),
    }
}

#[test]
fn pipelines_page_malformed_json() {
    match read_pipeline_page(200, s("{invalid json}"), Err(s("key must be a string at line 1 column 2"))) {
        Err(ApiError::Parse(msg)) => assert!(msg.contains("Failed to parse pipelines")),
        _ => panic!("expected a parse error"),
    }
}

#[test]
fn pipelines_page_success_and_defaults() {
    let mut minimal = raw("pipe-002", 124);
    minimal.branch = None;
    minimal.revision = None;
    minimal.commit_subject = None;
    minimal.trigger_type = None;
    minimal.actor_login = None;
    let page = RawPipelinePage { items: vec![raw("pipe-001", 123), minimal], next_page_token: Some(s("page2")) };
    let (ps, token) = match read_pipeline_page(200, s("..."), Ok(page)) {
        Ok(r) => r,
        Err(e) => panic!("unexpected error: {}", e.message()),
    };
    assert_eq!(token, Some(s("page2")));
    assert_eq!(ps.len(), 2);
    assert_eq!(ps[0].id, "pipe-001");
    assert_eq!(ps[0].number, 123);
    assert_eq!(ps[0].vcs.branch, "main");
    assert_eq!(ps[0].vcs.revision, "abc123d");
    assert_eq!(ps[0].vcs.commit_author_name, "testuser");
    assert_eq!(ps[1].vcs.branch, "unknown");
    assert_eq!(ps[1].vcs.commit_subject, "No commit message");
    assert_eq!(ps[1].trigger.trigger_type, "unknown");
}

#[test]
fn pipelines_pages_are_joined_and_cut() {
    let client = test_client();
    assert_eq!(client.pipelines_url(), "http://127.0.0.1:1234/project/gh/test-org/test-repo/pipeline");
    let first = read_pipeline_page(200, s(""), Ok(RawPipelinePage { items: vec![raw("pipe-001", 1)], next_page_token: Some(s("p2")) }));
    let second = read_pipeline_page(200, s(""), Ok(RawPipelinePage { items: vec![raw("pipe-002", 2), raw("pipe-003", 3)], next_page_token: None }));
    let ps = match client.get_pipelines(10, vec![first, second]) {
        Ok(ps) => ps,
        Err(e) => panic!("unexpected error: {}", e.message()),
    };
    let ids: Vec<String> = ps.iter().map(|p| p.id.clone()).collect();
    assert_eq!(ids, vec![s("pipe-001"), s("pipe-002"), s("pipe-003")]);
    let first = read_pipeline_page(200, s(""), Ok(RawPipelinePage { items: vec![raw("pipe-001", 1), raw("pipe-002", 2)], next_page_token: None }));
    assert_eq!(client.get_pipelines(1, vec![first]).unwrap().len(), 1);
    let ok = read_pipeline_page(200, s(""), Ok(RawPipelinePage { items: vec![raw("pipe-001", 1)], next_page_token: Some(s("p2")) }));
    let bad = read_pipeline_page(403, s("Forbidden"), Err(s("")));
    assert!(matches!(client.get_pipelines(10, vec![ok, bad]), Err(ApiError::Http(403, _))));
    assert_eq!(client.get_pipelines(10, vec![]).unwrap().len(), 0);
    assert!(wants_next_page(1, 10, &Some(s("p2"))));
    assert!(!wants_next_page(10, 10, &Some(s("p2"))));
    assert!(!wants_next_page(1, 10, &None));
    assert_eq!(CircleCIClient::new().base_url, DEFAULT_BASE_URL);
}
