use circleci_tui_rs::api::models::{ExecutorInfo, Job, Pipeline, TriggerInfo, VcsInfo, Workflow};
use circleci_tui_rs::keys::{KeyCode, KeyEvent, KeyModifiers};
use circleci_tui_rs::preferences::{PipelineDetailFilterPrefs, PipelineFilterPrefs};
use circleci_tui_rs::screens::line_range::{extract_line_range, parse_line_range};
use circleci_tui_rs::screens::pipeline_detail::{
    status_message_for, CopyRequest, PanelFocus, PipelineDetailAction, PipelineDetailScreen,
};
use circleci_tui_rs::screens::pipelines::{
    format_duration, format_time_ago, pipeline_metadata, stage_icons, unique_branches, PipelineScreen,
};
use circleci_tui_rs::screens::workflow::{mock_logs_for, NavigationAction, WorkflowScreen};
use circleci_tui_rs::widgets::powerline::{NotificationLevel, PowerlineContent};

const NOW: i64 = 1_700_000_000;

fn s(v: &str) -> String {
    v.to_string()
}

fn create_test_pipeline() -> Pipeline {
    Pipeline {
        id: s("test-pipe"),
        number: 1234,
        state: s("success"),
        created_at: NOW,
        updated_at: NOW,
        vcs: VcsInfo {
            branch: s("main"),
            revision: s("a1b2c3d"),
            commit_subject: s("feat: add webhook retry logic"),
            commit_author_name: s("alice"),
            commit_timestamp: NOW,
        },
        trigger: TriggerInfo { trigger_type: s("webhook") },
        project_slug: s("gh/acme/api-service"),
    }
}

fn workflow(id: &str, name: &str) -> Workflow {
    Workflow {
        id: s(id),
        name: s(name),
        status: s("success"),
        created_at: NOW,
        stopped_at: Some(NOW),
        pipeline_id: s("test-pipeline"),
    }
}

fn job(id: &str, name: &str, status: &str, number: u32, duration: Option<u32>) -> Job {
    Job {
        id: s(id),
        name: s(name),
        status: s(status),
        job_number: number,
        workflow_id: s("wf1"),
        started_at: Some(NOW),
        stopped_at: if status == "running" { None } else { Some(NOW) },
        duration,
        executor: ExecutorInfo { executor_type: s("docker") },
    }
}

#[test]
fn test_pipeline_detail_screen_new() {
    let screen = PipelineDetailScreen::new(create_test_pipeline());
    assert!(screen.workflows.is_empty());
    assert!(screen.jobs.is_empty());
    assert_eq!(screen.selected_workflow_index, 0);
    assert_eq!(screen.focus, PanelFocus::Workflows);
}

#[test]
fn test_select_workflow() {
    let mut screen = PipelineDetailScreen::new(create_test_pipeline());
    screen.set_workflows(vec![workflow("wf1", "build"), workflow("wf2", "test")]);
    screen.select_workflow(1);
    assert_eq!(screen.selected_workflow_index, 1);
    assert_eq!(screen.jobs.len(), 0);
}

#[test]
fn test_workflow_navigation() {
    let mut screen = PipelineDetailScreen::new(create_test_pipeline());
    screen.set_workflows(vec![workflow("wf1", "build"), workflow("wf2", "test")]);
    screen.select_next_workflow();
    assert_eq!(screen.selected_workflow_index, 1);
    screen.select_previous_workflow();
    assert_eq!(screen.selected_workflow_index, 0);
}

#[test]
fn pipeline_detail_test_job_navigation() {
    let mut screen = PipelineDetailScreen::new(create_test_pipeline());
    screen.set_jobs(vec![
        job("job1", "build", "success", 1, Some(60)),
        job("job2", "test", "success", 2, Some(60)),
    ]);
    screen.focus = PanelFocus::Jobs;
    screen.select_next_job();
    assert_eq!(screen.selected_job_index, Some(1));
    screen.select_previous_job();
    assert_eq!(screen.selected_job_index, Some(0));
}

#[test]
fn test_filter_failed_jobs() {
    let mut screen = PipelineDetailScreen::new(create_test_pipeline());
    screen.set_jobs(vec![
        job("job1", "build", "success", 1, Some(60)),
        job("job2", "test", "failed", 2, Some(60)),
    ]);
    screen.faceted_search.restore_filter_state(&[3, 0]);
    let filtered = screen.get_filtered_jobs();
    assert!(filtered.iter().all(|job| job.status == "failed"));
}

#[test]
fn test_status_filters() {
    let mut screen = PipelineDetailScreen::new(create_test_pipeline());
    screen.set_jobs(vec![
        job("job1", "build", "success", 1, Some(60)),
        job("job2", "test", "failed", 2, Some(60)),
        job("job3", "deploy", "running", 3, None),
    ]);
    screen.faceted_search.restore_filter_state(&[2, 0]);
    let filtered = screen.get_filtered_jobs();
    assert_eq!(filtered.len(), 1);
    assert_eq!(filtered[0].status, "running");
    screen.faceted_search.restore_filter_state(&[3, 0]);
    let filtered = screen.get_filtered_jobs();
    assert_eq!(filtered.len(), 1);
    assert!(filtered
        .iter()
        .all(|job| job.status == "failed" || job.status == "error" || job.status == "failure"));
}

#[test]
fn test_duration_filter() {
    let mut screen = PipelineDetailScreen::new(create_test_pipeline());
    screen.set_jobs(vec![
        job("job1", "quick", "success", 1, Some(30)),
        job("job2", "short", "success", 2, Some(180)),
        job("job3", "long", "success", 3, Some(1200)),
    ]);
    screen.faceted_search.restore_filter_state(&[0, 0]);
    assert_eq!(screen.get_filtered_jobs().len(), 3);
    screen.faceted_search.restore_filter_state(&[0, 1]);
    let filtered = screen.get_filtered_jobs();
    assert_eq!(filtered.len(), 1);
    assert_eq!(filtered[0].name, "quick");
    screen.faceted_search.restore_filter_state(&[0, 2]);
    let filtered = screen.get_filtered_jobs();
    assert_eq!(filtered.len(), 1);
    assert_eq!(filtered[0].name, "short");
    screen.faceted_search.restore_filter_state(&[0, 4]);
    let filtered = screen.get_filtered_jobs();
    assert_eq!(filtered.len(), 1);
    assert_eq!(filtered[0].name, "long");
}

#[test]
fn status_aliases_and_unknown_statuses_filter() {
    let mut screen = PipelineDetailScreen::new(create_test_pipeline());
    screen.set_jobs(vec![
        job("a", "a", "passed", 1, Some(10)),
        job("b", "b", "canceled", 2, Some(10)),
        job("c", "c", "queued", 3, None),
    ]);
    screen.faceted_search.restore_filter_state(&[1, 0]);
    let names: Vec<String> = screen.get_filtered_jobs().into_iter().map(|j| j.name).collect();
    assert_eq!(names, vec![s("a"), s("b")]);
    screen.faceted_search.restore_filter_state(&[4, 0]);
    let names: Vec<String> = screen.get_filtered_jobs().into_iter().map(|j| j.name).collect();
    assert_eq!(names, vec![s("b"), s("c")]);
    screen.faceted_search.restore_filter_state(&[0, 5]);
    assert_eq!(screen.get_filtered_jobs().len(), 0);
}

#[test]
fn detail_status_summary_and_pagination() {
    let mut screen = PipelineDetailScreen::new(create_test_pipeline());
    screen.set_jobs_with_pagination(
        vec![
            job("a", "a", "success", 1, Some(10)),
            job("b", "b", "failed", 2, Some(10)),
            job("c", "c", "failed", 3, Some(10)),
        ],
        Some(s("token")),
        None,
    );
    assert_eq!(screen.calculate_status_summary(), "│ ✓  1  ✗  2");
    assert_eq!(screen.get_pagination_info(), "(Showing 3 of 3+)");
    assert!(screen.can_load_more());
    screen.append_jobs(vec![job("d", "d", "running", 4, None)], None);
    assert_eq!(screen.total_jobs_count, Some(4));
    assert_eq!(screen.get_pagination_info(), "(Showing 4 of 4)");
    screen.faceted_search.restore_filter_state(&[3, 0]);
    assert_eq!(screen.get_pagination_info(), "(Showing 2 of 4 total jobs)");
    let empty = PipelineDetailScreen::new(create_test_pipeline());
    assert_eq!(empty.calculate_status_summary(), "");
    assert_eq!(empty.get_pagination_info(), "(All 0 jobs loaded)");
}

#[test]
fn detail_keys_route_actions() {
    let mut screen = PipelineDetailScreen::new(create_test_pipeline());
    screen.set_workflows(vec![workflow("wf1", "build"), workflow("wf2", "test")]);
    match screen.handle_input(KeyEvent::from(KeyCode::Down)) {
        PipelineDetailAction::LoadJobs(id) => assert_eq!(id, "wf2"),
        _ => panic!("expected LoadJobs"),
    }
    match screen.handle_input(KeyEvent::from(KeyCode::Down)) {
        PipelineDetailAction::LoadJobs(id) => assert_eq!(id, "wf1"),
        _ => panic!("expected LoadJobs"),
    }
    match screen.handle_input(KeyEvent::from(KeyCode::Char('R'))) {
        PipelineDetailAction::RerunWorkflow(id) => assert_eq!(id, "wf1"),
        _ => panic!("expected RerunWorkflow"),
    }
    assert!(matches!(screen.handle_input(KeyEvent::from(KeyCode::Tab)), PipelineDetailAction::Nothing));
    assert_eq!(screen.focus, PanelFocus::Jobs);
    screen.set_jobs(vec![job("j1", "build", "success", 7, Some(5))]);
    match screen.handle_input(KeyEvent::from(KeyCode::Enter)) {
        PipelineDetailAction::OpenJobLog(j) => assert_eq!(j.job_number, 7),
        _ => panic!("expected OpenJobLog"),
    }
    match screen.handle_input(KeyEvent::from(KeyCode::Char('s'))) {
        PipelineDetailAction::OpenSsh(j) => assert_eq!(j.id, "j1"),
        _ => panic!("expected OpenSsh"),
    }
    assert!(matches!(screen.handle_input(KeyEvent::from(KeyCode::Char('l'))), PipelineDetailAction::Nothing));
    assert!(matches!(screen.handle_input(KeyEvent::from(KeyCode::Esc)), PipelineDetailAction::Back));
}

#[test]
fn detail_filter_mode_resets_selection() {
    let mut screen = PipelineDetailScreen::new(create_test_pipeline());
    screen.set_jobs(vec![
        job("a", "a", "success", 1, Some(10)),
        job("b", "b", "failed", 2, Some(10)),
    ]);
    screen.selected_job_index = Some(1);
    screen.handle_input(KeyEvent::from(KeyCode::Char('f')));
    assert_eq!(screen.focus, PanelFocus::Filters);
    screen.handle_input(KeyEvent::from(KeyCode::Enter));
    screen.handle_input(KeyEvent::from(KeyCode::Down));
    screen.handle_input(KeyEvent::from(KeyCode::Down));
    screen.handle_input(KeyEvent::from(KeyCode::Down));
    screen.handle_input(KeyEvent::from(KeyCode::Enter));
    assert_eq!(screen.faceted_search.get_filter_value(0), Some("failed"));
    assert_eq!(screen.selected_job_index, Some(0));
    screen.handle_input(KeyEvent::from(KeyCode::Esc));
    assert_eq!(screen.focus, PanelFocus::Jobs);
}

#[test]
fn copy_flow_asks_for_logs_then_copies_a_range() {
    let mut screen = PipelineDetailScreen::new(create_test_pipeline());
    screen.set_jobs(vec![job("a", "a", "success", 9, Some(10))]);
    screen.focus = PanelFocus::Jobs;
    match screen.handle_input(KeyEvent::from(KeyCode::Char('c'))) {
        PipelineDetailAction::CopyLogs(n) => assert_eq!(n, 9),
        _ => panic!("expected CopyLogs"),
    }
    assert_eq!(screen.pending_log_fetch, Some(9));
    assert!(matches!(screen.powerline.content, PowerlineContent::Loading { .. }));
    screen.set_logs_for_job(9, vec![s("one"), s("two"), s("three")]);
    assert!(screen.line_range_modal.is_visible());
    assert_eq!(screen.line_range_modal.input().value(), "%");
    for _ in 0..1 {
        screen.handle_input(KeyEvent::from(KeyCode::Backspace));
    }
    for c in "2,$".chars() {
        screen.handle_input(KeyEvent::from(KeyCode::Char(c)));
    }
    let request: CopyRequest = match screen.handle_input(KeyEvent::from(KeyCode::Enter)) {
        PipelineDetailAction::CopyToClipboard(r) => r,
        _ => panic!("expected CopyToClipboard"),
    };
    assert_eq!(request.text, "two\nthree");
    assert_eq!((request.start, request.end, request.count), (2, 3, 2));
    screen.finish_copy(&request, Ok(()));
    match &screen.powerline.content {
        PowerlineContent::Notification { message, level, duration_ms, .. } => {
            assert_eq!(message, "Copied lines     2-3     (   2 lines)");
            assert_eq!(*level, NotificationLevel::Success);
            assert_eq!(*duration_ms, 2000);
        }
        _ => panic!("expected notification"),
    }
    screen.finish_copy(&request, Err(s("Clipboard unavailable: none")));
    match &screen.powerline.content {
        PowerlineContent::Notification { message, level, duration_ms, .. } => {
            assert_eq!(message, "Clipboard unavailable: none");
            assert_eq!(*level, NotificationLevel::Error);
            assert_eq!(*duration_ms, 3000);
        }
        _ => panic!("expected notification"),
    }
}

#[test]
fn copy_flow_reports_bad_range() {
    let mut screen = PipelineDetailScreen::new(create_test_pipeline());
    screen.set_jobs(vec![job("a", "a", "success", 9, Some(10))]);
    screen.focus = PanelFocus::Jobs;
    screen.set_logs_for_job(9, vec![s("one")]);
    screen.handle_input(KeyEvent::from(KeyCode::Char('c')));
    assert!(screen.line_range_modal.is_visible());
    screen.handle_input(KeyEvent::from(KeyCode::Backspace));
    for c in "x".chars() {
        screen.handle_input(KeyEvent::from(KeyCode::Char(c)));
    }
    assert!(matches!(screen.handle_input(KeyEvent::from(KeyCode::Enter)), PipelineDetailAction::Nothing));
    match &screen.powerline.content {
        PowerlineContent::Notification { message, level, .. } => {
            assert_eq!(message, "Invalid range: Invalid line number: x");
            assert_eq!(*level, NotificationLevel::Error);
        }
        _ => panic!("expected notification"),
    }
    assert_eq!(screen.pending_copy_job, None);
}

#[test]
fn visible_job_numbers_window() {
    let mut screen = PipelineDetailScreen::new(create_test_pipeline());
    let jobs: Vec<Job> = (1..=10).map(|n| job("j", "j", "success", n, Some(1))).collect();
    screen.set_jobs(jobs);
    screen.selected_job_index = Some(5);
    assert_eq!(screen.get_visible_job_numbers(20), vec![3, 4, 5, 6, 7, 8, 9]);
    screen.selected_job_index = Some(0);
    assert_eq!(screen.get_visible_job_numbers(20), vec![1, 2, 3, 4]);
    screen.selected_job_index = Some(9);
    assert_eq!(screen.get_visible_job_numbers(20), vec![7, 8, 9, 10]);
}

#[test]
fn detail_filter_preferences_round_trip() {
    let mut screen = PipelineDetailScreen::new(create_test_pipeline());
    screen.apply_filter_preferences(&PipelineDetailFilterPrefs { status_index: 3, duration_index: 9 });
    let prefs = screen.get_filter_preferences();
    assert_eq!(prefs, PipelineDetailFilterPrefs { status_index: 3, duration_index: 0 });
}

#[test]
fn job_status_messages() {
    assert_eq!(status_message_for("failed"), "Connection timeout");
    assert_eq!(status_message_for("blocked"), "Waiting for dependencies");
    assert_eq!(status_message_for("weird"), "weird");
}

#[test]
fn line_range_dash_forms() {
    assert_eq!(parse_line_range("10-20", 100), Ok((10, 20)));
    assert_eq!(parse_line_range("30-", 100), Ok((30, 100)));
    assert_eq!(parse_line_range("-15", 100), Ok((1, 15)));
    assert_eq!(parse_line_range(" 90 - 200 ", 100), Ok((90, 100)));
    assert_eq!(parse_line_range("30,", 100), Err(s("Invalid line number: ")));
    assert_eq!(parse_line_range("20-10", 100), Err(s("End line must be >= start line")));
}

#[test]
fn line_range_last_line_ends() {
    assert_eq!(parse_line_range("$,$", 10), Ok((10, 10)));
    assert_eq!(parse_line_range("$:20", 10), Ok((10, 10)));
    assert_eq!(parse_line_range("$,3", 10), Err(s("End line must be >= start line")));
    assert_eq!(parse_line_range("3:$", 10), Ok((3, 10)));
    assert_eq!(parse_line_range("$", 0), Err(s("Line number must be >= 1")));
}

#[test]
fn line_range_parsing() {
    assert_eq!(parse_line_range("%", 10), Ok((1, 10)));
    assert_eq!(parse_line_range(" 3:5 ", 10), Ok((3, 5)));
    assert_eq!(parse_line_range("4,$", 10), Ok((4, 10)));
    assert_eq!(parse_line_range("20", 10), Err(s("Start line 20 exceeds total lines 10")));
    assert_eq!(parse_line_range("42", 100), Ok((42, 42)));
    assert_eq!(parse_line_range(" $ ", 7), Ok((7, 7)));
    assert_eq!(parse_line_range("", 10), Err(s("Empty input")));
    assert_eq!(parse_line_range("0,3", 10), Err(s("Start line must be >= 1")));
    assert_eq!(parse_line_range("5,3", 10), Err(s("End line must be >= start line")));
    assert_eq!(parse_line_range("12,15", 10), Err(s("Start line 12 exceeds total lines 10")));
    assert_eq!(parse_line_range("0", 10), Err(s("Line number must be >= 1")));
    assert_eq!(parse_line_range("a,2", 10), Err(s("Invalid line number: a")));
    let logs = vec![s("a"), s("b"), s("c")];
    assert_eq!(extract_line_range(&logs, 2, 3), vec![s("b"), s("c")]);
    assert_eq!(extract_line_range(&logs, 4, 5), Vec::<String>::new());
    assert_eq!(extract_line_range(&logs, 0, 2), Vec::<String>::new());
}

#[test]
fn test_pipeline_screen_new() {
    let screen = PipelineScreen::new();
    assert!(!screen.pipelines.is_empty());
    assert_eq!(screen.selected_index, Some(0));
}

#[test]
fn test_select_next() {
    let mut screen = PipelineScreen::new();
    let initial_count = screen.pipelines.len();
    screen.select_next();
    assert_eq!(screen.selected_index, Some(1));
    screen.selected_index = Some(initial_count - 1);
    screen.select_next();
    assert_eq!(screen.selected_index, Some(0));
}

#[test]
fn test_select_previous() {
    let mut screen = PipelineScreen::new();
    let initial_count = screen.pipelines.len();
    screen.selected_index = Some(0);
    screen.select_previous();
    assert_eq!(screen.selected_index, Some(initial_count - 1));
    screen.select_previous();
    assert_eq!(screen.selected_index, Some(initial_count - 2));
}

#[test]
fn test_get_selected_pipeline() {
    let screen = PipelineScreen::new();
    assert!(screen.get_selected_pipeline().is_some());
}

#[test]
fn pipeline_screen_filters_and_summary() {
    let mut screen = PipelineScreen::new_at(NOW);
    assert_eq!(screen.filtered_pipelines.len(), 8);
    assert_eq!(screen.calculate_status_summary(), "✓ 4 ● 1 ✗ 2");
    assert_eq!(
        screen.get_unique_branches(),
        vec![s("feat/metrics"), s("feat/oauth"), s("fix/database-conn"), s("fix/memory-leak"), s("main")]
    );
    screen.handle_input_at(KeyEvent::from(KeyCode::Char('/')), NOW);
    assert!(screen.search_focused);
    screen.sync_search_focus();
    for c in "ALICE".chars() {
        screen.handle_input_at(KeyEvent::from(KeyCode::Char(c)), NOW);
    }
    let numbers: Vec<u32> = screen.filtered_pipelines.iter().map(|p| p.number).collect();
    assert_eq!(numbers, vec![1234, 1238]);
    screen.handle_input_at(KeyEvent::from(KeyCode::Esc), NOW);
    assert_eq!(screen.filtered_pipelines.len(), 8);
    screen.handle_input_at(KeyEvent::from(KeyCode::Esc), NOW);
    assert!(!screen.search_focused);
    screen.faceted_search.set_facet_selection(2, 0);
    screen.apply_filters_at(NOW);
    let numbers: Vec<u32> = screen.filtered_pipelines.iter().map(|p| p.number).collect();
    assert_eq!(numbers, vec![1234, 1235, 1236, 1237, 1238, 1239, 1240, 1241]);
    screen.apply_filters_at(NOW + 12 * 3600 + 1);
    let numbers: Vec<u32> = screen.filtered_pipelines.iter().map(|p| p.number).collect();
    assert_eq!(numbers, vec![1234, 1235, 1236, 1237, 1238, 1239, 1240]);
    screen.faceted_search.set_facet_selection(3, 2);
    screen.apply_filters_at(NOW);
    let numbers: Vec<u32> = screen.filtered_pipelines.iter().map(|p| p.number).collect();
    assert_eq!(numbers, vec![1236, 1240]);
    assert_eq!(screen.calculate_status_summary(), "✗ 2");
    assert!(screen.handle_input_at(KeyEvent::from(KeyCode::Enter), NOW));
    screen.handle_input_at(KeyEvent::from(KeyCode::Esc), NOW);
    assert_eq!(screen.filtered_pipelines.len(), 8);
}

#[test]
fn pipeline_screen_preferences() {
    let prefs = PipelineFilterPrefs {
        owner_index: 1,
        branch: Some(s("release")),
        date_index: 2,
        status_index: 9,
        search_text: s("fix"),
    };
    let screen = PipelineScreen::with_preferences_at(&prefs, Some(s("bob")), None, NOW);
    assert_eq!(screen.faceted_search.get_filter_value(0), Some("Mine"));
    assert_eq!(screen.faceted_search.get_filter_value(1), Some("release"));
    assert_eq!(screen.faceted_search.get_filter_value(2), Some("Last 30 days"));
    assert_eq!(screen.faceted_search.get_filter_value(3), Some("All"));
    let numbers: Vec<u32> = screen.filtered_pipelines.iter().map(|p| p.number).collect();
    assert_eq!(numbers, vec![1235, 1236, 1240]);
    let saved = screen.get_filter_preferences();
    assert_eq!(saved.owner_index, 1);
    assert_eq!(saved.branch, Some(s("release")));
    assert_eq!(saved.date_index, 2);
    assert_eq!(saved.status_index, 0);
    assert_eq!(saved.search_text, "fix");
}

#[test]
fn new_pipelines_rebuild_branch_filter() {
    let mut screen = PipelineScreen::new_at(NOW);
    screen.faceted_search.set_facet_selection_by_value(1, "main");
    let mut p = create_test_pipeline();
    p.vcs.branch = s("zeta");
    let mut q = create_test_pipeline();
    q.vcs.branch = s("main");
    screen.set_pipelines_at(vec![p, q], NOW);
    assert_eq!(screen.faceted_search.facets()[1].options(), &vec![s("All"), s("main"), s("zeta")]);
    assert_eq!(screen.faceted_search.get_filter_value(1), Some("main"));
    assert_eq!(screen.filtered_pipelines.len(), 2);
}

#[test]
fn unique_branches_sorted_once() {
    let mut a = create_test_pipeline();
    a.vcs.branch = s("b");
    let mut b = create_test_pipeline();
    b.vcs.branch = s("a");
    let mut c = create_test_pipeline();
    c.vcs.branch = s("b");
    assert_eq!(unique_branches(&vec![a, b, c]), vec![s("a"), s("b")]);
}

#[test]
fn time_formats() {
    assert_eq!(format_time_ago(NOW - 45, NOW), "45s ago");
    assert_eq!(format_time_ago(NOW - 600, NOW), "10m ago");
    assert_eq!(format_time_ago(NOW - 7200, NOW), "2h ago");
    assert_eq!(format_time_ago(NOW - 3 * 86400, NOW), "3d ago");
    assert_eq!(format_time_ago(NOW + 5, NOW), "-5s ago");
    assert_eq!(format_duration(NOW, NOW + 30), "30s");
    assert_eq!(format_duration(NOW, NOW + 125), "2m");
    assert_eq!(format_duration(NOW, NOW + 3 * 3600 + 7 * 60 + 5), "3h 7m");
}

fn workflow_screen() -> WorkflowScreen {
    WorkflowScreen::new(
        create_test_pipeline(),
        workflow("test-wf", "build-and-test"),
        vec![
            job("1", "checkout_code", "success", 1, Some(30)),
            job("2", "run-tests", "failed", 2, Some(90)),
            job("3", "deploy", "running", 3, None),
        ],
    )
}

#[test]
fn test_workflow_screen_creation() {
    let screen = workflow_screen();
    assert!(!screen.jobs.is_empty());
    assert_eq!(screen.selected_job_index, Some(0));
    assert!(!screen.log_lines.is_empty());
}

#[test]
fn workflow_test_job_navigation() {
    let mut screen = workflow_screen();
    let initial_index = screen.selected_job_index;
    screen.select_next_job();
    assert_eq!(screen.selected_job_index, Some(1));
    screen.select_previous_job();
    assert_eq!(screen.selected_job_index, initial_index);
}

#[test]
fn test_log_scrolling() {
    let mut screen = workflow_screen();
    assert_eq!(screen.log_scroll, 0);
    screen.scroll_log_down();
    assert_eq!(screen.log_scroll, 1);
    screen.scroll_log_up();
    assert_eq!(screen.log_scroll, 0);
}

#[test]
fn workflow_keys_and_logs() {
    let mut screen = workflow_screen();
    assert_eq!(screen.handle_input(KeyEvent::from(KeyCode::Char('h'))), NavigationAction::Back);
    assert_eq!(screen.handle_input(KeyEvent::new(KeyCode::Char('c'), KeyModifiers::control())), NavigationAction::Quit);
    assert_eq!(screen.handle_input(KeyEvent::from(KeyCode::Char('j'))), NavigationAction::Nothing);
    assert_eq!(screen.selected_job_index, Some(1));
    assert!(screen.log_lines.contains(&s("✗ Failed with exit code 1")));
    assert!(screen.log_lines.contains(&s("  Duration: 1m 30s")));
    screen.handle_input(KeyEvent::from(KeyCode::Down));
    screen.handle_input(KeyEvent::from(KeyCode::Down));
    assert_eq!(screen.selected_job_index, Some(2));
    assert_eq!(screen.log_lines.last().unwrap(), "  Please wait for completion");
    let first = mock_logs_for(&screen.jobs[0]);
    assert_eq!(first[0], "Job #1: checkout_code");
    assert!(first.contains(&s("✓ Repository cloned (142 files)")));
    assert_eq!(screen.generate_dag_text(), "✓ checkout_... → ✗ run-tests → ● deploy");
}

#[test]
fn saved_pipeline_filters_restore() {
    let mut screen = PipelineScreen::new_at(NOW);
    screen.faceted_search.set_facet_selection(0, 1);
    screen.faceted_search.set_facet_selection_by_value(1, "main");
    screen.faceted_search.set_facet_selection(2, 1);
    screen.faceted_search.set_facet_selection(3, 2);
    screen.search_input.set_value(s("memory"));
    let saved = screen.get_filter_preferences();
    let restored = PipelineScreen::with_preferences_at(&saved, None, None, NOW);
    for i in 0..4 {
        assert_eq!(restored.faceted_search.get_filter_value(i), screen.faceted_search.get_filter_value(i));
    }
    assert_eq!(restored.search_input.value(), "memory");
}

#[test]
fn saved_detail_filters_restore() {
    let mut screen = PipelineDetailScreen::new(create_test_pipeline());
    screen.faceted_search.set_facet_selection(0, 2);
    screen.faceted_search.set_facet_selection(1, 1);
    let saved = screen.get_filter_preferences();
    let mut other = PipelineDetailScreen::new(create_test_pipeline());
    other.apply_filter_preferences(&saved);
    assert_eq!(other.faceted_search.get_facet_selection(0), 2);
    assert_eq!(other.faceted_search.get_facet_selection(1), 1);
}

#[test]
fn workflow_next_then_previous_returns() {
    let jobs = vec![
        job("j1", "build", "success", 1, Some(10)),
        job("j2", "test", "failed", 2, Some(20)),
        job("j3", "deploy", "success", 3, Some(5)),
    ];
    let first_log = mock_logs_for(&jobs[0]);
    let mut screen = WorkflowScreen::new(create_test_pipeline(), workflow("wf1", "build"), jobs);
    screen.scroll_log_down();
    screen.select_next_job();
    screen.select_previous_job();
    assert_eq!(screen.selected_job_index, Some(0));
    assert_eq!(screen.log_scroll, 0);
    assert_eq!(screen.log_lines, first_log);
}

#[test]
fn workflow_page_keys_scroll_log() {
    let jobs = vec![job("j1", "build", "success", 1, Some(10))];
    let mut screen = WorkflowScreen::new(create_test_pipeline(), workflow("wf1", "build"), jobs);
    let action = screen.handle_input(KeyEvent::new(KeyCode::PageDown, KeyModifiers::none()));
    assert_eq!(action, NavigationAction::Nothing);
    assert_eq!(screen.log_scroll, 1);
    screen.handle_input(KeyEvent::new(KeyCode::PageUp, KeyModifiers::none()));
    assert_eq!(screen.log_scroll, 0);
    screen.handle_input(KeyEvent::new(KeyCode::Char('x'), KeyModifiers::none()));
    assert_eq!(screen.log_scroll, 0);
}

#[test]
fn pipeline_row_stage_icons() {
    assert_eq!(stage_icons(None), "····");
    assert_eq!(stage_icons(Some(&vec![])), "----");
    let mut failed = workflow("w2", "test");
    failed.status = s("failed");
    assert_eq!(stage_icons(Some(&vec![workflow("w1", "build"), failed])), "✓✗");
    let six: Vec<Workflow> = (0..6).map(|i| workflow(&format!("w{}", i), "x")).collect();
    assert_eq!(stage_icons(Some(&six)), "✓✓✓✓✓…");
}

#[test]
fn pipeline_row_metadata() {
    let mut p = create_test_pipeline();
    assert_eq!(pipeline_metadata(&p), "⎇  main  ∙  a1b2c3d  ∙  @alice  ∙  #1234");
    p.trigger.trigger_type = s("scheduled");
    p.vcs.revision = s("abc123def456");
    assert_eq!(pipeline_metadata(&p), "⎇  main  ∙  abc123d  ∙  @alice  ∙  🏷 scheduled  ∙  #1234");
    p.vcs.revision = s("abc");
    assert!(pipeline_metadata(&p).contains("  ∙  abc  ∙  "));
}
