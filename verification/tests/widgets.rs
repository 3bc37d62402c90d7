use circleci_tui_rs::keys::{KeyCode, KeyEvent};
use circleci_tui_rs::widgets::confirm_modal::{ConfirmAction, ConfirmModal};
use circleci_tui_rs::widgets::error_modal::{ErrorAction, ErrorModal};
use circleci_tui_rs::widgets::faceted_search::{Facet, FacetedSearchBar};
use circleci_tui_rs::widgets::help_modal::{HelpAction, HelpModal};
use circleci_tui_rs::widgets::log_viewer::{classify_line, LineKind, LogViewer};
use circleci_tui_rs::widgets::powerline::{NotificationLevel, PowerlineBar, PowerlineContent};
use circleci_tui_rs::widgets::spinner::{spinner_frame, Spinner, SPINNER_FRAME_COUNT};
use circleci_tui_rs::widgets::status_message::{MessageLevel, StatusMessage};
use circleci_tui_rs::widgets::text_input::TextInput;

fn s(v: &str) -> String {
    v.to_string()
}

#[test]
fn test_confirm_modal_creation() {
    let modal = ConfirmModal::new(s("Test message"));
    assert!(modal.is_visible());
    assert_eq!(modal.selected_button(), 0);
}

#[test]
fn test_confirm_modal_input() {
    let mut modal = ConfirmModal::new(s("Test"));
    assert_eq!(modal.handle_input(KeyEvent::from(KeyCode::Char('y'))), ConfirmAction::Yes);
    assert_eq!(modal.handle_input(KeyEvent::from(KeyCode::Char('n'))), ConfirmAction::No);
    assert_eq!(modal.handle_input(KeyEvent::from(KeyCode::Enter)), ConfirmAction::Yes);
    assert_eq!(modal.handle_input(KeyEvent::from(KeyCode::Esc)), ConfirmAction::No);
}

#[test]
fn test_button_navigation() {
    let mut modal = ConfirmModal::new(s("Test"));
    assert_eq!(modal.selected_button(), 0);
    modal.handle_input(KeyEvent::from(KeyCode::Right));
    assert_eq!(modal.selected_button(), 1);
    modal.handle_input(KeyEvent::from(KeyCode::Left));
    assert_eq!(modal.selected_button(), 0);
}

#[test]
fn test_error_modal_creation() {
    let modal = ErrorModal::new(s("Error"), s("Test error"));
    assert!(modal.is_visible());
    assert!(!modal.details_expanded());
    assert!(!modal.can_retry());
    assert!(modal.details().is_none());
}

#[test]
fn error_modal_test_error_modal_with_details() {
    let modal = ErrorModal::with_details(s("Error"), s("Test error"), s("Stack trace here"));
    assert!(modal.is_visible());
    assert!(modal.details().is_some());
    assert!(!modal.details_expanded());
}

#[test]
fn test_error_modal_with_retry() {
    let modal = ErrorModal::new(s("Error"), s("Test error")).with_retry();
    assert!(modal.can_retry());
}

#[test]
fn test_error_modal_input() {
    let mut modal = ErrorModal::new(s("Error"), s("Test error"));
    assert_eq!(modal.handle_input(KeyEvent::from(KeyCode::Char('c'))), ErrorAction::Close);
    assert_eq!(modal.handle_input(KeyEvent::from(KeyCode::Enter)), ErrorAction::Close);
    assert_eq!(modal.handle_input(KeyEvent::from(KeyCode::Esc)), ErrorAction::Close);
}

#[test]
fn test_error_modal_retry() {
    let mut modal = ErrorModal::new(s("Error"), s("Test error")).with_retry();
    assert_eq!(modal.handle_input(KeyEvent::from(KeyCode::Char('r'))), ErrorAction::Retry);
    let mut modal_no_retry = ErrorModal::new(s("Error"), s("Test error"));
    assert_eq!(modal_no_retry.handle_input(KeyEvent::from(KeyCode::Char('r'))), ErrorAction::Nothing);
}

#[test]
fn test_error_modal_details_toggle() {
    let mut modal = ErrorModal::with_details(s("Error"), s("Test error"), s("Details"));
    assert!(!modal.details_expanded());
    let action = modal.handle_input(KeyEvent::from(KeyCode::Char('d')));
    assert_eq!(action, ErrorAction::Nothing);
    assert!(modal.details_expanded());
    modal.handle_input(KeyEvent::from(KeyCode::Char('d')));
    assert!(!modal.details_expanded());
}

#[test]
fn test_error_modal_hide() {
    let mut modal = ErrorModal::new(s("Error"), s("Test error"));
    assert!(modal.is_visible());
    modal.dismiss();
    assert!(!modal.is_visible());
}

#[test]
fn test_help_modal_creation() {
    let modal = HelpModal::new();
    assert!(modal.is_visible());
}

#[test]
fn test_help_modal_input() {
    let mut modal = HelpModal::new();
    assert_eq!(modal.handle_input(KeyEvent::from(KeyCode::Esc)), HelpAction::Close);
    assert_eq!(modal.handle_input(KeyEvent::from(KeyCode::Char('?'))), HelpAction::Close);
    assert_eq!(modal.handle_input(KeyEvent::from(KeyCode::Char('q'))), HelpAction::Close);
    assert_eq!(modal.handle_input(KeyEvent::from(KeyCode::Enter)), HelpAction::Nothing);
}

fn two_facets() -> FacetedSearchBar {
    FacetedSearchBar::new(vec![
        Facet::new("●", vec![s("All"), s("Some")], 0),
        Facet::new("☍", vec![s("Any"), s("Specific")], 0),
    ])
}

#[test]
fn test_facet_creation() {
    let facet = Facet::new("●", vec![s("Option 1"), s("Option 2")], 0);
    assert_eq!(facet.selected_option(), "Option 1");
    assert!(!facet.is_filtered());
}

#[test]
fn test_facet_filtering() {
    let mut facet = Facet::new("●", vec![s("All"), s("Filtered")], 0);
    assert!(!facet.is_filtered());
    facet.set_selected(1);
    assert!(facet.is_filtered());
    assert_eq!(facet.selected_option(), "Filtered");
}

#[test]
fn test_facet_reset() {
    let mut facet = Facet::new("●", vec![s("All"), s("Filtered")], 0);
    facet.set_selected(1);
    assert!(facet.is_filtered());
    facet.reset();
    assert!(!facet.is_filtered());
    assert_eq!(facet.selected_option(), "All");
}

#[test]
fn test_search_bar_creation() {
    let search_bar = two_facets();
    assert_eq!(search_bar.facets().len(), 2);
    assert_eq!(search_bar.active_button(), 0);
    assert!(!search_bar.is_active());
}

#[test]
fn test_search_bar_navigation() {
    let mut search_bar = FacetedSearchBar::new(vec![
        Facet::new("●", vec![s("All")], 0),
        Facet::new("☍", vec![s("Any")], 0),
    ]);
    assert_eq!(search_bar.active_button(), 0);
    search_bar.handle_key(KeyCode::Right);
    assert_eq!(search_bar.active_button(), 1);
    search_bar.handle_key(KeyCode::Left);
    assert_eq!(search_bar.active_button(), 0);
}

#[test]
fn test_search_bar_dropdown() {
    let mut search_bar = FacetedSearchBar::new(vec![Facet::new("●", vec![s("Option 1"), s("Option 2")], 0)]);
    assert!(!search_bar.is_active());
    search_bar.handle_key(KeyCode::Enter);
    assert!(search_bar.is_active());
    assert_eq!(search_bar.dropdown_focus(), 0);
    search_bar.handle_key(KeyCode::Down);
    assert_eq!(search_bar.dropdown_focus(), 1);
    search_bar.handle_key(KeyCode::Enter);
    assert!(!search_bar.is_active());
    assert_eq!(search_bar.facets()[0].selected_index(), 1);
}

#[test]
fn test_get_filter_value() {
    let search_bar = two_facets();
    assert_eq!(search_bar.get_filter_value(0), Some("All"));
    assert_eq!(search_bar.get_filter_value(1), Some("Any"));
    assert_eq!(search_bar.get_filter_value(2), None);
}

#[test]
fn test_is_filtered() {
    let mut search_bar = FacetedSearchBar::new(vec![Facet::new("●", vec![s("All"), s("Some")], 0)]);
    assert!(!search_bar.is_filtered());
    search_bar.set_facet_selection(0, 1);
    assert!(search_bar.is_filtered());
}

#[test]
fn test_reset_filters() {
    let mut search_bar = two_facets();
    search_bar.set_facet_selection(0, 1);
    search_bar.set_facet_selection(1, 1);
    assert!(search_bar.is_filtered());
    search_bar.reset_filters();
    assert!(!search_bar.is_filtered());
    assert_eq!(search_bar.get_filter_value(0), Some("All"));
    assert_eq!(search_bar.get_filter_value(1), Some("Any"));
}

#[test]
fn test_get_active_filters() {
    let mut search_bar = two_facets();
    assert_eq!(search_bar.get_active_filters().len(), 0);
    search_bar.set_facet_selection(0, 1);
    let active = search_bar.get_active_filters();
    assert_eq!(active.len(), 1);
    assert_eq!(active[0], "●: Some");
    search_bar.set_facet_selection(1, 1);
    let active = search_bar.get_active_filters();
    assert_eq!(active.len(), 2);
}

#[test]
fn test_get_active_filter_count() {
    let mut search_bar = two_facets();
    assert_eq!(search_bar.get_active_filter_count(), 0);
    search_bar.set_facet_selection(0, 1);
    assert_eq!(search_bar.get_active_filter_count(), 1);
    search_bar.set_facet_selection(1, 1);
    assert_eq!(search_bar.get_active_filter_count(), 2);
}

#[test]
fn test_is_active() {
    let mut search_bar = FacetedSearchBar::new(vec![Facet::new("●", vec![s("All")], 0)]);
    assert!(!search_bar.is_active());
    search_bar.handle_key(KeyCode::Enter);
    assert!(search_bar.is_active());
    search_bar.handle_key(KeyCode::Esc);
    assert!(!search_bar.is_active());
}

#[test]
fn test_tab_navigation() {
    let mut search_bar = FacetedSearchBar::new(vec![
        Facet::new("●", vec![s("All")], 0),
        Facet::new("☍", vec![s("Any")], 0),
    ]);
    assert_eq!(search_bar.active_button(), 0);
    search_bar.handle_key(KeyCode::Tab);
    assert_eq!(search_bar.active_button(), 1);
}

#[test]
fn test_space_to_open_dropdown() {
    let mut search_bar = FacetedSearchBar::new(vec![Facet::new("●", vec![s("Option 1"), s("Option 2")], 0)]);
    assert!(!search_bar.is_active());
    search_bar.handle_key(KeyCode::Char(' '));
    assert!(search_bar.is_active());
}

#[test]
fn test_update_facet_options() {
    let mut search_bar = FacetedSearchBar::new(vec![
        Facet::new("●", vec![s("All"), s("Some")], 0),
        Facet::new("⎇", vec![s("All"), s("main")], 0),
    ]);
    search_bar.set_facet_selection(1, 1);
    assert_eq!(search_bar.get_filter_value(1), Some("main"));
    let result = search_bar.update_facet_options(1, vec![s("All"), s("main"), s("dev")]);
    assert!(result);
    assert_eq!(search_bar.get_filter_value(1), Some("main"));
    assert_eq!(search_bar.facets()[1].options().len(), 3);
    search_bar.update_facet_options(1, vec![s("All"), s("feature")]);
    assert_eq!(search_bar.get_filter_value(1), Some("All"));
}

#[test]
fn test_update_facet_options_invalid_index() {
    let mut search_bar = FacetedSearchBar::new(vec![Facet::new("●", vec![s("All")], 0)]);
    let result = search_bar.update_facet_options(5, vec![s("New")]);
    assert!(!result);
}

#[test]
fn test_get_filter_state() {
    let mut search_bar = two_facets();
    assert_eq!(search_bar.get_filter_state(), vec![0, 0]);
    search_bar.set_facet_selection(0, 1);
    search_bar.set_facet_selection(1, 1);
    assert_eq!(search_bar.get_filter_state(), vec![1, 1]);
}

#[test]
fn test_restore_filter_state() {
    let mut search_bar = two_facets();
    let state = vec![1, 1];
    let result = search_bar.restore_filter_state(&state);
    assert!(result);
    assert_eq!(search_bar.facets()[0].selected_index(), 1);
    assert_eq!(search_bar.facets()[1].selected_index(), 1);
    assert_eq!(search_bar.get_filter_value(0), Some("Some"));
    assert_eq!(search_bar.get_filter_value(1), Some("Specific"));
}

#[test]
fn test_restore_filter_state_invalid() {
    let mut search_bar = FacetedSearchBar::new(vec![Facet::new("●", vec![s("All")], 0)]);
    let state = vec![0, 0];
    let result = search_bar.restore_filter_state(&state);
    assert!(!result);
}

#[test]
fn saved_filter_state_restores_identically() {
    let mut search_bar = two_facets();
    search_bar.set_facet_selection(1, 1);
    let saved = search_bar.get_filter_state();
    search_bar.reset_filters();
    assert!(search_bar.restore_filter_state(&saved));
    assert_eq!(search_bar.get_filter_state(), saved);
    assert_eq!(search_bar.get_filter_value(1), Some("Specific"));
}

#[test]
fn log_viewer_test_new() {
    let viewer = LogViewer::new();
    assert!(viewer.is_empty());
    assert_eq!(viewer.scroll_offset(), 0);
}

#[test]
fn test_set_logs() {
    let mut viewer = LogViewer::new();
    let logs = vec![s("Line 1"), s("Line 2")];
    viewer.set_logs(logs.clone());
    assert_eq!(*viewer.log_buffer(), logs);
    assert_eq!(viewer.scroll_offset(), 0);
}

#[test]
fn test_append_line() {
    let mut viewer = LogViewer::new();
    viewer.append_line(s("Line 1"));
    viewer.append_line(s("Line 2"));
    assert_eq!(viewer.log_buffer().len(), 2);
}

#[test]
fn log_viewer_test_clear() {
    let mut viewer = LogViewer::new();
    viewer.set_logs(vec![s("Line 1")]);
    viewer.clear();
    assert!(viewer.is_empty());
    assert_eq!(viewer.scroll_offset(), 0);
}

#[test]
fn test_scroll_up() {
    let mut viewer = LogViewer::new();
    viewer.scroll_up(5);
    assert_eq!(viewer.scroll_offset(), 5);
    viewer.scroll_up(3);
    assert_eq!(viewer.scroll_offset(), 8);
}

#[test]
fn test_scroll_down() {
    let mut viewer = LogViewer::new();
    viewer.scroll_up(10);
    viewer.scroll_down(3);
    assert_eq!(viewer.scroll_offset(), 7);
    viewer.scroll_down(20);
    assert_eq!(viewer.scroll_offset(), 0);
}

#[test]
fn test_scroll_to_top() {
    let mut viewer = LogViewer::new();
    viewer.set_logs(vec![s("Line 1"), s("Line 2"), s("Line 3")]);
    viewer.scroll_to_top();
    assert_eq!(viewer.scroll_offset(), 2);
}

#[test]
fn test_scroll_to_bottom() {
    let mut viewer = LogViewer::new();
    viewer.scroll_up(10);
    viewer.scroll_to_bottom();
    assert_eq!(viewer.scroll_offset(), 0);
}

#[test]
fn scroll_up_then_down_returns() {
    let mut viewer = LogViewer::new();
    viewer.set_logs(vec![s("a"), s("b")]);
    viewer.scroll_up(4);
    viewer.scroll_down(4);
    assert_eq!(viewer.scroll_offset(), 0);
    assert_eq!(viewer.log_buffer().len(), 2);
}

#[test]
fn test_highlight_command_line() {
    assert_eq!(classify_line("$ npm install"), LineKind::Command);
}

#[test]
fn test_highlight_success_line() {
    assert_eq!(classify_line("✓ Build completed successfully"), LineKind::Success);
}

#[test]
fn test_highlight_error_line() {
    assert_eq!(classify_line("Error: Connection timeout"), LineKind::Error);
}

#[test]
fn line_kinds_of_other_lines() {
    assert_eq!(classify_line("   WARN: deprecated"), LineKind::Warning);
    assert_eq!(classify_line("compiling foo"), LineKind::Plain);
    assert_eq!(classify_line("a fatal: thing"), LineKind::Error);
    assert_eq!(classify_line("  $ ls"), LineKind::Command);
}

#[test]
fn test_powerline_creation() {
    let powerline = PowerlineBar::new();
    assert!(matches!(powerline.content, PowerlineContent::Empty));
}

#[test]
fn test_set_notification() {
    let mut powerline = PowerlineBar::new();
    powerline.set_notification(s("Copied 42 lines"), NotificationLevel::Success, 2000);
    match &powerline.content {
        PowerlineContent::Notification { message, level, .. } => {
            assert_eq!(message, "Copied 42 lines");
            assert_eq!(*level, NotificationLevel::Success);
        }
        _ => panic!("Expected Notification"),
    }
}

#[test]
fn test_notification_expiry() {
    let mut powerline = PowerlineBar::new();
    powerline.set_notification(s("Test"), NotificationLevel::Success, 10);
    assert!(!powerline.tick_with_elapsed(0));
    assert!(powerline.tick_with_elapsed(20));
    assert!(matches!(powerline.content, PowerlineContent::Empty));
}

#[test]
fn test_set_loading() {
    let mut powerline = PowerlineBar::new();
    powerline.set_loading(s("Loading logs..."));
    match &powerline.content {
        PowerlineContent::Loading { message } => assert_eq!(message, "Loading logs..."),
        _ => panic!("Expected Loading"),
    }
}

#[test]
fn powerline_test_clear() {
    let mut powerline = PowerlineBar::new();
    powerline.set_loading(s("Loading..."));
    powerline.clear();
    assert!(matches!(powerline.content, PowerlineContent::Empty));
}

#[test]
fn loading_message_is_not_cleared_by_tick() {
    let mut powerline = PowerlineBar::new();
    powerline.set_loading(s("Loading..."));
    assert!(!powerline.tick_with_elapsed(1_000_000));
    assert!(matches!(powerline.content, PowerlineContent::Loading { .. }));
}

#[test]
fn test_spinner_creation() {
    let spinner = Spinner::new("Loading pipelines...");
    assert_eq!(spinner.frame_index(), 0);
    assert_eq!(spinner.message(), "Loading pipelines...");
    assert_eq!(spinner.current_frame(), spinner_frame(0));
    assert_eq!(spinner.current_frame(), "⠋");
}

#[test]
fn test_spinner_tick() {
    let mut spinner = Spinner::new("Loading...");
    let initial_frame = spinner.current_frame();
    let updated = spinner.advance_if_due(110);
    assert!(updated);
    assert_ne!(spinner.current_frame(), initial_frame);
}

#[test]
fn test_spinner_wraps_around() {
    let mut spinner = Spinner::new("Loading...");
    for _ in 0..SPINNER_FRAME_COUNT {
        spinner.advance_frame();
    }
    assert_eq!(spinner.frame_index(), 0);
}

#[test]
fn test_set_message() {
    let mut spinner = Spinner::new("Loading...");
    spinner.set_message("Refreshing...");
    assert_eq!(spinner.message(), "Refreshing...");
}

#[test]
fn spinner_waits_for_its_frame_time() {
    let mut spinner = Spinner::new("Loading...");
    assert!(!spinner.advance_if_due(50));
    assert_eq!(spinner.frame_index(), 0);
    assert_eq!(spinner_frame(9), "⠏");
}

#[test]
fn test_status_message_creation() {
    let msg = StatusMessage::success("Operation successful");
    assert_eq!(msg.text(), "Operation successful");
    assert_eq!(msg.level(), MessageLevel::_Success);
    assert!(!msg.is_expired());
}

#[test]
fn test_message_levels() {
    assert_eq!(StatusMessage::success("Success").level(), MessageLevel::_Success);
    assert_eq!(StatusMessage::info("Info").level(), MessageLevel::Info);
    assert_eq!(StatusMessage::error("Error").level(), MessageLevel::_Error);
}

#[test]
fn test_expiration() {
    let msg = StatusMessage::success("Test").with_duration(10);
    assert!(!msg.expired_after(0));
    assert!(msg.expired_after(20));
}

#[test]
fn text_input_test_new() {
    let input = TextInput::new("Placeholder");
    assert_eq!(input.value(), "");
    assert_eq!(input.placeholder(), "Placeholder");
    assert_eq!(input.cursor_pos(), 0);
    assert!(!input.is_focused());
}

#[test]
fn test_set_value() {
    let mut input = TextInput::new("Placeholder");
    input.set_value(s("hello"));
    assert_eq!(input.value(), "hello");
    assert_eq!(input.cursor_pos(), 5);
}

#[test]
fn text_input_test_clear() {
    let mut input = TextInput::new("Placeholder");
    input.set_value(s("hello"));
    input.clear();
    assert_eq!(input.value(), "");
    assert_eq!(input.cursor_pos(), 0);
}

#[test]
fn test_handle_char() {
    let mut input = TextInput::new("Placeholder");
    input.set_focused(true);
    input.handle_key(KeyCode::Char('h'));
    input.handle_key(KeyCode::Char('i'));
    assert_eq!(input.value(), "hi");
    assert_eq!(input.cursor_pos(), 2);
}

#[test]
fn test_handle_backspace() {
    let mut input = TextInput::new("Placeholder");
    input.set_focused(true);
    input.set_value(s("hello"));
    input.handle_key(KeyCode::Backspace);
    assert_eq!(input.value(), "hell");
    assert_eq!(input.cursor_pos(), 4);
    input.handle_key(KeyCode::Backspace);
    assert_eq!(input.value(), "hel");
    assert_eq!(input.cursor_pos(), 3);
}

#[test]
fn test_handle_delete() {
    let mut input = TextInput::new("Placeholder");
    input.set_focused(true);
    input.set_value(s("hello"));
    input.handle_key(KeyCode::Home);
    input.handle_key(KeyCode::Delete);
    assert_eq!(input.value(), "ello");
    assert_eq!(input.cursor_pos(), 0);
}

#[test]
fn test_cursor_movement() {
    let mut input = TextInput::new("Placeholder");
    input.set_focused(true);
    input.set_value(s("hello"));
    input.handle_key(KeyCode::Home);
    assert_eq!(input.cursor_pos(), 0);
    input.handle_key(KeyCode::Right);
    assert_eq!(input.cursor_pos(), 1);
    input.handle_key(KeyCode::End);
    assert_eq!(input.cursor_pos(), 5);
    input.handle_key(KeyCode::Left);
    assert_eq!(input.cursor_pos(), 4);
}

#[test]
fn test_unfocused_ignores_input() {
    let mut input = TextInput::new("Placeholder");
    let handled = input.handle_key(KeyCode::Char('h'));
    assert!(!handled);
    assert_eq!(input.value(), "");
}

#[test]
fn typing_then_backspace_restores_text() {
    let mut input = TextInput::new("");
    input.set_focused(true);
    input.set_value(s("héllo"));
    input.handle_key(KeyCode::Left);
    input.handle_key(KeyCode::Char('x'));
    assert_eq!(input.value(), "héllxo");
    input.handle_key(KeyCode::Backspace);
    assert_eq!(input.value(), "héllo");
    assert_eq!(input.cursor_pos(), 4);
}

#[test]
fn spinner_elapsed_flag_keeps_frame() {
    let mut spinner = Spinner::new("Working");
    spinner.advance_frame();
    let spinner = spinner.with_elapsed_time();
    assert!(spinner.show_elapsed());
    assert_eq!(spinner.frame_index(), 1);
    assert_eq!(spinner.message(), "Working");
}

#[test]
fn log_viewer_visible_range_follows_offset() {
    let mut viewer = LogViewer::new();
    viewer.set_logs((0..10).map(|i| format!("line {}", i)).collect());
    assert_eq!(viewer.visible_range(4), (6, 10));
    viewer.scroll_up(3);
    assert_eq!(viewer.visible_range(4), (3, 7));
    viewer.scroll_up(20);
    assert_eq!(viewer.visible_range(4), (0, 0));
}
