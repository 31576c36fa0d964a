use reclaim_cli::cli::TaskFilter;
use reclaim_cli::dashboard::{AppAction, DashboardApp, Key, KeyPress};
use reclaim_cli::error::CliError;
use reclaim_cli::model::Task;

fn test_task(id: u64, title: &str) -> Task {
    Task {
        id,
        title: title.to_string(),
        status: Some("NEW".to_string()),
        due: Some("2026-02-23T17:00:00Z".to_string()),
        priority: Some("P3".to_string()),
        notes: Some("note".to_string()),
        deleted: false,
        extra: vec![],
    }
}

fn key(code: Key) -> KeyPress {
    KeyPress { key: code, ctrl: false, alt: false }
}

#[test]
fn esc_key_quits_dashboard() {
    let mut app = DashboardApp::new(vec![test_task(1, "One")], TaskFilter::Active);
    assert_eq!(app.handle_key(key(Key::Esc)), AppAction::Quit);
}

#[test]
fn ctrl_c_quits_dashboard() {
    let mut app = DashboardApp::new(vec![test_task(1, "One")], TaskFilter::Active);
    let ctrl_c = KeyPress { key: Key::Char('c'), ctrl: true, alt: false };
    assert_eq!(app.handle_key(ctrl_c), AppAction::Quit);
}

#[test]
fn colon_q_quits_dashboard() {
    let mut app = DashboardApp::new(vec![test_task(1, "One")], TaskFilter::Active);
    assert_eq!(app.handle_key(key(Key::Char(':'))), AppAction::Idle);
    assert_eq!(app.handle_key(key(Key::Char('q'))), AppAction::Quit);
}

#[test]
fn question_mark_opens_help() {
    let mut app = DashboardApp::new(vec![test_task(1, "One")], TaskFilter::Active);
    assert_eq!(app.handle_key(key(Key::Char('?'))), AppAction::Idle);
    assert!(app.show_help);
}

#[test]
fn j_and_k_navigate_task_list() {
    let mut app = DashboardApp::new(
        vec![test_task(1, "One"), test_task(2, "Two"), test_task(3, "Three")],
        TaskFilter::Active,
    );

    app.handle_key(key(Key::Char('j')));
    assert_eq!(app.selected_index(), Some(1));
    app.handle_key(key(Key::Char('j')));
    assert_eq!(app.selected_index(), Some(2));
    app.handle_key(key(Key::Char('k')));
    assert_eq!(app.selected_index(), Some(1));
}

#[test]
fn r_asks_for_a_refresh() {
    let mut app = DashboardApp::new(vec![test_task(1, "One")], TaskFilter::Active);
    assert_eq!(app.handle_key(key(Key::Char('r'))), AppAction::Refresh);
}

#[test]
fn refresh_failure_becomes_status_message() {
    let mut app = DashboardApp::new(vec![test_task(1, "One")], TaskFilter::Active);
    app.apply_refresh_result(Err(CliError::Transport {
        message: "boom\ndetails".to_string(),
        hint: None,
    }));
    assert_eq!(app.status_message, Some("Refresh failed: boom".to_string()));
    assert_eq!(app.tasks.len(), 1);
}

#[test]
fn refresh_success_replaces_tasks_and_clamps_selection() {
    let mut app = DashboardApp::new(
        vec![test_task(1, "One"), test_task(2, "Two"), test_task(3, "Three")],
        TaskFilter::Active,
    );
    app.handle_key(key(Key::End));
    assert_eq!(app.selected_index(), Some(2));
    app.apply_refresh_result(Ok(vec![test_task(9, "Only")]));
    assert_eq!(app.selected_index(), Some(0));
    assert_eq!(app.status_message, Some("Refreshed: 1 task loaded.".to_string()));
}

#[test]
fn unknown_command_is_reported() {
    let mut app = DashboardApp::new(vec![], TaskFilter::All);
    app.handle_key(key(Key::Char(':')));
    app.handle_key(key(Key::Char('x')));
    assert_eq!(app.handle_key(key(Key::Enter)), AppAction::Idle);
    assert_eq!(app.status_message, Some("Unknown command: :x".to_string()));
}

#[test]
fn backspace_edits_the_command_buffer() {
    let mut app = DashboardApp::new(vec![], TaskFilter::All);
    app.handle_key(key(Key::Char(':')));
    app.handle_key(key(Key::Char('x')));
    assert_eq!(app.command_buffer, ":x");
    app.handle_key(key(Key::Backspace));
    assert_eq!(app.command_buffer, ":");
    assert_eq!(app.handle_key(key(Key::Char('q'))), AppAction::Quit);
}

#[test]
fn map_tui_error_is_an_output_error() {
    let error = reclaim_cli::dashboard::map_tui_error("TUI poll failed", "broken pipe");
    assert_eq!(error, CliError::Output("TUI poll failed: broken pipe".to_string()));
    assert_eq!(error.render(), "TUI poll failed: broken pipe");
    assert_eq!(error.hint(), None);
}

#[test]
fn selected_task_follows_selection() {
    let app = DashboardApp::new(vec![test_task(1, "One"), test_task(2, "Two")], TaskFilter::All);
    assert_eq!(app.selected_task().map(|t| t.id), Some(1));
    let empty = DashboardApp::new(vec![], TaskFilter::All);
    assert!(empty.selected_task().is_none());
}
