use gittui::app::state::RepoState;
use gittui::app::{App, DiffMode, InputMode, NotificationType, PanelFocus};
use gittui::git::log::{build_log, RawCommit};
use gittui::git::repo::HeadInfo;
use gittui::git::status::{FileStatus, StatusType};

const OID_A: &str = "0123456789abcdef0123456789abcdef01234567";

fn new_app() -> App {
    App::new("/tmp/repo".to_string())
}

fn modified(path: &str) -> FileStatus {
    FileStatus { path: path.to_string(), old_path: None, status: StatusType::Modified }
}

fn one_commit(oid: &str, summary: &str) -> RawCommit {
    RawCommit {
        oid: oid.to_string(),
        parent_count: 0,
        parents: vec![],
        summary: Some(summary.to_string()),
        message: Some(format!("{}\n", summary)),
        author: Some("Test User".to_string()),
        author_email: Some("test@example.com".to_string()),
        time: 1_700_000_000,
    }
}

/// The state after one commit of `a.txt` and a later change to it in the
/// working tree.
fn app_with_modified_file() -> App {
    let mut app = new_app();
    let log = build_log(&vec![one_commit(OID_A, "add a")], &vec![], &None, &Some(OID_A.to_string()), 500, 1_700_000_100);
    app.refresh(RepoState {
        head: HeadInfo {
            branch: Some("master".to_string()),
            oid: OID_A.to_string(),
            summary: "add a".to_string(),
            detached: false,
        },
        staged: vec![],
        unstaged: vec![modified("a.txt")],
        untracked: vec![],
        conflicts: vec![],
        branches: vec![],
        log,
        stashes: vec![],
        remotes: vec![],
        ahead: 0,
        behind: 0,
    });
    app
}

#[test]
fn test_panel_next_cycles() {
    let mut app = new_app();
    app.focus = PanelFocus::Branches;
    let panels = [
        PanelFocus::Staged,
        PanelFocus::Changes,
        PanelFocus::Stash,
        PanelFocus::CommitMessage,
        PanelFocus::Remote,
        PanelFocus::DiffViewer,
        PanelFocus::LogGraph,
        PanelFocus::Branches,
    ];
    for expected in panels {
        app.next_panel();
        assert_eq!(app.focus.canonical(), expected.canonical());
    }
}

#[test]
fn test_panel_prev_cycles() {
    let mut app = new_app();
    app.focus = PanelFocus::Branches;
    app.prev_panel();
    assert_eq!(app.focus, PanelFocus::LogGraph);
}

#[test]
fn test_list_selection_next_wraps() {
    let mut app = app_with_modified_file();
    app.focus = PanelFocus::Changes;
    assert!(app.changes_len() > 0);
    app.select_first();
    assert_eq!(app.changes_list_state.selected(), Some(0));
}

#[test]
fn test_notification_created() {
    let mut app = new_app();
    app.notify("test".to_string(), NotificationType::Info);
    assert!(app.notification.is_some());
    assert_eq!(app.notification.as_ref().unwrap().message, "test");
}

#[test]
fn test_notification_error_flag() {
    let mut app = new_app();
    app.notify("oops".to_string(), NotificationType::Error);
    assert!(app.notification.as_ref().unwrap().is_error);

    app.notify("ok".to_string(), NotificationType::Info);
    assert!(!app.notification.as_ref().unwrap().is_error);
}

#[test]
fn test_input_mode_transitions() {
    let mut app = new_app();

    app.focus_commit_message();
    assert_eq!(app.input_mode, InputMode::EditingCommitMessage);

    app.leave_commit_message();
    assert_eq!(app.input_mode, InputMode::Normal);

    app.open_command_palette();
    assert_eq!(app.input_mode, InputMode::CommandPalette);

    app.close_command_palette();
    assert_eq!(app.input_mode, InputMode::Normal);
}

#[test]
fn test_app_initial_state() {
    let app = new_app();
    assert_eq!(app.input_mode, InputMode::Normal);
    assert_eq!(app.focus, PanelFocus::Changes);
    assert!(!app.should_quit);
    assert!(!app.show_help);
    assert!(!app.show_command_palette);
    assert!(app.commit_message.is_empty());
}

#[test]
fn test_toggle_help() {
    let mut app = new_app();
    assert!(!app.show_help);
    app.toggle_help();
    assert!(app.show_help);
    app.toggle_help();
    assert!(!app.show_help);
}

#[test]
fn test_is_clean_on_empty_repo() {
    let app = new_app();
    assert!(app.is_clean());
}

#[test]
fn test_is_clean_with_changes() {
    let app = app_with_modified_file();
    assert!(!app.is_clean());
}

#[test]
fn test_toggle_diff_mode() {
    let mut app = new_app();
    assert_eq!(app.diff_mode, DiffMode::Unified);
    app.toggle_diff_mode();
    assert_eq!(app.diff_mode, DiffMode::SideBySide);
    app.toggle_diff_mode();
    assert_eq!(app.diff_mode, DiffMode::Unified);
}

#[test]
fn test_jump_to_panel() {
    let mut app = new_app();
    app.jump_to_panel(1);
    assert_eq!(app.focus, PanelFocus::Branches);
    app.jump_to_panel(3);
    assert_eq!(app.focus, PanelFocus::Changes);
    app.jump_to_panel(6);
    assert_eq!(app.focus, PanelFocus::LogGraph);
}

#[test]
fn test_command_palette_state() {
    let mut app = new_app();
    app.open_command_palette();
    assert!(app.show_command_palette);
    assert!(app.command_palette_input.is_empty());
    assert_eq!(app.command_palette_selected, 0);
    assert_eq!(app.input_mode, InputMode::CommandPalette);

    app.close_command_palette();
    assert!(!app.show_command_palette);
    assert_eq!(app.input_mode, InputMode::Normal);
}

#[test]
fn jump_to_unknown_panel_number_changes_nothing() {
    let mut app = new_app();
    app.jump_to_panel(9);
    assert_eq!(app.focus, PanelFocus::Changes);
    app.jump_to_panel(0);
    assert_eq!(app.focus, PanelFocus::Changes);
}

#[test]
fn prev_undoes_next_on_every_panel() {
    let all = [
        PanelFocus::Branches,
        PanelFocus::Staged,
        PanelFocus::Changes,
        PanelFocus::Stash,
        PanelFocus::CommitMessage,
        PanelFocus::Remote,
        PanelFocus::DiffViewer,
        PanelFocus::LogGraph,
    ];
    for p in all {
        let mut app = new_app();
        app.focus = p;
        app.next_panel();
        app.prev_panel();
        assert_eq!(app.focus, p);
    }
}

#[test]
fn selection_wraps_in_both_directions() {
    let mut app = new_app();
    app.refresh_status(vec![], vec![modified("a"), modified("b"), modified("c")], vec![], vec![]);
    app.focus = PanelFocus::Changes;
    app.select_last();
    assert_eq!(app.changes_list_state.selected(), Some(2));
    app.select_next();
    assert_eq!(app.changes_list_state.selected(), Some(0));
    app.select_prev();
    assert_eq!(app.changes_list_state.selected(), Some(2));
}

#[test]
fn refresh_keeps_selection_inside_shorter_lists() {
    let mut app = new_app();
    app.refresh_status(vec![], vec![modified("a"), modified("b"), modified("c")], vec![], vec![]);
    app.focus = PanelFocus::Changes;
    app.select_last();
    app.refresh_status(vec![], vec![modified("a")], vec![], vec![]);
    assert_eq!(app.changes_list_state.selected(), Some(0));
    app.refresh_status(vec![], vec![], vec![], vec![]);
    assert_eq!(app.changes_list_state.selected(), None);
}

#[test]
fn changes_list_is_unstaged_then_untracked() {
    let mut app = new_app();
    let untracked = FileStatus { path: "new.txt".to_string(), old_path: None, status: StatusType::Untracked };
    app.refresh_status(vec![], vec![modified("a.txt")], vec![untracked], vec![]);
    assert_eq!(app.changes_len(), 2);
    assert_eq!(app.change_at(0).unwrap().path, "a.txt");
    assert_eq!(app.change_at(1).unwrap().path, "new.txt");
    assert!(app.change_at(2).is_none());
    let files = app.changed_files();
    assert_eq!(files.len(), 2);
    assert_eq!(files[1].status, StatusType::Untracked);
}

#[test]
fn notification_expires_after_three_seconds() {
    let mut app = new_app();
    app.notify("hello".to_string(), NotificationType::Success);
    app.expire_notification(2);
    assert!(app.notification.is_some());
    app.expire_notification(3);
    assert!(app.notification.is_none());
}

#[test]
fn toggling_diff_mode_twice_restores_it() {
    let mut app = app_with_modified_file();
    let before = app.diff_mode;
    app.toggle_diff_mode();
    app.toggle_diff_mode();
    assert_eq!(app.diff_mode, before);
}

#[test]
fn commit_cursor_checks() {
    let mut app = new_app();
    assert!(app.commit_cursor_valid());
    app.commit_message = "h\u{e9}llo".to_string();
    app.commit_cursor = 2;
    assert!(!app.commit_cursor_valid());
    app.commit_cursor = 3;
    assert!(app.commit_cursor_valid());
    app.commit_cursor = 99;
    assert!(app.commit_cursor_valid());
}

#[test]
fn notification_carries_its_time() {
    let mut app = new_app();
    let when = std::time::Instant::now();
    app.notify_at("saved".to_string(), NotificationType::Success, when);
    let n = app.notification.as_ref().unwrap();
    assert_eq!(n.message, "saved");
    assert!(!n.is_error);
    assert_eq!(n.when, when);
    app.notify_at("failed".to_string(), NotificationType::Error, when);
    assert!(app.notification.as_ref().unwrap().is_error);
}
