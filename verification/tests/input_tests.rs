use gittui::app::state::RepoState;
use gittui::app::{App, Effect, InputMode, PanelFocus};
use gittui::git::log::{build_log, RawCommit};
use gittui::git::repo::HeadInfo;
use gittui::git::status::{FileStatus, StatusType};
use gittui::input::key::{handle_key_event, key_is_admissible};
use gittui::input::keys::{KeyCode, KeyInput};
use gittui::input::mouse::{
    handle_mouse_event, handle_mouse_event_at, MouseButton, MouseEvent, MouseEventKind, MouseState,
    PanelLayout, Rect,
};

const OID_INIT: &str = "89abcdef0123456789abcdef0123456789abcdef";

fn raw_commit(oid: &str, parents: Vec<String>, summary: &str) -> RawCommit {
    RawCommit {
        oid: oid.to_string(),
        parent_count: parents.len(),
        parents,
        summary: Some(summary.to_string()),
        message: Some(summary.to_string()),
        author: Some("Test User".to_string()),
        author_email: Some("test@example.com".to_string()),
        time: 1_700_000_000,
    }
}

fn state_with(file: &str, commits: Vec<RawCommit>) -> RepoState {
    let head_oid = commits[0].oid.clone();
    let log = build_log(&commits, &vec![], &None, &Some(head_oid.clone()), 500, 1_700_000_060);
    RepoState {
        head: HeadInfo {
            branch: Some("master".to_string()),
            oid: head_oid,
            summary: "init".to_string(),
            detached: false,
        },
        staged: vec![],
        unstaged: vec![FileStatus { path: file.to_string(), old_path: None, status: StatusType::Modified }],
        untracked: vec![],
        conflicts: vec![],
        branches: vec![],
        log,
        stashes: vec![],
        remotes: vec![],
        ahead: 0,
        behind: 0,
    }
}

/// The state after committing `file.txt` once and changing it again in the
/// working tree, so that the Changes panel and the log have content.
fn setup_app_with_changes() -> App {
    let mut app = App::new("/tmp/repo".to_string());
    app.refresh(state_with("file.txt", vec![raw_commit(OID_INIT, vec![], "init")]));
    app
}

/// The same, with a history of `n` commits in a line.
fn setup_app_with_history(n: usize) -> App {
    let mut oids: Vec<String> = Vec::new();
    for i in 0..n {
        oids.push(format!("{:040x}", i + 1));
    }
    let mut commits = Vec::new();
    for i in 0..n {
        let parents = if i + 1 < n { vec![oids[i + 1].clone()] } else { vec![] };
        commits.push(raw_commit(&oids[i], parents, &format!("commit {}", n - i)));
    }
    let mut app = App::new("/tmp/repo".to_string());
    app.refresh(state_with("file.txt", commits));
    app
}

fn key(code: KeyCode) -> KeyInput {
    KeyInput::plain(code)
}

fn key_ctrl(code: KeyCode) -> KeyInput {
    KeyInput::with_ctrl(code)
}

fn make_layout() -> PanelLayout {
    PanelLayout {
        branches: Rect::new(0, 0, 30, 10),
        staged: Rect::new(0, 10, 30, 10),
        changes: Rect::new(0, 20, 30, 10),
        stash: Rect::new(0, 30, 30, 10),
        commit_message: Rect::new(30, 0, 30, 5),
        remote: Rect::new(30, 5, 30, 5),
        diff_viewer: Rect::new(30, 10, 30, 20),
        log_graph: Rect::new(30, 30, 30, 10),
    }
}

fn mouse(kind: MouseEventKind, column: u16, row: u16) -> MouseEvent {
    MouseEvent { kind, column, row }
}

// Keyboard

#[test]
fn test_quit_key() {
    let mut app = setup_app_with_changes();
    assert!(!app.should_quit);
    handle_key_event(&mut app, key(KeyCode::Char('q')));
    assert!(app.should_quit);
}

#[test]
fn test_ctrl_c_quits() {
    let mut app = setup_app_with_changes();
    handle_key_event(&mut app, key_ctrl(KeyCode::Char('c')));
    assert!(app.should_quit);
}

#[test]
fn test_j_k_navigation() {
    let mut app = setup_app_with_changes();
    app.focus = PanelFocus::Changes;
    assert!(app.changes_len() > 0);
    handle_key_event(&mut app, key(KeyCode::Char('j')));
    let sel = app.changes_list_state.selected();
    assert!(sel.is_some());
}

#[test]
fn test_tab_switches_panel() {
    let mut app = setup_app_with_changes();
    app.focus = PanelFocus::Branches;
    handle_key_event(&mut app, key(KeyCode::Tab));
    assert_eq!(app.focus.canonical(), PanelFocus::Staged.canonical());
}

#[test]
fn test_command_palette_opens_and_closes() {
    let mut app = setup_app_with_changes();
    handle_key_event(&mut app, key_ctrl(KeyCode::Char('p')));
    assert_eq!(app.input_mode, InputMode::CommandPalette);
    assert!(app.show_command_palette);
    handle_key_event(&mut app, key(KeyCode::Esc));
    assert_eq!(app.input_mode, InputMode::Normal);
    assert!(!app.show_command_palette);
}

#[test]
fn test_command_palette_typing_filters() {
    let mut app = setup_app_with_changes();
    handle_key_event(&mut app, key_ctrl(KeyCode::Char('p')));
    handle_key_event(&mut app, key(KeyCode::Char('s')));
    assert_eq!(app.command_palette_input, "s");
    assert_eq!(app.command_palette_selected, 0);
}

#[test]
fn test_help_toggle() {
    let mut app = setup_app_with_changes();
    assert!(!app.show_help);
    handle_key_event(&mut app, key(KeyCode::Char('?')));
    assert!(app.show_help);
    handle_key_event(&mut app, key(KeyCode::Char('x')));
    assert!(!app.show_help);
}

// Mouse

#[test]
fn test_left_click_focuses_panel() {
    let mut app = setup_app_with_changes();
    let layout = make_layout();
    let mut mouse_state = MouseState::default();
    let event = mouse(MouseEventKind::Down(MouseButton::Left), 5, 21);
    handle_mouse_event(&mut app, event, Some(&layout), &mut mouse_state);
    assert_eq!(app.focus, PanelFocus::Changes);
}

#[test]
fn test_left_click_focuses_branches() {
    let mut app = setup_app_with_changes();
    let layout = make_layout();
    let mut mouse_state = MouseState::default();
    let event = mouse(MouseEventKind::Down(MouseButton::Left), 5, 1);
    handle_mouse_event(&mut app, event, Some(&layout), &mut mouse_state);
    assert_eq!(app.focus, PanelFocus::Branches);
}

#[test]
fn test_right_click_opens_context_menu() {
    let mut app = setup_app_with_changes();
    let layout = make_layout();
    let mut mouse_state = MouseState::default();
    let event = mouse(MouseEventKind::Down(MouseButton::Right), 5, 21);
    handle_mouse_event(&mut app, event, Some(&layout), &mut mouse_state);
    assert!(app.context_menu.is_some());
    assert_eq!(app.input_mode, InputMode::ContextMenu);

    let menu = app.context_menu.as_ref().unwrap();
    assert_eq!(menu.title, "Changes");
    assert!(menu.items.len() >= 3);
    assert_eq!(menu.items[0].label, "Stage");
}

#[test]
fn test_right_click_staged_context_menu() {
    let mut app = setup_app_with_changes();
    let layout = make_layout();
    let mut mouse_state = MouseState::default();
    let event = mouse(MouseEventKind::Down(MouseButton::Right), 5, 11);
    handle_mouse_event(&mut app, event, Some(&layout), &mut mouse_state);
    assert!(app.context_menu.is_some());
    let menu = app.context_menu.as_ref().unwrap();
    assert_eq!(menu.title, "Staged");
    assert_eq!(menu.items[0].label, "Unstage");
}

#[test]
fn test_context_menu_keyboard_navigation() {
    let mut app = setup_app_with_changes();
    let layout = make_layout();
    let mut mouse_state = MouseState::default();
    let event = mouse(MouseEventKind::Down(MouseButton::Right), 5, 21);
    handle_mouse_event(&mut app, event, Some(&layout), &mut mouse_state);
    assert_eq!(app.input_mode, InputMode::ContextMenu);
    assert_eq!(app.context_menu.as_ref().unwrap().selected, 0);

    handle_key_event(&mut app, key(KeyCode::Down));
    assert_eq!(app.context_menu.as_ref().unwrap().selected, 1);

    handle_key_event(&mut app, key(KeyCode::Up));
    assert_eq!(app.context_menu.as_ref().unwrap().selected, 0);

    handle_key_event(&mut app, key(KeyCode::Esc));
    assert!(app.context_menu.is_none());
    assert_eq!(app.input_mode, InputMode::Normal);
}

#[test]
fn test_scroll_up_selects_prev_in_log() {
    let mut app = setup_app_with_changes();
    let layout = make_layout();
    let mut mouse_state = MouseState::default();
    if app.log.is_empty() {
        return;
    }
    app.focus = PanelFocus::LogGraph;
    app.log_list_state.select(Some(3.min(app.log.len().saturating_sub(1))));
    let before = app.log_list_state.selected().unwrap_or(0);

    let event = mouse(MouseEventKind::ScrollUp, 35, 31);
    handle_mouse_event(&mut app, event, Some(&layout), &mut mouse_state);

    let after = app.log_list_state.selected().unwrap_or(0);
    assert!(after <= before);
}

#[test]
fn test_scroll_down_selects_next_in_log() {
    let mut app = setup_app_with_changes();
    let layout = make_layout();
    let mut mouse_state = MouseState::default();
    if app.log.is_empty() {
        return;
    }
    app.focus = PanelFocus::LogGraph;
    app.log_list_state.select(Some(0));

    let event = mouse(MouseEventKind::ScrollDown, 35, 31);
    handle_mouse_event(&mut app, event, Some(&layout), &mut mouse_state);

    let after = app.log_list_state.selected().unwrap_or(0);
    assert!(after > 0 || app.log.len() <= 1);
}

#[test]
fn test_double_click_detection_requires_same_position() {
    let mut app = setup_app_with_changes();
    let layout = make_layout();
    let mut mouse_state = MouseState::default();

    let event1 = mouse(MouseEventKind::Down(MouseButton::Left), 5, 21);
    handle_mouse_event(&mut app, event1, Some(&layout), &mut mouse_state);
    assert!(mouse_state.last_click_time.is_some());

    let event2 = mouse(MouseEventKind::Down(MouseButton::Left), 10, 25);
    handle_mouse_event(&mut app, event2, Some(&layout), &mut mouse_state);
    assert!(mouse_state.last_click_time.is_some());
}

#[test]
fn test_mouse_state_default() {
    let state = MouseState::default();
    assert!(state.last_click_time.is_none());
    assert_eq!(state.last_click_col, 0);
    assert_eq!(state.last_click_row, 0);
    assert!(state.last_click_panel.is_none());
}

#[test]
fn test_log_viewport_offset_on_click() {
    let mut app = setup_app_with_changes();
    let layout = make_layout();
    let mut mouse_state = MouseState::default();
    if app.log.len() < 5 {
        return;
    }
    app.log_viewport_offset = 3;
    let event = mouse(MouseEventKind::Down(MouseButton::Left), 35, 31);
    handle_mouse_event(&mut app, event, Some(&layout), &mut mouse_state);
    assert_eq!(app.log_list_state.selected(), Some(3));
}

// Further cases

#[test]
fn viewport_offset_counts_in_log_clicks() {
    let mut app = setup_app_with_history(8);
    assert_eq!(app.log.len(), 8);
    let layout = make_layout();
    let mut mouse_state = MouseState::default();
    app.log_viewport_offset = 3;
    let event = mouse(MouseEventKind::Down(MouseButton::Left), 35, 31);
    handle_mouse_event(&mut app, event, Some(&layout), &mut mouse_state);
    assert_eq!(app.focus, PanelFocus::LogGraph);
    assert_eq!(app.log_list_state.selected(), Some(3));
}

#[test]
fn wheel_moves_log_selection_by_three() {
    let mut app = setup_app_with_history(8);
    let layout = make_layout();
    let mut mouse_state = MouseState::default();
    app.focus = PanelFocus::LogGraph;
    app.log_list_state.select(Some(2));
    handle_mouse_event(&mut app, mouse(MouseEventKind::ScrollDown, 35, 31), Some(&layout), &mut mouse_state);
    assert_eq!(app.log_list_state.selected(), Some(5));
    handle_mouse_event(&mut app, mouse(MouseEventKind::ScrollUp, 35, 31), Some(&layout), &mut mouse_state);
    assert_eq!(app.log_list_state.selected(), Some(2));
    // Three steps down from the last but one row wrap to the second row.
    app.log_list_state.select(Some(6));
    handle_mouse_event(&mut app, mouse(MouseEventKind::ScrollDown, 35, 31), Some(&layout), &mut mouse_state);
    assert_eq!(app.log_list_state.selected(), Some(1));
}

#[test]
fn click_outside_every_panel_changes_nothing() {
    let mut app = setup_app_with_changes();
    let layout = make_layout();
    let mut mouse_state = MouseState::default();
    let before_focus = app.focus;
    let effects = handle_mouse_event(
        &mut app,
        mouse(MouseEventKind::Down(MouseButton::Left), 100, 100),
        Some(&layout),
        &mut mouse_state,
    );
    assert!(effects.is_empty());
    assert_eq!(app.focus, before_focus);
}

#[test]
fn mouse_without_layout_is_ignored() {
    let mut app = setup_app_with_changes();
    let mut mouse_state = MouseState::default();
    let effects = handle_mouse_event(
        &mut app,
        mouse(MouseEventKind::Down(MouseButton::Left), 5, 1),
        None,
        &mut mouse_state,
    );
    assert!(effects.is_empty());
    assert_eq!(app.focus, PanelFocus::Changes);
    assert!(mouse_state.last_click_time.is_none());
}

#[test]
fn double_click_on_change_stages_it() {
    let mut app = setup_app_with_changes();
    let layout = make_layout();
    let mut mouse_state = MouseState::default();
    let first = mouse(MouseEventKind::Down(MouseButton::Left), 5, 21);
    handle_mouse_event(&mut app, first, Some(&layout), &mut mouse_state);
    let now = mouse_state.last_click_time.unwrap();
    let effects = handle_mouse_event_at(&mut app, first, Some(&layout), &mut mouse_state, now, Some(100));
    assert!(effects.iter().any(|e| matches!(e, Effect::StageFile(p) if p == "file.txt")));
    assert!(mouse_state.last_click_time.is_none());
}

#[test]
fn slow_second_click_is_no_double_click() {
    let mut app = setup_app_with_changes();
    let layout = make_layout();
    let mut mouse_state = MouseState::default();
    let first = mouse(MouseEventKind::Down(MouseButton::Left), 5, 21);
    handle_mouse_event(&mut app, first, Some(&layout), &mut mouse_state);
    let now = mouse_state.last_click_time.unwrap();
    let effects = handle_mouse_event_at(&mut app, first, Some(&layout), &mut mouse_state, now, Some(5000));
    assert!(!effects.iter().any(|e| matches!(e, Effect::StageFile(_))));
    assert!(mouse_state.last_click_time.is_some());
}

#[test]
fn rect_new_cuts_at_the_edge() {
    let r = Rect::new(65530, 10, 20, 5);
    assert_eq!(r.width, 5);
    assert_eq!(r.height, 5);
}

#[test]
fn panel_at_and_row_to_index() {
    let layout = make_layout();
    assert_eq!(layout.panel_at(5, 21), Some(PanelFocus::Changes));
    assert_eq!(layout.panel_at(35, 31), Some(PanelFocus::LogGraph));
    assert_eq!(layout.panel_at(200, 200), None);
    // The first row inside the border is index 0; the border row has none.
    assert_eq!(layout.row_to_index(PanelFocus::Changes, 21), Some(0));
    assert_eq!(layout.row_to_index(PanelFocus::Changes, 20), None);
}

#[test]
fn keys_in_commit_editor_edit_the_message() {
    let mut app = setup_app_with_changes();
    handle_key_event(&mut app, key(KeyCode::Char('c')));
    assert_eq!(app.input_mode, InputMode::EditingCommitMessage);
    for ch in "fix".chars() {
        handle_key_event(&mut app, key(KeyCode::Char(ch)));
    }
    assert_eq!(app.commit_message, "fix");
    handle_key_event(&mut app, key(KeyCode::Backspace));
    assert_eq!(app.commit_message, "fi");
    handle_key_event(&mut app, key(KeyCode::Esc));
    assert_eq!(app.input_mode, InputMode::Normal);
}

#[test]
fn s_on_change_asks_to_stage_it() {
    let mut app = setup_app_with_changes();
    app.focus = PanelFocus::Changes;
    app.select_first();
    let effects = handle_key_event(&mut app, key(KeyCode::Char('s')));
    assert!(effects.iter().any(|e| matches!(e, Effect::StageFile(p) if p == "file.txt")));
}

#[test]
fn second_fetch_waits_for_the_first() {
    let mut app = setup_app_with_changes();
    let first = handle_key_event(&mut app, key(KeyCode::Char('f')));
    assert!(matches!(first.as_slice(), [Effect::Fetch]));
    assert_eq!(app.async_status.as_deref(), Some("Fetching..."));
    let second = handle_key_event(&mut app, key(KeyCode::Char('f')));
    assert!(second.is_empty());
    let push = handle_key_event(&mut app, key(KeyCode::Char('p')));
    assert!(push.is_empty());
}

#[test]
fn help_and_diff_mode_toggle_back() {
    let mut app = setup_app_with_changes();
    handle_key_event(&mut app, key(KeyCode::Char('?')));
    assert!(app.show_help);
    app.toggle_help();
    assert!(!app.show_help);
    let before = app.diff_mode;
    handle_key_event(&mut app, key_ctrl(KeyCode::Char('d')));
    handle_key_event(&mut app, key_ctrl(KeyCode::Char('d')));
    assert_eq!(app.diff_mode, before);
}

/// The commit editor with its cursor inside the last character of "ab\né".
fn app_with_cursor_inside_a_character() -> App {
    let mut app = setup_app_with_changes();
    handle_key_event(&mut app, key(KeyCode::Char('c')));
    app.commit_message = "ab\n\u{e9}".to_string();
    app.commit_cursor = 1;
    handle_key_event(&mut app, key(KeyCode::Down));
    assert_eq!(app.commit_cursor, 4);
    app
}

#[test]
fn cursor_inside_a_character_blocks_only_text_keys() {
    let mut app = app_with_cursor_inside_a_character();
    assert!(!key_is_admissible(&app, key(KeyCode::Char('x'))));
    assert!(!key_is_admissible(&app, key(KeyCode::Home)));
    assert!(key_is_admissible(&app, key(KeyCode::Left)));
    assert!(key_is_admissible(&app, key(KeyCode::Esc)));
    assert!(key_is_admissible(&app, key_ctrl(KeyCode::Char('c'))));
    // Left moves back onto a character boundary.
    handle_key_event(&mut app, key(KeyCode::Left));
    assert_eq!(app.commit_cursor, 3);
    assert!(key_is_admissible(&app, key(KeyCode::Char('x'))));
}

#[test]
fn ctrl_c_and_normal_keys_work_with_any_cursor() {
    let mut app = app_with_cursor_inside_a_character();
    handle_key_event(&mut app, key(KeyCode::Esc));
    assert_eq!(app.input_mode, InputMode::Normal);
    assert!(key_is_admissible(&app, key(KeyCode::Char('x'))));
    handle_key_event(&mut app, key(KeyCode::Char('?')));
    assert!(app.show_help);
    handle_key_event(&mut app, key(KeyCode::Char('q')));
    assert!(!app.show_help);
    assert!(!app.should_quit);
    handle_key_event(&mut app, key_ctrl(KeyCode::Char('c')));
    assert!(app.should_quit);
}
