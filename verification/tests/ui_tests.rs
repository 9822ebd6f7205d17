use gittui::git::diff::{DiffLine, DiffLineType, FileDiff, HunkInfo};
use gittui::git::log::{CommitInfo, GraphSymbol};
use gittui::git::remote::{remote_info, SyncStatus};
use gittui::input::mouse::Rect;
use gittui::ui::diff_view::{
    build_diff_lines, build_side_by_side, clamp_scroll, diff_title, format_lineno, word_diff_spans,
};
use gittui::ui::help_view::{help_entries, help_line, help_lines, HelpEntry};
use gittui::ui::log_view::{log_line, log_title};
use gittui::ui::palette_view::{commands, filter_commands, palette_item, palette_rect};
use gittui::ui::panels::{header_line, remote_lines, status_line};
use gittui::ui::text::{pad_left_str, pad_right_str, StyledSpan, Tone};

fn texts(spans: &[StyledSpan]) -> Vec<String> {
    spans.iter().map(|s| s.text.clone()).collect()
}

fn joined(spans: &[StyledSpan]) -> String {
    spans.iter().map(|s| s.text.as_str()).collect()
}

fn line(t: DiffLineType, old: Option<u32>, new: Option<u32>, content: &str) -> DiffLine {
    DiffLine { line_type: t, old_lineno: old, new_lineno: new, content: content.to_string() }
}

fn sample_diff() -> FileDiff {
    FileDiff {
        path: "a.txt".to_string(),
        old_path: None,
        hunks: vec![HunkInfo {
            header: "@@ -1,2 +1,2 @@".to_string(),
            old_start: 1,
            old_lines: 2,
            new_start: 1,
            new_lines: 2,
            lines: vec![
                line(DiffLineType::Context, Some(1), Some(1), "same\n"),
                line(DiffLineType::Deletion, Some(2), None, "let x = 1;\n"),
                line(DiffLineType::Addition, None, Some(2), "let y = 1;\n"),
            ],
        }],
        is_binary: false,
        additions: 1,
        deletions: 1,
    }
}

fn commit(oid: &str, refs: Vec<String>) -> CommitInfo {
    CommitInfo {
        oid: oid.to_string(),
        short_oid: oid[..7].to_string(),
        short_hash: oid[..7].to_string(),
        summary: "fix it".to_string(),
        message: "fix it\n".to_string(),
        author: "Ann".to_string(),
        author_email: "ann@example.com".to_string(),
        date: "2024-01-01 00:00".to_string(),
        relative_date: "2 days ago".to_string(),
        refs,
        graph: vec![GraphSymbol::Commit, GraphSymbol::Line],
        graph_symbols: vec![GraphSymbol::Commit, GraphSymbol::Line],
        parent_count: 1,
        parents: vec![],
        is_head: false,
    }
}

#[test]
fn line_numbers_are_four_wide() {
    assert_eq!(format_lineno(Some(7)), "   7");
    assert_eq!(format_lineno(Some(12345)), "1234");
    assert_eq!(format_lineno(Some(9999)), "9999");
    assert_eq!(format_lineno(None), "    ");
}

#[test]
fn diff_titles() {
    assert_eq!(diff_title(&None), " DIFF ");
    assert_eq!(diff_title(&Some(sample_diff())), " DIFF \u{2014} a.txt (+1 -1) ");
}

#[test]
fn scroll_stops_at_last_page() {
    assert_eq!(clamp_scroll(5, 100, 10), 5);
    assert_eq!(clamp_scroll(95, 100, 10), 90);
    assert_eq!(clamp_scroll(3, 5, 10), 0);
}

#[test]
fn changed_words_are_highlighted() {
    let spans = word_diff_spans("let x = 1;", "let y = 1;", Tone::Red, Tone::DeletedWord);
    assert_eq!(texts(&spans), vec!["let ", "x ", "= ", "1;"]);
    let tones: Vec<Tone> = spans.iter().map(|s| s.tone).collect();
    assert_eq!(tones, vec![Tone::Red, Tone::DeletedWord, Tone::Red, Tone::Red]);
    assert_eq!(joined(&spans), "let x = 1;");
}

#[test]
fn word_spans_of_empty_line() {
    let spans = word_diff_spans("", "abc", Tone::Green, Tone::AddedWord);
    assert_eq!(spans.len(), 1);
    assert_eq!(spans[0].text, "");
    assert_eq!(spans[0].tone, Tone::Green);
}

#[test]
fn unified_rows_of_a_hunk() {
    let rows = build_diff_lines(&sample_diff());
    assert_eq!(rows.len(), 4);
    assert_eq!(joined(&rows[0]), "@@ -1,2 +1,2 @@");
    assert_eq!(joined(&rows[1]), "   1    1  same\n");
    assert!(joined(&rows[2]).starts_with("   2      -"));
    assert!(joined(&rows[2]).ends_with("let x = 1;\n"));
    assert!(joined(&rows[3]).starts_with("        2 +"));
}

#[test]
fn side_by_side_columns_have_equal_height() {
    let (left, right) = build_side_by_side(&sample_diff());
    assert_eq!(left.len(), right.len());
    assert!(!left.is_empty());
}

#[test]
fn log_rows() {
    let oid = "abcdef0123456789abcdef0123456789abcdef01";
    let c = commit(oid, vec!["main".to_string(), "origin/main".to_string(), "tag: v1".to_string()]);
    let row = log_line(&c, oid);
    let t = joined(&row);
    assert!(t.starts_with("\u{25cf}\u{2502}"));
    assert!(t.contains(" abcdef0 (HEAD) fix it (main) (origin/main) (tag: v1) <Ann> 2 days ago"));
    let tones: Vec<Tone> = row.iter().map(|s| s.tone).collect();
    assert!(tones.contains(&Tone::GreenBold));
    assert!(tones.contains(&Tone::RedBold));
    assert!(tones.contains(&Tone::MagentaBold));
    let other = log_line(&c, "");
    assert!(!joined(&other).contains("(HEAD)"));
    assert_eq!(log_title(3), " LOG (3) ");
}

#[test]
fn palette_lists_and_filters() {
    assert_eq!(commands().len(), 18);
    assert_eq!(filter_commands("").len(), 18);
    let names: Vec<&str> = filter_commands("stash").iter().map(|c| c.0).collect();
    assert_eq!(names, vec!["Stash", "Pop Stash"]);
    let upper: Vec<&str> = filter_commands("PUSH").iter().map(|c| c.0).collect();
    assert_eq!(upper, vec!["Push"]);
    assert!(filter_commands("zzz").is_empty());
}

#[test]
fn palette_geometry() {
    let r = palette_rect(Rect::new(0, 0, 100, 40));
    assert_eq!((r.x, r.y, r.width, r.height), (20, 6, 60, 20));
    let small = palette_rect(Rect::new(0, 0, 20, 10));
    assert_eq!((small.x, small.y, small.width, small.height), (0, 1, 30, 6));
}

#[test]
fn palette_rows_are_padded() {
    let row = palette_item("Fetch", "f", 20, false);
    assert_eq!(texts(&row), vec!["  ", "Fetch", "          ", "f", "  "]);
    let sel = palette_item("Fetch", "f", 5, true);
    assert_eq!(sel[2].text, "");
    assert_eq!(sel[1].tone, Tone::Selected);
}

#[test]
fn help_rows() {
    let entries = help_entries();
    assert_eq!(help_lines().len(), entries.len());
    let row = help_line(HelpEntry::Entry("Tab", "Next panel"));
    assert_eq!(texts(&row), vec!["  ", "Tab             ", "Next panel"]);
}

#[test]
fn padding_helpers() {
    assert_eq!(pad_left_str("7", 3), "  7");
    assert_eq!(pad_right_str("ab", 4), "ab  ");
    assert_eq!(pad_left_str("long", 2), "long");
}

#[test]
fn remote_panel_rows() {
    let none = remote_lines(&vec![], &None, 10, false);
    assert_eq!(joined(&none[0]), " (no remotes configured)");
    assert_eq!(none.len(), 3);
    let mut r = remote_info("origin".to_string(), Some("git@host:x".to_string()), None);
    r.sync_status = SyncStatus::Diverged { ahead: 2, behind: 1 };
    let rows = remote_lines(&vec![r], &Some("Fetching...".to_string()), 10, true);
    assert_eq!(joined(&rows[0]), " origin \u{2191}2 \u{2193}1 diverged");
    assert_eq!(joined(&rows[1]), "   git@host:x");
    assert_eq!(joined(&rows[2]), " \u{21bb} Fetching...");
    assert_eq!(joined(&rows[4]), " [Fetch]   [Pull]   [Push] ");
    assert_eq!(rows[4][0].tone, Tone::Cyan);
}

#[test]
fn status_and_header_bars() {
    let clean = status_line(true, None, false);
    assert!(joined(&clean).ends_with("\u{2713} clean"));
    let msg = "Committed".to_string();
    let dirty = status_line(false, Some(&msg), true);
    assert!(joined(&dirty).ends_with("\u{2717} dirty  \u{2502} Committed"));
    assert_eq!(dirty.last().unwrap().tone, Tone::RedBold);
    let head = header_line(&Some("main".to_string()), 2, 3);
    assert!(joined(&head).contains("main"));
    assert!(joined(&head).contains("\u{2191}2 \u{2193}3"));
    let detached = header_line(&None, 0, 0);
    assert!(joined(&detached).contains("(detached)"));
}

// List panels, popups and layout

use gittui::app::{ContextMenu, ContextMenuItem};
use gittui::git::branch::BranchInfo;
use gittui::git::stash::StashInfo;
use gittui::git::status::{FileStatus, StatusType};
use gittui::ui::layout::{centered_rect, LayoutAreas};
use gittui::ui::lists::{
    branch_lines, change_lines, highlighted_change, list_title, staged_lines, stash_lines,
};
use gittui::ui::popups::{
    commit_buttons, commit_text, commit_title, confirm_buttons, context_menu_area,
    context_menu_fits, context_menu_lines, context_menu_width, framed_title, option_lines,
    search_line,
};

fn file(path: &str, status: StatusType) -> FileStatus {
    FileStatus { path: path.to_string(), old_path: None, status }
}

fn menu(items: &[(&str, &str)], selected: usize, x: u16, y: u16) -> ContextMenu {
    ContextMenu {
        title: "Changes".to_string(),
        items: items
            .iter()
            .map(|(l, s)| ContextMenuItem { label: l.to_string(), shortcut: s.to_string() })
            .collect(),
        selected,
        x,
        y,
    }
}

#[test]
fn list_titles() {
    assert_eq!(list_title("BRANCHES", 3), " BRANCHES (3) ");
    assert_eq!(list_title("STASH", 0), " STASH (0) ");
}

#[test]
fn branch_rows_show_tracking() {
    let b = BranchInfo {
        name: "main".to_string(),
        is_current: true,
        is_remote: false,
        upstream: Some("origin/main".to_string()),
        oid: String::new(),
        summary: String::new(),
        ahead: 2,
        behind: 0,
        last_commit_msg: None,
    };
    let rows = branch_lines(&vec![b]);
    assert_eq!(texts(&rows[0]), vec!["\u{25cf} ", "main", " -> origin/main", " \u{2191}2"]);
    assert_eq!(rows[0][1].tone, Tone::GreenBold);
    let empty = branch_lines(&vec![]);
    assert_eq!(joined(&empty[0]), "  (no branches)");
}

#[test]
fn file_rows() {
    let staged = staged_lines(&vec![file("a.rs", StatusType::New)]);
    assert_eq!(texts(&staged[0]), vec!["\u{2713} ", "a.rs"]);
    assert_eq!(staged[0][0].tone, Tone::Green);
    assert_eq!(joined(&staged_lines(&vec![])[0]), "  (no staged files)");

    let changes = change_lines(&vec![file("m.rs", StatusType::Modified)], &vec![file("u.rs", StatusType::Untracked)]);
    assert_eq!(changes.len(), 2);
    assert_eq!(texts(&changes[0]), vec!["M ", "m.rs"]);
    assert_eq!(changes[0][0].tone, Tone::YellowBold);
    assert_eq!(texts(&changes[1]), vec!["? ", "u.rs"]);
    assert_eq!(changes[1][1].tone, Tone::Gray);
    assert_eq!(joined(&change_lines(&vec![], &vec![])[0]), "  (working tree clean)");
    assert_eq!(highlighted_change(Some(1), true), Some(1));
    assert_eq!(highlighted_change(Some(1), false), None);
}

#[test]
fn stash_rows() {
    let s = StashInfo { index: 2, message: "WIP on main".to_string(), oid: String::new() };
    let rows = stash_lines(&vec![s]);
    assert_eq!(texts(&rows[0]), vec!["stash@{2} ", "WIP on main"]);
    assert_eq!(joined(&stash_lines(&vec![])[0]), "  (no stashes)");
}

#[test]
fn commit_panel_parts() {
    assert_eq!(commit_title(false), " COMMIT ");
    assert_eq!(commit_title(true), " COMMIT (AMEND) ");
    assert_eq!(commit_text("", false).text, "Enter commit message...");
    assert_eq!(commit_text("", true).text, "");
    assert_eq!(commit_text("msg", false).tone, Tone::Gray);
    let b = commit_buttons(true, true);
    assert_eq!(texts(&b), vec![" [Commit] ", " ", " [Amend] "]);
    assert_eq!(b[0].tone, Tone::Green);
    assert_eq!(b[2].tone, Tone::YellowButton);
    assert_eq!(framed_title("Help"), " Help ");
}

#[test]
fn context_menu_geometry_and_rows() {
    let m = menu(&[("Stage", "s"), ("Discard", "d")], 1, 70, 30);
    // "Discard" + "d" + 6 = 14; the title needs 7 + 4 = 11.
    assert_eq!(context_menu_width(&m), 14);
    let area = context_menu_area(&m, 80, 24);
    assert_eq!((area.x, area.y, area.width, area.height), (66, 20, 14, 4));
    let rows = context_menu_lines(&m, 14);
    assert_eq!(texts(&rows[0]), vec![" Stage", "  ", "s", " "]);
    assert_eq!(rows[0][0].tone, Tone::White);
    assert_eq!(rows[1][0].tone, Tone::YellowButton);
    assert_eq!(rows[1][2].tone, Tone::YellowDim);
    let none = menu(&[], 0, 0, 0);
    assert_eq!(context_menu_width(&none), 20);
}

#[test]
fn dialog_parts() {
    let b = confirm_buttons(1);
    assert_eq!(texts(&b), vec!["  ", " [Yes] ", "  ", " [No] "]);
    assert_eq!(b[1].tone, Tone::Green);
    assert_eq!(b[3].tone, Tone::RedButton);
    let opts = option_lines(&vec!["one".to_string(), "two".to_string()], 1);
    assert_eq!(joined(&opts[0]), "  one");
    assert_eq!(joined(&opts[1]), "> two");
    assert_eq!(opts[1][0].tone, Tone::MagentaButton);
}

#[test]
fn search_bar_rows() {
    assert_eq!(joined(&search_line("", 0, 0)), " / ");
    assert_eq!(joined(&search_line("fix", 0, 0)), " / fix (no results)");
    assert_eq!(joined(&search_line("fix", 4, 1)), " / fix (2/4)");
}

#[test]
fn screen_layout() {
    let areas = LayoutAreas::compute(Rect::new(0, 0, 100, 40));
    assert_eq!((areas.header.y, areas.header.height), (0, 1));
    assert_eq!((areas.statusbar.y, areas.statusbar.height), (39, 1));
    assert_eq!(areas.left_panel.width + areas.right_panel.width, 100);
    assert_eq!(areas.branches.y, 1);
    assert_eq!(areas.diff_viewer.x, areas.right_panel.x);
    let pl = areas.panel_layout();
    assert_eq!(pl.commit_message, areas.commit);
    let c = centered_rect(50, 40, Rect::new(0, 0, 100, 50));
    assert_eq!((c.x, c.y, c.width, c.height), (25, 15, 50, 20));
}

#[test]
fn menu_size_check() {
    assert!(context_menu_fits(&menu(&[("Stage", "s")], 0, 0, 0)));
}
