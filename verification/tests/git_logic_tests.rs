use gittui::git::branch::{
    local_branch_info, may_delete_branch, remote_branch_info, sort_branches, str_le, BranchInfo,
};
use gittui::git::commit::{amend_message, check_commit_message};
use gittui::git::conflict::{
    conflict_entry, conflict_side_oid, is_cherry_picking, is_merging, is_rebasing,
    parse_conflict_markers_from_string, resolution_oid, ConflictResolution, ConflictSide,
    IndexSide, RepoState,
};
use gittui::git::diff::{
    collect_file_diffs, find_file_diff, generate_hunk_patch, parse_diff, unified_diff_string,
    DiffLineType, DiffWalkLine, RawHunk,
};
use gittui::git::log::{
    build_log, format_relative_time, graph_step_exec, oids_cuttable, refs_for, render_graph_line, GraphSymbol,
    RawCommit, RefEntry,
};
use gittui::git::remote::{ahead_behind_or_zero, remote_info, SyncStatus};
use gittui::git::repo::{strip_heads_prefix, unborn_head_info};
use gittui::git::stash::{default_stash_message, stash_clear_order};
use gittui::git::status::{classify_statuses, StatusEntry, StatusFlags, StatusType};

fn oid(n: u32) -> String {
    format!("{:040x}", n)
}

fn raw(n: u32, parents: Vec<u32>, summary: &str, time: i64) -> RawCommit {
    RawCommit {
        oid: oid(n),
        parent_count: parents.len(),
        parents: parents.into_iter().map(oid).collect(),
        summary: Some(summary.to_string()),
        message: Some(format!("{}\n", summary)),
        author: Some("Test User".to_string()),
        author_email: Some("test@example.com".to_string()),
        time,
    }
}

/// A history of three commits in a line, newest first.
fn three_commits() -> Vec<RawCommit> {
    vec![
        raw(3, vec![2], "third", 300),
        raw(2, vec![1], "second", 200),
        raw(1, vec![], "first", 100),
    ]
}

fn hunk(header: &str, old_start: u32, old_lines: u32, new_start: u32, new_lines: u32) -> RawHunk {
    RawHunk { header: header.as_bytes().to_vec(), old_start, old_lines, new_start, new_lines }
}

fn walk_line(path: &str, h: Option<RawHunk>, origin: char, content: &str, old: Option<u32>, new: Option<u32>) -> DiffWalkLine {
    DiffWalkLine {
        binary: false,
        old_file: Some(path.to_string()),
        new_file: Some(path.to_string()),
        hunk: h,
        origin,
        content: content.as_bytes().to_vec(),
        old_lineno: old,
        new_lineno: new,
    }
}

/// The walk of `a.txt` going from "line1\nline2\nline3\n" to
/// "line1\nnewline\nline3\nextra\n".
fn changed_walk() -> Vec<DiffWalkLine> {
    let h = hunk("@@ -1,3 +1,4 @@\n", 1, 3, 1, 4);
    vec![
        walk_line("a.txt", None, 'F', "diff --git a/a.txt b/a.txt\n", None, None),
        walk_line("a.txt", Some(h.clone()), 'H', "@@ -1,3 +1,4 @@\n", None, None),
        walk_line("a.txt", Some(h.clone()), ' ', "line1\n", Some(1), Some(1)),
        walk_line("a.txt", Some(h.clone()), '-', "line2\n", Some(2), None),
        walk_line("a.txt", Some(h.clone()), '+', "newline\n", None, Some(2)),
        walk_line("a.txt", Some(h.clone()), ' ', "line3\n", Some(3), Some(3)),
        walk_line("a.txt", Some(h), '+', "extra\n", None, Some(4)),
    ]
}

fn no_flags() -> StatusFlags {
    StatusFlags {
        conflicted: false,
        index_new: false,
        index_modified: false,
        index_deleted: false,
        index_renamed: false,
        index_typechange: false,
        wt_new: false,
        wt_modified: false,
        wt_deleted: false,
        wt_renamed: false,
        wt_typechange: false,
    }
}

fn entry(path: &str, flags: StatusFlags) -> StatusEntry {
    StatusEntry { path: Some(path.to_string()), flags, head_to_index_old: None, index_to_workdir_old: None }
}

fn branch(name: &str, current: bool) -> BranchInfo {
    BranchInfo {
        name: name.to_string(),
        is_current: current,
        is_remote: false,
        upstream: None,
        oid: String::new(),
        summary: String::new(),
        ahead: 0,
        behind: 0,
        last_commit_msg: None,
    }
}

// Commits

#[test]
fn test_commit_empty_message_rejected() {
    let result = check_commit_message("   ");
    assert!(result.is_err());
}

#[test]
fn commit_message_rules() {
    assert!(check_commit_message("").is_err());
    assert!(check_commit_message("\n\t ").is_err());
    assert_eq!(check_commit_message(" x "), Ok(()));
    assert_eq!(check_commit_message("").unwrap_err(), "commit message must not be empty");
}

#[test]
fn amend_keeps_the_old_message_when_none_is_given() {
    assert_eq!(amend_message(Some("new"), Some("old")), "new");
    assert_eq!(amend_message(None, Some("old")), "old");
    assert_eq!(amend_message(None, None), "");
}

// The log

#[test]
fn test_log_empty_repo() {
    let log_entries = build_log(&vec![], &vec![], &None, &None, 100, 0);
    assert!(log_entries.is_empty());
}

#[test]
fn test_log_single_commit() {
    let log_entries = build_log(&vec![raw(1, vec![], "first commit", 0)], &vec![], &None, &Some(oid(1)), 100, 0);
    assert_eq!(log_entries.len(), 1);
    assert_eq!(log_entries[0].summary, "first commit");
}

#[test]
fn test_log_multiple_commits() {
    let log_entries = build_log(&three_commits(), &vec![], &None, &Some(oid(3)), 100, 400);
    assert_eq!(log_entries.len(), 3);
    assert_eq!(log_entries[0].summary, "third");
    assert_eq!(log_entries[1].summary, "second");
    assert_eq!(log_entries[2].summary, "first");
}

#[test]
fn test_log_max_count() {
    let log_entries = build_log(&three_commits(), &vec![], &None, &Some(oid(3)), 2, 400);
    assert_eq!(log_entries.len(), 2);
    assert_eq!(log_entries[0].summary, "third");
    assert_eq!(log_entries[1].summary, "second");
}

#[test]
fn test_log_ref_decorations() {
    let refs = vec![
        RefEntry { target: Some(oid(1)), name: Some("master".to_string()) },
        RefEntry { target: Some(oid(1)), name: Some("feature-x".to_string()) },
    ];
    let log_entries = build_log(&vec![raw(1, vec![], "init", 0)], &refs, &None, &Some(oid(1)), 100, 0);
    let head_entry = &log_entries[0];
    assert!(head_entry.is_head || !head_entry.refs.is_empty());
    assert_eq!(head_entry.refs, vec!["master".to_string(), "feature-x".to_string()]);
}

#[test]
fn test_log_head_flag() {
    let commits = vec![raw(2, vec![1], "second", 200), raw(1, vec![], "init", 100)];
    let log_entries = build_log(&commits, &vec![], &None, &Some(oid(2)), 100, 300);
    assert!(log_entries[0].is_head);
    assert!(!log_entries[1].is_head);
}

#[test]
fn test_log_commit_info_fields() {
    let log_entries = build_log(&vec![raw(1, vec![], "test message", 0)], &vec![], &None, &Some(oid(1)), 100, 0);
    let entry = &log_entries[0];
    assert_eq!(entry.summary, "test message");
    assert_eq!(entry.author, "Test User");
    assert_eq!(entry.author_email, "test@example.com");
    assert!(!entry.oid.is_empty());
    assert!(!entry.short_oid.is_empty());
    assert_eq!(entry.short_oid.len(), 7);
    assert_eq!(entry.parent_count, 0);
}

#[test]
fn log_dates_and_missing_fields() {
    let mut c = raw(1, vec![], "x", 0);
    c.author = None;
    c.summary = None;
    let log_entries = build_log(&vec![c], &vec![], &None, &Some(oid(1)), 10, 7200);
    let e = &log_entries[0];
    assert_eq!(e.author, "Unknown");
    assert_eq!(e.summary, "");
    assert_eq!(e.date, "1970-01-01 00:00");
    assert_eq!(e.relative_date, "2 hours ago");
    assert_eq!(e.short_oid, "0000000");
    assert_eq!(e.short_hash, e.short_oid);
    assert_eq!(e.graph, vec![GraphSymbol::Commit]);
}

#[test]
fn detached_head_is_a_decoration() {
    let refs = vec![RefEntry { target: Some(oid(1)), name: Some("HEAD".to_string()) }];
    assert!(refs_for(&refs, &None, &oid(1)).is_empty());
    assert_eq!(refs_for(&refs, &Some(oid(1)), &oid(1)), vec!["HEAD".to_string()]);
    assert!(refs_for(&refs, &Some(oid(1)), &oid(2)).is_empty());
}

#[test]
fn relative_time_texts() {
    assert_eq!(format_relative_time(-5), "just now");
    assert_eq!(format_relative_time(59), "just now");
    assert_eq!(format_relative_time(60), "1 minute ago");
    assert_eq!(format_relative_time(150), "2 minutes ago");
    assert_eq!(format_relative_time(3600), "1 hour ago");
    assert_eq!(format_relative_time(86_399), "23 hours ago");
    assert_eq!(format_relative_time(86_400), "1 day ago");
    assert_eq!(format_relative_time(2_592_000), "1 month ago");
    assert_eq!(format_relative_time(31_535_999), "12 months ago");
    assert_eq!(format_relative_time(31_536_000), "1 year ago");
    assert_eq!(format_relative_time(100_000_000), "3 years ago");
}

#[test]
fn graph_of_a_merge() {
    // 4 merges 3 and 2; 3 and 2 both have 1 as parent.
    let commits = vec![
        raw(4, vec![3, 2], "merge", 400),
        raw(3, vec![1], "left", 300),
        raw(2, vec![1], "right", 200),
        raw(1, vec![], "root", 100),
    ];
    let log = build_log(&commits, &vec![], &None, &Some(oid(4)), 10, 500);
    let lines: Vec<String> = log.iter().map(|c| render_graph_line(&c.graph)).collect();
    assert_eq!(lines[0], "*\\");
    assert_eq!(lines[1], "*|");
    assert_eq!(lines[2], "|*");
    assert_eq!(lines[3], "*|");
    assert_eq!(log[0].parent_count, 2);
    for c in &log {
        assert_eq!(c.graph.iter().filter(|s| **s == GraphSymbol::Commit).count(), 1);
    }
}

#[test]
fn graph_step_marks_the_commit_lane() {
    let mut lanes: Vec<Option<String>> = Vec::new();
    let row = graph_step_exec(&mut lanes, &oid(2), &vec![oid(1)]);
    assert_eq!(row, vec![GraphSymbol::Commit]);
    assert_eq!(lanes, vec![Some(oid(1))]);
    let row = graph_step_exec(&mut lanes, &oid(1), &vec![]);
    assert_eq!(row, vec![GraphSymbol::Commit]);
    assert!(lanes.is_empty());
}

#[test]
fn graph_symbols_as_text() {
    let row = [GraphSymbol::Commit, GraphSymbol::Line, GraphSymbol::Merge, GraphSymbol::Branch, GraphSymbol::Horizontal, GraphSymbol::Empty];
    assert_eq!(render_graph_line(&row), "*|\\/- ");
}

// Diffs

#[test]
fn test_diff_unstaged() {
    let d = parse_diff(&changed_walk(), "a.txt");
    assert!(!d.hunks.is_empty());
    assert!(d.additions > 0 || d.deletions > 0);
}

#[test]
fn test_diff_additions_deletions_count() {
    let d = parse_diff(&changed_walk(), "a.txt");
    assert!(d.additions >= 1);
    assert!(d.deletions >= 1);
    assert_eq!(d.additions, 2);
    assert_eq!(d.deletions, 1);
}

#[test]
fn test_diff_no_changes_empty() {
    let d = parse_diff(&vec![], "a.txt");
    assert!(d.hunks.is_empty());
    assert_eq!(d.additions, 0);
    assert_eq!(d.deletions, 0);
}

#[test]
fn parsed_hunk_fields() {
    let d = parse_diff(&changed_walk(), "a.txt");
    assert_eq!(d.path, "a.txt");
    assert!(d.old_path.is_none());
    assert!(!d.is_binary);
    assert_eq!(d.hunks.len(), 1);
    let h = &d.hunks[0];
    assert_eq!(h.header, "@@ -1,3 +1,4 @@");
    assert_eq!((h.old_start, h.old_lines, h.new_start, h.new_lines), (1, 3, 1, 4));
    assert_eq!(h.lines.len(), 5);
    assert_eq!(h.lines[1].line_type, DiffLineType::Deletion);
    assert_eq!(h.lines[1].content, "line2\n");
    assert_eq!(h.lines[1].old_lineno, Some(2));
    assert_eq!(h.lines[2].line_type, DiffLineType::Addition);
    assert_eq!(h.lines[0].line_type, DiffLineType::Context);
}

#[test]
fn renamed_file_keeps_old_path() {
    let mut walk = changed_walk();
    for l in walk.iter_mut() {
        l.old_file = Some("old.txt".to_string());
    }
    let d = parse_diff(&walk, "a.txt");
    assert_eq!(d.old_path, Some("old.txt".to_string()));
}

#[test]
fn hunk_patch_text() {
    let d = parse_diff(&changed_walk(), "a.txt");
    assert!(generate_hunk_patch(&d, 1).is_none());
    let p = generate_hunk_patch(&d, 0).unwrap();
    assert_eq!(
        p,
        "--- a/a.txt\n+++ b/a.txt\n@@ -1,3 +1,4 @@\n line1\n-line2\n+newline\n line3\n+extra\n"
    );
}

#[test]
fn hunk_patch_adds_missing_newline() {
    let h = hunk("@@ -1 +1 @@\n", 1, 1, 1, 1);
    let walk = vec![
        walk_line("b.txt", Some(h.clone()), 'H', "@@ -1 +1 @@\n", None, None),
        walk_line("b.txt", Some(h.clone()), '-', "old", Some(1), None),
        walk_line("b.txt", Some(h), '+', "new", None, Some(1)),
    ];
    let d = parse_diff(&walk, "b.txt");
    assert_eq!(generate_hunk_patch(&d, 0).unwrap(), "--- a/b.txt\n+++ b/b.txt\n@@ -1 +1 @@\n-old\n+new\n");
}

#[test]
fn unified_text_of_a_walk() {
    let s = unified_diff_string(&changed_walk());
    assert_eq!(
        s,
        "diff --git a/a.txt b/a.txt\n@@ -1,3 +1,4 @@\n line1\n-line2\n+newline\n line3\n+extra\n"
    );
}

#[test]
fn walks_of_several_files() {
    let mut walk = changed_walk();
    let h = hunk("@@ -0,0 +1 @@\n", 0, 0, 1, 1);
    walk.push(walk_line("b.txt", Some(h.clone()), 'H', "@@ -0,0 +1 @@\n", None, None));
    walk.push(walk_line("b.txt", Some(h), '+', "hello\n", None, Some(1)));
    let files = collect_file_diffs(&walk);
    assert_eq!(files.len(), 2);
    assert_eq!(files[0].path, "a.txt");
    assert_eq!(files[1].path, "b.txt");
    assert_eq!(files[1].additions, 1);
    let b = find_file_diff(files, "b.txt").unwrap();
    assert_eq!(b.hunks[0].lines[0].line_type, DiffLineType::HunkHeader);
    assert_eq!(b.hunks[0].lines[1].content, "hello\n");
    assert!(find_file_diff(collect_file_diffs(&walk), "c.txt").is_none());
}

// Status

#[test]
fn statuses_are_grouped() {
    let mut staged_new = no_flags();
    staged_new.index_new = true;
    let mut both = no_flags();
    both.index_modified = true;
    both.wt_modified = true;
    let mut untracked = no_flags();
    untracked.wt_new = true;
    let mut conflicted = no_flags();
    conflicted.conflicted = true;
    conflicted.index_modified = true;
    let entries = vec![
        entry("new.rs", staged_new),
        entry("both.rs", both),
        entry("u.txt", untracked),
        entry("c.txt", conflicted),
        StatusEntry { path: None, flags: staged_new, head_to_index_old: None, index_to_workdir_old: None },
    ];
    let (staged, unstaged, untracked, conflicts) = classify_statuses(&entries);
    assert_eq!(staged.len(), 3);
    assert_eq!(staged[2].path, "<invalid utf-8>");
    assert_eq!(staged[0].path, "new.rs");
    assert_eq!(staged[0].status, StatusType::New);
    assert_eq!(staged[1].path, "both.rs");
    assert_eq!(staged[1].status, StatusType::Modified);
    assert_eq!(unstaged.len(), 1);
    assert_eq!(unstaged[0].path, "both.rs");
    assert_eq!(untracked.len(), 1);
    assert_eq!(untracked[0].status, StatusType::Untracked);
    assert_eq!(conflicts.len(), 1);
    assert_eq!(conflicts[0].status, StatusType::Conflicted);
}

#[test]
fn status_labels() {
    assert_eq!(StatusType::TypeChange.as_str(), "typechange");
    assert_eq!(StatusType::Untracked.as_str(), "untracked");
}

// Branches, remotes, HEAD, stashes

#[test]
fn test_branch_delete_current_fails() {
    let head = Some("master".to_string());
    assert!(!may_delete_branch(&head, "master"));
    assert!(may_delete_branch(&head, "feature"));
    assert!(may_delete_branch(&None, "master"));
}

#[test]
fn branches_sort_current_first_then_by_name() {
    let sorted = sort_branches(vec![branch("zeta", false), branch("alpha", false), branch("main", true)]);
    let names: Vec<&str> = sorted.iter().map(|b| b.name.as_str()).collect();
    assert_eq!(names, vec!["main", "alpha", "zeta"]);
    assert!(str_le(&"ab".to_string(), &"b".to_string()));
    assert!(!str_le(&"b".to_string(), &"ab".to_string()));
}

#[test]
fn remote_branch_fields() {
    let b = remote_branch_info("origin/main".to_string(), Some(oid(5)), "tip".to_string());
    assert!(b.is_remote);
    assert!(!b.is_current);
    assert_eq!(b.oid, oid(5));
    let none = remote_branch_info("origin/x".to_string(), None, String::new());
    assert_eq!(none.oid, "");
}

#[test]
fn heads_prefix_is_stripped() {
    assert_eq!(strip_heads_prefix("refs/heads/feature/x"), Some("feature/x".to_string()));
    assert_eq!(strip_heads_prefix("refs/tags/v1"), None);
    let h = unborn_head_info(Some("refs/heads/main".to_string()));
    assert_eq!(h.branch, Some("main".to_string()));
    assert!(h.oid.is_empty());
    assert!(!h.detached);
}

#[test]
fn sync_status_from_counts() {
    assert_eq!(SyncStatus::from_counts(0, 0), SyncStatus::UpToDate);
    assert_eq!(SyncStatus::from_counts(2, 0), SyncStatus::Ahead(2));
    assert_eq!(SyncStatus::from_counts(0, 3), SyncStatus::Behind(3));
    assert_eq!(SyncStatus::from_counts(1, 1), SyncStatus::Diverged { ahead: 1, behind: 1 });
    assert_eq!(ahead_behind_or_zero(None), (0, 0));
    assert_eq!(ahead_behind_or_zero(Some((4, 5))), (4, 5));
    let r = remote_info("origin".to_string(), Some("u".to_string()), None);
    assert_eq!(r.name, "origin");
    assert_eq!(r.url, "u");
}

#[test]
fn stash_messages_and_clear_order() {
    assert_eq!(default_stash_message(false, false), "WIP on gittui stash");
    assert_eq!(default_stash_message(true, false), "WIP on gittui stash (with untracked)");
    assert_eq!(default_stash_message(true, true), "WIP on gittui stash (keep index)");
    assert_eq!(stash_clear_order(0), None);
    assert_eq!(stash_clear_order(3), Some(vec![2, 1, 0]));
}

// Conflicts

#[test]
fn conflict_markers_are_found() {
    let text = "a\n<<<<<<< HEAD\nours\n=======\ntheirs\n>>>>>>> branch\nb\n";
    let regions = parse_conflict_markers_from_string(text);
    assert_eq!(regions.len(), 1);
    let r = &regions[0];
    assert_eq!((r.start_line, r.end_line), (2, 6));
    assert_eq!(r.ours, vec!["ours".to_string()]);
    assert_eq!(r.theirs, vec!["theirs".to_string()]);
    assert!(parse_conflict_markers_from_string("no markers\n").is_empty());
}

#[test]
fn unfinished_conflict_is_ignored() {
    let text = "<<<<<<< HEAD\nours\n=======\ntheirs\n";
    assert!(parse_conflict_markers_from_string(text).is_empty());
}

#[test]
fn conflict_sides_and_resolutions() {
    let side = |o: u32| Some(IndexSide { path: b"f".to_vec(), id: oid(o) });
    let e = conflict_entry(side(1), side(2), None);
    assert_eq!(conflict_side_oid(&e, ConflictSide::Ours), Some(oid(2)));
    assert_eq!(conflict_side_oid(&e, ConflictSide::Theirs), None);
    assert_eq!(resolution_oid(&e, ConflictResolution::ChooseOurs), Ok(oid(2)));
    assert!(resolution_oid(&e, ConflictResolution::ChooseTheirs).is_err());
    assert_eq!(e.path, "f");
    assert_eq!(e.sides, vec![ConflictSide::Ancestor, ConflictSide::Ours]);
    assert!(is_merging(RepoState::Merge));
    assert!(!is_merging(RepoState::Clean));
    assert!(is_rebasing(RepoState::RebaseInteractive));
    assert!(is_cherry_picking(RepoState::CherryPick));
}

#[test]
fn hex_oids_can_be_cut() {
    assert!(oids_cuttable(&three_commits()));
    let mut odd = raw(1, vec![], "x", 0);
    odd.oid = "abcdef\u{e9}xyz".to_string();
    assert!(!oids_cuttable(&vec![odd]));
}

#[test]
fn only_the_checked_out_branch_is_current() {
    let head = Some("main".to_string());
    let main = local_branch_info("main".to_string(), Some(oid(1)), head.clone(), None, "s".to_string(), 0, 0);
    let other = local_branch_info("other".to_string(), Some(oid(1)), head, None, String::new(), 0, 0);
    assert!(main.is_current);
    assert!(!other.is_current);
    assert_eq!(main.last_commit_msg, Some("s".to_string()));
    assert_eq!(other.last_commit_msg, None);
    let detached = local_branch_info("main".to_string(), Some(oid(1)), None, None, String::new(), 0, 0);
    assert!(!detached.is_current);
}

#[test]
fn diff_counts_match_hunk_lines() {
    let d = parse_diff(&changed_walk(), "a.txt");
    let adds: usize = d.hunks.iter().map(|h| h.lines.iter().filter(|l| l.line_type == DiffLineType::Addition).count()).sum();
    let dels: usize = d.hunks.iter().map(|h| h.lines.iter().filter(|l| l.line_type == DiffLineType::Deletion).count()).sum();
    assert_eq!(d.additions, adds);
    assert_eq!(d.deletions, dels);
    assert!(d.hunks.iter().all(|h| h.lines.iter().all(|l| l.line_type != DiffLineType::HunkHeader)));
}

#[test]
fn log_entries_are_well_formed() {
    let log = build_log(&three_commits(), &vec![], &None, &Some(oid(3)), 10, 400);
    for (i, c) in log.iter().enumerate() {
        assert_eq!(c.graph, c.graph_symbols);
        assert_eq!(c.graph.iter().filter(|s| **s == GraphSymbol::Commit).count(), 1);
        assert_eq!(c.short_oid, &c.oid[..7]);
        assert_eq!(c.short_hash, c.short_oid);
        assert_eq!(c.is_head, i == 0);
        assert_eq!(c.parent_count, c.parents.len());
    }
}

#[test]
fn head_flag_follows_heads_commit_not_walk_order() {
    // A walk started at a branch tip above HEAD: HEAD is the second commit.
    let log = build_log(&three_commits(), &vec![], &None, &Some(oid(2)), 10, 400);
    assert!(!log[0].is_head);
    assert!(log[1].is_head);
    assert!(!log[2].is_head);
    // HEAD outside the walk, or pointing at no commit: nothing is marked.
    let log = build_log(&three_commits(), &vec![], &None, &Some(oid(9)), 10, 400);
    assert!(log.iter().all(|c| !c.is_head));
    let log = build_log(&three_commits(), &vec![], &None, &None, 10, 400);
    assert!(log.iter().all(|c| !c.is_head));
}
