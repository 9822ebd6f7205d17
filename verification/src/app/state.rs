//! The central application state and its transitions.

use std::time::Instant;
use vstd::prelude::*;
use vstd::string::*;

use crate::app::effect::{effects_view, notify_effect, Effect, EffectView};
use crate::app::list::{
    advance_list_state, advanced, clamp_list_state, clamped, first_selected, last_selected,
    retreat_list_state, retreated, select_first, select_last, ListSelection,
};
use crate::app::overlay::{
    confirm_dialog_of, default_palette_commands, input_dialog_of, opt_view, palette_names,
    palette_shortcuts, ContextMenu, ContextMenuItem, ContextMenuView, Dialog, DialogAction,
    DialogActionView, DialogType, DialogTypeView, DialogView, Notification, PaletteCommand,
};
use crate::app::panel::{
    is_commit_panel, is_editing_mode, panel_at_order, panel_of_number, panel_order_index,
    AsyncOp, DiffMode, InputMode, NotificationType, PanelFocus,
};
use crate::git::branch::BranchInfo;
use crate::git::diff::FileDiff;
use crate::git::log::CommitInfo;
use crate::git::remote::RemoteInfo;
use crate::git::repo::HeadInfo;
use crate::git::stash::StashInfo;
use crate::git::status::FileStatus;
use crate::input::text_editor::{byte_len, min_int, utf8_of};
use crate::util::{concat3, fmt_decimal, decimal, trim, trimmed};

verus! {

/// Central application state.
pub struct App {
    pub repo_path: String,
    // Git state.
    pub head: HeadInfo,
    pub branches: Vec<BranchInfo>,
    pub staged: Vec<FileStatus>,
    pub unstaged: Vec<FileStatus>,
    pub untracked: Vec<FileStatus>,
    pub conflicts: Vec<FileStatus>,
    pub stashes: Vec<StashInfo>,
    pub remotes: Vec<RemoteInfo>,
    pub log: Vec<CommitInfo>,
    pub ahead: usize,
    pub behind: usize,
    // UI / list state.
    pub focus: PanelFocus,
    pub branch_list_state: ListSelection,
    pub staged_list_state: ListSelection,
    pub changes_list_state: ListSelection,
    pub stash_list_state: ListSelection,
    pub log_list_state: ListSelection,
    pub diff_scroll: u16,
    pub log_scroll: u16,
    /// Index of the first log row shown in the log panel.
    pub log_viewport_offset: usize,
    // Diff.
    pub current_diff: Option<FileDiff>,
    pub diff_mode: DiffMode,
    // Commit.
    pub commit_message: String,
    pub commit_cursor: usize,
    pub amend_mode: bool,
    // UI modes.
    pub show_help: bool,
    pub show_command_palette: bool,
    pub command_palette_input: String,
    pub command_palette_selected: usize,
    // Command palette data.
    pub palette_commands: Vec<PaletteCommand>,
    pub palette_input: String,
    pub palette_cursor: usize,
    pub palette_selected: usize,
    // Context menu.
    pub context_menu: Option<ContextMenu>,
    // Dialog.
    pub dialog: Option<Dialog>,
    // Input mode.
    pub input_mode: InputMode,
    // Notifications.
    pub notification: Option<Notification>,
    // Lifecycle.
    pub should_quit: bool,
    // Background operation.
    pub async_status: Option<String>,
    pub async_op: Option<AsyncOp>,
    // Search over the log.
    pub search_query: String,
    pub search_results: Vec<usize>,
    pub search_result_index: usize,
    // Commit message generation.
    pub ai_generating: bool,
    pub ai_requested: bool,
}

/// The application state with its text as characters.
pub struct AppView {
    pub repo_path: Seq<char>,
    pub head: HeadInfo,
    pub branches: Vec<BranchInfo>,
    pub staged: Vec<FileStatus>,
    pub unstaged: Vec<FileStatus>,
    pub untracked: Vec<FileStatus>,
    pub conflicts: Vec<FileStatus>,
    pub stashes: Vec<StashInfo>,
    pub remotes: Vec<RemoteInfo>,
    pub log: Vec<CommitInfo>,
    pub ahead: usize,
    pub behind: usize,
    pub focus: PanelFocus,
    pub branch_list_state: ListSelection,
    pub staged_list_state: ListSelection,
    pub changes_list_state: ListSelection,
    pub stash_list_state: ListSelection,
    pub log_list_state: ListSelection,
    pub diff_scroll: u16,
    pub log_scroll: u16,
    pub log_viewport_offset: usize,
    pub current_diff: Option<FileDiff>,
    pub diff_mode: DiffMode,
    pub commit_message: Seq<char>,
    pub commit_cursor: usize,
    pub amend_mode: bool,
    pub show_help: bool,
    pub show_command_palette: bool,
    pub command_palette_input: Seq<char>,
    pub command_palette_selected: usize,
    pub palette_commands: Vec<PaletteCommand>,
    pub palette_input: Seq<char>,
    pub palette_cursor: usize,
    pub palette_selected: usize,
    pub context_menu: Option<ContextMenuView>,
    pub dialog: Option<DialogView>,
    pub input_mode: InputMode,
    pub notification: Option<Notification>,
    pub should_quit: bool,
    pub async_status: Option<Seq<char>>,
    pub async_op: Option<AsyncOp>,
    pub search_query: Seq<char>,
    pub search_results: Seq<usize>,
    pub search_result_index: usize,
    pub ai_generating: bool,
    pub ai_requested: bool,
}

impl View for App {
    type V = AppView;

    open spec fn view(&self) -> AppView {
        AppView {
            repo_path: self.repo_path@,
            head: self.head,
            branches: self.branches,
            staged: self.staged,
            unstaged: self.unstaged,
            untracked: self.untracked,
            conflicts: self.conflicts,
            stashes: self.stashes,
            remotes: self.remotes,
            log: self.log,
            ahead: self.ahead,
            behind: self.behind,
            focus: self.focus,
            branch_list_state: self.branch_list_state,
            staged_list_state: self.staged_list_state,
            changes_list_state: self.changes_list_state,
            stash_list_state: self.stash_list_state,
            log_list_state: self.log_list_state,
            diff_scroll: self.diff_scroll,
            log_scroll: self.log_scroll,
            log_viewport_offset: self.log_viewport_offset,
            current_diff: self.current_diff,
            diff_mode: self.diff_mode,
            commit_message: self.commit_message@,
            commit_cursor: self.commit_cursor,
            amend_mode: self.amend_mode,
            show_help: self.show_help,
            show_command_palette: self.show_command_palette,
            command_palette_input: self.command_palette_input@,
            command_palette_selected: self.command_palette_selected,
            palette_commands: self.palette_commands,
            palette_input: self.palette_input@,
            palette_cursor: self.palette_cursor,
            palette_selected: self.palette_selected,
            context_menu: opt_view(self.context_menu),
            dialog: opt_view(self.dialog),
            input_mode: self.input_mode,
            notification: self.notification,
            should_quit: self.should_quit,
            async_status: opt_view(self.async_status),
            async_op: self.async_op,
            search_query: self.search_query@,
            search_results: self.search_results@,
            search_result_index: self.search_result_index,
            ai_generating: self.ai_generating,
            ai_requested: self.ai_requested,
        }
    }
}

/// The commit cursor, moved back to the end of the message when it lies
/// beyond it, starts a character: the message editor can work at it.
pub open spec fn commit_cursor_ok(v: AppView) -> bool {
    vstd::utf8::is_char_boundary(
        utf8_of(v.commit_message),
        min_int(v.commit_cursor as int, utf8_of(v.commit_message).len() as int),
    )
}

/// Number of rows in the Changes panel (unstaged, then untracked files).
pub open spec fn changes_count(v: AppView) -> usize {
    if v.unstaged.len() + v.untracked.len() > usize::MAX {
        usize::MAX
    } else {
        (v.unstaged.len() + v.untracked.len()) as usize
    }
}

/// The input mode after focusing panel `p`: the commit panel opens the
/// message editor, and leaving it returns to normal mode.
pub open spec fn mode_after_focus(p: PanelFocus, m: InputMode) -> InputMode {
    if is_commit_panel(p) {
        InputMode::EditingCommitMessage
    } else if is_editing_mode(m) {
        InputMode::Normal
    } else {
        m
    }
}

/// Focus panel `p`, switching the message editor on or off.
pub open spec fn focused_on(v: AppView, p: PanelFocus) -> AppView {
    AppView { focus: p, input_mode: mode_after_focus(p, v.input_mode), ..v }
}

/// The panel after `p` in the tab order.
pub open spec fn next_of(p: PanelFocus) -> PanelFocus {
    panel_at_order(((panel_order_index(p) + 1) % 8) as nat)
}

/// The panel before `p` in the tab order.
pub open spec fn prev_of(p: PanelFocus) -> PanelFocus {
    panel_at_order(((panel_order_index(p) + 7) % 8) as nat)
}

/// The state after moving the selection of the focused list one row down.
pub open spec fn selected_next(v: AppView) -> AppView {
    match v.focus {
        PanelFocus::Branches => AppView {
            branch_list_state: ListSelection {
                index: advanced(v.branch_list_state.index, v.branches.len()),
            },
            ..v
        },
        PanelFocus::Staged => AppView {
            staged_list_state: ListSelection {
                index: advanced(v.staged_list_state.index, v.staged.len()),
            },
            ..v
        },
        PanelFocus::Changes => AppView {
            changes_list_state: ListSelection {
                index: advanced(v.changes_list_state.index, changes_count(v)),
            },
            ..v
        },
        PanelFocus::Stash => AppView {
            stash_list_state: ListSelection {
                index: advanced(v.stash_list_state.index, v.stashes.len()),
            },
            ..v
        },
        PanelFocus::LogGraph => AppView {
            log_list_state: ListSelection { index: advanced(v.log_list_state.index, v.log.len()) },
            ..v
        },
        PanelFocus::DiffViewer => AppView { diff_scroll: sat_add16(v.diff_scroll, 1), ..v },
        _ => v,
    }
}

/// The state after moving the selection of the focused list one row up.
pub open spec fn selected_prev(v: AppView) -> AppView {
    match v.focus {
        PanelFocus::Branches => AppView {
            branch_list_state: ListSelection {
                index: retreated(v.branch_list_state.index, v.branches.len()),
            },
            ..v
        },
        PanelFocus::Staged => AppView {
            staged_list_state: ListSelection {
                index: retreated(v.staged_list_state.index, v.staged.len()),
            },
            ..v
        },
        PanelFocus::Changes => AppView {
            changes_list_state: ListSelection {
                index: retreated(v.changes_list_state.index, changes_count(v)),
            },
            ..v
        },
        PanelFocus::Stash => AppView {
            stash_list_state: ListSelection {
                index: retreated(v.stash_list_state.index, v.stashes.len()),
            },
            ..v
        },
        PanelFocus::LogGraph => AppView {
            log_list_state: ListSelection { index: retreated(v.log_list_state.index, v.log.len()) },
            ..v
        },
        PanelFocus::DiffViewer => AppView { diff_scroll: sat_sub16(v.diff_scroll, 1), ..v },
        _ => v,
    }
}

/// The state after selecting the first row of the focused list.
pub open spec fn selected_first(v: AppView) -> AppView {
    match v.focus {
        PanelFocus::Branches => AppView {
            branch_list_state: ListSelection {
                index: first_selected(v.branch_list_state.index, v.branches.len()),
            },
            ..v
        },
        PanelFocus::Staged => AppView {
            staged_list_state: ListSelection {
                index: first_selected(v.staged_list_state.index, v.staged.len()),
            },
            ..v
        },
        PanelFocus::Changes => AppView {
            changes_list_state: ListSelection {
                index: first_selected(v.changes_list_state.index, changes_count(v)),
            },
            ..v
        },
        PanelFocus::Stash => AppView {
            stash_list_state: ListSelection {
                index: first_selected(v.stash_list_state.index, v.stashes.len()),
            },
            ..v
        },
        PanelFocus::LogGraph => AppView {
            log_list_state: ListSelection {
                index: first_selected(v.log_list_state.index, v.log.len()),
            },
            ..v
        },
        PanelFocus::DiffViewer => AppView { diff_scroll: 0, ..v },
        _ => v,
    }
}

/// The state after selecting the last row of the focused list.
pub open spec fn selected_last(v: AppView) -> AppView {
    match v.focus {
        PanelFocus::Branches => AppView {
            branch_list_state: ListSelection {
                index: last_selected(v.branch_list_state.index, v.branches.len()),
            },
            ..v
        },
        PanelFocus::Staged => AppView {
            staged_list_state: ListSelection {
                index: last_selected(v.staged_list_state.index, v.staged.len()),
            },
            ..v
        },
        PanelFocus::Changes => AppView {
            changes_list_state: ListSelection {
                index: last_selected(v.changes_list_state.index, changes_count(v)),
            },
            ..v
        },
        PanelFocus::Stash => AppView {
            stash_list_state: ListSelection {
                index: last_selected(v.stash_list_state.index, v.stashes.len()),
            },
            ..v
        },
        PanelFocus::LogGraph => AppView {
            log_list_state: ListSelection {
                index: last_selected(v.log_list_state.index, v.log.len()),
            },
            ..v
        },
        _ => v,
    }
}

/// `u16` addition that stops at the maximum.
pub open spec fn sat_add16(a: u16, b: u16) -> u16 {
    if a + b > u16::MAX { u16::MAX } else { (a + b) as u16 }
}

/// `u16` subtraction that stops at zero.
pub open spec fn sat_sub16(a: u16, b: u16) -> u16 {
    if a < b { 0 } else { (a - b) as u16 }
}

/// The initial state for the repository at `repo_path`, before any
/// repository data has been loaded.
pub open spec fn initial_state(v: AppView, repo_path: Seq<char>) -> bool {
    &&& v.repo_path == repo_path
    &&& v.branches@.len() == 0 && v.staged@.len() == 0 && v.unstaged@.len() == 0
    &&& v.untracked@.len() == 0 && v.conflicts@.len() == 0 && v.stashes@.len() == 0
    &&& v.remotes@.len() == 0 && v.log@.len() == 0
    &&& v.ahead == 0 && v.behind == 0
    &&& v.head.branch.is_none() && v.head.oid@.len() == 0 && v.head.summary@.len() == 0
    &&& !v.head.detached
    &&& v.focus == PanelFocus::Changes
    &&& v.branch_list_state.index.is_none() && v.staged_list_state.index.is_none()
    &&& v.changes_list_state.index.is_none() && v.stash_list_state.index.is_none()
    &&& v.log_list_state.index.is_none()
    &&& v.diff_scroll == 0 && v.log_scroll == 0 && v.log_viewport_offset == 0
    &&& v.current_diff.is_none() && v.diff_mode == DiffMode::Unified
    &&& v.commit_message.len() == 0 && v.commit_cursor == 0 && !v.amend_mode
    &&& !v.show_help && !v.show_command_palette
    &&& v.command_palette_input.len() == 0 && v.command_palette_selected == 0
    &&& v.palette_commands@.len() == 15
    &&& (forall|i: int| 0 <= i < 15 ==> (#[trigger] v.palette_commands@[i]).name@ == palette_names()[i]
        && v.palette_commands@[i].shortcut@ == palette_shortcuts()[i])
    &&& v.palette_input.len() == 0 && v.palette_cursor == 0 && v.palette_selected == 0
    &&& v.context_menu.is_none() && v.dialog.is_none()
    &&& v.input_mode == InputMode::Normal
    &&& v.notification.is_none()
    &&& !v.should_quit
    &&& v.async_status.is_none() && v.async_op.is_none()
    &&& v.search_query.len() == 0 && v.search_results.len() == 0 && v.search_result_index == 0
    &&& !v.ai_generating && !v.ai_requested
}

impl App {
    /// The state for the repository at `repo_path` before anything has been
    /// loaded from it; the host loads the repository data next (`Refresh`).
    pub fn new(repo_path: String) -> (r: Self)
        ensures
            initial_state(r@, repo_path@),
            commit_cursor_ok(r@),
    {
        let app = App {
            repo_path,
            head: HeadInfo::default(),
            branches: Vec::new(),
            staged: Vec::new(),
            unstaged: Vec::new(),
            untracked: Vec::new(),
            conflicts: Vec::new(),
            stashes: Vec::new(),
            remotes: Vec::new(),
            log: Vec::new(),
            ahead: 0,
            behind: 0,
            focus: PanelFocus::Changes,
            branch_list_state: ListSelection::new(),
            staged_list_state: ListSelection::new(),
            changes_list_state: ListSelection::new(),
            stash_list_state: ListSelection::new(),
            log_list_state: ListSelection::new(),
            diff_scroll: 0,
            log_scroll: 0,
            log_viewport_offset: 0,
            current_diff: None,
            diff_mode: DiffMode::Unified,
            commit_message: String::new(),
            commit_cursor: 0,
            amend_mode: false,
            show_help: false,
            show_command_palette: false,
            command_palette_input: String::new(),
            command_palette_selected: 0,
            palette_commands: default_palette_commands(),
            palette_input: String::new(),
            palette_cursor: 0,
            palette_selected: 0,
            context_menu: None,
            dialog: None,
            input_mode: InputMode::Normal,
            notification: None,
            should_quit: false,
            async_status: None,
            async_op: None,
            search_query: String::new(),
            search_results: Vec::new(),
            search_result_index: 0,
            ai_generating: false,
            ai_requested: false,
        };
        proof {
            vstd::utf8::is_char_boundary_start_end_of_seq(utf8_of(app.commit_message@));
        }
        app
    }

    /// Whether the commit cursor (moved back to the end of the message when
    /// past it) stands on a character boundary of the message, as the
    /// message editor needs.
    pub fn commit_cursor_valid(&self) -> (r: bool)
        ensures
            r == commit_cursor_ok(self@),
    {
        let len = byte_len(self.commit_message.as_str());
        let c = if self.commit_cursor < len { self.commit_cursor } else { len };
        self.commit_message.as_str().is_char_boundary(c)
    }

    /// Combined list of changed files (unstaged, then untracked) for the UI.
    pub fn changed_files(&self) -> (r: Vec<FileStatus>)
        ensures
            r@ == self.unstaged@ + self.untracked@,
    {
        let mut r: Vec<FileStatus> = Vec::new();
        let mut i: usize = 0;
        while i < self.unstaged.len()
            invariant
                i <= self.unstaged@.len(),
                r@ == self.unstaged@.subrange(0, i as int),
            decreases self.unstaged@.len() - i,
        {
            r.push(self.unstaged[i].clone());
            i = i + 1;
        }
        let mut j: usize = 0;
        while j < self.untracked.len()
            invariant
                j <= self.untracked@.len(),
                r@ == self.unstaged@ + self.untracked@.subrange(0, j as int),
            decreases self.untracked@.len() - j,
        {
            r.push(self.untracked[j].clone());
            j = j + 1;
        }
        r
    }

    /// Current selection index in the changes panel (0 when none).
    pub fn changes_index(&self) -> (r: usize)
        ensures
            r == match self.changes_list_state.index {
                Some(i) => i,
                None => 0,
            },
    {
        match self.changes_list_state.selected() {
            Some(i) => i,
            None => 0,
        }
    }

    /// Current selection index in the stash panel (0 when none).
    pub fn stash_index(&self) -> (r: usize)
        ensures
            r == match self.stash_list_state.index {
                Some(i) => i,
                None => 0,
            },
    {
        match self.stash_list_state.selected() {
            Some(i) => i,
            None => 0,
        }
    }

    /// Current selection index in the log panel (0 when none).
    pub fn log_index(&self) -> (r: usize)
        ensures
            r == match self.log_list_state.index {
                Some(i) => i,
                None => 0,
            },
    {
        match self.log_list_state.selected() {
            Some(i) => i,
            None => 0,
        }
    }

    /// Whether the working tree is clean (nothing staged, unstaged,
    /// untracked or conflicted).
    pub fn is_clean(&self) -> (r: bool)
        ensures
            r == (self.staged@.len() == 0 && self.unstaged@.len() == 0 && self.untracked@.len()
                == 0 && self.conflicts@.len() == 0),
    {
        self.staged.len() == 0 && self.unstaged.len() == 0 && self.untracked.len() == 0
            && self.conflicts.len() == 0
    }

    /// The commit log (the UI's name for it).
    pub fn commits(&self) -> (r: &[CommitInfo])
        ensures
            r@ == self.log@,
    {
        self.log.as_slice()
    }

    /// Number of rows in the Changes panel.
    pub fn changes_len(&self) -> (r: usize)
        ensures
            r == changes_count(self@),
    {
        self.unstaged.len().saturating_add(self.untracked.len())
    }

    /// The file at row `idx` of the Changes panel.
    pub fn change_at(&self, idx: usize) -> (r: Option<&FileStatus>)
        ensures
            r == if idx < self.unstaged@.len() {
                Some(&self.unstaged@[idx as int])
            } else if idx - self.unstaged@.len() < self.untracked@.len() {
                Some(&self.untracked@[idx - self.unstaged@.len()])
            } else {
                None::<&FileStatus>
            },
    {
        if idx < self.unstaged.len() {
            Some(&self.unstaged[idx])
        } else if idx - self.unstaged.len() < self.untracked.len() {
            Some(&self.untracked[idx - self.unstaged.len()])
        } else {
            None
        }
    }
}


/// Which diff the selection asks for (see [`App::diff_request`]).
#[derive(Debug)]
pub enum DiffRequest {
    /// Leave the current diff as it is.
    Keep,
    /// Show no diff.
    Clear,
    /// Show the staged diff (HEAD to index) of the path.
    Staged(String),
    /// Show the unstaged diff (index to working tree) of the path.
    Unstaged(String),
}

/// The file shown in row `idx` of the Changes panel.
pub open spec fn change_row(v: AppView, idx: usize) -> Option<FileStatus> {
    if idx < v.unstaged@.len() {
        Some(v.unstaged@[idx as int])
    } else if idx - v.unstaged@.len() < v.untracked@.len() {
        Some(v.untracked@[idx - v.unstaged@.len()])
    } else {
        None
    }
}

/// The diff that the focused panel and its selection ask for.
pub open spec fn diff_request_of(v: AppView) -> DiffRequest {
    match v.focus {
        PanelFocus::Staged => match v.staged_list_state.index {
            Some(idx) => if idx < v.staged@.len() {
                DiffRequest::Staged(v.staged@[idx as int].path)
            } else {
                DiffRequest::Keep
            },
            None => DiffRequest::Clear,
        },
        PanelFocus::Changes => match v.changes_list_state.index {
            Some(idx) => match change_row(v, idx) {
                Some(f) => DiffRequest::Unstaged(f.path),
                None => DiffRequest::Keep,
            },
            None => DiffRequest::Clear,
        },
        _ => DiffRequest::Keep,
    }
}

/// The state with the help overlay shown or hidden, the other way round.
pub open spec fn help_toggled(v: AppView) -> AppView {
    AppView { show_help: !v.show_help, ..v }
}

/// The state with the other diff mode: unified and side by side swap.
pub open spec fn diff_mode_toggled(v: AppView) -> AppView {
    AppView {
        diff_mode: match v.diff_mode {
            DiffMode::Unified => DiffMode::SideBySide,
            DiffMode::SideBySide => DiffMode::Unified,
        },
        ..v
    }
}

/// The state showing the notification `msg` of kind `ntype`, stamped with
/// the time `when`, in place of any earlier one.
pub open spec fn notified(v: AppView, msg: String, ntype: NotificationType, when: Instant) -> AppView {
    AppView {
        notification: Some(Notification { message: msg, is_error: ntype == NotificationType::Error, when }),
        ..v
    }
}

/// The data read from the repository in one refresh.
pub struct RepoState {
    pub head: HeadInfo,
    pub staged: Vec<FileStatus>,
    pub unstaged: Vec<FileStatus>,
    pub untracked: Vec<FileStatus>,
    pub conflicts: Vec<FileStatus>,
    pub branches: Vec<BranchInfo>,
    pub log: Vec<CommitInfo>,
    pub stashes: Vec<StashInfo>,
    pub remotes: Vec<RemoteInfo>,
    pub ahead: usize,
    pub behind: usize,
}

/// The state after new file statuses were loaded: the lists are replaced
/// and their selections kept within them.
pub open spec fn with_status(
    v: AppView,
    staged: Vec<FileStatus>,
    unstaged: Vec<FileStatus>,
    untracked: Vec<FileStatus>,
    conflicts: Vec<FileStatus>,
) -> AppView {
    let w = AppView { staged, unstaged, untracked, conflicts, ..v };
    AppView {
        staged_list_state: ListSelection { index: clamped(v.staged_list_state.index, staged.len()) },
        changes_list_state: ListSelection {
            index: clamped(v.changes_list_state.index, changes_count(w)),
        },
        ..w
    }
}

/// The state after a full refresh with the data in `s`.
pub open spec fn with_repo_state(v: AppView, s: RepoState) -> AppView {
    let w = with_status(AppView { head: s.head, ..v }, s.staged, s.unstaged, s.untracked, s.conflicts);
    AppView {
        branches: s.branches,
        branch_list_state: ListSelection { index: clamped(v.branch_list_state.index, s.branches.len()) },
        log: s.log,
        log_list_state: ListSelection { index: clamped(v.log_list_state.index, s.log.len()) },
        stashes: s.stashes,
        stash_list_state: ListSelection { index: clamped(v.stash_list_state.index, s.stashes.len()) },
        remotes: s.remotes,
        ahead: s.ahead,
        behind: s.behind,
        ..w
    }
}

impl App {
    /// Replace HEAD information.
    pub fn refresh_head(&mut self, head: HeadInfo)
        ensures
            final(self)@ == (AppView { head, ..old(self)@ }),
    {
        self.head = head;
    }

    /// Replace the file statuses (staged, unstaged, untracked, conflicts)
    /// and keep the list selections within the new lists.
    pub fn refresh_status(
        &mut self,
        staged: Vec<FileStatus>,
        unstaged: Vec<FileStatus>,
        untracked: Vec<FileStatus>,
        conflicts: Vec<FileStatus>,
    )
        ensures
            final(self)@ == with_status(old(self)@, staged, unstaged, untracked, conflicts),
    {
        self.staged = staged;
        self.unstaged = unstaged;
        self.untracked = untracked;
        self.conflicts = conflicts;
        let n = self.staged.len();
        clamp_list_state(&mut self.staged_list_state, n);
        let changes = self.changes_len();
        clamp_list_state(&mut self.changes_list_state, changes);
    }

    /// Replace the branches and keep the selection within them.
    pub fn refresh_branches(&mut self, branches: Vec<BranchInfo>)
        ensures
            final(self)@ == (AppView {
                branches,
                branch_list_state: ListSelection {
                    index: clamped(old(self).branch_list_state.index, branches.len()),
                },
                ..old(self)@
            }),
    {
        self.branches = branches;
        let n = self.branches.len();
        clamp_list_state(&mut self.branch_list_state, n);
    }

    /// Replace the commit log and keep the selection within it.
    pub fn refresh_log(&mut self, log: Vec<CommitInfo>)
        ensures
            final(self)@ == (AppView {
                log,
                log_list_state: ListSelection {
                    index: clamped(old(self).log_list_state.index, log.len()),
                },
                ..old(self)@
            }),
    {
        self.log = log;
        let n = self.log.len();
        clamp_list_state(&mut self.log_list_state, n);
    }

    /// Replace the stash entries and keep the selection within them.
    pub fn refresh_stashes(&mut self, stashes: Vec<StashInfo>)
        ensures
            final(self)@ == (AppView {
                stashes,
                stash_list_state: ListSelection {
                    index: clamped(old(self).stash_list_state.index, stashes.len()),
                },
                ..old(self)@
            }),
    {
        self.stashes = stashes;
        let n = self.stashes.len();
        clamp_list_state(&mut self.stash_list_state, n);
    }

    /// Replace the remotes.
    pub fn refresh_remotes(&mut self, remotes: Vec<RemoteInfo>)
        ensures
            final(self)@ == (AppView { remotes, ..old(self)@ }),
    {
        self.remotes = remotes;
    }

    /// Replace the ahead/behind counts.
    pub fn refresh_ahead_behind(&mut self, ahead: usize, behind: usize)
        ensures
            final(self)@ == (AppView { ahead, behind, ..old(self)@ }),
    {
        self.ahead = ahead;
        self.behind = behind;
    }

    /// Replace all repository data at once.
    pub fn refresh(&mut self, state: RepoState)
        ensures
            final(self)@ == with_repo_state(old(self)@, state),
    {
        let RepoState {
            head,
            staged,
            unstaged,
            untracked,
            conflicts,
            branches,
            log,
            stashes,
            remotes,
            ahead,
            behind,
        } = state;
        self.refresh_head(head);
        self.refresh_status(staged, unstaged, untracked, conflicts);
        self.refresh_branches(branches);
        self.refresh_log(log);
        self.refresh_stashes(stashes);
        self.refresh_remotes(remotes);
        self.refresh_ahead_behind(ahead, behind);
    }

    /// Which diff to show for the selected file of the focused panel: the
    /// staged diff in the Staged panel, the unstaged one in the Changes
    /// panel, none when nothing is selected there.
    pub fn diff_request(&self) -> (r: DiffRequest)
        ensures
            r == diff_request_of(self@),
    {
        match self.focus {
            PanelFocus::Staged => match self.staged_list_state.selected() {
                Some(idx) => {
                    if idx < self.staged.len() {
                        DiffRequest::Staged(self.staged[idx].path.clone())
                    } else {
                        DiffRequest::Keep
                    }
                },
                None => DiffRequest::Clear,
            },
            PanelFocus::Changes => match self.changes_list_state.selected() {
                Some(idx) => match self.change_at(idx) {
                    Some(f) => DiffRequest::Unstaged(f.path.clone()),
                    None => DiffRequest::Keep,
                },
                None => DiffRequest::Clear,
            },
            _ => DiffRequest::Keep,
        }
    }

    /// Show a newly computed diff from its top.
    pub fn set_diff(&mut self, diff: FileDiff)
        ensures
            final(self)@ == (AppView { current_diff: Some(diff), diff_scroll: 0, ..old(self)@ }),
    {
        self.current_diff = Some(diff);
        self.diff_scroll = 0;
    }

    /// Show no diff.
    pub fn clear_diff(&mut self)
        ensures
            final(self)@ == (AppView { current_diff: None, ..old(self)@ }),
    {
        self.current_diff = None;
    }

    /// Toggle between unified and side-by-side diff.
    pub fn toggle_diff_mode(&mut self)
        ensures
            final(self)@ == diff_mode_toggled(old(self)@),
    {
        self.diff_mode = match self.diff_mode {
            DiffMode::Unified => DiffMode::SideBySide,
            DiffMode::SideBySide => DiffMode::Unified,
        };
    }

    fn focus_panel(&mut self, p: PanelFocus)
        ensures
            final(self)@ == focused_on(old(self)@, p),
    {
        self.focus = p;
        if p.is_commit() {
            self.input_mode = InputMode::EditingCommitMessage;
        } else if self.input_mode.is_editing() {
            self.input_mode = InputMode::Normal;
        }
    }

    /// Move focus to the next panel (Tab).
    pub fn next_panel(&mut self)
        ensures
            final(self)@ == focused_on(old(self)@, next_of(old(self).focus)),
    {
        let p = self.focus.next();
        self.focus_panel(p);
    }

    /// Move focus to the previous panel (Shift+Tab).
    pub fn prev_panel(&mut self)
        ensures
            final(self)@ == focused_on(old(self)@, prev_of(old(self).focus)),
    {
        let p = self.focus.prev();
        self.focus_panel(p);
    }

    /// Jump to a panel by number key (1-6); other numbers do nothing.
    pub fn jump_to_panel(&mut self, n: u8)
        ensures
            final(self)@ == match panel_of_number(n) {
                Some(p) => focused_on(old(self)@, p),
                None => old(self)@,
            },
    {
        if let Some(panel) = PanelFocus::from_number(n) {
            self.focus_panel(panel);
        }
    }

    /// Move the selection down in the focused list panel, or scroll the diff.
    pub fn select_next(&mut self)
        ensures
            final(self)@ == selected_next(old(self)@),
    {
        match self.focus {
            PanelFocus::Branches => {
                let len = self.branches.len();
                advance_list_state(&mut self.branch_list_state, len);
            },
            PanelFocus::Staged => {
                let len = self.staged.len();
                advance_list_state(&mut self.staged_list_state, len);
            },
            PanelFocus::Changes => {
                let len = self.changes_len();
                advance_list_state(&mut self.changes_list_state, len);
            },
            PanelFocus::Stash => {
                let len = self.stashes.len();
                advance_list_state(&mut self.stash_list_state, len);
            },
            PanelFocus::LogGraph => {
                let len = self.log.len();
                advance_list_state(&mut self.log_list_state, len);
            },
            PanelFocus::DiffViewer => {
                self.diff_scroll = self.diff_scroll.saturating_add(1);
            },
            _ => {},
        }
    }

    /// Move the selection up in the focused list panel, or scroll the diff.
    pub fn select_prev(&mut self)
        ensures
            final(self)@ == selected_prev(old(self)@),
    {
        match self.focus {
            PanelFocus::Branches => {
                let len = self.branches.len();
                retreat_list_state(&mut self.branch_list_state, len);
            },
            PanelFocus::Staged => {
                let len = self.staged.len();
                retreat_list_state(&mut self.staged_list_state, len);
            },
            PanelFocus::Changes => {
                let len = self.changes_len();
                retreat_list_state(&mut self.changes_list_state, len);
            },
            PanelFocus::Stash => {
                let len = self.stashes.len();
                retreat_list_state(&mut self.stash_list_state, len);
            },
            PanelFocus::LogGraph => {
                let len = self.log.len();
                retreat_list_state(&mut self.log_list_state, len);
            },
            PanelFocus::DiffViewer => {
                self.diff_scroll = self.diff_scroll.saturating_sub(1);
            },
            _ => {},
        }
    }

    /// Select the first item in the focused list, or scroll the diff to the top.
    pub fn select_first(&mut self)
        ensures
            final(self)@ == selected_first(old(self)@),
    {
        match self.focus {
            PanelFocus::Branches => {
                let len = self.branches.len();
                select_first(&mut self.branch_list_state, len);
            },
            PanelFocus::Staged => {
                let len = self.staged.len();
                select_first(&mut self.staged_list_state, len);
            },
            PanelFocus::Changes => {
                let len = self.changes_len();
                select_first(&mut self.changes_list_state, len);
            },
            PanelFocus::Stash => {
                let len = self.stashes.len();
                select_first(&mut self.stash_list_state, len);
            },
            PanelFocus::LogGraph => {
                let len = self.log.len();
                select_first(&mut self.log_list_state, len);
            },
            PanelFocus::DiffViewer => {
                self.diff_scroll = 0;
            },
            _ => {},
        }
    }

    /// Select the last item in the focused list.
    pub fn select_last(&mut self)
        ensures
            final(self)@ == selected_last(old(self)@),
    {
        match self.focus {
            PanelFocus::Branches => {
                let len = self.branches.len();
                select_last(&mut self.branch_list_state, len);
            },
            PanelFocus::Staged => {
                let len = self.staged.len();
                select_last(&mut self.staged_list_state, len);
            },
            PanelFocus::Changes => {
                let len = self.changes_len();
                select_last(&mut self.changes_list_state, len);
            },
            PanelFocus::Stash => {
                let len = self.stashes.len();
                select_last(&mut self.stash_list_state, len);
            },
            PanelFocus::LogGraph => {
                let len = self.log.len();
                select_last(&mut self.log_list_state, len);
            },
            _ => {},
        }
    }

    /// Toggle the help overlay.
    pub fn toggle_help(&mut self)
        ensures
            final(self)@ == help_toggled(old(self)@),
    {
        self.show_help = !self.show_help;
    }

    /// Open the command palette with an empty query.
    pub fn open_command_palette(&mut self)
        ensures
            final(self)@ == palette_opened(old(self)@),
    {
        self.show_command_palette = true;
        self.command_palette_input = String::new();
        self.palette_input = String::new();
        self.palette_cursor = 0;
        self.command_palette_selected = 0;
        self.palette_selected = 0;
        self.input_mode = InputMode::CommandPalette;
    }

    /// Close the command palette.
    pub fn close_command_palette(&mut self)
        ensures
            final(self)@ == palette_closed(old(self)@),
    {
        self.show_command_palette = false;
        self.command_palette_input = String::new();
        self.palette_input = String::new();
        self.input_mode = InputMode::Normal;
    }

    /// Focus the commit message editor.
    pub fn focus_commit_message(&mut self)
        ensures
            final(self)@ == (AppView {
                focus: PanelFocus::CommitMessage,
                input_mode: InputMode::EditingCommitMessage,
                ..old(self)@
            }),
    {
        self.focus = PanelFocus::CommitMessage;
        self.input_mode = InputMode::EditingCommitMessage;
    }

    /// Leave the commit message editor for the Changes panel.
    pub fn leave_commit_message(&mut self)
        ensures
            final(self)@ == left_commit_message(old(self)@),
    {
        if self.input_mode.is_editing() {
            self.input_mode = InputMode::Normal;
            self.focus = PanelFocus::Changes;
        }
    }

    /// Dismiss the current dialog.
    pub fn cancel_dialog(&mut self)
        ensures
            final(self)@ == (AppView { dialog: None, input_mode: InputMode::Normal, ..old(self)@ }),
    {
        self.dialog = None;
        self.input_mode = InputMode::Normal;
    }

    /// Display a notification stamped with the time `when`; it replaces any
    /// earlier one.
    pub fn notify_at(&mut self, msg: String, ntype: NotificationType, when: Instant)
        ensures
            final(self)@ == notified(old(self)@, msg, ntype, when),
    {
        let is_error = matches!(ntype, NotificationType::Error);
        self.notification = Some(Notification { message: msg, is_error, when });
    }

    /// Display a notification, stamped with the current time (see
    /// [`App::notify_at`]).
    pub fn notify(&mut self, msg: String, ntype: NotificationType)
        ensures
            final(self).notification matches Some(n) && n.message == msg && n.is_error == (ntype
                == NotificationType::Error),
            final(self)@ == (AppView { notification: final(self)@.notification, ..old(self)@ }),
            exists|when: Instant| final(self)@ == #[trigger] notified(old(self)@, msg, ntype, when),
    {
        let when = crate::clock::now();
        self.notify_at(msg, ntype, when);
    }

    /// Drop the notification once it is three seconds old or older, given
    /// its age in whole seconds.
    pub fn expire_notification(&mut self, age_secs: u64)
        ensures
            final(self)@ == (if old(self).notification.is_some() && age_secs >= 3 {
                AppView { notification: None, ..old(self)@ }
            } else {
                old(self)@
            }),
    {
        if self.notification.is_some() && age_secs >= 3 {
            self.notification = None;
        }
    }

    /// Drop the notification once it has been shown for three seconds.
    pub fn tick_notification(&mut self)
        ensures
            final(self)@ == old(self)@ || final(self)@ == (AppView { notification: None, ..old(self)@ }),
    {
        let age = match &self.notification {
            Some(n) => {
                let d = crate::clock::elapsed(&n.when);
                crate::clock::whole_secs(&d)
            },
            None => 0,
        };
        self.expire_notification(age);
    }
}

/// The state with the command palette open and empty.
pub open spec fn palette_opened(v: AppView) -> AppView {
    AppView {
        show_command_palette: true,
        command_palette_input: Seq::empty(),
        palette_input: Seq::empty(),
        palette_cursor: 0,
        command_palette_selected: 0,
        palette_selected: 0,
        input_mode: InputMode::CommandPalette,
        ..v
    }
}

/// The state with the command palette closed.
pub open spec fn palette_closed(v: AppView) -> AppView {
    AppView {
        show_command_palette: false,
        command_palette_input: Seq::empty(),
        palette_input: Seq::empty(),
        input_mode: InputMode::Normal,
        ..v
    }
}

/// The state after leaving the commit message editor (nothing changes
/// outside the editor).
pub open spec fn left_commit_message(v: AppView) -> AppView {
    if is_editing_mode(v.input_mode) {
        AppView { input_mode: InputMode::Normal, focus: PanelFocus::Changes, ..v }
    } else {
        v
    }
}


/// The path of the file selected in the Changes panel, if the panel has
/// focus and the selection names a file.
pub open spec fn selected_change(v: AppView) -> Option<String> {
    if v.focus != PanelFocus::Changes {
        None
    } else {
        match v.changes_list_state.index {
            Some(idx) => match change_row(v, idx) {
                Some(f) => Some(f.path),
                None => None,
            },
            None => None,
        }
    }
}

/// The path of the file selected in the Staged panel, if the panel has
/// focus and the selection names a file.
pub open spec fn selected_staged(v: AppView) -> Option<String> {
    if v.focus != PanelFocus::Staged {
        None
    } else {
        match v.staged_list_state.index {
            Some(idx) => if idx < v.staged@.len() {
                Some(v.staged@[idx as int].path)
            } else {
                None
            },
            None => None,
        }
    }
}

/// The branch selected in the Branches panel, if any.
pub open spec fn selected_branch(v: AppView) -> Option<BranchInfo> {
    match v.branch_list_state.index {
        Some(idx) => if idx < v.branches@.len() {
            Some(v.branches@[idx as int])
        } else {
            None
        },
        None => None,
    }
}

/// A notification effect as plain values.
pub open spec fn note(msg: Seq<char>, t: NotificationType) -> EffectView {
    EffectView::Notify(msg, t)
}

/// `'<name>'` inside a message: the text between `before` and `after`.
pub open spec fn quoted(before: Seq<char>, name: Seq<char>, after: Seq<char>) -> Seq<char> {
    before + name + after
}

/// Effects of staging the selected change.
pub open spec fn stage_selected_effects(v: AppView) -> Seq<EffectView> {
    match selected_change(v) {
        Some(p) => seq![
            EffectView::StageFile(p@),
            EffectView::RefreshStatus,
            note("Staged"@, NotificationType::Success),
        ],
        None => Seq::empty(),
    }
}

/// Effects of unstaging the selected staged file.
pub open spec fn unstage_selected_effects(v: AppView) -> Seq<EffectView> {
    match selected_staged(v) {
        Some(p) => seq![
            EffectView::UnstageFile(p@),
            EffectView::RefreshStatus,
            note("Unstaged"@, NotificationType::Success),
        ],
        None => Seq::empty(),
    }
}

/// The state with a modal dialog open.
pub open spec fn with_dialog(v: AppView, d: DialogView) -> AppView {
    AppView { dialog: Some(d), input_mode: InputMode::DialogInput, ..v }
}

/// A confirmation dialog as plain values.
pub open spec fn confirm_view(title: Seq<char>, message: Seq<char>, a: DialogActionView) -> DialogView {
    DialogView {
        title,
        message,
        dialog_type: DialogTypeView::Confirm(a),
        input: Seq::empty(),
        selected: 0,
    }
}

/// A text input dialog as plain values.
pub open spec fn input_view(title: Seq<char>, message: Seq<char>, a: DialogActionView) -> DialogView {
    DialogView { title, message, dialog_type: DialogTypeView::Input(a), input: Seq::empty(), selected: 0 }
}

/// The state after asking to discard the selected change.
pub open spec fn discard_asked(v: AppView) -> AppView {
    match selected_change(v) {
        Some(p) => with_dialog(
            v,
            confirm_view(
                "Discard Changes"@,
                quoted("Discard all changes to '"@, p@, "'?"@),
                DialogActionView::DiscardChanges(p@),
            ),
        ),
        None => v,
    }
}

/// Effects of discarding the changes of a file.
pub open spec fn discard_effects(path: Seq<char>) -> Seq<EffectView> {
    seq![
        EffectView::DiscardChanges(path),
        EffectView::RefreshStatus,
        note("Changes discarded"@, NotificationType::Success),
    ]
}

/// Effects of a commit with the current message.
pub open spec fn commit_effects(v: AppView) -> Seq<EffectView> {
    let msg = trimmed(v.commit_message);
    if msg.len() == 0 {
        seq![note("Commit message is empty"@, NotificationType::Warning)]
    } else if v.staged@.len() == 0 {
        seq![note("Nothing staged to commit"@, NotificationType::Warning)]
    } else if v.amend_mode {
        seq![
            EffectView::Amend(msg),
            note("Amended commit"@, NotificationType::Success),
            EffectView::FinishCommit,
            EffectView::Refresh,
        ]
    } else {
        seq![
            EffectView::Commit(msg),
            note("Created commit"@, NotificationType::Success),
            EffectView::FinishCommit,
            EffectView::Refresh,
        ]
    }
}

/// The state after a commit went through: empty message, not amending.
pub open spec fn commit_finished(v: AppView) -> AppView {
    AppView { commit_message: Seq::empty(), commit_cursor: 0, amend_mode: false, ..v }
}

/// The state after toggling amend mode: switching it on loads the HEAD
/// summary into the editor, with the cursor at its end.
pub open spec fn amend_toggled(v: AppView) -> AppView {
    if !v.amend_mode {
        AppView {
            amend_mode: true,
            commit_message: v.head.summary@,
            commit_cursor: utf8_of(v.head.summary@).len() as usize,
            ..v
        }
    } else {
        AppView { amend_mode: false, ..v }
    }
}

/// Effects of toggling amend mode.
pub open spec fn amend_toggle_effects(v: AppView) -> Seq<EffectView> {
    if !v.amend_mode {
        seq![note("Amend mode ON"@, NotificationType::Info)]
    } else {
        seq![note("Amend mode OFF"@, NotificationType::Info)]
    }
}

/// Effects of saving a stash with the message (none when it is empty).
pub open spec fn stash_save_effects(message: Seq<char>) -> Seq<EffectView> {
    seq![
        EffectView::StashSave(if message.len() == 0 { None } else { Some(message) }),
        EffectView::Refresh,
        note("Stash saved"@, NotificationType::Success),
    ]
}

/// Effects of popping the most recent stash.
pub open spec fn stash_pop_effects() -> Seq<EffectView> {
    seq![EffectView::StashPop, EffectView::Refresh, note("Stash popped"@, NotificationType::Success)]
}

/// The state after asking to drop the selected stash.
pub open spec fn stash_drop_asked(v: AppView) -> AppView {
    match v.stash_list_state.index {
        Some(idx) => if idx < v.stashes@.len() {
            with_dialog(
                v,
                confirm_view(
                    "Drop Stash"@,
                    quoted("Drop stash@{"@, decimal(idx as nat), "}?"@),
                    DialogActionView::StashDrop(idx),
                ),
            )
        } else {
            v
        },
        None => v,
    }
}

/// Effects of dropping the stash at `index`.
pub open spec fn stash_drop_effects(index: usize) -> Seq<EffectView> {
    seq![
        EffectView::StashDrop(index),
        EffectView::RefreshStashes,
        note("Stash dropped"@, NotificationType::Success),
    ]
}

/// Effects of creating a branch.
pub open spec fn create_branch_effects(name: Seq<char>) -> Seq<EffectView> {
    seq![
        EffectView::CreateBranch(name),
        EffectView::RefreshBranches,
        note(quoted("Branch '"@, name, "' created"@), NotificationType::Success),
    ]
}

/// Effects of deleting a branch.
pub open spec fn delete_branch_effects(name: Seq<char>) -> Seq<EffectView> {
    seq![
        EffectView::DeleteBranch(name),
        EffectView::RefreshBranches,
        note(quoted("Branch '"@, name, "' deleted"@), NotificationType::Success),
    ]
}

/// Effects of checking out a branch.
pub open spec fn checkout_effects(name: Seq<char>) -> Seq<EffectView> {
    seq![
        EffectView::CheckoutBranch(name),
        EffectView::Refresh,
        note(quoted("Checked out '"@, name, "'"@), NotificationType::Success),
    ]
}

/// Effects of renaming a branch.
pub open spec fn rename_effects(old_name: Seq<char>, new_name: Seq<char>) -> Seq<EffectView> {
    seq![
        EffectView::RenameBranch(old_name, new_name),
        EffectView::RefreshBranches,
        note(
            "Branch '"@ + old_name + "' renamed to '"@ + new_name + "'"@,
            NotificationType::Success,
        ),
    ]
}

/// Whether the selected branch is the one checked out.
pub open spec fn deleting_current(v: AppView) -> bool {
    selected_branch(v) matches Some(b) && b.is_current
}

/// The state after asking to delete the selected branch.
pub open spec fn delete_asked(v: AppView) -> AppView {
    match selected_branch(v) {
        Some(b) => if b.is_current {
            v
        } else {
            with_dialog(
                v,
                confirm_view(
                    "Delete Branch"@,
                    quoted("Delete branch '"@, b.name@, "'?"@),
                    DialogActionView::DeleteBranch(b.name@),
                ),
            )
        },
        None => v,
    }
}

/// Effects of asking to delete the selected branch.
pub open spec fn delete_ask_effects(v: AppView) -> Seq<EffectView> {
    if deleting_current(v) {
        seq![note("Cannot delete the current branch"@, NotificationType::Error)]
    } else {
        Seq::empty()
    }
}

/// Effects of checking out the selected branch.
pub open spec fn checkout_selected_effects(v: AppView) -> Seq<EffectView> {
    if v.focus != PanelFocus::Branches {
        Seq::empty()
    } else {
        match selected_branch(v) {
            Some(b) => if b.is_current {
                Seq::empty()
            } else {
                checkout_effects(b.name@)
            },
            None => Seq::empty(),
        }
    }
}

/// Effects of running a dialog action with the text typed into the dialog.
pub open spec fn dialog_action_effects(a: DialogActionView, input: Seq<char>) -> Seq<EffectView> {
    match a {
        DialogActionView::DeleteBranch(name) => delete_branch_effects(name),
        DialogActionView::DiscardChanges(path) => discard_effects(path),
        DialogActionView::ForcePush => seq![note("Force push initiated"@, NotificationType::Info)],
        DialogActionView::CreateBranch => create_branch_effects(input),
        DialogActionView::RenameBranch(old_name) => rename_effects(old_name, input),
        DialogActionView::StashSave => stash_save_effects(input),
        DialogActionView::StashDrop(idx) => stash_drop_effects(idx),
        DialogActionView::CheckoutBranch(name) => checkout_effects(name),
    }
}

/// The action a dialog carries.
pub open spec fn dialog_action_of(d: DialogView) -> DialogActionView {
    match d.dialog_type {
        DialogTypeView::Confirm(a) => a,
        DialogTypeView::Input(a) => a,
        DialogTypeView::Select(_, a) => a,
    }
}

/// Effects of confirming the open dialog.
pub open spec fn confirm_effects(v: AppView) -> Seq<EffectView> {
    match v.dialog {
        Some(d) => dialog_action_effects(dialog_action_of(d), d.input),
        None => Seq::empty(),
    }
}

/// The state after confirming the open dialog.
pub open spec fn dialog_confirmed(v: AppView) -> AppView {
    match v.dialog {
        Some(_) => AppView { dialog: None, input_mode: InputMode::Normal, ..v },
        None => v,
    }
}

impl App {
    /// Stage the file selected in the Changes panel.
    pub fn stage_selected(&mut self) -> (r: Vec<Effect>)
        ensures
            final(self)@ == old(self)@,
            effects_view(r@) == stage_selected_effects(old(self)@),
    {
        if self.focus != PanelFocus::Changes {
            return Vec::new();
        }
        let idx = match self.changes_list_state.selected() {
            Some(i) => i,
            None => return Vec::new(),
        };
        let path = match self.change_at(idx) {
            Some(f) => f.path.clone(),
            None => return Vec::new(),
        };
        let r = vec![
            Effect::StageFile(path),
            Effect::RefreshStatus,
            notify_effect("Staged", NotificationType::Success),
        ];
        assert(effects_view(r@) =~= stage_selected_effects(old(self)@));
        r
    }

    /// Unstage the file selected in the Staged panel.
    pub fn unstage_selected(&mut self) -> (r: Vec<Effect>)
        ensures
            final(self)@ == old(self)@,
            effects_view(r@) == unstage_selected_effects(old(self)@),
    {
        if self.focus != PanelFocus::Staged {
            return Vec::new();
        }
        let idx = match self.staged_list_state.selected() {
            Some(i) => i,
            None => return Vec::new(),
        };
        if idx >= self.staged.len() {
            return Vec::new();
        }
        let path = self.staged[idx].path.clone();
        let r = vec![
            Effect::UnstageFile(path),
            Effect::RefreshStatus,
            notify_effect("Unstaged", NotificationType::Success),
        ];
        assert(effects_view(r@) =~= unstage_selected_effects(old(self)@));
        r
    }

    /// Stage every change.
    pub fn stage_all(&mut self) -> (r: Vec<Effect>)
        ensures
            final(self)@ == old(self)@,
            effects_view(r@) == seq![EffectView::StageAll, EffectView::RefreshStatus],
    {
        let r = vec![Effect::StageAll, Effect::RefreshStatus];
        assert(effects_view(r@) =~= seq![EffectView::StageAll, EffectView::RefreshStatus]);
        r
    }

    /// Unstage every staged file.
    pub fn unstage_all(&mut self) -> (r: Vec<Effect>)
        ensures
            final(self)@ == old(self)@,
            effects_view(r@) == seq![EffectView::UnstageAll, EffectView::RefreshStatus],
    {
        let r = vec![Effect::UnstageAll, Effect::RefreshStatus];
        assert(effects_view(r@) =~= seq![EffectView::UnstageAll, EffectView::RefreshStatus]);
        r
    }

    /// Ask for confirmation before discarding the selected change.
    pub fn discard_selected(&mut self)
        ensures
            final(self)@ == discard_asked(old(self)@),
    {
        if self.focus != PanelFocus::Changes {
            return;
        }
        let idx = match self.changes_list_state.selected() {
            Some(i) => i,
            None => return,
        };
        let path = match self.change_at(idx) {
            Some(f) => f.path.clone(),
            None => return,
        };
        let message = concat3("Discard all changes to '", path.as_str(), "'?");
        let d = confirm_dialog_of("Discard Changes", message, DialogAction::DiscardChanges(path));
        self.dialog = Some(d);
        self.input_mode = InputMode::DialogInput;
    }

    /// Discard the changes of a file (after confirmation).
    pub fn do_discard_changes(&mut self, path: &str) -> (r: Vec<Effect>)
        ensures
            final(self)@ == old(self)@,
            effects_view(r@) == discard_effects(path@),
    {
        let r = vec![
            Effect::DiscardChanges(path.to_owned()),
            Effect::RefreshStatus,
            notify_effect("Changes discarded", NotificationType::Success),
        ];
        assert(effects_view(r@) =~= discard_effects(path@));
        r
    }

    /// Commit (or amend with) the current message, trimmed; warn when it
    /// is empty or nothing is staged.
    pub fn do_commit(&mut self) -> (r: Vec<Effect>)
        ensures
            final(self)@ == old(self)@,
            effects_view(r@) == commit_effects(old(self)@),
    {
        let msg = trim(self.commit_message.as_str());
        if msg.as_str().is_empty() {
            let r = vec![notify_effect("Commit message is empty", NotificationType::Warning)];
            assert(effects_view(r@) =~= commit_effects(old(self)@));
            return r;
        }
        if self.staged.len() == 0 {
            let r = vec![notify_effect("Nothing staged to commit", NotificationType::Warning)];
            assert(effects_view(r@) =~= commit_effects(old(self)@));
            return r;
        }
        let r = if self.amend_mode {
            vec![
                Effect::Amend(msg),
                notify_effect("Amended commit", NotificationType::Success),
                Effect::FinishCommit,
                Effect::Refresh,
            ]
        } else {
            vec![
                Effect::Commit(msg),
                notify_effect("Created commit", NotificationType::Success),
                Effect::FinishCommit,
                Effect::Refresh,
            ]
        };
        assert(effects_view(r@) =~= commit_effects(old(self)@));
        r
    }

    /// Empty the message editor and leave amend mode after a commit.
    pub fn finish_commit(&mut self)
        ensures
            final(self)@ == commit_finished(old(self)@),
            commit_cursor_ok(final(self)@),
    {
        self.commit_message = String::new();
        self.commit_cursor = 0;
        self.amend_mode = false;
        proof {
            vstd::utf8::encode_utf8_valid_utf8(self.commit_message@);
            vstd::utf8::is_char_boundary_start_end_of_seq(utf8_of(self.commit_message@));
        }
    }

    /// Toggle amend mode; switching it on loads the HEAD commit's summary
    /// into the message editor.
    pub fn toggle_amend(&mut self) -> (r: Vec<Effect>)
        ensures
            final(self)@ == amend_toggled(old(self)@),
            commit_cursor_ok(old(self)@) || final(self).amend_mode ==> commit_cursor_ok(final(self)@),
            effects_view(r@) == amend_toggle_effects(old(self)@),
    {
        self.amend_mode = !self.amend_mode;
        let r = if self.amend_mode {
            self.commit_message = self.head.summary.clone();
            self.commit_cursor = byte_len(self.commit_message.as_str());
            proof {
                vstd::utf8::encode_utf8_valid_utf8(self.commit_message@);
            vstd::utf8::is_char_boundary_start_end_of_seq(utf8_of(self.commit_message@));
            }
            vec![notify_effect("Amend mode ON", NotificationType::Info)]
        } else {
            vec![notify_effect("Amend mode OFF", NotificationType::Info)]
        };
        assert(effects_view(r@) =~= amend_toggle_effects(old(self)@));
        r
    }

    /// Ask for a message and save a stash.
    pub fn stash_save(&mut self)
        ensures
            final(self)@ == with_dialog(
                old(self)@,
                input_view(
                    "Stash Save"@,
                    "Enter stash message (optional):"@,
                    DialogActionView::StashSave,
                ),
            ),
    {
        let d = input_dialog_of("Stash Save", "Enter stash message (optional):", DialogAction::StashSave);
        self.dialog = Some(d);
        self.input_mode = InputMode::DialogInput;
    }

    /// Save a stash with the message (none when it is empty).
    pub fn do_stash_save(&mut self, message: &str) -> (r: Vec<Effect>)
        ensures
            final(self)@ == old(self)@,
            effects_view(r@) == stash_save_effects(message@),
    {
        let m = if message.is_empty() {
            None
        } else {
            Some(message.to_owned())
        };
        let r = vec![
            Effect::StashSave(m),
            Effect::Refresh,
            notify_effect("Stash saved", NotificationType::Success),
        ];
        assert(effects_view(r@) =~= stash_save_effects(message@));
        r
    }

    /// Pop the most recent stash.
    pub fn stash_pop(&mut self) -> (r: Vec<Effect>)
        ensures
            final(self)@ == old(self)@,
            effects_view(r@) == stash_pop_effects(),
    {
        let r = vec![
            Effect::StashPop,
            Effect::Refresh,
            notify_effect("Stash popped", NotificationType::Success),
        ];
        assert(effects_view(r@) =~= stash_pop_effects());
        r
    }

    /// Ask for confirmation before dropping the selected stash.
    pub fn stash_drop_selected(&mut self)
        ensures
            final(self)@ == stash_drop_asked(old(self)@),
    {
        if let Some(idx) = self.stash_list_state.selected() {
            if idx < self.stashes.len() {
                let num = fmt_decimal(idx as u64);
                let message = concat3("Drop stash@{", num.as_str(), "}?");
                let d = confirm_dialog_of("Drop Stash", message, DialogAction::StashDrop(idx));
                self.dialog = Some(d);
                self.input_mode = InputMode::DialogInput;
            }
        }
    }

    /// Drop the stash at `index` (after confirmation).
    pub fn do_stash_drop(&mut self, index: usize) -> (r: Vec<Effect>)
        ensures
            final(self)@ == old(self)@,
            effects_view(r@) == stash_drop_effects(index),
    {
        let r = vec![
            Effect::StashDrop(index),
            Effect::RefreshStashes,
            notify_effect("Stash dropped", NotificationType::Success),
        ];
        assert(effects_view(r@) =~= stash_drop_effects(index));
        r
    }

    /// Ask for the name of a new branch.
    pub fn create_branch(&mut self)
        ensures
            final(self)@ == with_dialog(
                old(self)@,
                input_view("Create Branch"@, "Enter new branch name:"@, DialogActionView::CreateBranch),
            ),
    {
        let d = input_dialog_of("Create Branch", "Enter new branch name:", DialogAction::CreateBranch);
        self.dialog = Some(d);
        self.input_mode = InputMode::DialogInput;
    }

    /// Create a branch with the given name.
    pub fn do_create_branch(&mut self, name: &str) -> (r: Vec<Effect>)
        ensures
            final(self)@ == old(self)@,
            effects_view(r@) == create_branch_effects(name@),
    {
        let r = vec![
            Effect::CreateBranch(name.to_owned()),
            Effect::RefreshBranches,
            Effect::Notify(concat3("Branch '", name, "' created"), NotificationType::Success),
        ];
        assert(effects_view(r@) =~= create_branch_effects(name@));
        r
    }

    /// Ask for confirmation before deleting the selected branch; the
    /// checked-out branch is refused with an error notification.
    pub fn delete_selected_branch(&mut self) -> (r: Vec<Effect>)
        ensures
            final(self)@ == delete_asked(old(self)@),
            effects_view(r@) == delete_ask_effects(old(self)@),
    {
        if let Some(idx) = self.branch_list_state.selected() {
            if idx < self.branches.len() {
                if self.branches[idx].is_current {
                    let r = vec![
                        notify_effect("Cannot delete the current branch", NotificationType::Error),
                    ];
                    assert(effects_view(r@) =~= delete_ask_effects(old(self)@));
                    return r;
                }
                let name = self.branches[idx].name.clone();
                let message = concat3("Delete branch '", name.as_str(), "'?");
                let d = confirm_dialog_of("Delete Branch", message, DialogAction::DeleteBranch(name));
                self.dialog = Some(d);
                self.input_mode = InputMode::DialogInput;
            }
        }
        let r: Vec<Effect> = Vec::new();
        assert(effects_view(r@) =~= delete_ask_effects(old(self)@));
        r
    }

    /// Delete a branch (after confirmation).
    pub fn do_delete_branch(&mut self, name: &str) -> (r: Vec<Effect>)
        ensures
            final(self)@ == old(self)@,
            effects_view(r@) == delete_branch_effects(name@),
    {
        let r = vec![
            Effect::DeleteBranch(name.to_owned()),
            Effect::RefreshBranches,
            Effect::Notify(concat3("Branch '", name, "' deleted"), NotificationType::Success),
        ];
        assert(effects_view(r@) =~= delete_branch_effects(name@));
        r
    }

    /// Check out the branch selected in the Branches panel, unless it is
    /// already checked out.
    pub fn checkout_selected_branch(&mut self) -> (r: Vec<Effect>)
        ensures
            final(self)@ == old(self)@,
            effects_view(r@) == checkout_selected_effects(old(self)@),
    {
        if self.focus != PanelFocus::Branches {
            let r: Vec<Effect> = Vec::new();
            assert(effects_view(r@) =~= checkout_selected_effects(old(self)@));
            return r;
        }
        if let Some(idx) = self.branch_list_state.selected() {
            if idx < self.branches.len() {
                if !self.branches[idx].is_current {
                    let r = checkout_of(self.branches[idx].name.as_str());
                    return r;
                }
            }
        }
        let r: Vec<Effect> = Vec::new();
        assert(effects_view(r@) =~= checkout_selected_effects(old(self)@));
        r
    }

    /// Confirm the open dialog: close it and run its action with the text
    /// typed into it.
    pub fn confirm_dialog(&mut self) -> (r: Vec<Effect>)
        ensures
            final(self)@ == dialog_confirmed(old(self)@),
            effects_view(r@) == confirm_effects(old(self)@),
    {
        match self.dialog.take() {
            Some(dialog) => {
                self.input_mode = InputMode::Normal;
                let Dialog { title: _, message: _, dialog_type, input, selected: _ } = dialog;
                let action = match dialog_type {
                    DialogType::Confirm { on_confirm } => on_confirm,
                    DialogType::Input { on_submit } => on_submit,
                    DialogType::Select { options: _, on_select } => on_select,
                };
                self.execute_dialog_action(action, input.as_str())
            },
            None => {
                let r: Vec<Effect> = Vec::new();
                assert(effects_view(r@) =~= confirm_effects(old(self)@));
                r
            },
        }
    }

    /// Run a dialog action with the text typed into the dialog.
    pub fn execute_dialog_action(&mut self, action: DialogAction, input: &str) -> (r: Vec<Effect>)
        ensures
            final(self)@ == old(self)@,
            effects_view(r@) == dialog_action_effects(action@, input@),
    {
        match action {
            DialogAction::DeleteBranch(name) => self.do_delete_branch(name.as_str()),
            DialogAction::DiscardChanges(path) => self.do_discard_changes(path.as_str()),
            DialogAction::ForcePush => {
                let r = vec![notify_effect("Force push initiated", NotificationType::Info)];
                assert(effects_view(r@) =~= dialog_action_effects(action@, input@));
                r
            },
            DialogAction::CreateBranch => self.do_create_branch(input),
            DialogAction::RenameBranch(old_name) => {
                let mut msg = concat3("Branch '", old_name.as_str(), "' renamed to '");
                msg.append(input);
                msg.append("'");
                let r = vec![
                    Effect::RenameBranch(old_name, input.to_owned()),
                    Effect::RefreshBranches,
                    Effect::Notify(msg, NotificationType::Success),
                ];
                assert(effects_view(r@) =~= dialog_action_effects(action@, input@));
                r
            },
            DialogAction::StashSave => self.do_stash_save(input),
            DialogAction::StashDrop(idx) => self.do_stash_drop(idx),
            DialogAction::CheckoutBranch(name) => checkout_of(name.as_str()),
        }
    }
}

/// Effects of checking out the branch `name`.
pub fn checkout_of(name: &str) -> (r: Vec<Effect>)
    ensures
        effects_view(r@) == checkout_effects(name@),
{
    let r = vec![
        Effect::CheckoutBranch(name.to_owned()),
        Effect::Refresh,
        Effect::Notify(concat3("Checked out '", name, "'"), NotificationType::Success),
    ];
    assert(effects_view(r@) =~= checkout_effects(name@));
    r
}

} // verus!
