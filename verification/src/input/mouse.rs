//! Mouse handling: clicks focus panels and pick rows, double clicks act on
//! the row, right clicks open context menus, the wheel scrolls.

use std::time::Instant;
use vstd::prelude::*;

use crate::app::effect::{effects_view, Effect, EffectView};
use crate::app::list::ListSelection;
use crate::app::overlay::{ContextMenu, ContextMenuItem, ContextMenuView};
use crate::app::panel::{InputMode, PanelFocus};
use crate::app::state::{
    changes_count, checkout_selected_effects, selected_next, selected_prev,
    stage_selected_effects, unstage_selected_effects, App, AppView,
};

verus! {

/// A rectangle of terminal cells.
#[derive(Debug, Clone, Copy, PartialEq, Eq, Structural)]
pub struct Rect {
    pub x: u16,
    pub y: u16,
    pub width: u16,
    pub height: u16,
}

impl Rect {
    /// A rectangle; its width and height are cut so that its right and
    /// bottom edges stay within `u16`.
    pub fn new(x: u16, y: u16, width: u16, height: u16) -> (r: Self)
        ensures
            r.x == x,
            r.y == y,
            r.width == if width > u16::MAX - x { (u16::MAX - x) as u16 } else { width },
            r.height == if height > u16::MAX - y { (u16::MAX - y) as u16 } else { height },
    {
        let max_width = u16::MAX - x;
        let max_height = u16::MAX - y;
        let width = if width > max_width { max_width } else { width };
        let height = if height > max_height { max_height } else { height };
        Rect { x, y, width, height }
    }
}

impl Default for Rect {
    fn default() -> (r: Self)
        ensures
            r == (Rect { x: 0, y: 0, width: 0, height: 0 }),
    {
        Rect { x: 0, y: 0, width: 0, height: 0 }
    }
}

/// Whether the cell `(col, row)` lies in the rectangle.
pub open spec fn in_rect(r: Rect, col: u16, row: u16) -> bool {
    r.x <= col < r.x + r.width && r.y <= row < r.y + r.height
}

/// Whether `(col, row)` is inside `rect`.
pub fn contains(rect: Rect, col: u16, row: u16) -> (b: bool)
    ensures
        b == in_rect(rect, col, row),
{
    let c = col as u32;
    let r = row as u32;
    c >= rect.x as u32 && c < rect.x as u32 + rect.width as u32 && r >= rect.y as u32 && r
        < rect.y as u32 + rect.height as u32
}

/// Tracks mouse clicks for double-click detection.
#[derive(Debug, Clone, Copy)]
pub struct MouseState {
    pub last_click_time: Option<Instant>,
    pub last_click_col: u16,
    pub last_click_row: u16,
    pub last_click_panel: Option<PanelFocus>,
}

impl Default for MouseState {
    fn default() -> (r: Self)
        ensures
            r.last_click_time.is_none(),
            r.last_click_col == 0,
            r.last_click_row == 0,
            r.last_click_panel.is_none(),
    {
        MouseState { last_click_time: None, last_click_col: 0, last_click_row: 0, last_click_panel: None }
    }
}

/// Layout regions of the panels, as computed by the last render pass.
#[derive(Debug, Clone, Copy, PartialEq, Eq, Structural)]
pub struct PanelLayout {
    pub branches: Rect,
    pub staged: Rect,
    pub changes: Rect,
    pub stash: Rect,
    pub commit_message: Rect,
    pub remote: Rect,
    pub diff_viewer: Rect,
    pub log_graph: Rect,
}

impl Default for PanelLayout {
    fn default() -> (r: Self)
        ensures
            r.branches == Rect::default_spec() && r.staged == Rect::default_spec() && r.changes
                == Rect::default_spec() && r.stash == Rect::default_spec() && r.commit_message
                == Rect::default_spec() && r.remote == Rect::default_spec() && r.diff_viewer
                == Rect::default_spec() && r.log_graph == Rect::default_spec(),
    {
        let z = Rect { x: 0, y: 0, width: 0, height: 0 };
        PanelLayout {
            branches: z,
            staged: z,
            changes: z,
            stash: z,
            commit_message: z,
            remote: z,
            diff_viewer: z,
            log_graph: z,
        }
    }
}

impl Rect {
    /// The empty rectangle at the origin.
    pub open spec fn default_spec() -> Rect {
        Rect { x: 0, y: 0, width: 0, height: 0 }
    }
}

/// The panel whose region holds `(col, row)`, trying the panels in a fixed
/// order.
pub open spec fn panel_at_spec(l: PanelLayout, col: u16, row: u16) -> Option<PanelFocus> {
    if in_rect(l.branches, col, row) {
        Some(PanelFocus::Branches)
    } else if in_rect(l.staged, col, row) {
        Some(PanelFocus::Staged)
    } else if in_rect(l.changes, col, row) {
        Some(PanelFocus::Changes)
    } else if in_rect(l.stash, col, row) {
        Some(PanelFocus::Stash)
    } else if in_rect(l.commit_message, col, row) {
        Some(PanelFocus::CommitMessage)
    } else if in_rect(l.remote, col, row) {
        Some(PanelFocus::Remote)
    } else if in_rect(l.diff_viewer, col, row) {
        Some(PanelFocus::DiffViewer)
    } else if in_rect(l.log_graph, col, row) {
        Some(PanelFocus::LogGraph)
    } else {
        None
    }
}

/// The region of a list panel.
pub open spec fn list_rect(l: PanelLayout, p: PanelFocus) -> Option<Rect> {
    match p {
        PanelFocus::Branches => Some(l.branches),
        PanelFocus::Staged => Some(l.staged),
        PanelFocus::Changes => Some(l.changes),
        PanelFocus::Stash => Some(l.stash),
        PanelFocus::LogGraph => Some(l.log_graph),
        _ => None,
    }
}

/// The list row shown at terminal row `row` of a list panel: rows between
/// the top and bottom borders, counted from 0.
pub open spec fn row_index_spec(l: PanelLayout, p: PanelFocus, row: u16) -> Option<usize> {
    match list_rect(l, p) {
        Some(r) => if r.y < row && row + 1 < r.y + r.height {
            Some((row - r.y - 1) as usize)
        } else {
            None
        },
        None => None,
    }
}

impl PanelLayout {
    /// Which panel (if any) contains `(col, row)`.
    pub fn panel_at(&self, col: u16, row: u16) -> (r: Option<PanelFocus>)
        ensures
            r == panel_at_spec(*self, col, row),
    {
        if contains(self.branches, col, row) {
            Some(PanelFocus::Branches)
        } else if contains(self.staged, col, row) {
            Some(PanelFocus::Staged)
        } else if contains(self.changes, col, row) {
            Some(PanelFocus::Changes)
        } else if contains(self.stash, col, row) {
            Some(PanelFocus::Stash)
        } else if contains(self.commit_message, col, row) {
            Some(PanelFocus::CommitMessage)
        } else if contains(self.remote, col, row) {
            Some(PanelFocus::Remote)
        } else if contains(self.diff_viewer, col, row) {
            Some(PanelFocus::DiffViewer)
        } else if contains(self.log_graph, col, row) {
            Some(PanelFocus::LogGraph)
        } else {
            None
        }
    }

    /// The list item index at `row` of a list panel (below its top border,
    /// above its bottom border).
    pub fn row_to_index(&self, panel: PanelFocus, row: u16) -> (r: Option<usize>)
        ensures
            r == row_index_spec(*self, panel, row),
    {
        let rect = match panel {
            PanelFocus::Branches => self.branches,
            PanelFocus::Staged => self.staged,
            PanelFocus::Changes => self.changes,
            PanelFocus::Stash => self.stash,
            PanelFocus::LogGraph => self.log_graph,
            _ => return None,
        };
        let bottom = rect.y as u32 + rect.height as u32;
        if row > rect.y && (row as u32) + 1 < bottom {
            Some((row - rect.y - 1) as usize)
        } else {
            None
        }
    }
}


/// A mouse button.
#[derive(Debug, Clone, Copy, PartialEq, Eq, Structural)]
pub enum MouseButton {
    Left,
    Right,
    Middle,
}

/// What the mouse did.
#[derive(Debug, Clone, Copy, PartialEq, Eq, Structural)]
pub enum MouseEventKind {
    Down(MouseButton),
    Up(MouseButton),
    Drag(MouseButton),
    Moved,
    ScrollDown,
    ScrollUp,
    ScrollLeft,
    ScrollRight,
}

/// A mouse event at a terminal cell.
#[derive(Debug, Clone, Copy, PartialEq, Eq, Structural)]
pub struct MouseEvent {
    pub kind: MouseEventKind,
    pub column: u16,
    pub row: u16,
}

/// `a + b`, stopping at the maximum.
pub open spec fn sat_add_usize(a: usize, b: usize) -> usize {
    if a + b > usize::MAX { usize::MAX } else { (a + b) as usize }
}

/// The list index of a clicked row: log rows count from the first row shown.
pub open spec fn clicked_index(v: AppView, p: PanelFocus, idx: usize) -> usize {
    if p == PanelFocus::LogGraph { sat_add_usize(idx, v.log_viewport_offset) } else { idx }
}

/// The state after selecting row `idx` of a list panel, if the list has it.
pub open spec fn index_selected(v: AppView, p: PanelFocus, idx: usize) -> AppView {
    match p {
        PanelFocus::Branches => if idx < v.branches@.len() {
            AppView { branch_list_state: ListSelection { index: Some(idx) }, ..v }
        } else {
            v
        },
        PanelFocus::Staged => if idx < v.staged@.len() {
            AppView { staged_list_state: ListSelection { index: Some(idx) }, ..v }
        } else {
            v
        },
        PanelFocus::Changes => if idx < changes_count(v) {
            AppView { changes_list_state: ListSelection { index: Some(idx) }, ..v }
        } else {
            v
        },
        PanelFocus::Stash => if idx < v.stashes@.len() {
            AppView { stash_list_state: ListSelection { index: Some(idx) }, ..v }
        } else {
            v
        },
        PanelFocus::LogGraph => if idx < v.log@.len() {
            AppView { log_list_state: ListSelection { index: Some(idx) }, ..v }
        } else {
            v
        },
        _ => v,
    }
}

/// Focus the panel under the cursor and select the row clicked in it.
pub open spec fn click_select(v: AppView, l: PanelLayout, p: PanelFocus, row: u16) -> AppView {
    let w = AppView { focus: p, ..v };
    match row_index_spec(l, p, row) {
        Some(idx) => index_selected(w, p, clicked_index(w, p, idx)),
        None => w,
    }
}

/// A diff update after a click selected a row of the Staged or Changes panel.
pub open spec fn click_diff(l: PanelLayout, p: PanelFocus, row: u16) -> Seq<EffectView> {
    if row_index_spec(l, p, row).is_some() && (p == PanelFocus::Staged || p == PanelFocus::Changes) {
        seq![EffectView::UpdateDiff]
    } else {
        Seq::empty()
    }
}

/// Whether a left click continues the previous one into a double click: at
/// the same cell and panel, less than 300 ms later.
pub open spec fn is_double(s: MouseState, col: u16, row: u16, p: PanelFocus, since_ms: Option<u128>) -> bool {
    &&& s.last_click_time.is_some()
    &&& since_ms matches Some(ms) && ms < 300
    &&& s.last_click_col == col
    &&& s.last_click_row == row
    &&& s.last_click_panel == Some(p)
}

/// The click record after a left click at `(col, row)` in panel `p`; a
/// double click clears the time so that a third click starts afresh.
pub open spec fn click_recorded(s: MouseState, col: u16, row: u16, p: PanelFocus, now: Instant, double: bool) -> MouseState {
    MouseState {
        last_click_time: if double { None } else { Some(now) },
        last_click_col: col,
        last_click_row: row,
        last_click_panel: Some(p),
    }
}

/// What a double click in panel `p` does.
pub open spec fn double_click_effects(w: AppView, p: PanelFocus) -> Seq<EffectView> {
    match p {
        PanelFocus::Changes => stage_selected_effects(w),
        PanelFocus::Staged => unstage_selected_effects(w),
        PanelFocus::Branches => checkout_selected_effects(w),
        _ => Seq::empty(),
    }
}

/// The state after a click, when the commit panel was clicked: its editor opens.
pub open spec fn commit_click(w: AppView, p: PanelFocus) -> AppView {
    if p == PanelFocus::CommitMessage {
        AppView {
            focus: PanelFocus::CommitMessage,
            input_mode: InputMode::EditingCommitMessage,
            ..w
        }
    } else {
        w
    }
}

/// The context menu entries of a panel, as (label, shortcut) pairs.
pub open spec fn menu_items(p: PanelFocus) -> Seq<(Seq<char>, Seq<char>)> {
    match p {
        PanelFocus::Changes => seq![
            ("Stage"@, "s"@),
            ("Discard"@, "d"@),
            ("Stage All"@, "S"@),
            ("Copy Path"@, ""@),
        ],
        PanelFocus::Staged => seq![
            ("Unstage"@, "u"@),
            ("Unstage All"@, "U"@),
            ("Show Diff"@, ""@),
            ("Copy Path"@, ""@),
        ],
        PanelFocus::Branches => seq![
            ("Checkout"@, "Enter"@),
            ("Create"@, "B"@),
            ("Delete"@, ""@),
            ("Rename"@, ""@),
        ],
        PanelFocus::Stash => seq![("Pop"@, "Z"@), ("Apply"@, ""@), ("Drop"@, ""@)],
        PanelFocus::LogGraph => seq![("Checkout Commit"@, ""@), ("Copy SHA"@, ""@)],
        _ => Seq::empty(),
    }
}

/// The title of a panel's context menu.
pub open spec fn menu_title(p: PanelFocus) -> Seq<char> {
    match p {
        PanelFocus::Changes => "Changes"@,
        PanelFocus::Staged => "Staged"@,
        PanelFocus::Branches => "Branches"@,
        PanelFocus::Stash => "Stash"@,
        PanelFocus::LogGraph => "Log"@,
        _ => "Menu"@,
    }
}

/// The state after a right click in panel `p`: a panel with entries gets
/// its context menu at the cursor.
pub open spec fn menu_opened(w: AppView, p: PanelFocus, col: u16, row: u16) -> AppView {
    if menu_items(p).len() > 0 {
        AppView {
            context_menu: Some(
                ContextMenuView { title: menu_title(p), items: menu_items(p), selected: 0, x: col, y: row },
            ),
            input_mode: InputMode::ContextMenu,
            ..w
        }
    } else {
        w
    }
}

/// The state after three selection moves in list `p`, focus kept.
pub open spec fn scrolled(v: AppView, p: PanelFocus, down: bool) -> AppView {
    let w = AppView { focus: p, ..v };
    let w3 = if down {
        selected_next(selected_next(selected_next(w)))
    } else {
        selected_prev(selected_prev(selected_prev(w)))
    };
    AppView { focus: v.focus, ..w3 }
}

/// The state after the wheel turned over panel `p`.
pub open spec fn wheel(v: AppView, p: Option<PanelFocus>, down: bool) -> AppView {
    match p {
        Some(PanelFocus::DiffViewer) => AppView {
            diff_scroll: if down {
                if v.diff_scroll + 3 > u16::MAX { u16::MAX } else { (v.diff_scroll + 3) as u16 }
            } else {
                if v.diff_scroll < 3 { 0 } else { (v.diff_scroll - 3) as u16 }
            },
            ..v
        },
        Some(q) => scrolled(v, q, down),
        None => v,
    }
}

/// A left click at `(col, row)`.
pub open spec fn left_click(
    v: AppView,
    s: MouseState,
    l: PanelLayout,
    col: u16,
    row: u16,
    now: Instant,
    since_ms: Option<u128>,
) -> (AppView, MouseState, Seq<EffectView>) {
    match panel_at_spec(l, col, row) {
        Some(p) => {
            let w = click_select(v, l, p, row);
            let d = is_double(s, col, row, p, since_ms);
            let e = click_diff(l, p, row) + if d { double_click_effects(w, p) } else { Seq::empty() };
            (commit_click(w, p), click_recorded(s, col, row, p, now, d), e)
        },
        None => (v, s, Seq::empty()),
    }
}

/// A right click at `(col, row)`.
pub open spec fn right_click(v: AppView, l: PanelLayout, col: u16, row: u16) -> AppView {
    match panel_at_spec(l, col, row) {
        Some(p) => menu_opened(click_select(v, l, p, row), p, col, row),
        None => v,
    }
}

/// A mouse event, given the time now and the milliseconds since the last
/// recorded click (when there is one): the new state, click record and
/// effects.
pub open spec fn mouse_step(
    v: AppView,
    s: MouseState,
    ev: MouseEvent,
    layout: Option<PanelLayout>,
    now: Instant,
    since_ms: Option<u128>,
) -> (AppView, MouseState, Seq<EffectView>) {
    match layout {
        None => (v, s, Seq::empty()),
        Some(l) => match ev.kind {
            MouseEventKind::Down(MouseButton::Left) => left_click(v, s, l, ev.column, ev.row, now, since_ms),
            MouseEventKind::Down(MouseButton::Right) => (right_click(v, l, ev.column, ev.row), s, Seq::empty()),
            MouseEventKind::ScrollUp => (wheel(v, panel_at_spec(l, ev.column, ev.row), false), s, Seq::empty()),
            MouseEventKind::ScrollDown => (wheel(v, panel_at_spec(l, ev.column, ev.row), true), s, Seq::empty()),
            _ => (v, s, Seq::empty()),
        },
    }
}

/// The layout, if there is one, as a value.
pub open spec fn opt_layout(layout: Option<&PanelLayout>) -> Option<PanelLayout> {
    match layout {
        Some(l) => Some(*l),
        None => None,
    }
}

/// Select row `idx` in the list of panel `p`, if the list has it.
pub fn select_index_in_panel(app: &mut App, panel: PanelFocus, idx: usize)
    ensures
        final(app)@ == index_selected(old(app)@, panel, idx),
{
    match panel {
        PanelFocus::Branches => {
            if idx < app.branches.len() {
                app.branch_list_state.select(Some(idx));
            }
        },
        PanelFocus::Staged => {
            if idx < app.staged.len() {
                app.staged_list_state.select(Some(idx));
            }
        },
        PanelFocus::Changes => {
            if idx < app.changes_len() {
                app.changes_list_state.select(Some(idx));
            }
        },
        PanelFocus::Stash => {
            if idx < app.stashes.len() {
                app.stash_list_state.select(Some(idx));
            }
        },
        PanelFocus::LogGraph => {
            if idx < app.log.len() {
                app.log_list_state.select(Some(idx));
            }
        },
        _ => {},
    }
}

fn click_and_select(app: &mut App, layout: &PanelLayout, panel: PanelFocus, row: u16) -> (r: Vec<Effect>)
    ensures
        final(app)@ == click_select(old(app)@, *layout, panel, row),
        effects_view(r@) == click_diff(*layout, panel, row),
{
    app.focus = panel;
    let mut r: Vec<Effect> = Vec::new();
    if let Some(idx) = layout.row_to_index(panel, row) {
        let actual = if panel == PanelFocus::LogGraph {
            idx.saturating_add(app.log_viewport_offset)
        } else {
            idx
        };
        select_index_in_panel(app, panel, actual);
        if panel == PanelFocus::Staged || panel == PanelFocus::Changes {
            r.push(Effect::UpdateDiff);
        }
    }
    assert(effects_view(r@) =~= click_diff(*layout, panel, row));
    r
}

fn item(label: &str, shortcut: &str) -> (r: ContextMenuItem)
    ensures
        r@ == (label@, shortcut@),
{
    ContextMenuItem { label: label.to_owned(), shortcut: shortcut.to_owned() }
}

fn menu_items_of(p: PanelFocus) -> (r: Vec<ContextMenuItem>)
    ensures
        r@.map_values(|i: ContextMenuItem| i@) == menu_items(p),
{
    let r = match p {
        PanelFocus::Changes => vec![
            item("Stage", "s"),
            item("Discard", "d"),
            item("Stage All", "S"),
            item("Copy Path", ""),
        ],
        PanelFocus::Staged => vec![
            item("Unstage", "u"),
            item("Unstage All", "U"),
            item("Show Diff", ""),
            item("Copy Path", ""),
        ],
        PanelFocus::Branches => vec![
            item("Checkout", "Enter"),
            item("Create", "B"),
            item("Delete", ""),
            item("Rename", ""),
        ],
        PanelFocus::Stash => vec![item("Pop", "Z"), item("Apply", ""), item("Drop", "")],
        PanelFocus::LogGraph => vec![item("Checkout Commit", ""), item("Copy SHA", "")],
        _ => Vec::new(),
    };
    assert(r@.map_values(|i: ContextMenuItem| i@) =~= menu_items(p));
    r
}

fn menu_title_of(p: PanelFocus) -> (r: &'static str)
    ensures
        r@ == menu_title(p),
{
    match p {
        PanelFocus::Changes => "Changes",
        PanelFocus::Staged => "Staged",
        PanelFocus::Branches => "Branches",
        PanelFocus::Stash => "Stash",
        PanelFocus::LogGraph => "Log",
        _ => "Menu",
    }
}

fn scroll_list(app: &mut App, p: PanelFocus, down: bool)
    ensures
        final(app)@ == scrolled(old(app)@, p, down),
{
    let prev_focus = app.focus;
    app.focus = p;
    if down {
        app.select_next();
        app.select_next();
        app.select_next();
    } else {
        app.select_prev();
        app.select_prev();
        app.select_prev();
    }
    app.focus = prev_focus;
}

fn handle_left_click(
    app: &mut App,
    layout: &PanelLayout,
    mouse_state: &mut MouseState,
    col: u16,
    row: u16,
    now: Instant,
    since_last_ms: Option<u128>,
) -> (r: Vec<Effect>)
    ensures
        (final(app)@, *final(mouse_state), effects_view(r@)) == left_click(
            old(app)@,
            *old(mouse_state),
            *layout,
            col,
            row,
            now,
            since_last_ms,
        ),
{
    let panel = match layout.panel_at(col, row) {
        Some(p) => p,
        None => {
            let r: Vec<Effect> = Vec::new();
            assert(effects_view(r@) =~= Seq::<EffectView>::empty());
            return r;
        },
    };
    let mut r = click_and_select(app, layout, panel, row);
    let is_double_click = match mouse_state.last_click_time {
        Some(_) => match since_last_ms {
            Some(ms) => ms < 300 && mouse_state.last_click_col == col && mouse_state.last_click_row
                == row && mouse_state.last_click_panel == Some(panel),
            None => false,
        },
        None => false,
    };
    assert(is_double_click == is_double(*old(mouse_state), col, row, panel, since_last_ms));
    mouse_state.last_click_time = Some(now);
    mouse_state.last_click_col = col;
    mouse_state.last_click_row = row;
    mouse_state.last_click_panel = Some(panel);
    if is_double_click {
        mouse_state.last_click_time = None;
        let ghost r0 = r@;
        let ghost w = app@;
        let mut more = match panel {
            PanelFocus::Changes => app.stage_selected(),
            PanelFocus::Staged => app.unstage_selected(),
            PanelFocus::Branches => app.checkout_selected_branch(),
            _ => {
                let e: Vec<Effect> = Vec::new();
                e
            },
        };
        assert(effects_view(more@) =~= double_click_effects(w, panel));
        r.append(&mut more);
        assert(effects_view(r@) =~= effects_view(r0) + double_click_effects(w, panel));
    } else {
        assert(effects_view(r@) =~= effects_view(r@) + Seq::<EffectView>::empty());
    }
    if panel == PanelFocus::CommitMessage {
        app.focus_commit_message();
    }
    r
}

fn open_menu(app: &mut App, panel: PanelFocus, col: u16, row: u16)
    ensures
        final(app)@ == menu_opened(old(app)@, panel, col, row),
{
    let items = menu_items_of(panel);
    if items.len() > 0 {
        let title = menu_title_of(panel);
        app.context_menu = Some(ContextMenu { title: title.to_owned(), items, selected: 0, x: col, y: row });
        app.input_mode = InputMode::ContextMenu;
    }
}

fn handle_right_click(app: &mut App, layout: &PanelLayout, col: u16, row: u16)
    ensures
        final(app)@ == right_click(old(app)@, *layout, col, row),
{
    let panel = match layout.panel_at(col, row) {
        Some(p) => p,
        None => return,
    };
    let _ = click_and_select(app, layout, panel, row);
    open_menu(app, panel, col, row);
}

fn handle_wheel(app: &mut App, layout: &PanelLayout, col: u16, row: u16, down: bool)
    ensures
        final(app)@ == wheel(old(app)@, panel_at_spec(*layout, col, row), down),
{
    match layout.panel_at(col, row) {
        Some(PanelFocus::DiffViewer) => {
            if down {
                app.diff_scroll = app.diff_scroll.saturating_add(3);
            } else {
                app.diff_scroll = app.diff_scroll.saturating_sub(3);
            }
        },
        Some(p) => scroll_list(app, p, down),
        None => {},
    }
}

/// Handle a mouse event, given the time now and the milliseconds since the
/// last recorded click. `layout` holds the panel regions of the last
/// render; without it spatial events are ignored.
pub fn handle_mouse_event_at(
    app: &mut App,
    event: MouseEvent,
    layout: Option<&PanelLayout>,
    mouse_state: &mut MouseState,
    now: Instant,
    since_last_ms: Option<u128>,
) -> (r: Vec<Effect>)
    ensures
        (final(app)@, *final(mouse_state), effects_view(r@)) == mouse_step(
            old(app)@,
            *old(mouse_state),
            event,
            opt_layout(layout),
            now,
            since_last_ms,
        ),
{
    let r: Vec<Effect> = Vec::new();
    assert(effects_view(r@) =~= Seq::<EffectView>::empty());
    let layout = match layout {
        Some(l) => l,
        None => return r,
    };
    match event.kind {
        MouseEventKind::Down(MouseButton::Left) => handle_left_click(
            app,
            layout,
            mouse_state,
            event.column,
            event.row,
            now,
            since_last_ms,
        ),
        MouseEventKind::Down(MouseButton::Right) => {
            handle_right_click(app, layout, event.column, event.row);
            r
        },
        MouseEventKind::ScrollUp => {
            handle_wheel(app, layout, event.column, event.row, false);
            r
        },
        MouseEventKind::ScrollDown => {
            handle_wheel(app, layout, event.column, event.row, true);
            r
        },
        _ => r,
    }
}

/// Handle a mouse event now: reads the clock for double-click detection
/// and leaves the rest to [`handle_mouse_event_at`]. Whatever the clock
/// reads, the outcome is `mouse_step` for that reading.
pub fn handle_mouse_event(
    app: &mut App,
    event: MouseEvent,
    layout: Option<&PanelLayout>,
    mouse_state: &mut MouseState,
) -> (r: Vec<Effect>)
    ensures
        exists|now: Instant, since: Option<u128>|
            (final(app)@, *final(mouse_state), effects_view(r@)) == #[trigger] mouse_step(
                old(app)@,
                *old(mouse_state),
                event,
                opt_layout(layout),
                now,
                since,
            ),
{
    let since = match &mouse_state.last_click_time {
        Some(t) => {
            let d = crate::clock::elapsed(t);
            Some(crate::clock::whole_millis(&d))
        },
        None => None,
    };
    let now = crate::clock::now();
    handle_mouse_event_at(app, event, layout, mouse_state, now, since)
}


/// A left click at another cell than the last one is never a double
/// click: it only focuses and selects, and starts a new click record.
pub proof fn law_double_click_needs_same_cell(
    v: AppView,
    s: MouseState,
    l: PanelLayout,
    col: u16,
    row: u16,
    now: Instant,
    since_ms: Option<u128>,
)
    requires
        s.last_click_col != col || s.last_click_row != row,
        panel_at_spec(l, col, row).is_some(),
    ensures
        left_click(v, s, l, col, row, now, since_ms).1.last_click_time == Some(now),
        left_click(v, s, l, col, row, now, since_ms).2 == click_diff(
            l,
            panel_at_spec(l, col, row).unwrap(),
            row,
        ),
{
    let p = panel_at_spec(l, col, row).unwrap();
    assert(!is_double(s, col, row, p, since_ms));
    assert(click_diff(l, p, row) + Seq::<EffectView>::empty() =~= click_diff(l, p, row));
}

/// The wheel over the diff viewer scrolls the diff by three lines: down
/// adds three (stopping at the largest offset), up takes three away
/// (stopping at zero); nothing else changes, and no work is asked for. So
/// turning down never scrolls up, and turning up never scrolls down.
pub proof fn law_wheel_scrolls_diff(
    v: AppView,
    s: MouseState,
    l: PanelLayout,
    ev: MouseEvent,
    now: Instant,
    since_ms: Option<u128>,
)
    requires
        panel_at_spec(l, ev.column, ev.row) == Some(PanelFocus::DiffViewer),
        ev.kind == MouseEventKind::ScrollDown || ev.kind == MouseEventKind::ScrollUp,
    ensures
        ({
            let (w, s2, e) = mouse_step(v, s, ev, Some(l), now, since_ms);
            &&& w == AppView { diff_scroll: w.diff_scroll, ..v }
            &&& s2 == s
            &&& e.len() == 0
            &&& ev.kind == MouseEventKind::ScrollDown ==> {
                &&& v.diff_scroll <= w.diff_scroll
                &&& w.diff_scroll as int == if v.diff_scroll + 3 <= u16::MAX {
                    v.diff_scroll + 3
                } else {
                    u16::MAX as int
                }
            }
            &&& ev.kind == MouseEventKind::ScrollUp ==> {
                &&& w.diff_scroll <= v.diff_scroll
                &&& w.diff_scroll as int == if v.diff_scroll >= 3 { v.diff_scroll - 3 } else { 0 }
            }
        }),
{
}

/// The selection and length of the list shown in panel `p`, if it shows one.
pub open spec fn panel_list(v: AppView, p: PanelFocus) -> Option<(Option<usize>, int)> {
    match p {
        PanelFocus::Branches => Some((v.branch_list_state.index, v.branches.len() as int)),
        PanelFocus::Staged => Some((v.staged_list_state.index, v.staged.len() as int)),
        PanelFocus::Changes => Some((v.changes_list_state.index, changes_count(v) as int)),
        PanelFocus::Stash => Some((v.stash_list_state.index, v.stashes.len() as int)),
        PanelFocus::LogGraph => Some((v.log_list_state.index, v.log.len() as int)),
        _ => None,
    }
}

#[verifier::spinoff_prover]
#[verifier::rlimit(30)]
proof fn lemma_scrolled_list(v: AppView, p: PanelFocus, down: bool, i: usize)
    requires
        panel_list(v, p) matches Some((Some(s), len)) && s == i && (if down { i + 3 < len } else { 3 <= i < len }),
    ensures
        scrolled(v, p, down).focus == v.focus,
        panel_list(scrolled(v, p, down), p) == Some((
            Some((if down { i + 3 } else { i - 3 }) as usize),
            panel_list(v, p).unwrap().1,
        )),
{
    let w = AppView { focus: p, ..v };
    if down {
        let w1 = selected_next(w);
        let w2 = selected_next(w1);
        assert(changes_count(w1) == changes_count(v));
        assert(changes_count(w2) == changes_count(v));
        assert(w2.focus == p && w1.focus == p);
    } else {
        let w1 = selected_prev(w);
        let w2 = selected_prev(w1);
        assert(changes_count(w1) == changes_count(v));
        assert(changes_count(w2) == changes_count(v));
        assert(w2.focus == p && w1.focus == p);
    }
}

/// The wheel over a list moves its selection by three rows, down for
/// `ScrollDown` and up for `ScrollUp` (from a selected row, away from the
/// list's ends), without moving the focus.
pub proof fn law_wheel_moves_list(
    v: AppView,
    s: MouseState,
    l: PanelLayout,
    ev: MouseEvent,
    now: Instant,
    since_ms: Option<u128>,
    i: usize,
)
    requires
        panel_at_spec(l, ev.column, ev.row) matches Some(p) && panel_list(v, p) matches Some((Some(sel), len))
            && sel == i && i < len,
    ensures
        ({
            let p = panel_at_spec(l, ev.column, ev.row).unwrap();
            let len = panel_list(v, p).unwrap().1;
            let w = mouse_step(v, s, ev, Some(l), now, since_ms).0;
            &&& ev.kind == MouseEventKind::ScrollDown && i + 3 < len ==> w.focus == v.focus && panel_list(w, p)
                == Some((Some((i + 3) as usize), len))
            &&& ev.kind == MouseEventKind::ScrollUp && 3 <= i ==> w.focus == v.focus && panel_list(w, p) == Some(
                (Some((i - 3) as usize), len),
            )
        }),
{
    let p = panel_at_spec(l, ev.column, ev.row).unwrap();
    let len = panel_list(v, p).unwrap().1;
    if ev.kind == MouseEventKind::ScrollDown && i + 3 < len {
        lemma_scrolled_list(v, p, true, i);
    }
    if ev.kind == MouseEventKind::ScrollUp && 3 <= i {
        lemma_scrolled_list(v, p, false, i);
    }
}

} // verus!
