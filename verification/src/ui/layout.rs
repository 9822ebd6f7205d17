//! Where each panel goes on the screen.

use vstd::prelude::*;

use crate::input::mouse::{PanelLayout, Rect};
use ratatui::layout::{Constraint, Direction, Layout, Rect as TuiRect};

verus! {

/// A size rule for one part of a split area.
#[derive(Debug, Clone, Copy, PartialEq, Eq, Structural)]
pub enum LayoutConstraint {
    /// Exactly this many cells.
    Length(u16),
    /// At least this many cells.
    Min(u16),
    /// This percentage of the area.
    Percentage(u16),
}

/// The axis along which an area is split.
#[derive(Debug, Clone, Copy, PartialEq, Eq, Structural)]
pub enum Axis {
    /// Parts stacked top to bottom.
    Vertical,
    /// Parts side by side, left to right.
    Horizontal,
}

/// `Layout::default().direction(..).constraints(..).split(area)`: one
/// rectangle per constraint, as ratatui's constraint solver places them.
/// Where the rectangles fall is not stated: the solver works with floating
/// point, and where constraints of equal strength conflict, the source does
/// not show that its choice among the best solutions is the same each time.
#[verifier::external_body]
fn split_area(area: Rect, axis: Axis, constraints: &Vec<LayoutConstraint>) -> (r: Vec<Rect>)
    ensures
        r@.len() == constraints@.len(),
{
    let direction = match axis {
        Axis::Vertical => Direction::Vertical,
        Axis::Horizontal => Direction::Horizontal,
    };
    let cs = constraints.iter().map(|c| match *c {
        LayoutConstraint::Length(n) => Constraint::Length(n),
        LayoutConstraint::Min(n) => Constraint::Min(n),
        LayoutConstraint::Percentage(n) => Constraint::Percentage(n),
    });
    let whole = TuiRect { x: area.x, y: area.y, width: area.width, height: area.height };
    let parts = Layout::default().direction(direction).constraints(cs).split(whole);
    parts.iter().map(|p| Rect { x: p.x, y: p.y, width: p.width, height: p.height }).collect()
}

/// Pre-computed rectangles for every panel of the screen.
#[derive(Debug, Clone, Copy, PartialEq, Eq, Structural)]
pub struct LayoutAreas {
    pub header: Rect,
    pub left_panel: Rect,
    pub right_panel: Rect,
    pub branches: Rect,
    pub staged: Rect,
    pub changes: Rect,
    pub stash: Rect,
    pub commit: Rect,
    pub remote: Rect,
    pub diff_viewer: Rect,
    pub log_graph: Rect,
    pub statusbar: Rect,
}

/// Header, body and status bar, top to bottom.
pub open spec fn outer_rules() -> Seq<LayoutConstraint> {
    seq![LayoutConstraint::Length(1), LayoutConstraint::Min(6), LayoutConstraint::Length(1)]
}

/// The left sidebar (35%) and the right content (65%).
pub open spec fn column_rules() -> Seq<LayoutConstraint> {
    seq![LayoutConstraint::Percentage(35), LayoutConstraint::Percentage(65)]
}

/// Branches, staged, changes, stash, commit and remote, top to bottom.
pub open spec fn left_rules() -> Seq<LayoutConstraint> {
    seq![
        LayoutConstraint::Percentage(20),
        LayoutConstraint::Percentage(18),
        LayoutConstraint::Percentage(22),
        LayoutConstraint::Percentage(12),
        LayoutConstraint::Percentage(16),
        LayoutConstraint::Percentage(12),
    ]
}

/// The diff viewer (60%) above the log (40%).
pub open spec fn right_rules() -> Seq<LayoutConstraint> {
    seq![LayoutConstraint::Percentage(60), LayoutConstraint::Percentage(40)]
}

/// The panel areas taken from the parts of the screen: `outer` (header,
/// body, status bar), `columns` (the body's left and right), `left` (the six
/// sidebar panels) and `right` (diff viewer and log).
pub open spec fn areas_from(outer: Seq<Rect>, columns: Seq<Rect>, left: Seq<Rect>, right: Seq<Rect>) -> LayoutAreas {
    LayoutAreas {
        header: outer[0],
        left_panel: columns[0],
        right_panel: columns[1],
        branches: left[0],
        staged: left[1],
        changes: left[2],
        stash: left[3],
        commit: left[4],
        remote: left[5],
        diff_viewer: right[0],
        log_graph: right[1],
        statusbar: outer[2],
    }
}

impl LayoutAreas {
    /// Compute every panel area from the whole terminal `area`:
    ///
    /// ```text
    /// header (1 line)
    /// left 35%: branches 20%, staged 18%, changes 22%, stash 12%, commit 16%, remote 12%
    /// right 65%: diff viewer 60%, log 40%
    /// status bar (1 line)
    /// ```
    ///
    /// The areas are picked from the parts that the solver gives for these
    /// rules (see [`outer_rules`], [`column_rules`], [`left_rules`],
    /// [`right_rules`]) by [`LayoutAreas::from_parts`]; where the solver puts
    /// the parts is not stated.
    pub fn compute(area: Rect) -> Self {
        let outer = split_area(area, Axis::Vertical, &vec![LayoutConstraint::Length(1), LayoutConstraint::Min(6), LayoutConstraint::Length(1)]);
        let columns = split_area(outer[1], Axis::Horizontal, &vec![LayoutConstraint::Percentage(35), LayoutConstraint::Percentage(65)]);
        let left = split_area(
            columns[0],
            Axis::Vertical,
            &vec![
                LayoutConstraint::Percentage(20),
                LayoutConstraint::Percentage(18),
                LayoutConstraint::Percentage(22),
                LayoutConstraint::Percentage(12),
                LayoutConstraint::Percentage(16),
                LayoutConstraint::Percentage(12),
            ],
        );
        let right = split_area(columns[1], Axis::Vertical, &vec![LayoutConstraint::Percentage(60), LayoutConstraint::Percentage(40)]);
        LayoutAreas::from_parts(&outer, &columns, &left, &right)
    }

    /// The panel areas picked from the parts of the screen (see
    /// [`areas_from`]).
    pub fn from_parts(outer: &Vec<Rect>, columns: &Vec<Rect>, left: &Vec<Rect>, right: &Vec<Rect>) -> (r: Self)
        requires
            outer@.len() == 3,
            columns@.len() == 2,
            left@.len() == 6,
            right@.len() == 2,
        ensures
            r == areas_from(outer@, columns@, left@, right@),
    {
        LayoutAreas {
            header: outer[0],
            left_panel: columns[0],
            right_panel: columns[1],
            branches: left[0],
            staged: left[1],
            changes: left[2],
            stash: left[3],
            commit: left[4],
            remote: left[5],
            diff_viewer: right[0],
            log_graph: right[1],
            statusbar: outer[2],
        }
    }

    /// The regions the mouse handler tests clicks against.
    pub fn panel_layout(&self) -> (r: PanelLayout)
        ensures
            r == (PanelLayout {
                branches: self.branches,
                staged: self.staged,
                changes: self.changes,
                stash: self.stash,
                commit_message: self.commit,
                remote: self.remote,
                diff_viewer: self.diff_viewer,
                log_graph: self.log_graph,
            }),
    {
        PanelLayout {
            branches: self.branches,
            staged: self.staged,
            changes: self.changes,
            stash: self.stash,
            commit_message: self.commit,
            remote: self.remote,
            diff_viewer: self.diff_viewer,
            log_graph: self.log_graph,
        }
    }
}

/// The split rules that center a part of `percent` percent.
pub open spec fn centered_rules(percent: u16) -> Seq<LayoutConstraint> {
    seq![
        LayoutConstraint::Percentage(((100 - percent) / 2) as u16),
        LayoutConstraint::Percentage(percent),
        LayoutConstraint::Percentage(((100 - percent) / 2) as u16),
    ]
}

/// A rectangle centered within `area`, `percent_x`% wide and `percent_y`%
/// high (dialogs and the help overlay): the middle part of the
/// [`centered_rules`] split across the middle part of the same split down
/// `area`. Where the solver puts the parts is not stated.
pub fn centered_rect(percent_x: u16, percent_y: u16, area: Rect) -> Rect
    requires
        percent_x <= 100,
        percent_y <= 100,
{
    let side_y = (100 - percent_y) / 2;
    let vert = split_area(
        area,
        Axis::Vertical,
        &vec![LayoutConstraint::Percentage(side_y), LayoutConstraint::Percentage(percent_y), LayoutConstraint::Percentage(side_y)],
    );
    let side_x = (100 - percent_x) / 2;
    let horiz = split_area(
        vert[1],
        Axis::Horizontal,
        &vec![LayoutConstraint::Percentage(side_x), LayoutConstraint::Percentage(percent_x), LayoutConstraint::Percentage(side_x)],
    );
    horiz[1]
}

} // verus!
