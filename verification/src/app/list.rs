//! Selection within a list panel.

use vstd::prelude::*;

verus! {

/// The selected row of a list panel, if any.
#[derive(Debug, Clone, Copy, PartialEq, Eq, Structural)]
pub struct ListSelection {
    pub index: Option<usize>,
}

/// Selection after moving one row down, wrapping from the last row to the first.
pub open spec fn advanced(sel: Option<usize>, len: usize) -> Option<usize> {
    if len == 0 {
        None
    } else {
        match sel {
            Some(i) => if i >= len - 1 { Some(0usize) } else { Some((i + 1) as usize) },
            None => Some(0usize),
        }
    }
}

/// Selection after moving one row up, wrapping from the first row to the last.
pub open spec fn retreated(sel: Option<usize>, len: usize) -> Option<usize> {
    if len == 0 {
        None
    } else {
        match sel {
            Some(i) => if i == 0 { Some((len - 1) as usize) } else { Some((i - 1) as usize) },
            None => Some((len - 1) as usize),
        }
    }
}

/// Selection kept within a list of `len` rows.
pub open spec fn clamped(sel: Option<usize>, len: usize) -> Option<usize> {
    if len == 0 {
        None
    } else {
        match sel {
            Some(i) => if i >= len { Some((len - 1) as usize) } else { Some(i) },
            None => None,
        }
    }
}

/// Selection of the first row; unchanged for an empty list.
pub open spec fn first_selected(sel: Option<usize>, len: usize) -> Option<usize> {
    if len > 0 { Some(0usize) } else { sel }
}

/// Selection of the last row; unchanged for an empty list.
pub open spec fn last_selected(sel: Option<usize>, len: usize) -> Option<usize> {
    if len > 0 { Some((len - 1) as usize) } else { sel }
}

impl ListSelection {
    /// No row selected.
    pub fn new() -> (r: Self)
        ensures
            r.index.is_none(),
    {
        ListSelection { index: None }
    }

    /// The selected row.
    pub fn selected(&self) -> (r: Option<usize>)
        ensures
            r == self.index,
    {
        self.index
    }

    /// Select a row, or none.
    pub fn select(&mut self, index: Option<usize>)
        ensures
            final(self).index == index,
    {
        self.index = index;
    }
}

impl Default for ListSelection {
    fn default() -> (r: Self)
        ensures
            r.index.is_none(),
    {
        ListSelection { index: None }
    }
}

/// Move the selection one row down, wrapping around.
pub fn advance_list_state(state: &mut ListSelection, len: usize)
    ensures
        final(state).index == advanced(old(state).index, len),
{
    if len == 0 {
        state.select(None);
        return;
    }
    let next = match state.selected() {
        Some(i) => if i >= len - 1 { 0 } else { i + 1 },
        None => 0,
    };
    state.select(Some(next));
}

/// Move the selection one row up, wrapping around.
pub fn retreat_list_state(state: &mut ListSelection, len: usize)
    ensures
        final(state).index == retreated(old(state).index, len),
{
    if len == 0 {
        state.select(None);
        return;
    }
    let prev = match state.selected() {
        Some(i) => if i == 0 { len - 1 } else { i - 1 },
        None => len - 1,
    };
    state.select(Some(prev));
}

/// Keep the selection within `[0, len)`.
pub fn clamp_list_state(state: &mut ListSelection, len: usize)
    ensures
        final(state).index == clamped(old(state).index, len),
{
    if len == 0 {
        state.select(None);
    } else if let Some(i) = state.selected() {
        if i >= len {
            state.select(Some(len - 1));
        }
    }
}

/// Select the first row of a non-empty list.
pub fn select_first(state: &mut ListSelection, len: usize)
    ensures
        final(state).index == first_selected(old(state).index, len),
{
    if len > 0 {
        state.select(Some(0));
    }
}

/// Select the last row of a non-empty list.
pub fn select_last(state: &mut ListSelection, len: usize)
    ensures
        final(state).index == last_selected(old(state).index, len),
{
    if len > 0 {
        state.select(Some(len - 1));
    }
}

/// Moving down then up returns to the row that was selected, in a list that
/// holds it.
pub proof fn law_down_then_up(sel: usize, len: usize)
    requires
        sel < len,
    ensures
        retreated(advanced(Some(sel), len), len) == Some(sel),
{
}

/// Moving up then down returns to the row that was selected, in a list that
/// holds it.
pub proof fn law_up_then_down(sel: usize, len: usize)
    requires
        sel < len,
    ensures
        advanced(retreated(Some(sel), len), len) == Some(sel),
{
}

/// Every selection that the list operations produce lies within the list
/// (moving up from a row within it).
pub proof fn law_selection_in_range(sel: Option<usize>, len: usize)
    requires
        len > 0,
    ensures
        advanced(sel, len).unwrap() < len,
        (sel matches Some(i) ==> i < len) ==> retreated(sel, len).unwrap() < len,
        clamped(sel, len).is_some() ==> clamped(sel, len).unwrap() < len,
        first_selected(sel, len).unwrap() < len,
        last_selected(sel, len).unwrap() < len,
{
}

} // verus!
