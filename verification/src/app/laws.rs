//! Properties of the state machine that hold for every state.

use vstd::prelude::*;

use crate::app::effect::EffectView;
use crate::app::panel::{
    panel_at_order, panel_order_index, spec_canonical_panel, DiffMode, InputMode, NotificationType,
    PanelFocus,
};
use crate::app::list::{advanced, retreated};
use crate::app::state::{
    changes_count, commit_effects, selected_next, selected_prev, delete_ask_effects, delete_asked, deleting_current, diff_mode_toggled, focused_on, help_toggled,
    left_commit_message, next_of, note, palette_closed, palette_opened, prev_of, AppView,
};
use crate::input::key::{key_step, none};
use crate::input::mouse::panel_list;
use crate::input::keys::{KeyCode, KeyInput};
use crate::util::trimmed;

verus! {

/// Eight presses of Tab bring the focus back to the panel it started on
/// (the commit panel under its main name).
pub proof fn law_tab_cycles(p: PanelFocus)
    ensures
        next_of(next_of(next_of(next_of(next_of(next_of(next_of(next_of(p))))))))
            == spec_canonical_panel(p),
{
}

/// Shift+Tab undoes Tab, and Tab undoes Shift+Tab (up to the alias of the
/// commit panel).
pub proof fn law_prev_undoes_next(p: PanelFocus)
    ensures
        prev_of(next_of(p)) == spec_canonical_panel(p),
        next_of(prev_of(p)) == spec_canonical_panel(p),
{
}

/// Toggling the help overlay twice leaves the state as it was.
pub proof fn law_help_toggle_twice(v: AppView)
    ensures
        help_toggled(help_toggled(v)) == v,
{
}

/// Toggling the diff mode twice leaves the state as it was.
pub proof fn law_diff_mode_toggle_twice(v: AppView)
    ensures
        diff_mode_toggled(diff_mode_toggled(v)) == v,
{
}

/// Opening and then closing the command palette returns to normal mode
/// with the palette hidden and its query empty; nothing else changes but
/// the palette's selection, which starts over.
pub proof fn law_palette_open_close(v: AppView)
    ensures
        palette_closed(palette_opened(v)) == (AppView {
            show_command_palette: false,
            command_palette_input: Seq::empty(),
            palette_input: Seq::empty(),
            palette_cursor: 0,
            command_palette_selected: 0,
            palette_selected: 0,
            input_mode: InputMode::Normal,
            ..v
        }),
{
}

/// Entering and then leaving the commit message editor returns to normal
/// mode on the Changes panel, the message kept.
pub proof fn law_commit_editor_round_trip(v: AppView)
    ensures
        left_commit_message(
            AppView {
                focus: PanelFocus::CommitMessage,
                input_mode: InputMode::EditingCommitMessage,
                ..v
            },
        ) == (AppView { focus: PanelFocus::Changes, input_mode: InputMode::Normal, ..v }),
{
}

/// Ctrl+C quits from every mode, and changes nothing else.
pub proof fn law_ctrl_c_quits(v: AppView, shift: bool)
    ensures
        key_step(v, KeyInput { code: KeyCode::Char('c'), ctrl: true, shift }) == (
            AppView { should_quit: true, ..v },
            none(),
        ),
{
}

/// With the help overlay shown in normal mode, any key but Ctrl+C only
/// hides it.
pub proof fn law_any_key_hides_help(v: AppView, k: KeyInput)
    requires
        v.show_help,
        v.input_mode == InputMode::Normal,
        !(k.ctrl && k.code == KeyCode::Char('c')),
    ensures
        key_step(v, k) == (AppView { show_help: false, ..v }, none()),
{
}

/// Escape leaves the command palette, a dialog, the search bar and a
/// context menu for normal mode, and asks for no repository work.
pub proof fn law_escape_returns_to_normal(v: AppView, ctrl: bool, shift: bool)
    requires
        v.input_mode == InputMode::CommandPalette || v.input_mode == InputMode::DialogInput
            || v.input_mode == InputMode::SearchInput || v.input_mode == InputMode::ContextMenu,
    ensures
        key_step(v, KeyInput { code: KeyCode::Esc, ctrl, shift }).0.input_mode == InputMode::Normal,
        key_step(v, KeyInput { code: KeyCode::Esc, ctrl, shift }).1 == none(),
{
}

/// A commit is never made with a message that is only white space: the
/// user is warned instead.
pub proof fn law_blank_message_never_committed(v: AppView)
    requires
        trimmed(v.commit_message).len() == 0,
    ensures
        commit_effects(v) == seq![note("Commit message is empty"@, NotificationType::Warning)],
{
}

/// The checked-out branch is never offered for deletion: asking to delete
/// it changes nothing and reports an error.
pub proof fn law_current_branch_kept(v: AppView)
    requires
        deleting_current(v),
    ensures
        delete_asked(v) == v,
        delete_ask_effects(v) == seq![note("Cannot delete the current branch"@, NotificationType::Error)],
{
}

/// While a background operation runs, fetch (`f`), push (`p`) and pull
/// (`P`) start no other one: the state stays as it is and no work is asked
/// for.
pub proof fn law_one_background_operation(v: AppView, c: char, shift: bool)
    requires
        v.async_op.is_some(),
        v.input_mode == InputMode::Normal,
        !v.show_help,
        c == 'f' || (c == 'p' && !shift) || c == 'P',
    ensures
        key_step(v, KeyInput { code: KeyCode::Char(c), ctrl: false, shift }) == (v, none()),
{
}

/// The selection and length of the list the focus is on, if it is on one.
pub open spec fn focused_list(v: AppView) -> Option<(Option<usize>, int)> {
    panel_list(v, v.focus)
}

/// In normal mode, without the help overlay, `k` does what Up does and `j`
/// what Down does; on a list, `k` selects the row above (from below the
/// first row) and `j` the row below (above the last row), focus kept.
pub proof fn law_k_up_j_down(v: AppView, ctrl: bool, shift: bool, i: usize)
    requires
        v.input_mode == InputMode::Normal,
        !v.show_help,
    ensures
        key_step(v, KeyInput { code: KeyCode::Char('k'), ctrl, shift }) == key_step(
            v,
            KeyInput { code: KeyCode::Up, ctrl, shift },
        ),
        key_step(v, KeyInput { code: KeyCode::Char('j'), ctrl, shift }) == key_step(
            v,
            KeyInput { code: KeyCode::Down, ctrl, shift },
        ),
        focused_list(v) matches Some((Some(s), len)) && s == i && 0 < i < len ==> {
            let w = key_step(v, KeyInput { code: KeyCode::Char('k'), ctrl, shift }).0;
            &&& w.focus == v.focus
            &&& focused_list(w) == Some((Some((i - 1) as usize), focused_list(v).unwrap().1))
        },
        focused_list(v) matches Some((Some(s), len)) && s == i && i + 1 < len ==> {
            let w = key_step(v, KeyInput { code: KeyCode::Char('j'), ctrl, shift }).0;
            &&& w.focus == v.focus
            &&& focused_list(w) == Some((Some((i + 1) as usize), focused_list(v).unwrap().1))
        },
{
}

proof fn lemma_j_k_select(v: AppView, ctrl: bool, shift: bool)
    requires
        v.input_mode == InputMode::Normal,
        !v.show_help,
    ensures
        key_step(v, KeyInput { code: KeyCode::Char('j'), ctrl, shift }).0 == selected_next(v),
        key_step(v, KeyInput { code: KeyCode::Char('k'), ctrl, shift }).0 == selected_prev(v),
{
}

proof fn lemma_next_then_prev(v: AppView)
    requires
        focused_list(v) matches Some((Some(s), len)) && s < len,
    ensures
        selected_prev(selected_next(v)) == v,
{
    let w = selected_next(v);
    match v.focus {
        PanelFocus::Branches => {
            let i = v.branch_list_state.index.unwrap();
            assert(retreated(advanced(Some(i), v.branches.len()), v.branches.len()) == Some(i));
            assert(w.branches == v.branches);
            assert(selected_prev(w).branch_list_state == v.branch_list_state);
        },
        PanelFocus::Staged => {
            let i = v.staged_list_state.index.unwrap();
            assert(retreated(advanced(Some(i), v.staged.len()), v.staged.len()) == Some(i));
            assert(w.staged == v.staged);
            assert(selected_prev(w).staged_list_state == v.staged_list_state);
        },
        PanelFocus::Changes => {
            let i = v.changes_list_state.index.unwrap();
            assert(retreated(advanced(Some(i), changes_count(v)), changes_count(v)) == Some(i));
            assert(changes_count(w) == changes_count(v));
            assert(selected_prev(w).changes_list_state == v.changes_list_state);
        },
        PanelFocus::Stash => {
            let i = v.stash_list_state.index.unwrap();
            assert(retreated(advanced(Some(i), v.stashes.len()), v.stashes.len()) == Some(i));
            assert(w.stashes == v.stashes);
            assert(selected_prev(w).stash_list_state == v.stash_list_state);
        },
        PanelFocus::LogGraph => {
            let i = v.log_list_state.index.unwrap();
            assert(retreated(advanced(Some(i), v.log.len()), v.log.len()) == Some(i));
            assert(w.log == v.log);
            assert(selected_prev(w).log_list_state == v.log_list_state);
        },
        _ => {},
    }
}

/// In normal mode, without the help overlay, `j` then `k` on a list gives
/// back the state as it was, when a row of the list is selected.
pub proof fn law_j_then_k_restores(v: AppView, ctrl: bool, shift: bool)
    requires
        v.input_mode == InputMode::Normal,
        !v.show_help,
        focused_list(v) matches Some((Some(s), len)) && s < len,
    ensures
        key_step(
            key_step(v, KeyInput { code: KeyCode::Char('j'), ctrl, shift }).0,
            KeyInput { code: KeyCode::Char('k'), ctrl, shift },
        ).0 == v,
{
    lemma_j_k_select(v, ctrl, shift);
    let w = selected_next(v);
    assert(w.input_mode == InputMode::Normal && !w.show_help);
    lemma_j_k_select(w, ctrl, shift);
    lemma_next_then_prev(v);
}

} // verus!
