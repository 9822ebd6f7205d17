//! Keyboard handling: what each key does in each input mode.

use vstd::prelude::*;
use vstd::utf8::decode_utf8;

use crate::app::effect::{effects_view, notify_effect, Effect, EffectView};
use crate::app::overlay::{
    palette_names, ContextMenuView, DialogActionView, DialogTypeView, DialogView, PaletteCommand,
};
use crate::app::panel::{
    is_editing_mode, panel_of_number, AsyncOp, DiffMode, InputMode, NotificationType, PanelFocus,
};
use crate::app::state::{
    amend_toggle_effects, amend_toggled, checkout_selected_effects, commit_cursor_ok,
    commit_effects, confirm_effects, dialog_confirmed, diff_mode_toggled, discard_asked, focused_on,
    help_toggled, input_view,
    left_commit_message, next_of, note, palette_closed, palette_opened, prev_of, sat_add16,
    sat_sub16, selected_first, selected_last, selected_next, selected_prev,
    stage_selected_effects, stash_pop_effects, unstage_selected_effects, with_dialog, App,
    AppView,
};
use crate::app::actions::{menu_choice, menu_closed, menu_entry, searched, searched_next, searched_prev};
use crate::input::fuzzy::{fuzzy_accepts, skim_accepts};
use crate::input::keys::{KeyCode, KeyInput};
use crate::input::text_editor::{edit_result, handle_text_input, key_touches_text, utf8_of};
use crate::git::branch::str_eq;
use crate::util::{pop_char, push_char, without_last};

verus! {

/// No effects.
pub open spec fn none() -> Seq<EffectView> {
    Seq::empty()
}

/// A diff update when the Staged or Changes panel has focus.
pub open spec fn diff_follow(v: AppView) -> Seq<EffectView> {
    if v.focus == PanelFocus::Staged || v.focus == PanelFocus::Changes {
        seq![EffectView::UpdateDiff]
    } else {
        Seq::empty()
    }
}

/// The state after a number key jumped to panel `n`.
pub open spec fn jumped(v: AppView, n: u8) -> AppView {
    match panel_of_number(n) {
        Some(p) => focused_on(v, p),
        None => v,
    }
}

/// The branch to push or pull: the checked-out one, else `main`.
pub open spec fn sync_branch(v: AppView) -> Seq<char> {
    match v.head.branch {
        Some(b) => b@,
        None => "main"@,
    }
}

/// Start a background operation unless one is running.
pub open spec fn started(v: AppView, op: AsyncOp, status: Seq<char>, e: EffectView) -> (AppView, Seq<EffectView>) {
    if v.async_op.is_none() {
        (AppView { async_op: Some(op), async_status: Some(status), ..v }, seq![e])
    } else {
        (v, none())
    }
}

/// A state change followed by a diff update for the new focus.
pub open spec fn with_diff(w: AppView) -> (AppView, Seq<EffectView>) {
    (w, diff_follow(w))
}

/// A character key in normal mode.
pub open spec fn normal_char(v: AppView, c: char, ctrl: bool, shift: bool) -> (AppView, Seq<EffectView>) {
    if c == 'q' {
        (AppView { should_quit: true, ..v }, none())
    } else if '1' <= c <= '6' {
        with_diff(jumped(v, ((c as u32) - 48) as u8))
    } else if c == 'h' {
        with_diff(focused_on(v, prev_of(v.focus)))
    } else if c == 'l' {
        with_diff(focused_on(v, next_of(v.focus)))
    } else if c == 'j' {
        with_diff(selected_next(v))
    } else if c == 'k' {
        with_diff(selected_prev(v))
    } else if c == 'g' {
        (selected_first(v), none())
    } else if c == 'G' {
        (selected_last(v), none())
    } else if c == 's' {
        if v.focus == PanelFocus::Changes {
            (v, stage_selected_effects(v).push(EffectView::UpdateDiff))
        } else {
            (v, none())
        }
    } else if c == 'u' && !ctrl {
        if v.focus == PanelFocus::Staged {
            (v, unstage_selected_effects(v).push(EffectView::UpdateDiff))
        } else {
            (v, none())
        }
    } else if c == 'S' {
        (v, seq![EffectView::StageAll, EffectView::RefreshStatus])
    } else if c == 'U' {
        (v, seq![EffectView::UnstageAll, EffectView::RefreshStatus])
    } else if c == 'c' {
        (
            AppView {
                focus: PanelFocus::CommitMessage,
                input_mode: InputMode::EditingCommitMessage,
                ..v
            },
            none(),
        )
    } else if c == 'a' {
        (amend_toggled(v), amend_toggle_effects(v))
    } else if c == 'd' && !ctrl {
        (discard_asked(v), none())
    } else if c == 'd' && ctrl {
        if v.focus == PanelFocus::DiffViewer {
            (AppView { diff_scroll: sat_add16(v.diff_scroll, 10), ..v }, none())
        } else {
            (diff_mode_toggled(v), none())
        }
    } else if c == 'u' && ctrl {
        if v.focus == PanelFocus::DiffViewer {
            (AppView { diff_scroll: sat_sub16(v.diff_scroll, 10), ..v }, none())
        } else {
            (v, none())
        }
    } else if c == 'f' {
        started(v, AsyncOp::Fetching, "Fetching..."@, EffectView::Fetch)
    } else if c == 'p' && !shift && !ctrl {
        started(v, AsyncOp::Pushing, "Pushing..."@, EffectView::Push(sync_branch(v)))
    } else if c == 'P' {
        started(v, AsyncOp::Pulling, "Pulling..."@, EffectView::Pull(sync_branch(v)))
    } else if c == 'b' {
        (AppView { focus: PanelFocus::Branches, ..v }, none())
    } else if c == 'B' {
        (
            with_dialog(
                v,
                input_view("Create Branch"@, "Enter new branch name:"@, DialogActionView::CreateBranch),
            ),
            none(),
        )
    } else if c == 'z' {
        (
            with_dialog(
                v,
                input_view(
                    "Stash Save"@,
                    "Enter stash message (optional):"@,
                    DialogActionView::StashSave,
                ),
            ),
            none(),
        )
    } else if c == 'Z' {
        (v, stash_pop_effects())
    } else if c == 'r' {
        (v, seq![EffectView::Refresh, note("Refreshed"@, NotificationType::Info)])
    } else if c == '/' {
        (AppView { input_mode: InputMode::SearchInput, ..v }, none())
    } else if c == '?' {
        (help_toggled(v), none())
    } else if c == 'p' && ctrl {
        (palette_opened(v), none())
    } else {
        (v, none())
    }
}

/// A key in normal mode; with the help overlay shown, any key only hides it.
pub open spec fn normal_key(v: AppView, k: KeyInput) -> (AppView, Seq<EffectView>) {
    if v.show_help {
        (AppView { show_help: false, ..v }, none())
    } else {
        match k.code {
            KeyCode::Char(c) => normal_char(v, c, k.ctrl, k.shift),
            KeyCode::Tab => with_diff(focused_on(v, next_of(v.focus))),
            KeyCode::BackTab => with_diff(focused_on(v, prev_of(v.focus))),
            KeyCode::Down => with_diff(selected_next(v)),
            KeyCode::Up => with_diff(selected_prev(v)),
            KeyCode::PageDown => if v.focus == PanelFocus::DiffViewer {
                (AppView { diff_scroll: sat_add16(v.diff_scroll, 20), ..v }, none())
            } else {
                (v, none())
            },
            KeyCode::PageUp => if v.focus == PanelFocus::DiffViewer {
                (AppView { diff_scroll: sat_sub16(v.diff_scroll, 20), ..v }, none())
            } else {
                (v, none())
            },
            KeyCode::Enter => if v.focus == PanelFocus::Branches {
                (v, checkout_selected_effects(v))
            } else if v.focus == PanelFocus::CommitMessage {
                (
                    AppView {
                        focus: PanelFocus::CommitMessage,
                        input_mode: InputMode::EditingCommitMessage,
                        ..v
                    },
                    none(),
                )
            } else {
                (v, none())
            },
            _ => (v, none()),
        }
    }
}

/// A key in the commit message editor.
pub open spec fn edit_key(v: AppView, k: KeyInput) -> (AppView, Seq<EffectView>) {
    match k.code {
        KeyCode::Esc => (left_commit_message(v), none()),
        KeyCode::Enter if k.ctrl => (v, commit_effects(v).push(EffectView::LeaveCommitEditor)),
        KeyCode::Tab => {
            let w = left_commit_message(v);
            (focused_on(w, next_of(w.focus)), none())
        },
        KeyCode::BackTab => {
            let w = left_commit_message(v);
            (focused_on(w, prev_of(w.focus)), none())
        },
        KeyCode::Char(c) if c == 'g' && k.ctrl => if !v.ai_generating {
            (
                AppView { ai_requested: true, ..v },
                seq![note("Generating AI commit message..."@, NotificationType::Info)],
            )
        } else {
            (v, none())
        },
        _ => {
            let (b, c) = edit_result(utf8_of(v.commit_message), v.commit_cursor as int, k);
            (AppView { commit_message: decode_utf8(b), commit_cursor: c as usize, ..v }, none())
        },
    }
}

/// Names of the palette commands that match the query, in order.
pub open spec fn palette_matches(cmds: Seq<PaletteCommand>, q: Seq<char>, n: nat) -> Seq<Seq<char>>
    decreases n,
{
    if n == 0 {
        Seq::empty()
    } else {
        let r = palette_matches(cmds, q, (n - 1) as nat);
        if skim_accepts(cmds[n - 1].name@, q) {
            r.push(cmds[n - 1].name@)
        } else {
            r
        }
    }
}

/// Names of the palette commands that the query selects: all of them for
/// an empty query, else the fuzzy matches.
pub open spec fn palette_filtered(cmds: Seq<PaletteCommand>, q: Seq<char>) -> Seq<Seq<char>> {
    if q.len() == 0 {
        cmds.map_values(|c: PaletteCommand| c.name@)
    } else {
        palette_matches(cmds, q, cmds.len())
    }
}

/// `n - 1`, or 0 for 0.
pub open spec fn pred_or_zero(n: int) -> int {
    if n > 0 { n - 1 } else { 0 }
}

/// The smaller of two numbers.
pub open spec fn min_of(a: int, b: int) -> int {
    if a <= b { a } else { b }
}

/// Running the palette command named `name` (the palette already closed).
pub open spec fn palette_run(w: AppView, name: Seq<char>) -> (AppView, Seq<EffectView>) {
    if name == "Stage File"@ {
        (w, stage_selected_effects(w))
    } else if name == "Unstage File"@ {
        (w, unstage_selected_effects(w))
    } else if name == "Commit"@ {
        (w, commit_effects(w))
    } else if name == "Amend Commit"@ {
        (amend_toggled(w), amend_toggle_effects(w))
    } else if name == "Discard Changes"@ {
        (discard_asked(w), none())
    } else if name == "Fetch"@ {
        (
            AppView { async_status: Some("Fetching..."@), ..w },
            seq![note("Fetch initiated"@, NotificationType::Info)],
        )
    } else if name == "Push"@ {
        (
            AppView { async_status: Some("Pushing..."@), ..w },
            seq![note("Push initiated"@, NotificationType::Info)],
        )
    } else if name == "Pull"@ {
        (
            AppView { async_status: Some("Pulling..."@), ..w },
            seq![note("Pull initiated"@, NotificationType::Info)],
        )
    } else if name == "Create Branch"@ {
        (
            with_dialog(
                w,
                input_view("Create Branch"@, "Enter new branch name:"@, DialogActionView::CreateBranch),
            ),
            none(),
        )
    } else if name == "Stash Save"@ {
        (
            with_dialog(
                w,
                input_view(
                    "Stash Save"@,
                    "Enter stash message (optional):"@,
                    DialogActionView::StashSave,
                ),
            ),
            none(),
        )
    } else if name == "Stash Pop"@ {
        (w, stash_pop_effects())
    } else if name == "Refresh"@ {
        (w, seq![EffectView::Refresh, note("Refreshed"@, NotificationType::Info)])
    } else if name == "Toggle Diff Mode"@ {
        (diff_mode_toggled(w), none())
    } else if name == "Help"@ {
        (help_toggled(w), none())
    } else if name == "Quit"@ {
        (AppView { should_quit: true, ..w }, none())
    } else {
        (w, none())
    }
}

/// A key in the command palette.
pub open spec fn palette_key(v: AppView, k: KeyInput) -> (AppView, Seq<EffectView>) {
    let names = palette_filtered(v.palette_commands@, v.command_palette_input);
    match k.code {
        KeyCode::Esc => (palette_closed(v), none()),
        KeyCode::Enter => {
            let idx = min_of(v.command_palette_selected as int, pred_or_zero(names.len() as int));
            let w = palette_closed(v);
            if idx < names.len() {
                palette_run(w, names[idx])
            } else {
                (w, none())
            }
        },
        KeyCode::Up => (
            AppView {
                command_palette_selected: pred_or_zero(v.command_palette_selected as int) as usize,
                ..v
            },
            none(),
        ),
        KeyCode::Down => (
            AppView {
                command_palette_selected: min_of(
                    v.command_palette_selected + 1,
                    pred_or_zero(names.len() as int),
                ) as usize,
                ..v
            },
            none(),
        ),
        KeyCode::Backspace => (
            AppView {
                command_palette_input: without_last(v.command_palette_input),
                command_palette_selected: 0,
                ..v
            },
            none(),
        ),
        KeyCode::Char(c) => (
            AppView {
                command_palette_input: v.command_palette_input.push(c),
                command_palette_selected: 0,
                ..v
            },
            none(),
        ),
        _ => (v, none()),
    }
}

/// Whether the open dialog asks for confirmation.
pub open spec fn is_confirm_dialog(v: AppView) -> bool {
    v.dialog matches Some(d) && d.dialog_type matches DialogTypeView::Confirm(_)
}

/// The state with the open dialog's text changed by `f`.
pub open spec fn dialog_input_set(v: AppView, input: Seq<char>) -> AppView {
    match v.dialog {
        Some(d) => AppView { dialog: Some(DialogView { input, ..d }), ..v },
        None => v,
    }
}

/// The text typed into the open dialog.
pub open spec fn dialog_input(v: AppView) -> Seq<char> {
    match v.dialog {
        Some(d) => d.input,
        None => Seq::empty(),
    }
}

/// The state with the open dialog's highlighted option set.
pub open spec fn dialog_selected_set(v: AppView, sel: usize) -> AppView {
    match v.dialog {
        Some(d) => AppView { dialog: Some(DialogView { selected: sel, ..d }), ..v },
        None => v,
    }
}

/// The open dialog's highlighted option.
pub open spec fn dialog_selected(v: AppView) -> usize {
    match v.dialog {
        Some(d) => d.selected,
        None => 0,
    }
}

/// The state with the dialog dismissed.
pub open spec fn dialog_cancelled(v: AppView) -> AppView {
    AppView { dialog: None, input_mode: InputMode::Normal, ..v }
}

/// A key in a dialog.
pub open spec fn dialog_key(v: AppView, k: KeyInput) -> (AppView, Seq<EffectView>) {
    match k.code {
        KeyCode::Esc => (dialog_cancelled(v), none()),
        KeyCode::Enter => (dialog_confirmed(v), confirm_effects(v)),
        KeyCode::Char(c) => if c == 'y' || c == 'Y' {
            if is_confirm_dialog(v) {
                (dialog_confirmed(v), confirm_effects(v))
            } else {
                (dialog_input_set(v, dialog_input(v).push('y')), none())
            }
        } else if c == 'n' || c == 'N' {
            if is_confirm_dialog(v) {
                (dialog_cancelled(v), none())
            } else {
                (dialog_input_set(v, dialog_input(v).push('n')), none())
            }
        } else {
            (dialog_input_set(v, dialog_input(v).push(c)), none())
        },
        KeyCode::Backspace => (dialog_input_set(v, without_last(dialog_input(v))), none()),
        KeyCode::Up => (dialog_selected_set(v, pred_or_zero(dialog_selected(v) as int) as usize), none()),
        KeyCode::Down => (
            dialog_selected_set(
                v,
                if dialog_selected(v) == usize::MAX {
                    usize::MAX
                } else {
                    (dialog_selected(v) + 1) as usize
                },
            ),
            none(),
        ),
        _ => (v, none()),
    }
}

/// A key in the search bar.
pub open spec fn search_key(v: AppView, k: KeyInput) -> (AppView, Seq<EffectView>) {
    match k.code {
        KeyCode::Esc => (
            AppView {
                search_query: Seq::empty(),
                search_results: Seq::empty(),
                input_mode: InputMode::Normal,
                ..v
            },
            none(),
        ),
        KeyCode::Enter => (AppView { input_mode: InputMode::Normal, ..v }, none()),
        KeyCode::Char(c) if c == 'n' && k.ctrl => (searched_next(v), none()),
        KeyCode::Char(c) if c == 'p' && k.ctrl => (searched_prev(v), none()),
        KeyCode::Backspace => (
            searched(AppView { search_query: without_last(v.search_query), ..v }),
            none(),
        ),
        KeyCode::Char(c) => (searched(AppView { search_query: v.search_query.push(c), ..v }), none()),
        _ => (v, none()),
    }
}

/// The state with the open context menu's highlighted entry set.
pub open spec fn menu_selected_set(v: AppView, sel: usize) -> AppView {
    match v.context_menu {
        Some(m) => AppView { context_menu: Some(ContextMenuView { selected: sel, ..m }), ..v },
        None => v,
    }
}

/// A key in an open context menu.
pub open spec fn menu_key(v: AppView, k: KeyInput) -> (AppView, Seq<EffectView>) {
    match k.code {
        KeyCode::Esc => (menu_closed(v), none()),
        KeyCode::Enter => match menu_choice(v) {
            Some(l) => menu_entry(menu_closed(v), l),
            None => (menu_closed(v), none()),
        },
        KeyCode::Up => match v.context_menu {
            Some(m) => (menu_selected_set(v, pred_or_zero(m.selected as int) as usize), none()),
            None => (v, none()),
        },
        KeyCode::Char(c) if c == 'k' => match v.context_menu {
            Some(m) => (menu_selected_set(v, pred_or_zero(m.selected as int) as usize), none()),
            None => (v, none()),
        },
        KeyCode::Down => match v.context_menu {
            Some(m) => (
                menu_selected_set(
                    v,
                    min_of(m.selected + 1, pred_or_zero(m.items.len() as int)) as usize,
                ),
                none(),
            ),
            None => (v, none()),
        },
        KeyCode::Char(c) if c == 'j' => match v.context_menu {
            Some(m) => (
                menu_selected_set(
                    v,
                    min_of(m.selected + 1, pred_or_zero(m.items.len() as int)) as usize,
                ),
                none(),
            ),
            None => (v, none()),
        },
        _ => (v, none()),
    }
}

/// A key press: Ctrl+C always quits; otherwise the input mode decides.
pub open spec fn key_step(v: AppView, k: KeyInput) -> (AppView, Seq<EffectView>) {
    if k.ctrl && k.code == KeyCode::Char('c') {
        (AppView { should_quit: true, ..v }, none())
    } else {
        match v.input_mode {
            InputMode::Normal => normal_key(v, k),
            InputMode::Editing => edit_key(v, k),
            InputMode::EditingCommitMessage => edit_key(v, k),
            InputMode::CommandPalette => palette_key(v, k),
            InputMode::DialogInput => dialog_key(v, k),
            InputMode::SearchInput => search_key(v, k),
            InputMode::ContextMenu => menu_key(v, k),
        }
    }
}


/// Push an effect list's view by one effect.
proof fn lemma_effects_push(r: Seq<Effect>, e: Effect)
    ensures
        effects_view(r.push(e)) == effects_view(r).push(e@),
{
    assert(effects_view(r.push(e)) =~= effects_view(r).push(e@));
}

fn with_diff_update(app: &App, mut r: Vec<Effect>) -> (out: Vec<Effect>)
    ensures
        effects_view(out@) == effects_view(r@) + diff_follow(app@),
{
    if app.focus == PanelFocus::Staged || app.focus == PanelFocus::Changes {
        let ghost r0 = r@;
        r.push(Effect::UpdateDiff);
        proof {
            lemma_effects_push(r0, Effect::UpdateDiff);
        }
        assert(effects_view(r@) =~= effects_view(r0) + diff_follow(app@));
    } else {
        assert(effects_view(r@) =~= effects_view(r@) + diff_follow(app@));
    }
    r
}

fn no_effects() -> (r: Vec<Effect>)
    ensures
        effects_view(r@) == none(),
{
    let r: Vec<Effect> = Vec::new();
    assert(effects_view(r@) =~= none());
    r
}

fn start_op(app: &mut App, op: AsyncOp, status: &str, e: Effect) -> (r: Vec<Effect>)
    ensures
        (final(app)@, effects_view(r@)) == started(old(app)@, op, status@, e@),
{
    if app.async_op.is_none() {
        app.async_op = Some(op);
        app.async_status = Some(status.to_owned());
        let r = vec![e];
        assert(effects_view(r@) =~= seq![e@]);
        r
    } else {
        no_effects()
    }
}

/// The branch to push or pull: the checked-out one, else `main`.
fn sync_branch_name(app: &App) -> (r: String)
    ensures
        r@ == sync_branch(app@),
{
    match &app.head.branch {
        Some(b) => b.clone(),
        None => "main".to_owned(),
    }
}

fn handle_normal_char(app: &mut App, c: char, ctrl: bool, shift: bool) -> (r: Vec<Effect>)
    ensures
        (final(app)@, effects_view(r@)) == normal_char(old(app)@, c, ctrl, shift),
{
    if c == 'q' {
        app.should_quit = true;
        no_effects()
    } else if '1' <= c && c <= '6' {
        let n = ((c as u32) - 48) as u8;
        app.jump_to_panel(n);
        with_diff_update(app, no_effects())
    } else if c == 'h' {
        app.prev_panel();
        with_diff_update(app, no_effects())
    } else if c == 'l' {
        app.next_panel();
        with_diff_update(app, no_effects())
    } else if c == 'j' {
        app.select_next();
        with_diff_update(app, no_effects())
    } else if c == 'k' {
        app.select_prev();
        with_diff_update(app, no_effects())
    } else if c == 'g' {
        app.select_first();
        no_effects()
    } else if c == 'G' {
        app.select_last();
        no_effects()
    } else {
        handle_normal_char_ops(app, c, ctrl, shift)
    }
}

fn handle_normal_char_ops(app: &mut App, c: char, ctrl: bool, shift: bool) -> (r: Vec<Effect>)
    requires
        c != 'q',
        !('1' <= c <= '6'),
        c != 'h' && c != 'l' && c != 'j' && c != 'k' && c != 'g' && c != 'G',
    ensures
        (final(app)@, effects_view(r@)) == normal_char(old(app)@, c, ctrl, shift),
{
    if c == 's' {
        if app.focus == PanelFocus::Changes {
            let mut r = app.stage_selected();
            let ghost r0 = r@;
            r.push(Effect::UpdateDiff);
            proof {
                lemma_effects_push(r0, Effect::UpdateDiff);
            }
            r
        } else {
            no_effects()
        }
    } else if c == 'u' && !ctrl {
        if app.focus == PanelFocus::Staged {
            let mut r = app.unstage_selected();
            let ghost r0 = r@;
            r.push(Effect::UpdateDiff);
            proof {
                lemma_effects_push(r0, Effect::UpdateDiff);
            }
            r
        } else {
            no_effects()
        }
    } else if c == 'S' {
        app.stage_all()
    } else if c == 'U' {
        app.unstage_all()
    } else if c == 'c' {
        app.focus_commit_message();
        no_effects()
    } else if c == 'a' {
        app.toggle_amend()
    } else if c == 'd' && !ctrl {
        app.discard_selected();
        no_effects()
    } else if c == 'd' && ctrl {
        if app.focus == PanelFocus::DiffViewer {
            app.diff_scroll = app.diff_scroll.saturating_add(10);
        } else {
            app.toggle_diff_mode();
        }
        no_effects()
    } else if c == 'u' && ctrl {
        if app.focus == PanelFocus::DiffViewer {
            app.diff_scroll = app.diff_scroll.saturating_sub(10);
        }
        no_effects()
    } else {
        handle_normal_char_more(app, c, ctrl, shift)
    }
}

fn handle_normal_char_more(app: &mut App, c: char, ctrl: bool, shift: bool) -> (r: Vec<Effect>)
    requires
        c != 'q',
        !('1' <= c <= '6'),
        c != 'h' && c != 'l' && c != 'j' && c != 'k' && c != 'g' && c != 'G',
        c != 's' && c != 'u' && c != 'S' && c != 'U' && c != 'c' && c != 'a' && c != 'd',
    ensures
        (final(app)@, effects_view(r@)) == normal_char(old(app)@, c, ctrl, shift),
{
    if c == 'f' {
        start_op(app, AsyncOp::Fetching, "Fetching...", Effect::Fetch)
    } else if c == 'p' && !shift && !ctrl {
        let b = sync_branch_name(app);
        start_op(app, AsyncOp::Pushing, "Pushing...", Effect::Push(b))
    } else if c == 'P' {
        let b = sync_branch_name(app);
        start_op(app, AsyncOp::Pulling, "Pulling...", Effect::Pull(b))
    } else if c == 'b' {
        app.focus = PanelFocus::Branches;
        no_effects()
    } else if c == 'B' {
        app.create_branch();
        no_effects()
    } else if c == 'z' {
        app.stash_save();
        no_effects()
    } else if c == 'Z' {
        app.stash_pop()
    } else if c == 'r' {
        let r = vec![Effect::Refresh, notify_effect("Refreshed", NotificationType::Info)];
        assert(effects_view(r@) =~= seq![EffectView::Refresh, note("Refreshed"@, NotificationType::Info)]);
        r
    } else if c == '/' {
        app.input_mode = InputMode::SearchInput;
        no_effects()
    } else if c == '?' {
        app.toggle_help();
        no_effects()
    } else if c == 'p' && ctrl {
        app.open_command_palette();
        no_effects()
    } else {
        no_effects()
    }
}

fn handle_normal_mode(app: &mut App, key: KeyInput) -> (r: Vec<Effect>)
    ensures
        (final(app)@, effects_view(r@)) == normal_key(old(app)@, key),
{
    if app.show_help {
        app.show_help = false;
        return no_effects();
    }
    match key.code {
        KeyCode::Char(c) => handle_normal_char(app, c, key.ctrl, key.shift),
        KeyCode::Tab => {
            app.next_panel();
            with_diff_update(app, no_effects())
        },
        KeyCode::BackTab => {
            app.prev_panel();
            with_diff_update(app, no_effects())
        },
        KeyCode::Down => {
            app.select_next();
            with_diff_update(app, no_effects())
        },
        KeyCode::Up => {
            app.select_prev();
            with_diff_update(app, no_effects())
        },
        KeyCode::PageDown => {
            if app.focus == PanelFocus::DiffViewer {
                app.diff_scroll = app.diff_scroll.saturating_add(20);
            }
            no_effects()
        },
        KeyCode::PageUp => {
            if app.focus == PanelFocus::DiffViewer {
                app.diff_scroll = app.diff_scroll.saturating_sub(20);
            }
            no_effects()
        },
        KeyCode::Enter => {
            if app.focus == PanelFocus::Branches {
                app.checkout_selected_branch()
            } else if app.focus == PanelFocus::CommitMessage {
                app.focus_commit_message();
                no_effects()
            } else {
                no_effects()
            }
        },
        _ => no_effects(),
    }
}

fn handle_commit_edit_mode(app: &mut App, key: KeyInput) -> (r: Vec<Effect>)
    requires
        edit_needs_boundary(key) ==> commit_cursor_ok(old(app)@),
    ensures
        (final(app)@, effects_view(r@)) == edit_key(old(app)@, key),
{
    match key.code {
        KeyCode::Esc => {
            app.leave_commit_message();
            no_effects()
        },
        KeyCode::Enter if key.ctrl => {
            let mut r = app.do_commit();
            let ghost r0 = r@;
            r.push(Effect::LeaveCommitEditor);
            proof {
                lemma_effects_push(r0, Effect::LeaveCommitEditor);
            }
            r
        },
        KeyCode::Tab => {
            app.leave_commit_message();
            app.next_panel();
            no_effects()
        },
        KeyCode::BackTab => {
            app.leave_commit_message();
            app.prev_panel();
            no_effects()
        },
        KeyCode::Char(c) if c == 'g' && key.ctrl => {
            if !app.ai_generating {
                app.ai_requested = true;
                let r = vec![
                    notify_effect("Generating AI commit message...", NotificationType::Info),
                ];
                assert(effects_view(r@) =~= seq![
                    note("Generating AI commit message..."@, NotificationType::Info),
                ]);
                r
            } else {
                no_effects()
            }
        },
        _ => {
            proof {
                vstd::utf8::encode_utf8_decode_utf8(app.commit_message@);
            }
            handle_text_input(&mut app.commit_message, &mut app.commit_cursor, key);
            proof {
                vstd::utf8::encode_utf8_decode_utf8(app.commit_message@);
            }
            no_effects()
        },
    }
}


/// Names of the palette commands that the query selects (see
/// [`palette_filtered`]).
pub fn filtered_palette_names(cmds: &Vec<PaletteCommand>, query: &str) -> (r: Vec<String>)
    ensures
        r@.map_values(|s: String| s@) == palette_filtered(cmds@, query@),
{
    let mut r: Vec<String> = Vec::new();
    let mut i: usize = 0;
    if query.is_empty() {
        while i < cmds.len()
            invariant
                i <= cmds@.len(),
                query@.len() == 0,
                r@.map_values(|s: String| s@) =~= cmds@.subrange(0, i as int).map_values(
                    |c: PaletteCommand| c.name@,
                ),
            decreases cmds@.len() - i,
        {
            let ghost r0 = r@;
            r.push(cmds[i].name.clone());
            assert(r@.map_values(|s: String| s@) =~= r0.map_values(|s: String| s@).push(cmds@[i as int].name@));
            assert(cmds@.subrange(0, i + 1).map_values(|c: PaletteCommand| c.name@) =~= cmds@.subrange(0, i as int).map_values(|c: PaletteCommand| c.name@).push(cmds@[i as int].name@));
            i = i + 1;
        }
        assert(cmds@.subrange(0, cmds@.len() as int) =~= cmds@);
    } else {
        while i < cmds.len()
            invariant
                i <= cmds@.len(),
                query@.len() > 0,
                r@.map_values(|s: String| s@) =~= palette_matches(cmds@, query@, i as nat),
            decreases cmds@.len() - i,
        {
            if fuzzy_accepts(cmds[i].name.as_str(), query) {
                r.push(cmds[i].name.clone());
            }
            i = i + 1;
        }
    }
    r
}

fn set_async_status(app: &mut App, status: &str, msg: &str) -> (r: Vec<Effect>)
    ensures
        final(app)@ == (AppView { async_status: Some(status@), ..old(app)@ }),
        effects_view(r@) == seq![note(msg@, NotificationType::Info)],
{
    app.async_status = Some(status.to_owned());
    let r = vec![notify_effect(msg, NotificationType::Info)];
    assert(effects_view(r@) =~= seq![note(msg@, NotificationType::Info)]);
    r
}

/// Run the palette command named `name`.
pub fn execute_palette_command(app: &mut App, name: &str) -> (r: Vec<Effect>)
    ensures
        (final(app)@, effects_view(r@)) == palette_run(old(app)@, name@),
{
    if str_eq(name, "Stage File") {
        app.stage_selected()
    } else if str_eq(name, "Unstage File") {
        app.unstage_selected()
    } else if str_eq(name, "Commit") {
        app.do_commit()
    } else if str_eq(name, "Amend Commit") {
        app.toggle_amend()
    } else if str_eq(name, "Discard Changes") {
        app.discard_selected();
        no_effects()
    } else if str_eq(name, "Fetch") {
        set_async_status(app, "Fetching...", "Fetch initiated")
    } else if str_eq(name, "Push") {
        set_async_status(app, "Pushing...", "Push initiated")
    } else if str_eq(name, "Pull") {
        set_async_status(app, "Pulling...", "Pull initiated")
    } else {
        execute_palette_command_more(app, name)
    }
}

fn execute_palette_command_more(app: &mut App, name: &str) -> (r: Vec<Effect>)
    requires
        name@ != "Stage File"@ && name@ != "Unstage File"@ && name@ != "Commit"@ && name@
            != "Amend Commit"@ && name@ != "Discard Changes"@ && name@ != "Fetch"@ && name@
            != "Push"@ && name@ != "Pull"@,
    ensures
        (final(app)@, effects_view(r@)) == palette_run(old(app)@, name@),
{
    if str_eq(name, "Create Branch") {
        app.create_branch();
        no_effects()
    } else if str_eq(name, "Stash Save") {
        app.stash_save();
        no_effects()
    } else if str_eq(name, "Stash Pop") {
        app.stash_pop()
    } else if str_eq(name, "Refresh") {
        let r = vec![Effect::Refresh, notify_effect("Refreshed", NotificationType::Info)];
        assert(effects_view(r@) =~= seq![EffectView::Refresh, note("Refreshed"@, NotificationType::Info)]);
        r
    } else if str_eq(name, "Toggle Diff Mode") {
        app.toggle_diff_mode();
        no_effects()
    } else if str_eq(name, "Help") {
        app.toggle_help();
        no_effects()
    } else if str_eq(name, "Quit") {
        app.should_quit = true;
        no_effects()
    } else {
        no_effects()
    }
}

fn handle_command_palette_mode(app: &mut App, key: KeyInput) -> (r: Vec<Effect>)
    ensures
        (final(app)@, effects_view(r@)) == palette_key(old(app)@, key),
{
    match key.code {
        KeyCode::Esc => {
            app.close_command_palette();
            no_effects()
        },
        KeyCode::Enter => {
            let names = filtered_palette_names(&app.palette_commands, app.command_palette_input.as_str());
            let ghost ns = names@.map_values(|s: String| s@);
            let last = names.len().saturating_sub(1);
            let idx = if app.command_palette_selected < last { app.command_palette_selected } else { last };
            app.close_command_palette();
            if idx < names.len() {
                assert(names@[idx as int]@ == ns[idx as int]);
                execute_palette_command(app, names[idx].as_str())
            } else {
                no_effects()
            }
        },
        KeyCode::Up => {
            app.command_palette_selected = app.command_palette_selected.saturating_sub(1);
            no_effects()
        },
        KeyCode::Down => {
            let names = filtered_palette_names(&app.palette_commands, app.command_palette_input.as_str());
            let last = names.len().saturating_sub(1);
            assert(names@.len() == names@.map_values(|s: String| s@).len());
            app.command_palette_selected = if app.command_palette_selected < last {
                app.command_palette_selected + 1
            } else {
                last
            };
            no_effects()
        },
        KeyCode::Backspace => {
            pop_char(&mut app.command_palette_input);
            app.command_palette_selected = 0;
            no_effects()
        },
        KeyCode::Char(c) => {
            push_char(&mut app.command_palette_input, c);
            app.command_palette_selected = 0;
            no_effects()
        },
        _ => no_effects(),
    }
}

fn dialog_push(app: &mut App, c: char)
    ensures
        final(app)@ == dialog_input_set(old(app)@, dialog_input(old(app)@).push(c)),
{
    match &mut app.dialog {
        Some(d) => push_char(&mut d.input, c),
        None => {},
    }
}

fn dialog_is_confirm(app: &App) -> (r: bool)
    ensures
        r == is_confirm_dialog(app@),
{
    match &app.dialog {
        Some(d) => match &d.dialog_type {
            crate::app::overlay::DialogType::Confirm { .. } => true,
            _ => false,
        },
        None => false,
    }
}

fn handle_dialog_mode(app: &mut App, key: KeyInput) -> (r: Vec<Effect>)
    ensures
        (final(app)@, effects_view(r@)) == dialog_key(old(app)@, key),
{
    match key.code {
        KeyCode::Esc => {
            app.cancel_dialog();
            no_effects()
        },
        KeyCode::Enter => app.confirm_dialog(),
        KeyCode::Char(c) => {
            if c == 'y' || c == 'Y' {
                if dialog_is_confirm(app) {
                    return app.confirm_dialog();
                }
                dialog_push(app, 'y');
            } else if c == 'n' || c == 'N' {
                if dialog_is_confirm(app) {
                    app.cancel_dialog();
                    return no_effects();
                }
                dialog_push(app, 'n');
            } else {
                dialog_push(app, c);
            }
            no_effects()
        },
        KeyCode::Backspace => {
            match &mut app.dialog {
                Some(d) => pop_char(&mut d.input),
                None => {},
            }
            no_effects()
        },
        KeyCode::Up => {
            match &mut app.dialog {
                Some(d) => {
                    d.selected = d.selected.saturating_sub(1);
                },
                None => {},
            }
            no_effects()
        },
        KeyCode::Down => {
            match &mut app.dialog {
                Some(d) => {
                    d.selected = d.selected.saturating_add(1);
                },
                None => {},
            }
            no_effects()
        },
        _ => no_effects(),
    }
}

fn handle_search_mode(app: &mut App, key: KeyInput) -> (r: Vec<Effect>)
    ensures
        (final(app)@, effects_view(r@)) == search_key(old(app)@, key),
{
    match key.code {
        KeyCode::Esc => {
            app.search_query = String::new();
            app.search_results = Vec::new();
            app.input_mode = InputMode::Normal;
        },
        KeyCode::Enter => {
            app.input_mode = InputMode::Normal;
        },
        KeyCode::Char(c) if c == 'n' && key.ctrl => {
            app.search_next();
        },
        KeyCode::Char(c) if c == 'p' && key.ctrl => {
            app.search_prev();
        },
        KeyCode::Backspace => {
            pop_char(&mut app.search_query);
            app.perform_search();
        },
        KeyCode::Char(c) => {
            push_char(&mut app.search_query, c);
            app.perform_search();
        },
        _ => {},
    }
    no_effects()
}

fn menu_up(app: &mut App)
    ensures
        final(app)@ == match old(app)@.context_menu {
            Some(m) => menu_selected_set(old(app)@, pred_or_zero(m.selected as int) as usize),
            None => old(app)@,
        },
{
    match &mut app.context_menu {
        Some(m) => {
            m.selected = m.selected.saturating_sub(1);
        },
        None => {},
    }
}

fn menu_down(app: &mut App)
    ensures
        final(app)@ == match old(app)@.context_menu {
            Some(m) => menu_selected_set(
                old(app)@,
                min_of(m.selected + 1, pred_or_zero(m.items.len() as int)) as usize,
            ),
            None => old(app)@,
        },
{
    match &mut app.context_menu {
        Some(m) => {
            let max = m.items.len().saturating_sub(1);
            m.selected = if m.selected < max { m.selected + 1 } else { max };
        },
        None => {},
    }
}

fn handle_context_menu_mode(app: &mut App, key: KeyInput) -> (r: Vec<Effect>)
    ensures
        (final(app)@, effects_view(r@)) == menu_key(old(app)@, key),
{
    match key.code {
        KeyCode::Esc => {
            app.context_menu = None;
            app.input_mode = InputMode::Normal;
            assert(app@ == menu_closed(old(app)@));
            no_effects()
        },
        KeyCode::Enter => {
            let r = app.execute_context_menu_action();
            assert((app@, effects_view(r@)) == menu_key(old(app)@, key));
            r
        },
        KeyCode::Up => {
            menu_up(app);
            assert(app@ == menu_key(old(app)@, key).0);
            no_effects()
        },
        KeyCode::Down => {
            menu_down(app);
            assert(app@ == menu_key(old(app)@, key).0);
            no_effects()
        },
        KeyCode::Char(c) => {
            if c == 'k' {
                menu_up(app);
                assert(app@ == menu_key(old(app)@, key).0);
            } else if c == 'j' {
                menu_down(app);
                assert(app@ == menu_key(old(app)@, key).0);
            }
            no_effects()
        },
        _ => no_effects(),
    }
}

/// Whether a key in the commit message editor goes to the text editor and
/// reads or edits the text at the cursor there (the keys the editor itself
/// handles, such as Esc, Tab or Ctrl+Enter, do not).
pub open spec fn edit_needs_boundary(k: KeyInput) -> bool {
    match k.code {
        KeyCode::Esc | KeyCode::Tab | KeyCode::BackTab => false,
        KeyCode::Enter if k.ctrl => false,
        KeyCode::Char(c) if c == 'g' && k.ctrl => false,
        _ => key_touches_text(k),
    }
}

/// Whether key `k` can be handled in state `v`: a key that reads or edits
/// the commit message at the cursor needs the cursor on a character
/// boundary of the message (the text operations would fail otherwise);
/// every other key can be handled in every state.
pub open spec fn key_admissible(v: AppView, k: KeyInput) -> bool {
    ((v.input_mode == InputMode::Editing || v.input_mode == InputMode::EditingCommitMessage) && !(k.ctrl
        && k.code == KeyCode::Char('c')) && edit_needs_boundary(k)) ==> commit_cursor_ok(v)
}

/// Whether `app` can handle `key` (see [`key_admissible`]).
pub fn key_is_admissible(app: &App, key: KeyInput) -> (r: bool)
    ensures
        r == key_admissible(app@, key),
{
    let editing = match app.input_mode {
        InputMode::Editing | InputMode::EditingCommitMessage => true,
        _ => false,
    };
    if !editing || (key.ctrl && key.code == KeyCode::Char('c')) {
        return true;
    }
    let needs = match key.code {
        KeyCode::Esc | KeyCode::Tab | KeyCode::BackTab => false,
        KeyCode::Enter => !key.ctrl,
        KeyCode::Char(c) => !(c == 'g' && key.ctrl),
        KeyCode::Backspace | KeyCode::Delete | KeyCode::Home | KeyCode::End | KeyCode::Up
        | KeyCode::Down => true,
        _ => false,
    };
    !needs || app.commit_cursor_valid()
}

/// Top-level keyboard dispatcher: Ctrl+C always quits; otherwise the key
/// goes to the handler of the current input mode. Returns the effects that
/// the host is to carry out, in order.
pub fn handle_key_event(app: &mut App, key: KeyInput) -> (r: Vec<Effect>)
    requires
        key_admissible(old(app)@, key),
    ensures
        (final(app)@, effects_view(r@)) == key_step(old(app)@, key),
{
    if key.ctrl && key.code == KeyCode::Char('c') {
        app.should_quit = true;
        return no_effects();
    }
    match app.input_mode {
        InputMode::Normal => handle_normal_mode(app, key),
        InputMode::Editing => handle_commit_edit_mode(app, key),
        InputMode::EditingCommitMessage => handle_commit_edit_mode(app, key),
        InputMode::CommandPalette => handle_command_palette_mode(app, key),
        InputMode::DialogInput => handle_dialog_mode(app, key),
        InputMode::SearchInput => handle_search_mode(app, key),
        InputMode::ContextMenu => handle_context_menu_mode(app, key),
    }
}

} // verus!
