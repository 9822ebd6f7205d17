//! The command palette, context menus, dialogs and notifications.

use std::time::Instant;
use vstd::prelude::*;

use crate::app::panel::NotificationType;

verus! {

/// A single entry in the command palette.
#[derive(Debug, Clone)]
pub struct PaletteCommand {
    pub name: String,
    pub shortcut: String,
}

impl PaletteCommand {
    /// A palette entry with the given name and shortcut label.
    pub fn new(name: &str, shortcut: &str) -> (r: Self)
        ensures
            r.name@ == name@,
            r.shortcut@ == shortcut@,
    {
        PaletteCommand { name: name.to_owned(), shortcut: shortcut.to_owned() }
    }
}

/// Names of the default palette commands, in order.
pub open spec fn palette_names() -> Seq<Seq<char>> {
    seq![
        "Stage File"@,
        "Unstage File"@,
        "Commit"@,
        "Amend Commit"@,
        "Discard Changes"@,
        "Fetch"@,
        "Push"@,
        "Pull"@,
        "Create Branch"@,
        "Stash Save"@,
        "Stash Pop"@,
        "Refresh"@,
        "Toggle Diff Mode"@,
        "Help"@,
        "Quit"@,
    ]
}

/// Shortcut labels of the default palette commands, in order.
pub open spec fn palette_shortcuts() -> Seq<Seq<char>> {
    seq![
        "s"@,
        "u"@,
        "Ctrl+Enter"@,
        "a"@,
        "d"@,
        "f"@,
        "p"@,
        "P"@,
        "B"@,
        "z"@,
        "Z"@,
        "r"@,
        "Ctrl+D"@,
        "?"@,
        "q"@,
    ]
}

/// Build the default palette command list.
pub fn default_palette_commands() -> (r: Vec<PaletteCommand>)
    ensures
        r@.len() == 15,
        forall|i: int|
            0 <= i < 15 ==> (#[trigger] r@[i]).name@ == palette_names()[i] && r@[i].shortcut@
                == palette_shortcuts()[i],
{
    let v = vec![
        PaletteCommand::new("Stage File", "s"),
        PaletteCommand::new("Unstage File", "u"),
        PaletteCommand::new("Commit", "Ctrl+Enter"),
        PaletteCommand::new("Amend Commit", "a"),
        PaletteCommand::new("Discard Changes", "d"),
        PaletteCommand::new("Fetch", "f"),
        PaletteCommand::new("Push", "p"),
        PaletteCommand::new("Pull", "P"),
        PaletteCommand::new("Create Branch", "B"),
        PaletteCommand::new("Stash Save", "z"),
        PaletteCommand::new("Stash Pop", "Z"),
        PaletteCommand::new("Refresh", "r"),
        PaletteCommand::new("Toggle Diff Mode", "Ctrl+D"),
        PaletteCommand::new("Help", "?"),
        PaletteCommand::new("Quit", "q"),
    ];
    v
}

/// An item in a context menu.
#[derive(Debug, Clone)]
pub struct ContextMenuItem {
    pub label: String,
    pub shortcut: String,
}

/// A floating context menu.
#[derive(Debug, Clone)]
pub struct ContextMenu {
    pub title: String,
    pub items: Vec<ContextMenuItem>,
    pub selected: usize,
    pub x: u16,
    pub y: u16,
}

/// A context menu as plain values: its items as (label, shortcut) pairs.
pub struct ContextMenuView {
    pub title: Seq<char>,
    pub items: Seq<(Seq<char>, Seq<char>)>,
    pub selected: usize,
    pub x: u16,
    pub y: u16,
}

impl View for ContextMenuItem {
    type V = (Seq<char>, Seq<char>);

    open spec fn view(&self) -> (Seq<char>, Seq<char>) {
        (self.label@, self.shortcut@)
    }
}

impl View for ContextMenu {
    type V = ContextMenuView;

    open spec fn view(&self) -> ContextMenuView {
        ContextMenuView {
            title: self.title@,
            items: self.items@.map_values(|i: ContextMenuItem| i@),
            selected: self.selected,
            x: self.x,
            y: self.y,
        }
    }
}

/// A notification message displayed in the status bar.
#[derive(Debug)]
pub struct Notification {
    pub message: String,
    pub is_error: bool,
    pub when: Instant,
}

/// What a confirmed dialog does.
#[derive(Debug, Clone)]
pub enum DialogAction {
    DeleteBranch(String),
    DiscardChanges(String),
    ForcePush,
    CreateBranch,
    RenameBranch(String),
    StashSave,
    StashDrop(usize),
    CheckoutBranch(String),
}

/// A dialog action as plain values.
pub enum DialogActionView {
    DeleteBranch(Seq<char>),
    DiscardChanges(Seq<char>),
    ForcePush,
    CreateBranch,
    RenameBranch(Seq<char>),
    StashSave,
    StashDrop(usize),
    CheckoutBranch(Seq<char>),
}

impl View for DialogAction {
    type V = DialogActionView;

    open spec fn view(&self) -> DialogActionView {
        match self {
            DialogAction::DeleteBranch(s) => DialogActionView::DeleteBranch(s@),
            DialogAction::DiscardChanges(s) => DialogActionView::DiscardChanges(s@),
            DialogAction::ForcePush => DialogActionView::ForcePush,
            DialogAction::CreateBranch => DialogActionView::CreateBranch,
            DialogAction::RenameBranch(s) => DialogActionView::RenameBranch(s@),
            DialogAction::StashSave => DialogActionView::StashSave,
            DialogAction::StashDrop(i) => DialogActionView::StashDrop(*i),
            DialogAction::CheckoutBranch(s) => DialogActionView::CheckoutBranch(s@),
        }
    }
}

/// The kind of a dialog and the action it carries.
#[derive(Debug)]
pub enum DialogType {
    Confirm { on_confirm: DialogAction },
    Input { on_submit: DialogAction },
    Select { options: Vec<String>, on_select: DialogAction },
}

/// A dialog kind as plain values.
pub enum DialogTypeView {
    Confirm(DialogActionView),
    Input(DialogActionView),
    Select(Seq<Seq<char>>, DialogActionView),
}

impl View for DialogType {
    type V = DialogTypeView;

    open spec fn view(&self) -> DialogTypeView {
        match self {
            DialogType::Confirm { on_confirm } => DialogTypeView::Confirm(on_confirm@),
            DialogType::Input { on_submit } => DialogTypeView::Input(on_submit@),
            DialogType::Select { options, on_select } => DialogTypeView::Select(
                options@.map_values(|o: String| o@),
                on_select@,
            ),
        }
    }
}

/// A modal dialog shown on top of the normal UI.
#[derive(Debug)]
pub struct Dialog {
    pub title: String,
    pub message: String,
    pub dialog_type: DialogType,
    pub input: String,
    pub selected: usize,
}

/// A dialog as plain values.
pub struct DialogView {
    pub title: Seq<char>,
    pub message: Seq<char>,
    pub dialog_type: DialogTypeView,
    pub input: Seq<char>,
    pub selected: usize,
}

impl View for Dialog {
    type V = DialogView;

    open spec fn view(&self) -> DialogView {
        DialogView {
            title: self.title@,
            message: self.message@,
            dialog_type: self.dialog_type@,
            input: self.input@,
            selected: self.selected,
        }
    }
}

/// An optional value, seen through its view.
pub open spec fn opt_view<T: View>(o: Option<T>) -> Option<T::V> {
    match o {
        Some(x) => Some(x@),
        None => None,
    }
}

/// A dialog that asks for confirmation of `action`.
pub fn confirm_dialog_of(title: &str, message: String, action: DialogAction) -> (r: Dialog)
    ensures
        r.title@ == title@,
        r.message == message,
        r.dialog_type@ == DialogTypeView::Confirm(action@),
        r.input@ == Seq::<char>::empty(),
        r.selected == 0,
{
    Dialog {
        title: title.to_owned(),
        message,
        dialog_type: DialogType::Confirm { on_confirm: action },
        input: String::new(),
        selected: 0,
    }
}

/// A dialog that asks for a line of text and then runs `action`.
pub fn input_dialog_of(title: &str, message: &str, action: DialogAction) -> (r: Dialog)
    ensures
        r.title@ == title@,
        r.message@ == message@,
        r.dialog_type@ == DialogTypeView::Input(action@),
        r.input@ == Seq::<char>::empty(),
        r.selected == 0,
{
    Dialog {
        title: title.to_owned(),
        message: message.to_owned(),
        dialog_type: DialogType::Input { on_submit: action },
        input: String::new(),
        selected: 0,
    }
}

} // verus!
