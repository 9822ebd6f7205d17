//! Panels, input modes and the small enums of the application state.

use vstd::prelude::*;

verus! {

/// Which panel currently has focus.
#[derive(Debug, Clone, Copy, PartialEq, Eq, Structural)]
pub enum PanelFocus {
    Branches,
    Staged,
    Changes,
    Stash,
    CommitMessage,
    /// Alias used by the commit UI: `Commit` stands for `CommitMessage`.
    Commit,
    Remote,
    DiffViewer,
    LogGraph,
}

/// Position of a (canonical) panel in the tab order.
pub open spec fn panel_order_index(p: PanelFocus) -> nat {
    match p {
        PanelFocus::Branches => 0,
        PanelFocus::Staged => 1,
        PanelFocus::Changes => 2,
        PanelFocus::Stash => 3,
        PanelFocus::CommitMessage => 4,
        PanelFocus::Commit => 4,
        PanelFocus::Remote => 5,
        PanelFocus::DiffViewer => 6,
        PanelFocus::LogGraph => 7,
    }
}

/// The panel at a position of the tab order.
pub open spec fn panel_at_order(i: nat) -> PanelFocus {
    if i == 0 {
        PanelFocus::Branches
    } else if i == 1 {
        PanelFocus::Staged
    } else if i == 2 {
        PanelFocus::Changes
    } else if i == 3 {
        PanelFocus::Stash
    } else if i == 4 {
        PanelFocus::CommitMessage
    } else if i == 5 {
        PanelFocus::Remote
    } else if i == 6 {
        PanelFocus::DiffViewer
    } else {
        PanelFocus::LogGraph
    }
}

pub open spec fn spec_canonical_panel(p: PanelFocus) -> PanelFocus {
    match p {
        PanelFocus::Commit => PanelFocus::CommitMessage,
        other => other,
    }
}

impl PanelFocus {
    /// Number of panels in the tab order.
    pub const ORDER_LEN: usize = 8;

    /// Index of this panel in the tab order.
    pub fn index(self) -> (r: usize)
        ensures
            r == panel_order_index(self),
    {
        match self.canonical() {
            PanelFocus::Branches => 0,
            PanelFocus::Staged => 1,
            PanelFocus::Changes => 2,
            PanelFocus::Stash => 3,
            PanelFocus::CommitMessage => 4,
            PanelFocus::Commit => 4,
            PanelFocus::Remote => 5,
            PanelFocus::DiffViewer => 6,
            PanelFocus::LogGraph => 7,
        }
    }

    /// Normalize aliases.
    pub fn canonical(self) -> (r: Self)
        ensures
            r == spec_canonical_panel(self),
    {
        match self {
            PanelFocus::Commit => PanelFocus::CommitMessage,
            other => other,
        }
    }

    /// The panel at position `i` of the tab order.
    pub fn at_order(i: usize) -> (r: Self)
        requires
            i < 8,
        ensures
            r == panel_at_order(i as nat),
    {
        match i {
            0 => PanelFocus::Branches,
            1 => PanelFocus::Staged,
            2 => PanelFocus::Changes,
            3 => PanelFocus::Stash,
            4 => PanelFocus::CommitMessage,
            5 => PanelFocus::Remote,
            6 => PanelFocus::DiffViewer,
            _ => PanelFocus::LogGraph,
        }
    }

    /// Next panel in the cycle.
    pub fn next(self) -> (r: Self)
        ensures
            r == panel_at_order(((panel_order_index(self) + 1) % 8) as nat),
    {
        let idx = (self.index() + 1) % 8;
        Self::at_order(idx)
    }

    /// Previous panel in the cycle.
    pub fn prev(self) -> (r: Self)
        ensures
            r == panel_at_order(((panel_order_index(self) + 7) % 8) as nat),
    {
        let idx = (self.index() + 8 - 1) % 8;
        Self::at_order(idx)
    }
}


/// The panel that a number key (1 to 6) jumps to.
pub open spec fn panel_of_number(n: u8) -> Option<PanelFocus> {
    if n == 1 {
        Some(PanelFocus::Branches)
    } else if n == 2 {
        Some(PanelFocus::Staged)
    } else if n == 3 {
        Some(PanelFocus::Changes)
    } else if n == 4 {
        Some(PanelFocus::Stash)
    } else if n == 5 {
        Some(PanelFocus::CommitMessage)
    } else if n == 6 {
        Some(PanelFocus::LogGraph)
    } else {
        None
    }
}

impl PanelFocus {
    /// Convert a 1-based panel number to a panel (keys 1-6 map to the
    /// first six panels).
    pub fn from_number(n: u8) -> (r: Option<Self>)
        ensures
            r == panel_of_number(n),
    {
        match n {
            1 => Some(PanelFocus::Branches),
            2 => Some(PanelFocus::Staged),
            3 => Some(PanelFocus::Changes),
            4 => Some(PanelFocus::Stash),
            5 => Some(PanelFocus::CommitMessage),
            6 => Some(PanelFocus::LogGraph),
            _ => None,
        }
    }

    /// Whether this is the commit message panel (under either name).
    pub fn is_commit(self) -> (r: bool)
        ensures
            r == is_commit_panel(self),
    {
        matches!(self, PanelFocus::CommitMessage | PanelFocus::Commit)
    }
}

/// Whether a panel is the commit message panel (under either name).
pub open spec fn is_commit_panel(p: PanelFocus) -> bool {
    p == PanelFocus::CommitMessage || p == PanelFocus::Commit
}

/// The current input mode of the application.
#[derive(Debug, Clone, Copy, PartialEq, Eq, Structural)]
pub enum InputMode {
    Normal,
    EditingCommitMessage,
    /// Alias: `Editing` stands for `EditingCommitMessage`.
    Editing,
    CommandPalette,
    DialogInput,
    SearchInput,
    /// A context menu is open and takes the keys.
    ContextMenu,
}

/// Whether a mode is the commit message editor (under either name).
pub open spec fn is_editing_mode(m: InputMode) -> bool {
    m == InputMode::EditingCommitMessage || m == InputMode::Editing
}

pub open spec fn spec_canonical_mode(m: InputMode) -> InputMode {
    match m {
        InputMode::Editing => InputMode::EditingCommitMessage,
        other => other,
    }
}

impl InputMode {
    /// Normalize aliases for comparison.
    pub fn canonical(self) -> (r: Self)
        ensures
            r == spec_canonical_mode(self),
    {
        match self {
            InputMode::Editing => InputMode::EditingCommitMessage,
            other => other,
        }
    }

    /// Whether this is the commit message editor (under either name).
    pub fn is_editing(self) -> (r: bool)
        ensures
            r == is_editing_mode(self),
    {
        matches!(self, InputMode::EditingCommitMessage | InputMode::Editing)
    }
}

/// How diffs are displayed.
#[derive(Debug, Clone, Copy, PartialEq, Eq, Structural)]
pub enum DiffMode {
    Unified,
    SideBySide,
}

/// Notification severity.
#[derive(Debug, Clone, Copy, PartialEq, Eq, Structural)]
pub enum NotificationType {
    Info,
    Success,
    Error,
    Warning,
}

/// Currently running background operation (fetch / push / pull).
#[derive(Debug, Clone, Copy, PartialEq, Eq, Structural)]
pub enum AsyncOp {
    Fetching,
    Pulling,
    Pushing,
}

} // verus!
