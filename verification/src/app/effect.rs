//! Work that the state machine asks its host to carry out.

use vstd::prelude::*;

use crate::app::panel::NotificationType;

verus! {

/// A piece of work on the repository or the screen that a state change asks
/// for. The host performs the effects of one step in order and stops at the
/// first repository operation that fails, reporting its error.
#[derive(Debug)]
pub enum Effect {
    /// Stage the file at the path.
    StageFile(String),
    /// Unstage the file at the path.
    UnstageFile(String),
    /// Stage every change.
    StageAll,
    /// Unstage every staged file.
    UnstageAll,
    /// Discard the working-tree changes of the file at the path.
    DiscardChanges(String),
    /// Create a commit with the message.
    Commit(String),
    /// Amend the HEAD commit with the message.
    Amend(String),
    /// Report a successful commit back to the state (`App::finish_commit`).
    FinishCommit,
    /// Leave the commit message editor (`App::leave_commit_message`).
    LeaveCommitEditor,
    /// Save the working changes as a stash, with an optional message.
    StashSave(Option<String>),
    /// Pop the most recent stash.
    StashPop,
    /// Apply the stash at the index without dropping it.
    StashApply(usize),
    /// Drop the stash at the index.
    StashDrop(usize),
    /// Create a branch with the name at HEAD.
    CreateBranch(String),
    /// Delete the branch with the name.
    DeleteBranch(String),
    /// Rename a branch (old name, new name).
    RenameBranch(String, String),
    /// Check out the branch with the name.
    CheckoutBranch(String),
    /// Reload all repository state.
    Refresh,
    /// Reload the file status.
    RefreshStatus,
    /// Reload the branches.
    RefreshBranches,
    /// Reload the stashes.
    RefreshStashes,
    /// Recompute the diff of the selected file (`App::diff_request`);
    /// failures are ignored.
    UpdateDiff,
    /// Show a notification (`App::notify`).
    Notify(String, NotificationType),
    /// Start fetching from `origin` in the background.
    Fetch,
    /// Start pushing the branch to `origin` in the background.
    Push(String),
    /// Start pulling the branch from `origin` in the background.
    Pull(String),
}

/// An effect as plain values.
pub enum EffectView {
    StageFile(Seq<char>),
    UnstageFile(Seq<char>),
    StageAll,
    UnstageAll,
    DiscardChanges(Seq<char>),
    Commit(Seq<char>),
    Amend(Seq<char>),
    FinishCommit,
    LeaveCommitEditor,
    StashSave(Option<Seq<char>>),
    StashPop,
    StashApply(usize),
    StashDrop(usize),
    CreateBranch(Seq<char>),
    DeleteBranch(Seq<char>),
    RenameBranch(Seq<char>, Seq<char>),
    CheckoutBranch(Seq<char>),
    Refresh,
    RefreshStatus,
    RefreshBranches,
    RefreshStashes,
    UpdateDiff,
    Notify(Seq<char>, NotificationType),
    Fetch,
    Push(Seq<char>),
    Pull(Seq<char>),
}

impl View for Effect {
    type V = EffectView;

    open spec fn view(&self) -> EffectView {
        match self {
            Effect::StageFile(s) => EffectView::StageFile(s@),
            Effect::UnstageFile(s) => EffectView::UnstageFile(s@),
            Effect::StageAll => EffectView::StageAll,
            Effect::UnstageAll => EffectView::UnstageAll,
            Effect::DiscardChanges(s) => EffectView::DiscardChanges(s@),
            Effect::Commit(s) => EffectView::Commit(s@),
            Effect::Amend(s) => EffectView::Amend(s@),
            Effect::FinishCommit => EffectView::FinishCommit,
            Effect::LeaveCommitEditor => EffectView::LeaveCommitEditor,
            Effect::StashSave(m) => EffectView::StashSave(
                match m {
                    Some(s) => Some(s@),
                    None => None,
                },
            ),
            Effect::StashPop => EffectView::StashPop,
            Effect::StashApply(i) => EffectView::StashApply(*i),
            Effect::StashDrop(i) => EffectView::StashDrop(*i),
            Effect::CreateBranch(s) => EffectView::CreateBranch(s@),
            Effect::DeleteBranch(s) => EffectView::DeleteBranch(s@),
            Effect::RenameBranch(a, b) => EffectView::RenameBranch(a@, b@),
            Effect::CheckoutBranch(s) => EffectView::CheckoutBranch(s@),
            Effect::Refresh => EffectView::Refresh,
            Effect::RefreshStatus => EffectView::RefreshStatus,
            Effect::RefreshBranches => EffectView::RefreshBranches,
            Effect::RefreshStashes => EffectView::RefreshStashes,
            Effect::UpdateDiff => EffectView::UpdateDiff,
            Effect::Notify(s, t) => EffectView::Notify(s@, *t),
            Effect::Fetch => EffectView::Fetch,
            Effect::Push(s) => EffectView::Push(s@),
            Effect::Pull(s) => EffectView::Pull(s@),
        }
    }
}

/// A list of effects as plain values.
pub open spec fn effects_view(v: Seq<Effect>) -> Seq<EffectView> {
    v.map_values(|e: Effect| e@)
}

/// A notification effect with a fixed message.
pub fn notify_effect(msg: &str, t: NotificationType) -> (r: Effect)
    ensures
        r@ == EffectView::Notify(msg@, t),
{
    Effect::Notify(msg.to_owned(), t)
}

} // verus!
