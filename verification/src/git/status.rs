//! File status of the working tree and the index, grouped for display.

use vstd::prelude::*;

use crate::util::{lemma_somes_push, somes};

verus! {

/// The kind of change for a file.
#[derive(Debug, Clone, Copy, PartialEq, Eq, Structural)]
pub enum StatusType {
    New,
    /// Alias for `New` used by some UI code.
    Added,
    Modified,
    Deleted,
    Renamed,
    Copied,
    TypeChange,
    Untracked,
    Conflicted,
}

pub open spec fn status_label(s: StatusType) -> Seq<char> {
    match s {
        StatusType::New => "new"@,
        StatusType::Added => "added"@,
        StatusType::Modified => "modified"@,
        StatusType::Deleted => "deleted"@,
        StatusType::Renamed => "renamed"@,
        StatusType::Copied => "copied"@,
        StatusType::TypeChange => "typechange"@,
        StatusType::Untracked => "untracked"@,
        StatusType::Conflicted => "conflicted"@,
    }
}

impl StatusType {
    /// The lower-case name of the change kind, as displayed to the user.
    pub fn as_str(&self) -> (r: &'static str)
        ensures
            r@ == status_label(*self),
    {
        match self {
            StatusType::New => "new",
            StatusType::Added => "added",
            StatusType::Modified => "modified",
            StatusType::Deleted => "deleted",
            StatusType::Renamed => "renamed",
            StatusType::Copied => "copied",
            StatusType::TypeChange => "typechange",
            StatusType::Untracked => "untracked",
            StatusType::Conflicted => "conflicted",
        }
    }
}

/// Status of a single file in the working tree or index.
#[derive(Debug)]
pub struct FileStatus {
    /// Relative path from the working directory root.
    pub path: String,
    /// Old path (for renames).
    pub old_path: Option<String>,
    /// The kind of change.
    pub status: StatusType,
}

impl Clone for FileStatus {
    fn clone(&self) -> (r: Self)
        ensures
            r == *self,
    {
        FileStatus { path: self.path.clone(), old_path: clone_opt_string(&self.old_path), status: self.status }
    }
}

/// Copy of an optional string.
pub fn clone_opt_string(s: &Option<String>) -> (r: Option<String>)
    ensures
        r == *s,
{
    match s {
        Some(x) => Some(x.clone()),
        None => None,
    }
}

/// The status bits of one entry, as reported by the repository.
#[derive(Debug, Clone, Copy, PartialEq, Eq, Structural)]
pub struct StatusFlags {
    pub conflicted: bool,
    pub index_new: bool,
    pub index_modified: bool,
    pub index_deleted: bool,
    pub index_renamed: bool,
    pub index_typechange: bool,
    pub wt_new: bool,
    pub wt_modified: bool,
    pub wt_deleted: bool,
    pub wt_renamed: bool,
    pub wt_typechange: bool,
}

/// One entry of the repository status.
#[derive(Debug)]
pub struct StatusEntry {
    /// The path, or `None` when it is not valid UTF-8.
    pub path: Option<String>,
    pub flags: StatusFlags,
    /// Old path of a rename between HEAD and the index.
    pub head_to_index_old: Option<String>,
    /// Old path of a rename between the index and the working directory.
    pub index_to_workdir_old: Option<String>,
}

/// The four-way grouping returned by [`classify_statuses`]:
/// `(staged, unstaged, untracked, conflicted)`.
pub type StatusGroups = (Vec<FileStatus>, Vec<FileStatus>, Vec<FileStatus>, Vec<FileStatus>);

/// An optional string, seen as characters.
pub open spec fn opt_chars(o: Option<String>) -> Option<Seq<char>> {
    match o {
        Some(s) => Some(s@),
        None => None,
    }
}

/// A file status as plain values.
pub struct FileStatusView {
    pub path: Seq<char>,
    pub old_path: Option<Seq<char>>,
    pub status: StatusType,
}

impl View for FileStatus {
    type V = FileStatusView;

    open spec fn view(&self) -> FileStatusView {
        FileStatusView { path: self.path@, old_path: opt_chars(self.old_path), status: self.status }
    }
}

/// The path shown for an entry.
pub open spec fn entry_path(e: StatusEntry) -> Seq<char> {
    match e.path {
        Some(p) => p@,
        None => "<invalid utf-8>"@,
    }
}

pub open spec fn file_view(
    path: Seq<char>,
    old_path: Option<Seq<char>>,
    status: StatusType,
) -> FileStatusView {
    FileStatusView { path, old_path, status }
}

/// The entry in the staged group, if any.
pub open spec fn staged_of(e: StatusEntry) -> Option<FileStatusView> {
    let f = e.flags;
    if f.conflicted {
        None
    } else if f.index_new {
        Some(file_view(entry_path(e), None, StatusType::New))
    } else if f.index_modified {
        Some(file_view(entry_path(e), None, StatusType::Modified))
    } else if f.index_deleted {
        Some(file_view(entry_path(e), None, StatusType::Deleted))
    } else if f.index_renamed {
        Some(file_view(entry_path(e), opt_chars(e.head_to_index_old), StatusType::Renamed))
    } else if f.index_typechange {
        Some(file_view(entry_path(e), None, StatusType::TypeChange))
    } else {
        None
    }
}

/// The entry in the unstaged group, if any.
pub open spec fn unstaged_of(e: StatusEntry) -> Option<FileStatusView> {
    let f = e.flags;
    if f.conflicted {
        None
    } else if f.wt_modified {
        Some(file_view(entry_path(e), None, StatusType::Modified))
    } else if f.wt_deleted {
        Some(file_view(entry_path(e), None, StatusType::Deleted))
    } else if f.wt_renamed {
        Some(file_view(entry_path(e), opt_chars(e.index_to_workdir_old), StatusType::Renamed))
    } else if f.wt_typechange {
        Some(file_view(entry_path(e), None, StatusType::TypeChange))
    } else {
        None
    }
}

/// The entry in the untracked group, if any.
pub open spec fn untracked_of(e: StatusEntry) -> Option<FileStatusView> {
    let f = e.flags;
    if !f.conflicted && !f.wt_modified && !f.wt_deleted && !f.wt_renamed && !f.wt_typechange
        && f.wt_new {
        Some(file_view(entry_path(e), None, StatusType::Untracked))
    } else {
        None
    }
}

/// The entry in the conflicted group, if any.
pub open spec fn conflict_of(e: StatusEntry) -> Option<FileStatusView> {
    if e.flags.conflicted {
        Some(file_view(entry_path(e), None, StatusType::Conflicted))
    } else {
        None
    }
}

pub open spec fn views_of(v: Seq<FileStatus>) -> Seq<FileStatusView> {
    v.map_values(|f: FileStatus| f@)
}

/// Group `f(e)` over the first `n` entries.
pub open spec fn grouped(
    entries: Seq<StatusEntry>,
    n: int,
    f: spec_fn(StatusEntry) -> Option<FileStatusView>,
) -> Seq<FileStatusView> {
    somes(entries.take(n).map_values(f))
}

fn make_status(path: &String, old_path: Option<String>, status: StatusType) -> (r: FileStatus)
    ensures
        r@ == file_view(path@, opt_chars(old_path), status),
{
    FileStatus { path: path.clone(), old_path, status }
}

proof fn lemma_grouped_step(
    entries: Seq<StatusEntry>,
    n: int,
    f: spec_fn(StatusEntry) -> Option<FileStatusView>,
)
    requires
        0 <= n < entries.len(),
    ensures
        grouped(entries, n + 1, f) == match f(entries[n]) {
            Some(v) => grouped(entries, n, f).push(v),
            None => grouped(entries, n, f),
        },
{
    assert(entries.take(n + 1).map_values(f) == entries.take(n).map_values(f).push(f(entries[n])));
    lemma_somes_push(entries.take(n).map_values(f), f(entries[n]));
}

/// Sort status entries into the staged, unstaged, untracked and conflicted
/// groups. A conflicted entry appears only among the conflicts; otherwise an
/// entry may be both staged and unstaged; an untracked entry is one that is
/// new in the working tree with no other working-tree change.
pub fn classify_statuses(entries: &Vec<StatusEntry>) -> (r: StatusGroups)
    ensures
        views_of(r.0@) == grouped(entries@, entries@.len() as int, |e: StatusEntry| staged_of(e)),
        views_of(r.1@) == grouped(entries@, entries@.len() as int, |e: StatusEntry| unstaged_of(e)),
        views_of(r.2@) == grouped(entries@, entries@.len() as int, |e: StatusEntry| untracked_of(e)),
        views_of(r.3@) == grouped(entries@, entries@.len() as int, |e: StatusEntry| conflict_of(e)),
        views_of(r.0@) == staged_group(entries@),
        views_of(r.1@) == unstaged_group(entries@),
{
    let ghost fs = |e: StatusEntry| staged_of(e);
    let ghost fu = |e: StatusEntry| unstaged_of(e);
    let ghost ft = |e: StatusEntry| untracked_of(e);
    let ghost fc = |e: StatusEntry| conflict_of(e);
    let mut staged: Vec<FileStatus> = Vec::new();
    let mut unstaged: Vec<FileStatus> = Vec::new();
    let mut untracked: Vec<FileStatus> = Vec::new();
    let mut conflicts: Vec<FileStatus> = Vec::new();
    let mut i: usize = 0;
    while i < entries.len()
        invariant
            i <= entries@.len(),
            views_of(staged@) == grouped(entries@, i as int, fs),
            views_of(unstaged@) == grouped(entries@, i as int, fu),
            views_of(untracked@) == grouped(entries@, i as int, ft),
            views_of(conflicts@) == grouped(entries@, i as int, fc),
            fs == (|e: StatusEntry| staged_of(e)),
            fu == (|e: StatusEntry| unstaged_of(e)),
            ft == (|e: StatusEntry| untracked_of(e)),
            fc == (|e: StatusEntry| conflict_of(e)),
        decreases entries@.len() - i,
    {
        let entry = &entries[i];
        proof {
            lemma_grouped_step(entries@, i as int, fs);
            lemma_grouped_step(entries@, i as int, fu);
            lemma_grouped_step(entries@, i as int, ft);
            lemma_grouped_step(entries@, i as int, fc);
        }
        let path = match &entry.path {
            Some(p) => p.clone(),
            None => "<invalid utf-8>".to_owned(),
        };
        assert(path@ == entry_path(*entry));
        let f = entry.flags;
        let ghost s0 = staged@;
        let ghost u0 = unstaged@;
        let ghost t0 = untracked@;
        let ghost c0 = conflicts@;
        let ns = staged.len();
        let nu = unstaged.len();
        let nt = untracked.len();
        if f.conflicted {
            conflicts.push(make_status(&path, None, StatusType::Conflicted));
            assert(views_of(conflicts@) == views_of(c0).push(conflicts@.last()@));
        } else {
            if f.index_new {
                staged.push(make_status(&path, None, StatusType::New));
            } else if f.index_modified {
                staged.push(make_status(&path, None, StatusType::Modified));
            } else if f.index_deleted {
                staged.push(make_status(&path, None, StatusType::Deleted));
            } else if f.index_renamed {
                staged.push(
                    make_status(&path, clone_opt_string(&entry.head_to_index_old), StatusType::Renamed),
                );
            } else if f.index_typechange {
                staged.push(make_status(&path, None, StatusType::TypeChange));
            }
            if staged.len() > ns {
                assert(views_of(staged@) == views_of(s0).push(staged@.last()@));
            } else {
                assert(staged@ == s0);
            }
            if f.wt_modified {
                unstaged.push(make_status(&path, None, StatusType::Modified));
            } else if f.wt_deleted {
                unstaged.push(make_status(&path, None, StatusType::Deleted));
            } else if f.wt_renamed {
                unstaged.push(
                    make_status(
                        &path,
                        clone_opt_string(&entry.index_to_workdir_old),
                        StatusType::Renamed,
                    ),
                );
            } else if f.wt_typechange {
                unstaged.push(make_status(&path, None, StatusType::TypeChange));
            } else if f.wt_new {
                untracked.push(make_status(&path, None, StatusType::Untracked));
            }
            if unstaged.len() > nu {
                assert(views_of(unstaged@) == views_of(u0).push(unstaged@.last()@));
            }
            if untracked.len() > nt {
                assert(views_of(untracked@) == views_of(t0).push(untracked@.last()@));
            }
        }
        i = i + 1;
    }
    assert(entries@.take(entries@.len() as int) == entries@);
    (staged, unstaged, untracked, conflicts)
}

/// Whether flags `f` hold the index change that status `s` names.
pub open spec fn index_flag(f: StatusFlags, s: StatusType) -> bool {
    match s {
        StatusType::New => f.index_new,
        StatusType::Modified => f.index_modified,
        StatusType::Deleted => f.index_deleted,
        StatusType::Renamed => f.index_renamed,
        StatusType::TypeChange => f.index_typechange,
        _ => false,
    }
}

/// The precedence of the index changes: new, modified, deleted, renamed,
/// type change.
pub open spec fn index_rank(s: StatusType) -> int {
    match s {
        StatusType::New => 0,
        StatusType::Modified => 1,
        StatusType::Deleted => 2,
        StatusType::Renamed => 3,
        StatusType::TypeChange => 4,
        _ => 5,
    }
}

/// Whether flags `f` hold the working-tree change that status `s` names
/// (untracked files aside).
pub open spec fn worktree_flag(f: StatusFlags, s: StatusType) -> bool {
    match s {
        StatusType::Modified => f.wt_modified,
        StatusType::Deleted => f.wt_deleted,
        StatusType::Renamed => f.wt_renamed,
        StatusType::TypeChange => f.wt_typechange,
        _ => false,
    }
}

/// The precedence of the working-tree changes: modified, deleted, renamed,
/// type change.
pub open spec fn worktree_rank(s: StatusType) -> int {
    match s {
        StatusType::Modified => 0,
        StatusType::Deleted => 1,
        StatusType::Renamed => 2,
        StatusType::TypeChange => 3,
        _ => 4,
    }
}

/// Whether `v` shows entry `e` as staged: the entry is not conflicted and
/// `v` names the first index change that the entry's flags hold.
pub open spec fn shows_staged(e: StatusEntry, v: FileStatusView) -> bool {
    &&& !e.flags.conflicted
    &&& v.path == entry_path(e)
    &&& index_flag(e.flags, v.status)
    &&& forall|s: StatusType| index_rank(s) < index_rank(v.status) ==> !#[trigger] index_flag(e.flags, s)
}

/// Whether `v` shows entry `e` as unstaged: the entry is not conflicted
/// and `v` names the first working-tree change that the entry's flags hold.
pub open spec fn shows_unstaged(e: StatusEntry, v: FileStatusView) -> bool {
    &&& !e.flags.conflicted
    &&& v.path == entry_path(e)
    &&& worktree_flag(e.flags, v.status)
    &&& forall|s: StatusType| worktree_rank(s) < worktree_rank(v.status) ==> !#[trigger] worktree_flag(e.flags, s)
}

/// Whether entry `e` has a change in the index.
pub open spec fn has_index_change(e: StatusEntry) -> bool {
    let f = e.flags;
    f.index_new || f.index_modified || f.index_deleted || f.index_renamed || f.index_typechange
}

/// Whether entry `e` has a change of a tracked file in the working tree.
pub open spec fn has_worktree_change(e: StatusEntry) -> bool {
    let f = e.flags;
    f.wt_modified || f.wt_deleted || f.wt_renamed || f.wt_typechange
}

/// What each group holds of one entry: staged exactly when it is not
/// conflicted and has an index change, under the first such change;
/// unstaged likewise for the working tree; untracked exactly when it is new
/// in the working tree with no other working-tree change; conflicted
/// exactly when it is conflicted.
pub proof fn law_entry_groups(e: StatusEntry)
    ensures
        staged_of(e).is_some() <==> !e.flags.conflicted && has_index_change(e),
        staged_of(e) matches Some(v) ==> shows_staged(e, v),
        unstaged_of(e).is_some() <==> !e.flags.conflicted && has_worktree_change(e),
        unstaged_of(e) matches Some(v) ==> shows_unstaged(e, v),
        untracked_of(e).is_some() <==> !e.flags.conflicted && !has_worktree_change(e) && e.flags.wt_new,
        untracked_of(e) matches Some(v) ==> v.path == entry_path(e) && v.status == StatusType::Untracked,
        conflict_of(e).is_some() <==> e.flags.conflicted,
        conflict_of(e) matches Some(v) ==> v.path == entry_path(e) && v.status == StatusType::Conflicted,
{
}

proof fn lemma_grouped_sources(
    entries: Seq<StatusEntry>,
    n: int,
    f: spec_fn(StatusEntry) -> Option<FileStatusView>,
)
    requires
        0 <= n <= entries.len(),
    ensures
        forall|k: int|
            0 <= k < grouped(entries, n, f).len() ==> exists|j: int|
                0 <= j < n && #[trigger] f(entries[j]) == Some(#[trigger] grouped(entries, n, f)[k]),
        forall|j: int|
            0 <= j < n && (#[trigger] f(entries[j])).is_some() ==> exists|k: int|
                0 <= k < grouped(entries, n, f).len() && #[trigger] grouped(entries, n, f)[k] == f(
                    entries[j],
                ).unwrap(),
    decreases n,
{
    if n == 0 {
        assert(entries.take(0).map_values(f) =~= Seq::<Option<FileStatusView>>::empty());
    } else {
        let m = n - 1;
        lemma_grouped_sources(entries, m, f);
        lemma_grouped_step(entries, m, f);
        let g0 = grouped(entries, m, f);
        let g1 = grouped(entries, n, f);
        assert forall|k: int| 0 <= k < g1.len() implies exists|j: int|
            0 <= j < n && #[trigger] f(entries[j]) == Some(#[trigger] g1[k]) by {
            if k < g0.len() {
                assert(g1[k] == g0[k]);
                let j = choose|j: int| 0 <= j < m && #[trigger] f(entries[j]) == Some(#[trigger] g0[k]);
                assert(f(entries[j]) == Some(g1[k]));
            } else {
                assert(f(entries[m]) == Some(g1[k]));
            }
        }
        assert forall|j: int| 0 <= j < n && (#[trigger] f(entries[j])).is_some() implies exists|k: int|
            0 <= k < g1.len() && #[trigger] g1[k] == f(entries[j]).unwrap() by {
            if j < m {
                let k = choose|k: int| 0 <= k < g0.len() && #[trigger] g0[k] == f(entries[j]).unwrap();
                assert(g1[k] == g0[k]);
            } else {
                assert(g1[g0.len() as int] == f(entries[j]).unwrap());
            }
        }
    }
}

/// The staged group of the entries.
pub open spec fn staged_group(entries: Seq<StatusEntry>) -> Seq<FileStatusView> {
    grouped(entries, entries.len() as int, |e: StatusEntry| staged_of(e))
}

/// The unstaged group of the entries.
pub open spec fn unstaged_group(entries: Seq<StatusEntry>) -> Seq<FileStatusView> {
    grouped(entries, entries.len() as int, |e: StatusEntry| unstaged_of(e))
}

/// Whether file `v` shows as staged one of the entries.
pub open spec fn staged_from_some_entry(entries: Seq<StatusEntry>, v: FileStatusView) -> bool {
    exists|j: int| 0 <= j < entries.len() && #[trigger] shows_staged(entries[j], v)
}

/// Whether entry `e` is shown as staged by one of the files.
pub open spec fn shown_staged(g: Seq<FileStatusView>, e: StatusEntry) -> bool {
    exists|k: int| 0 <= k < g.len() && #[trigger] shows_staged(e, g[k])
}

/// Whether file `v` shows as unstaged one of the entries.
pub open spec fn unstaged_from_some_entry(entries: Seq<StatusEntry>, v: FileStatusView) -> bool {
    exists|j: int| 0 <= j < entries.len() && #[trigger] shows_unstaged(entries[j], v)
}

/// Whether entry `e` is shown as unstaged by one of the files.
pub open spec fn shown_unstaged(g: Seq<FileStatusView>, e: StatusEntry) -> bool {
    exists|k: int| 0 <= k < g.len() && #[trigger] shows_unstaged(e, g[k])
}

/// Every file in the staged group comes from an entry that it shows as
/// staged (not conflicted, named after the first index change its flags
/// hold: new, modified, deleted, renamed or type change), and every entry
/// that is not conflicted and has an index change is in the staged group.
/// The same holds of the unstaged group and the working-tree changes.
pub proof fn law_groups_name_the_change(entries: Seq<StatusEntry>)
    ensures
        forall|k: int|
            0 <= k < staged_group(entries).len() ==> #[trigger] staged_from_some_entry(
                entries,
                staged_group(entries)[k],
            ),
        forall|j: int|
            0 <= j < entries.len() && !entries[j].flags.conflicted && has_index_change(entries[j])
                ==> #[trigger] shown_staged(staged_group(entries), entries[j]),
        forall|k: int|
            0 <= k < unstaged_group(entries).len() ==> #[trigger] unstaged_from_some_entry(
                entries,
                unstaged_group(entries)[k],
            ),
        forall|j: int|
            0 <= j < entries.len() && !entries[j].flags.conflicted && has_worktree_change(entries[j])
                ==> #[trigger] shown_unstaged(unstaged_group(entries), entries[j]),
{
    let fs = |e: StatusEntry| staged_of(e);
    let fu = |e: StatusEntry| unstaged_of(e);
    let n = entries.len() as int;
    lemma_grouped_sources(entries, n, fs);
    lemma_grouped_sources(entries, n, fu);
    let gs = staged_group(entries);
    let gu = unstaged_group(entries);
    assert(gs == grouped(entries, n, fs));
    assert(gu == grouped(entries, n, fu));
    assert forall|k: int| 0 <= k < gs.len() implies #[trigger] staged_from_some_entry(entries, gs[k]) by {
        let j = choose|j: int| 0 <= j < n && #[trigger] fs(entries[j]) == Some(#[trigger] gs[k]);
        law_entry_groups(entries[j]);
        assert(shows_staged(entries[j], gs[k]));
    }
    assert forall|j: int|
        0 <= j < entries.len() && !entries[j].flags.conflicted && has_index_change(entries[j])
        implies #[trigger] shown_staged(gs, entries[j]) by {
        law_entry_groups(entries[j]);
        assert(fs(entries[j]).is_some());
        let k = choose|k: int| 0 <= k < gs.len() && #[trigger] gs[k] == fs(entries[j]).unwrap();
        assert(shows_staged(entries[j], gs[k]));
    }
    assert forall|k: int| 0 <= k < gu.len() implies #[trigger] unstaged_from_some_entry(entries, gu[k]) by {
        let j = choose|j: int| 0 <= j < n && #[trigger] fu(entries[j]) == Some(#[trigger] gu[k]);
        law_entry_groups(entries[j]);
        assert(shows_unstaged(entries[j], gu[k]));
    }
    assert forall|j: int|
        0 <= j < entries.len() && !entries[j].flags.conflicted && has_worktree_change(entries[j])
        implies #[trigger] shown_unstaged(gu, entries[j]) by {
        law_entry_groups(entries[j]);
        assert(fu(entries[j]).is_some());
        let k = choose|k: int| 0 <= k < gu.len() && #[trigger] gu[k] == fu(entries[j]).unwrap();
        assert(shows_unstaged(entries[j], gu[k]));
    }
}

} // verus!
