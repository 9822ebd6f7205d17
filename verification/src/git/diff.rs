//! Diffs of single files: their model, the folding of a diff walk into it,
//! and the patch text of one hunk.

use vstd::prelude::*;

use crate::git::status::opt_chars;
use crate::util::{
    chars_of, concat, from_utf8_lossy, lossy_utf8, string_from_chars, trim, trim_end, trimmed,
    trimmed_end,
};

verus! {

/// Type of a diff line.
#[derive(Debug, Clone, Copy, PartialEq, Eq, Structural)]
pub enum DiffLineType {
    Context,
    Addition,
    Deletion,
    HunkHeader,
    Binary,
}

/// A single line in a diff.
#[derive(Debug, Clone)]
pub struct DiffLine {
    pub line_type: DiffLineType,
    pub old_lineno: Option<u32>,
    pub new_lineno: Option<u32>,
    pub content: String,
}

/// A single hunk in a diff.
#[derive(Debug, Clone)]
pub struct HunkInfo {
    pub header: String,
    pub old_start: u32,
    pub old_lines: u32,
    pub new_start: u32,
    pub new_lines: u32,
    pub lines: Vec<DiffLine>,
}

/// The full diff for a single file.
#[derive(Debug, Clone)]
pub struct FileDiff {
    pub path: String,
    pub old_path: Option<String>,
    pub hunks: Vec<HunkInfo>,
    pub is_binary: bool,
    /// Total additions in this diff.
    pub additions: usize,
    /// Total deletions in this diff.
    pub deletions: usize,
}

/// Where to diff from: index-to-workdir (unstaged) or HEAD-to-index (staged).
#[derive(Debug, Clone, Copy, PartialEq, Eq, Structural)]
pub enum DiffTarget {
    /// Changes in the working directory not yet staged.
    Unstaged,
    /// Changes that have been staged (index vs HEAD).
    Staged,
}


/// A diff line as plain values.
pub struct DiffLineView {
    pub line_type: DiffLineType,
    pub old_lineno: Option<u32>,
    pub new_lineno: Option<u32>,
    pub content: Seq<char>,
}

impl View for DiffLine {
    type V = DiffLineView;

    open spec fn view(&self) -> DiffLineView {
        DiffLineView {
            line_type: self.line_type,
            old_lineno: self.old_lineno,
            new_lineno: self.new_lineno,
            content: self.content@,
        }
    }
}

/// A hunk as plain values.
pub struct HunkView {
    pub header: Seq<char>,
    pub old_start: u32,
    pub old_lines: u32,
    pub new_start: u32,
    pub new_lines: u32,
    pub lines: Seq<DiffLineView>,
}

impl View for HunkInfo {
    type V = HunkView;

    open spec fn view(&self) -> HunkView {
        HunkView {
            header: self.header@,
            old_start: self.old_start,
            old_lines: self.old_lines,
            new_start: self.new_start,
            new_lines: self.new_lines,
            lines: self.lines@.map_values(|l: DiffLine| l@),
        }
    }
}

/// A file diff as plain values.
pub struct FileDiffView {
    pub path: Seq<char>,
    pub old_path: Option<Seq<char>>,
    pub hunks: Seq<HunkView>,
    pub is_binary: bool,
    pub additions: usize,
    pub deletions: usize,
}

impl View for FileDiff {
    type V = FileDiffView;

    open spec fn view(&self) -> FileDiffView {
        FileDiffView {
            path: self.path@,
            old_path: opt_chars(self.old_path),
            hunks: self.hunks@.map_values(|h: HunkInfo| h@),
            is_binary: self.is_binary,
            additions: self.additions,
            deletions: self.deletions,
        }
    }
}

/// The hunk a diff walk reports a line under, with its raw header bytes.
#[derive(Debug, Clone)]
pub struct RawHunk {
    pub header: Vec<u8>,
    pub old_start: u32,
    pub old_lines: u32,
    pub new_start: u32,
    pub new_lines: u32,
}

/// One callback of a diff walk in patch format: the file pair, the hunk,
/// and one line with its origin character and raw content.
#[derive(Debug, Clone)]
pub struct DiffWalkLine {
    /// Whether the file pair is flagged binary.
    pub binary: bool,
    /// Path of the old side, if any.
    pub old_file: Option<String>,
    /// Path of the new side, if any.
    pub new_file: Option<String>,
    pub hunk: Option<RawHunk>,
    /// `'F'` file header, `'H'` hunk header, `'+'`, `'-'`, `' '`, `'B'` and
    /// the others of the patch format.
    pub origin: char,
    pub content: Vec<u8>,
    pub old_lineno: Option<u32>,
    pub new_lineno: Option<u32>,
}

/// The kind of a content line by its origin.
pub open spec fn content_type(origin: char) -> DiffLineType {
    if origin == '+' {
        DiffLineType::Addition
    } else if origin == '-' {
        DiffLineType::Deletion
    } else if origin == 'B' {
        DiffLineType::Binary
    } else {
        DiffLineType::Context
    }
}

/// A content line of the walk as plain values.
pub open spec fn line_view_of(ev: DiffWalkLine, t: DiffLineType) -> DiffLineView {
    DiffLineView {
        line_type: t,
        old_lineno: ev.old_lineno,
        new_lineno: ev.new_lineno,
        content: lossy_utf8(ev.content@),
    }
}

/// A new, empty hunk with the given header.
pub open spec fn hunk_view_of(h: RawHunk, header: Seq<char>) -> HunkView {
    HunkView {
        header,
        old_start: h.old_start,
        old_lines: h.old_lines,
        new_start: h.new_start,
        new_lines: h.new_lines,
        lines: Seq::empty(),
    }
}

/// The hunks with `l` added to the last one (unchanged when there is none).
pub open spec fn add_to_last(hunks: Seq<HunkView>, l: DiffLineView) -> Seq<HunkView> {
    if hunks.len() > 0 {
        let h = hunks.last();
        hunks.update(hunks.len() - 1, HunkView { lines: h.lines.push(l), ..h })
    } else {
        hunks
    }
}

/// The diff of one file after the first `n` lines of its walk.
pub open spec fn parse_prefix(events: Seq<DiffWalkLine>, path: Seq<char>, n: nat) -> FileDiffView
    decreases n,
{
    if n == 0 {
        FileDiffView {
            path,
            old_path: None,
            hunks: Seq::empty(),
            is_binary: false,
            additions: 0,
            deletions: 0,
        }
    } else {
        let a = parse_prefix(events, path, (n - 1) as nat);
        let ev = events[n - 1];
        let a1 = FileDiffView {
            is_binary: a.is_binary || ev.binary,
            old_path: if a.old_path.is_none() {
                match ev.old_file {
                    Some(op) => if op@ != path { Some(op@) } else { None },
                    None => None,
                }
            } else {
                a.old_path
            },
            ..a
        };
        if ev.origin == 'F' {
            a1
        } else if ev.origin == 'H' {
            match ev.hunk {
                Some(h) => FileDiffView {
                    hunks: a1.hunks.push(hunk_view_of(h, trimmed(lossy_utf8(h.header@)))),
                    ..a1
                },
                None => a1,
            }
        } else {
            let t = content_type(ev.origin);
            FileDiffView {
                additions: if t == DiffLineType::Addition { (a1.additions + 1) as usize } else { a1.additions },
                deletions: if t == DiffLineType::Deletion { (a1.deletions + 1) as usize } else { a1.deletions },
                hunks: add_to_last(a1.hunks, line_view_of(ev, t)),
                ..a1
            }
        }
    }
}

proof fn lemma_parse_counts(events: Seq<DiffWalkLine>, path: Seq<char>, n: nat)
    requires
        n <= events.len(),
    ensures
        parse_prefix(events, path, n).additions + parse_prefix(events, path, n).deletions <= n,
    decreases n,
{
    if n > 0 {
        lemma_parse_counts(events, path, (n - 1) as nat);
    }
}


/// The number of lines of kind `t` among `ls`.
pub open spec fn lines_of_type(ls: Seq<DiffLineView>, t: DiffLineType) -> nat
    decreases ls.len(),
{
    if ls.len() == 0 {
        0
    } else {
        lines_of_type(ls.drop_last(), t) + if ls.last().line_type == t {
            1nat
        } else {
            0nat
        }
    }
}

/// The number of lines of kind `t` in all the hunks.
pub open spec fn hunk_lines_of_type(hs: Seq<HunkView>, t: DiffLineType) -> nat
    decreases hs.len(),
{
    if hs.len() == 0 {
        0
    } else {
        hunk_lines_of_type(hs.drop_last(), t) + lines_of_type(hs.last().lines, t)
    }
}

/// Whether one of the first `n` lines of the walk opens a hunk.
pub open spec fn hunk_opened(events: Seq<DiffWalkLine>, n: int) -> bool {
    exists|j: int| 0 <= j < n && #[trigger] events[j].origin == 'H' && events[j].hunk.is_some()
}

/// Whether every content line of the walk comes after a line that opens a
/// hunk, as in the walk of a real diff.
pub open spec fn content_in_hunks(events: Seq<DiffWalkLine>) -> bool {
    forall|i: int|
        0 <= i < events.len() && events[i].origin != 'F' && events[i].origin != 'H' ==> #[trigger] hunk_opened(
            events,
            i,
        )
}

proof fn lemma_counts_step(hs: Seq<HunkView>, l: DiffLineView, t: DiffLineType)
    requires
        hs.len() > 0,
    ensures
        hunk_lines_of_type(add_to_last(hs, l), t) == hunk_lines_of_type(hs, t) + if l.line_type == t {
            1nat
        } else {
            0nat
        },
{
    let h = hs.last();
    let hs2 = add_to_last(hs, l);
    assert(hs2.drop_last() =~= hs.drop_last());
    assert(hs2.last().lines == h.lines.push(l));
    assert(h.lines.push(l).drop_last() =~= h.lines);
}

proof fn lemma_counts_push(hs: Seq<HunkView>, h: HunkView, t: DiffLineType)
    requires
        h.lines.len() == 0,
    ensures
        hunk_lines_of_type(hs.push(h), t) == hunk_lines_of_type(hs, t),
{
    assert(hs.push(h).drop_last() =~= hs);
}

proof fn lemma_parse_law(events: Seq<DiffWalkLine>, path: Seq<char>, n: nat)
    requires
        n <= events.len(),
        events.len() < usize::MAX,
        content_in_hunks(events),
    ensures
        ({
            let d = parse_prefix(events, path, n);
            &&& d.path == path
            &&& d.additions == hunk_lines_of_type(d.hunks, DiffLineType::Addition)
            &&& d.deletions == hunk_lines_of_type(d.hunks, DiffLineType::Deletion)
            &&& hunk_lines_of_type(d.hunks, DiffLineType::HunkHeader) == 0
            &&& (d.hunks.len() > 0 <==> hunk_opened(events, n as int))
        }),
    decreases n,
{
    if n > 0 {
        let m = (n - 1) as nat;
        lemma_parse_law(events, path, m);
        lemma_parse_counts(events, path, m);
        let a = parse_prefix(events, path, m);
        let ev = events[m as int];
        if ev.origin == 'F' {
            if hunk_opened(events, n as int) {
                let j = choose|j: int| 0 <= j < n && #[trigger] events[j].origin == 'H' && events[j].hunk.is_some();
                assert(j < m);
                assert(hunk_opened(events, m as int));
            }
        } else if ev.origin == 'H' {
            match ev.hunk {
                Some(h) => {
                    lemma_counts_push(a.hunks, hunk_view_of(h, trimmed(lossy_utf8(h.header@))), DiffLineType::Addition);
                    lemma_counts_push(a.hunks, hunk_view_of(h, trimmed(lossy_utf8(h.header@))), DiffLineType::Deletion);
                    lemma_counts_push(a.hunks, hunk_view_of(h, trimmed(lossy_utf8(h.header@))), DiffLineType::HunkHeader);
                    assert(events[m as int].origin == 'H' && events[m as int].hunk.is_some());
                    assert(hunk_opened(events, n as int));
                },
                None => {
                    if hunk_opened(events, n as int) {
                        let j = choose|j: int| 0 <= j < n && #[trigger] events[j].origin == 'H' && events[j].hunk.is_some();
                        assert(j < m);
                        assert(hunk_opened(events, m as int));
                    }
                },
            }
        } else {
            assert(hunk_opened(events, m as int));
            let t = content_type(ev.origin);
            assert(t != DiffLineType::HunkHeader);
            lemma_counts_step(a.hunks, line_view_of(ev, t), DiffLineType::Addition);
            lemma_counts_step(a.hunks, line_view_of(ev, t), DiffLineType::Deletion);
            lemma_counts_step(a.hunks, line_view_of(ev, t), DiffLineType::HunkHeader);
            let j = choose|j: int| 0 <= j < m && #[trigger] events[j].origin == 'H' && events[j].hunk.is_some();
            assert(hunk_opened(events, n as int));
        }
    }
}

proof fn lemma_parse_origin_counts(events: Seq<DiffWalkLine>, path: Seq<char>, n: nat)
    requires
        n <= events.len(),
        events.len() < usize::MAX,
    ensures
        parse_prefix(events, path, n).additions == origin_count(events, '+', n),
        parse_prefix(events, path, n).deletions == origin_count(events, '-', n),
    decreases n,
{
    if n > 0 {
        lemma_parse_origin_counts(events, path, (n - 1) as nat);
        lemma_parse_counts(events, path, (n - 1) as nat);
    }
}

/// The diff of a file has as many additions and deletions as its hunks
/// hold added and deleted lines, and no hunk line is a header, whenever
/// every content line of the walk comes after a hunk header (so for the
/// walk of a real diff); an empty walk gives no hunks and no changes. In
/// any walk, the additions are the `+` lines and the deletions the `-`
/// lines.
pub proof fn law_diff_counts_match_lines(events: Seq<DiffWalkLine>, path: Seq<char>)
    requires
        events.len() < usize::MAX,
        content_in_hunks(events),
    ensures
        parse_prefix(events, path, events.len() as nat).additions == origin_count(events, '+', events.len() as nat),
        parse_prefix(events, path, events.len() as nat).deletions == origin_count(events, '-', events.len() as nat),
        ({
            let d = parse_prefix(events, path, events.len() as nat);
            &&& d.path == path
            &&& d.additions == hunk_lines_of_type(d.hunks, DiffLineType::Addition)
            &&& d.deletions == hunk_lines_of_type(d.hunks, DiffLineType::Deletion)
            &&& hunk_lines_of_type(d.hunks, DiffLineType::HunkHeader) == 0
            &&& (events.len() == 0 ==> d.hunks.len() == 0 && d.additions == 0 && d.deletions == 0)
        }),
{
    lemma_parse_law(events, path, events.len() as nat);
    lemma_parse_origin_counts(events, path, events.len() as nat);
}

fn hunk_of(h: &RawHunk, header: String) -> (r: HunkInfo)
    ensures
        r@ == hunk_view_of(*h, header@),
{
    let r = HunkInfo {
        header,
        old_start: h.old_start,
        old_lines: h.old_lines,
        new_start: h.new_start,
        new_lines: h.new_lines,
        lines: Vec::new(),
    };
    assert(r@.lines =~= Seq::<DiffLineView>::empty());
    r
}

fn line_of(ev: &DiffWalkLine, t: DiffLineType) -> (r: DiffLine)
    ensures
        r@ == line_view_of(*ev, t),
{
    DiffLine {
        line_type: t,
        old_lineno: ev.old_lineno,
        new_lineno: ev.new_lineno,
        content: from_utf8_lossy(ev.content.as_slice()),
    }
}

fn type_of_origin(origin: char) -> (t: DiffLineType)
    ensures
        t == content_type(origin),
{
    if origin == '+' {
        DiffLineType::Addition
    } else if origin == '-' {
        DiffLineType::Deletion
    } else if origin == 'B' {
        DiffLineType::Binary
    } else {
        DiffLineType::Context
    }
}

fn push_to_last(hunks: &mut Vec<HunkInfo>, l: DiffLine)
    ensures
        final(hunks)@.map_values(|h: HunkInfo| h@) == add_to_last(old(hunks)@.map_values(|h: HunkInfo| h@), l@),
{
    if hunks.len() > 0 {
        let ghost old_h = hunks@;
        let mut h = hunks.pop().unwrap();
        let ghost lines0 = h.lines@;
        h.lines.push(l);
        assert(h.lines@.map_values(|x: DiffLine| x@) =~= lines0.map_values(|x: DiffLine| x@).push(l@));
        hunks.push(h);
        assert(hunks@.map_values(|x: HunkInfo| x@) =~= add_to_last(old_h.map_values(|x: HunkInfo| x@), l@));
    } else {
        assert(hunks@.map_values(|x: HunkInfo| x@) =~= add_to_last(old(hunks)@.map_values(|x: HunkInfo| x@), l@));
    }
}

/// Fold the walk of the diff of one file into its `FileDiff`: hunks
/// start at hunk headers (trimmed), content lines go to the last hunk, and
/// additions and deletions are counted; the old path is the first one that
/// differs from `path`.
pub fn parse_diff(events: &Vec<DiffWalkLine>, path: &str) -> (r: FileDiff)
    ensures
        r@ == parse_prefix(events@, path@, events@.len() as nat),
{
    let mut hunks: Vec<HunkInfo> = Vec::new();
    let mut is_binary = false;
    let mut additions: usize = 0;
    let mut deletions: usize = 0;
    let mut old_path: Option<String> = None;
    let mut i: usize = 0;
    assert(hunks@.map_values(|h: HunkInfo| h@) =~= Seq::<HunkView>::empty());
    while i < events.len()
        invariant
            i <= events@.len(),
            (FileDiffView {
                path: path@,
                old_path: opt_chars(old_path),
                hunks: hunks@.map_values(|h: HunkInfo| h@),
                is_binary,
                additions,
                deletions,
            }) == parse_prefix(events@, path@, i as nat),
        decreases events@.len() - i,
    {
        proof {
            lemma_parse_counts(events@, path@, i as nat);
        }
        let ev = &events[i];
        if ev.binary {
            is_binary = true;
        }
        if old_path.is_none() {
            if let Some(op) = &ev.old_file {
                if !crate::git::branch::str_eq(op.as_str(), path) {
                    old_path = Some(op.clone());
                }
            }
        }
        if ev.origin == 'F' {
        } else if ev.origin == 'H' {
            if let Some(h) = &ev.hunk {
                let text = from_utf8_lossy(h.header.as_slice());
                let header = trim(text.as_str());
                let ghost h0 = hunks@;
                hunks.push(hunk_of(h, header));
                assert(hunks@.map_values(|x: HunkInfo| x@) =~= h0.map_values(|x: HunkInfo| x@).push(
                    hunk_view_of(*h, trimmed(lossy_utf8(h.header@))),
                ));
            }
        } else {
            let t = type_of_origin(ev.origin);
            if t == DiffLineType::Addition {
                additions = additions + 1;
            } else if t == DiffLineType::Deletion {
                deletions = deletions + 1;
            }
            push_to_last(&mut hunks, line_of(ev, t));
        }
        i = i + 1;
    }
    FileDiff { path: path.to_owned(), old_path, hunks, is_binary, additions, deletions }
}


/// The kind of a walked line when collecting all files: hunk and file
/// header lines are kept as headers.
pub open spec fn walk_type(origin: char) -> DiffLineType {
    if origin == '+' {
        DiffLineType::Addition
    } else if origin == '-' {
        DiffLineType::Deletion
    } else if origin == 'H' || origin == 'F' {
        DiffLineType::HunkHeader
    } else if origin == 'B' {
        DiffLineType::Binary
    } else {
        DiffLineType::Context
    }
}

/// The path a walked line belongs to: the new side's, else the old side's,
/// else empty.
pub open spec fn walk_path(ev: DiffWalkLine) -> Seq<char> {
    match ev.new_file {
        Some(p) => p@,
        None => match ev.old_file {
            Some(p) => p@,
            None => Seq::empty(),
        },
    }
}

/// The new, empty diff of the file a walked line starts.
pub open spec fn new_file_view(ev: DiffWalkLine) -> FileDiffView {
    let path = walk_path(ev);
    FileDiffView {
        path,
        old_path: match ev.old_file {
            Some(o) => if o@ == path { None } else { Some(o@) },
            None => None,
        },
        hunks: Seq::empty(),
        is_binary: ev.binary,
        additions: 0,
        deletions: 0,
    }
}

/// The diff of one file after a walked line was added to it.
pub open spec fn file_step(file: FileDiffView, ev: DiffWalkLine) -> FileDiffView {
    let f1 = match ev.hunk {
        Some(h) => {
            let hdr = trimmed_end(lossy_utf8(h.header@));
            if file.hunks.len() == 0 || file.hunks.last().header != hdr {
                FileDiffView { hunks: file.hunks.push(hunk_view_of(h, hdr)), ..file }
            } else {
                file
            }
        },
        None => file,
    };
    let t = walk_type(ev.origin);
    let f2 = FileDiffView {
        additions: if t == DiffLineType::Addition { (f1.additions + 1) as usize } else { f1.additions },
        deletions: if t == DiffLineType::Deletion { (f1.deletions + 1) as usize } else { f1.deletions },
        ..f1
    };
    if ev.hunk.is_some() {
        FileDiffView { hunks: add_to_last(f2.hunks, line_view_of(ev, t)), ..f2 }
    } else {
        f2
    }
}

/// The diffs of all files after the first `n` lines of a walk: a line
/// whose path differs from the last file's starts a new file.
pub open spec fn collect_prefix(events: Seq<DiffWalkLine>, n: nat) -> Seq<FileDiffView>
    decreases n,
{
    if n == 0 {
        Seq::empty()
    } else {
        let files = collect_prefix(events, (n - 1) as nat);
        let ev = events[n - 1];
        let f0 = if files.len() == 0 || files.last().path != walk_path(ev) {
            files.push(new_file_view(ev))
        } else {
            files
        };
        f0.update(f0.len() - 1, file_step(f0.last(), ev))
    }
}

proof fn lemma_collect_counts(events: Seq<DiffWalkLine>, n: nat)
    requires
        n <= events.len(),
    ensures
        forall|k: int|
            0 <= k < collect_prefix(events, n).len() ==> #[trigger] collect_prefix(events, n)[k].additions
                <= n && collect_prefix(events, n)[k].deletions <= n,
        n > 0 ==> collect_prefix(events, n).len() > 0,
    decreases n,
{
    if n > 0 {
        lemma_collect_counts(events, (n - 1) as nat);
        let files = collect_prefix(events, (n - 1) as nat);
        let ev = events[n - 1];
        let f0 = if files.len() == 0 || files.last().path != walk_path(ev) {
            files.push(new_file_view(ev))
        } else {
            files
        };
        assert(forall|k: int| 0 <= k < f0.len() ==> #[trigger] f0[k].additions <= n - 1 && f0[k].deletions <= n - 1);
        let last = file_step(f0.last(), ev);
        assert(last.additions <= n && last.deletions <= n);
        assert(collect_prefix(events, n) == f0.update(f0.len() - 1, last));
    }
}

/// The number of lines among the first `n` of the walk whose origin is `c`.
pub open spec fn origin_count(events: Seq<DiffWalkLine>, c: char, n: nat) -> nat
    decreases n,
{
    if n == 0 {
        0
    } else {
        origin_count(events, c, (n - 1) as nat) + if events[n - 1].origin == c {
            1nat
        } else {
            0nat
        }
    }
}

/// The additions of all the files.
pub open spec fn total_additions(files: Seq<FileDiffView>) -> nat
    decreases files.len(),
{
    if files.len() == 0 {
        0
    } else {
        total_additions(files.drop_last()) + files.last().additions as nat
    }
}

/// The deletions of all the files.
pub open spec fn total_deletions(files: Seq<FileDiffView>) -> nat
    decreases files.len(),
{
    if files.len() == 0 {
        0
    } else {
        total_deletions(files.drop_last()) + files.last().deletions as nat
    }
}

/// Whether every added or deleted line of the walk is reported under a
/// hunk, as in the walk of a real diff.
pub open spec fn changes_in_hunks(events: Seq<DiffWalkLine>) -> bool {
    forall|i: int|
        0 <= i < events.len() && (events[i].origin == '+' || events[i].origin == '-') ==> (
        #[trigger] events[i]).hunk.is_some()
}

/// Whether a file's counts are those of the lines its hunks hold.
pub open spec fn counts_match_hunks(f: FileDiffView) -> bool {
    &&& f.additions == hunk_lines_of_type(f.hunks, DiffLineType::Addition)
    &&& f.deletions == hunk_lines_of_type(f.hunks, DiffLineType::Deletion)
}

proof fn lemma_file_step_matches(file: FileDiffView, ev: DiffWalkLine)
    requires
        counts_match_hunks(file),
        file.additions < usize::MAX,
        file.deletions < usize::MAX,
        (ev.origin == '+' || ev.origin == '-') ==> ev.hunk.is_some(),
    ensures
        counts_match_hunks(file_step(file, ev)),
{
    let f1 = match ev.hunk {
        Some(h) => {
            let hdr = trimmed_end(lossy_utf8(h.header@));
            if file.hunks.len() == 0 || file.hunks.last().header != hdr {
                lemma_counts_push(file.hunks, hunk_view_of(h, hdr), DiffLineType::Addition);
                lemma_counts_push(file.hunks, hunk_view_of(h, hdr), DiffLineType::Deletion);
                FileDiffView { hunks: file.hunks.push(hunk_view_of(h, hdr)), ..file }
            } else {
                file
            }
        },
        None => file,
    };
    assert(counts_match_hunks(f1));
    let t = walk_type(ev.origin);
    if ev.hunk.is_some() {
        assert(f1.hunks.len() > 0);
        lemma_counts_step(f1.hunks, line_view_of(ev, t), DiffLineType::Addition);
        lemma_counts_step(f1.hunks, line_view_of(ev, t), DiffLineType::Deletion);
    }
}

proof fn lemma_totals_update(files: Seq<FileDiffView>, x: FileDiffView)
    requires
        files.len() > 0,
    ensures
        total_additions(files.update(files.len() - 1, x)) == total_additions(files) - files.last().additions
            + x.additions,
        total_deletions(files.update(files.len() - 1, x)) == total_deletions(files) - files.last().deletions
            + x.deletions,
{
    assert(files.update(files.len() - 1, x).drop_last() =~= files.drop_last());
}

proof fn lemma_totals_push(files: Seq<FileDiffView>, x: FileDiffView)
    ensures
        total_additions(files.push(x)) == total_additions(files) + x.additions,
        total_deletions(files.push(x)) == total_deletions(files) + x.deletions,
{
    assert(files.push(x).drop_last() =~= files);
}

proof fn lemma_collect_law(events: Seq<DiffWalkLine>, n: nat)
    requires
        n <= events.len(),
        events.len() < usize::MAX,
    ensures
        total_additions(collect_prefix(events, n)) == origin_count(events, '+', n),
        total_deletions(collect_prefix(events, n)) == origin_count(events, '-', n),
        changes_in_hunks(events) ==> forall|k: int|
            0 <= k < collect_prefix(events, n).len() ==> counts_match_hunks(
                #[trigger] collect_prefix(events, n)[k],
            ),
    decreases n,
{
    if n > 0 {
        let m = (n - 1) as nat;
        lemma_collect_law(events, m);
        lemma_collect_counts(events, m);
        let files = collect_prefix(events, m);
        let ev = events[m as int];
        let f0 = if files.len() == 0 || files.last().path != walk_path(ev) {
            lemma_totals_push(files, new_file_view(ev));
            files.push(new_file_view(ev))
        } else {
            files
        };
        assert(total_additions(f0) == origin_count(events, '+', m));
        assert(total_deletions(f0) == origin_count(events, '-', m));
        assert(forall|k: int| 0 <= k < f0.len() ==> #[trigger] f0[k].additions <= m && f0[k].deletions <= m);
        let last = file_step(f0.last(), ev);
        lemma_totals_update(f0, last);
        assert(collect_prefix(events, n) == f0.update(f0.len() - 1, last));
        if changes_in_hunks(events) {
            assert(forall|k: int| 0 <= k < f0.len() ==> counts_match_hunks(#[trigger] f0[k])) by {
                assert(hunk_lines_of_type(Seq::<HunkView>::empty(), DiffLineType::Addition) == 0);
                assert(hunk_lines_of_type(Seq::<HunkView>::empty(), DiffLineType::Deletion) == 0);
            }
            assert(ev == events[m as int]);
            lemma_file_step_matches(f0.last(), ev);
        }
    }
}

/// Collecting the walk of a whole diff counts every added and every deleted
/// line exactly once: the additions of all files together are the `+` lines
/// of the walk, their deletions the `-` lines. When every such line comes
/// under a hunk (the walk of a real diff), each file's additions and
/// deletions are the added and deleted lines its hunks hold.
pub proof fn law_collected_counts_match_lines(events: Seq<DiffWalkLine>)
    requires
        events.len() < usize::MAX,
    ensures
        total_additions(collect_prefix(events, events.len() as nat)) == origin_count(
            events,
            '+',
            events.len() as nat,
        ),
        total_deletions(collect_prefix(events, events.len() as nat)) == origin_count(
            events,
            '-',
            events.len() as nat,
        ),
        changes_in_hunks(events) ==> forall|k: int|
            0 <= k < collect_prefix(events, events.len() as nat).len() ==> {
                let f = #[trigger] collect_prefix(events, events.len() as nat)[k];
                &&& f.additions == hunk_lines_of_type(f.hunks, DiffLineType::Addition)
                &&& f.deletions == hunk_lines_of_type(f.hunks, DiffLineType::Deletion)
            },
{
    lemma_collect_law(events, events.len() as nat);
}

fn walk_type_of(origin: char) -> (t: DiffLineType)
    ensures
        t == walk_type(origin),
{
    if origin == '+' {
        DiffLineType::Addition
    } else if origin == '-' {
        DiffLineType::Deletion
    } else if origin == 'H' || origin == 'F' {
        DiffLineType::HunkHeader
    } else if origin == 'B' {
        DiffLineType::Binary
    } else {
        DiffLineType::Context
    }
}

fn walk_path_of(ev: &DiffWalkLine) -> (r: String)
    ensures
        r@ == walk_path(*ev),
{
    match &ev.new_file {
        Some(p) => p.clone(),
        None => match &ev.old_file {
            Some(p) => p.clone(),
            None => String::new(),
        },
    }
}

fn file_step_exec(file: &mut FileDiff, ev: &DiffWalkLine)
    requires
        old(file).additions < usize::MAX,
        old(file).deletions < usize::MAX,
    ensures
        final(file)@ == file_step(old(file)@, *ev),
{
    if let Some(h) = &ev.hunk {
        let text = from_utf8_lossy(h.header.as_slice());
        let header = trim_end(text.as_str());
        let n = file.hunks.len();
        let needs_new = if n == 0 {
            true
        } else {
            assert(file.hunks@[n - 1]@ == file@.hunks.last());
            !crate::git::branch::str_eq(file.hunks[n - 1].header.as_str(), header.as_str())
        };
        if needs_new {
            let ghost h0 = file.hunks@;
            file.hunks.push(hunk_of(h, header));
            assert(file.hunks@.map_values(|x: HunkInfo| x@) =~= h0.map_values(|x: HunkInfo| x@).push(
                hunk_view_of(*h, trimmed_end(lossy_utf8(h.header@))),
            ));
        }
    }
    let t = walk_type_of(ev.origin);
    if t == DiffLineType::Addition {
        file.additions = file.additions + 1;
    } else if t == DiffLineType::Deletion {
        file.deletions = file.deletions + 1;
    }
    if ev.hunk.is_some() {
        push_to_last(&mut file.hunks, line_of(ev, t));
    }
}

fn new_file_of(ev: &DiffWalkLine, path: String) -> (r: FileDiff)
    requires
        path@ == walk_path(*ev),
    ensures
        r@ == new_file_view(*ev),
{
    let old_path = match &ev.old_file {
        Some(o) => if crate::git::branch::str_eq(o.as_str(), path.as_str()) {
            None
        } else {
            Some(o.clone())
        },
        None => None,
    };
    let r = FileDiff { path, old_path, hunks: Vec::new(), is_binary: ev.binary, additions: 0, deletions: 0 };
    assert(r@.hunks =~= Seq::<HunkView>::empty());
    r
}

/// Fold the walk of a whole diff into one `FileDiff` per file, in the
/// order the files come.
pub fn collect_file_diffs(events: &Vec<DiffWalkLine>) -> (r: Vec<FileDiff>)
    ensures
        r@.map_values(|f: FileDiff| f@) == collect_prefix(events@, events@.len() as nat),
{
    let mut files: Vec<FileDiff> = Vec::new();
    let mut i: usize = 0;
    assert(files@.map_values(|f: FileDiff| f@) =~= Seq::<FileDiffView>::empty());
    while i < events.len()
        invariant
            i <= events@.len(),
            files@.map_values(|f: FileDiff| f@) == collect_prefix(events@, i as nat),
        decreases events@.len() - i,
    {
        proof {
            lemma_collect_counts(events@, i as nat);
        }
        let ev = &events[i];
        let path = walk_path_of(ev);
        let n = files.len();
        let needs_new = if n == 0 {
            true
        } else {
            assert(files@[n - 1]@ == collect_prefix(events@, i as nat).last());
            !crate::git::branch::str_eq(files[n - 1].path.as_str(), path.as_str())
        };
        let ghost f_before = files@;
        if needs_new {
            files.push(new_file_of(ev, path));
            assert(files@.map_values(|f: FileDiff| f@) =~= f_before.map_values(|f: FileDiff| f@).push(
                new_file_view(*ev),
            ));
        }
        let ghost f0 = files@;
        let mut last = files.pop().unwrap();
        proof {
            if !needs_new {
                assert(f0.map_values(|f: FileDiff| f@)[n - 1] == last@);
            }
        }
        file_step_exec(&mut last, ev);
        files.push(last);
        assert(files@.map_values(|f: FileDiff| f@) =~= f0.map_values(|f: FileDiff| f@).update(
            f0.len() - 1,
            file_step(f0.map_values(|f: FileDiff| f@).last(), *ev),
        ));
        i = i + 1;
    }
    files
}

/// The first diff of the file at `path`, if any.
pub fn find_file_diff(files: Vec<FileDiff>, path: &str) -> (r: Option<FileDiff>)
    ensures
        match r {
            Some(f) => exists|i: int|
                0 <= i < files@.len() && #[trigger] files@[i] == f && f.path@ == path@ && forall|j: int|
                    0 <= j < i ==> files@[j].path@ != path@,
            None => forall|i: int| 0 <= i < files@.len() ==> files@[i].path@ != path@,
        },
{
    let mut fs = files;
    let mut i: usize = 0;
    while i < fs.len()
        invariant
            i <= fs@.len(),
            fs@ == files@,
            forall|j: int| 0 <= j < i ==> files@[j].path@ != path@,
        decreases fs@.len() - i,
    {
        if crate::git::branch::str_eq(fs[i].path.as_str(), path) {
            let f = fs.remove(i);
            assert(files@[i as int] == f);
            return Some(f);
        }
        i = i + 1;
    }
    None
}


/// The marker byte a patch line starts with, for the origins that have one.
pub open spec fn origin_marker(origin: char) -> Seq<u8> {
    if origin == '+' {
        seq![43u8]
    } else if origin == '-' {
        seq![45u8]
    } else if origin == ' ' {
        seq![32u8]
    } else {
        Seq::empty()
    }
}

/// The patch text of the first `n` walked lines, as bytes: each line's
/// content, after its marker when it has one.
pub open spec fn unified_bytes(events: Seq<DiffWalkLine>, n: nat) -> Seq<u8>
    decreases n,
{
    if n == 0 {
        Seq::empty()
    } else {
        unified_bytes(events, (n - 1) as nat) + origin_marker(events[n - 1].origin) + events[n - 1].content@
    }
}

/// The walk of a diff printed as a unified diff (like `git diff`).
pub fn unified_diff_string(events: &Vec<DiffWalkLine>) -> (r: String)
    ensures
        r@ == lossy_utf8(unified_bytes(events@, events@.len() as nat)),
{
    let mut buf: Vec<u8> = Vec::new();
    let mut i: usize = 0;
    while i < events.len()
        invariant
            i <= events@.len(),
            buf@ == unified_bytes(events@, i as nat),
        decreases events@.len() - i,
    {
        let ev = &events[i];
        let ghost b0 = buf@;
        if ev.origin == '+' {
            buf.push(43u8);
        } else if ev.origin == '-' {
            buf.push(45u8);
        } else if ev.origin == ' ' {
            buf.push(32u8);
        }
        assert(buf@ == b0 + origin_marker(ev.origin));
        let mut k: usize = 0;
        while k < ev.content.len()
            invariant
                k <= ev.content@.len(),
                buf@ == b0 + origin_marker(ev.origin) + ev.content@.subrange(0, k as int),
            decreases ev.content@.len() - k,
        {
            buf.push(ev.content[k]);
            k = k + 1;
        }
        assert(ev.content@.subrange(0, ev.content@.len() as int) =~= ev.content@);
        i = i + 1;
    }
    from_utf8_lossy(buf.as_slice())
}

/// A patch line: its marker, its content, and a newline if the content
/// does not end with one.
pub open spec fn patch_line(marker: char, content: Seq<char>) -> Seq<char> {
    seq![marker] + content + if content.len() > 0 && content.last() == '\n' {
        Seq::<char>::empty()
    } else {
        seq!['\n']
    }
}

/// The patch lines of the first `n` lines of a hunk; lines that are not
/// additions, deletions or context are left out.
pub open spec fn patch_body(lines: Seq<DiffLineView>, n: nat) -> Seq<char>
    decreases n,
{
    if n == 0 {
        Seq::empty()
    } else {
        let l = lines[n - 1];
        patch_body(lines, (n - 1) as nat) + match l.line_type {
            DiffLineType::Addition => patch_line('+', l.content),
            DiffLineType::Deletion => patch_line('-', l.content),
            DiffLineType::Context => patch_line(' ', l.content),
            _ => Seq::empty(),
        }
    }
}

/// The patch of one hunk of a file diff: a minimal header naming the old
/// and new paths, the hunk header, then the hunk's lines.
pub open spec fn hunk_patch(d: FileDiffView, h: HunkView) -> Seq<char> {
    "--- a/"@ + match d.old_path {
        Some(o) => o,
        None => d.path,
    } + "\n"@ + "+++ b/"@ + d.path + "\n"@ + h.header + "\n"@ + patch_body(h.lines, h.lines.len())
}

fn push_all(out: &mut Vec<char>, s: &str)
    ensures
        final(out)@ == old(out)@ + s@,
{
    let v = chars_of(s);
    let mut i: usize = 0;
    while i < v.len()
        invariant
            i <= v@.len(),
            v@ == s@,
            out@ == old(out)@ + v@.subrange(0, i as int),
        decreases v@.len() - i,
    {
        out.push(v[i]);
        i = i + 1;
    }
    assert(v@.subrange(0, v@.len() as int) =~= v@);
}

fn push_patch_line(out: &mut Vec<char>, marker: char, content: &str)
    ensures
        final(out)@ == old(out)@ + patch_line(marker, content@),
{
    let ghost o = out@;
    out.push(marker);
    push_all(out, content);
    let v = chars_of(content);
    if v.len() > 0 && v[v.len() - 1] == '\n' {
        assert(out@ =~= o + patch_line(marker, content@));
    } else {
        out.push('\n');
        assert(out@ =~= o + patch_line(marker, content@));
    }
}

/// The patch text for hunk `hunk_index` of a file diff, for `git apply`;
/// `None` when the diff has no such hunk.
pub fn generate_hunk_patch(diff: &FileDiff, hunk_index: usize) -> (r: Option<String>)
    ensures
        r.is_none() == (hunk_index >= diff.hunks@.len()),
        r.is_some() ==> r.unwrap()@ == hunk_patch(diff@, diff@.hunks[hunk_index as int]),
{
    if hunk_index >= diff.hunks.len() {
        return None;
    }
    let hunk = &diff.hunks[hunk_index];
    let mut out: Vec<char> = Vec::new();
    push_all(&mut out, "--- a/");
    match &diff.old_path {
        Some(o) => push_all(&mut out, o.as_str()),
        None => push_all(&mut out, diff.path.as_str()),
    }
    push_all(&mut out, "\n");
    push_all(&mut out, "+++ b/");
    push_all(&mut out, diff.path.as_str());
    push_all(&mut out, "\n");
    push_all(&mut out, hunk.header.as_str());
    push_all(&mut out, "\n");
    let ghost head = out@;
    let ghost lines = hunk@.lines;
    let mut i: usize = 0;
    while i < hunk.lines.len()
        invariant
            i <= hunk.lines@.len(),
            lines == hunk@.lines,
            lines.len() == hunk.lines@.len(),
            out@ == head + patch_body(lines, i as nat),
        decreases hunk.lines@.len() - i,
    {
        let l = &hunk.lines[i];
        assert(lines[i as int] == l@);
        match l.line_type {
            DiffLineType::Addition => push_patch_line(&mut out, '+', l.content.as_str()),
            DiffLineType::Deletion => push_patch_line(&mut out, '-', l.content.as_str()),
            DiffLineType::Context => push_patch_line(&mut out, ' ', l.content.as_str()),
            _ => {},
        }
        assert(out@ =~= head + patch_body(lines, (i + 1) as nat));
        i = i + 1;
    }
    assert(diff@.hunks[hunk_index as int] == hunk@);
    assert(out@ =~= hunk_patch(diff@, hunk@));
    Some(string_from_chars(&out))
}

} // verus!
