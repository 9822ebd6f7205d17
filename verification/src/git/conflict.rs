//! Merge conflicts: the entries of the index, the regions between conflict
//! markers in a file, and which blob resolves a conflict.

use vstd::prelude::*;
use vstd::utf8::{decode_utf8, valid_utf8};

use crate::git::log::strs_view;
use crate::ui::log_view::has_prefix;
use crate::util::{chars_of, string_from_chars, utf8_string};

verus! {

/// Which side of the conflict.
#[derive(Debug, Clone, Copy, PartialEq, Eq, Structural)]
pub enum ConflictSide {
    Ancestor,
    Ours,
    Theirs,
}

/// One side of an index conflict: the path bytes and the blob OID (hex).
#[derive(Debug, Clone)]
pub struct IndexSide {
    pub path: Vec<u8>,
    pub id: String,
}

/// A single conflict entry from the index.
#[derive(Debug, Clone)]
pub struct ConflictEntry {
    /// The file path.
    pub path: String,
    /// Which sides are present.
    pub sides: Vec<ConflictSide>,
    /// OID of the ancestor blob (if present).
    pub ancestor_oid: Option<String>,
    /// OID of our blob (if present).
    pub our_oid: Option<String>,
    /// OID of their blob (if present).
    pub their_oid: Option<String>,
}

/// The path of a conflict: that of our side, else theirs, else the
/// ancestor's, when it is UTF-8; `<unknown>` otherwise.
pub open spec fn conflict_path(a: Option<IndexSide>, o: Option<IndexSide>, t: Option<IndexSide>) -> Seq<char> {
    let first = if o.is_some() { o } else if t.is_some() { t } else { a };
    match first {
        Some(s) => if valid_utf8(s.path@) { decode_utf8(s.path@) } else { "<unknown>"@ },
        None => "<unknown>"@,
    }
}

/// The sides present, in the order ancestor, ours, theirs.
pub open spec fn present_sides(a: bool, o: bool, t: bool) -> Seq<ConflictSide> {
    (if a { seq![ConflictSide::Ancestor] } else { Seq::empty() }) + (if o {
        seq![ConflictSide::Ours]
    } else {
        Seq::empty()
    }) + (if t { seq![ConflictSide::Theirs] } else { Seq::empty() })
}

/// The OID of a side, if present.
pub open spec fn side_id(s: Option<IndexSide>) -> Option<String> {
    match s {
        Some(x) => Some(x.id),
        None => None,
    }
}

/// The conflict entry for the three sides of an index conflict.
pub fn conflict_entry(ancestor: Option<IndexSide>, our: Option<IndexSide>, their: Option<IndexSide>) -> (r: ConflictEntry)
    ensures
        r.path@ == conflict_path(ancestor, our, their),
        r.sides@ == present_sides(ancestor.is_some(), our.is_some(), their.is_some()),
        r.ancestor_oid == side_id(ancestor),
        r.our_oid == side_id(our),
        r.their_oid == side_id(their),
{
    let first = if our.is_some() {
        &our
    } else if their.is_some() {
        &their
    } else {
        &ancestor
    };
    let path = match first {
        Some(s) => match utf8_string(s.path.clone()) {
            Some(p) => p,
            None => "<unknown>".to_owned(),
        },
        None => "<unknown>".to_owned(),
    };
    let mut sides: Vec<ConflictSide> = Vec::new();
    if ancestor.is_some() {
        sides.push(ConflictSide::Ancestor);
    }
    if our.is_some() {
        sides.push(ConflictSide::Ours);
    }
    if their.is_some() {
        sides.push(ConflictSide::Theirs);
    }
    assert(sides@ =~= present_sides(ancestor.is_some(), our.is_some(), their.is_some()));
    ConflictEntry {
        path,
        sides,
        ancestor_oid: match ancestor {
            Some(x) => Some(x.id),
            None => None,
        },
        our_oid: match our {
            Some(x) => Some(x.id),
            None => None,
        },
        their_oid: match their {
            Some(x) => Some(x.id),
            None => None,
        },
    }
}

/// The blob OID of one side of a conflict, if that side exists.
pub fn conflict_side_oid(entry: &ConflictEntry, side: ConflictSide) -> (r: Option<String>)
    ensures
        r == match side {
            ConflictSide::Ancestor => entry.ancestor_oid,
            ConflictSide::Ours => entry.our_oid,
            ConflictSide::Theirs => entry.their_oid,
        },
{
    let o = match side {
        ConflictSide::Ancestor => &entry.ancestor_oid,
        ConflictSide::Ours => &entry.our_oid,
        ConflictSide::Theirs => &entry.their_oid,
    };
    crate::git::status::clone_opt_string(o)
}

/// How to resolve a conflict.
#[derive(Debug, Clone, Copy, PartialEq, Eq, Structural)]
pub enum ConflictResolution {
    ChooseOurs,
    ChooseTheirs,
}

/// The blob that resolves a conflict the chosen way; an error when that
/// side does not exist.
pub fn resolution_oid(entry: &ConflictEntry, resolution: ConflictResolution) -> (r: Result<String, String>)
    ensures
        match resolution {
            ConflictResolution::ChooseOurs => match entry.our_oid {
                Some(o) => r == Ok::<String, String>(o),
                None => r.is_err() && r->Err_0@ == "our side does not exist for this conflict"@,
            },
            ConflictResolution::ChooseTheirs => match entry.their_oid {
                Some(o) => r == Ok::<String, String>(o),
                None => r.is_err() && r->Err_0@ == "their side does not exist for this conflict"@,
            },
        },
{
    match resolution {
        ConflictResolution::ChooseOurs => match &entry.our_oid {
            Some(o) => Ok(o.clone()),
            None => Err("our side does not exist for this conflict".to_owned()),
        },
        ConflictResolution::ChooseTheirs => match &entry.their_oid {
            Some(o) => Ok(o.clone()),
            None => Err("their side does not exist for this conflict".to_owned()),
        },
    }
}

/// The state of a repository as far as an operation is in progress.
#[derive(Debug, Clone, Copy, PartialEq, Eq, Structural)]
pub enum RepoState {
    Clean,
    Merge,
    Revert,
    RevertSequence,
    CherryPick,
    CherryPickSequence,
    Bisect,
    Rebase,
    RebaseInteractive,
    RebaseMerge,
    ApplyMailbox,
    ApplyMailboxOrRebase,
}

/// Whether a merge is in progress.
pub fn is_merging(state: RepoState) -> (r: bool)
    ensures
        r == (state == RepoState::Merge),
{
    state == RepoState::Merge
}

/// Whether a rebase is in progress.
pub fn is_rebasing(state: RepoState) -> (r: bool)
    ensures
        r == (state == RepoState::Rebase || state == RepoState::RebaseInteractive || state
            == RepoState::RebaseMerge),
{
    matches!(state, RepoState::Rebase | RepoState::RebaseInteractive | RepoState::RebaseMerge)
}

/// Whether a cherry-pick is in progress.
pub fn is_cherry_picking(state: RepoState) -> (r: bool)
    ensures
        r == (state == RepoState::CherryPick),
{
    state == RepoState::CherryPick
}

// ---------------------------------------------------------------------------
// Conflict markers
// ---------------------------------------------------------------------------

/// Parsed conflict markers from a file.
#[derive(Debug, Clone)]
pub struct ConflictRegion {
    /// Line number (1-based) where the conflict starts (`<<<<<<<`).
    pub start_line: usize,
    /// Line number (1-based) where the conflict ends (`>>>>>>>`).
    pub end_line: usize,
    /// Lines belonging to "ours" (between `<<<<<<<` and `=======`).
    pub ours: Vec<String>,
    /// Lines belonging to "theirs" (between `=======` and `>>>>>>>`).
    pub theirs: Vec<String>,
}

/// A conflict region as plain values.
pub struct RegionView {
    pub start_line: usize,
    pub end_line: usize,
    pub ours: Seq<Seq<char>>,
    pub theirs: Seq<Seq<char>>,
}

impl View for ConflictRegion {
    type V = RegionView;

    open spec fn view(&self) -> RegionView {
        RegionView {
            start_line: self.start_line,
            end_line: self.end_line,
            ours: strs_view(self.ours@),
            theirs: strs_view(self.theirs@),
        }
    }
}

/// A line without the `\r` of a `\r\n` ending.
pub open spec fn line_body(piece: Seq<char>) -> Seq<char> {
    if piece.len() > 0 && piece.last() == '\r' {
        piece.drop_last()
    } else {
        piece
    }
}

/// The lines ended by a newline among the first `i` characters, and the
/// start of the line still open.
pub open spec fn lines_upto(s: Seq<char>, i: nat) -> (Seq<Seq<char>>, int)
    decreases i,
{
    if i == 0 {
        (Seq::empty(), 0)
    } else {
        let (ls, st) = lines_upto(s, (i - 1) as nat);
        if s[i - 1] == '\n' {
            (ls.push(line_body(s.subrange(st, i - 1))), i as int)
        } else {
            (ls, st)
        }
    }
}

/// The lines of a text as `str::lines` gives them: split at `\n` or
/// `\r\n`, without the line endings; a last line without an ending counts,
/// an empty rest after the last ending does not.
pub open spec fn text_lines(s: Seq<char>) -> Seq<Seq<char>> {
    let (ls, st) = lines_upto(s, s.len());
    if st < s.len() {
        ls.push(s.subrange(st, s.len() as int))
    } else {
        ls
    }
}

/// The state of the marker scan.
pub struct ScanState {
    pub regions: Seq<RegionView>,
    pub in_conflict: bool,
    pub in_ours: bool,
    pub start_line: usize,
    pub ours: Seq<Seq<char>>,
    pub theirs: Seq<Seq<char>>,
}

/// The scan after line `line` (numbered `lineno`).
pub open spec fn scan_step(st: ScanState, line: Seq<char>, lineno: usize) -> ScanState {
    if has_prefix(line, "<<<<<<<"@) {
        ScanState {
            in_conflict: true,
            in_ours: true,
            start_line: lineno,
            ours: Seq::empty(),
            theirs: Seq::empty(),
            ..st
        }
    } else if has_prefix(line, "======="@) && st.in_conflict {
        ScanState { in_ours: false, ..st }
    } else if has_prefix(line, ">>>>>>>"@) && st.in_conflict {
        ScanState {
            regions: st.regions.push(
                RegionView { start_line: st.start_line, end_line: lineno, ours: st.ours, theirs: st.theirs },
            ),
            in_conflict: false,
            in_ours: false,
            ..st
        }
    } else if st.in_conflict {
        if st.in_ours {
            ScanState { ours: st.ours.push(line), ..st }
        } else {
            ScanState { theirs: st.theirs.push(line), ..st }
        }
    } else {
        st
    }
}

/// The scan after the first `n` lines.
pub open spec fn scan(lines: Seq<Seq<char>>, n: nat) -> ScanState
    decreases n,
{
    if n == 0 {
        ScanState {
            regions: Seq::empty(),
            in_conflict: false,
            in_ours: false,
            start_line: 0,
            ours: Seq::empty(),
            theirs: Seq::empty(),
        }
    } else {
        scan_step(scan(lines, (n - 1) as nat), lines[n - 1], n as usize)
    }
}

/// The lines of a text (`str::lines`).
pub fn text_lines_of(content: &str) -> (r: Vec<Vec<char>>)
    ensures
        r@.map_values(|l: Vec<char>| l@) == text_lines(content@),
{
    let cs = chars_of(content);
    let mut lines: Vec<Vec<char>> = Vec::new();
    let mut cur: Vec<char> = Vec::new();
    let mut st: usize = 0;
    let mut i: usize = 0;
    assert(lines@.map_values(|l: Vec<char>| l@) =~= Seq::<Seq<char>>::empty());
    while i < cs.len()
        invariant
            i <= cs@.len(),
            cs@ == content@,
            st <= i,
            (lines@.map_values(|l: Vec<char>| l@), st as int) == lines_upto(cs@, i as nat),
            cur@ == cs@.subrange(st as int, i as int),
        decreases cs@.len() - i,
    {
        let c = cs[i];
        if c == '\n' {
            if cur.len() > 0 && cur[cur.len() - 1] == '\r' {
                cur.pop();
            }
            let ghost l0 = lines@.map_values(|l: Vec<char>| l@);
            assert(cur@ == line_body(cs@.subrange(st as int, i as int)));
            lines.push(cur);
            assert(lines@.map_values(|l: Vec<char>| l@) =~= l0.push(line_body(cs@.subrange(st as int, i as int))));
            cur = Vec::new();
            st = i + 1;
            assert(cur@ =~= cs@.subrange(st as int, (i + 1) as int));
        } else {
            cur.push(c);
            assert(cur@ =~= cs@.subrange(st as int, (i + 1) as int));
        }
        i = i + 1;
    }
    if st < cs.len() {
        let ghost l0 = lines@.map_values(|l: Vec<char>| l@);
        lines.push(cur);
        assert(lines@.map_values(|l: Vec<char>| l@) =~= l0.push(cs@.subrange(st as int, cs@.len() as int)));
    }
    lines
}

fn has_prefix_exec(s: &Vec<char>, p: &str) -> (r: bool)
    ensures
        r == has_prefix(s@, p@),
{
    let pc = chars_of(p);
    if pc.len() > s.len() {
        return false;
    }
    let mut i: usize = 0;
    while i < pc.len()
        invariant
            i <= pc@.len() <= s@.len(),
            pc@ == p@,
            forall|j: int| 0 <= j < i ==> s@[j] == pc@[j],
        decreases pc@.len() - i,
    {
        if s[i] != pc[i] {
            assert(s@.take(p@.len() as int)[i as int] != p@[i as int]);
            return false;
        }
        i = i + 1;
    }
    assert(s@.take(p@.len() as int) =~= p@);
    true
}

fn clone_lines(v: &Vec<String>) -> (r: Vec<String>)
    ensures
        r@ == v@,
{
    let mut r: Vec<String> = Vec::new();
    let mut i: usize = 0;
    while i < v.len()
        invariant
            i <= v@.len(),
            r@ == v@.subrange(0, i as int),
        decreases v@.len() - i,
    {
        r.push(v[i].clone());
        i = i + 1;
    }
    r
}

/// Parse conflict markers from the text of a file: each region from a
/// `<<<<<<<` line to the `>>>>>>>` line that closes it, with the lines
/// before its `=======` line as ours and those after as theirs (line
/// numbers from 1).
pub fn parse_conflict_markers_from_string(content: &str) -> (r: Vec<ConflictRegion>)
    ensures
        r@.map_values(|c: ConflictRegion| c@) == scan(text_lines(content@), text_lines(content@).len()).regions,
{
    let lines = text_lines_of(content);
    let ghost lv = lines@.map_values(|l: Vec<char>| l@);
    let mut regions: Vec<ConflictRegion> = Vec::new();
    let mut in_conflict = false;
    let mut in_ours = false;
    let mut start_line: usize = 0;
    let mut ours: Vec<String> = Vec::new();
    let mut theirs: Vec<String> = Vec::new();
    let mut i: usize = 0;
    assert(regions@.map_values(|c: ConflictRegion| c@) =~= Seq::<RegionView>::empty());
    assert(strs_view(ours@) =~= Seq::<Seq<char>>::empty());
    while i < lines.len()
        invariant
            i <= lines@.len(),
            lv == lines@.map_values(|l: Vec<char>| l@),
            lv == text_lines(content@),
            (ScanState {
                regions: regions@.map_values(|c: ConflictRegion| c@),
                in_conflict,
                in_ours,
                start_line,
                ours: strs_view(ours@),
                theirs: strs_view(theirs@),
            }) == scan(lv, i as nat),
        decreases lines@.len() - i,
    {
        let line = &lines[i];
        assert(lv[i as int] == line@);
        let lineno = i + 1;
        if has_prefix_exec(line, "<<<<<<<") {
            in_conflict = true;
            in_ours = true;
            start_line = lineno;
            ours = Vec::new();
            theirs = Vec::new();
            assert(strs_view(ours@) =~= Seq::<Seq<char>>::empty());
            assert(strs_view(theirs@) =~= Seq::<Seq<char>>::empty());
        } else if has_prefix_exec(line, "=======") && in_conflict {
            in_ours = false;
        } else if has_prefix_exec(line, ">>>>>>>") && in_conflict {
            let ghost r0 = regions@.map_values(|c: ConflictRegion| c@);
            regions.push(
                ConflictRegion { start_line, end_line: lineno, ours: clone_lines(&ours), theirs: clone_lines(&theirs) },
            );
            assert(regions@.map_values(|c: ConflictRegion| c@) =~= r0.push(
                RegionView { start_line, end_line: lineno, ours: strs_view(ours@), theirs: strs_view(theirs@) },
            ));
            in_conflict = false;
            in_ours = false;
        } else if in_conflict {
            let text = string_from_chars(line);
            if in_ours {
                let ghost o0 = strs_view(ours@);
                ours.push(text);
                assert(strs_view(ours@) =~= o0.push(line@));
            } else {
                let ghost t0 = strs_view(theirs@);
                theirs.push(text);
                assert(strs_view(theirs@) =~= t0.push(line@));
            }
        }
        i = i + 1;
    }
    regions
}


proof fn lemma_scan_order(lines: Seq<Seq<char>>, n: nat)
    requires
        n <= lines.len(),
        n < usize::MAX,
    ensures
        forall|k: int|
            0 <= k < scan(lines, n).regions.len() ==> 1 <= (#[trigger] scan(lines, n).regions[k]).start_line
                < scan(lines, n).regions[k].end_line <= n,
        scan(lines, n).in_conflict ==> 1 <= scan(lines, n).start_line <= n,
    decreases n,
{
    if n > 0 {
        lemma_scan_order(lines, (n - 1) as nat);
    }
}

/// Every conflict region starts on a line before the one it ends on, and
/// the regions lie within the text.
pub proof fn law_regions_well_ordered(content: Seq<char>)
    requires
        text_lines(content).len() < usize::MAX,
    ensures
        forall|k: int|
            0 <= k < scan(text_lines(content), text_lines(content).len()).regions.len() ==> 1 <= (
            #[trigger] scan(text_lines(content), text_lines(content).len()).regions[k]).start_line
                < scan(text_lines(content), text_lines(content).len()).regions[k].end_line
                <= text_lines(content).len(),
{
    lemma_scan_order(text_lines(content), text_lines(content).len());
}

/// Whether a line is a `=======` separator line.
pub open spec fn is_separator(l: Seq<char>) -> bool {
    has_prefix(l, "======="@)
}

/// The lines that are not separators, in order.
pub open spec fn without_separators(ls: Seq<Seq<char>>) -> Seq<Seq<char>>
    decreases ls.len(),
{
    if ls.len() == 0 {
        Seq::empty()
    } else if is_separator(ls.last()) {
        without_separators(ls.drop_last())
    } else {
        without_separators(ls.drop_last()).push(ls.last())
    }
}

/// Whether region `r` is the text between a `<<<<<<<` line and a
/// `>>>>>>>` line of `lines`: ours is every line after the opening marker
/// up to the first separator, theirs every later line that is not a
/// separator (and empty when there is no separator).
pub open spec fn region_of_lines(lines: Seq<Seq<char>>, r: RegionView) -> bool {
    let b = lines.subrange(r.start_line as int, r.end_line - 1);
    &&& 1 <= r.start_line < r.end_line <= lines.len()
    &&& has_prefix(lines[r.start_line - 1], "<<<<<<<"@)
    &&& has_prefix(lines[r.end_line - 1], ">>>>>>>"@)
    &&& r.ours.len() <= b.len()
    &&& r.ours == b.take(r.ours.len() as int)
    &&& forall|i: int| 0 <= i < r.ours.len() ==> !is_separator(#[trigger] r.ours[i])
    &&& if r.ours.len() < b.len() {
        &&& is_separator(b[r.ours.len() as int])
        &&& r.theirs == without_separators(b.skip(r.ours.len() as int + 1))
    } else {
        r.theirs.len() == 0
    }
}

/// What the scan after `n` lines holds of the region still open.
pub open spec fn open_region_of_lines(lines: Seq<Seq<char>>, st: ScanState, n: nat) -> bool {
    let b = lines.subrange(st.start_line as int, n as int);
    st.in_conflict ==> {
        &&& 1 <= st.start_line <= n
        &&& has_prefix(lines[st.start_line - 1], "<<<<<<<"@)
        &&& forall|i: int| 0 <= i < st.ours.len() ==> !is_separator(#[trigger] st.ours[i])
        &&& if st.in_ours {
            st.ours == b && st.theirs.len() == 0
        } else {
            &&& st.ours.len() < b.len()
            &&& st.ours == b.take(st.ours.len() as int)
            &&& is_separator(b[st.ours.len() as int])
            &&& st.theirs == without_separators(b.skip(st.ours.len() as int + 1))
        }
    }
}

proof fn lemma_scan_regions(lines: Seq<Seq<char>>, n: nat)
    requires
        n <= lines.len(),
        n < usize::MAX,
    ensures
        open_region_of_lines(lines, scan(lines, n), n),
        forall|k: int|
            0 <= k < scan(lines, n).regions.len() ==> (#[trigger] scan(lines, n).regions[k]).end_line <= n
                && region_of_lines(lines, scan(lines, n).regions[k]),
    decreases n,
{
    if n > 0 {
        let m = (n - 1) as nat;
        lemma_scan_regions(lines, m);
        lemma_scan_order(lines, m);
        let st = scan(lines, m);
        let line = lines[m as int];
        let st2 = scan(lines, n);
        assert(st2 == scan_step(st, line, n as usize));
        let bp = lines.subrange(st.start_line as int, m as int);
        let bn = lines.subrange(st.start_line as int, n as int);
        if has_prefix(line, "<<<<<<<"@) {
            assert(lines.subrange(n as int, n as int) =~= Seq::<Seq<char>>::empty());
            assert(st2.regions == st.regions);
        } else if is_separator(line) && st.in_conflict {
            assert(bn =~= bp.push(line));
            assert(bn.take(st.ours.len() as int) =~= bp.take(st.ours.len() as int));
            if st.in_ours {
                assert(bn.take(st.ours.len() as int) =~= bp);
                assert(bn.skip(st.ours.len() as int + 1) =~= Seq::<Seq<char>>::empty());
                assert(st.theirs =~= Seq::<Seq<char>>::empty());
                assert(without_separators(Seq::<Seq<char>>::empty()) == Seq::<Seq<char>>::empty());
            } else {
                let y = bn.skip(st.ours.len() as int + 1);
                assert(y =~= bp.skip(st.ours.len() as int + 1).push(line));
                assert(y.drop_last() =~= bp.skip(st.ours.len() as int + 1));
                assert(y.last() == line);
                assert(without_separators(y) == without_separators(y.drop_last()));
            }
            assert(st2.regions == st.regions);
        } else if has_prefix(line, ">>>>>>>"@) && st.in_conflict {
            let r = RegionView { start_line: st.start_line, end_line: n as usize, ours: st.ours, theirs: st.theirs };
            assert(st2.regions == st.regions.push(r));
            assert(lines.subrange(r.start_line as int, r.end_line - 1) == bp);
            if st.in_ours {
                assert(bp.take(st.ours.len() as int) =~= bp);
            }
            assert(region_of_lines(lines, r));
            assert forall|k: int| 0 <= k < st2.regions.len() implies (#[trigger] st2.regions[k]).end_line <= n
                && region_of_lines(lines, st2.regions[k]) by {
                if k < st.regions.len() {
                    assert(st2.regions[k] == st.regions[k]);
                }
            }
        } else if st.in_conflict {
            assert(!is_separator(line));
            assert(bn =~= bp.push(line));
            if st.in_ours {
                assert(st2.ours == st.ours.push(line));
                assert forall|i: int| 0 <= i < st2.ours.len() implies !is_separator(#[trigger] st2.ours[i]) by {
                    if i < st.ours.len() {
                        assert(st2.ours[i] == st.ours[i]);
                    }
                }
            } else {
                assert(bn.take(st.ours.len() as int) =~= bp.take(st.ours.len() as int));
                let y = bn.skip(st.ours.len() as int + 1);
                assert(y =~= bp.skip(st.ours.len() as int + 1).push(line));
                assert(y.drop_last() =~= bp.skip(st.ours.len() as int + 1));
                assert(y.last() == line);
                assert(without_separators(y) == without_separators(y.drop_last()).push(line));
                assert(st2.theirs == st.theirs.push(line));
            }
            assert(st2.regions == st.regions);
        } else {
            assert(st2 == st);
        }
    }
}

/// Each conflict region found in a text is made of its lines: it opens on
/// a `<<<<<<<` line and closes on a `>>>>>>>` line; ours is exactly the
/// lines after the opening marker up to the first `=======` line (all of
/// them when there is none), and theirs exactly the lines after that
/// separator up to the closing marker, without further separators.
pub proof fn law_regions_hold_their_lines(content: Seq<char>)
    requires
        text_lines(content).len() < usize::MAX,
    ensures
        forall|k: int|
            0 <= k < scan(text_lines(content), text_lines(content).len()).regions.len() ==> region_of_lines(
                text_lines(content),
                #[trigger] scan(text_lines(content), text_lines(content).len()).regions[k],
            ),
{
    lemma_scan_regions(text_lines(content), text_lines(content).len());
}

} // verus!
