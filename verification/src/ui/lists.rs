//! The rows of the list panels: branches, staged files, changes and stashes.

use vstd::prelude::*;

use crate::git::branch::BranchInfo;
use crate::git::stash::StashInfo;
use crate::git::status::{FileStatus, StatusType};
use crate::ui::text::{line_view, lines_view, span, span_str, StyledSpan, Tone};
use crate::util::{concat, concat3, decimal, fmt_decimal};

verus! {

/// The title of a list panel: its label and the number of entries.
pub open spec fn list_title_text(label: Seq<char>, n: nat) -> Seq<char> {
    " "@ + label + " ("@ + decimal(n) + ") "@
}

/// The title of a list panel, such as ` BRANCHES (3) `.
pub fn list_title(label: &str, n: usize) -> (r: String)
    ensures
        r@ == list_title_text(label@, n as nat),
{
    let d = fmt_decimal(n as u64);
    let mut s = concat3(" ", label, " (");
    vstd::string::StringExecFns::append(&mut s, d.as_str());
    vstd::string::StringExecFns::append(&mut s, ") ");
    s
}

/// The single row of an empty list panel.
pub open spec fn empty_rows(note: Seq<char>) -> Seq<Seq<(Seq<char>, Tone)>> {
    seq![seq![(note, Tone::DarkGray)]]
}

fn empty_lines(note: &str) -> (r: Vec<Vec<StyledSpan>>)
    ensures
        lines_view(r@) == empty_rows(note@),
{
    let r = vec![vec![span_str(note, Tone::DarkGray)]];
    assert(line_view(r@[0]@) =~= seq![(note@, Tone::DarkGray)]);
    assert(lines_view(r@) =~= empty_rows(note@));
    r
}

// ---------------------------------------------------------------------------
// Branches
// ---------------------------------------------------------------------------

/// The tone of a branch name: the current branch green and bold, remote
/// ones magenta, others white.
pub open spec fn branch_tone(b: BranchInfo) -> Tone {
    if b.is_current {
        Tone::GreenBold
    } else if b.is_remote {
        Tone::Magenta
    } else {
        Tone::White
    }
}

/// The row of a branch: a bullet for the current one, the name, and its
/// upstream with the commits ahead and behind when it tracks one.
pub open spec fn branch_row(b: BranchInfo) -> Seq<(Seq<char>, Tone)> {
    let t = branch_tone(b);
    seq![(if b.is_current { "\u{25cf} "@ } else { "  "@ }, t), (b.name@, t)] + match b.upstream {
        Some(u) => seq![(" -> "@ + u@, Tone::DarkGray)] + (if b.ahead > 0 {
            seq![(" \u{2191}"@ + decimal(b.ahead as nat), Tone::Green)]
        } else {
            Seq::empty()
        }) + (if b.behind > 0 {
            seq![(" \u{2193}"@ + decimal(b.behind as nat), Tone::Red)]
        } else {
            Seq::empty()
        }),
        None => Seq::empty(),
    }
}

/// The rows of the branch panel.
pub open spec fn branch_rows(bs: Seq<BranchInfo>) -> Seq<Seq<(Seq<char>, Tone)>> {
    if bs.len() == 0 {
        empty_rows("  (no branches)"@)
    } else {
        bs.map_values(|b: BranchInfo| branch_row(b))
    }
}

fn push_span(r: &mut Vec<StyledSpan>, s: StyledSpan)
    ensures
        line_view(final(r)@) == line_view(old(r)@).push(s@),
{
    let ghost o = line_view(r@);
    r.push(s);
    assert(line_view(r@) =~= o.push(s@));
}

/// The row of one branch (see [`branch_row`]).
pub fn branch_line(b: &BranchInfo) -> (r: Vec<StyledSpan>)
    ensures
        line_view(r@) == branch_row(*b),
{
    let t = if b.is_current {
        Tone::GreenBold
    } else if b.is_remote {
        Tone::Magenta
    } else {
        Tone::White
    };
    let mut r: Vec<StyledSpan> = Vec::new();
    push_span(&mut r, span_str(if b.is_current { "\u{25cf} " } else { "  " }, t));
    push_span(&mut r, span(b.name.clone(), t));
    if let Some(u) = &b.upstream {
        push_span(&mut r, span(concat(" -> ", u.as_str()), Tone::DarkGray));
        if b.ahead > 0 {
            let d = fmt_decimal(b.ahead as u64);
            push_span(&mut r, span(concat(" \u{2191}", d.as_str()), Tone::Green));
        }
        if b.behind > 0 {
            let d = fmt_decimal(b.behind as u64);
            push_span(&mut r, span(concat(" \u{2193}", d.as_str()), Tone::Red));
        }
    }
    assert(line_view(r@) =~= branch_row(*b));
    r
}

fn push_line(out: &mut Vec<Vec<StyledSpan>>, row: Vec<StyledSpan>)
    ensures
        lines_view(final(out)@) == lines_view(old(out)@).push(line_view(row@)),
{
    let ghost o = lines_view(out@);
    out.push(row);
    assert(lines_view(out@) =~= o.push(line_view(row@)));
}

/// The rows of the branch panel (see [`branch_rows`]).
pub fn branch_lines(bs: &Vec<BranchInfo>) -> (r: Vec<Vec<StyledSpan>>)
    ensures
        lines_view(r@) == branch_rows(bs@),
{
    if bs.len() == 0 {
        return empty_lines("  (no branches)");
    }
    let ghost want = bs@.map_values(|b: BranchInfo| branch_row(b));
    let mut out: Vec<Vec<StyledSpan>> = Vec::new();
    let mut i: usize = 0;
    while i < bs.len()
        invariant
            i <= bs@.len(),
            want == bs@.map_values(|b: BranchInfo| branch_row(b)),
            lines_view(out@) == want.subrange(0, i as int),
        decreases bs@.len() - i,
    {
        push_line(&mut out, branch_line(&bs[i]));
        assert(want.subrange(0, i + 1) =~= want.subrange(0, i as int).push(want[i as int]));
        i = i + 1;
    }
    assert(want.subrange(0, want.len() as int) =~= want);
    out
}

// ---------------------------------------------------------------------------
// Staged files and changes
// ---------------------------------------------------------------------------

/// The colour of a file by the kind of its change.
pub open spec fn status_tone(s: StatusType) -> Tone {
    match s {
        StatusType::New | StatusType::Added => Tone::Green,
        StatusType::Modified => Tone::Yellow,
        StatusType::Deleted => Tone::Red,
        StatusType::Renamed | StatusType::Copied => Tone::Blue,
        StatusType::TypeChange | StatusType::Conflicted => Tone::Magenta,
        StatusType::Untracked => Tone::Gray,
    }
}

fn status_tone_of(s: StatusType) -> (t: Tone)
    ensures
        t == status_tone(s),
{
    match s {
        StatusType::New | StatusType::Added => Tone::Green,
        StatusType::Modified => Tone::Yellow,
        StatusType::Deleted => Tone::Red,
        StatusType::Renamed | StatusType::Copied => Tone::Blue,
        StatusType::TypeChange | StatusType::Conflicted => Tone::Magenta,
        StatusType::Untracked => Tone::Gray,
    }
}

/// The row of a staged file: a check mark and the path, in the colour of
/// its change.
pub open spec fn staged_row(f: FileStatus) -> Seq<(Seq<char>, Tone)> {
    let t = status_tone(f.status);
    seq![("\u{2713} "@, t), (f.path@, t)]
}

/// The rows of the staged panel.
pub open spec fn staged_rows(fs: Seq<FileStatus>) -> Seq<Seq<(Seq<char>, Tone)>> {
    if fs.len() == 0 {
        empty_rows("  (no staged files)"@)
    } else {
        fs.map_values(|f: FileStatus| staged_row(f))
    }
}

/// The letter and bold colour that mark a change in the changes panel.
pub open spec fn change_mark(s: StatusType) -> (Seq<char>, Tone) {
    match s {
        StatusType::Modified => ("M"@, Tone::Yellow),
        StatusType::New | StatusType::Added => ("A"@, Tone::Green),
        StatusType::Deleted => ("D"@, Tone::Red),
        StatusType::Untracked => ("?"@, Tone::Gray),
        StatusType::Conflicted => ("C"@, Tone::Magenta),
        StatusType::Renamed => ("R"@, Tone::Blue),
        StatusType::Copied => ("C"@, Tone::Blue),
        StatusType::TypeChange => ("T"@, Tone::Magenta),
    }
}

/// The bold form of a colour.
pub open spec fn bold(t: Tone) -> Tone {
    match t {
        Tone::Yellow => Tone::YellowBold,
        Tone::Green => Tone::GreenBold,
        Tone::Red => Tone::RedBold,
        Tone::Gray => Tone::GrayBold,
        Tone::Magenta => Tone::MagentaBold,
        Tone::Blue => Tone::BlueBold,
        _ => t,
    }
}

/// The row of a changed file: its letter in bold, then the path.
pub open spec fn change_row(f: FileStatus) -> Seq<(Seq<char>, Tone)> {
    let (m, t) = change_mark(f.status);
    seq![(m + " "@, bold(t)), (f.path@, t)]
}

/// The rows of the changes panel: the unstaged files, then the untracked.
pub open spec fn change_rows(unstaged: Seq<FileStatus>, untracked: Seq<FileStatus>) -> Seq<Seq<(Seq<char>, Tone)>> {
    if unstaged.len() + untracked.len() == 0 {
        empty_rows("  (working tree clean)"@)
    } else {
        (unstaged + untracked).map_values(|f: FileStatus| change_row(f))
    }
}

/// The row of one staged file (see [`staged_row`]).
pub fn staged_line(f: &FileStatus) -> (r: Vec<StyledSpan>)
    ensures
        line_view(r@) == staged_row(*f),
{
    let t = status_tone_of(f.status);
    let r = vec![span_str("\u{2713} ", t), span(f.path.clone(), t)];
    assert(line_view(r@) =~= staged_row(*f));
    r
}

/// The row of one changed file (see [`change_row`]).
pub fn change_line(f: &FileStatus) -> (r: Vec<StyledSpan>)
    ensures
        line_view(r@) == change_row(*f),
{
    let (m, t, b) = match f.status {
        StatusType::Modified => ("M ", Tone::Yellow, Tone::YellowBold),
        StatusType::New | StatusType::Added => ("A ", Tone::Green, Tone::GreenBold),
        StatusType::Deleted => ("D ", Tone::Red, Tone::RedBold),
        StatusType::Untracked => ("? ", Tone::Gray, Tone::GrayBold),
        StatusType::Conflicted => ("C ", Tone::Magenta, Tone::MagentaBold),
        StatusType::Renamed => ("R ", Tone::Blue, Tone::BlueBold),
        StatusType::Copied => ("C ", Tone::Blue, Tone::BlueBold),
        StatusType::TypeChange => ("T ", Tone::Magenta, Tone::MagentaBold),
    };
    proof {
        reveal_strlit("M ");
        reveal_strlit("A ");
        reveal_strlit("D ");
        reveal_strlit("? ");
        reveal_strlit("C ");
        reveal_strlit("R ");
        reveal_strlit("T ");
        reveal_strlit("M");
        reveal_strlit("A");
        reveal_strlit("D");
        reveal_strlit("?");
        reveal_strlit("C");
        reveal_strlit("R");
        reveal_strlit("T");
        reveal_strlit(" ");
    }
    let r = vec![span_str(m, b), span(f.path.clone(), t)];
    assert(m@ == change_mark(f.status).0 + " "@);
    assert(line_view(r@) =~= change_row(*f));
    r
}

/// The rows of the staged panel (see [`staged_rows`]).
pub fn staged_lines(fs: &Vec<FileStatus>) -> (r: Vec<Vec<StyledSpan>>)
    ensures
        lines_view(r@) == staged_rows(fs@),
{
    if fs.len() == 0 {
        return empty_lines("  (no staged files)");
    }
    let ghost want = fs@.map_values(|f: FileStatus| staged_row(f));
    let mut out: Vec<Vec<StyledSpan>> = Vec::new();
    let mut i: usize = 0;
    while i < fs.len()
        invariant
            i <= fs@.len(),
            want == fs@.map_values(|f: FileStatus| staged_row(f)),
            lines_view(out@) == want.subrange(0, i as int),
        decreases fs@.len() - i,
    {
        push_line(&mut out, staged_line(&fs[i]));
        assert(want.subrange(0, i + 1) =~= want.subrange(0, i as int).push(want[i as int]));
        i = i + 1;
    }
    assert(want.subrange(0, want.len() as int) =~= want);
    out
}

/// The rows of the changes panel (see [`change_rows`]).
pub fn change_lines(unstaged: &Vec<FileStatus>, untracked: &Vec<FileStatus>) -> (r: Vec<Vec<StyledSpan>>)
    ensures
        lines_view(r@) == change_rows(unstaged@, untracked@),
{
    if unstaged.len() == 0 && untracked.len() == 0 {
        return empty_lines("  (working tree clean)");
    }
    let ghost all = unstaged@ + untracked@;
    let ghost want = all.map_values(|f: FileStatus| change_row(f));
    let mut out: Vec<Vec<StyledSpan>> = Vec::new();
    let mut i: usize = 0;
    while i < unstaged.len()
        invariant
            i <= unstaged@.len(),
            all == unstaged@ + untracked@,
            want == all.map_values(|f: FileStatus| change_row(f)),
            lines_view(out@) == want.subrange(0, i as int),
        decreases unstaged@.len() - i,
    {
        push_line(&mut out, change_line(&unstaged[i]));
        assert(all[i as int] == unstaged@[i as int]);
        assert(want.subrange(0, i + 1) =~= want.subrange(0, i as int).push(want[i as int]));
        i = i + 1;
    }
    let mut k: usize = 0;
    while k < untracked.len()
        invariant
            k <= untracked@.len(),
            all == unstaged@ + untracked@,
            want == all.map_values(|f: FileStatus| change_row(f)),
            lines_view(out@) == want.subrange(0, unstaged@.len() + k),
        decreases untracked@.len() - k,
    {
        push_line(&mut out, change_line(&untracked[k]));
        assert(all[unstaged@.len() + k] == untracked@[k as int]);
        assert(want.subrange(0, unstaged@.len() + k + 1) =~= want.subrange(0, unstaged@.len() + k).push(
            want[unstaged@.len() + k],
        ));
        k = k + 1;
    }
    assert(want.subrange(0, want.len() as int) =~= want);
    out
}

/// The changes row drawn highlighted: the selected one, while the panel
/// has the focus.
pub fn highlighted_change(selected: Option<usize>, focused: bool) -> (r: Option<usize>)
    ensures
        r == if focused { selected } else { None },
{
    if focused { selected } else { None }
}

// ---------------------------------------------------------------------------
// Stashes
// ---------------------------------------------------------------------------

/// The row of a stash: its name `stash@{i}` and its message.
pub open spec fn stash_row(s: StashInfo) -> Seq<(Seq<char>, Tone)> {
    seq![("stash@{"@ + decimal(s.index as nat) + "} "@, Tone::Yellow), (s.message@, Tone::White)]
}

/// The rows of the stash panel.
pub open spec fn stash_rows(ss: Seq<StashInfo>) -> Seq<Seq<(Seq<char>, Tone)>> {
    if ss.len() == 0 {
        empty_rows("  (no stashes)"@)
    } else {
        ss.map_values(|s: StashInfo| stash_row(s))
    }
}

/// The row of one stash (see [`stash_row`]).
pub fn stash_line(s: &StashInfo) -> (r: Vec<StyledSpan>)
    ensures
        line_view(r@) == stash_row(*s),
{
    let d = fmt_decimal(s.index as u64);
    let r = vec![span(concat3("stash@{", d.as_str(), "} "), Tone::Yellow), span(s.message.clone(), Tone::White)];
    assert(line_view(r@) =~= stash_row(*s));
    r
}

/// The rows of the stash panel (see [`stash_rows`]).
pub fn stash_lines(ss: &Vec<StashInfo>) -> (r: Vec<Vec<StyledSpan>>)
    ensures
        lines_view(r@) == stash_rows(ss@),
{
    if ss.len() == 0 {
        return empty_lines("  (no stashes)");
    }
    let ghost want = ss@.map_values(|s: StashInfo| stash_row(s));
    let mut out: Vec<Vec<StyledSpan>> = Vec::new();
    let mut i: usize = 0;
    while i < ss.len()
        invariant
            i <= ss@.len(),
            want == ss@.map_values(|s: StashInfo| stash_row(s)),
            lines_view(out@) == want.subrange(0, i as int),
        decreases ss@.len() - i,
    {
        push_line(&mut out, stash_line(&ss[i]));
        assert(want.subrange(0, i + 1) =~= want.subrange(0, i as int).push(want[i as int]));
        i = i + 1;
    }
    assert(want.subrange(0, want.len() as int) =~= want);
    out
}

} // verus!
