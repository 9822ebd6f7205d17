//! The log panel: one row per commit with its graph, hash, HEAD marker,
//! summary, ref decorations, author and relative date.

use vstd::prelude::*;

use crate::git::branch::str_eq;
use crate::git::log::{strs_view, CommitInfo, GraphSymbol};
use crate::ui::text::{line_view, span, span_str, StyledSpan, Tone};
use crate::util::{chars_of, concat, concat3, decimal, fmt_decimal, occurs_in};

verus! {

/// The glyph and tone of a graph symbol.
pub open spec fn glyph(s: GraphSymbol) -> (Seq<char>, Tone) {
    match s {
        GraphSymbol::Commit => ("\u{25cf}"@, Tone::Yellow),
        GraphSymbol::Merge => ("\u{25cb}"@, Tone::Magenta),
        GraphSymbol::Line | GraphSymbol::Vertical => ("\u{2502}"@, Tone::DarkGray),
        GraphSymbol::Branch => ("/"@, Tone::DarkGray),
        GraphSymbol::BranchOff => ("\u{251c}"@, Tone::DarkGray),
        GraphSymbol::Horizontal => ("\u{2500}"@, Tone::DarkGray),
        GraphSymbol::MergeTop => ("\u{256d}"@, Tone::DarkGray),
        GraphSymbol::MergeBottom => ("\u{2570}"@, Tone::DarkGray),
        GraphSymbol::Empty | GraphSymbol::Space => (" "@, Tone::DarkGray),
    }
}

fn glyph_span(s: GraphSymbol) -> (r: StyledSpan)
    ensures
        r@ == glyph(s),
{
    match s {
        GraphSymbol::Commit => span_str("\u{25cf}", Tone::Yellow),
        GraphSymbol::Merge => span_str("\u{25cb}", Tone::Magenta),
        GraphSymbol::Line | GraphSymbol::Vertical => span_str("\u{2502}", Tone::DarkGray),
        GraphSymbol::Branch => span_str("/", Tone::DarkGray),
        GraphSymbol::BranchOff => span_str("\u{251c}", Tone::DarkGray),
        GraphSymbol::Horizontal => span_str("\u{2500}", Tone::DarkGray),
        GraphSymbol::MergeTop => span_str("\u{256d}", Tone::DarkGray),
        GraphSymbol::MergeBottom => span_str("\u{2570}", Tone::DarkGray),
        GraphSymbol::Empty | GraphSymbol::Space => span_str(" ", Tone::DarkGray),
    }
}

/// The tone of a ref decoration: tags magenta, remote branches (with a
/// `/`) red, local branches green.
pub open spec fn ref_tone(r: Seq<char>) -> Tone {
    if has_prefix(r, "tag:"@) || has_prefix(r, "tags/"@) {
        Tone::MagentaBold
    } else if r.contains('/') {
        Tone::RedBold
    } else {
        Tone::GreenBold
    }
}

/// Whether `s` starts with `p`.
pub open spec fn has_prefix(s: Seq<char>, p: Seq<char>) -> bool {
    p.len() <= s.len() && s.take(p.len() as int) == p
}

fn starts_with(s: &Vec<char>, p: &str) -> (r: bool)
    ensures
        r == has_prefix(s@, p@),
{
    let pc = chars_of(p);
    if pc.len() > s.len() {
        return false;
    }
    let mut i: usize = 0;
    while i < pc.len()
        invariant
            i <= pc@.len() <= s@.len(),
            pc@ == p@,
            forall|j: int| 0 <= j < i ==> s@[j] == pc@[j],
        decreases pc@.len() - i,
    {
        if s[i] != pc[i] {
            assert(s@.take(p@.len() as int)[i as int] != p@[i as int]);
            return false;
        }
        i = i + 1;
    }
    assert(s@.take(p@.len() as int) =~= p@);
    true
}

fn has_slash(s: &Vec<char>) -> (r: bool)
    ensures
        r == s@.contains('/'),
{
    let mut i: usize = 0;
    while i < s.len()
        invariant
            i <= s@.len(),
            forall|j: int| 0 <= j < i ==> s@[j] != '/',
        decreases s@.len() - i,
    {
        if s[i] == '/' {
            assert(s@[i as int] == '/');
            return true;
        }
        i = i + 1;
    }
    false
}

fn ref_tone_of(r: &str) -> (t: Tone)
    ensures
        t == ref_tone(r@),
{
    let cs = chars_of(r);
    if starts_with(&cs, "tag:") || starts_with(&cs, "tags/") {
        Tone::MagentaBold
    } else if has_slash(&cs) {
        Tone::RedBold
    } else {
        Tone::GreenBold
    }
}

/// Whether a commit is the HEAD commit (by OID; never for an empty one).
pub open spec fn is_head_commit(c: CommitInfo, head_oid: Seq<char>) -> bool {
    head_oid.len() > 0 && c.oid@ == head_oid
}

/// The row of a commit in the log panel.
pub open spec fn log_row(c: CommitInfo, head_oid: Seq<char>) -> Seq<(Seq<char>, Tone)> {
    let head = is_head_commit(c, head_oid);
    c.graph@.map_values(|g: GraphSymbol| glyph(g)) + seq![
        (" "@, Tone::Plain),
        (c.short_oid@, if head { Tone::YellowBold } else { Tone::Yellow }),
        (" "@, Tone::Plain),
    ] + (if head { seq![("(HEAD) "@, Tone::CyanBold)] } else { Seq::empty() }) + seq![
        (c.summary@, Tone::White),
    ] + strs_view(c.refs@).map_values(|r: Seq<char>| (" ("@ + r + ")"@, ref_tone(r))) + seq![
        (" <"@ + c.author@ + "> "@ + c.relative_date@, Tone::DarkGray),
    ]
}

fn push_span(r: &mut Vec<StyledSpan>, s: StyledSpan)
    ensures
        line_view(final(r)@) == line_view(old(r)@).push(s@),
{
    let ghost o = line_view(r@);
    r.push(s);
    assert(line_view(r@) =~= o.push(s@));
}

/// The row of a commit in the log panel.
pub fn log_line(c: &CommitInfo, head_oid: &str) -> (r: Vec<StyledSpan>)
    ensures
        line_view(r@) == log_row(*c, head_oid@),
{
    let head = !head_oid.is_empty() && str_eq(c.oid.as_str(), head_oid);
    let mut r: Vec<StyledSpan> = Vec::new();
    let mut i: usize = 0;
    let ghost gv = c.graph@.map_values(|g: GraphSymbol| glyph(g));
    while i < c.graph.len()
        invariant
            i <= c.graph@.len(),
            gv == c.graph@.map_values(|g: GraphSymbol| glyph(g)),
            line_view(r@) == gv.subrange(0, i as int),
        decreases c.graph@.len() - i,
    {
        push_span(&mut r, glyph_span(c.graph[i]));
        assert(gv.subrange(0, i + 1) =~= gv.subrange(0, i as int).push(gv[i as int]));
        i = i + 1;
    }
    assert(gv.subrange(0, gv.len() as int) =~= gv);
    push_span(&mut r, span_str(" ", Tone::Plain));
    push_span(&mut r, span(c.short_oid.clone(), if head { Tone::YellowBold } else { Tone::Yellow }));
    push_span(&mut r, span_str(" ", Tone::Plain));
    if head {
        push_span(&mut r, span_str("(HEAD) ", Tone::CyanBold));
    }
    push_span(&mut r, span(c.summary.clone(), Tone::White));
    let ghost before_refs = line_view(r@);
    let ghost rv = strs_view(c.refs@).map_values(|x: Seq<char>| (" ("@ + x + ")"@, ref_tone(x)));
    let mut k: usize = 0;
    while k < c.refs.len()
        invariant
            k <= c.refs@.len(),
            rv == strs_view(c.refs@).map_values(|x: Seq<char>| (" ("@ + x + ")"@, ref_tone(x))),
            line_view(r@) == before_refs + rv.subrange(0, k as int),
        decreases c.refs@.len() - k,
    {
        let name = &c.refs[k];
        let t = ref_tone_of(name.as_str());
        push_span(&mut r, span(concat3(" (", name.as_str(), ")"), t));
        assert(rv.subrange(0, k + 1) =~= rv.subrange(0, k as int).push(rv[k as int]));
        k = k + 1;
    }
    assert(rv.subrange(0, rv.len() as int) =~= rv);
    let mut tail = concat3(" <", c.author.as_str(), "> ");
    vstd::string::StringExecFns::append(&mut tail, c.relative_date.as_str());
    push_span(&mut r, span(tail, Tone::DarkGray));
    assert(line_view(r@) =~= log_row(*c, head_oid@));
    r
}

/// The title of the log panel.
pub fn log_title(n: usize) -> (r: String)
    ensures
        r@ == " LOG ("@ + decimal(n as nat) + ") "@,
{
    let d = fmt_decimal(n as u64);
    concat3(" LOG (", d.as_str(), ") ")
}

} // verus!
