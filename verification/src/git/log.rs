//! The commit log: graph lanes, ref decorations and relative dates.

use vstd::prelude::*;

use crate::git::branch::str_eq;
use crate::git::status::opt_chars;
use crate::util::{concat, decimal, fmt_decimal, string_from_chars, substring};
use vstd::utf8::{encode_utf8, is_char_boundary};

verus! {

/// Symbol used in the graph column for log display.
#[derive(Debug, Clone, Copy, PartialEq, Eq, Structural)]
pub enum GraphSymbol {
    /// The commit dot itself (`*`).
    Commit,
    /// A merge line coming from the right (`\`).
    Merge,
    /// A vertical pipe connecting parent/child (`|`).
    Line,
    /// Alias for `Line` used by UI.
    Vertical,
    /// A branch line going to the right (`/`).
    Branch,
    /// Branch off (T-junction).
    BranchOff,
    /// Horizontal connector.
    Horizontal,
    /// Merge top (top-left curve).
    MergeTop,
    /// Merge bottom (bottom-left curve).
    MergeBottom,
    /// Empty space.
    Empty,
    /// Alias for `Empty` used by UI.
    Space,
}

/// Information about a single commit in the log.
#[derive(Debug, Clone)]
pub struct CommitInfo {
    /// Full OID hex string.
    pub oid: String,
    /// Short OID (first 7 chars).
    pub short_oid: String,
    /// Alias for `short_oid` used by some UI code.
    pub short_hash: String,
    /// Commit summary (first line).
    pub summary: String,
    /// Full commit message.
    pub message: String,
    /// Author name.
    pub author: String,
    /// Author email.
    pub author_email: String,
    /// Commit timestamp as a formatted string.
    pub date: String,
    /// Relative time like "2 hours ago".
    pub relative_date: String,
    /// Refs (branches/tags) pointing at this commit.
    pub refs: Vec<String>,
    /// Graph symbols for this row, one per lane (column).
    pub graph: Vec<GraphSymbol>,
    /// Alias for `graph` used by some UI code.
    pub graph_symbols: Vec<GraphSymbol>,
    /// Number of parents (>1 means merge).
    pub parent_count: usize,
    /// Parent OID hex strings.
    pub parents: Vec<String>,
    /// Whether this commit is at HEAD.
    pub is_head: bool,
}


/// The display character of a graph symbol.
pub open spec fn symbol_char(s: GraphSymbol) -> char {
    match s {
        GraphSymbol::Commit => '*',
        GraphSymbol::Line | GraphSymbol::Vertical => '|',
        GraphSymbol::Merge | GraphSymbol::MergeTop | GraphSymbol::MergeBottom => '\\',
        GraphSymbol::Branch | GraphSymbol::BranchOff => '/',
        GraphSymbol::Horizontal => '-',
        GraphSymbol::Empty | GraphSymbol::Space => ' ',
    }
}

impl GraphSymbol {
    /// Render the symbol as a single character for display.
    pub fn as_char(&self) -> (c: char)
        ensures
            c == symbol_char(*self),
    {
        match self {
            GraphSymbol::Commit => '*',
            GraphSymbol::Line | GraphSymbol::Vertical => '|',
            GraphSymbol::Merge | GraphSymbol::MergeTop | GraphSymbol::MergeBottom => '\\',
            GraphSymbol::Branch | GraphSymbol::BranchOff => '/',
            GraphSymbol::Horizontal => '-',
            GraphSymbol::Empty | GraphSymbol::Space => ' ',
        }
    }
}

/// Render a row of graph symbols as a string, one character per symbol.
pub fn render_graph_line(symbols: &[GraphSymbol]) -> (r: String)
    ensures
        r@ == symbols@.map_values(|g: GraphSymbol| symbol_char(g)),
{
    let mut v: Vec<char> = Vec::new();
    let mut i: usize = 0;
    while i < symbols.len()
        invariant
            i <= symbols@.len(),
            v@ == symbols@.subrange(0, i as int).map_values(|g: GraphSymbol| symbol_char(g)),
        decreases symbols@.len() - i,
    {
        v.push(symbols[i].as_char());
        i = i + 1;
        assert(v@ =~= symbols@.subrange(0, i as int).map_values(|g: GraphSymbol| symbol_char(g)));
    }
    assert(symbols@.subrange(0, symbols@.len() as int) =~= symbols@);
    crate::util::string_from_chars(&v)
}

// ---------------------------------------------------------------------------
// Graph lanes
// ---------------------------------------------------------------------------

/// A lane: the commit it waits for, or free.
pub type LaneView = Option<Seq<char>>;

/// The index of the first lane from `i` on that holds `x`, or the number
/// of lanes.
pub open spec fn find_from(lanes: Seq<LaneView>, x: LaneView, i: int) -> int
    decreases lanes.len() - i,
{
    if i >= lanes.len() {
        lanes.len() as int
    } else if lanes[i] == x {
        i
    } else {
        find_from(lanes, x, i + 1)
    }
}

/// The index of the first lane that holds `x`, or the number of lanes.
pub open spec fn find_lane(lanes: Seq<LaneView>, x: LaneView) -> int {
    find_from(lanes, x, 0)
}

/// Place `oid` in the first free lane, or in a new lane at the end.
pub open spec fn allocate(lanes: Seq<LaneView>, oid: Seq<char>) -> (Seq<LaneView>, int) {
    let f = find_lane(lanes, None);
    if f < lanes.len() {
        (lanes.update(f, Some(oid)), f)
    } else {
        (lanes.push(Some(oid)), lanes.len() as int)
    }
}

/// The lane that waits for `oid`, or a newly allocated one.
pub open spec fn find_or_allocate(lanes: Seq<LaneView>, oid: Seq<char>) -> (Seq<LaneView>, int) {
    let e = find_lane(lanes, Some(oid));
    if e < lanes.len() {
        (lanes, e)
    } else {
        allocate(lanes, oid)
    }
}

/// Lanes and extra merge lanes after routing the first `k` parents of a
/// commit in lane `my`: the first parent continues in `my`, each further
/// parent joins the lane waiting for it or gets a new one.
pub open spec fn route_parents(
    lanes: Seq<LaneView>,
    my: int,
    parents: Seq<Seq<char>>,
    k: nat,
) -> (Seq<LaneView>, Seq<int>)
    decreases k,
{
    if k == 0 {
        (lanes.update(my, None), Seq::empty())
    } else {
        let (ls, extra) = route_parents(lanes, my, parents, (k - 1) as nat);
        let p = parents[k - 1];
        if k - 1 == 0 {
            (ls.update(my, Some(p)), extra)
        } else {
            let e = find_lane(ls, Some(p));
            if e < ls.len() {
                (ls, extra.push(e))
            } else {
                let (ls2, nl) = allocate(ls, p);
                (ls2, extra.push(nl))
            }
        }
    }
}

/// The row of symbols before merge lines: the commit in its lane, a line
/// in every busy lane, space elsewhere; padded to `width`.
pub open spec fn base_row(lanes: Seq<LaneView>, my: int, width: nat) -> Seq<GraphSymbol> {
    Seq::new(
        width,
        |i: int|
            if i < lanes.len() {
                if i == my {
                    GraphSymbol::Commit
                } else if lanes[i].is_some() {
                    GraphSymbol::Line
                } else {
                    GraphSymbol::Empty
                }
            } else {
                GraphSymbol::Empty
            },
    )
}

/// Mark the empty cells of `[lo, hi]` with `sym`.
pub open spec fn mark(row: Seq<GraphSymbol>, lo: int, hi: int, sym: GraphSymbol) -> Seq<GraphSymbol> {
    Seq::new(
        row.len(),
        |c: int|
            if lo <= c <= hi && row[c] == GraphSymbol::Empty {
                sym
            } else {
                row[c]
            },
    )
}

/// The row after drawing the lines to the first `k` extra merge lanes.
pub open spec fn merge_lines(row: Seq<GraphSymbol>, my: int, extra: Seq<int>, k: nat) -> Seq<GraphSymbol>
    decreases k,
{
    if k == 0 {
        row
    } else {
        let r = merge_lines(row, my, extra, (k - 1) as nat);
        let ml = extra[k - 1];
        if ml > my {
            mark(r, my + 1, ml, GraphSymbol::Merge)
        } else if ml < my {
            mark(r, ml, my - 1, GraphSymbol::Branch)
        } else {
            r
        }
    }
}

/// Lanes without their free lanes at the end.
pub open spec fn trim_free(lanes: Seq<LaneView>) -> Seq<LaneView>
    decreases lanes.len(),
{
    if lanes.len() > 0 && lanes.last().is_none() {
        trim_free(lanes.drop_last())
    } else {
        lanes
    }
}

/// One step of the graph: the lanes after a commit with its parents, and
/// the row of symbols drawn for it.
pub open spec fn graph_step(lanes: Seq<LaneView>, oid: Seq<char>, parents: Seq<Seq<char>>) -> (Seq<LaneView>, Seq<GraphSymbol>) {
    let (l1, my) = find_or_allocate(lanes, oid);
    let (l2, extra) = route_parents(l1, my, parents, parents.len());
    let row = merge_lines(base_row(l1, my, l2.len()), my, extra, extra.len());
    (trim_free(l2), row)
}


/// Lanes as plain values.
pub open spec fn lanes_view(l: Seq<Option<String>>) -> Seq<LaneView> {
    l.map_values(|o: Option<String>| opt_chars(o))
}

fn opt_eq(a: &Option<String>, b: &Option<String>) -> (r: bool)
    ensures
        r == (opt_chars(*a) == opt_chars(*b)),
{
    match (a, b) {
        (Some(x), Some(y)) => str_eq(x.as_str(), y.as_str()),
        (None, None) => true,
        _ => false,
    }
}

proof fn lemma_find_from_bounds(lanes: Seq<LaneView>, x: LaneView, i: int)
    requires
        0 <= i <= lanes.len(),
    ensures
        i <= find_from(lanes, x, i) <= lanes.len(),
        find_from(lanes, x, i) < lanes.len() ==> lanes[find_from(lanes, x, i)] == x,
        forall|j: int| i <= j < find_from(lanes, x, i) ==> lanes[j] != x,
    decreases lanes.len() - i,
{
    if i < lanes.len() && lanes[i] != x {
        lemma_find_from_bounds(lanes, x, i + 1);
    }
}

fn find_lane_exec(lanes: &Vec<Option<String>>, x: &Option<String>) -> (r: usize)
    ensures
        r == find_lane(lanes_view(lanes@), opt_chars(*x)),
{
    let ghost v = lanes_view(lanes@);
    let mut i: usize = 0;
    while i < lanes.len()
        invariant
            i <= lanes@.len(),
            v == lanes_view(lanes@),
            find_from(v, opt_chars(*x), i as int) == find_lane(v, opt_chars(*x)),
        decreases lanes@.len() - i,
    {
        assert(v[i as int] == opt_chars(lanes@[i as int]));
        if opt_eq(&lanes[i], x) {
            return i;
        }
        i = i + 1;
    }
    i
}

fn allocate_exec(lanes: &mut Vec<Option<String>>, oid: String) -> (r: usize)
    ensures
        (lanes_view(final(lanes)@), r as int) == allocate(lanes_view(old(lanes)@), oid@),
{
    let ghost v = lanes_view(lanes@);
    let f = find_lane_exec(lanes, &None);
    if f < lanes.len() {
        lanes.set(f, Some(oid));
        assert(lanes_view(lanes@) =~= v.update(f as int, Some(oid@)));
        f
    } else {
        proof {
            lemma_find_from_bounds(v, None, 0);
        }
        lanes.push(Some(oid));
        assert(lanes_view(lanes@) =~= v.push(Some(oid@)));
        lanes.len() - 1
    }
}

fn find_or_allocate_exec(lanes: &mut Vec<Option<String>>, oid: &String) -> (r: usize)
    ensures
        (lanes_view(final(lanes)@), r as int) == find_or_allocate(lanes_view(old(lanes)@), oid@),
{
    let e = find_lane_exec(lanes, &Some(oid.clone()));
    if e < lanes.len() {
        e
    } else {
        allocate_exec(lanes, oid.clone())
    }
}


/// Strings as plain values.
pub open spec fn strs_view(v: Seq<String>) -> Seq<Seq<char>> {
    v.map_values(|s: String| s@)
}

proof fn lemma_route_lengths(lanes: Seq<LaneView>, my: int, parents: Seq<Seq<char>>, k: nat)
    requires
        0 <= my < lanes.len(),
        k <= parents.len(),
    ensures
        route_parents(lanes, my, parents, k).0.len() >= lanes.len(),
        forall|j: int|
            0 <= j < route_parents(lanes, my, parents, k).1.len() ==> 0 <= #[trigger] route_parents(
                lanes,
                my,
                parents,
                k,
            ).1[j] < route_parents(lanes, my, parents, k).0.len(),
    decreases k,
{
    if k > 0 {
        lemma_route_lengths(lanes, my, parents, (k - 1) as nat);
        let (ls, extra) = route_parents(lanes, my, parents, (k - 1) as nat);
        let p = parents[k - 1];
        if k - 1 != 0 {
            lemma_find_from_bounds(ls, Some(p), 0);
            lemma_find_from_bounds(ls, None, 0);
        }
    }
}

fn route_parents_exec(lanes: &mut Vec<Option<String>>, my: usize, parents: &Vec<String>) -> (extra: Vec<usize>)
    requires
        my < old(lanes)@.len(),
    ensures
        (lanes_view(final(lanes)@), extra@.map_values(|e: usize| e as int)) == route_parents(
            lanes_view(old(lanes)@),
            my as int,
            strs_view(parents@),
            parents@.len() as nat,
        ),
{
    let ghost l0 = lanes_view(lanes@);
    let ghost ps = strs_view(parents@);
    assert(l0.len() == lanes@.len());
    lanes.set(my, None);
    assert(lanes_view(lanes@) =~= l0.update(my as int, None));
    let mut extra: Vec<usize> = Vec::new();
    let mut k: usize = 0;
    assert(extra@.map_values(|e: usize| e as int) =~= Seq::<int>::empty());
    while k < parents.len()
        invariant
            k <= parents@.len(),
            my < l0.len(),
            my < lanes@.len(),
            ps == strs_view(parents@),
            (lanes_view(lanes@), extra@.map_values(|e: usize| e as int)) == route_parents(
                l0,
                my as int,
                ps,
                k as nat,
            ),
        decreases parents@.len() - k,
    {
        proof {
            lemma_route_lengths(l0, my as int, ps, k as nat);
        }
        let p = &parents[k];
        assert(ps[k as int] == p@);
        if k == 0 {
            let ghost lv = lanes_view(lanes@);
            lanes.set(my, Some(p.clone()));
            assert(lanes_view(lanes@) =~= lv.update(my as int, Some(p@)));
        } else {
            let e = find_lane_exec(lanes, &Some(p.clone()));
            let ghost ev = extra@.map_values(|e: usize| e as int);
            if e < lanes.len() {
                extra.push(e);
                assert(extra@.map_values(|e: usize| e as int) =~= ev.push(e as int));
            } else {
                let nl = allocate_exec(lanes, p.clone());
                extra.push(nl);
                assert(extra@.map_values(|e: usize| e as int) =~= ev.push(nl as int));
            }
        }
        k = k + 1;
        proof {
            lemma_route_lengths(l0, my as int, ps, k as nat);
            assert(lanes_view(lanes@).len() == lanes@.len());
        }
    }
    extra
}

fn base_row_exec(lanes: &Vec<Option<String>>, my: usize, width: usize) -> (row: Vec<GraphSymbol>)
    ensures
        row@ == base_row(lanes_view(lanes@), my as int, width as nat),
{
    let mut row: Vec<GraphSymbol> = Vec::new();
    let mut i: usize = 0;
    while i < width
        invariant
            i <= width,
            row@ =~= base_row(lanes_view(lanes@), my as int, width as nat).subrange(0, i as int),
        decreases width - i,
    {
        let sym = if i < lanes.len() {
            if i == my {
                GraphSymbol::Commit
            } else if lanes[i].is_some() {
                GraphSymbol::Line
            } else {
                GraphSymbol::Empty
            }
        } else {
            GraphSymbol::Empty
        };
        row.push(sym);
        i = i + 1;
    }
    row
}

fn mark_exec(row: &mut Vec<GraphSymbol>, lo: usize, hi: usize, sym: GraphSymbol)
    ensures
        final(row)@ == mark(old(row)@, lo as int, hi as int, sym),
{
    let ghost r0 = row@;
    let mut c: usize = 0;
    while c < row.len()
        invariant
            c <= row@.len() == r0.len(),
            forall|j: int| 0 <= j < c ==> row@[j] == mark(r0, lo as int, hi as int, sym)[j],
            forall|j: int| c <= j < row@.len() ==> row@[j] == r0[j],
        decreases row@.len() - c,
    {
        if lo <= c && c <= hi && row[c] == GraphSymbol::Empty {
            row.set(c, sym);
        }
        c = c + 1;
    }
    assert(row@ =~= mark(r0, lo as int, hi as int, sym));
}

fn merge_lines_exec(row: &mut Vec<GraphSymbol>, my: usize, extra: &Vec<usize>)
    ensures
        final(row)@ == merge_lines(old(row)@, my as int, extra@.map_values(|e: usize| e as int), extra@.len() as nat),
{
    let ghost r0 = row@;
    let ghost ev = extra@.map_values(|e: usize| e as int);
    let mut k: usize = 0;
    while k < extra.len()
        invariant
            k <= extra@.len(),
            ev == extra@.map_values(|e: usize| e as int),
            row@ == merge_lines(r0, my as int, ev, k as nat),
        decreases extra@.len() - k,
    {
        let ml = extra[k];
        assert(ev[k as int] == ml as int);
        if ml > my {
            mark_exec(row, my + 1, ml, GraphSymbol::Merge);
        } else if ml < my {
            mark_exec(row, ml, my - 1, GraphSymbol::Branch);
        }
        k = k + 1;
    }
}

fn trim_free_exec(lanes: &mut Vec<Option<String>>)
    ensures
        lanes_view(final(lanes)@) == trim_free(lanes_view(old(lanes)@)),
{
    while lanes.len() > 0 && lanes[lanes.len() - 1].is_none()
        invariant
            trim_free(lanes_view(lanes@)) == trim_free(lanes_view(old(lanes)@)),
        decreases lanes@.len(),
    {
        let ghost v = lanes_view(lanes@);
        lanes.pop();
        assert(lanes_view(lanes@) =~= v.drop_last());
    }
}

/// One step of the graph for a commit and its parents: the lanes are
/// updated in place and the row drawn for the commit is returned.
pub fn graph_step_exec(lanes: &mut Vec<Option<String>>, oid: &String, parents: &Vec<String>) -> (row: Vec<GraphSymbol>)
    ensures
        (lanes_view(final(lanes)@), row@) == graph_step(lanes_view(old(lanes)@), oid@, strs_view(parents@)),
{
    let ghost l0 = lanes_view(lanes@);
    let my = find_or_allocate_exec(lanes, oid);
    let ghost l1 = lanes_view(lanes@);
    proof {
        lemma_find_from_bounds(l0, Some(oid@), 0);
        lemma_find_from_bounds(l0, None, 0);
        assert(lanes_view(lanes@).len() == lanes@.len());
    }
    assert(my < lanes@.len());
    let n1 = lanes.len();
    let mut row = base_row_exec(lanes, my, n1);
    let extra = route_parents_exec(lanes, my, parents);
    let ghost l2 = lanes_view(lanes@);
    proof {
        lemma_route_lengths(l1, my as int, strs_view(parents@), parents@.len() as nat);
    }
    while row.len() < lanes.len()
        invariant
            n1 <= row@.len() <= lanes@.len(),
            l2 == lanes_view(lanes@),
            l1.len() == n1,
            lanes@.len() >= n1,
            row@ =~= base_row(l1, my as int, l2.len()).subrange(0, row@.len() as int),
        decreases lanes@.len() - row@.len(),
    {
        row.push(GraphSymbol::Empty);
    }
    assert(row@ =~= base_row(l1, my as int, l2.len()));
    merge_lines_exec(&mut row, my, &extra);
    trim_free_exec(lanes);
    row
}


// ---------------------------------------------------------------------------
// Dates
// ---------------------------------------------------------------------------

/// The text of a relative time for `n` units: `"1 <unit> ago"` or
/// `"<n> <unit>s ago"`.
pub open spec fn units_ago(n: int, unit: Seq<char>) -> Seq<char> {
    if n == 1 {
        "1 "@ + unit + " ago"@
    } else {
        decimal(n as nat) + " "@ + unit + "s ago"@
    }
}

/// A duration in seconds as a human-readable relative time.
pub open spec fn relative_text(secs: int) -> Seq<char> {
    if secs < 60 {
        "just now"@
    } else if secs < 3600 {
        units_ago(secs / 60, "minute"@)
    } else if secs < 86400 {
        units_ago(secs / 3600, "hour"@)
    } else if secs < 2_592_000 {
        units_ago(secs / 86400, "day"@)
    } else if secs < 31_536_000 {
        units_ago(secs / 2_592_000, "month"@)
    } else {
        units_ago(secs / 31_536_000, "year"@)
    }
}

fn units_ago_exec(n: i64, unit: &str) -> (r: String)
    requires
        n >= 1,
    ensures
        r@ == units_ago(n as int, unit@),
{
    if n == 1 {
        crate::util::concat3("1 ", unit, " ago")
    } else {
        let num = fmt_decimal(n as u64);
        let mut s = crate::util::concat3(num.as_str(), " ", unit);
        vstd::string::StringExecFns::append(&mut s, "s ago");
        s
    }
}

/// Format a duration in whole seconds as a human-readable relative time
/// ("just now", "5 minutes ago", "1 day ago", ...).
pub fn format_relative_time(secs: i64) -> (r: String)
    ensures
        r@ == relative_text(secs as int),
{
    if secs < 60 {
        "just now".to_owned()
    } else if secs < 3600 {
        units_ago_exec(secs / 60, "minute")
    } else if secs < 86400 {
        units_ago_exec(secs / 3600, "hour")
    } else if secs < 2_592_000 {
        units_ago_exec(secs / 86400, "day")
    } else if secs < 31_536_000 {
        units_ago_exec(secs / 2_592_000, "month")
    } else {
        units_ago_exec(secs / 31_536_000, "year")
    }
}

/// The `%Y-%m-%d %H:%M` text that chrono formats for the UTC time of a
/// Unix timestamp (the Unix epoch for a timestamp out of its range).
pub uninterp spec fn commit_date_text(secs: i64) -> Seq<char>;

/// `DateTime::from_timestamp(secs, 0).unwrap_or_default().format("%Y-%m-%d %H:%M")`:
/// the commit time as text; it depends on `secs` alone.
#[verifier::external_body]
pub(crate) fn format_commit_date(secs: i64) -> (r: String)
    ensures
        r@ == commit_date_text(secs),
{
    chrono::DateTime::from_timestamp(secs, 0).unwrap_or_default().format("%Y-%m-%d %H:%M").to_string()
}

/// The whole seconds from the time of timestamp `then` to that of
/// timestamp `now`, as chrono counts them (a timestamp out of its range
/// counts as the epoch).
pub uninterp spec fn delta_secs(now: i64, then: i64) -> i64;

/// `signed_duration_since(..).num_seconds()` between the times of two Unix
/// timestamps; it depends on the two timestamps alone, and for timestamps
/// within about 34,000 years of the epoch (well inside the range of
/// `DateTime::from_timestamp`) it is their difference.
#[verifier::external_body]
pub(crate) fn seconds_between(now: i64, then: i64) -> (r: i64)
    ensures
        r == delta_secs(now, then),
        -0x100_0000_0000 <= now <= 0x100_0000_0000 && -0x100_0000_0000 <= then <= 0x100_0000_0000
            ==> r == now - then,
{
    let a = chrono::DateTime::from_timestamp(now, 0).unwrap_or_default();
    let b = chrono::DateTime::from_timestamp(then, 0).unwrap_or_default();
    a.signed_duration_since(b).num_seconds()
}

/// `Utc::now().timestamp()`: the current time as a Unix timestamp. Nothing
/// is promised of the value.
#[verifier::external_body]
pub(crate) fn utc_now_secs() -> (r: i64) {
    chrono::Utc::now().timestamp()
}

// ---------------------------------------------------------------------------
// Ref decorations
// ---------------------------------------------------------------------------

/// A reference of the repository: the commit it points at directly (none
/// for a symbolic one) and its short name (none when not UTF-8).
#[derive(Debug, Clone)]
pub struct RefEntry {
    pub target: Option<String>,
    pub name: Option<String>,
}

/// Names of the first `n` references that point at `oid`, other than `HEAD`.
pub open spec fn refs_upto(entries: Seq<RefEntry>, oid: Seq<char>, n: nat) -> Seq<Seq<char>>
    decreases n,
{
    if n == 0 {
        Seq::empty()
    } else {
        let r = refs_upto(entries, oid, (n - 1) as nat);
        let e = entries[n - 1];
        if e.target.is_some() && e.target.unwrap()@ == oid && e.name.is_some() && e.name.unwrap()@
            != "HEAD"@ {
            r.push(e.name.unwrap()@)
        } else {
            r
        }
    }
}

/// The ref decorations of commit `oid`: the references pointing at it,
/// then `HEAD` when HEAD is detached there.
pub open spec fn refs_of(entries: Seq<RefEntry>, detached_head: Option<String>, oid: Seq<char>) -> Seq<Seq<char>> {
    refs_upto(entries, oid, entries.len()) + if detached_head.is_some() && detached_head.unwrap()@ == oid {
        seq!["HEAD"@]
    } else {
        Seq::empty()
    }
}

/// The ref decorations of commit `oid`.
pub fn refs_for(entries: &Vec<RefEntry>, detached_head: &Option<String>, oid: &str) -> (r: Vec<String>)
    ensures
        strs_view(r@) == refs_of(entries@, *detached_head, oid@),
{
    let mut r: Vec<String> = Vec::new();
    let mut i: usize = 0;
    assert(strs_view(r@) =~= Seq::<Seq<char>>::empty());
    while i < entries.len()
        invariant
            i <= entries@.len(),
            strs_view(r@) == refs_upto(entries@, oid@, i as nat),
        decreases entries@.len() - i,
    {
        let e = &entries[i];
        if let Some(t) = &e.target {
            if let Some(nm) = &e.name {
                if str_eq(t.as_str(), oid) && !str_eq(nm.as_str(), "HEAD") {
                    let ghost r0 = strs_view(r@);
                    r.push(nm.clone());
                    assert(strs_view(r@) =~= r0.push(nm@));
                }
            }
        }
        i = i + 1;
    }
    if let Some(h) = detached_head {
        if str_eq(h.as_str(), oid) {
            let ghost r0 = strs_view(r@);
            r.push("HEAD".to_owned());
            assert(strs_view(r@) =~= r0 + seq!["HEAD"@]);
            return r;
        }
    }
    assert(strs_view(r@) =~= refs_of(entries@, *detached_head, oid@));
    r
}


// ---------------------------------------------------------------------------
// The log
// ---------------------------------------------------------------------------

/// A commit as read from the walk of the history, newest first.
#[derive(Debug, Clone)]
pub struct RawCommit {
    /// Full OID hex string.
    pub oid: String,
    /// Number of parents.
    pub parent_count: usize,
    /// Parent OID hex strings, in order.
    pub parents: Vec<String>,
    /// First line of the message, when it is UTF-8.
    pub summary: Option<String>,
    /// The message, when it is UTF-8.
    pub message: Option<String>,
    /// Author name, when it is UTF-8.
    pub author: Option<String>,
    /// Author email, when it is UTF-8.
    pub author_email: Option<String>,
    /// Commit time as a Unix timestamp.
    pub time: i64,
}

/// The byte length of the short form of an OID: its first seven bytes.
pub open spec fn short_len(oid: Seq<char>) -> int {
    if encode_utf8(oid).len() < 7 { encode_utf8(oid).len() as int } else { 7 }
}

/// Whether the short form of an OID ends on a character boundary (always
/// so for hexadecimal OIDs).
pub open spec fn oid_cuttable(oid: Seq<char>) -> bool {
    is_char_boundary(encode_utf8(oid), short_len(oid))
}

/// Whether every OID of a walk can be cut to its short form (so for
/// hexadecimal OIDs).
pub fn oids_cuttable(commits: &Vec<RawCommit>) -> (r: bool)
    ensures
        r == (forall|i: int| 0 <= i < commits@.len() ==> oid_cuttable(#[trigger] commits@[i].oid@)),
{
    let mut i: usize = 0;
    while i < commits.len()
        invariant
            i <= commits@.len(),
            forall|j: int| 0 <= j < i ==> oid_cuttable(#[trigger] commits@[j].oid@),
        decreases commits@.len() - i,
    {
        let s = commits[i].oid.as_str();
        let n = crate::input::text_editor::byte_len(s);
        let cut = if n < 7 { n } else { 7 };
        if !s.is_char_boundary(cut) {
            assert(!oid_cuttable(commits@[i as int].oid@));
            return false;
        }
        i = i + 1;
    }
    true
}

/// The text of an optional string, or `d`.
pub open spec fn or_text(o: Option<String>, d: Seq<char>) -> Seq<char> {
    match o {
        Some(s) => s@,
        None => d,
    }
}

/// The lanes before commit `i` of the walk.
pub open spec fn lanes_before(commits: Seq<RawCommit>, i: nat) -> Seq<LaneView>
    decreases i,
{
    if i == 0 {
        Seq::empty()
    } else {
        graph_step(
            lanes_before(commits, (i - 1) as nat),
            commits[i - 1].oid@,
            strs_view(commits[i - 1].parents@),
        ).0
    }
}

/// The graph row of commit `i` of the walk.
pub open spec fn row_of(commits: Seq<RawCommit>, i: nat) -> Seq<GraphSymbol> {
    graph_step(lanes_before(commits, i), commits[i as int].oid@, strs_view(commits[i as int].parents@)).1
}

/// Whether `ci` is the log entry of `raw`, with its ref decorations, graph
/// row, HEAD flag and the time `now` (a Unix timestamp).
pub open spec fn commit_entry(
    ci: CommitInfo,
    raw: RawCommit,
    refs: Seq<Seq<char>>,
    row: Seq<GraphSymbol>,
    is_head: bool,
    now: i64,
) -> bool {
    &&& ci.oid == raw.oid
    &&& encode_utf8(ci.short_oid@) == encode_utf8(raw.oid@).take(short_len(raw.oid@))
    &&& ci.short_hash@ == ci.short_oid@
    &&& ci.summary@ == or_text(raw.summary, Seq::empty())
    &&& ci.message@ == or_text(raw.message, Seq::empty())
    &&& ci.author@ == or_text(raw.author, "Unknown"@)
    &&& ci.author_email@ == or_text(raw.author_email, Seq::empty())
    &&& ci.date@ == commit_date_text(raw.time)
    &&& ci.relative_date@ == relative_text(delta_secs(now, raw.time) as int)
    &&& strs_view(ci.refs@) == refs
    &&& ci.graph@ == row
    &&& ci.graph_symbols@ == row
    &&& ci.parent_count == raw.parent_count
    &&& strs_view(ci.parents@) == strs_view(raw.parents@)
    &&& ci.is_head == is_head
}

/// Whether commit `oid` is the one HEAD points at (`head_oid`, none when
/// HEAD points at no commit).
pub open spec fn at_head(head_oid: Option<String>, oid: Seq<char>) -> bool {
    head_oid.is_some() && head_oid.unwrap()@ == oid
}

/// Whether `r` holds the log entries of the first commits of the walk,
/// with HEAD at `head_oid` and dates relative to `now`.
pub open spec fn log_entries(
    r: Seq<CommitInfo>,
    commits: Seq<RawCommit>,
    refs: Seq<RefEntry>,
    detached_head: Option<String>,
    head_oid: Option<String>,
    now: i64,
) -> bool {
    forall|i: int|
        0 <= i < r.len() ==> commit_entry(
            #[trigger] r[i],
            commits[i],
            refs_of(refs, detached_head, commits[i].oid@),
            row_of(commits, i as nat),
            at_head(head_oid, commits[i].oid@),
            now,
        )
}

fn text_or(o: &Option<String>, d: &str) -> (r: String)
    ensures
        r@ == match o {
            Some(s) => s@,
            None => d@,
        },
{
    match o {
        Some(s) => s.clone(),
        None => d.to_owned(),
    }
}

fn clone_strings(v: &Vec<String>) -> (r: Vec<String>)
    ensures
        r@ == v@,
{
    let mut r: Vec<String> = Vec::new();
    let mut i: usize = 0;
    while i < v.len()
        invariant
            i <= v@.len(),
            r@ == v@.subrange(0, i as int),
        decreases v@.len() - i,
    {
        r.push(v[i].clone());
        i = i + 1;
    }
    r
}

fn clone_row(v: &Vec<GraphSymbol>) -> (r: Vec<GraphSymbol>)
    ensures
        r@ == v@,
{
    let mut r: Vec<GraphSymbol> = Vec::new();
    let mut i: usize = 0;
    while i < v.len()
        invariant
            i <= v@.len(),
            r@ == v@.subrange(0, i as int),
        decreases v@.len() - i,
    {
        r.push(v[i]);
        i = i + 1;
    }
    r
}

fn commit_info_of(
    raw: &RawCommit,
    refs: Vec<String>,
    row: Vec<GraphSymbol>,
    is_head: bool,
    now: i64,
) -> (ci: CommitInfo)
    requires
        oid_cuttable(raw.oid@),
    ensures
        commit_entry(ci, *raw, strs_view(refs@), row@, is_head, now),
{
    let oid = raw.oid.clone();
    let n = crate::input::text_editor::byte_len(oid.as_str());
    let cut = if n < 7 { n } else { 7 };
    proof {
        vstd::utf8::encode_utf8_valid_utf8(oid@);
    }
    let short_oid = substring(oid.as_str(), 0, cut);
    let short_hash = short_oid.clone();
    proof {
        reveal_strlit("");
    }
    let summary = text_or(&raw.summary, "");
    let message = text_or(&raw.message, "");
    let author = text_or(&raw.author, "Unknown");
    let author_email = text_or(&raw.author_email, "");
    let date = format_commit_date(raw.time);
    let relative_date = format_relative_time(seconds_between(now, raw.time));
    let graph_symbols = clone_row(&row);
    let parents = clone_strings(&raw.parents);
    proof {
        vstd::utf8::is_char_boundary_start_end_of_seq(encode_utf8(oid@));
        assert(encode_utf8(oid@).subrange(0, cut as int) =~= encode_utf8(oid@).take(cut as int));
    }
    assert(encode_utf8(short_oid@) == encode_utf8(raw.oid@).take(short_len(raw.oid@)));
    assert(strs_view(parents@) == strs_view(raw.parents@));
    assert(summary@ == or_text(raw.summary, Seq::empty()));
    assert(message@ == or_text(raw.message, Seq::empty()));
    assert(author@ == or_text(raw.author, "Unknown"@));
    assert(author_email@ == or_text(raw.author_email, Seq::empty()));
    assert(relative_date@ == relative_text(delta_secs(now, raw.time) as int));
    assert(graph_symbols@ == row@);
    CommitInfo {
        oid,
        short_oid,
        short_hash,
        summary,
        message,
        author,
        author_email,
        date,
        relative_date,
        refs,
        graph: row,
        graph_symbols,
        parent_count: raw.parent_count,
        parents,
        is_head,
    }
}

/// Build the commit log from the walk of the history (newest first): at
/// most `max_count` entries, each with its graph row, ref decorations,
/// dates relative to `now` (a Unix timestamp), and the commit HEAD points
/// at (`head_oid`) marked as HEAD.
pub fn build_log(
    commits: &Vec<RawCommit>,
    refs: &Vec<RefEntry>,
    detached_head: &Option<String>,
    head_oid: &Option<String>,
    max_count: usize,
    now: i64,
) -> (r: Vec<CommitInfo>)
    requires
        forall|i: int| 0 <= i < commits@.len() ==> oid_cuttable(#[trigger] commits@[i].oid@),
    ensures
        r@.len() == if commits@.len() < max_count { commits@.len() } else { max_count as nat },
        forall|i: int|
            0 <= i < r@.len() ==> commit_entry(
                #[trigger] r@[i],
                commits@[i],
                refs_of(refs@, *detached_head, commits@[i].oid@),
                row_of(commits@, i as nat),
                at_head(*head_oid, commits@[i].oid@),
                now,
            ),
{
    let mut out: Vec<CommitInfo> = Vec::new();
    let mut lanes: Vec<Option<String>> = Vec::new();
    let mut i: usize = 0;
    assert(lanes_view(lanes@) =~= lanes_before(commits@, 0));
    while i < commits.len() && i < max_count
        invariant
            i <= commits@.len(),
            i <= max_count,
            out@.len() == i,
            lanes_view(lanes@) == lanes_before(commits@, i as nat),
            forall|i: int| 0 <= i < commits@.len() ==> oid_cuttable(#[trigger] commits@[i].oid@),
            forall|j: int|
                0 <= j < i ==> commit_entry(
                    #[trigger] out@[j],
                    commits@[j],
                    refs_of(refs@, *detached_head, commits@[j].oid@),
                    row_of(commits@, j as nat),
                    at_head(*head_oid, commits@[j].oid@),
                    now,
                ),
        decreases commits@.len() - i,
    {
        let c = &commits[i];
        let row = graph_step_exec(&mut lanes, &c.oid, &c.parents);
        let rs = refs_for(refs, detached_head, c.oid.as_str());
        let is_head = match head_oid {
            Some(h) => str_eq(h.as_str(), c.oid.as_str()),
            None => false,
        };
        let ci = commit_info_of(c, rs, row, is_head, now);
        out.push(ci);
        i = i + 1;
    }
    out
}

/// Build the commit log with dates relative to the current time (read
/// once); see [`build_log`].
pub fn get_log_from(
    commits: &Vec<RawCommit>,
    refs: &Vec<RefEntry>,
    detached_head: &Option<String>,
    head_oid: &Option<String>,
    max_count: usize,
) -> (r: Vec<CommitInfo>)
    requires
        forall|i: int| 0 <= i < commits@.len() ==> oid_cuttable(#[trigger] commits@[i].oid@),
    ensures
        r@.len() == if commits@.len() < max_count { commits@.len() } else { max_count as nat },
        exists|now: i64| #[trigger] log_entries(r@, commits@, refs@, *detached_head, *head_oid, now),
{
    let now = utc_now_secs();
    let r = build_log(commits, refs, detached_head, head_oid, max_count, now);
    assert(log_entries(r@, commits@, refs@, *detached_head, *head_oid, now));
    r
}


proof fn lemma_merge_keeps_commit(row: Seq<GraphSymbol>, my: int, extra: Seq<int>, k: nat)
    requires
        k <= extra.len(),
    ensures
        merge_lines(row, my, extra, k).len() == row.len(),
        forall|i: int|
            0 <= i < row.len() ==> ((#[trigger] merge_lines(row, my, extra, k)[i] == GraphSymbol::Commit)
                <==> row[i] == GraphSymbol::Commit),
    decreases k,
{
    if k > 0 {
        lemma_merge_keeps_commit(row, my, extra, (k - 1) as nat);
    }
}

/// Every row of the graph marks exactly one lane with the commit: the lane
/// the commit was found in or given.
pub proof fn law_one_commit_per_row(lanes: Seq<LaneView>, oid: Seq<char>, parents: Seq<Seq<char>>)
    ensures
        ({
            let my = find_or_allocate(lanes, oid).1;
            let row = graph_step(lanes, oid, parents).1;
            &&& 0 <= my < row.len()
            &&& row[my] == GraphSymbol::Commit
            &&& forall|i: int| 0 <= i < row.len() && i != my ==> row[i] != GraphSymbol::Commit
        }),
{
    lemma_find_from_bounds(lanes, Some(oid), 0);
    lemma_find_from_bounds(lanes, None, 0);
    let (l1, my) = find_or_allocate(lanes, oid);
    assert(0 <= my < l1.len());
    lemma_route_lengths(l1, my, parents, parents.len());
    let (l2, extra) = route_parents(l1, my, parents, parents.len());
    let base = base_row(l1, my, l2.len());
    lemma_merge_keeps_commit(base, my, extra, extra.len());
}

/// Whether a graph row marks exactly one lane with the commit.
pub open spec fn one_commit_mark(row: Seq<GraphSymbol>) -> bool {
    exists|k: int|
        0 <= k < row.len() && #[trigger] row[k] == GraphSymbol::Commit && forall|j: int|
            0 <= j < row.len() && j != k ==> row[j] != GraphSymbol::Commit
}

/// Every entry of a log built from a walk is well formed: its graph row
/// (under both names) marks exactly one lane with the commit, its short id
/// is the first seven bytes of its id (under both names), it is marked as
/// HEAD exactly when its id is the one HEAD points at, and it counts its
/// parents.
pub proof fn law_log_entries_well_formed(
    r: Seq<CommitInfo>,
    commits: Seq<RawCommit>,
    refs: Seq<RefEntry>,
    detached_head: Option<String>,
    head_oid: Option<String>,
    now: i64,
)
    requires
        log_entries(r, commits, refs, detached_head, head_oid, now),
    ensures
        forall|i: int|
            0 <= i < r.len() ==> {
                let c = #[trigger] r[i];
                &&& c.graph@ == c.graph_symbols@
                &&& one_commit_mark(c.graph@)
                &&& encode_utf8(c.short_oid@) == encode_utf8(c.oid@).take(short_len(c.oid@))
                &&& c.short_hash@ == c.short_oid@
                &&& c.is_head == (head_oid is Some && c.oid@ == head_oid->0@)
                &&& (commits[i].parent_count == commits[i].parents@.len() ==> c.parent_count
                    == c.parents@.len())
            },
{
    assert forall|i: int| 0 <= i < r.len() implies {
        let c = #[trigger] r[i];
        &&& c.graph@ == c.graph_symbols@
        &&& one_commit_mark(c.graph@)
        &&& encode_utf8(c.short_oid@) == encode_utf8(c.oid@).take(short_len(c.oid@))
        &&& c.short_hash@ == c.short_oid@
        &&& c.is_head == (head_oid is Some && c.oid@ == head_oid->0@)
        &&& (commits[i].parent_count == commits[i].parents@.len() ==> c.parent_count == c.parents@.len())
    } by {
        let c = r[i];
        assert(commit_entry(
            c,
            commits[i],
            refs_of(refs, detached_head, commits[i].oid@),
            row_of(commits, i as nat),
            at_head(head_oid, commits[i].oid@),
            now,
        ));
        let lanes = lanes_before(commits, i as nat);
        let oid = commits[i].oid@;
        let ps = strs_view(commits[i].parents@);
        law_one_commit_per_row(lanes, oid, ps);
        let k = find_or_allocate(lanes, oid).1;
        assert(c.graph@[k] == GraphSymbol::Commit);
        assert(one_commit_mark(c.graph@));
        assert(strs_view(c.parents@).len() == c.parents@.len());
        assert(strs_view(commits[i].parents@).len() == commits[i].parents@.len());
    }
}

} // verus!
