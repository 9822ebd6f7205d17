//! The diff viewer: unified lines with line numbers and word-level
//! highlighting, or two side-by-side columns.

use vstd::prelude::*;

use crate::git::diff::{DiffLine, DiffLineType, DiffLineView, FileDiff, FileDiffView, HunkInfo, HunkView};
use crate::ui::text::{
    line_view, lines_view, pad_left, pad_left_str, span, span_str, spaces, StyledSpan, Tone,
};
use crate::util::{chars_of, decimal, fmt_decimal, is_white_space, is_whitespace_char, string_from_chars};

verus! {

/// A line number right-aligned in four columns, or four spaces; a number
/// of more than four digits is cut to its first four, so that the text is
/// always four characters wide.
pub open spec fn lineno_text(n: Option<u32>) -> Seq<char> {
    match n {
        Some(k) => pad_left(decimal(k as nat).take(min4(decimal(k as nat).len())), 4),
        None => spaces(4),
    }
}

/// The smaller of `n` and 4.
pub open spec fn min4(n: nat) -> int {
    if n < 4 { n as int } else { 4 }
}

/// Format an optional line number into a fixed-width 4-character string.
pub fn format_lineno(lineno: Option<u32>) -> (r: String)
    ensures
        r@ == lineno_text(lineno),
        r@.len() == 4,
{
    match lineno {
        Some(n) => {
            let d = fmt_decimal(n as u64);
            let cs = chars_of(d.as_str());
            let mut head: Vec<char> = Vec::new();
            let mut i: usize = 0;
            while i < cs.len() && i < 4
                invariant
                    cs@ == decimal(n as nat),
                    i <= cs@.len(),
                    i <= 4,
                    head@ == cs@.take(i as int),
                decreases cs@.len() - i,
            {
                head.push(cs[i]);
                i = i + 1;
                assert(head@ =~= cs@.take(i as int));
            }
            let h = string_from_chars(&head);
            pad_left_str(h.as_str(), 4)
        },
        None => {
            let r = "    ".to_owned();
            proof {
                reveal_strlit("    ");
            }
            assert(r@ =~= spaces(4));
            r
        },
    }
}

/// Whether a character ends a word for word-level highlighting.
pub open spec fn is_word_end(c: char) -> bool {
    is_white_space(c) || c == ',' || c == ';' || c == '(' || c == ')'
}

/// Words of the first `i` characters, each ending with its separator, and
/// the start of the word still open.
pub open spec fn words_upto(s: Seq<char>, i: nat) -> (Seq<Seq<char>>, int)
    decreases i,
{
    if i == 0 {
        (Seq::empty(), 0)
    } else {
        let (ws, st) = words_upto(s, (i - 1) as nat);
        if is_word_end(s[i - 1]) {
            (ws.push(s.subrange(st, i as int)), i as int)
        } else {
            (ws, st)
        }
    }
}

/// The text cut after each separator (`str::split_inclusive`); a rest
/// without separator is the last word.
pub open spec fn split_words(s: Seq<char>) -> Seq<Seq<char>> {
    let (ws, st) = words_upto(s, s.len());
    if st < s.len() {
        ws.push(s.subrange(st, s.len() as int))
    } else {
        ws
    }
}

proof fn lemma_words_start(s: Seq<char>, i: nat)
    requires
        i <= s.len(),
    ensures
        0 <= words_upto(s, i).1 <= i,
    decreases i,
{
    if i > 0 {
        lemma_words_start(s, (i - 1) as nat);
    }
}

/// The spans of a changed line: each word of `primary` in `base`, or in
/// `highlight` when `other` does not have it; the whole line in `base`
/// when it has no words.
pub open spec fn word_spans(primary: Seq<char>, other: Seq<char>, base: Tone, highlight: Tone) -> Seq<(Seq<char>, Tone)> {
    let pw = split_words(primary);
    let ow = split_words(other);
    if pw.len() == 0 {
        seq![(primary, base)]
    } else {
        pw.map_values(|w: Seq<char>| (w, if ow.contains(w) { base } else { highlight }))
    }
}

fn split_words_exec(s: &str) -> (r: Vec<Vec<char>>)
    ensures
        r@.map_values(|w: Vec<char>| w@) == split_words(s@),
{
    let cs = chars_of(s);
    let mut words: Vec<Vec<char>> = Vec::new();
    let mut cur: Vec<char> = Vec::new();
    let mut st: usize = 0;
    let mut i: usize = 0;
    assert(words@.map_values(|w: Vec<char>| w@) =~= Seq::<Seq<char>>::empty());
    while i < cs.len()
        invariant
            i <= cs@.len(),
            cs@ == s@,
            st <= i,
            (words@.map_values(|w: Vec<char>| w@), st as int) == words_upto(cs@, i as nat),
            cur@ == cs@.subrange(st as int, i as int),
        decreases cs@.len() - i,
    {
        let c = cs[i];
        cur.push(c);
        assert(cur@ =~= cs@.subrange(st as int, i + 1));
        if is_whitespace_char(c) || c == ',' || c == ';' || c == '(' || c == ')' {
            let ghost w0 = words@.map_values(|w: Vec<char>| w@);
            words.push(cur);
            assert(words@.map_values(|w: Vec<char>| w@) =~= w0.push(cs@.subrange(st as int, i + 1)));
            cur = Vec::new();
            st = i + 1;
        }
        i = i + 1;
    }
    if st < cs.len() {
        let ghost w0 = words@.map_values(|w: Vec<char>| w@);
        words.push(cur);
        assert(words@.map_values(|w: Vec<char>| w@) =~= w0.push(cs@.subrange(st as int, cs@.len() as int)));
    }
    words
}

fn vec_eq(a: &Vec<char>, b: &Vec<char>) -> (r: bool)
    ensures
        r == (a@ == b@),
{
    if a.len() != b.len() {
        return false;
    }
    let mut i: usize = 0;
    while i < a.len()
        invariant
            i <= a@.len() == b@.len(),
            forall|j: int| 0 <= j < i ==> a@[j] == b@[j],
        decreases a@.len() - i,
    {
        if a[i] != b[i] {
            return false;
        }
        i = i + 1;
    }
    assert(a@ =~= b@);
    true
}

fn contains_word(ws: &Vec<Vec<char>>, w: &Vec<char>) -> (r: bool)
    ensures
        r == ws@.map_values(|x: Vec<char>| x@).contains(w@),
{
    let ghost wv = ws@.map_values(|x: Vec<char>| x@);
    let mut i: usize = 0;
    while i < ws.len()
        invariant
            i <= ws@.len(),
            wv == ws@.map_values(|x: Vec<char>| x@),
            forall|j: int| 0 <= j < i ==> wv[j] != w@,
        decreases ws@.len() - i,
    {
        if vec_eq(&ws[i], w) {
            assert(wv[i as int] == w@);
            return true;
        }
        i = i + 1;
    }
    false
}

/// Word-level highlighting of a changed line against its paired line.
pub fn word_diff_spans(primary: &str, other: &str, base: Tone, highlight: Tone) -> (r: Vec<StyledSpan>)
    ensures
        line_view(r@) == word_spans(primary@, other@, base, highlight),
{
    let pw = split_words_exec(primary);
    let ow = split_words_exec(other);
    let ghost pv = pw@.map_values(|w: Vec<char>| w@);
    let ghost ov = ow@.map_values(|w: Vec<char>| w@);
    let mut r: Vec<StyledSpan> = Vec::new();
    if pw.len() == 0 {
        r.push(span_str(primary, base));
        assert(line_view(r@) =~= word_spans(primary@, other@, base, highlight));
        return r;
    }
    let mut i: usize = 0;
    while i < pw.len()
        invariant
            i <= pw@.len(),
            pv == pw@.map_values(|w: Vec<char>| w@),
            ov == ow@.map_values(|w: Vec<char>| w@),
            line_view(r@) =~= pv.subrange(0, i as int).map_values(
                |w: Seq<char>| (w, if ov.contains(w) { base } else { highlight }),
            ),
        decreases pw@.len() - i,
    {
        let tone = if contains_word(&ow, &pw[i]) { base } else { highlight };
        let text = string_from_chars(&pw[i]);
        let ghost r0 = line_view(r@);
        r.push(span(text, tone));
        assert(pv[i as int] == pw@[i as int]@);
        assert(line_view(r@) =~= r0.push((pv[i as int], tone)));
        assert(pv.subrange(0, i + 1) =~= pv.subrange(0, i as int).push(pv[i as int]));
        i = i + 1;
    }
    assert(pv.subrange(0, pv.len() as int) =~= pv);
    r
}


/// Row of a context line: both line numbers, then the text.
pub open spec fn ctx_row(l: DiffLineView) -> Seq<(Seq<char>, Tone)> {
    seq![
        (lineno_text(l.old_lineno) + " "@ + lineno_text(l.new_lineno) + " "@, Tone::DarkGray),
        (" "@ + l.content, Tone::White),
    ]
}

/// Row of a deleted line, with word highlighting against its paired
/// addition when it has one.
pub open spec fn del_row(l: DiffLineView, pair: Option<DiffLineView>) -> Seq<(Seq<char>, Tone)> {
    seq![(lineno_text(l.old_lineno) + spaces(6), Tone::DarkGray), ("-"@, Tone::Red)] + match pair {
        Some(a) => word_spans(l.content, a.content, Tone::Red, Tone::DeletedWord),
        None => seq![(l.content, Tone::Red)],
    }
}

/// Row of an added line paired with deletions, with word highlighting
/// against its paired deletion when it has one.
pub open spec fn add_row(l: DiffLineView, pair: Option<DiffLineView>) -> Seq<(Seq<char>, Tone)> {
    seq![(spaces(5) + lineno_text(l.new_lineno) + " "@, Tone::DarkGray), ("+"@, Tone::Green)] + match pair {
        Some(d) => word_spans(l.content, d.content, Tone::Green, Tone::AddedWord),
        None => seq![(l.content, Tone::Green)],
    }
}

/// Row of an added line that follows no deletion.
pub open spec fn lone_add_row(l: DiffLineView) -> Seq<(Seq<char>, Tone)> {
    seq![(spaces(5) + lineno_text(l.new_lineno) + " "@, Tone::DarkGray), ("+"@ + l.content, Tone::Green)]
}

/// Row of a header.
pub open spec fn header_row(text: Seq<char>) -> Seq<(Seq<char>, Tone)> {
    seq![(text, Tone::CyanBold)]
}

/// Row of a binary marker line.
pub open spec fn binary_row() -> Seq<(Seq<char>, Tone)> {
    seq![("Binary file differs"@, Tone::Yellow)]
}

/// End of the run of lines of kind `t` that starts at `i`.
pub open spec fn run_end(lines: Seq<DiffLineView>, i: int, t: DiffLineType) -> int
    decreases lines.len() - i,
{
    if 0 <= i < lines.len() && lines[i].line_type == t {
        run_end(lines, i + 1, t)
    } else {
        i
    }
}

/// A run ends within the lines and holds only lines of its kind.
pub proof fn lemma_run_end(lines: Seq<DiffLineView>, i: int, t: DiffLineType)
    requires
        0 <= i <= lines.len(),
    ensures
        i <= run_end(lines, i, t) <= lines.len(),
        forall|j: int| i <= j < run_end(lines, i, t) ==> lines[j].line_type == t,
    decreases lines.len() - i,
{
    if i < lines.len() && lines[i].line_type == t {
        lemma_run_end(lines, i + 1, t);
    }
}

/// The rows of deletions `[ds, de)`, paired in order with additions `[as_, ae)`.
pub open spec fn del_rows(lines: Seq<DiffLineView>, ds: int, de: int, as_: int, ae: int) -> Seq<Seq<(Seq<char>, Tone)>> {
    Seq::new(
        (de - ds) as nat,
        |j: int| del_row(lines[ds + j], if j < ae - as_ { Some(lines[as_ + j]) } else { None }),
    )
}

/// The rows of additions `[as_, ae)`, paired in order with deletions `[ds, de)`.
pub open spec fn add_rows(lines: Seq<DiffLineView>, ds: int, de: int, as_: int, ae: int) -> Seq<Seq<(Seq<char>, Tone)>> {
    Seq::new(
        (ae - as_) as nat,
        |j: int| add_row(lines[as_ + j], if j < de - ds { Some(lines[ds + j]) } else { None }),
    )
}

/// The rows of the lines of a hunk from `i` on: a run of deletions and the
/// run of additions after it are shown deletions first, each line paired
/// with the one at the same place in the other run.
pub open spec fn hunk_rows(lines: Seq<DiffLineView>, i: int) -> Seq<Seq<(Seq<char>, Tone)>>
    decreases lines.len() - i,
{
    if i < 0 || i >= lines.len() {
        Seq::empty()
    } else {
        let l = lines[i];
        match l.line_type {
            DiffLineType::Context => seq![ctx_row(l)] + hunk_rows(lines, i + 1),
            DiffLineType::Addition => seq![lone_add_row(l)] + hunk_rows(lines, i + 1),
            DiffLineType::HunkHeader => seq![header_row(l.content)] + hunk_rows(lines, i + 1),
            DiffLineType::Binary => seq![binary_row()] + hunk_rows(lines, i + 1),
            DiffLineType::Deletion => {
                proof {
                    lemma_run_end(lines, i + 1, DiffLineType::Deletion);
                    lemma_run_end(lines, run_end(lines, i + 1, DiffLineType::Deletion), DiffLineType::Addition);
                }
                let de = run_end(lines, i + 1, DiffLineType::Deletion);
                let ae = run_end(lines, de, DiffLineType::Addition);
                del_rows(lines, i, de, de, ae) + add_rows(lines, i, de, de, ae) + hunk_rows(lines, ae)
            },
        }
    }
}

/// The rows of the first `n` hunks: each hunk's header, then its lines.
pub open spec fn diff_rows(hunks: Seq<HunkView>, n: nat) -> Seq<Seq<(Seq<char>, Tone)>>
    decreases n,
{
    if n == 0 {
        Seq::empty()
    } else {
        let h = hunks[n - 1];
        diff_rows(hunks, (n - 1) as nat) + seq![header_row(h.header)] + hunk_rows(h.lines, 0)
    }
}


fn lineno_gap(l: &DiffLine) -> (r: String)
    ensures
        r@ == lineno_text(l.old_lineno) + " "@ + lineno_text(l.new_lineno) + " "@,
{
    let a = format_lineno(l.old_lineno);
    let b = format_lineno(l.new_lineno);
    let mut s = crate::util::concat3(a.as_str(), " ", b.as_str());
    vstd::string::StringExecFns::append(&mut s, " ");
    s
}

fn ctx_row_exec(l: &DiffLine) -> (r: Vec<StyledSpan>)
    ensures
        line_view(r@) == ctx_row(l@),
{
    let nums = lineno_gap(l);
    let text = crate::util::concat(" ", l.content.as_str());
    let r = vec![span(nums, Tone::DarkGray), span(text, Tone::White)];
    assert(line_view(r@) =~= ctx_row(l@));
    r
}

fn old_no_cell(l: &DiffLine) -> (r: String)
    ensures
        r@ == lineno_text(l.old_lineno) + spaces(6),
{
    let a = format_lineno(l.old_lineno);
    let r = crate::util::concat(a.as_str(), "      ");
    proof {
        reveal_strlit("      ");
    }
    assert(r@ =~= lineno_text(l.old_lineno) + spaces(6));
    r
}

fn new_no_cell(l: &DiffLine) -> (r: String)
    ensures
        r@ == spaces(5) + lineno_text(l.new_lineno) + " "@,
{
    let a = format_lineno(l.new_lineno);
    let r = crate::util::concat3("     ", a.as_str(), " ");
    proof {
        reveal_strlit("     ");
    }
    assert(r@ =~= spaces(5) + lineno_text(l.new_lineno) + " "@);
    r
}

fn append_spans(r: &mut Vec<StyledSpan>, mut more: Vec<StyledSpan>)
    ensures
        line_view(final(r)@) == line_view(old(r)@) + line_view(more@),
{
    let ghost a = line_view(r@);
    let ghost b = line_view(more@);
    r.append(&mut more);
    assert(line_view(r@) =~= a + b);
}

fn del_row_exec(l: &DiffLine, pair: Option<&DiffLine>) -> (r: Vec<StyledSpan>)
    ensures
        line_view(r@) == del_row(
            l@,
            match pair {
                Some(a) => Some(a@),
                None => None,
            },
        ),
{
    let mut r = vec![span(old_no_cell(l), Tone::DarkGray), span_str("-", Tone::Red)];
    let rest = match pair {
        Some(a) => word_diff_spans(l.content.as_str(), a.content.as_str(), Tone::Red, Tone::DeletedWord),
        None => {
            let v = vec![span(l.content.clone(), Tone::Red)];
            assert(line_view(v@) =~= seq![(l@.content, Tone::Red)]);
            v
        },
    };
    let ghost head = line_view(r@);
    append_spans(&mut r, rest);
    assert(head =~= seq![(lineno_text(l@.old_lineno) + spaces(6), Tone::DarkGray), ("-"@, Tone::Red)]);
    r
}

fn add_row_exec(l: &DiffLine, pair: Option<&DiffLine>) -> (r: Vec<StyledSpan>)
    ensures
        line_view(r@) == add_row(
            l@,
            match pair {
                Some(d) => Some(d@),
                None => None,
            },
        ),
{
    let mut r = vec![span(new_no_cell(l), Tone::DarkGray), span_str("+", Tone::Green)];
    let rest = match pair {
        Some(d) => word_diff_spans(l.content.as_str(), d.content.as_str(), Tone::Green, Tone::AddedWord),
        None => {
            let v = vec![span(l.content.clone(), Tone::Green)];
            assert(line_view(v@) =~= seq![(l@.content, Tone::Green)]);
            v
        },
    };
    let ghost head = line_view(r@);
    append_spans(&mut r, rest);
    assert(head =~= seq![(spaces(5) + lineno_text(l@.new_lineno) + " "@, Tone::DarkGray), ("+"@, Tone::Green)]);
    r
}

fn one_span_row(text: String, tone: Tone) -> (r: Vec<StyledSpan>)
    ensures
        line_view(r@) == seq![(text@, tone)],
{
    let r = vec![span(text, tone)];
    assert(line_view(r@) =~= seq![(text@, tone)]);
    r
}

fn lone_add_row_exec(l: &DiffLine) -> (r: Vec<StyledSpan>)
    ensures
        line_view(r@) == lone_add_row(l@),
{
    let text = crate::util::concat("+", l.content.as_str());
    let r = vec![span(new_no_cell(l), Tone::DarkGray), span(text, Tone::Green)];
    assert(line_view(r@) =~= lone_add_row(l@));
    r
}

/// The lines of a hunk's view.
pub open spec fn line_views(lines: Seq<DiffLine>) -> Seq<DiffLineView> {
    lines.map_values(|l: DiffLine| l@)
}

fn push_row(out: &mut Vec<Vec<StyledSpan>>, row: Vec<StyledSpan>)
    ensures
        lines_view(final(out)@) == lines_view(old(out)@).push(line_view(row@)),
{
    let ghost o = lines_view(out@);
    out.push(row);
    assert(lines_view(out@) =~= o.push(line_view(row@)));
}

fn hunk_rows_exec(lines: &Vec<DiffLine>, out: &mut Vec<Vec<StyledSpan>>)
    ensures
        lines_view(final(out)@) == lines_view(old(out)@) + hunk_rows(line_views(lines@), 0),
{
    let ghost lv = line_views(lines@);
    let ghost base = lines_view(out@);
    let n = lines.len();
    let mut i: usize = 0;
    while i < n
        invariant
            i <= n == lines@.len(),
            lv == line_views(lines@),
            lv.len() == n,
            base + hunk_rows(lv, 0) == lines_view(out@) + hunk_rows(lv, i as int),
        decreases n - i,
    {
        let l = &lines[i];
        assert(lv[i as int] == l@);
        match l.line_type {
            DiffLineType::Context => {
                push_row(out, ctx_row_exec(l));
                i = i + 1;
            },
            DiffLineType::Addition => {
                push_row(out, lone_add_row_exec(l));
                i = i + 1;
            },
            DiffLineType::HunkHeader => {
                push_row(out, one_span_row(l.content.clone(), Tone::CyanBold));
                i = i + 1;
            },
            DiffLineType::Binary => {
                push_row(out, one_span_row("Binary file differs".to_owned(), Tone::Yellow));
                i = i + 1;
            },
            DiffLineType::Deletion => {
                proof {
                    lemma_run_end(lv, i + 1, DiffLineType::Deletion);
                }
                let mut de = i + 1;
                while de < n && lines[de].line_type == DiffLineType::Deletion
                    invariant
                        i < de <= n == lv.len(),
                        lv == line_views(lines@),
                        run_end(lv, de as int, DiffLineType::Deletion) == run_end(lv, i + 1, DiffLineType::Deletion),
                    decreases n - de,
                {
                    assert(lv[de as int] == lines@[de as int]@);
                    de = de + 1;
                }
                assert(de == run_end(lv, i + 1, DiffLineType::Deletion));
                proof {
                    lemma_run_end(lv, de as int, DiffLineType::Addition);
                }
                let mut ae = de;
                while ae < n && lines[ae].line_type == DiffLineType::Addition
                    invariant
                        de <= ae <= n == lv.len(),
                        lv == line_views(lines@),
                        run_end(lv, ae as int, DiffLineType::Addition) == run_end(lv, de as int, DiffLineType::Addition),
                    decreases n - ae,
                {
                    assert(lv[ae as int] == lines@[ae as int]@);
                    ae = ae + 1;
                }
                assert(ae == run_end(lv, de as int, DiffLineType::Addition));
                let ghost before = lines_view(out@);
                let ghost dr = del_rows(lv, i as int, de as int, de as int, ae as int);
                let ghost ar = add_rows(lv, i as int, de as int, de as int, ae as int);
                let mut d = i;
                while d < de
                    invariant
                        i <= d <= de <= ae <= n == lv.len(),
                        lv == line_views(lines@),
                        dr == del_rows(lv, i as int, de as int, de as int, ae as int),
                        lines_view(out@) == before + dr.subrange(0, d - i),
                    decreases de - d,
                {
                    let pair = if d - i < ae - de { Some(&lines[de + (d - i)]) } else { None };
                    let row = del_row_exec(&lines[d], pair);
                    proof {
                        assert(lv[d as int] == lines@[d as int]@);
                        if d - i < ae - de {
                            assert(lv[de + (d - i)] == lines@[de + (d - i)]@);
                        }
                        assert(line_view(row@) == dr[d - i]);
                    }
                    push_row(out, row);
                    assert(dr.subrange(0, d + 1 - i) =~= dr.subrange(0, d - i).push(dr[d - i]));
                    d = d + 1;
                }
                assert(dr.subrange(0, de - i) =~= dr);
                let ghost mid = lines_view(out@);
                let mut a = de;
                while a < ae
                    invariant
                        i <= de <= a <= ae <= n == lv.len(),
                        lv == line_views(lines@),
                        ar == add_rows(lv, i as int, de as int, de as int, ae as int),
                        lines_view(out@) == mid + ar.subrange(0, a - de),
                    decreases ae - a,
                {
                    let pair = if a - de < de - i { Some(&lines[i + (a - de)]) } else { None };
                    let row = add_row_exec(&lines[a], pair);
                    proof {
                        assert(lv[a as int] == lines@[a as int]@);
                        if a - de < de - i {
                            assert(lv[i + (a - de)] == lines@[i + (a - de)]@);
                        }
                        assert(line_view(row@) == ar[a - de]);
                    }
                    push_row(out, row);
                    assert(ar.subrange(0, a + 1 - de) =~= ar.subrange(0, a - de).push(ar[a - de]));
                    a = a + 1;
                }
                assert(ar.subrange(0, ae - de) =~= ar);
                assert(hunk_rows(lv, i as int) == dr + ar + hunk_rows(lv, ae as int));
                i = ae;
            },
        }
    }
}

/// Build the unified diff rows of a file diff: for each hunk its header,
/// then its lines with line numbers and word-level highlighting.
pub fn build_diff_lines(diff: &FileDiff) -> (r: Vec<Vec<StyledSpan>>)
    ensures
        lines_view(r@) == diff_rows(diff@.hunks, diff@.hunks.len()),
{
    let mut out: Vec<Vec<StyledSpan>> = Vec::new();
    let ghost hv = diff@.hunks;
    let mut k: usize = 0;
    assert(lines_view(out@) =~= diff_rows(hv, 0));
    while k < diff.hunks.len()
        invariant
            k <= diff.hunks@.len(),
            hv == diff@.hunks,
            hv.len() == diff.hunks@.len(),
            lines_view(out@) == diff_rows(hv, k as nat),
        decreases diff.hunks@.len() - k,
    {
        let h = &diff.hunks[k];
        assert(hv[k as int] == h@);
        push_row(&mut out, one_span_row(h.header.clone(), Tone::CyanBold));
        hunk_rows_exec(&h.lines, &mut out);
        assert(h@.lines == line_views(h.lines@));
        k = k + 1;
    }
    out
}


/// A blank row.
pub open spec fn blank_row() -> Seq<(Seq<char>, Tone)> {
    seq![(Seq::<char>::empty(), Tone::Plain)]
}

/// A one-span row of `marker` and the line's text.
pub open spec fn marked_row(marker: Seq<char>, l: DiffLineView, tone: Tone) -> Seq<(Seq<char>, Tone)> {
    seq![(marker + l.content, tone)]
}

/// The side-by-side rows of a hunk's lines from `i` on: context on both
/// sides, deletions on the left facing the additions after them on the
/// right, blank rows where one side has fewer lines.
pub open spec fn side_rows(lines: Seq<DiffLineView>, i: int) -> (Seq<Seq<(Seq<char>, Tone)>>, Seq<Seq<(Seq<char>, Tone)>>)
    decreases lines.len() - i,
{
    if i < 0 || i >= lines.len() {
        (Seq::empty(), Seq::empty())
    } else {
        let l = lines[i];
        match l.line_type {
            DiffLineType::Context => {
                let (a, b) = side_rows(lines, i + 1);
                (seq![marked_row(" "@, l, Tone::White)] + a, seq![marked_row(" "@, l, Tone::White)] + b)
            },
            DiffLineType::Addition => {
                let (a, b) = side_rows(lines, i + 1);
                (seq![blank_row()] + a, seq![marked_row("+"@, l, Tone::Green)] + b)
            },
            DiffLineType::Deletion => {
                proof {
                    lemma_run_end(lines, i + 1, DiffLineType::Deletion);
                    lemma_run_end(lines, run_end(lines, i + 1, DiffLineType::Deletion), DiffLineType::Addition);
                }
                let de = run_end(lines, i + 1, DiffLineType::Deletion);
                let ae = run_end(lines, de, DiffLineType::Addition);
                let dc = de - i;
                let ac = ae - de;
                let m = if dc > ac { dc } else { ac };
                let left = Seq::new(
                    m as nat,
                    |j: int| if j < dc { marked_row("-"@, lines[i + j], Tone::Red) } else { blank_row() },
                );
                let right = Seq::new(
                    m as nat,
                    |j: int| if j < ac { marked_row("+"@, lines[de + j], Tone::Green) } else { blank_row() },
                );
                let (a, b) = side_rows(lines, ae);
                (left + a, right + b)
            },
            _ => side_rows(lines, i + 1),
        }
    }
}

/// The side-by-side rows of the first `n` hunks, each after its header on
/// both sides.
pub open spec fn side_diff_rows(hunks: Seq<HunkView>, n: nat) -> (Seq<Seq<(Seq<char>, Tone)>>, Seq<Seq<(Seq<char>, Tone)>>)
    decreases n,
{
    if n == 0 {
        (Seq::empty(), Seq::empty())
    } else {
        let h = hunks[n - 1];
        let (a, b) = side_diff_rows(hunks, (n - 1) as nat);
        let (c, d) = side_rows(h.lines, 0);
        (a + seq![header_row(h.header)] + c, b + seq![header_row(h.header)] + d)
    }
}

fn marked_row_exec(marker: &str, l: &DiffLine, tone: Tone) -> (r: Vec<StyledSpan>)
    ensures
        line_view(r@) == marked_row(marker@, l@, tone),
{
    let text = crate::util::concat(marker, l.content.as_str());
    let r = vec![span(text, tone)];
    assert(line_view(r@) =~= marked_row(marker@, l@, tone));
    r
}

fn blank_row_exec() -> (r: Vec<StyledSpan>)
    ensures
        line_view(r@) == blank_row(),
{
    let r = vec![span(String::new(), Tone::Plain)];
    assert(line_view(r@) =~= blank_row());
    r
}

fn side_rows_exec(lines: &Vec<DiffLine>, left: &mut Vec<Vec<StyledSpan>>, right: &mut Vec<Vec<StyledSpan>>)
    ensures
        lines_view(final(left)@) == lines_view(old(left)@) + side_rows(line_views(lines@), 0).0,
        lines_view(final(right)@) == lines_view(old(right)@) + side_rows(line_views(lines@), 0).1,
{
    let ghost lv = line_views(lines@);
    let ghost bl = lines_view(left@);
    let ghost br = lines_view(right@);
    let n = lines.len();
    let mut i: usize = 0;
    while i < n
        invariant
            i <= n == lines@.len(),
            lv == line_views(lines@),
            lv.len() == n,
            bl + side_rows(lv, 0).0 == lines_view(left@) + side_rows(lv, i as int).0,
            br + side_rows(lv, 0).1 == lines_view(right@) + side_rows(lv, i as int).1,
        decreases n - i,
    {
        let l = &lines[i];
        assert(lv[i as int] == l@);
        match l.line_type {
            DiffLineType::Context => {
                push_row(left, marked_row_exec(" ", l, Tone::White));
                push_row(right, marked_row_exec(" ", l, Tone::White));
                i = i + 1;
            },
            DiffLineType::Addition => {
                push_row(left, blank_row_exec());
                push_row(right, marked_row_exec("+", l, Tone::Green));
                i = i + 1;
            },
            DiffLineType::Deletion => {
                proof {
                    lemma_run_end(lv, i + 1, DiffLineType::Deletion);
                }
                let mut de = i + 1;
                while de < n && lines[de].line_type == DiffLineType::Deletion
                    invariant
                        i < de <= n == lv.len(),
                        lv == line_views(lines@),
                        run_end(lv, de as int, DiffLineType::Deletion) == run_end(lv, i + 1, DiffLineType::Deletion),
                    decreases n - de,
                {
                    assert(lv[de as int] == lines@[de as int]@);
                    de = de + 1;
                }
                proof {
                    lemma_run_end(lv, de as int, DiffLineType::Addition);
                }
                let mut ae = de;
                while ae < n && lines[ae].line_type == DiffLineType::Addition
                    invariant
                        de <= ae <= n == lv.len(),
                        lv == line_views(lines@),
                        run_end(lv, ae as int, DiffLineType::Addition) == run_end(lv, de as int, DiffLineType::Addition),
                    decreases n - ae,
                {
                    assert(lv[ae as int] == lines@[ae as int]@);
                    ae = ae + 1;
                }
                let dc = de - i;
                let ac = ae - de;
                let m = if dc > ac { dc } else { ac };
                let ghost lrows = Seq::new(
                    m as nat,
                    |j: int| if j < dc { marked_row("-"@, lv[i + j], Tone::Red) } else { blank_row() },
                );
                let ghost rrows = Seq::new(
                    m as nat,
                    |j: int| if j < ac { marked_row("+"@, lv[de + j], Tone::Green) } else { blank_row() },
                );
                let ghost l0 = lines_view(left@);
                let ghost r0 = lines_view(right@);
                let mut j: usize = 0;
                while j < m
                    invariant
                        j <= m,
                        i <= de <= ae <= n == lv.len(),
                        dc == de - i,
                        ac == ae - de,
                        lv == line_views(lines@),
                        lrows == Seq::new(
                            m as nat,
                            |j: int| if j < dc { marked_row("-"@, lv[i + j], Tone::Red) } else { blank_row() },
                        ),
                        rrows == Seq::new(
                            m as nat,
                            |j: int| if j < ac { marked_row("+"@, lv[de + j], Tone::Green) } else { blank_row() },
                        ),
                        lines_view(left@) == l0 + lrows.subrange(0, j as int),
                        lines_view(right@) == r0 + rrows.subrange(0, j as int),
                    decreases m - j,
                {
                    if j < dc {
                        assert(lv[i + j] == lines@[i + j]@);
                        push_row(left, marked_row_exec("-", &lines[i + j], Tone::Red));
                    } else {
                        push_row(left, blank_row_exec());
                    }
                    if j < ac {
                        assert(lv[de + j] == lines@[de + j]@);
                        push_row(right, marked_row_exec("+", &lines[de + j], Tone::Green));
                    } else {
                        push_row(right, blank_row_exec());
                    }
                    assert(lrows.subrange(0, j + 1) =~= lrows.subrange(0, j as int).push(lrows[j as int]));
                    assert(rrows.subrange(0, j + 1) =~= rrows.subrange(0, j as int).push(rrows[j as int]));
                    j = j + 1;
                }
                assert(lrows.subrange(0, m as int) =~= lrows);
                assert(rrows.subrange(0, m as int) =~= rrows);
                assert(side_rows(lv, i as int).0 == lrows + side_rows(lv, ae as int).0);
                assert(side_rows(lv, i as int).1 == rrows + side_rows(lv, ae as int).1);
                i = ae;
            },
            _ => {
                i = i + 1;
            },
        }
    }
}

/// Build the two columns of the side-by-side diff of a file.
pub fn build_side_by_side(diff: &FileDiff) -> (r: (Vec<Vec<StyledSpan>>, Vec<Vec<StyledSpan>>))
    ensures
        lines_view(r.0@) == side_diff_rows(diff@.hunks, diff@.hunks.len()).0,
        lines_view(r.1@) == side_diff_rows(diff@.hunks, diff@.hunks.len()).1,
{
    let mut left: Vec<Vec<StyledSpan>> = Vec::new();
    let mut right: Vec<Vec<StyledSpan>> = Vec::new();
    let ghost hv = diff@.hunks;
    let mut k: usize = 0;
    assert(lines_view(left@) =~= side_diff_rows(hv, 0).0);
    assert(lines_view(right@) =~= side_diff_rows(hv, 0).1);
    while k < diff.hunks.len()
        invariant
            k <= diff.hunks@.len(),
            hv == diff@.hunks,
            hv.len() == diff.hunks@.len(),
            lines_view(left@) == side_diff_rows(hv, k as nat).0,
            lines_view(right@) == side_diff_rows(hv, k as nat).1,
        decreases diff.hunks@.len() - k,
    {
        let h = &diff.hunks[k];
        assert(hv[k as int] == h@);
        push_row(&mut left, one_span_row(h.header.clone(), Tone::CyanBold));
        push_row(&mut right, one_span_row(h.header.clone(), Tone::CyanBold));
        side_rows_exec(&h.lines, &mut left, &mut right);
        assert(h@.lines == line_views(h.lines@));
        k = k + 1;
    }
    (left, right)
}

/// The title of the diff panel.
pub open spec fn diff_title_text(d: Option<FileDiffView>) -> Seq<char> {
    match d {
        Some(f) => " DIFF \u{2014} "@ + f.path + " (+"@ + decimal(f.additions as nat) + " -"@ + decimal(f.deletions as nat) + ") "@,
        None => " DIFF "@,
    }
}

/// The title of the diff panel: the file and its counts when a diff is shown.
pub fn diff_title(diff: &Option<FileDiff>) -> (r: String)
    ensures
        r@ == diff_title_text(match diff {
            Some(f) => Some(f@),
            None => None,
        }),
{
    match diff {
        Some(f) => {
            let a = fmt_decimal(f.additions as u64);
            let d = fmt_decimal(f.deletions as u64);
            let mut s = crate::util::concat3(" DIFF \u{2014} ", f.path.as_str(), " (+");
            vstd::string::StringExecFns::append(&mut s, a.as_str());
            vstd::string::StringExecFns::append(&mut s, " -");
            vstd::string::StringExecFns::append(&mut s, d.as_str());
            vstd::string::StringExecFns::append(&mut s, ") ");
            s
        },
        None => " DIFF ".to_owned(),
    }
}

/// The first row shown when scrolled by `scroll` rows through `total`
/// rows in a window of `visible` rows: the scroll stops at the last page.
pub open spec fn clamped_scroll(scroll: int, total: int, visible: int) -> int {
    let max = if total > visible { total - visible } else { 0 };
    if scroll < max { scroll } else { max }
}

/// The first row to show: the scroll offset kept within the last page.
pub fn clamp_scroll(scroll: usize, total: usize, visible: usize) -> (r: usize)
    ensures
        r == clamped_scroll(scroll as int, total as int, visible as int),
{
    let max = total.saturating_sub(visible);
    if scroll < max { scroll } else { max }
}


/// The texts of a sequence of pieces, joined.
pub open spec fn joined(ws: Seq<Seq<char>>) -> Seq<char>
    decreases ws.len(),
{
    if ws.len() == 0 {
        Seq::empty()
    } else {
        joined(ws.drop_last()) + ws.last()
    }
}

/// The texts of a row's spans, joined.
pub open spec fn row_text(spans: Seq<(Seq<char>, Tone)>) -> Seq<char>
    decreases spans.len(),
{
    if spans.len() == 0 {
        Seq::empty()
    } else {
        row_text(spans.drop_last()) + spans.last().0
    }
}

proof fn lemma_words_joined(s: Seq<char>, i: nat)
    requires
        i <= s.len(),
    ensures
        0 <= words_upto(s, i).1 <= i,
        joined(words_upto(s, i).0) == s.subrange(0, words_upto(s, i).1),
    decreases i,
{
    if i > 0 {
        lemma_words_joined(s, (i - 1) as nat);
        let (ws, st) = words_upto(s, (i - 1) as nat);
        if is_word_end(s[i - 1]) {
            let nw = ws.push(s.subrange(st, i as int));
            assert(nw.drop_last() =~= ws);
            assert(s.subrange(0, st) + s.subrange(st, i as int) =~= s.subrange(0, i as int));
        }
    }
}

proof fn lemma_row_text_of_words(ws: Seq<Seq<char>>, f: spec_fn(Seq<char>) -> Tone)
    ensures
        row_text(ws.map_values(|w: Seq<char>| (w, f(w)))) == joined(ws),
    decreases ws.len(),
{
    if ws.len() > 0 {
        lemma_row_text_of_words(ws.drop_last(), f);
        assert(ws.map_values(|w: Seq<char>| (w, f(w))).drop_last() =~= ws.drop_last().map_values(
            |w: Seq<char>| (w, f(w)),
        ));
    }
}

/// Word-level highlighting shows the text of the line unchanged: the
/// spans' texts, joined, are the line.
pub proof fn law_word_spans_keep_text(primary: Seq<char>, other: Seq<char>, base: Tone, highlight: Tone)
    ensures
        row_text(word_spans(primary, other, base, highlight)) == primary,
{
    lemma_words_joined(primary, primary.len());
    let (ws, st) = words_upto(primary, primary.len());
    let pw = split_words(primary);
    if st < primary.len() {
        assert(pw.drop_last() =~= ws);
        assert(primary.subrange(0, st) + primary.subrange(st, primary.len() as int) =~= primary);
    } else {
        assert(primary.subrange(0, st) =~= primary);
    }
    assert(joined(pw) == primary);
    let ow = split_words(other);
    if pw.len() == 0 {
        let one = seq![(primary, base)];
        assert(one.drop_last() =~= Seq::<(Seq<char>, Tone)>::empty());
        assert(row_text(one.drop_last()) == Seq::<char>::empty());
        assert(row_text(one) == Seq::<char>::empty() + primary);
        assert(Seq::<char>::empty() + primary =~= primary);
    } else {
        let f = |w: Seq<char>| if ow.contains(w) { base } else { highlight };
        lemma_row_text_of_words(pw, f);
        assert(word_spans(primary, other, base, highlight) =~= pw.map_values(|w: Seq<char>| (w, f(w))));
        assert(row_text(word_spans(primary, other, base, highlight)) == joined(pw));
    }
}

} // verus!
