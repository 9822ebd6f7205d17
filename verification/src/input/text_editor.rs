//! A minimal text editor for the commit message area.
//!
//! The editor works on a `String` and a cursor given as a byte offset into
//! its UTF-8 encoding. It supports character insertion, Backspace / Delete,
//! Left / Right (Ctrl: by word), Home / End, Up / Down, Enter for new lines,
//! and the Ctrl+A, Ctrl+E, Ctrl+K, Ctrl+U line commands.

use vstd::prelude::*;
use vstd::utf8::*;

use crate::input::keys::{KeyCode, KeyInput};
use crate::util::string_from_utf8;

verus! {

broadcast use vstd::utf8::encode_utf8_valid_utf8;

// ---------------------------------------------------------------------------
// Model
// ---------------------------------------------------------------------------

/// The bytes of a string's UTF-8 encoding.
pub open spec fn utf8_of(s: Seq<char>) -> Seq<u8> {
    encode_utf8(s)
}

/// The byte of a line break.
pub open spec fn is_newline(b: u8) -> bool {
    b == 10u8
}

/// Whether a byte, read as a Latin-1 character, is Unicode white space.
pub open spec fn is_space_byte(b: u8) -> bool {
    b == 9u8 || b == 10u8 || b == 11u8 || b == 12u8 || b == 13u8 || b == 32u8 || b == 0x85u8
        || b == 0xA0u8
}

/// Offset of the start of the line that contains `pos`: one past the last
/// line break before `pos`, or 0.
pub open spec fn line_start_of(b: Seq<u8>, pos: int) -> int
    decreases pos,
{
    if pos <= 0 {
        0
    } else if is_newline(b[pos - 1]) {
        pos
    } else {
        line_start_of(b, pos - 1)
    }
}

/// Offset of the end of the line that contains `pos`: the first line break
/// at or after `pos`, or the end of the text.
pub open spec fn line_end_of(b: Seq<u8>, pos: int) -> int
    decreases b.len() - pos,
{
    if pos >= b.len() {
        b.len() as int
    } else if is_newline(b[pos]) {
        pos
    } else {
        line_end_of(b, pos + 1)
    }
}

/// Number of line breaks among the first `k` bytes.
pub open spec fn count_newlines(b: Seq<u8>, k: int) -> nat
    decreases k,
{
    if k <= 0 {
        0
    } else {
        count_newlines(b, k - 1) + if is_newline(b[k - 1]) {
            1nat
        } else {
            0nat
        }
    }
}

/// Number of lines of the text.
pub open spec fn line_count_of(b: Seq<u8>) -> nat {
    count_newlines(b, b.len() as int) + 1
}

/// Offset of the first byte of line `n` (counted from 0).
pub open spec fn line_begin(b: Seq<u8>, n: nat) -> int
    decreases n,
{
    if n == 0 {
        0
    } else {
        line_end_of(b, line_begin(b, (n - 1) as nat)) + 1
    }
}

/// The greatest character boundary `q` with `q <= p`, or 0.
pub open spec fn boundary_at_or_before(b: Seq<u8>, p: int) -> int
    decreases p,
{
    if p <= 0 {
        0
    } else if is_char_boundary(b, p) {
        p
    } else {
        boundary_at_or_before(b, p - 1)
    }
}

/// The least character boundary `q` with `q >= p`, or the end of the text.
pub open spec fn boundary_at_or_after(b: Seq<u8>, p: int) -> int
    decreases b.len() - p,
{
    if p >= b.len() {
        p
    } else if is_char_boundary(b, p) {
        p
    } else {
        boundary_at_or_after(b, p + 1)
    }
}

/// The character boundary one character before `pos`.
pub open spec fn prev_boundary_of(b: Seq<u8>, pos: int) -> int {
    if pos <= 0 {
        0
    } else {
        boundary_at_or_before(b, pos - 1)
    }
}

/// The character boundary one character after `pos`.
pub open spec fn next_boundary_of(b: Seq<u8>, pos: int) -> int {
    if pos >= b.len() {
        b.len() as int
    } else {
        boundary_at_or_after(b, pos + 1)
    }
}

/// Going backward from `p`, the first offset not preceded by white space.
pub open spec fn skip_space_back(b: Seq<u8>, p: int) -> int
    decreases p,
{
    if p > 0 && is_space_byte(b[p - 1]) {
        skip_space_back(b, p - 1)
    } else {
        p
    }
}

/// Going backward from `p`, the first offset not preceded by a word byte.
pub open spec fn skip_word_back(b: Seq<u8>, p: int) -> int
    decreases p,
{
    if p > 0 && !is_space_byte(b[p - 1]) {
        skip_word_back(b, p - 1)
    } else {
        p
    }
}

/// Going forward from `p`, the first offset that is not white space.
pub open spec fn skip_space_fwd(b: Seq<u8>, p: int) -> int
    decreases b.len() - p,
{
    if p < b.len() && is_space_byte(b[p]) {
        skip_space_fwd(b, p + 1)
    } else {
        p
    }
}

/// Going forward from `p`, the first offset that is white space.
pub open spec fn skip_word_fwd(b: Seq<u8>, p: int) -> int
    decreases b.len() - p,
{
    if p < b.len() && !is_space_byte(b[p]) {
        skip_word_fwd(b, p + 1)
    } else {
        p
    }
}

/// Start of the previous word: skip white space backward, then word bytes.
pub open spec fn prev_word_of(b: Seq<u8>, pos: int) -> int {
    skip_word_back(b, skip_space_back(b, pos))
}

/// Start of the next word: skip the current word, then white space.
pub open spec fn next_word_of(b: Seq<u8>, pos: int) -> int {
    skip_space_fwd(b, skip_word_fwd(b, pos))
}

pub open spec fn min_int(a: int, b: int) -> int {
    if a <= b {
        a
    } else {
        b
    }
}

/// (line index, column) of a byte offset; the column counts bytes from the
/// start of the line.
pub open spec fn line_col_of(b: Seq<u8>, pos: int) -> (nat, int) {
    let m = min_int(pos, b.len() as int);
    (count_newlines(b, m), pos - line_start_of(b, m))
}

/// Byte offset of (line, column): the column is taken on line `line` when it
/// falls on a character boundary inside the line; otherwise the offset is the
/// line's end (clamped to the end of the text on the last line). A line past
/// the last one gives the end of the text.
pub open spec fn offset_of_line_col(b: Seq<u8>, line: nat, col: int) -> int {
    if line > count_newlines(b, b.len() as int) {
        b.len() as int
    } else {
        let s = line_begin(b, line);
        let e = line_end_of(b, s);
        if s + col < e && is_char_boundary(b, s + col) {
            s + col
        } else if e < b.len() {
            e
        } else {
            min_int(s + col, b.len() as int)
        }
    }
}

/// `b` with the bytes in `[from, to)` removed.
pub open spec fn cut(b: Seq<u8>, from: int, to: int) -> Seq<u8> {
    b.take(from) + b.skip(to)
}

/// `b` with `ins` inserted at `at`.
pub open spec fn splice_in(b: Seq<u8>, at: int, ins: Seq<u8>) -> Seq<u8> {
    b.take(at) + ins + b.skip(at)
}

/// Whether a key reads or edits the text at the cursor, so that the cursor
/// has to stand on a character boundary.
pub open spec fn key_touches_text(key: KeyInput) -> bool {
    match key.code {
        KeyCode::Char(_) | KeyCode::Enter | KeyCode::Backspace | KeyCode::Delete | KeyCode::Home
        | KeyCode::End | KeyCode::Up | KeyCode::Down => true,
        _ => false,
    }
}

/// The text and cursor after a key press, given the text's bytes and the
/// cursor before it.
pub open spec fn edit_result(b: Seq<u8>, cursor: int, key: KeyInput) -> (Seq<u8>, int) {
    let c = min_int(cursor, b.len() as int);
    match key.code {
        KeyCode::Char(ch) => {
            if key.ctrl && ch == 'a' {
                (b, line_start_of(b, c))
            } else if key.ctrl && ch == 'e' {
                (b, line_end_of(b, c))
            } else if key.ctrl && ch == 'k' {
                let end = line_end_of(b, c);
                if end == c && end < b.len() {
                    (cut(b, end, end + 1), c)
                } else {
                    (cut(b, c, end), c)
                }
            } else if key.ctrl && ch == 'u' {
                let start = line_start_of(b, c);
                (cut(b, start, c), start)
            } else {
                let enc = encode_scalar(ch as u32);
                (splice_in(b, c, enc), c + enc.len())
            }
        },
        KeyCode::Enter => (splice_in(b, c, seq![10u8]), c + 1),
        KeyCode::Backspace => {
            if c > 0 {
                let p = prev_boundary_of(b, c);
                (cut(b, p, c), p)
            } else {
                (b, c)
            }
        },
        KeyCode::Delete => {
            if c < b.len() {
                (cut(b, c, next_boundary_of(b, c)), c)
            } else {
                (b, c)
            }
        },
        KeyCode::Left => {
            if key.ctrl {
                (b, prev_word_of(b, c))
            } else {
                (b, prev_boundary_of(b, c))
            }
        },
        KeyCode::Right => {
            if key.ctrl {
                (b, next_word_of(b, c))
            } else if c < b.len() {
                (b, next_boundary_of(b, c))
            } else {
                (b, c)
            }
        },
        KeyCode::Home => (b, line_start_of(b, c)),
        KeyCode::End => (b, line_end_of(b, c)),
        KeyCode::Up => {
            let (li, col) = line_col_of(b, c);
            if li > 0 {
                (b, offset_of_line_col(b, (li - 1) as nat, col))
            } else {
                (b, c)
            }
        },
        KeyCode::Down => {
            let (li, col) = line_col_of(b, c);
            if li + 1 < line_count_of(b) {
                (b, offset_of_line_col(b, (li + 1) as nat, col))
            } else {
                (b, c)
            }
        },
        _ => (b, c),
    }
}

// ---------------------------------------------------------------------------
// Lemmas
// ---------------------------------------------------------------------------

proof fn lemma_line_start_bounds(b: Seq<u8>, pos: int)
    requires
        0 <= pos <= b.len(),
    ensures
        0 <= line_start_of(b, pos) <= pos,
        line_start_of(b, pos) == 0 || is_newline(b[line_start_of(b, pos) - 1]),
        forall|j: int| line_start_of(b, pos) <= j < pos ==> !is_newline(#[trigger] b[j]),
    decreases pos,
{
    if pos > 0 && !is_newline(b[pos - 1]) {
        lemma_line_start_bounds(b, pos - 1);
    }
}

proof fn lemma_line_end_bounds(b: Seq<u8>, pos: int)
    requires
        0 <= pos <= b.len(),
    ensures
        pos <= line_end_of(b, pos) <= b.len(),
        line_end_of(b, pos) == b.len() || is_newline(b[line_end_of(b, pos)]),
        forall|j: int| pos <= j < line_end_of(b, pos) ==> !is_newline(#[trigger] b[j]),
    decreases b.len() - pos,
{
    if pos < b.len() && !is_newline(b[pos]) {
        lemma_line_end_bounds(b, pos + 1);
    }
}

/// `line_end_of` finds the first line break at or after `p`.
proof fn lemma_line_end_is(b: Seq<u8>, p: int, q: int)
    requires
        0 <= p <= q < b.len(),
        is_newline(b[q]),
        forall|j: int| p <= j < q ==> !is_newline(#[trigger] b[j]),
    ensures
        line_end_of(b, p) == q,
    decreases q - p,
{
    if p < q {
        lemma_line_end_is(b, p + 1, q);
    }
}

proof fn lemma_line_end_none(b: Seq<u8>, p: int)
    requires
        0 <= p <= b.len(),
        forall|j: int| p <= j < b.len() ==> !is_newline(#[trigger] b[j]),
    ensures
        line_end_of(b, p) == b.len(),
    decreases b.len() - p,
{
    if p < b.len() {
        lemma_line_end_none(b, p + 1);
    }
}

/// The line that starts the current line of offset `i` is the
/// `count_newlines(b, i)`-th line.
proof fn lemma_line_begin_is_line_start(b: Seq<u8>, i: int)
    requires
        0 <= i <= b.len(),
    ensures
        line_begin(b, count_newlines(b, i)) == line_start_of(b, i),
    decreases i,
{
    if i > 0 {
        lemma_line_begin_is_line_start(b, i - 1);
        if is_newline(b[i - 1]) {
            let n = count_newlines(b, i);
            assert(n == count_newlines(b, i - 1) + 1);
            lemma_line_start_bounds(b, i - 1);
            lemma_line_end_is(b, line_start_of(b, i - 1), i - 1);
        }
    }
}

proof fn lemma_count_newlines_le(b: Seq<u8>, i: int)
    requires
        0 <= i <= b.len(),
    ensures
        count_newlines(b, i) <= i,
    decreases i,
{
    if i > 0 {
        lemma_count_newlines_le(b, i - 1);
    }
}

proof fn lemma_count_newlines_mono(b: Seq<u8>, i: int, j: int)
    requires
        0 <= i <= j <= b.len(),
    ensures
        count_newlines(b, i) <= count_newlines(b, j),
    decreases j - i,
{
    if i < j {
        lemma_count_newlines_mono(b, i, j - 1);
    }
}

/// A line break byte always starts a character.
proof fn lemma_newline_is_boundary(b: Seq<u8>, i: int)
    requires
        valid_utf8(b),
        0 <= i < b.len(),
        is_newline(b[i]),
    ensures
        is_char_boundary(b, i),
{
    is_char_boundary_iff_not_is_continuation_byte(b, i);
}

proof fn lemma_boundary_before_props(b: Seq<u8>, p: int)
    requires
        valid_utf8(b),
        0 <= p <= b.len(),
    ensures
        0 <= boundary_at_or_before(b, p) <= p,
        is_char_boundary(b, boundary_at_or_before(b, p)),
    decreases p,
{
    if p <= 0 {
        is_char_boundary_start_end_of_seq(b);
    } else if !is_char_boundary(b, p) {
        lemma_boundary_before_props(b, p - 1);
    }
}

proof fn lemma_boundary_after_props(b: Seq<u8>, p: int)
    requires
        valid_utf8(b),
        0 <= p <= b.len(),
    ensures
        p <= boundary_at_or_after(b, p) <= b.len(),
        is_char_boundary(b, boundary_at_or_after(b, p)),
    decreases b.len() - p,
{
    if p >= b.len() {
        is_char_boundary_start_end_of_seq(b);
    } else if !is_char_boundary(b, p) {
        lemma_boundary_after_props(b, p + 1);
    }
}

/// Cutting a valid text at two character boundaries leaves a valid text.
proof fn lemma_cut_valid(b: Seq<u8>, from: int, to: int)
    requires
        valid_utf8(b),
        0 <= from <= to <= b.len(),
        is_char_boundary(b, from),
        is_char_boundary(b, to),
    ensures
        valid_utf8(cut(b, from, to)),
{
    valid_utf8_split(b, from);
    valid_utf8_split(b, to);
    assert(b.take(from) == b.subrange(0, from));
    assert(b.skip(to) == b.subrange(to, b.len() as int));
    valid_utf8_concat(b.take(from), b.skip(to));
}

/// Inserting a valid text at a character boundary gives a valid text.
proof fn lemma_splice_valid(b: Seq<u8>, at: int, ins: Seq<u8>)
    requires
        valid_utf8(b),
        valid_utf8(ins),
        0 <= at <= b.len(),
        is_char_boundary(b, at),
    ensures
        valid_utf8(splice_in(b, at, ins)),
{
    valid_utf8_split(b, at);
    assert(b.take(at) == b.subrange(0, at));
    assert(b.skip(at) == b.subrange(at, b.len() as int));
    valid_utf8_concat(b.take(at), ins);
    valid_utf8_concat(b.take(at) + ins, b.skip(at));
}

/// Removing a line break that starts at a character boundary leaves a valid
/// text.
proof fn lemma_cut_newline_valid(b: Seq<u8>, at: int)
    requires
        valid_utf8(b),
        0 <= at < b.len(),
        is_char_boundary(b, at),
        is_newline(b[at]),
    ensures
        valid_utf8(cut(b, at, at + 1)),
{
    valid_utf8_split(b, at);
    let rest = b.subrange(at, b.len() as int);
    assert(rest[0] == 10u8);
    assert(valid_first_scalar(rest));
    assert(pop_first_scalar(rest) == b.skip(at + 1));
    assert(valid_utf8(b.skip(at + 1)));
    assert(b.take(at) == b.subrange(0, at));
    valid_utf8_concat(b.take(at), b.skip(at + 1));
}

/// The byte after a line break starts a character.
proof fn lemma_after_newline_is_boundary(b: Seq<u8>, i: int)
    requires
        valid_utf8(b),
        0 <= i < b.len(),
        is_newline(b[i]),
    ensures
        is_char_boundary(b, i + 1),
{
    if i + 1 == b.len() {
        is_char_boundary_start_end_of_seq(b);
    } else {
        lemma_newline_is_boundary(b, i);
        valid_utf8_split(b, i);
        let rest = b.subrange(i, b.len() as int);
        assert(rest[0] == 10u8);
        let tail = pop_first_scalar(rest);
        assert(tail == b.subrange(i + 1, b.len() as int));
        assert(valid_utf8(tail));
        assert(tail[0] == b[i + 1]);
        assert(valid_first_scalar(tail));
        assert(!is_continuation_byte(b[i + 1]));
        is_char_boundary_iff_not_is_continuation_byte(b, i + 1);
    }
}

proof fn lemma_encode_one(c: char)
    ensures
        encode_utf8(seq![c]) == encode_scalar(c as u32),
        valid_utf8(encode_scalar(c as u32)),
        1 <= encode_scalar(c as u32).len() <= 4,
{
    char_is_scalar(c);
    assert(seq![c].drop_first() == Seq::<char>::empty());
    assert(encode_utf8(Seq::<char>::empty()) == Seq::<u8>::empty());
    assert(encode_scalar(c as u32) + Seq::<u8>::empty() == encode_scalar(c as u32));
    encode_utf8_valid_utf8(seq![c]);
}

// ---------------------------------------------------------------------------
// Conversions
// ---------------------------------------------------------------------------

/// The UTF-8 encoding of one character.
pub fn encode_char(c: char) -> (v: Vec<u8>)
    ensures
        v@ == encode_scalar(c as u32),
{
    proof {
        char_is_scalar(c);
    }
    let x: u32 = c as u32;
    if x <= 0x7F {
        vec![(x & 0x7F) as u8]
    } else if x <= 0x7FF {
        vec![0xC0 | ((x >> 6) & 0x1F) as u8, 0x80 | (x & 0x3F) as u8]
    } else if x <= 0xFFFF {
        vec![0xE0 | ((x >> 12) & 0x0F) as u8, 0x80 | ((x >> 6) & 0x3F) as u8, 0x80 | (x & 0x3F) as u8]
    } else {
        vec![
            0xF0 | ((x >> 18) & 0x7) as u8,
            0x80 | ((x >> 12) & 0x3F) as u8,
            0x80 | ((x >> 6) & 0x3F) as u8,
            0x80 | (x & 0x3F) as u8,
        ]
    }
}

/// Bytes `[0, from)` followed by `ins`, followed by bytes `[to, len)`.
fn rebuild(b: &[u8], from: usize, ins: &Vec<u8>, to: usize) -> (v: Vec<u8>)
    requires
        from <= to <= b@.len(),
    ensures
        v@ == b@.take(from as int) + ins@ + b@.skip(to as int),
{
    let mut v: Vec<u8> = Vec::new();
    let mut i: usize = 0;
    while i < from
        invariant
            from <= to <= b@.len(),
            i <= from,
            v@ == b@.take(i as int),
        decreases from - i,
    {
        v.push(b[i]);
        i = i + 1;
        assert(v@ == b@.take(i as int));
    }
    let mut k: usize = 0;
    while k < ins.len()
        invariant
            from <= to <= b@.len(),
            k <= ins@.len(),
            v@ == b@.take(from as int) + ins@.take(k as int),
        decreases ins@.len() - k,
    {
        v.push(ins[k]);
        k = k + 1;
        assert(v@ == b@.take(from as int) + ins@.take(k as int));
    }
    assert(ins@.take(ins@.len() as int) == ins@);
    let mut j: usize = to;
    while j < b.len()
        invariant
            from <= to <= j <= b@.len(),
            v@ == b@.take(from as int) + ins@ + b@.subrange(to as int, j as int),
        decreases b@.len() - j,
    {
        v.push(b[j]);
        j = j + 1;
        assert(v@ == b@.take(from as int) + ins@ + b@.subrange(to as int, j as int));
    }
    assert(b@.subrange(to as int, b@.len() as int) == b@.skip(to as int));
    v
}

// ---------------------------------------------------------------------------
// Cursor helpers
// ---------------------------------------------------------------------------

/// Byte offset of the start of the line containing `pos`.
pub fn line_start(buf: &str, pos: usize) -> (r: usize)
    requires
        is_char_boundary(utf8_of(buf@), pos as int),
    ensures
        r == line_start_of(utf8_of(buf@), pos as int),
{
    let b = buf.as_bytes();
    let ghost bs = utf8_of(buf@);
    let mut i = pos;
    while i > 0
        invariant
            bs == utf8_of(buf@),
            b@ == bs,
            i <= pos <= bs.len(),
            line_start_of(bs, pos as int) == line_start_of(bs, i as int),
        decreases i,
    {
        if b[i - 1] == 10u8 {
            return i;
        }
        i = i - 1;
    }
    0
}

/// Byte offset of the end of the line containing `pos` (just before the line
/// break, or the end of the text).
pub fn line_end(buf: &str, pos: usize) -> (r: usize)
    requires
        is_char_boundary(utf8_of(buf@), pos as int),
    ensures
        r == line_end_of(utf8_of(buf@), pos as int),
{
    let b = buf.as_bytes();
    let ghost bs = utf8_of(buf@);
    let mut i = pos;
    while i < b.len()
        invariant
            bs == utf8_of(buf@),
            b@ == bs,
            pos <= i <= bs.len(),
            line_end_of(bs, pos as int) == line_end_of(bs, i as int),
        decreases bs.len() - i,
    {
        if b[i] == 10u8 {
            return i;
        }
        i = i + 1;
    }
    b.len()
}

/// Move backward one character boundary.
pub fn prev_char_boundary(buf: &str, pos: usize) -> (r: usize)
    requires
        pos <= utf8_of(buf@).len(),
    ensures
        r == prev_boundary_of(utf8_of(buf@), pos as int),
{
    if pos == 0 {
        return 0;
    }
    let ghost bs = utf8_of(buf@);
    let mut p = pos - 1;
    while p > 0 && !buf.is_char_boundary(p)
        invariant
            bs == utf8_of(buf@),
            p < pos <= bs.len(),
            boundary_at_or_before(bs, p as int) == boundary_at_or_before(bs, pos - 1),
        decreases p,
    {
        p = p - 1;
    }
    p
}

/// Move forward one character boundary.
pub fn next_char_boundary(buf: &str, pos: usize) -> (r: usize)
    ensures
        r == next_boundary_of(utf8_of(buf@), pos as int),
{
    let len = buf.as_bytes().len();
    if pos >= len {
        return len;
    }
    let ghost bs = utf8_of(buf@);
    let mut p = pos + 1;
    while p < len && !buf.is_char_boundary(p)
        invariant
            bs == utf8_of(buf@),
            len == bs.len(),
            pos < p <= bs.len(),
            boundary_at_or_after(bs, p as int) == boundary_at_or_after(bs, pos + 1),
        decreases bs.len() - p,
    {
        p = p + 1;
    }
    p
}

/// Whether a byte, read as a Latin-1 character, is white space.
fn space_byte(x: u8) -> (r: bool)
    ensures
        r == is_space_byte(x),
{
    x == 9u8 || x == 10u8 || x == 11u8 || x == 12u8 || x == 13u8 || x == 32u8 || x == 0x85u8
        || x == 0xA0u8
}

/// Move backward to the start of the previous word.
pub fn prev_word_boundary(buf: &str, pos: usize) -> (r: usize)
    requires
        pos <= utf8_of(buf@).len(),
    ensures
        r == prev_word_of(utf8_of(buf@), pos as int),
{
    let bytes = buf.as_bytes();
    let ghost bs = utf8_of(buf@);
    let mut p = pos;
    while p > 0 && space_byte(bytes[p - 1])
        invariant
            bs == utf8_of(buf@),
            bytes@ == bs,
            p <= pos <= bs.len(),
            skip_space_back(bs, p as int) == skip_space_back(bs, pos as int),
        decreases p,
    {
        p = p - 1;
    }
    let ghost q = p;
    while p > 0 && !space_byte(bytes[p - 1])
        invariant
            bs == utf8_of(buf@),
            bytes@ == bs,
            p <= q <= bs.len(),
            q == skip_space_back(bs, pos as int),
            skip_word_back(bs, p as int) == skip_word_back(bs, q as int),
        decreases p,
    {
        p = p - 1;
    }
    p
}

/// Move forward to the start of the next word.
pub fn next_word_boundary(buf: &str, pos: usize) -> (r: usize)
    requires
        pos <= utf8_of(buf@).len(),
    ensures
        r == next_word_of(utf8_of(buf@), pos as int),
{
    let bytes = buf.as_bytes();
    let ghost bs = utf8_of(buf@);
    let len = bytes.len();
    let mut p = pos;
    while p < len && !space_byte(bytes[p])
        invariant
            bs == utf8_of(buf@),
            bytes@ == bs,
            len == bs.len(),
            pos <= p <= len,
            skip_word_fwd(bs, p as int) == skip_word_fwd(bs, pos as int),
        decreases len - p,
    {
        p = p + 1;
    }
    let ghost q = p;
    while p < len && space_byte(bytes[p])
        invariant
            bs == utf8_of(buf@),
            bytes@ == bs,
            len == bs.len(),
            q <= p <= len,
            q == skip_word_fwd(bs, pos as int),
            skip_space_fwd(bs, p as int) == skip_space_fwd(bs, q as int),
        decreases len - p,
    {
        p = p + 1;
    }
    p
}

/// Number of line breaks among the first `k` bytes of a text.
fn newlines_before(buf: &str, k: usize) -> (r: usize)
    requires
        k <= utf8_of(buf@).len(),
    ensures
        r == count_newlines(utf8_of(buf@), k as int),
{
    let b = buf.as_bytes();
    let ghost bs = utf8_of(buf@);
    let mut n: usize = 0;
    let mut i: usize = 0;
    while i < k
        invariant
            bs == utf8_of(buf@),
            b@ == bs,
            k <= bs.len(),
            i <= k,
            n == count_newlines(bs, i as int),
        decreases k - i,
    {
        proof {
            lemma_count_newlines_le(bs, i as int);
        }
        if b[i] == 10u8 {
            n = n + 1;
        }
        i = i + 1;
    }
    n
}

/// Convert a byte offset to (line index, column).
pub fn cursor_line_col(buf: &str, pos: usize) -> (r: (usize, usize))
    requires
        is_char_boundary(utf8_of(buf@), min_int(pos as int, utf8_of(buf@).len() as int)),
    ensures
        r.0 == line_col_of(utf8_of(buf@), pos as int).0,
        r.1 == line_col_of(utf8_of(buf@), pos as int).1,
{
    let ghost bs = utf8_of(buf@);
    let len = buf.as_bytes().len();
    let m = if pos < len {
        pos
    } else {
        len
    };
    let line_idx = newlines_before(buf, m);
    let ls = line_start(buf, m);
    proof {
        lemma_line_start_bounds(bs, m as int);
    }
    let col = pos - ls;
    (line_idx, col)
}

/// Convert (line index, column) to a byte offset, clamping the column to the
/// line length.
pub fn line_col_to_offset(buf: &str, target_line: usize, target_col: usize) -> (r: usize)
    ensures
        r == offset_of_line_col(utf8_of(buf@), target_line as nat, target_col as int),
{
    let b = buf.as_bytes();
    let ghost bs = utf8_of(buf@);
    let len = b.len();
    let mut current_line: usize = 0;
    let mut line_start: usize = 0;
    let mut i: usize = 0;
    while i < len
        invariant
            bs == utf8_of(buf@),
            b@ == bs,
            len == bs.len(),
            valid_utf8(bs),
            i <= len,
            current_line <= target_line,
            current_line == count_newlines(bs, i as int),
            line_start == line_start_of(bs, i as int),
            current_line == target_line ==> line_start == line_begin(bs, target_line as nat),
            current_line == target_line ==> forall|j: int|
                line_start <= j < i ==> !is_newline(#[trigger] bs[j]),
            current_line == target_line ==> forall|j: int|
                line_start <= j < i && is_char_boundary(bs, j) ==> j - line_start != target_col,
        decreases len - i,
    {
        proof {
            lemma_line_start_bounds(bs, i as int);
            lemma_count_newlines_le(bs, i as int);
        }
        if buf.is_char_boundary(i) {
            if current_line == target_line {
                let col = i - line_start;
                if col == target_col || b[i] == 10u8 {
                    proof {
                        lemma_count_newlines_mono(bs, i as int, len as int);
                        lemma_line_begin_is_line_start(bs, i as int);
                        lemma_line_end_bounds(bs, line_start as int);
                        if b[i as int] == 10u8 {
                            lemma_line_end_is(bs, line_start as int, i as int);
                        } else {
                            lemma_line_end_bounds(bs, i as int);
                        }
                    }
                    return i;
                }
            } else if b[i] == 10u8 {
                current_line = current_line + 1;
                line_start = i + 1;
                proof {
                    lemma_line_begin_is_line_start(bs, i + 1);
                }
            }
        } else {
            proof {
                if b[i as int] == 10u8 {
                    lemma_newline_is_boundary(bs, i as int);
                }
            }
        }
        i = i + 1;
    }
    if current_line == target_line {
        proof {
            lemma_line_start_bounds(bs, len as int);
            lemma_line_end_none(bs, line_start as int);
        }
        let remaining_col = len - line_start;
        return line_start + if remaining_col < target_col {
            remaining_col
        } else {
            target_col
        };
    }
    len
}


// ---------------------------------------------------------------------------
// Editing
// ---------------------------------------------------------------------------

/// Length in bytes of the UTF-8 encoding of a string slice.
pub fn byte_len(s: &str) -> (n: usize)
    ensures
        n == utf8_of(s@).len(),
{
    s.as_bytes().len()
}

/// Replace bytes `[from, to)` of the text by `ins`.
fn replace_bytes(buf: &mut String, from: usize, ins: &Vec<u8>, to: usize)
    requires
        from <= to <= utf8_of(old(buf)@).len(),
        valid_utf8(utf8_of(old(buf)@).take(from as int) + ins@ + utf8_of(old(buf)@).skip(to as int)),
    ensures
        utf8_of(final(buf)@) == utf8_of(old(buf)@).take(from as int) + ins@ + utf8_of(
            old(buf)@,
        ).skip(to as int),
{
    let v = rebuild(buf.as_str().as_bytes(), from, ins, to);
    proof {
        decode_utf8_encode_utf8(v@);
    }
    *buf = string_from_utf8(v);
}

/// Remove bytes `[from, to)`; both ends are character boundaries.
fn cut_bytes(buf: &mut String, from: usize, to: usize)
    requires
        from <= to <= utf8_of(old(buf)@).len(),
        valid_utf8(cut(utf8_of(old(buf)@), from as int, to as int)),
    ensures
        utf8_of(final(buf)@) == cut(utf8_of(old(buf)@), from as int, to as int),
{
    let ghost b = utf8_of(buf@);
    let empty: Vec<u8> = Vec::new();
    assert(b.take(from as int) + empty@ == b.take(from as int));
    replace_bytes(buf, from, &empty, to);
}

/// Process a single key press against the text and the cursor.
///
/// The cursor is first clamped to the end of the text. Keys that read or edit
/// the text at the cursor need it on a character boundary (std's slicing and
/// insertion would panic otherwise).
pub fn handle_text_input(buf: &mut String, cursor: &mut usize, key: KeyInput)
    requires
        key_touches_text(key) ==> is_char_boundary(
            utf8_of(old(buf)@),
            min_int(*old(cursor) as int, utf8_of(old(buf)@).len() as int),
        ),
    ensures
        utf8_of(final(buf)@) == edit_result(utf8_of(old(buf)@), *old(cursor) as int, key).0,
        *final(cursor) == edit_result(utf8_of(old(buf)@), *old(cursor) as int, key).1,
{
    let ghost b = utf8_of(buf@);
    let len = byte_len(buf.as_str());
    if *cursor > len {
        *cursor = len;
    }
    let c = *cursor;
    assert(c == min_int(*old(cursor) as int, b.len() as int));
    match key.code {
        KeyCode::Char(ch) => {
            if key.ctrl && ch == 'a' {
                *cursor = line_start(buf.as_str(), c);
                return ;
            }
            if key.ctrl && ch == 'e' {
                *cursor = line_end(buf.as_str(), c);
                return ;
            }
            if key.ctrl && ch == 'k' {
                let end = line_end(buf.as_str(), c);
                proof {
                    lemma_line_end_bounds(b, c as int);
                }
                if end == c && end < len {
                    proof {
                        lemma_cut_newline_valid(b, end as int);
                    }
                    cut_bytes(buf, end, end + 1);
                } else {
                    proof {
                        if end < b.len() {
                            lemma_newline_is_boundary(b, end as int);
                        } else {
                            is_char_boundary_start_end_of_seq(b);
                        }
                        lemma_cut_valid(b, c as int, end as int);
                    }
                    cut_bytes(buf, c, end);
                }
                return ;
            }
            if key.ctrl && ch == 'u' {
                let start = line_start(buf.as_str(), c);
                proof {
                    lemma_line_start_bounds(b, c as int);
                    if start > 0 {
                        lemma_newline_is_boundary(b, start - 1);
                        lemma_after_newline_is_boundary(b, start - 1);
                    } else {
                        is_char_boundary_start_end_of_seq(b);
                    }
                    lemma_cut_valid(b, start as int, c as int);
                }
                cut_bytes(buf, start, c);
                *cursor = start;
                return ;
            }
            let enc = encode_char(ch);
            proof {
                lemma_encode_one(ch);
                lemma_splice_valid(b, c as int, enc@);
            }
            replace_bytes(buf, c, &enc, c);
            let new_len = byte_len(buf.as_str());
            *cursor = c + enc.len();
        },
        KeyCode::Enter => {
            let nl: Vec<u8> = vec![10u8];
            proof {
                lemma_encode_one('\n');
                assert(('\n' as u32) == 10u32);
                assert((10u32 & 0x7Fu32) as u8 == 10u8) by (bit_vector);
                assert(encode_scalar('\n' as u32) == seq![10u8]);
                assert(nl@ == seq![10u8]);
                lemma_splice_valid(b, c as int, nl@);
            }
            replace_bytes(buf, c, &nl, c);
            let new_len = byte_len(buf.as_str());
            *cursor = c + 1;
        },
        KeyCode::Backspace => {
            if c > 0 {
                let prev = prev_char_boundary(buf.as_str(), c);
                proof {
                    lemma_boundary_before_props(b, c - 1);
                    lemma_cut_valid(b, prev as int, c as int);
                }
                cut_bytes(buf, prev, c);
                *cursor = prev;
            }
        },
        KeyCode::Delete => {
            if c < len {
                let next = next_char_boundary(buf.as_str(), c);
                proof {
                    lemma_boundary_after_props(b, c + 1);
                    lemma_cut_valid(b, c as int, next as int);
                }
                cut_bytes(buf, c, next);
            }
        },
        KeyCode::Left => {
            if key.ctrl {
                *cursor = prev_word_boundary(buf.as_str(), c);
            } else {
                *cursor = prev_char_boundary(buf.as_str(), c);
            }
        },
        KeyCode::Right => {
            if key.ctrl {
                *cursor = next_word_boundary(buf.as_str(), c);
            } else if c < len {
                *cursor = next_char_boundary(buf.as_str(), c);
            }
        },
        KeyCode::Home => {
            *cursor = line_start(buf.as_str(), c);
        },
        KeyCode::End => {
            *cursor = line_end(buf.as_str(), c);
        },
        KeyCode::Up => {
            let (line_idx, col) = cursor_line_col(buf.as_str(), c);
            if line_idx > 0 {
                *cursor = line_col_to_offset(buf.as_str(), line_idx - 1, col);
            }
        },
        KeyCode::Down => {
            let (line_idx, col) = cursor_line_col(buf.as_str(), c);
            let breaks = newlines_before(buf.as_str(), len);
            if line_idx < breaks {
                *cursor = line_col_to_offset(buf.as_str(), line_idx + 1, col);
            }
        },
        _ => {},
    }
}

/// A `TextEditor` wraps a text and a cursor for convenient use.
pub struct TextEditor {
    pub buffer: String,
    pub cursor: usize,
}

impl TextEditor {
    /// An empty editor.
    pub fn new() -> (r: Self)
        ensures
            r.buffer@ == Seq::<char>::empty(),
            r.cursor == 0,
    {
        TextEditor { buffer: String::new(), cursor: 0 }
    }

    /// An editor holding `text`, with the cursor at its end.
    pub fn with_text(text: &str) -> (r: Self)
        ensures
            r.buffer@ == text@,
            r.cursor == utf8_of(text@).len(),
    {
        let len = byte_len(text);
        TextEditor { buffer: text.to_owned(), cursor: len }
    }

    /// Process a key press (see [`handle_text_input`]).
    pub fn handle_input(&mut self, key: KeyInput)
        requires
            key_touches_text(key) ==> is_char_boundary(
                utf8_of(old(self).buffer@),
                min_int(old(self).cursor as int, utf8_of(old(self).buffer@).len() as int),
            ),
        ensures
            utf8_of(final(self).buffer@) == edit_result(
                utf8_of(old(self).buffer@),
                old(self).cursor as int,
                key,
            ).0,
            final(self).cursor == edit_result(
                utf8_of(old(self).buffer@),
                old(self).cursor as int,
                key,
            ).1,
    {
        handle_text_input(&mut self.buffer, &mut self.cursor, key);
    }

    /// The current text.
    pub fn text(&self) -> (r: &str)
        ensures
            r@ == self.buffer@,
    {
        self.buffer.as_str()
    }

    /// Replace the text and put the cursor at its end.
    pub fn set_text(&mut self, text: &str)
        ensures
            final(self).buffer@ == text@,
            final(self).cursor == utf8_of(text@).len(),
    {
        self.buffer = text.to_owned();
        self.cursor = byte_len(text);
    }

    /// Empty the text and put the cursor at the start.
    pub fn clear(&mut self)
        ensures
            final(self).buffer@ == Seq::<char>::empty(),
            final(self).cursor == 0,
    {
        self.buffer = String::new();
        self.cursor = 0;
    }

    /// (line index, column) of the cursor.
    pub fn cursor_position(&self) -> (r: (usize, usize))
        requires
            is_char_boundary(
                utf8_of(self.buffer@),
                min_int(self.cursor as int, utf8_of(self.buffer@).len() as int),
            ),
        ensures
            r.0 == line_col_of(utf8_of(self.buffer@), self.cursor as int).0,
            r.1 == line_col_of(utf8_of(self.buffer@), self.cursor as int).1,
    {
        cursor_line_col(self.buffer.as_str(), self.cursor)
    }

    /// Number of lines in the text.
    pub fn line_count(&self) -> (r: usize)
        requires
            utf8_of(self.buffer@).len() < usize::MAX,
        ensures
            r == line_count_of(utf8_of(self.buffer@)),
    {
        let len = byte_len(self.buffer.as_str());
        proof {
            lemma_count_newlines_le(utf8_of(self.buffer@), len as int);
        }
        newlines_before(self.buffer.as_str(), len) + 1
    }
}

impl Default for TextEditor {
    fn default() -> (r: Self)
        ensures
            r.buffer@ == Seq::<char>::empty(),
            r.cursor == 0,
    {
        Self::new()
    }
}


// ---------------------------------------------------------------------------
// Typing then deleting
// ---------------------------------------------------------------------------

proof fn lemma_scalar_bytes(c: char)
    ensures
        !is_continuation_byte(encode_scalar(c as u32)[0]),
        forall|k: int|
            1 <= k < encode_scalar(c as u32).len() ==> is_continuation_byte(
                #[trigger] encode_scalar(c as u32)[k],
            ),
{
    let s = c as u32;
    char_is_scalar(c);
    assert(0x80u8 <= (0x80u8 | ((s & 0x3F) as u8)) <= 0xBFu8) by (bit_vector);
    assert(0x80u8 <= (0x80u8 | (((s >> 6) & 0x3F) as u8)) <= 0xBFu8) by (bit_vector);
    assert(0x80u8 <= (0x80u8 | (((s >> 12) & 0x3F) as u8)) <= 0xBFu8) by (bit_vector);
    assert(((s & 0x7F) as u8) <= 0x7Fu8) by (bit_vector);
    assert((0xC0u8 | (((s >> 6) & 0x1F) as u8)) >= 0xC0u8) by (bit_vector);
    assert((0xE0u8 | (((s >> 12) & 0x0F) as u8)) >= 0xE0u8) by (bit_vector);
    assert((0xF0u8 | (((s >> 18) & 0x7) as u8)) >= 0xF0u8) by (bit_vector);
}

proof fn lemma_boundary_before_is(b: Seq<u8>, c: int, p: int)
    requires
        valid_utf8(b),
        0 <= c <= p <= b.len(),
        is_char_boundary(b, c),
        forall|q: int| c < q <= p ==> !is_char_boundary(b, q),
    ensures
        boundary_at_or_before(b, p) == c,
    decreases p,
{
    if p > c {
        lemma_boundary_before_is(b, c, p - 1);
    }
}

/// Typing a character and then pressing Backspace gives back the text and
/// the cursor, at any character boundary of any text.
pub proof fn law_type_then_backspace(b: Seq<u8>, cursor: int, ch: char, shift: bool, bs_ctrl: bool, bs_shift: bool)
    requires
        valid_utf8(b),
        0 <= cursor <= b.len(),
        is_char_boundary(b, cursor),
    ensures
        ({
            let typed = edit_result(b, cursor, KeyInput { code: KeyCode::Char(ch), ctrl: false, shift });
            edit_result(typed.0, typed.1, KeyInput { code: KeyCode::Backspace, ctrl: bs_ctrl, shift: bs_shift })
        }) == (b, cursor),
{
    let enc = encode_scalar(ch as u32);
    lemma_encode_one(ch);
    lemma_scalar_bytes(ch);
    let b1 = splice_in(b, cursor, enc);
    let c1 = cursor + enc.len();
    lemma_splice_valid(b, cursor, enc);
    assert(b1.len() == b.len() + enc.len());
    assert forall|k: int| 0 <= k < enc.len() implies b1[cursor + k] == enc[k] by {
        assert(b1[cursor + k] == (b.take(cursor) + enc + b.skip(cursor))[cursor + k]);
    }
    is_char_boundary_iff_not_is_continuation_byte(b1, cursor);
    assert(is_char_boundary(b1, cursor)) by {
        assert(b1[cursor + 0] == enc[0]);
    }
    assert forall|q: int| cursor < q <= c1 - 1 implies !is_char_boundary(b1, q) by {
        assert(b1[cursor + (q - cursor)] == enc[q - cursor]);
        is_char_boundary_iff_not_is_continuation_byte(b1, q);
    }
    lemma_boundary_before_is(b1, cursor, c1 - 1);
    assert(prev_boundary_of(b1, c1) == cursor);
    assert(cut(b1, cursor, c1) =~= b);
}

/// Pressing Enter and then Backspace gives back the text and the cursor,
/// at any character boundary of any text.
pub proof fn law_enter_then_backspace(b: Seq<u8>, cursor: int, ctrl: bool, shift: bool, bs_ctrl: bool, bs_shift: bool)
    requires
        valid_utf8(b),
        0 <= cursor <= b.len(),
        is_char_boundary(b, cursor),
    ensures
        ({
            let typed = edit_result(b, cursor, KeyInput { code: KeyCode::Enter, ctrl, shift });
            edit_result(typed.0, typed.1, KeyInput { code: KeyCode::Backspace, ctrl: bs_ctrl, shift: bs_shift })
        }) == (b, cursor),
{
    law_type_then_backspace(b, cursor, '\n', shift, bs_ctrl, bs_shift);
    let s = '\n' as u32;
    assert(s == 10);
    assert((s & 0x7F) as u8 == 10u8) by (bit_vector)
        requires
            s == 10,
    ;
    assert(encode_scalar('\n' as u32) =~= seq![10u8]);
}

/// Turning an offset on a character boundary into its (line, column) and
/// back gives the offset again (`line_col_to_offset` of `cursor_line_col`).
pub proof fn law_line_col_round_trip(b: Seq<u8>, p: int)
    requires
        valid_utf8(b),
        0 <= p <= b.len(),
        is_char_boundary(b, p),
    ensures
        offset_of_line_col(b, line_col_of(b, p).0, line_col_of(b, p).1) == p,
{
    lemma_line_begin_is_line_start(b, p);
    lemma_line_start_bounds(b, p);
    let s = line_start_of(b, p);
    lemma_line_end_bounds(b, s);
    let e = line_end_of(b, s);
    if e < p {
        assert(is_newline(b[e]));
        assert(s <= e < p);
        assert(!is_newline(b[e]));
    }
    lemma_count_newlines_mono(b, p, b.len() as int);
}

proof fn lemma_boundary_same_byte(r: Seq<u8>, i: int, b: Seq<u8>, j: int)
    requires
        valid_utf8(r),
        valid_utf8(b),
        0 <= i < r.len(),
        0 <= j < b.len(),
        r[i] == b[j],
        is_char_boundary(b, j),
    ensures
        is_char_boundary(r, i),
{
    is_char_boundary_iff_not_is_continuation_byte(b, j);
    is_char_boundary_iff_not_is_continuation_byte(r, i);
}

/// Cutting between two character boundaries leaves a valid text on which
/// the cut is a character boundary.
proof fn lemma_cut_boundary(b: Seq<u8>, from: int, to: int)
    requires
        valid_utf8(b),
        0 <= from <= to <= b.len(),
        is_char_boundary(b, from),
        is_char_boundary(b, to),
    ensures
        valid_utf8(cut(b, from, to)),
        is_char_boundary(cut(b, from, to), from),
        cut(b, from, to).len() == b.len() - (to - from),
{
    lemma_cut_valid(b, from, to);
    let r = cut(b, from, to);
    if to == b.len() {
        assert(r.len() == from);
        is_char_boundary_start_end_of_seq(r);
    } else {
        assert(r[from] == b[to]);
        lemma_boundary_same_byte(r, from, b, to);
    }
}

/// Inserting a valid text at a character boundary gives a valid text on
/// which the end of the insertion is a character boundary.
proof fn lemma_splice_boundary(b: Seq<u8>, at: int, ins: Seq<u8>)
    requires
        valid_utf8(b),
        valid_utf8(ins),
        0 <= at <= b.len(),
        is_char_boundary(b, at),
    ensures
        valid_utf8(splice_in(b, at, ins)),
        is_char_boundary(splice_in(b, at, ins), at + ins.len()),
        splice_in(b, at, ins).len() == b.len() + ins.len(),
{
    lemma_splice_valid(b, at, ins);
    let r = splice_in(b, at, ins);
    if at == b.len() {
        assert(r.len() == at + ins.len());
        is_char_boundary_start_end_of_seq(r);
    } else {
        assert(r[at + ins.len()] == b[at]);
        lemma_boundary_same_byte(r, at + ins.len(), b, at);
    }
}

proof fn lemma_line_start_boundary(b: Seq<u8>, pos: int)
    requires
        valid_utf8(b),
        0 <= pos <= b.len(),
    ensures
        0 <= line_start_of(b, pos) <= pos,
        is_char_boundary(b, line_start_of(b, pos)),
{
    lemma_line_start_bounds(b, pos);
    let s = line_start_of(b, pos);
    if s == 0 {
        is_char_boundary_start_end_of_seq(b);
    } else {
        lemma_after_newline_is_boundary(b, s - 1);
    }
}

proof fn lemma_line_end_boundary(b: Seq<u8>, pos: int)
    requires
        valid_utf8(b),
        0 <= pos <= b.len(),
    ensures
        pos <= line_end_of(b, pos) <= b.len(),
        is_char_boundary(b, line_end_of(b, pos)),
{
    lemma_line_end_bounds(b, pos);
    let e = line_end_of(b, pos);
    if e == b.len() {
        is_char_boundary_start_end_of_seq(b);
    } else {
        lemma_newline_is_boundary(b, e);
    }
}

proof fn lemma_skip_back_bounds(b: Seq<u8>, p: int)
    requires
        0 <= p <= b.len(),
    ensures
        0 <= skip_space_back(b, p) <= p,
        0 <= skip_word_back(b, p) <= p,
    decreases p,
{
    if p > 0 {
        lemma_skip_back_bounds(b, p - 1);
    }
}

proof fn lemma_skip_fwd_bounds(b: Seq<u8>, p: int)
    requires
        0 <= p <= b.len(),
    ensures
        p <= skip_space_fwd(b, p) <= b.len(),
        p <= skip_word_fwd(b, p) <= b.len(),
    decreases b.len() - p,
{
    if p < b.len() {
        lemma_skip_fwd_bounds(b, p + 1);
    }
}

proof fn lemma_line_begin_nonneg(b: Seq<u8>, n: nat)
    ensures
        line_begin(b, n) >= 0,
    decreases n,
{
    if n > 0 {
        lemma_line_begin_nonneg(b, (n - 1) as nat);
        let x = line_begin(b, (n - 1) as nat);
        if x < b.len() {
            lemma_line_end_bounds(b, x);
        }
    }
}

proof fn lemma_offset_bounds(b: Seq<u8>, line: nat, col: int)
    requires
        col >= 0,
    ensures
        0 <= offset_of_line_col(b, line, col) <= b.len(),
{
    if line <= count_newlines(b, b.len() as int) {
        let s = line_begin(b, line);
        lemma_line_begin_nonneg(b, line);
        if s <= b.len() {
            lemma_line_end_bounds(b, s);
        }
    }
}

/// Every key of the editor keeps the text valid and the cursor within it;
/// from a cursor on a character boundary, the cursor lands on a character
/// boundary again, but for Up and Down (a column of another line can fall
/// inside a character there) and Ctrl+Left and Ctrl+Right (word moves look
/// at single bytes, and bytes 0x85 and 0xA0 inside a character count as
/// white space).
pub proof fn law_cursor_stays_in_text(b: Seq<u8>, cursor: int, key: KeyInput)
    requires
        valid_utf8(b),
        cursor >= 0,
        is_char_boundary(b, min_int(cursor, b.len() as int)),
    ensures
        ({
            let (b2, c2) = edit_result(b, cursor, key);
            &&& valid_utf8(b2)
            &&& 0 <= c2 <= b2.len()
            &&& (key.code != KeyCode::Up && key.code != KeyCode::Down && !(key.ctrl && (key.code
                == KeyCode::Left || key.code == KeyCode::Right))) ==> is_char_boundary(b2, c2)
        }),
{
    let c = min_int(cursor, b.len() as int);
    is_char_boundary_start_end_of_seq(b);
    match key.code {
        KeyCode::Char(ch) => {
            if key.ctrl && ch == 'a' {
                lemma_line_start_boundary(b, c);
            } else if key.ctrl && ch == 'e' {
                lemma_line_end_boundary(b, c);
            } else if key.ctrl && ch == 'k' {
                lemma_line_end_boundary(b, c);
                let end = line_end_of(b, c);
                if end == c && end < b.len() {
                    lemma_line_end_bounds(b, c);
                    lemma_after_newline_is_boundary(b, end);
                    lemma_cut_boundary(b, c, c + 1);
                } else {
                    lemma_cut_boundary(b, c, end);
                }
            } else if key.ctrl && ch == 'u' {
                lemma_line_start_boundary(b, c);
                lemma_cut_boundary(b, line_start_of(b, c), c);
            } else {
                lemma_encode_one(ch);
                encode_utf8_valid_utf8(seq![ch]);
                lemma_splice_boundary(b, c, encode_scalar(ch as u32));
            }
        },
        KeyCode::Enter => {
            lemma_encode_one('\n');
            encode_utf8_valid_utf8(seq!['\n']);
            assert(('\n' as u32) == 10u32);
            assert((10u32 & 0x7Fu32) as u8 == 10u8) by (bit_vector);
            assert(encode_scalar('\n' as u32) =~= seq![10u8]);
            lemma_splice_boundary(b, c, seq![10u8]);
        },
        KeyCode::Backspace => {
            if c > 0 {
                lemma_boundary_before_props(b, c - 1);
                lemma_cut_boundary(b, prev_boundary_of(b, c), c);
            }
        },
        KeyCode::Delete => {
            if c < b.len() {
                lemma_boundary_after_props(b, c + 1);
                lemma_cut_boundary(b, c, next_boundary_of(b, c));
            }
        },
        KeyCode::Left => {
            if key.ctrl {
                lemma_skip_back_bounds(b, c);
                lemma_skip_back_bounds(b, skip_space_back(b, c));
            } else if c > 0 {
                lemma_boundary_before_props(b, c - 1);
            }
        },
        KeyCode::Right => {
            if key.ctrl {
                lemma_skip_fwd_bounds(b, c);
                lemma_skip_fwd_bounds(b, skip_word_fwd(b, c));
            } else if c < b.len() {
                lemma_boundary_after_props(b, c + 1);
            }
        },
        KeyCode::Home => {
            lemma_line_start_boundary(b, c);
        },
        KeyCode::End => {
            lemma_line_end_boundary(b, c);
        },
        KeyCode::Up => {
            lemma_line_start_bounds(b, c);
            let (li, col) = line_col_of(b, c);
            if li > 0 {
                lemma_offset_bounds(b, (li - 1) as nat, col);
            }
        },
        KeyCode::Down => {
            lemma_line_start_bounds(b, c);
            let (li, col) = line_col_of(b, c);
            lemma_offset_bounds(b, (li + 1) as nat, col);
        },
        _ => {},
    }
}

} // verus!
