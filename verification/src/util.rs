//! Small sequence helpers shared by the modules.

use vstd::prelude::*;
use vstd::string::*;
use vstd::utf8::{
    decode_utf8, decode_utf8_encode_utf8, encode_utf8, is_char_boundary, valid_utf8,
    valid_utf8_split,
};

verus! {

/// The present values of a sequence of options, in order.
pub open spec fn somes<T>(s: Seq<Option<T>>) -> Seq<T>
    decreases s.len(),
{
    if s.len() == 0 {
        Seq::empty()
    } else {
        let rest = somes(s.drop_last());
        match s.last() {
            Some(x) => rest.push(x),
            None => rest,
        }
    }
}

pub proof fn lemma_somes_push<T>(s: Seq<Option<T>>, x: Option<T>)
    ensures
        somes(s.push(x)) == match x {
            Some(v) => somes(s).push(v),
            None => somes(s),
        },
{
    assert(s.push(x).drop_last() == s);
}

pub proof fn lemma_somes_len<T>(s: Seq<Option<T>>)
    ensures
        somes(s).len() <= s.len(),
    decreases s.len(),
{
    if s.len() > 0 {
        lemma_somes_len(s.drop_last());
    }
}

/// `String::from_utf8`: the string the bytes encode when they are valid
/// UTF-8 (the bytes are kept as they are), `None` otherwise.
#[verifier::external_body]
pub(crate) fn utf8_string(bytes: Vec<u8>) -> (s: Option<String>)
    ensures
        s.is_some() == valid_utf8(bytes@),
        s.is_some() ==> s.unwrap()@ == decode_utf8(bytes@),
{
    String::from_utf8(bytes).ok()
}

/// The string that valid UTF-8 bytes encode.
pub fn string_from_utf8(bytes: Vec<u8>) -> (s: String)
    requires
        valid_utf8(bytes@),
    ensures
        s@ == decode_utf8(bytes@),
{
    match utf8_string(bytes) {
        Some(s) => s,
        None => String::new(),
    }
}

/// Copy of bytes `[from, to)`.
pub fn copy_bytes(b: &[u8], from: usize, to: usize) -> (v: Vec<u8>)
    requires
        from <= to <= b@.len(),
    ensures
        v@ == b@.subrange(from as int, to as int),
{
    let mut v: Vec<u8> = Vec::new();
    let mut i: usize = from;
    while i < to
        invariant
            from <= i <= to <= b@.len(),
            v@ == b@.subrange(from as int, i as int),
        decreases to - i,
    {
        v.push(b[i]);
        i = i + 1;
        assert(v@ == b@.subrange(from as int, i as int));
    }
    v
}

/// The part of a string between two character boundaries, given as byte
/// offsets.
pub fn substring(s: &str, from: usize, to: usize) -> (r: String)
    requires
        from <= to <= encode_utf8(s@).len(),
        is_char_boundary(encode_utf8(s@), from as int),
        is_char_boundary(encode_utf8(s@), to as int),
    ensures
        encode_utf8(r@) == encode_utf8(s@).subrange(from as int, to as int),
{
    let b = s.as_bytes();
    let ghost bs = encode_utf8(s@);
    let v = copy_bytes(b, from, to);
    proof {
        vstd::utf8::encode_utf8_valid_utf8(s@);
        valid_utf8_split(bs, to as int);
        let head = bs.subrange(0, to as int);
        assert(head.len() == to);
        // `from` is a boundary of the prefix too.
        lemma_boundary_of_prefix(bs, to as int, from as int);
        valid_utf8_split(head, from as int);
        assert(head.subrange(from as int, head.len() as int) == bs.subrange(from as int, to as int));
        decode_utf8_encode_utf8(v@);
    }
    string_from_utf8(v)
}

/// A character boundary before the end of a prefix cut at a boundary is a
/// boundary of the prefix.
pub proof fn lemma_boundary_of_prefix(b: Seq<u8>, n: int, i: int)
    requires
        valid_utf8(b),
        0 <= i <= n <= b.len(),
        is_char_boundary(b, n),
        is_char_boundary(b, i),
    ensures
        valid_utf8(b.subrange(0, n)),
        is_char_boundary(b.subrange(0, n), i),
{
    valid_utf8_split(b, n);
    let p = b.subrange(0, n);
    if i == n {
        vstd::utf8::is_char_boundary_start_end_of_seq(p);
    } else if i == 0 {
        vstd::utf8::is_char_boundary_start_end_of_seq(p);
    } else {
        vstd::utf8::is_char_boundary_iff_not_is_continuation_byte(b, i);
        vstd::utf8::is_char_boundary_iff_not_is_continuation_byte(p, i);
    }
}


/// Concatenation of two strings.
pub fn concat(a: &str, b: &str) -> (r: String)
    ensures
        r@ == a@ + b@,
{
    let mut s = a.to_owned();
    s.append(b);
    s
}

/// Concatenation of three strings.
pub fn concat3(a: &str, b: &str, c: &str) -> (r: String)
    ensures
        r@ == a@ + b@ + c@,
{
    let mut s = a.to_owned();
    s.append(b);
    s.append(c);
    s
}

/// `FromIterator<char> for String`: the string holding exactly the given
/// characters, in order.
#[verifier::external_body]
pub(crate) fn string_from_chars(v: &Vec<char>) -> (s: String)
    ensures
        s@ == v@,
{
    v.iter().collect()
}

/// `str::chars`, collected: the characters of a string, in order.
#[verifier::external_body]
pub(crate) fn chars_of(s: &str) -> (v: Vec<char>)
    ensures
        v@ == s@,
{
    s.chars().collect()
}

/// The decimal digit character for `d < 10`.
pub open spec fn digit_char(d: nat) -> char {
    (48 + d) as char
}

/// The decimal representation of a natural number, without leading zeros.
pub open spec fn decimal(n: nat) -> Seq<char>
    decreases n,
{
    if n < 10 {
        seq![digit_char(n)]
    } else {
        decimal(n / 10).push(digit_char(n % 10))
    }
}

fn push_decimal(n: u64, out: &mut Vec<char>)
    ensures
        final(out)@ == old(out)@ + decimal(n as nat),
    decreases n,
{
    if n < 10 {
        let c = (48u8 + n as u8) as char;
        out.push(c);
    } else {
        push_decimal(n / 10, out);
        let c = (48u8 + (n % 10) as u8) as char;
        out.push(c);
    }
}

/// The decimal representation of a number.
pub fn fmt_decimal(n: u64) -> (r: String)
    ensures
        r@ == decimal(n as nat),
{
    let mut v: Vec<char> = Vec::new();
    push_decimal(n, &mut v);
    assert(v@ == decimal(n as nat));
    string_from_chars(&v)
}


/// Whether a character has the Unicode `White_Space` property (the set that
/// `char::is_whitespace` and `str::trim` use).
pub open spec fn is_white_space(c: char) -> bool {
    let u = c as u32;
    (9 <= u <= 13) || u == 32 || u == 0x85 || u == 0xA0 || u == 0x1680 || (0x2000 <= u <= 0x200A)
        || u == 0x2028 || u == 0x2029 || u == 0x202F || u == 0x205F || u == 0x3000
}

/// Index of the first non-white-space character at or after `i` (or the
/// length).
pub open spec fn skip_ws_from(s: Seq<char>, i: int) -> int
    decreases s.len() - i,
{
    if i >= s.len() {
        s.len() as int
    } else if is_white_space(s[i]) {
        skip_ws_from(s, i + 1)
    } else {
        i
    }
}

/// End of the text before the white space that ends `s[..j]`.
pub open spec fn skip_ws_back(s: Seq<char>, j: int) -> int
    decreases j,
{
    if j <= 0 {
        0
    } else if is_white_space(s[j - 1]) {
        skip_ws_back(s, j - 1)
    } else {
        j
    }
}

/// The text without leading and trailing white space.
pub open spec fn trimmed(s: Seq<char>) -> Seq<char> {
    let a = skip_ws_from(s, 0);
    let b = skip_ws_back(s, s.len() as int);
    if a >= b {
        Seq::empty()
    } else {
        s.subrange(a, b)
    }
}

/// Whether a character is white space (`char::is_whitespace`).
pub fn is_whitespace_char(c: char) -> (r: bool)
    ensures
        r == is_white_space(c),
{
    let u = c as u32;
    (9 <= u && u <= 13) || u == 32 || u == 0x85 || u == 0xA0 || u == 0x1680 || (0x2000 <= u && u
        <= 0x200A) || u == 0x2028 || u == 0x2029 || u == 0x202F || u == 0x205F || u == 0x3000
}

/// The text without leading and trailing white space (`str::trim`).
pub fn trim(s: &str) -> (r: String)
    ensures
        r@ == trimmed(s@),
{
    let v = chars_of(s);
    let n = v.len();
    let mut a: usize = 0;
    while a < n && is_whitespace_char(v[a])
        invariant
            a <= n == v@.len(),
            v@ == s@,
            skip_ws_from(v@, a as int) == skip_ws_from(v@, 0),
        decreases n - a,
    {
        a = a + 1;
    }
    let mut b: usize = n;
    while b > 0 && is_whitespace_char(v[b - 1])
        invariant
            b <= n == v@.len(),
            v@ == s@,
            skip_ws_back(v@, b as int) == skip_ws_back(v@, n as int),
        decreases b,
    {
        b = b - 1;
    }
    let mut out: Vec<char> = Vec::new();
    if a < b {
        let mut i: usize = a;
        while i < b
            invariant
                a <= i <= b <= n == v@.len(),
                out@ == v@.subrange(a as int, i as int),
            decreases b - i,
        {
            out.push(v[i]);
            i = i + 1;
        }
    }
    string_from_chars(&out)
}


/// Whether `needle` occurs in `hay` as a contiguous run.
pub open spec fn occurs_in<T>(needle: Seq<T>, hay: Seq<T>) -> bool {
    exists|i: int| 0 <= i && i + needle.len() <= hay.len() && #[trigger] hay.subrange(i, i + needle.len()) == needle
}

/// Whether `needle` occurs in `hay` at position `i`.
fn occurs_at(needle: &Vec<char>, hay: &Vec<char>, i: usize) -> (r: bool)
    requires
        i + needle@.len() <= hay@.len(),
    ensures
        r == (hay@.subrange(i as int, i + needle@.len()) == needle@),
{
    let hl = hay.len();
    let mut k: usize = 0;
    while k < needle.len()
        invariant
            k <= needle@.len(),
            hl == hay@.len(),
            i + needle@.len() <= hay@.len(),
            forall|j: int| 0 <= j < k ==> hay@[i + j] == needle@[j],
        decreases needle@.len() - k,
    {
        if hay[i + k] != needle[k] {
            assert(hay@.subrange(i as int, i + needle@.len())[k as int] != needle@[k as int]);
            return false;
        }
        k = k + 1;
    }
    assert(hay@.subrange(i as int, i + needle@.len()) =~= needle@);
    true
}

/// Whether `needle` occurs in `hay` as a contiguous run of characters.
pub fn contains_chars(hay: &Vec<char>, needle: &Vec<char>) -> (r: bool)
    ensures
        r == occurs_in(needle@, hay@),
{
    if needle.len() > hay.len() {
        return false;
    }
    if needle.len() == 0 {
        assert(hay@.subrange(0int, 0int + needle@.len()) =~= needle@);
        return true;
    }
    let hl = hay.len();
    let last = hl - needle.len();
    let mut i: usize = 0;
    while i <= last
        invariant
            last + needle@.len() == hay@.len(),
            hl == hay@.len(),
            last < hl,
            needle@.len() > 0,
            forall|j: int| 0 <= j < i ==> #[trigger] hay@.subrange(j, j + needle@.len()) != needle@,
        decreases last + 1 - i,
    {
        if occurs_at(needle, hay, i) {
            return true;
        }
        i = i + 1;
    }
    false
}


/// `String::push`: appends the character.
#[verifier::external_body]
pub(crate) fn push_char(s: &mut String, c: char)
    ensures
        final(s)@ == old(s)@.push(c),
{
    s.push(c);
}

/// `String::pop`: removes the last character, if there is one.
#[verifier::external_body]
pub(crate) fn pop_char(s: &mut String)
    ensures
        final(s)@ == if old(s)@.len() > 0 {
            old(s)@.drop_last()
        } else {
            old(s)@
        },
{
    s.pop();
}

/// The text without its last character (unchanged when empty).
pub open spec fn without_last(s: Seq<char>) -> Seq<char> {
    if s.len() > 0 {
        s.drop_last()
    } else {
        s
    }
}


/// The text without trailing white space.
pub open spec fn trimmed_end(s: Seq<char>) -> Seq<char> {
    s.subrange(0, skip_ws_back(s, s.len() as int))
}

proof fn lemma_skip_ws_back_bounds(s: Seq<char>, j: int)
    requires
        0 <= j <= s.len(),
    ensures
        0 <= skip_ws_back(s, j) <= j,
    decreases j,
{
    if j > 0 && is_white_space(s[j - 1]) {
        lemma_skip_ws_back_bounds(s, j - 1);
    }
}

/// The text without trailing white space (`str::trim_end`).
pub fn trim_end(s: &str) -> (r: String)
    ensures
        r@ == trimmed_end(s@),
{
    let v = chars_of(s);
    let n = v.len();
    let mut b: usize = n;
    while b > 0 && is_whitespace_char(v[b - 1])
        invariant
            b <= n == v@.len(),
            v@ == s@,
            skip_ws_back(v@, b as int) == skip_ws_back(v@, n as int),
        decreases b,
    {
        b = b - 1;
    }
    let mut out: Vec<char> = Vec::new();
    let mut i: usize = 0;
    while i < b
        invariant
            i <= b <= n == v@.len(),
            out@ == v@.subrange(0, i as int),
        decreases b - i,
    {
        out.push(v[i]);
        i = i + 1;
    }
    string_from_chars(&out)
}

/// The characters that `String::from_utf8_lossy` makes of a byte string:
/// valid UTF-8 decoded, each maximal invalid sequence replaced by U+FFFD.
pub uninterp spec fn lossy_utf8(b: Seq<u8>) -> Seq<char>;

/// `String::from_utf8_lossy(..).into_owned()`: the bytes decoded as UTF-8,
/// with U+FFFD for invalid sequences. For valid UTF-8 the documentation
/// promises the text the bytes encode, and that is stated; for other input
/// only that the result is the named function of the bytes.
#[verifier::external_body]
pub(crate) fn from_utf8_lossy(b: &[u8]) -> (s: String)
    ensures
        s@ == lossy_utf8(b@),
        valid_utf8(b@) ==> s@ == decode_utf8(b@),
{
    String::from_utf8_lossy(b).into_owned()
}

} // verus!
