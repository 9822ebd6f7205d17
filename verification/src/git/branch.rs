//! Branch records and their display order.

use vstd::prelude::*;
use vstd::multiset::Multiset;

use crate::git::status::{clone_opt_string, opt_chars};

verus! {

broadcast use vstd::seq_lib::group_to_multiset_ensures;

/// Information about a single branch.
#[derive(Debug)]
pub struct BranchInfo {
    /// Branch name.
    pub name: String,
    /// Whether this is the currently checked-out branch.
    pub is_current: bool,
    /// Whether this is a remote-tracking branch.
    pub is_remote: bool,
    /// The upstream branch name, if any.
    pub upstream: Option<String>,
    /// The OID of the branch tip commit.
    pub oid: String,
    /// Short commit summary at the tip.
    pub summary: String,
    /// Number of commits ahead of upstream.
    pub ahead: usize,
    /// Number of commits behind upstream.
    pub behind: usize,
    /// Last commit message (first line); absent when the summary is empty.
    pub last_commit_msg: Option<String>,
}

impl Clone for BranchInfo {
    fn clone(&self) -> (r: Self)
        ensures
            r == *self,
    {
        BranchInfo {
            name: self.name.clone(),
            is_current: self.is_current,
            is_remote: self.is_remote,
            upstream: clone_opt_string(&self.upstream),
            oid: self.oid.clone(),
            summary: self.summary.clone(),
            ahead: self.ahead,
            behind: self.behind,
            last_commit_msg: clone_opt_string(&self.last_commit_msg),
        }
    }
}

/// The bytes of a string's UTF-8 encoding, by which strings are ordered.
pub open spec fn str_bytes(s: String) -> Seq<u8> {
    vstd::utf8::encode_utf8(s@)
}

/// Lexicographic order on byte strings: `a` comes at or before `b`.
pub open spec fn lex_le(a: Seq<u8>, b: Seq<u8>) -> bool
    decreases a.len(),
{
    if a.len() == 0 {
        true
    } else if b.len() == 0 {
        false
    } else if a[0] < b[0] {
        true
    } else if a[0] > b[0] {
        false
    } else {
        lex_le(a.drop_first(), b.drop_first())
    }
}

proof fn lemma_lex_total(a: Seq<u8>, b: Seq<u8>)
    ensures
        lex_le(a, b) || lex_le(b, a),
    decreases a.len(),
{
    if a.len() > 0 && b.len() > 0 && a[0] == b[0] {
        lemma_lex_total(a.drop_first(), b.drop_first());
    }
}

proof fn lemma_lex_trans(a: Seq<u8>, b: Seq<u8>, c: Seq<u8>)
    requires
        lex_le(a, b),
        lex_le(b, c),
    ensures
        lex_le(a, c),
    decreases a.len(),
{
    if a.len() > 0 && b.len() > 0 && c.len() > 0 && a[0] == b[0] && b[0] == c[0] {
        lemma_lex_trans(a.drop_first(), b.drop_first(), c.drop_first());
    }
}

/// `x` may be listed before `y`: the current branch first, then by name.
pub open spec fn branch_before(x: BranchInfo, y: BranchInfo) -> bool {
    (x.is_current && !y.is_current) || (x.is_current == y.is_current && lex_le(
        str_bytes(x.name),
        str_bytes(y.name),
    ))
}

/// `x` may be listed before `y` by name alone.
pub open spec fn name_before(x: BranchInfo, y: BranchInfo) -> bool {
    lex_le(str_bytes(x.name), str_bytes(y.name))
}

/// Every element may be listed before every later one.
pub open spec fn sorted_by(s: Seq<BranchInfo>, current_first: bool) -> bool {
    forall|i: int, j: int|
        0 <= i < j < s.len() ==> if current_first {
            branch_before(#[trigger] s[i], #[trigger] s[j])
        } else {
            name_before(#[trigger] s[i], #[trigger] s[j])
        }
}

pub open spec fn before(x: BranchInfo, y: BranchInfo, current_first: bool) -> bool {
    if current_first {
        branch_before(x, y)
    } else {
        name_before(x, y)
    }
}

proof fn lemma_before_total(x: BranchInfo, y: BranchInfo, current_first: bool)
    ensures
        before(x, y, current_first) || before(y, x, current_first),
{
    lemma_lex_total(str_bytes(x.name), str_bytes(y.name));
}

proof fn lemma_before_trans(x: BranchInfo, y: BranchInfo, z: BranchInfo, current_first: bool)
    requires
        before(x, y, current_first),
        before(y, z, current_first),
    ensures
        before(x, z, current_first),
{
    if lex_le(str_bytes(x.name), str_bytes(y.name)) && lex_le(str_bytes(y.name), str_bytes(z.name)) {
        lemma_lex_trans(str_bytes(x.name), str_bytes(y.name), str_bytes(z.name));
    }
}

/// Byte-wise lexicographic comparison of two strings: `a <= b`.
pub fn str_le(a: &String, b: &String) -> (r: bool)
    ensures
        r == lex_le(str_bytes(*a), str_bytes(*b)),
{
    let x = a.as_str().as_bytes();
    let y = b.as_str().as_bytes();
    let ghost xs = str_bytes(*a);
    let ghost ys = str_bytes(*b);
    let mut i: usize = 0;
    assert(xs.skip(0) == xs);
    assert(ys.skip(0) == ys);
    while i < x.len() && i < y.len() && x[i] == y[i]
        invariant
            x@ == xs,
            y@ == ys,
            i <= xs.len(),
            i <= ys.len(),
            lex_le(xs, ys) == lex_le(xs.skip(i as int), ys.skip(i as int)),
        decreases xs.len() - i,
    {
        proof {
            assert(xs.skip(i as int).drop_first() == xs.skip(i + 1));
            assert(ys.skip(i as int).drop_first() == ys.skip(i + 1));
        }
        i = i + 1;
    }
    if i == x.len() {
        true
    } else if i == y.len() {
        false
    } else {
        x[i] < y[i]
    }
}

fn is_before(x: &BranchInfo, y: &BranchInfo, current_first: bool) -> (r: bool)
    ensures
        r == before(*x, *y, current_first),
{
    if current_first {
        if x.is_current != y.is_current {
            x.is_current
        } else {
            str_le(&x.name, &y.name)
        }
    } else {
        str_le(&x.name, &y.name)
    }
}

proof fn lemma_insert_multiset<A>(s: Seq<A>, i: int, a: A)
    requires
        0 <= i <= s.len(),
    ensures
        s.insert(i, a).to_multiset() == s.to_multiset().insert(a),
{
    let t = s.insert(i, a);
    assert(t.remove(i) == s);
    assert(t[i] == a);
    assert(t.to_multiset().count(a) > 0);
    assert(t.to_multiset() =~= s.to_multiset().insert(a));
}

/// Stable insertion sort by the given order.
fn sort_branch_list(v: Vec<BranchInfo>, current_first: bool) -> (r: Vec<BranchInfo>)
    ensures
        sorted_by(r@, current_first),
        r@.to_multiset() == v@.to_multiset(),
{
    let mut out: Vec<BranchInfo> = Vec::new();
    let mut rest = v;
    let ghost orig = rest@;
    let mut k: usize = 0;
    while k < rest.len()
        invariant
            rest@ == orig,
            k <= orig.len(),
            sorted_by(out@, current_first),
            out@.to_multiset() == orig.take(k as int).to_multiset(),
        decreases orig.len() - k,
    {
        let item = rest[k].clone();
        // Position after every element that may precede `item`.
        let mut pos: usize = out.len();
        while pos > 0 && !is_before(&out[pos - 1], &item, current_first)
            invariant
                pos <= out@.len(),
                forall|j: int| pos <= j < out@.len() ==> !before(#[trigger] out@[j], item, current_first),
            decreases pos,
        {
            pos = pos - 1;
        }
        proof {
            assert forall|j: int| pos <= j < out@.len() implies before(item, #[trigger] out@[j], current_first) by {
                lemma_before_total(out@[j], item, current_first);
            }
            if pos > 0 {
                assert forall|j: int| 0 <= j < pos implies before(#[trigger] out@[j], item, current_first) by {
                    if j < pos - 1 {
                        lemma_before_trans(out@[j], out@[pos - 1], item, current_first);
                    }
                }
            }
        }
        let ghost old_out = out@;
        out.insert(pos, item);
        proof {
            assert(out@ == old_out.insert(pos as int, item));
            assert forall|i: int, j: int| 0 <= i < j < out@.len() implies before(
                #[trigger] out@[i],
                #[trigger] out@[j],
                current_first,
            ) by {
                if i < pos && j < pos {
                    assert(before(old_out[i], old_out[j], current_first));
                } else if i < pos && j == pos {
                } else if i < pos && j > pos {
                    assert(before(old_out[i], old_out[j - 1], current_first));
                } else if i == pos {
                } else {
                    assert(before(old_out[i - 1], old_out[j - 1], current_first));
                }
            }
            lemma_insert_multiset(old_out, pos as int, item);
            assert(orig.take(k + 1) == orig.take(k as int).push(orig[k as int]));
        }
        k = k + 1;
    }
    assert(orig.take(orig.len() as int) == orig);
    out
}

/// Order local branches: the current branch first, then by name.
pub fn sort_branches(branches: Vec<BranchInfo>) -> (r: Vec<BranchInfo>)
    ensures
        sorted_by(r@, true),
        r@.to_multiset() == branches@.to_multiset(),
{
    sort_branch_list(branches, true)
}

/// Order remote-tracking branches by name.
pub fn sort_remote_branches(branches: Vec<BranchInfo>) -> (r: Vec<BranchInfo>)
    ensures
        sorted_by(r@, false),
        r@.to_multiset() == branches@.to_multiset(),
{
    sort_branch_list(branches, false)
}

/// The record of a local branch: it is current when it is the branch HEAD
/// is attached to, and its last commit message is its summary unless that
/// is empty.
pub fn local_branch_info(
    name: String,
    tip: Option<String>,
    head_branch: Option<String>,
    upstream: Option<String>,
    summary: String,
    ahead: usize,
    behind: usize,
) -> (r: BranchInfo)
    ensures
        r.name == name,
        r.is_current == (head_branch.is_some() && head_branch.unwrap()@ == name@),
        !r.is_remote,
        r.upstream == upstream,
        r.oid@ == match tip {
            Some(t) => t@,
            None => Seq::<char>::empty(),
        },
        r.summary == summary,
        r.ahead == ahead,
        r.behind == behind,
        opt_chars(r.last_commit_msg) == if summary@.len() == 0 {
            None
        } else {
            Some(summary@)
        },
{
    let is_current = match &head_branch {
        Some(h) => str_eq(h.as_str(), name.as_str()),
        None => false,
    };
    let oid = match tip {
        Some(t) => t,
        None => String::new(),
    };
    let last = if summary.as_str().is_empty() {
        None
    } else {
        Some(summary.clone())
    };
    BranchInfo {
        name,
        is_current,
        is_remote: false,
        upstream,
        oid,
        summary,
        ahead,
        behind,
        last_commit_msg: last,
    }
}

/// The record of a remote-tracking branch.
pub fn remote_branch_info(name: String, tip: Option<String>, summary: String) -> (r: BranchInfo)
    ensures
        r.name == name,
        !r.is_current,
        r.is_remote,
        r.upstream.is_none(),
        r.oid@ == match tip {
            Some(t) => t@,
            None => Seq::<char>::empty(),
        },
        r.summary == summary,
        r.ahead == 0,
        r.behind == 0,
        opt_chars(r.last_commit_msg) == if summary@.len() == 0 {
            None
        } else {
            Some(summary@)
        },
{
    let oid = match tip {
        Some(t) => t,
        None => String::new(),
    };
    let last = if summary.as_str().is_empty() {
        None
    } else {
        Some(summary.clone())
    };
    BranchInfo {
        name,
        is_current: false,
        is_remote: true,
        upstream: None,
        oid,
        summary,
        ahead: 0,
        behind: 0,
        last_commit_msg: last,
    }
}

/// A branch may be deleted unless it is the checked-out one.
pub fn may_delete_branch(head_branch: &Option<String>, name: &str) -> (r: bool)
    ensures
        r == !(head_branch.is_some() && head_branch.unwrap()@ == name@),
{
    match head_branch {
        Some(h) => !str_eq(h.as_str(), name),
        None => true,
    }
}

/// Equality of two string slices.
pub fn str_eq(a: &str, b: &str) -> (r: bool)
    ensures
        r == (a@ == b@),
{
    let x = a.as_bytes();
    let y = b.as_bytes();
    proof {
        vstd::utf8::encode_utf8_decode_utf8(a@);
        vstd::utf8::encode_utf8_decode_utf8(b@);
    }
    if x.len() != y.len() {
        return false;
    }
    let mut i: usize = 0;
    while i < x.len()
        invariant
            x@ == vstd::utf8::encode_utf8(a@),
            y@ == vstd::utf8::encode_utf8(b@),
            x@.len() == y@.len(),
            i <= x@.len(),
            forall|j: int| 0 <= j < i ==> x@[j] == y@[j],
        decreases x@.len() - i,
    {
        if x[i] != y[i] {
            return false;
        }
        i = i + 1;
    }
    assert(x@ == y@);
    true
}

} // verus!
