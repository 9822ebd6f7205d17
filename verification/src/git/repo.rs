//! Information about HEAD.

use vstd::prelude::*;
use vstd::utf8::{encode_utf8, is_char_boundary};

use crate::git::status::{clone_opt_string, opt_chars};
use crate::util::substring;

verus! {

/// Information about the current HEAD reference.
#[derive(Debug)]
pub struct HeadInfo {
    /// Name of the current branch, or `None` if HEAD is detached.
    pub branch: Option<String>,
    /// The full OID hex string of the HEAD commit (empty for unborn branches).
    pub oid: String,
    /// Short summary (first line) of the HEAD commit.
    pub summary: String,
    /// Whether HEAD is in a detached state.
    pub detached: bool,
}

impl Clone for HeadInfo {
    fn clone(&self) -> (r: Self)
        ensures
            r == *self,
    {
        HeadInfo {
            branch: clone_opt_string(&self.branch),
            oid: self.oid.clone(),
            summary: self.summary.clone(),
            detached: self.detached,
        }
    }
}

impl Default for HeadInfo {
    fn default() -> (r: Self)
        ensures
            r.branch.is_none(),
            r.oid@ == Seq::<char>::empty(),
            r.summary@ == Seq::<char>::empty(),
            !r.detached,
    {
        HeadInfo { branch: None, oid: String::new(), summary: String::new(), detached: false }
    }
}

/// The prefix of the references of local branches.
pub open spec fn heads_prefix() -> Seq<u8> {
    seq![114u8, 101, 102, 115, 47, 104, 101, 97, 100, 115, 47]
}

/// The branch name that a symbolic HEAD target names: the target without
/// `refs/heads/`, when it has that prefix.
pub open spec fn branch_of_target(t: Seq<char>) -> Option<Seq<u8>> {
    let b = encode_utf8(t);
    if b.len() >= 11 && b.take(11) == heads_prefix() {
        Some(b.skip(11))
    } else {
        None
    }
}

/// The name of a local branch from the full name of its reference
/// (`refs/heads/<name>`); `None` for any other reference.
pub fn strip_heads_prefix(target: &str) -> (r: Option<String>)
    ensures
        r.is_some() == branch_of_target(target@).is_some(),
        r.is_some() ==> encode_utf8(r.unwrap()@) == branch_of_target(target@).unwrap(),
{
    let b = target.as_bytes();
    let ghost bs = encode_utf8(target@);
    let prefix: [u8; 11] = [114u8, 101, 102, 115, 47, 104, 101, 97, 100, 115, 47];
    assert(prefix@ == heads_prefix());
    if b.len() < 11 {
        assert(bs.len() < 11);
        return None;
    }
    let mut i: usize = 0;
    while i < 11
        invariant
            b@ == bs,
            bs == encode_utf8(target@),
            bs.len() >= 11,
            prefix@ == heads_prefix(),
            i <= 11,
            forall|j: int| 0 <= j < i ==> bs[j] == heads_prefix()[j],
        decreases 11 - i,
    {
        if b[i] != prefix[i] {
            assert(bs.take(11)[i as int] != heads_prefix()[i as int]);
            assert(bs.take(11) != heads_prefix());
            return None;
        }
        i = i + 1;
    }
    assert(bs.take(11) == heads_prefix());
    let len = b.len();
    proof {
        vstd::utf8::encode_utf8_valid_utf8(target@);
        assert forall|j: int| 0 <= j < 11 implies bs[j] < 0x80 by {
            assert(bs[j] == heads_prefix()[j]);
        }
        lemma_ascii_prefix_boundary(bs, 11);
        vstd::utf8::is_char_boundary_start_end_of_seq(bs);
    }
    let name = substring(target, 11, len);
    assert(bs.subrange(11, len as int) == bs.skip(11));
    Some(name)
}

/// The byte after an ASCII byte that starts a character starts a character.
pub proof fn lemma_after_ascii_boundary(b: Seq<u8>, i: int)
    requires
        vstd::utf8::valid_utf8(b),
        0 <= i < b.len(),
        is_char_boundary(b, i),
        b[i] < 0x80,
    ensures
        is_char_boundary(b, i + 1),
{
    if i + 1 == b.len() {
        vstd::utf8::is_char_boundary_start_end_of_seq(b);
    } else {
        vstd::utf8::valid_utf8_split(b, i);
        let rest = b.subrange(i, b.len() as int);
        assert(rest[0] == b[i]);
        let tail = vstd::utf8::pop_first_scalar(rest);
        assert(tail == b.subrange(i + 1, b.len() as int));
        assert(vstd::utf8::valid_utf8(tail));
        assert(tail[0] == b[i + 1]);
        assert(vstd::utf8::valid_first_scalar(tail));
        assert(!vstd::utf8::is_continuation_byte(b[i + 1]));
        vstd::utf8::is_char_boundary_iff_not_is_continuation_byte(b, i + 1);
    }
}

/// A position reached through ASCII bytes only starts a character.
pub proof fn lemma_ascii_prefix_boundary(b: Seq<u8>, n: int)
    requires
        vstd::utf8::valid_utf8(b),
        0 <= n <= b.len(),
        forall|j: int| 0 <= j < n ==> b[j] < 0x80,
    ensures
        is_char_boundary(b, n),
    decreases n,
{
    if n == 0 {
        vstd::utf8::is_char_boundary_start_end_of_seq(b);
    } else {
        lemma_ascii_prefix_boundary(b, n - 1);
        lemma_after_ascii_boundary(b, n - 1);
    }
}

/// HEAD of a repository whose current branch has no commit yet: the branch
/// named by the symbolic HEAD target, if that is a local branch.
pub fn unborn_head_info(symbolic_target: Option<String>) -> (r: HeadInfo)
    ensures
        r.branch.is_some() == (symbolic_target.is_some() && branch_of_target(
            symbolic_target.unwrap()@,
        ).is_some()),
        r.branch.is_some() ==> encode_utf8(r.branch.unwrap()@) == branch_of_target(
            symbolic_target.unwrap()@,
        ).unwrap(),
        r.oid@ == Seq::<char>::empty(),
        r.summary@ == Seq::<char>::empty(),
        !r.detached,
{
    let branch = match &symbolic_target {
        Some(t) => strip_heads_prefix(t.as_str()),
        None => None,
    };
    HeadInfo { branch, oid: String::new(), summary: String::new(), detached: false }
}

/// HEAD of a repository with commits: the branch name unless HEAD is
/// detached, the OID (empty when HEAD has no direct target) and the summary
/// of its commit (empty when it has none).
pub fn born_head_info(
    detached: bool,
    shorthand: Option<String>,
    target: Option<String>,
    summary: Option<String>,
) -> (r: HeadInfo)
    ensures
        r.branch == (if detached {
            None
        } else {
            shorthand
        }),
        r.oid@ == match target {
            Some(t) => t@,
            None => Seq::<char>::empty(),
        },
        r.summary@ == match summary {
            Some(s) => s@,
            None => Seq::<char>::empty(),
        },
        r.detached == detached,
{
    let branch = if detached {
        None
    } else {
        shorthand
    };
    let oid = match target {
        Some(t) => t,
        None => String::new(),
    };
    let summary = match summary {
        Some(s) => s,
        None => String::new(),
    };
    HeadInfo { branch, oid, summary, detached }
}

} // verus!
