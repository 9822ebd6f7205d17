//! Stash entries.

use vstd::prelude::*;

verus! {

/// Information about a single stash entry.
#[derive(Debug)]
pub struct StashInfo {
    /// Stash index (0 is the most recent).
    pub index: usize,
    /// Stash message.
    pub message: String,
    /// The OID of the stash commit (as a hex string).
    pub oid: String,
}

impl Clone for StashInfo {
    fn clone(&self) -> (r: Self)
        ensures
            r == *self,
    {
        StashInfo { index: self.index, message: self.message.clone(), oid: self.oid.clone() }
    }
}

/// The message used when a stash is saved without one.
pub fn default_stash_message(untracked: bool, keep_index: bool) -> (r: &'static str)
    ensures
        r@ == if keep_index {
            "WIP on gittui stash (keep index)"@
        } else if untracked {
            "WIP on gittui stash (with untracked)"@
        } else {
            "WIP on gittui stash"@
        },
{
    if keep_index {
        "WIP on gittui stash (keep index)"
    } else if untracked {
        "WIP on gittui stash (with untracked)"
    } else {
        "WIP on gittui stash"
    }
}

/// The stash indices to drop, in order, to clear a stash list of `n`
/// entries: from the last to the first, so that no index shifts before it is
/// dropped; `None` when there is nothing to clear.
pub fn stash_clear_order(n: usize) -> (r: Option<Vec<usize>>)
    ensures
        r.is_none() == (n == 0),
        r.is_some() ==> r.unwrap()@.len() == n,
        r.is_some() ==> forall|i: int| 0 <= i < n ==> #[trigger] r.unwrap()@[i] == n - 1 - i,
{
    if n == 0 {
        return None;
    }
    let mut v: Vec<usize> = Vec::new();
    let mut k: usize = n;
    while k > 0
        invariant
            k <= n,
            v@.len() == n - k,
            forall|i: int| 0 <= i < n - k ==> #[trigger] v@[i] == n - 1 - i,
        decreases k,
    {
        k = k - 1;
        v.push(k);
    }
    Some(v)
}

} // verus!
