//! Remotes and the sync status against an upstream branch.

use vstd::prelude::*;

use crate::git::status::clone_opt_string;

verus! {

/// Sync status relative to the upstream tracking branch.
#[derive(Debug, Clone, Copy, PartialEq, Eq, Structural)]
pub enum SyncStatus {
    UpToDate,
    Ahead(usize),
    Behind(usize),
    Diverged { ahead: usize, behind: usize },
    Unknown,
}

impl Default for SyncStatus {
    fn default() -> (r: Self)
        ensures
            r == SyncStatus::Unknown,
    {
        SyncStatus::Unknown
    }
}

pub open spec fn sync_status_of(ahead: usize, behind: usize) -> SyncStatus {
    if ahead == 0 && behind == 0 {
        SyncStatus::UpToDate
    } else if behind == 0 {
        SyncStatus::Ahead(ahead)
    } else if ahead == 0 {
        SyncStatus::Behind(behind)
    } else {
        SyncStatus::Diverged { ahead, behind }
    }
}

impl SyncStatus {
    /// Create from ahead/behind counts.
    pub fn from_counts(ahead: usize, behind: usize) -> (r: Self)
        ensures
            r == sync_status_of(ahead, behind),
    {
        if ahead == 0 && behind == 0 {
            SyncStatus::UpToDate
        } else if behind == 0 {
            SyncStatus::Ahead(ahead)
        } else if ahead == 0 {
            SyncStatus::Behind(behind)
        } else {
            SyncStatus::Diverged { ahead, behind }
        }
    }
}

/// Summary of a configured remote.
#[derive(Debug)]
pub struct RemoteInfo {
    /// Remote name (e.g. "origin").
    pub name: String,
    /// Fetch URL.
    pub url: String,
    /// Push URL (may differ from fetch URL).
    pub push_url: Option<String>,
    /// Sync status relative to upstream (populated after computing ahead/behind).
    pub sync_status: SyncStatus,
}

impl Clone for RemoteInfo {
    fn clone(&self) -> (r: Self)
        ensures
            r == *self,
    {
        RemoteInfo {
            name: self.name.clone(),
            url: self.url.clone(),
            push_url: clone_opt_string(&self.push_url),
            sync_status: self.sync_status,
        }
    }
}

/// The record of a remote: its URL (empty when it has none) and push URL;
/// the sync status is not known yet.
pub fn remote_info(name: String, url: Option<String>, push_url: Option<String>) -> (r: RemoteInfo)
    ensures
        r.name == name,
        r.url@ == match url {
            Some(u) => u@,
            None => Seq::<char>::empty(),
        },
        r.push_url == push_url,
        r.sync_status == SyncStatus::Unknown,
{
    let url = match url {
        Some(u) => u,
        None => String::new(),
    };
    RemoteInfo { name, url, push_url, sync_status: SyncStatus::Unknown }
}

/// Counts of commits ahead of and behind the upstream; none are counted when
/// either side cannot be resolved.
pub fn ahead_behind_or_zero(counts: Option<(usize, usize)>) -> (r: (usize, usize))
    ensures
        r == match counts {
            Some(c) => c,
            None => (0usize, 0usize),
        },
{
    match counts {
        Some(c) => c,
        None => (0, 0),
    }
}

} // verus!
