//! Repository data and the rules that shape it for display.

pub mod branch;
pub mod commit;
pub mod conflict;
pub mod diff;
pub mod log;
pub mod remote;
pub mod repo;
pub mod stash;
pub mod status;
