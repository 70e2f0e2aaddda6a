use vstd::prelude::*;

use crate::id::Id;
use crate::oid::Oid;

verus! {

/// The last checkpoint acknowledged as pushed, and when it was recorded
/// (milliseconds since the Unix epoch).
#[derive(Clone, Copy, Debug, PartialEq, Eq, Structural)]
pub struct PushState {
    pub last_pushed_commit: Oid,
    pub timestamp_ms: u64,
}

/// What the engine reads of a project; the project is named by a
/// `ProjectId`.
pub struct Project {
    pub sync_enabled: bool,
    pub code_url: Option<String>,
    pub push_state: Option<PushState>,
}

pub type ProjectId = Id<Project>;

impl Project {
    /// Sync runs only for a project that has it enabled and a remote to push to.
    pub open spec fn wants_sync_spec(&self) -> bool {
        self.sync_enabled && self.code_url is Some
    }

    pub fn wants_sync(&self) -> (r: bool)
        ensures
            r == self.wants_sync_spec(),
    {
        self.sync_enabled && self.code_url.is_some()
    }

    pub open spec fn last_pushed_spec(&self) -> Option<Oid> {
        match self.push_state {
            Some(s) => Some(s.last_pushed_commit),
            None => None,
        }
    }

    pub fn last_pushed_commit(&self) -> (r: Option<Oid>)
        ensures
            r == self.last_pushed_spec(),
    {
        match &self.push_state {
            Some(s) => Some(s.last_pushed_commit),
            None => None,
        }
    }
}

} // verus!
