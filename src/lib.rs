//! Incremental, resumable replication of a repository's history and
//! references to a remote, in bounded batches.
//!
//! The library holds the decisions: which checkpoints to push and in what
//! order, which references to mirror, how a failure is classified and what
//! progress is recorded. Repository access, the network and persistent
//! storage are performed by the caller, who feeds their results back in.

pub mod flight;
pub mod id;
pub mod oid;
pub mod planner;
pub mod project;
pub mod refs;
pub mod sync;
pub mod text;

pub use flight::SyncLock;
pub use id::{Id, ParseIdError};
pub use oid::Oid;
pub use planner::batch_rev_walk;
pub use project::{Project, ProjectId, PushState};
pub use refs::{collect_refs, push_all_refs, RefKind, Refname, Refspec};
pub use sync::{
    Action, Effect, Event, FailedPhase, HandlerInner, Outcome, RemoteError, Stage, SyncSession,
    DEFAULT_BATCH_SIZE,
};
