use vstd::prelude::*;

use crate::oid::Oid;
use crate::planner::{batch_rev_walk, checkpoints, lemma_checkpoints_resume};
use crate::project::{Project, ProjectId};
use crate::refs::{collect_refs, is_mirror_push, named, push_all_refs, Refname, Refspec};

verus! {

/// The number of commits between two consecutive checkpoints.
pub const DEFAULT_BATCH_SIZE: usize = 1000;

/// How a push to the remote failed.
#[derive(Clone, Copy, Debug, PartialEq, Eq, Structural)]
pub enum RemoteError {
    /// The remote could not be reached; worth trying again later.
    Network,
    /// Anything else: rejected credentials, a rejected update, a bad refspec.
    Other,
}

/// The phase that a fatal failure is reported against.
#[derive(Clone, Copy, Debug, PartialEq, Eq, Structural)]
pub enum FailedPhase {
    /// Walking the history, pushing, or recording a batch's progress.
    Push,
    /// Recording the final progress after a complete sync.
    UpdateProgress,
}

/// How a sync ended.
#[derive(Clone, Copy, Debug, PartialEq, Eq, Structural)]
pub enum Outcome {
    /// History and references are on the remote and progress is recorded.
    Synced,
    /// Nothing to do: sync is disabled, no remote is configured, or there is
    /// no target yet.
    Skipped,
    /// The network failed; progress recorded so far stands.
    Deferred,
    /// A fatal failure, to be reported to the caller.
    Failed(FailedPhase),
}

/// What the caller reports back after performing an action.
pub enum Event {
    /// The traversal from the target, newest first, without the commits
    /// already acknowledged.
    Walked(Vec<Oid>),
    WalkFailed,
    /// The push went through; whether anything was transmitted.
    Pushed(bool),
    PushFailed(RemoteError),
    /// The progress was persisted.
    Recorded,
    RecordFailed,
    /// The listing of the references of the local repository; an entry that
    /// could not be read, or has no name, is `None`.
    Refs(Vec<Option<Refname>>),
    RefsFailed,
}

/// What the caller is asked to do next.
pub enum Action {
    /// Traverse the history from `from`, leaving out `hide` and its ancestors.
    Walk { from: Oid, hide: Option<Oid> },
    /// Push these refspecs to the remote in one request.
    Push(Vec<Refspec>),
    /// Persist this commit, with the current time, as the project's progress.
    Record(Oid),
    /// List the references of the local repository.
    CollectRefs,
    /// The sync is over.
    Finish(Outcome),
}

/// Where a sync stands.
#[derive(Clone, Copy, Debug, PartialEq, Eq, Structural)]
pub enum Stage {
    Walking,
    PushingCheckpoint,
    RecordingCheckpoint,
    PushingTarget,
    CollectingRefs,
    PushingRefs,
    RecordingFinal,
    Done,
}

/// A confirmed effect of a sync, in the order in which it happened.
pub enum Effect {
    /// A checkpoint reached the project's temporary reference.
    Staged(Oid),
    /// A commit was persisted as the project's progress.
    Recorded(Oid),
    /// The target reached the project's real target reference.
    Published(Oid),
}

/// The batch phase from checkpoint `i` on: each checkpoint from `i` down to 1
/// is staged and then recorded; then the target (checkpoint 0) is published.
pub open spec fn plan_from(cps: Seq<Oid>, i: int) -> Seq<Effect>
    decreases i,
{
    if i <= 0 {
        seq![Effect::Published(cps[0])]
    } else {
        seq![Effect::Staged(cps[i]), Effect::Recorded(cps[i])] + plan_from(cps, i - 1)
    }
}

/// The complete batch phase for a checkpoint list, oldest checkpoint first.
pub open spec fn batch_plan(cps: Seq<Oid>) -> Seq<Effect> {
    plan_from(cps, cps.len() - 1)
}

/// The last commit recorded as progress, or `initial` where none was.
pub open spec fn latest_record(log: Seq<Effect>, initial: Option<Oid>) -> Option<Oid>
    decreases log.len(),
{
    if log.len() == 0 {
        initial
    } else {
        match log.last() {
            Effect::Recorded(c) => Some(c),
            _ => latest_record(log.drop_last(), initial),
        }
    }
}

/// The refspecs of a push action.
pub open spec fn pushed(a: Action) -> Seq<Refspec> {
    match a {
        Action::Push(v) => v@,
        _ => seq![],
    }
}

/// Which events a stage waits for.
pub open spec fn accepts_spec(stage: Stage, event: &Event) -> bool {
    match stage {
        Stage::Walking => event is Walked || event is WalkFailed,
        Stage::PushingCheckpoint | Stage::PushingTarget | Stage::PushingRefs => event is Pushed
            || event is PushFailed,
        Stage::RecordingCheckpoint | Stage::RecordingFinal => event is Recorded
            || event is RecordFailed,
        Stage::CollectingRefs => event is Refs || event is RefsFailed,
        Stage::Done => false,
    }
}

/// The engine's configuration.
pub struct HandlerInner {
    pub local_data_dir: String,
    pub batch_size: usize,
}

impl HandlerInner {
    pub fn new(local_data_dir: String) -> (r: Self)
        ensures
            r.local_data_dir@ == local_data_dir@,
            r.batch_size == DEFAULT_BATCH_SIZE,
    {
        HandlerInner { local_data_dir, batch_size: DEFAULT_BATCH_SIZE }
    }

    /// Begins a sync of a project whose remote target is `target`, where the
    /// repository has one. A project whose acknowledged progress already is
    /// the target skips the batch phase and goes on to mirror its references.
    pub fn start(&self, project_id: ProjectId, project: &Project, target: Option<Oid>) -> (r: (
        SyncSession,
        Action,
    ))
        requires
            self.batch_size > 0,
        ensures
            r.0.wf(),
            r.0.project_id == project_id,
            r.0.batch_size == self.batch_size,
            r.0.initial@ == project.last_pushed_spec(),
            r.0.persisted == project.last_pushed_spec(),
            r.0.log@.len() == 0,
            r.0.checkpoints@.len() == 0,
            !project.wants_sync_spec() || target is None ==> r.0.stage == Stage::Done && r.1
                == Action::Finish(Outcome::Skipped),
            project.wants_sync_spec() && target is Some ==> r.0.target == target->0,
            project.wants_sync_spec() && target is Some && project.last_pushed_spec() == target
                ==> r.0.stage == Stage::CollectingRefs && r.1 == Action::CollectRefs,
            project.wants_sync_spec() && target is Some && project.last_pushed_spec() != target
                ==> r.0.stage == Stage::Walking && r.1 == (Action::Walk {
                from: target->0,
                hide: project.last_pushed_spec(),
            }),
    {
        let last = project.last_pushed_commit();
        let mut session = SyncSession {
            project_id,
            target: Oid::new(0, 0),
            batch_size: self.batch_size,
            checkpoints: Vec::new(),
            next: 0,
            stage: Stage::Done,
            persisted: last,
            initial: Ghost(last),
            log: Ghost(Seq::empty()),
        };
        if !project.wants_sync() {
            return (session, Action::Finish(Outcome::Skipped));
        }
        match target {
            None => (session, Action::Finish(Outcome::Skipped)),
            Some(t) => {
                session.target = t;
                let unchanged = match last {
                    Some(c) => c == t,
                    None => false,
                };
                if unchanged {
                    session.stage = Stage::CollectingRefs;
                    (session, Action::CollectRefs)
                } else {
                    session.stage = Stage::Walking;
                    (session, Action::Walk { from: t, hide: last })
                }
            },
        }
    }
}

/// One sync of one project, driven by the caller: each action that it asks
/// for is performed by the caller, who reports the result as an event.
pub struct SyncSession {
    pub project_id: ProjectId,
    pub target: Oid,
    pub batch_size: usize,
    /// The checkpoints, newest (the target) first.
    pub checkpoints: Vec<Oid>,
    /// The checkpoint being staged or recorded.
    pub next: usize,
    pub stage: Stage,
    /// The progress persisted for the project.
    pub persisted: Option<Oid>,
    /// The progress persisted before this sync.
    pub initial: Ghost<Option<Oid>>,
    /// The effects confirmed so far.
    pub log: Ghost<Seq<Effect>>,
}

impl SyncSession {
    pub open spec fn wf(&self) -> bool {
        let cps = self.checkpoints@;
        let log = self.log@;
        &&& self.batch_size > 0
        &&& self.persisted == latest_record(log, self.initial@)
        &&& cps.len() > 0 ==> cps[0] == self.target
        &&& match self.stage {
            Stage::Walking => log.len() == 0 && cps.len() == 0,
            Stage::PushingCheckpoint => 1 <= self.next < cps.len() && log + plan_from(
                cps,
                self.next as int,
            ) == batch_plan(cps),
            Stage::RecordingCheckpoint => 1 <= self.next < cps.len() && log + seq![
                Effect::Recorded(cps[self.next as int]),
            ] + plan_from(cps, self.next - 1) == batch_plan(cps),
            Stage::PushingTarget => cps.len() >= 1 && log + seq![Effect::Published(cps[0])]
                == batch_plan(cps),
            Stage::CollectingRefs | Stage::PushingRefs | Stage::RecordingFinal => (cps.len()
                == 0 && log.len() == 0) || (cps.len() >= 1 && log == batch_plan(cps)),
            Stage::Done => true,
        }
    }

    pub fn accepts(&self, event: &Event) -> (r: bool)
        ensures
            r == accepts_spec(self.stage, event),
    {
        match self.stage {
            Stage::Walking => matches!(event, Event::Walked(_) | Event::WalkFailed),
            Stage::PushingCheckpoint | Stage::PushingTarget | Stage::PushingRefs => matches!(
                event,
                Event::Pushed(_) | Event::PushFailed(_)
            ),
            Stage::RecordingCheckpoint | Stage::RecordingFinal => matches!(
                event,
                Event::Recorded | Event::RecordFailed
            ),
            Stage::CollectingRefs => matches!(event, Event::Refs(_) | Event::RefsFailed),
            Stage::Done => false,
        }
    }
    /// Takes the result of the last action and says what to do next.
    ///
    /// Checkpoints are pushed oldest first to the project's temporary
    /// reference, each one recorded as progress as soon as its push went
    /// through; then the target is pushed to the project's real reference,
    /// the references are mirrored, and the target is recorded. A network
    /// failure ends the sync as deferred, any other failure as failed; in
    /// both cases the progress recorded so far stands.
    pub fn step(&mut self, event: Event) -> (a: Action)
        requires
            old(self).wf(),
            accepts_spec(old(self).stage, &event),
        ensures
            final(self).wf(),
            final(self).project_id == old(self).project_id,
            final(self).target == old(self).target,
            final(self).batch_size == old(self).batch_size,
            final(self).initial == old(self).initial,
            // failures end the sync and leave the progress as it was
            event is WalkFailed || event is RefsFailed ==> final(self).stage == Stage::Done && a
                == Action::Finish(Outcome::Failed(FailedPhase::Push)),
            event matches Event::PushFailed(e) ==> final(self).stage == Stage::Done && a
                == Action::Finish(
                if e == RemoteError::Network {
                    Outcome::Deferred
                } else {
                    Outcome::Failed(FailedPhase::Push)
                },
            ),
            event is RecordFailed ==> final(self).stage == Stage::Done && a == Action::Finish(
                Outcome::Failed(
                    if old(self).stage == Stage::RecordingFinal {
                        FailedPhase::UpdateProgress
                    } else {
                        FailedPhase::Push
                    },
                ),
            ),
            event is WalkFailed || event is RefsFailed || event is PushFailed || event is RecordFailed
                ==> final(self).persisted == old(self).persisted && final(self).log == old(self).log,
            // the walk gives the checkpoints; the oldest one is staged first
            event matches Event::Walked(w) ==> final(self).checkpoints@ == checkpoints(
                old(self).target,
                w@,
                old(self).batch_size as nat,
            ),
            event is Walked && final(self).checkpoints@.len() > 1 ==> final(self).stage
                == Stage::PushingCheckpoint && final(self).next == final(self).checkpoints@.len()
                - 1 && a is Push && pushed(a) == seq![
                Refspec::Stage {
                    commit: final(self).checkpoints@.last(),
                    project: old(self).project_id,
                },
            ],
            event is Walked && final(self).checkpoints@.len() == 1 ==> final(self).stage
                == Stage::PushingTarget && a is Push && pushed(a) == seq![
                Refspec::Publish { commit: old(self).target, project: old(self).project_id },
            ],
            // a staged checkpoint is recorded next
            old(self).stage == Stage::PushingCheckpoint && event is Pushed ==> final(self).stage
                == Stage::RecordingCheckpoint && final(self).next == old(self).next && a
                == Action::Record(old(self).checkpoints@[old(self).next as int]),
            // a recorded checkpoint is followed by the next newer one, then the target
            old(self).stage == Stage::RecordingCheckpoint && event is Recorded ==> final(self).persisted
                == Some(old(self).checkpoints@[old(self).next as int]) && final(self).next
                == old(self).next - 1,
            old(self).stage == Stage::RecordingCheckpoint && event is Recorded && old(self).next > 1
                ==> final(self).stage == Stage::PushingCheckpoint && a is Push && pushed(a) == seq![
                Refspec::Stage {
                    commit: old(self).checkpoints@[old(self).next - 1],
                    project: old(self).project_id,
                },
            ],
            old(self).stage == Stage::RecordingCheckpoint && event is Recorded && old(self).next
                == 1 ==> final(self).stage == Stage::PushingTarget && a is Push && pushed(a) == seq![
                Refspec::Publish { commit: old(self).target, project: old(self).project_id },
            ],
            // after the target, the references are mirrored and the target recorded
            old(self).stage == Stage::PushingTarget && event is Pushed ==> final(self).stage
                == Stage::CollectingRefs && a == Action::CollectRefs,
            event matches Event::Refs(refs) ==> final(self).stage == Stage::PushingRefs && a is Push
                && is_mirror_push(pushed(a), named(refs@)),
            old(self).stage == Stage::PushingRefs && event is Pushed ==> final(self).stage
                == Stage::RecordingFinal && a == Action::Record(old(self).target),
            old(self).stage == Stage::RecordingFinal && event is Recorded ==> final(self).stage
                == Stage::Done && final(self).persisted == Some(old(self).target) && a
                == Action::Finish(Outcome::Synced),
            // what did not change
            !(event is Walked) ==> final(self).checkpoints@ == old(self).checkpoints@,
            !(event is Recorded) ==> final(self).persisted == old(self).persisted,
    {
        let ghost cps0 = self.checkpoints@;
        let ghost log0 = self.log@;
        match event {
            Event::WalkFailed | Event::RefsFailed => {
                self.stage = Stage::Done;
                Action::Finish(Outcome::Failed(FailedPhase::Push))
            },
            Event::PushFailed(e) => {
                self.stage = Stage::Done;
                match e {
                    RemoteError::Network => Action::Finish(Outcome::Deferred),
                    RemoteError::Other => Action::Finish(Outcome::Failed(FailedPhase::Push)),
                }
            },
            Event::RecordFailed => {
                let phase = if self.stage == Stage::RecordingFinal {
                    FailedPhase::UpdateProgress
                } else {
                    FailedPhase::Push
                };
                self.stage = Stage::Done;
                Action::Finish(Outcome::Failed(phase))
            },
            Event::Walked(walk) => {
                let cps = batch_rev_walk(self.batch_size, self.target, &walk);
                let n = cps.len();
                self.checkpoints = cps;
                if n > 1 {
                    self.next = n - 1;
                    self.stage = Stage::PushingCheckpoint;
                    assert(self.log@ + plan_from(self.checkpoints@, self.next as int)
                        =~= batch_plan(self.checkpoints@));
                    self.stage_push()
                } else {
                    self.stage = Stage::PushingTarget;
                    assert(self.log@ + seq![Effect::Published(self.checkpoints@[0])]
                        =~= batch_plan(self.checkpoints@));
                    self.publish_push()
                }
            },
            Event::Pushed(_) => {
                match self.stage {
                    Stage::PushingCheckpoint => {
                        let c = self.checkpoints[self.next];
                        self.log = Ghost(log0.push(Effect::Staged(c)));
                        proof {
                            assert(self.log@.drop_last() =~= log0);
                            assert(self.log@ + seq![Effect::Recorded(c)] + plan_from(cps0, self.next - 1)
                                =~= log0 + plan_from(cps0, self.next as int));
                        }
                        self.stage = Stage::RecordingCheckpoint;
                        Action::Record(c)
                    },
                    Stage::PushingTarget => {
                        self.log = Ghost(log0.push(Effect::Published(self.target)));
                        proof {
                            assert(self.log@.drop_last() =~= log0);
                            assert(self.log@ =~= log0 + seq![Effect::Published(cps0[0])]);
                        }
                        self.stage = Stage::CollectingRefs;
                        Action::CollectRefs
                    },
                    _ => {
                        self.stage = Stage::RecordingFinal;
                        Action::Record(self.target)
                    },
                }
            },
            Event::Recorded => {
                if self.stage == Stage::RecordingCheckpoint {
                    let c = self.checkpoints[self.next];
                    self.log = Ghost(log0.push(Effect::Recorded(c)));
                    self.persisted = Some(c);
                    self.next = self.next - 1;
                    if self.next >= 1 {
                        self.stage = Stage::PushingCheckpoint;
                        proof {
                            assert(self.log@ + plan_from(cps0, self.next as int)
                                =~= log0 + seq![Effect::Recorded(c)] + plan_from(cps0, self.next as int));
                        }
                        self.stage_push()
                    } else {
                        self.stage = Stage::PushingTarget;
                        proof {
                            assert(self.log@ + seq![Effect::Published(cps0[0])]
                                =~= log0 + seq![Effect::Recorded(c)] + plan_from(cps0, 0));
                        }
                        self.publish_push()
                    }
                } else {
                    self.log = Ghost(log0.push(Effect::Recorded(self.target)));
                    self.persisted = Some(self.target);
                    self.stage = Stage::Done;
                    Action::Finish(Outcome::Synced)
                }
            },
            Event::Refs(listing) => {
                self.stage = Stage::PushingRefs;
                let refs = collect_refs(listing);
                Action::Push(push_all_refs(&refs))
            },
        }
    }

    fn stage_push(&self) -> (a: Action)
        requires
            self.next < self.checkpoints@.len(),
        ensures
            a is Push,
            pushed(a) == seq![
                Refspec::Stage {
                    commit: self.checkpoints@[self.next as int],
                    project: self.project_id,
                },
            ],
    {
        let mut v: Vec<Refspec> = Vec::new();
        v.push(Refspec::Stage { commit: self.checkpoints[self.next], project: self.project_id });
        assert(v@ =~= seq![
            Refspec::Stage {
                commit: self.checkpoints@[self.next as int],
                project: self.project_id,
            },
        ]);
        Action::Push(v)
    }

    fn publish_push(&self) -> (a: Action)
        ensures
            a is Push,
            pushed(a) == seq![
                Refspec::Publish { commit: self.target, project: self.project_id },
            ],
    {
        let mut v: Vec<Refspec> = Vec::new();
        v.push(Refspec::Publish { commit: self.target, project: self.project_id });
        assert(v@ =~= seq![Refspec::Publish { commit: self.target, project: self.project_id }]);
        Action::Push(v)
    }
}

proof fn lemma_plan_from_shape(cps: Seq<Oid>, i: int)
    requires
        0 <= i < cps.len(),
    ensures
        plan_from(cps, i).len() == 2 * i + 1,
        plan_from(cps, i)[2 * i] == Effect::Published(cps[0]),
        forall|k: int|
            0 <= k < i ==> #[trigger] plan_from(cps, i)[2 * k] == Effect::Staged(cps[i - k])
                && plan_from(cps, i)[2 * k + 1] == Effect::Recorded(cps[i - k]),
    decreases i,
{
    if i > 0 {
        lemma_plan_from_shape(cps, i - 1);
        let head = seq![Effect::Staged(cps[i]), Effect::Recorded(cps[i])];
        let rest = plan_from(cps, i - 1);
        assert forall|k: int| 0 <= k < i implies #[trigger] plan_from(cps, i)[2 * k] == Effect::Staged(cps[i - k])
            && plan_from(cps, i)[2 * k + 1] == Effect::Recorded(cps[i - k]) by {
            if k > 0 {
                assert(plan_from(cps, i)[2 * k] == rest[2 * (k - 1)]);
                assert(plan_from(cps, i)[2 * k + 1] == rest[2 * (k - 1) + 1]);
            }
        }
    }
}

/// Batches are pushed oldest first: for checkpoints `[c0 = target, c1, ...,
/// cn]` the batch phase stages and then records `cn`, then `cn-1`, down to
/// `c1`, and publishes `c0` last. None of `c1..cn` is the target, so progress
/// reaches the target only after it was published.
pub proof fn lemma_batch_order(target: Oid, walk: Seq<Oid>, size: nat)
    requires
        size > 0,
    ensures
        ({
            let cps = checkpoints(target, walk, size);
            let plan = batch_plan(cps);
            let n = cps.len() as int;
            &&& plan.len() == 2 * n - 1
            &&& plan[2 * n - 2] == Effect::Published(target)
            &&& forall|k: int|
                0 <= k < n - 1 ==> #[trigger] plan[2 * k] == Effect::Staged(cps[n - 1 - k])
                    && plan[2 * k + 1] == Effect::Recorded(cps[n - 1 - k]) && cps[n - 1 - k]
                    != target
        }),
{
    let cps = checkpoints(target, walk, size);
    let n = cps.len() as int;
    lemma_plan_from_shape(cps, n - 1);
    lemma_checkpoints_resume(target, walk, size, Set::empty());
    assert forall|k: int| 0 <= k < n - 1 implies #[trigger] batch_plan(cps)[2 * k] == Effect::Staged(
        cps[n - 1 - k],
    ) && batch_plan(cps)[2 * k + 1] == Effect::Recorded(cps[n - 1 - k]) && cps[n - 1 - k]
        != target by {
        assert(1 <= n - 1 - k < n);
    }
}

} // verus!