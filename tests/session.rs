use gb_sync::{
    Action, Event, FailedPhase, SyncLock, HandlerInner, Oid, Outcome, Project, ProjectId, PushState,
    RefKind, Refname, Refspec, RemoteError, Stage, DEFAULT_BATCH_SIZE,
};

fn c(n: u32) -> Oid {
    Oid::new(0x5eed, n)
}

fn project(last: Option<Oid>) -> Project {
    Project {
        sync_enabled: true,
        code_url: Some("https://code.example.com".to_string()),
        push_state: last.map(|commit| PushState { last_pushed_commit: commit, timestamp_ms: 17 }),
    }
}

fn pid() -> ProjectId {
    ProjectId::from_u128(42)
}

fn inner(batch_size: usize) -> HandlerInner {
    let mut h = HandlerInner::new("/data".to_string());
    h.batch_size = batch_size;
    h
}

fn stage_of(a: &Action) -> Option<Oid> {
    match a {
        Action::Push(v) if v.len() == 1 => match &v[0] {
            Refspec::Stage { commit, project } if *project == pid() => Some(*commit),
            _ => None,
        },
        _ => None,
    }
}

fn publish_of(a: &Action) -> Option<Oid> {
    match a {
        Action::Push(v) if v.len() == 1 => match &v[0] {
            Refspec::Publish { commit, project } if *project == pid() => Some(*commit),
            _ => None,
        },
        _ => None,
    }
}

fn refs() -> Vec<Option<Refname>> {
    vec![
        Some(Refname { kind: RefKind::Local, name: "refs/heads/a".to_string() }),
        None,
        Some(Refname { kind: RefKind::Other, name: "refs/tags/d".to_string() }),
    ]
}

#[test]
fn new_handler_uses_batches_of_a_thousand() {
    let h = HandlerInner::new("/data".to_string());
    assert_eq!(h.batch_size, 1000);
    assert_eq!(DEFAULT_BATCH_SIZE, 1000);
    assert_eq!(h.local_data_dir, "/data");
}

#[test]
fn disabled_project_is_skipped() {
    let mut p = project(None);
    p.sync_enabled = false;
    assert!(!p.wants_sync());
    let (s, a) = inner(1000).start(pid(), &p, Some(c(1)));
    assert!(matches!(a, Action::Finish(Outcome::Skipped)));
    assert_eq!(s.stage, Stage::Done);
}

#[test]
fn project_without_remote_is_skipped() {
    let mut p = project(None);
    p.code_url = None;
    assert!(!p.wants_sync());
    let (_, a) = inner(1000).start(pid(), &p, Some(c(1)));
    assert!(matches!(a, Action::Finish(Outcome::Skipped)));
}

#[test]
fn project_without_target_is_skipped() {
    let (_, a) = inner(1000).start(pid(), &project(None), None);
    assert!(matches!(a, Action::Finish(Outcome::Skipped)));
}

#[test]
fn end_to_end_single_commit() {
    // last pushed C0, target C5, one new commit between them
    let (mut s, a) = inner(1000).start(pid(), &project(Some(c(0))), Some(c(5)));
    assert!(matches!(a, Action::Walk { from, hide: Some(h) } if from == c(5) && h == c(0)));
    let a = s.step(Event::Walked(vec![c(5)]));
    assert_eq!(s.checkpoints, vec![c(5)]);
    assert_eq!(publish_of(&a), Some(c(5)));
    let a = s.step(Event::Pushed(true));
    assert!(matches!(a, Action::CollectRefs));
    let a = s.step(Event::Refs(refs()));
    assert!(matches!(&a, Action::Push(v) if v.len() == 1));
    let a = s.step(Event::Pushed(true));
    assert!(matches!(a, Action::Record(x) if x == c(5)));
    let a = s.step(Event::Recorded);
    assert!(matches!(a, Action::Finish(Outcome::Synced)));
    assert_eq!(s.persisted, Some(c(5)));
}

#[test]
fn batches_are_pushed_oldest_first_and_recorded_after_each() {
    // walk of five commits in windows of two: checkpoints [0, 1, 3, 4]
    let (mut s, a) = inner(2).start(pid(), &project(None), Some(c(0)));
    assert!(matches!(a, Action::Walk { hide: None, .. }));
    let mut a = s.step(Event::Walked((0..5).map(c).collect()));
    let mut order = Vec::new();
    for expected in [4, 3, 1] {
        assert_eq!(stage_of(&a), Some(c(expected)));
        order.push(expected);
        a = s.step(Event::Pushed(true));
        assert!(matches!(a, Action::Record(x) if x == c(expected)));
        // the target is recorded only at the very end
        assert_ne!(s.persisted, Some(c(0)));
        a = s.step(Event::Recorded);
        assert_eq!(s.persisted, Some(c(expected)));
    }
    assert_eq!(order, vec![4, 3, 1]);
    assert_eq!(publish_of(&a), Some(c(0)));
    assert_eq!(s.persisted, Some(c(1)));
    a = s.step(Event::Pushed(false));
    assert!(matches!(a, Action::CollectRefs));
    a = s.step(Event::Refs(refs()));
    a = match a {
        Action::Push(_) => s.step(Event::Pushed(false)),
        _ => panic!("expected the mirror push"),
    };
    assert!(matches!(a, Action::Record(x) if x == c(0)));
    a = s.step(Event::Recorded);
    assert!(matches!(a, Action::Finish(Outcome::Synced)));
    assert_eq!(s.persisted, Some(c(0)));
}

#[test]
fn unchanged_target_skips_the_batch_phase() {
    let (mut s, a) = inner(1000).start(pid(), &project(Some(c(3))), Some(c(3)));
    assert!(matches!(a, Action::CollectRefs));
    assert!(s.checkpoints.is_empty());
    let a = s.step(Event::Refs(refs()));
    assert!(matches!(&a, Action::Push(v) if matches!(&v[0], Refspec::Mirror { .. })));
    let a = s.step(Event::Pushed(false));
    assert!(matches!(a, Action::Record(x) if x == c(3)));
    let a = s.step(Event::Recorded);
    assert!(matches!(a, Action::Finish(Outcome::Synced)));
    assert_eq!(s.persisted, Some(c(3)));
}

#[test]
fn network_failure_mid_batch_keeps_recorded_progress() {
    let (mut s, _) = inner(2).start(pid(), &project(None), Some(c(0)));
    let a = s.step(Event::Walked((0..5).map(c).collect()));
    assert_eq!(stage_of(&a), Some(c(4)));
    s.step(Event::Pushed(true));
    s.step(Event::Recorded);
    assert_eq!(s.persisted, Some(c(4)));
    let a = s.step(Event::PushFailed(RemoteError::Network));
    assert!(matches!(a, Action::Finish(Outcome::Deferred)));
    assert_eq!(s.persisted, Some(c(4)));
    assert_eq!(s.stage, Stage::Done);
    assert!(!s.accepts(&Event::Recorded));
}

#[test]
fn network_failure_on_first_push_records_nothing() {
    let (mut s, _) = inner(2).start(pid(), &project(Some(c(9))), Some(c(0)));
    s.step(Event::Walked((0..5).map(c).collect()));
    let a = s.step(Event::PushFailed(RemoteError::Network));
    assert!(matches!(a, Action::Finish(Outcome::Deferred)));
    assert_eq!(s.persisted, Some(c(9)));
}

#[test]
fn network_failure_on_mirror_push_is_deferred() {
    let (mut s, _) = inner(1000).start(pid(), &project(Some(c(3))), Some(c(3)));
    s.step(Event::Refs(refs()));
    let a = s.step(Event::PushFailed(RemoteError::Network));
    assert!(matches!(a, Action::Finish(Outcome::Deferred)));
}

#[test]
fn rejected_push_is_fatal() {
    let (mut s, _) = inner(1000).start(pid(), &project(None), Some(c(0)));
    s.step(Event::Walked(vec![c(0), c(1)]));
    let a = s.step(Event::PushFailed(RemoteError::Other));
    assert!(matches!(a, Action::Finish(Outcome::Failed(FailedPhase::Push))));
    assert_eq!(s.persisted, None);
}

#[test]
fn failed_walk_is_fatal() {
    let (mut s, _) = inner(1000).start(pid(), &project(None), Some(c(0)));
    assert!(s.accepts(&Event::WalkFailed));
    let a = s.step(Event::WalkFailed);
    assert!(matches!(a, Action::Finish(Outcome::Failed(FailedPhase::Push))));
}

#[test]
fn failed_reference_listing_is_fatal() {
    let (mut s, _) = inner(1000).start(pid(), &project(Some(c(3))), Some(c(3)));
    let a = s.step(Event::RefsFailed);
    assert!(matches!(a, Action::Finish(Outcome::Failed(FailedPhase::Push))));
}

#[test]
fn failed_batch_record_is_a_push_failure() {
    let (mut s, _) = inner(1).start(pid(), &project(None), Some(c(0)));
    s.step(Event::Walked(vec![c(0), c(1)]));
    s.step(Event::Pushed(true));
    let a = s.step(Event::RecordFailed);
    assert!(matches!(a, Action::Finish(Outcome::Failed(FailedPhase::Push))));
    assert_eq!(s.persisted, None);
}

#[test]
fn failed_final_record_is_an_update_failure() {
    let (mut s, _) = inner(1000).start(pid(), &project(Some(c(3))), Some(c(3)));
    s.step(Event::Refs(refs()));
    s.step(Event::Pushed(true));
    let a = s.step(Event::RecordFailed);
    assert!(matches!(a, Action::Finish(Outcome::Failed(FailedPhase::UpdateProgress))));
    assert_eq!(s.persisted, Some(c(3)));
}

#[test]
fn second_trigger_is_dropped_while_the_first_runs() {
    let mut g = SyncLock::new();
    assert!(g.try_acquire());
    assert!(!g.try_acquire());
    g.release();
    assert!(g.try_acquire());
}

#[test]
fn second_sync_without_changes_only_refreshes_progress() {
    let h = inner(1000);
    let (mut s, _) = h.start(pid(), &project(Some(c(0))), Some(c(5)));
    let events = vec![
        Event::Walked(vec![c(5), c(4)]),
        Event::Pushed(true),
        Event::Recorded,
        Event::Pushed(true),
        Event::Refs(refs()),
        Event::Pushed(true),
    ];
    for e in events {
        assert!(s.accepts(&e));
        s.step(e);
    }
    let a = s.step(Event::Recorded);
    assert!(matches!(a, Action::Finish(Outcome::Synced)));
    assert_eq!(s.persisted, Some(c(5)));

    // the next trigger finds the target acknowledged: no walk, no batch push
    let (mut again, a) = h.start(pid(), &project(s.persisted), Some(c(5)));
    assert!(matches!(a, Action::CollectRefs));
    let a = again.step(Event::Refs(refs()));
    assert!(matches!(&a, Action::Push(v) if v.iter().all(|r| matches!(r, Refspec::Mirror { .. }))));
    let a = again.step(Event::Pushed(false));
    assert!(matches!(a, Action::Record(x) if x == c(5)));
    again.step(Event::Recorded);
    assert_eq!(again.persisted, Some(c(5)));
}
