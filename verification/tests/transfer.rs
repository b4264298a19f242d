use ferrosa_raft::transfer::{Transfer, TransferAction, TransferConfig, TransferError, TransferMetrics, TransferPhase};
use ferrosa_raft::{CommittedLeaderId, LogId, ServerState};

const MS: u128 = 1_000_000;

fn cfg() -> TransferConfig {
    TransferConfig { election_timeout_max_ms: 100, heartbeat_interval_ms: 10 }
}

fn lid(term: u64, index: u64) -> LogId {
    LogId::new(CommittedLeaderId::new(term, 0), index)
}

fn leader_metrics() -> TransferMetrics {
    TransferMetrics {
        id: 0,
        state: ServerState::Leader,
        voter_ids: vec![0, 1, 2],
        last_log_index: Some(10),
        target_matched: Some(lid(1, 10)),
        current_leader: Some(0),
    }
}

#[test]
fn transfer_rejects_when_not_leader() {
    let m = TransferMetrics { state: ServerState::Follower, ..leader_metrics() };
    let (t, a) = Transfer::start(1, cfg(), &m, 0);
    assert_eq!(a, TransferAction::Finish(Err(TransferError::NotLeader)));
    assert_eq!(t.phase, TransferPhase::Done);
}

#[test]
fn transfer_rejects_self_target() {
    let (_, a) = Transfer::start(0, cfg(), &leader_metrics(), 0);
    assert_eq!(a, TransferAction::Finish(Err(TransferError::TargetIsSelf(0))));
}

#[test]
fn transfer_rejects_non_voter_target() {
    let (_, a) = Transfer::start(7, cfg(), &leader_metrics(), 0);
    assert_eq!(a, TransferAction::Finish(Err(TransferError::TargetNotVoter(7))));
}

#[test]
fn transfer_happy_path() {
    let m = leader_metrics();
    let (mut t, a) = Transfer::start(1, cfg(), &m, 5 * MS);
    assert_eq!(a, TransferAction::Observe);
    assert_eq!(t.phase, TransferPhase::CatchingUp { leader_last: Some(10), deadline: 205 * MS });

    // Target has replicated index 10: send the directive.
    assert_eq!(t.on_metrics(&m, 6 * MS), TransferAction::SendTimeoutNow);
    assert_eq!(t.phase, TransferPhase::Dispatching);

    // Directive accepted at 20ms: wait up to 2 election timeouts.
    assert_eq!(t.on_dispatch(true, Some(Ok(())), 20 * MS), TransferAction::Observe);
    assert_eq!(t.phase, TransferPhase::AwaitingLeader { deadline: 220 * MS });

    // Still the old leader: wait at most a heartbeat.
    assert_eq!(t.on_metrics(&m, 21 * MS), TransferAction::Wait { max_wait: 10 * MS });

    // Near the deadline the wait shrinks to what is left.
    assert_eq!(t.on_metrics(&m, 215 * MS), TransferAction::Wait { max_wait: 5 * MS });

    let won = TransferMetrics { current_leader: Some(1), state: ServerState::Follower, ..leader_metrics() };
    assert_eq!(t.on_metrics(&won, 30 * MS), TransferAction::Finish(Ok(())));
    assert_eq!(t.phase, TransferPhase::Done);
}

#[test]
fn transfer_waits_for_catch_up_then_gives_up() {
    let m = TransferMetrics { target_matched: Some(lid(1, 4)), ..leader_metrics() };
    let (mut t, _) = Transfer::start(1, cfg(), &m, 0);
    assert_eq!(t.on_metrics(&m, 10 * MS), TransferAction::Wait { max_wait: 10 * MS });
    assert_eq!(
        t.on_metrics(&m, 200 * MS),
        TransferAction::Finish(Err(TransferError::TargetTooFarBehind {
            target: 1,
            matched: Some(lid(1, 4)),
            leader_last: None,
        }))
    );
}

#[test]
fn transfer_catch_up_uses_the_first_snapshots_last_index() {
    let m = leader_metrics();
    let (mut t, _) = Transfer::start(1, cfg(), &m, 0);
    // The leader's log grew meanwhile, but the catch-up target stays index 10.
    let later = TransferMetrics { last_log_index: Some(20), ..leader_metrics() };
    assert_eq!(t.on_metrics(&later, MS), TransferAction::SendTimeoutNow);
}

#[test]
fn transfer_with_unknown_target_progress_waits() {
    let m = TransferMetrics { target_matched: None, ..leader_metrics() };
    let (mut t, _) = Transfer::start(1, cfg(), &m, 0);
    assert_eq!(t.on_metrics(&m, MS), TransferAction::Wait { max_wait: 10 * MS });
    // An empty leader log needs no catch-up.
    let empty = TransferMetrics { target_matched: None, last_log_index: None, ..leader_metrics() };
    let (mut t, _) = Transfer::start(1, cfg(), &empty, 0);
    assert_eq!(t.on_metrics(&empty, MS), TransferAction::SendTimeoutNow);
}

#[test]
fn transfer_fails_when_leadership_lost_during_catch_up() {
    let m = TransferMetrics { target_matched: Some(lid(1, 4)), ..leader_metrics() };
    let (mut t, _) = Transfer::start(1, cfg(), &m, 0);
    let lost = TransferMetrics { state: ServerState::Follower, ..m };
    assert_eq!(t.on_metrics(&lost, MS), TransferAction::Finish(Err(TransferError::NotLeader)));
}

#[test]
fn transfer_times_out_if_target_does_not_win() {
    let m = leader_metrics();
    let (mut t, _) = Transfer::start(1, cfg(), &m, 0);
    t.on_metrics(&m, 0);
    t.on_dispatch(true, Some(Ok(())), 0);
    assert_eq!(t.on_metrics(&m, 199 * MS), TransferAction::Wait { max_wait: MS });
    assert_eq!(t.on_metrics(&m, 200 * MS), TransferAction::Finish(Err(TransferError::Timeout)));
}

#[test]
fn transfer_dispatch_failures() {
    let m = leader_metrics();
    let (mut t, _) = Transfer::start(1, cfg(), &m, 0);
    t.on_metrics(&m, 0);
    let mut t2 = t;
    let mut t3 = t;
    assert_eq!(t.on_dispatch(false, None, 0), TransferAction::Finish(Err(TransferError::Fatal)));
    assert_eq!(t2.on_dispatch(true, None, 0), TransferAction::Finish(Err(TransferError::Fatal)));
    assert_eq!(
        t3.on_dispatch(true, Some(Err(TransferError::NotLeader)), 0),
        TransferAction::Finish(Err(TransferError::NotLeader))
    );
}

#[test]
fn transfer_deadlines_saturate() {
    let big = TransferConfig { election_timeout_max_ms: u64::MAX, heartbeat_interval_ms: 10 };
    let (t, _) = Transfer::start(1, big, &leader_metrics(), u128::MAX - 1);
    assert_eq!(t.phase, TransferPhase::CatchingUp { leader_last: Some(10), deadline: u128::MAX });
}
