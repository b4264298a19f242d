//! Leadership transfer: the leader catches the target up, sends it a timeout-now directive, and
//! waits for it to win the election.
//!
//! The transfer alternates waiting on the outside world (metrics changes, timers, the network)
//! with decisions. The decisions live here as a state machine: the driver reports each event
//! (a metrics snapshot taken at a time on its monotonic clock, in nanoseconds, or the outcome of
//! sending the directive) and performs the action returned.
use vstd::prelude::*;

use crate::log_id::{LogId, NodeId};
use crate::server_state::ServerState;

verus! {

/// Why a leadership transfer failed.
#[derive(Debug, Clone, PartialEq, Eq, Structural)]
pub enum TransferError {
    /// This node is not (or is no longer) the leader.
    NotLeader,
    /// The target is this node itself.
    TargetIsSelf(NodeId),
    /// The target is not a voter of the current membership.
    TargetNotVoter(NodeId),
    /// The target's replication did not catch up with the leader's log in time.
    TargetTooFarBehind { target: NodeId, matched: Option<LogId>, leader_last: Option<LogId> },
    /// The target did not become leader in time after the directive was sent.
    Timeout,
    /// The node's core is gone (shut down or failed).
    Fatal,
}

/// The facts of a metrics snapshot that a transfer decides on.
#[derive(Debug, Clone, PartialEq, Eq)]
pub struct TransferMetrics {
    /// This node's id.
    pub id: NodeId,
    /// This node's server state.
    pub state: ServerState,
    /// The voters of the effective membership.
    pub voter_ids: Vec<NodeId>,
    /// The index of the leader's last log entry.
    pub last_log_index: Option<u64>,
    /// The last log id replicated to the transfer target, if known.
    pub target_matched: Option<LogId>,
    /// The leader this node currently knows of.
    pub current_leader: Option<NodeId>,
}

/// Timing configuration of a transfer, in milliseconds.
#[derive(Debug, Clone, Copy, PartialEq, Eq, Structural)]
pub struct TransferConfig {
    pub election_timeout_max_ms: u64,
    pub heartbeat_interval_ms: u64,
}

/// Where a transfer stands.
#[derive(Debug, Clone, Copy, PartialEq, Eq, Structural)]
pub enum TransferPhase {
    /// Waiting until the target has replicated up to `leader_last`, at the latest until
    /// `deadline`.
    CatchingUp { leader_last: Option<u64>, deadline: u128 },
    /// The directive is being sent to the target.
    Dispatching,
    /// Waiting until the target is reported as leader, at the latest until `deadline`.
    AwaitingLeader { deadline: u128 },
    /// The transfer is over.
    Done,
}

/// What the driver must do next.
#[derive(Debug, PartialEq, Eq)]
pub enum TransferAction {
    /// Take a metrics snapshot at once and report it.
    Observe,
    /// Wait until the metrics change or `max_wait` nanoseconds pass, whichever comes first, then
    /// take a metrics snapshot and report it.
    Wait { max_wait: u128 },
    /// Send the timeout-now directive to the target and report the outcome.
    SendTimeoutNow,
    /// The transfer is over with this result.
    Finish(Result<(), TransferError>),
}

/// An ongoing leadership transfer to `target`.
#[derive(Debug, Clone, Copy, PartialEq, Eq, Structural)]
pub struct Transfer {
    pub target: NodeId,
    pub config: TransferConfig,
    pub phase: TransferPhase,
}

/// `ms` milliseconds in nanoseconds.
pub open spec fn ms_to_ns(ms: u64) -> u128 {
    (ms * 1_000_000) as u128
}

/// `ms × k`, saturating at `u64::MAX`.
pub open spec fn sat_mul(ms: u64, k: u64) -> u64 {
    if ms * k > u64::MAX { u64::MAX } else { (ms * k) as u64 }
}

/// `now + d`, saturating at `u128::MAX`.
pub open spec fn sat_add(now: u128, d: u128) -> u128 {
    if now + d > u128::MAX { u128::MAX } else { (now + d) as u128 }
}

/// The time `k` election timeouts after `now`.
pub open spec fn deadline_after(now: u128, cfg: TransferConfig, k: u64) -> u128 {
    sat_add(now, ms_to_ns(sat_mul(cfg.election_timeout_max_ms, k)))
}

/// Whether the target has replicated up to the leader's last log index.
pub open spec fn caught_up(matched: Option<LogId>, leader_last: Option<u64>) -> bool {
    match (matched, leader_last) {
        (Some(m), Some(l)) => m.index >= l,
        (None, Some(_)) => false,
        (_, None) => true,
    }
}

/// The first decision of a transfer, on a snapshot taken at `now`.
pub open spec fn spec_start(target: NodeId, cfg: TransferConfig, m: TransferMetrics, now: u128) -> (Transfer, TransferAction) {
    let done = Transfer { target, config: cfg, phase: TransferPhase::Done };
    if m.state != ServerState::Leader {
        (done, TransferAction::Finish(Err(TransferError::NotLeader)))
    } else if m.id == target {
        (done, TransferAction::Finish(Err(TransferError::TargetIsSelf(target))))
    } else if !m.voter_ids@.contains(target) {
        (done, TransferAction::Finish(Err(TransferError::TargetNotVoter(target))))
    } else {
        (
            Transfer {
                target,
                config: cfg,
                phase: TransferPhase::CatchingUp {
                    leader_last: m.last_log_index,
                    deadline: deadline_after(now, cfg, 2),
                },
            },
            TransferAction::Observe,
        )
    }
}

/// The decision on a metrics snapshot taken at `now`.
pub open spec fn spec_on_metrics(t: Transfer, m: TransferMetrics, now: u128) -> (Transfer, TransferAction) {
    let done = Transfer { phase: TransferPhase::Done, ..t };
    match t.phase {
        TransferPhase::CatchingUp { leader_last, deadline } => {
            if m.state != ServerState::Leader {
                (done, TransferAction::Finish(Err(TransferError::NotLeader)))
            } else if caught_up(m.target_matched, leader_last) {
                (Transfer { phase: TransferPhase::Dispatching, ..t }, TransferAction::SendTimeoutNow)
            } else if now >= deadline {
                (
                    done,
                    TransferAction::Finish(
                        Err(
                            TransferError::TargetTooFarBehind {
                                target: t.target,
                                matched: m.target_matched,
                                leader_last: None,
                            },
                        ),
                    ),
                )
            } else {
                (t, TransferAction::Wait { max_wait: ms_to_ns(t.config.heartbeat_interval_ms) })
            }
        },
        TransferPhase::AwaitingLeader { deadline } => {
            if m.current_leader == Some(t.target) {
                (done, TransferAction::Finish(Ok(())))
            } else if now >= deadline {
                (done, TransferAction::Finish(Err(TransferError::Timeout)))
            } else {
                let remaining = (deadline - now) as u128;
                let hb = ms_to_ns(t.config.heartbeat_interval_ms);
                (t, TransferAction::Wait { max_wait: if remaining < hb { remaining } else { hb } })
            }
        },
        _ => (t, TransferAction::Observe),
    }
}

/// The decision on the outcome of sending the directive: `sent` is `false` when the core did not
/// take the request; otherwise `reply` is the core's reply, `None` if the core dropped it, and
/// `now` the time it arrived.
pub open spec fn spec_on_dispatch(t: Transfer, sent: bool, reply: Option<Result<(), TransferError>>, now: u128) -> (Transfer, TransferAction) {
    let done = Transfer { phase: TransferPhase::Done, ..t };
    if !sent {
        (done, TransferAction::Finish(Err(TransferError::Fatal)))
    } else {
        match reply {
            Some(Ok(())) => (
                Transfer {
                    phase: TransferPhase::AwaitingLeader { deadline: deadline_after(now, t.config, 2) },
                    ..t
                },
                TransferAction::Observe,
            ),
            Some(Err(e)) => (done, TransferAction::Finish(Err(e))),
            None => (done, TransferAction::Finish(Err(TransferError::Fatal))),
        }
    }
}

/// `ms` milliseconds in nanoseconds.
fn ns_of_ms(ms: u64) -> (ns: u128)
    ensures
        ns == ms_to_ns(ms),
{
    assert(ms * 1_000_000 <= u64::MAX * 1_000_000) by (nonlinear_arith)
        requires ms <= u64::MAX;
    (ms as u128) * 1_000_000
}

/// The time `k` election timeouts after `now`.
fn deadline_from(now: u128, cfg: TransferConfig, k: u64) -> (d: u128)
    requires
        k > 0,
    ensures
        d == deadline_after(now, cfg, k),
{
    let ms = cfg.election_timeout_max_ms;
    let total: u64 = if ms > u64::MAX / k {
        assert(ms * k > u64::MAX) by (nonlinear_arith)
            requires ms > u64::MAX / k, k > 0;
        u64::MAX
    } else {
        assert(ms * k <= u64::MAX) by (nonlinear_arith)
            requires ms <= u64::MAX / k, k > 0;
        ms * k
    };
    now.saturating_add(ns_of_ms(total))
}

impl Transfer {
    /// Begin a transfer of leadership to `target`, deciding on a metrics snapshot taken at `now`.
    ///
    /// Fails at once if this node is not the leader, if the target is this node, or if the
    /// target is not a voter; otherwise starts catching the target up, with a budget of two
    /// election timeouts, and asks for a fresh snapshot.
    pub fn start(target: NodeId, config: TransferConfig, metrics: &TransferMetrics, now: u128) -> (r: (Transfer, TransferAction))
        ensures
            r == spec_start(target, config, *metrics, now),
    {
        let done = Transfer { target, config, phase: TransferPhase::Done };
        if metrics.state != ServerState::Leader {
            return (done, TransferAction::Finish(Err(TransferError::NotLeader)));
        }
        if metrics.id == target {
            return (done, TransferAction::Finish(Err(TransferError::TargetIsSelf(target))));
        }
        if !contains_node(&metrics.voter_ids, target) {
            return (done, TransferAction::Finish(Err(TransferError::TargetNotVoter(target))));
        }
        let deadline = deadline_from(now, config, 2);
        (
            Transfer {
                target,
                config,
                phase: TransferPhase::CatchingUp { leader_last: metrics.last_log_index, deadline },
            },
            TransferAction::Observe,
        )
    }

    /// Decide on a metrics snapshot taken at `now`.
    ///
    /// While catching up: fail if this node stopped being leader; send the directive once the
    /// target has replicated the leader's last log entry; fail once the budget is spent;
    /// otherwise wait up to a heartbeat interval. While awaiting the new leader: succeed once the
    /// target is reported as leader; time out at the deadline; otherwise wait up to a heartbeat
    /// interval, and no longer than the deadline.
    pub fn on_metrics(&mut self, metrics: &TransferMetrics, now: u128) -> (a: TransferAction)
        requires
            old(self).phase is CatchingUp || old(self).phase is AwaitingLeader,
        ensures
            (*final(self), a) == spec_on_metrics(*old(self), *metrics, now),
    {
        match self.phase {
            TransferPhase::CatchingUp { leader_last, deadline } => {
                if metrics.state != ServerState::Leader {
                    self.phase = TransferPhase::Done;
                    return TransferAction::Finish(Err(TransferError::NotLeader));
                }
                let matched_idx = match metrics.target_matched {
                    Some(l) => Some(l.index),
                    None => None,
                };
                let is_caught_up = match (matched_idx, leader_last) {
                    (Some(m_idx), Some(ll_idx)) => m_idx >= ll_idx,
                    (None, None) => true,
                    (Some(_), None) => true,
                    (None, Some(_)) => false,
                };
                if is_caught_up {
                    self.phase = TransferPhase::Dispatching;
                    return TransferAction::SendTimeoutNow;
                }
                if now >= deadline {
                    self.phase = TransferPhase::Done;
                    return TransferAction::Finish(
                        Err(
                            TransferError::TargetTooFarBehind {
                                target: self.target,
                                matched: metrics.target_matched,
                                leader_last: None,
                            },
                        ),
                    );
                }
                TransferAction::Wait { max_wait: ns_of_ms(self.config.heartbeat_interval_ms) }
            },
            TransferPhase::AwaitingLeader { deadline } => {
                if metrics.current_leader == Some(self.target) {
                    self.phase = TransferPhase::Done;
                    return TransferAction::Finish(Ok(()));
                }
                if now >= deadline {
                    self.phase = TransferPhase::Done;
                    return TransferAction::Finish(Err(TransferError::Timeout));
                }
                let remaining = deadline - now;
                let hb = ns_of_ms(self.config.heartbeat_interval_ms);
                TransferAction::Wait { max_wait: if remaining < hb { remaining } else { hb } }
            },
            _ => TransferAction::Observe,
        }
    }

    /// Decide on the outcome of sending the directive, reported at `now`: `sent` is `false` when
    /// the core did not take the request; `reply` is the core's reply, `None` if it was dropped.
    ///
    /// On success, wait for the target to win, for at most two election timeouts.
    pub fn on_dispatch(&mut self, sent: bool, reply: Option<Result<(), TransferError>>, now: u128) -> (a: TransferAction)
        requires
            old(self).phase is Dispatching,
        ensures
            (*final(self), a) == spec_on_dispatch(*old(self), sent, reply, now),
    {
        if !sent {
            self.phase = TransferPhase::Done;
            return TransferAction::Finish(Err(TransferError::Fatal));
        }
        match reply {
            Some(Ok(())) => {
                let deadline = deadline_from(now, self.config, 2);
                self.phase = TransferPhase::AwaitingLeader { deadline };
                TransferAction::Observe
            },
            Some(Err(e)) => {
                self.phase = TransferPhase::Done;
                TransferAction::Finish(Err(e))
            },
            None => {
                self.phase = TransferPhase::Done;
                TransferAction::Finish(Err(TransferError::Fatal))
            },
        }
    }
}

/// A transfer succeeds only on a snapshot, taken after the directive was accepted, that reports the
/// target as leader; neither the start nor the dispatch outcome ever reports success.
pub proof fn lemma_success_only_when_target_leads(
    t: Transfer,
    target: NodeId,
    cfg: TransferConfig,
    m: TransferMetrics,
    sent: bool,
    reply: Option<Result<(), TransferError>>,
    now: u128,
)
    ensures
        spec_on_metrics(t, m, now).1 == TransferAction::Finish(Ok(())) ==> t.phase is AwaitingLeader
            && m.current_leader == Some(t.target),
        spec_start(target, cfg, m, now).1 != TransferAction::Finish(Ok(())),
        spec_on_dispatch(t, sent, reply, now).1 != TransferAction::Finish(Ok(())),
{
}

/// The directive is sent only while this node is leader and the target has replicated the
/// leader's last log entry.
pub proof fn lemma_directive_only_to_caught_up_target(t: Transfer, m: TransferMetrics, now: u128)
    requires
        spec_on_metrics(t, m, now).1 == TransferAction::SendTimeoutNow,
    ensures
        m.state == ServerState::Leader,
        t.phase matches TransferPhase::CatchingUp { leader_last, .. } && caught_up(m.target_matched, leader_last),
        spec_on_metrics(t, m, now).0.phase is Dispatching,
{
}

/// Every step either finishes the transfer and leaves it `Done`, or keeps it going and leaves it
/// out of `Done`.
pub proof fn lemma_finish_iff_done(
    t: Transfer,
    target: NodeId,
    cfg: TransferConfig,
    m: TransferMetrics,
    sent: bool,
    reply: Option<Result<(), TransferError>>,
    now: u128,
)
    requires
        t.phase is CatchingUp || t.phase is AwaitingLeader,
    ensures
        (spec_start(target, cfg, m, now).1 is Finish) <==> (spec_start(target, cfg, m, now).0.phase is Done),
        (spec_on_metrics(t, m, now).1 is Finish) <==> (spec_on_metrics(t, m, now).0.phase is Done),
        (spec_on_dispatch(Transfer { phase: TransferPhase::Dispatching, ..t }, sent, reply, now).1 is Finish)
            <==> (spec_on_dispatch(Transfer { phase: TransferPhase::Dispatching, ..t }, sent, reply, now).0.phase is Done),
{
}

/// A wait never outlasts a heartbeat interval, and while awaiting the new leader it never runs
/// past the deadline; once the deadline passes without a new leader the transfer times out.
pub proof fn lemma_waits_are_bounded(t: Transfer, m: TransferMetrics, now: u128)
    ensures
        spec_on_metrics(t, m, now).1 matches TransferAction::Wait { max_wait }
            ==> max_wait <= ms_to_ns(t.config.heartbeat_interval_ms),
        t.phase matches TransferPhase::AwaitingLeader { deadline } ==> (spec_on_metrics(t, m, now).1 matches
            TransferAction::Wait { max_wait } ==> now + max_wait <= deadline),
        t.phase matches TransferPhase::AwaitingLeader { deadline } ==> (now >= deadline && m.current_leader
            != Some(t.target) ==> spec_on_metrics(t, m, now).1 == TransferAction::Finish(Err(TransferError::Timeout))),
{
}

/// Once the directive is accepted at `sent_at`, a snapshot without the target as leader taken two
/// election timeouts later or after ends the transfer with `Timeout`; one taken before that
/// keeps waiting.
pub proof fn lemma_timeout_two_election_timeouts_after_dispatch(
    t: Transfer,
    sent_at: u128,
    m: TransferMetrics,
    now: u128,
)
    requires
        t.phase is Dispatching,
        m.current_leader != Some(t.target),
    ensures
        spec_on_dispatch(t, true, Some(Ok(())), sent_at).0.phase == (TransferPhase::AwaitingLeader {
            deadline: deadline_after(sent_at, t.config, 2),
        }),
        now >= deadline_after(sent_at, t.config, 2) ==> spec_on_metrics(
            spec_on_dispatch(t, true, Some(Ok(())), sent_at).0,
            m,
            now,
        ).1 == TransferAction::Finish(Err(TransferError::Timeout)),
        now < deadline_after(sent_at, t.config, 2) ==> spec_on_metrics(
            spec_on_dispatch(t, true, Some(Ok(())), sent_at).0,
            m,
            now,
        ).1 is Wait,
{
}

/// The first decision, in terms of the snapshot: a node that is not leader fails with
/// `NotLeader`; then a transfer to itself fails with `TargetIsSelf`; then a target outside the
/// voters fails with `TargetNotVoter`; otherwise the target is caught up to the leader's last
/// index as of this snapshot, with a budget of two election timeouts from `now`.
pub proof fn lemma_start_decisions(target: NodeId, cfg: TransferConfig, m: TransferMetrics, now: u128)
    ensures
        m.state != ServerState::Leader ==> spec_start(target, cfg, m, now).1 == TransferAction::Finish(
            Err(TransferError::NotLeader),
        ),
        m.state == ServerState::Leader && m.id == target ==> spec_start(target, cfg, m, now).1
            == TransferAction::Finish(Err(TransferError::TargetIsSelf(target))),
        m.state == ServerState::Leader && m.id != target && !m.voter_ids@.contains(target) ==> spec_start(
            target,
            cfg,
            m,
            now,
        ).1 == TransferAction::Finish(Err(TransferError::TargetNotVoter(target))),
        m.state == ServerState::Leader && m.id != target && m.voter_ids@.contains(target) ==> {
            let (t, a) = spec_start(target, cfg, m, now);
            &&& a == TransferAction::Observe
            &&& t.target == target
            &&& t.config == cfg
            &&& t.phase is CatchingUp
            &&& t.phase->CatchingUp_leader_last == m.last_log_index
            &&& t.phase->CatchingUp_deadline >= now
            &&& (cfg.election_timeout_max_ms * 2 <= u64::MAX && now + cfg.election_timeout_max_ms * 2
                * 1_000_000 <= u128::MAX) ==> t.phase->CatchingUp_deadline == now
                + cfg.election_timeout_max_ms * 2 * 1_000_000
        },
{
}

/// One catch-up step, in terms of the snapshot: losing leadership fails with `NotLeader`; a
/// target whose replicated index has reached the leader's last index (or a leader with an empty
/// log) gets the directive; a target still behind fails with `TargetTooFarBehind` once the
/// deadline has come, and is otherwise waited for one heartbeat interval.
pub proof fn lemma_catch_up_step(t: Transfer, m: TransferMetrics, now: u128)
    requires
        t.phase is CatchingUp,
    ensures
        ({
            let leader_last = t.phase->CatchingUp_leader_last;
            let deadline = t.phase->CatchingUp_deadline;
            let (t2, a) = spec_on_metrics(t, m, now);
            let reached = leader_last is None || (m.target_matched is Some && m.target_matched->0.index
                >= leader_last->0);
            &&& m.state != ServerState::Leader ==> a == TransferAction::Finish(Err(TransferError::NotLeader))
                && t2 == Transfer { phase: TransferPhase::Done, ..t }
            &&& m.state == ServerState::Leader && reached ==> a == TransferAction::SendTimeoutNow && t2
                == Transfer { phase: TransferPhase::Dispatching, ..t }
            &&& m.state == ServerState::Leader && !reached && now >= deadline ==> a == TransferAction::Finish(
                Err(
                    TransferError::TargetTooFarBehind {
                        target: t.target,
                        matched: m.target_matched,
                        leader_last: None,
                    },
                ),
            ) && t2 == Transfer { phase: TransferPhase::Done, ..t }
            &&& m.state == ServerState::Leader && !reached && now < deadline ==> a == TransferAction::Wait {
                max_wait: (t.config.heartbeat_interval_ms * 1_000_000) as u128,
            } && t2 == t
        }),
{
}

/// One step while awaiting the new leader, in terms of the snapshot: the target reported as
/// leader ends the transfer with success; otherwise the deadline ends it with `Timeout`; before
/// the deadline the driver waits for the smaller of the time left and one heartbeat interval.
pub proof fn lemma_await_step(t: Transfer, m: TransferMetrics, now: u128)
    requires
        t.phase is AwaitingLeader,
    ensures
        ({
            let deadline = t.phase->AwaitingLeader_deadline;
            let hb = t.config.heartbeat_interval_ms * 1_000_000;
            let (t2, a) = spec_on_metrics(t, m, now);
            &&& m.current_leader == Some(t.target) ==> a == TransferAction::Finish(Ok(())) && t2 == Transfer {
                phase: TransferPhase::Done,
                ..t
            }
            &&& m.current_leader != Some(t.target) && now >= deadline ==> a == TransferAction::Finish(
                Err(TransferError::Timeout),
            ) && t2 == Transfer { phase: TransferPhase::Done, ..t }
            &&& m.current_leader != Some(t.target) && now < deadline ==> t2 == t && a == TransferAction::Wait {
                max_wait: (if deadline - now < hb { deadline - now } else { hb }) as u128,
            }
        }),
{
}

/// The dispatch outcome, in terms of its inputs: a request the core did not take, or a dropped
/// reply, fails with `Fatal`; an error reply fails with that error; an accepted directive starts
/// the wait for the new leader, two election timeouts from `now`.
pub proof fn lemma_dispatch_step(t: Transfer, sent: bool, reply: Option<Result<(), TransferError>>, now: u128)
    ensures
        !sent ==> spec_on_dispatch(t, sent, reply, now) == (
            Transfer { phase: TransferPhase::Done, ..t },
            TransferAction::Finish(Err(TransferError::Fatal)),
        ),
        sent && reply is None ==> spec_on_dispatch(t, sent, reply, now) == (
            Transfer { phase: TransferPhase::Done, ..t },
            TransferAction::Finish(Err(TransferError::Fatal)),
        ),
        sent ==> (reply matches Some(Err(e)) ==> spec_on_dispatch(t, sent, reply, now) == (
            Transfer { phase: TransferPhase::Done, ..t },
            TransferAction::Finish(Err(e)),
        )),
        sent && reply == Some(Ok::<(), TransferError>(())) ==> {
            let (t2, a) = spec_on_dispatch(t, sent, reply, now);
            &&& a == TransferAction::Observe
            &&& t2.target == t.target && t2.config == t.config
            &&& t2.phase is AwaitingLeader
            &&& t2.phase->AwaitingLeader_deadline >= now
            &&& (t.config.election_timeout_max_ms * 2 <= u64::MAX && now + t.config.election_timeout_max_ms * 2
                * 1_000_000 <= u128::MAX) ==> t2.phase->AwaitingLeader_deadline == now
                + t.config.election_timeout_max_ms * 2 * 1_000_000
        },
{
}

/// Whether `ids` holds `id`.
fn contains_node(ids: &Vec<NodeId>, id: NodeId) -> (b: bool)
    ensures
        b == ids@.contains(id),
{
    let mut i: usize = 0;
    while i < ids.len()
        invariant
            i <= ids.len(),
            forall|k: int| 0 <= k < i ==> ids@[k] != id,
        decreases ids.len() - i,
    {
        if ids[i] == id {
            return true;
        }
        i += 1;
    }
    false
}

} // verus!
