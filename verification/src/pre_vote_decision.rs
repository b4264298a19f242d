//! Pre-vote and vote decision logic.
//!
//! # Election restriction
//!
//! A voter only grants a vote if the candidate's last log id is at least as up-to-date as the
//! voter's own: the candidate's last entry has a strictly greater term, or the same term and an
//! index `>=` the voter's. The same predicate serves both the real vote and the pre-vote probe.
//!
//! # Lease-aware rejection
//!
//! In addition, a node that heard from the current leader within the election timeout rejects
//! pre-vote requests, so a live leader is not disrupted.
use vstd::prelude::*;

use crate::leader_lease::LeaseStatus;
use crate::log_id::LogId;

verus! {

/// Decision returned by [`evaluate_pre_vote`].
#[derive(Debug, Clone, Copy, PartialEq, Eq, Structural)]
pub enum PreVoteDecision {
    /// Grant the pre-vote.
    Grant,
    /// Reject because the lease is still active.
    RejectLeaseActive,
    /// Reject because the candidate's log is not at least as up-to-date.
    RejectStaleLog,
    /// Reject because the candidate's term is below this voter's.
    RejectStaleTerm,
}

impl PreVoteDecision {
    pub fn is_granted(&self) -> (b: bool)
        ensures
            b <==> *self == PreVoteDecision::Grant,
    {
        matches!(self, PreVoteDecision::Grant)
    }
}

/// The election restriction: the candidate's last log id `c` is at least as up-to-date as the
/// voter's `v`, comparing (term, index) lexicographically, an empty log being the oldest.
pub open spec fn log_up_to_date(c: Option<LogId>, v: Option<LogId>) -> bool {
    match (c, v) {
        (_, None) => true,
        (None, Some(_)) => false,
        (Some(c), Some(v)) => c.leader_id.term > v.leader_id.term || (c.leader_id.term
            == v.leader_id.term && c.index >= v.index),
    }
}

/// An optional reference taken by value.
pub open spec fn opt_val(o: Option<&LogId>) -> Option<LogId> {
    match o {
        Some(x) => Some(*x),
        None => None,
    }
}

/// The decision on a pre-vote request, checks in order: stale term, active lease, stale log.
pub open spec fn pre_vote_decision(
    candidate_term: u64,
    voter_current_term: u64,
    candidate_last: Option<LogId>,
    voter_last: Option<LogId>,
    lease_status: LeaseStatus,
) -> PreVoteDecision {
    if candidate_term < voter_current_term {
        PreVoteDecision::RejectStaleTerm
    } else if lease_status is Active {
        PreVoteDecision::RejectLeaseActive
    } else if !log_up_to_date(candidate_last, voter_last) {
        PreVoteDecision::RejectStaleLog
    } else {
        PreVoteDecision::Grant
    }
}

/// Evaluate a pre-vote request for grant or rejection.
///
/// - `candidate_term`: the prospective term of the request's vote.
/// - `voter_current_term`: this voter's current term.
/// - `candidate_last_log_id`: the request's last log id.
/// - `voter_last_log_id`: this voter's last log id.
/// - `lease_status`: if `Active`, the request is rejected regardless of log freshness.
///
/// A pre-vote is permissive on an equal term (the candidate has not incremented its term yet)
/// but rejects a strictly smaller term.
pub fn evaluate_pre_vote(
    candidate_term: u64,
    voter_current_term: u64,
    candidate_last_log_id: Option<&LogId>,
    voter_last_log_id: Option<&LogId>,
    lease_status: LeaseStatus,
) -> (d: PreVoteDecision)
    ensures
        d == pre_vote_decision(
            candidate_term,
            voter_current_term,
            opt_val(candidate_last_log_id),
            opt_val(voter_last_log_id),
            lease_status,
        ),
        d is Grant <==> candidate_term >= voter_current_term && !(lease_status is Active)
            && log_up_to_date(opt_val(candidate_last_log_id), opt_val(voter_last_log_id)),
{
    if candidate_term < voter_current_term {
        return PreVoteDecision::RejectStaleTerm;
    }
    if lease_status.is_active() {
        return PreVoteDecision::RejectLeaseActive;
    }
    if !is_log_up_to_date(candidate_last_log_id, voter_last_log_id) {
        return PreVoteDecision::RejectStaleLog;
    }
    PreVoteDecision::Grant
}

/// Election-restriction predicate, shared by pre-vote and real vote handling.
///
/// Returns `true` iff the candidate's log is at least as up-to-date as the voter's: the
/// candidate's last entry has a strictly greater term, or the same term and an index `>=`.
pub fn is_log_up_to_date(candidate_last: Option<&LogId>, voter_last: Option<&LogId>) -> (b: bool)
    ensures
        b == log_up_to_date(opt_val(candidate_last), opt_val(voter_last)),
{
    match (candidate_last, voter_last) {
        (None, None) => true,
        (Some(_), None) => true,
        (None, Some(_)) => false,
        (Some(c), Some(v)) => {
            let c_term = c.leader_id.get_term();
            let v_term = v.leader_id.get_term();
            if c_term != v_term {
                c_term > v_term
            } else {
                c.index >= v.index
            }
        },
    }
}

/// The election restriction, compared term first: a candidate whose last term is higher is up to
/// date whatever the indexes; a lower last term is stale whatever the indexes; at the same last
/// term, the candidate is up to date iff its last index is at least the voter's. An empty voter
/// log accepts any candidate, and an empty candidate log loses to a non-empty voter log.
pub proof fn lemma_up_to_date_by_term_then_index(c: LogId, v: LogId)
    ensures
        c.leader_id.term > v.leader_id.term ==> log_up_to_date(Some(c), Some(v)),
        c.leader_id.term < v.leader_id.term ==> !log_up_to_date(Some(c), Some(v)),
        c.leader_id.term == v.leader_id.term ==> (log_up_to_date(Some(c), Some(v)) <==> c.index >= v.index),
        log_up_to_date(Some(c), None),
        log_up_to_date(None, None),
        !log_up_to_date(None, Some(v)),
{
}

/// The pre-vote decision, in terms of its inputs: a candidate term below the voter's is rejected
/// as stale; otherwise an active lease rejects; otherwise the candidate is granted exactly when
/// its last log is empty-safe and term-then-index at least the voter's, and rejected as stale
/// log otherwise.
pub proof fn lemma_pre_vote_decision_cases(
    candidate_term: u64,
    voter_current_term: u64,
    c: Option<LogId>,
    v: Option<LogId>,
    lease_status: LeaseStatus,
)
    ensures
        ({
            let d = pre_vote_decision(candidate_term, voter_current_term, c, v, lease_status);
            let fresh = v is None || (c is Some && (c->0.leader_id.term > v->0.leader_id.term || (
            c->0.leader_id.term == v->0.leader_id.term && c->0.index >= v->0.index)));
            &&& candidate_term < voter_current_term ==> d == PreVoteDecision::RejectStaleTerm
            &&& candidate_term >= voter_current_term && lease_status is Active ==> d
                == PreVoteDecision::RejectLeaseActive
            &&& candidate_term >= voter_current_term && !(lease_status is Active) && fresh ==> d
                == PreVoteDecision::Grant
            &&& candidate_term >= voter_current_term && !(lease_status is Active) && !fresh ==> d
                == PreVoteDecision::RejectStaleLog
        }),
{
}

/// Every log is at least as up-to-date as itself.
pub proof fn lemma_up_to_date_reflexive(a: Option<LogId>)
    ensures
        log_up_to_date(a, a),
{
}

/// Of any two logs, one is at least as up-to-date as the other.
pub proof fn lemma_up_to_date_total(a: Option<LogId>, b: Option<LogId>)
    ensures
        log_up_to_date(a, b) || log_up_to_date(b, a),
{
}

/// "At least as up-to-date" is transitive.
pub proof fn lemma_up_to_date_transitive(a: Option<LogId>, b: Option<LogId>, c: Option<LogId>)
    requires
        log_up_to_date(a, b),
        log_up_to_date(b, c),
    ensures
        log_up_to_date(a, c),
{
}

/// Two logs that are each at least as up-to-date as the other end at the same term and index.
pub proof fn lemma_up_to_date_antisymmetric(a: LogId, b: LogId)
    requires
        log_up_to_date(Some(a), Some(b)),
        log_up_to_date(Some(b), Some(a)),
    ensures
        a.leader_id.term == b.leader_id.term,
        a.index == b.index,
{
}

/// A pre-vote never grants a candidate whose term is below the voter's, nor while a leader lease
/// is active, whatever the logs.
pub proof fn lemma_pre_vote_never_grants_stale_term_or_live_lease(
    candidate_term: u64,
    voter_current_term: u64,
    candidate_last: Option<LogId>,
    voter_last: Option<LogId>,
    lease_status: LeaseStatus,
)
    requires
        candidate_term < voter_current_term || lease_status is Active,
    ensures
        !(pre_vote_decision(candidate_term, voter_current_term, candidate_last, voter_last, lease_status) is Grant),
{
}

} // verus!
