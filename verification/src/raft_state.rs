//! The committed position of a node's log.
use vstd::prelude::*;

use crate::log_id::{opt_log_id_less, opt_log_id_lt, LogId};

verus! {

/// The part of a node's Raft state that tracks the committed log id.
#[derive(Debug, Clone, PartialEq, Eq, Structural)]
pub struct RaftState {
    /// The id of the last log entry known to be committed.
    pub committed: Option<LogId>,
}

impl Default for RaftState {
    /// Nothing committed yet.
    fn default() -> (s: Self)
        ensures
            s.committed == None::<LogId>,
    {
        RaftState { committed: None }
    }
}

/// Whether a new committed log id `new` is accepted over the current `cur`: it must be greater
/// in log-id order, and must not move the committed *index* backwards.
pub open spec fn commit_accepted(cur: Option<LogId>, new: Option<LogId>) -> bool {
    &&& opt_log_id_lt(cur, new)
    &&& match (cur, new) {
        (Some(c), Some(n)) => n.index >= c.index,
        _ => true,
    }
}

/// `a` is later than `b`: by term, then by the leader's node id, then by index.
pub open spec fn later_log_id(a: LogId, b: LogId) -> bool {
    ||| a.leader_id.term > b.leader_id.term
    ||| a.leader_id.term == b.leader_id.term && a.leader_id.node_id > b.leader_id.node_id
    ||| a.leader_id.term == b.leader_id.term && a.leader_id.node_id == b.leader_id.node_id && a.index > b.index
}

impl RaftState {
    /// Update the committed log id if `committed` is greater and does not move the committed
    /// index backwards; return the previous value if it was updated, `None` otherwise.
    ///
    /// A higher term at a lower index compares greater in log-id order, but accepting it would
    /// move the committed index back and invert the apply window `[prev.index + 1, new.index + 1)`;
    /// it is rejected.
    pub fn update_committed(&mut self, committed: &Option<LogId>) -> (prev: Option<Option<LogId>>)
        ensures
            commit_accepted(old(self).committed, *committed) ==> prev == Some(old(self).committed)
                && final(self).committed == *committed,
            !commit_accepted(old(self).committed, *committed) ==> prev == None::<Option<LogId>>
                && *final(self) == *old(self),
            // The first commit of anything is accepted.
            old(self).committed is None && committed is Some ==> prev == Some(None::<LogId>)
                && final(self).committed == *committed,
            // A commit later in (term, leader node, index) order that keeps the index from going
            // back is accepted, whoever the leaders are.
            old(self).committed is Some && committed is Some && later_log_id(
                committed->0,
                old(self).committed->0,
            ) && committed->0.index >= old(self).committed->0.index ==> prev == Some(old(self).committed)
                && final(self).committed == *committed,
            // Committing nothing, a log id that is not later, or a lower index, changes nothing.
            committed is None ==> prev == None::<Option<LogId>> && *final(self) == *old(self),
            old(self).committed is Some && committed is Some && (!later_log_id(
                committed->0,
                old(self).committed->0,
            ) || committed->0.index < old(self).committed->0.index) ==> prev == None::<Option<LogId>>
                && *final(self) == *old(self),
    {
        let index_regresses = match (&self.committed, committed) {
            (Some(c), Some(n)) => n.index < c.index,
            _ => false,
        };
        if opt_log_id_less(&self.committed, committed) && !index_regresses {
            let prev = self.committed;
            self.committed = *committed;
            Some(prev)
        } else {
            None
        }
    }
}

/// An accepted commit never moves the committed index backwards, so the apply window
/// `[prev.index + 1, new.index + 1)` derived from it is never inverted; and the committed log id
/// strictly increases.
pub proof fn lemma_commit_never_regresses(cur: Option<LogId>, new: Option<LogId>)
    requires
        commit_accepted(cur, new),
    ensures
        new is Some,
        cur is Some ==> new->0.index >= cur->0.index,
        cur is Some ==> cur->0.index + 1 <= new->0.index + 1,
        opt_log_id_lt(cur, new),
{
}

/// Acceptance, stated without the acceptance predicate: a first commit is always accepted; a
/// later commit is accepted iff it is later in (term, leader node, index) order and does not
/// lower the index; committing nothing is never accepted.
pub proof fn lemma_commit_accepted_iff(cur: Option<LogId>, new: Option<LogId>)
    ensures
        cur is None && new is Some ==> commit_accepted(cur, new),
        new is None ==> !commit_accepted(cur, new),
        cur is Some && new is Some ==> (commit_accepted(cur, new) <==> later_log_id(new->0, cur->0)
            && new->0.index >= cur->0.index),
{
}

/// Along any sequence of accepted commits, the committed index only grows.
pub proof fn lemma_commit_chain_monotone(a: Option<LogId>, b: Option<LogId>, c: Option<LogId>)
    requires
        commit_accepted(a, b),
        commit_accepted(b, c),
        a is Some,
    ensures
        c->0.index >= a->0.index,
        opt_log_id_lt(a, c),
{
}

} // verus!
