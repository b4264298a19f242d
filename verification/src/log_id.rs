//! Identifiers of leaders, votes and log entries.
//!
//! Node ids are plain `u64` values, so that every order used by the decisions below is the
//! integer order that Verus reasons about directly.
use vstd::prelude::*;

verus! {

/// The id of a Raft node.
pub type NodeId = u64;

/// The leader a vote is cast for, or under which a log entry was written: a term and the node
/// that campaigned in it. Ordered by term first, then by node id.
#[derive(Debug, Clone, Copy, PartialEq, Eq, Structural)]
pub struct LeaderId {
    pub term: u64,
    pub node_id: NodeId,
}

/// The leader id carried by a committed log id.
pub type CommittedLeaderId = LeaderId;

impl LeaderId {
    pub fn new(term: u64, node_id: NodeId) -> (l: LeaderId)
        ensures
            l.term == term,
            l.node_id == node_id,
    {
        LeaderId { term, node_id }
    }

    /// The term of this leader.
    pub fn get_term(&self) -> (t: u64)
        ensures
            t == self.term,
    {
        self.term
    }

    /// The node this leader id votes for.
    pub fn voted_for(&self) -> (n: Option<NodeId>)
        ensures
            n == Some(self.node_id),
    {
        Some(self.node_id)
    }
}

/// Strict order on leader ids: by term, then by node id.
pub open spec fn leader_id_lt(a: LeaderId, b: LeaderId) -> bool {
    a.term < b.term || (a.term == b.term && a.node_id < b.node_id)
}

/// The id of a log entry: the leader that wrote it and its index.
#[derive(Debug, Clone, Copy, PartialEq, Eq, Structural)]
pub struct LogId {
    pub leader_id: CommittedLeaderId,
    pub index: u64,
}

impl LogId {
    pub fn new(leader_id: CommittedLeaderId, index: u64) -> (l: LogId)
        ensures
            l.leader_id == leader_id,
            l.index == index,
    {
        LogId { leader_id, index }
    }
}

/// Strict order on log ids: lexicographic on the leader id, then the index.
pub open spec fn log_id_lt(a: LogId, b: LogId) -> bool {
    leader_id_lt(a.leader_id, b.leader_id) || (a.leader_id == b.leader_id && a.index < b.index)
}

/// Strict order on optional log ids, where no log id is below every log id.
pub open spec fn opt_log_id_lt(a: Option<LogId>, b: Option<LogId>) -> bool {
    match (a, b) {
        (_, None) => false,
        (None, Some(_)) => true,
        (Some(x), Some(y)) => log_id_lt(x, y),
    }
}

/// Executable form of [`opt_log_id_lt`].
pub fn opt_log_id_less(a: &Option<LogId>, b: &Option<LogId>) -> (r: bool)
    ensures
        r == opt_log_id_lt(*a, *b),
{
    match (a, b) {
        (_, None) => false,
        (None, Some(_)) => true,
        (Some(x), Some(y)) => {
            if x.leader_id.term != y.leader_id.term {
                x.leader_id.term < y.leader_id.term
            } else if x.leader_id.node_id != y.leader_id.node_id {
                x.leader_id.node_id < y.leader_id.node_id
            } else {
                x.index < y.index
            }
        },
    }
}

/// A vote: the leader id voted for, and whether a quorum has granted it.
#[derive(Debug, Clone, Copy, PartialEq, Eq, Structural)]
pub struct Vote {
    pub leader_id: LeaderId,
    pub committed: bool,
}

impl Vote {
    /// A vote for `node_id` at `term` that is not yet granted by a quorum.
    pub fn new(term: u64, node_id: NodeId) -> (v: Vote)
        ensures
            v.leader_id.term == term,
            v.leader_id.node_id == node_id,
            !v.committed,
    {
        Vote { leader_id: LeaderId { term, node_id }, committed: false }
    }

    /// A vote for `node_id` at `term` that a quorum has granted.
    pub fn new_committed(term: u64, node_id: NodeId) -> (v: Vote)
        ensures
            v.leader_id.term == term,
            v.leader_id.node_id == node_id,
            v.committed,
    {
        Vote { leader_id: LeaderId { term, node_id }, committed: true }
    }

    pub fn leader_id(&self) -> (l: &LeaderId)
        ensures
            *l == self.leader_id,
    {
        &self.leader_id
    }

    pub fn is_committed(&self) -> (b: bool)
        ensures
            b == self.committed,
    {
        self.committed
    }
}

} // verus!
