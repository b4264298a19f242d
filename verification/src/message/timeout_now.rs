//! Leadership-transfer directive.
//!
//! A timeout-now request is sent by a leader during leadership transfer to tell a specific
//! follower to start an election at once, skipping the election timer and the pre-vote phase.
use vstd::prelude::*;

use crate::log_id::{LogId, Vote};

verus! {

/// Timeout-now request sent by a leader transferring leadership, directing a specific follower
/// to start an election immediately.
#[derive(Debug, Clone, PartialEq, Eq, Structural)]
pub struct TimeoutNowRequest {
    /// The leader's current vote, so the follower can verify the instruction comes from a
    /// current leader.
    pub vote: Vote,
    /// The leader's last log id at transfer time; the follower may check it has caught up.
    pub last_log_id: Option<LogId>,
}

impl TimeoutNowRequest {
    pub fn new(vote: Vote, last_log_id: Option<LogId>) -> (r: Self)
        ensures
            r.vote == vote,
            r.last_log_id == last_log_id,
    {
        TimeoutNowRequest { vote, last_log_id }
    }
}

/// Response to a timeout-now request: mostly an acknowledgement; the leadership change itself is
/// observed through metrics.
#[derive(Debug, Clone, PartialEq, Eq, Structural)]
pub struct TimeoutNowResponse {
    /// The follower's current vote after handling the directive.
    pub vote: Vote,
    /// Whether the follower accepted the directive and started an election.
    pub started_election: bool,
}

impl TimeoutNowResponse {
    pub fn new(vote: Vote, started_election: bool) -> (r: Self)
        ensures
            r.vote == vote,
            r.started_election == started_election,
    {
        TimeoutNowResponse { vote, started_election }
    }
}

} // verus!
