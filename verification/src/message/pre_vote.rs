//! Pre-vote message types.
//!
//! A pre-vote request is a probe sent by a node that suspects the leader is dead and is
//! *considering* starting an election. It asks "would you grant me a vote if I held a real
//! election?" without mutating any persistent vote on either side.
use vstd::prelude::*;

use crate::log_id::{LogId, Vote};

verus! {

/// Pre-vote probe sent by a pre-candidate before incrementing its term and starting a real
/// election.
///
/// Carries the candidate's *prospective* vote (what it would campaign with if the pre-grants
/// succeed) and its last log id, for the election-restriction check. Receivers must not mutate
/// their persistent vote when handling it.
#[derive(Debug, Clone, PartialEq, Eq, Structural)]
pub struct PreVoteRequest {
    /// The vote the candidate would use if its pre-vote round succeeds.
    pub vote: Vote,
    /// The candidate's last log id, used for the election-restriction check.
    pub last_log_id: Option<LogId>,
}

impl PreVoteRequest {
    pub fn new(vote: Vote, last_log_id: Option<LogId>) -> (r: Self)
        ensures
            r.vote == vote,
            r.last_log_id == last_log_id,
    {
        PreVoteRequest { vote, last_log_id }
    }
}

/// Response to a pre-vote request.
///
/// `vote_granted == true` means the receiver would grant a real vote if asked right now; `false`
/// means the candidate's last log id is stale, or the receiver heard from the current leader
/// within the last election timeout.
#[derive(Debug, Clone, PartialEq, Eq, Structural)]
pub struct PreVoteResponse {
    /// The receiver's current vote, unchanged by the pre-vote; a candidate uses it to detect
    /// that it is stale.
    pub vote: Vote,
    /// Whether the receiver would grant a real vote.
    pub vote_granted: bool,
    /// The receiver's last log id.
    pub last_log_id: Option<LogId>,
}

impl PreVoteResponse {
    pub fn new(vote: Vote, last_log_id: Option<LogId>, granted: bool) -> (r: Self)
        ensures
            r.vote == vote,
            r.vote_granted == granted,
            r.last_log_id == last_log_id,
    {
        PreVoteResponse { vote, vote_granted: granted, last_log_id }
    }
}

} // verus!
