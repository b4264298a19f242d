use vstd::prelude::*;

verus! {

/// All possible states of a Raft node.
#[derive(Debug, Clone, Copy, PartialEq, Eq, Structural)]
pub enum ServerState {
    /// The node is completely passive; replicating entries, but neither voting nor timing out.
    Learner,
    /// The node is replicating logs from the leader.
    Follower,
    /// The node timed out the leader and is probing peers with a pre-vote request, without
    /// incrementing its term.
    ///
    /// It only advances to `Candidate` (and bumps its term) after a quorum of peers pre-grant the
    /// prospective vote. On rejection it reverts to `Follower` without ever advancing its term.
    PreCandidate,
    /// The node is campaigning to become the cluster leader.
    Candidate,
    /// The node is the Raft cluster leader.
    Leader,
    /// The Raft node is shutting down.
    Shutdown,
}

impl Default for ServerState {
    /// A fresh node starts as a learner.
    fn default() -> (s: Self)
        ensures
            s == ServerState::Learner,
    {
        ServerState::Learner
    }
}

impl ServerState {
    /// Check if currently in learner state.
    pub fn is_learner(&self) -> (b: bool)
        ensures
            b <==> *self == ServerState::Learner,
    {
        matches!(self, ServerState::Learner)
    }

    /// Check if currently in follower state.
    pub fn is_follower(&self) -> (b: bool)
        ensures
            b <==> *self == ServerState::Follower,
    {
        matches!(self, ServerState::Follower)
    }

    /// Check if currently in pre-candidate state (probing peers with pre-vote).
    pub fn is_pre_candidate(&self) -> (b: bool)
        ensures
            b <==> *self == ServerState::PreCandidate,
    {
        matches!(self, ServerState::PreCandidate)
    }

    /// Check if currently in candidate state.
    pub fn is_candidate(&self) -> (b: bool)
        ensures
            b <==> *self == ServerState::Candidate,
    {
        matches!(self, ServerState::Candidate)
    }

    /// Check if currently in leader state.
    pub fn is_leader(&self) -> (b: bool)
        ensures
            b <==> *self == ServerState::Leader,
    {
        matches!(self, ServerState::Leader)
    }
}

} // verus!
