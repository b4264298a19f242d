//! Election-safety core of a Raft node: pre-vote, leader lease, check-quorum
//! and leadership-transfer decisions, as pure state transitions.

pub mod check_quorum;
pub mod leader_lease;
pub mod log_id;
pub mod message;
pub mod pre_candidate;
pub mod pre_vote_decision;
pub mod quorum;
pub mod raft_state;
pub mod rpc_type;
pub mod server_state;
pub mod transfer;

pub use check_quorum::CheckQuorumDecision;
pub use leader_lease::{LeaderLease, LeaseStatus};
pub use log_id::{CommittedLeaderId, LeaderId, LogId, NodeId, Vote};
pub use message::pre_vote::{PreVoteRequest, PreVoteResponse};
pub use message::timeout_now::{TimeoutNowRequest, TimeoutNowResponse};
pub use pre_candidate::{PreCandidate, PreVoteResult};
pub use quorum::{Joint, QuorumSet};
pub use pre_vote_decision::{evaluate_pre_vote, is_log_up_to_date, PreVoteDecision};
pub use raft_state::RaftState;
pub use rpc_type::RPCTypes;
pub use server_state::ServerState;
