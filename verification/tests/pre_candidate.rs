use std::collections::BTreeSet;

use ferrosa_raft::{Joint, PreCandidate, PreVoteResult, QuorumSet, Vote};

/// Majority quorum over voters {1,2,3}: a quorum is any 2 of 3.
fn quorum_123() -> Vec<u64> {
    vec![1, 2, 3]
}

/// Prospective vote for `node` at term `t` (non-committed).
fn prospective(t: u64, node: u64) -> Vote {
    Vote::new(t, node)
}

#[test]
fn new_pre_candidate_pre_grants_itself() {
    let pc = PreCandidate::new(prospective(8, 1), quorum_123());
    assert_eq!(8, pc.prospective_term());
    assert!(!pc.prospective_vote_ref().is_committed());
    assert_eq!(vec![1u64], pc.pre_granters());
}

#[test]
fn pre_grant_majority_promotes() {
    let mut pc = PreCandidate::new(prospective(8, 1), quorum_123());
    // Self (1) + peer 2 == quorum of {1,2,3}.
    assert_eq!(PreVoteResult::Promote, pc.record_pre_grant(2));
}

#[test]
fn single_node_cluster_promotes_immediately() {
    let mut pc = PreCandidate::new(prospective(3, 1), vec![1u64]);
    assert_eq!(PreVoteResult::Promote, pc.record_pre_grant(1));
}

#[test]
fn higher_term_rejection_reverts_to_follower_without_term_advance() {
    let mut pc = PreCandidate::new(prospective(8, 1), quorum_123());
    let before = pc.prospective_term();
    assert_eq!(PreVoteResult::RevertToFollower, pc.record_pre_reject(2, 42));
    assert_eq!(before, pc.prospective_term());
}

#[test]
fn same_term_minority_rejection_continues() {
    let mut pc = PreCandidate::new(prospective(8, 1), quorum_123());
    assert_eq!(PreVoteResult::Continue, pc.record_pre_reject(2, 8));
}

#[test]
fn rejecting_quorum_reverts_to_follower() {
    let mut pc = PreCandidate::new(prospective(8, 1), quorum_123());
    assert_eq!(PreVoteResult::Continue, pc.record_pre_reject(2, 8));
    assert_eq!(PreVoteResult::RevertToFollower, pc.record_pre_reject(3, 8));
}

#[test]
fn idempotent_grant_from_same_voter_does_not_double_count() {
    let mut pc = PreCandidate::new(prospective(8, 1), vec![1u64, 2, 3, 4, 5]);
    // {1,2} is not a quorum of 5; recording 2 again stays at {1,2}.
    assert_eq!(PreVoteResult::Continue, pc.record_pre_grant(2));
    assert_eq!(PreVoteResult::Continue, pc.record_pre_grant(2));
    // Now distinct voter 3 reaches {1,2,3} == quorum of 5.
    assert_eq!(PreVoteResult::Promote, pc.record_pre_grant(3));
}

#[test]
fn grants_from_non_voters_do_not_count() {
    let mut pc = PreCandidate::new(prospective(8, 1), quorum_123());
    assert_eq!(PreVoteResult::Continue, pc.record_pre_grant(7));
    assert_eq!(PreVoteResult::Continue, pc.record_pre_grant(9));
    assert_eq!(vec![1u64, 7, 9], pc.pre_granters());
    assert_eq!(PreVoteResult::Promote, pc.record_pre_grant(3));
}

#[test]
fn duplicate_voters_count_once_but_weigh_in_the_list_length() {
    // Voter list [1, 1, 2]: distinct members {1, 2}; 2 * |{1}| = 2 is not > 3.
    let mut pc = PreCandidate::new(prospective(8, 1), vec![1u64, 1, 2]);
    assert_eq!(PreVoteResult::Continue, pc.record_pre_grant(1));
    assert_eq!(PreVoteResult::Promote, pc.record_pre_grant(2));
}

#[test]
fn equal_term_rejection_is_not_a_higher_term() {
    // A rejection at exactly the prospective term counts toward the rejecting quorum only.
    let mut pc = PreCandidate::new(prospective(8, 1), vec![1u64, 2, 3, 4, 5]);
    assert_eq!(PreVoteResult::Continue, pc.record_pre_reject(2, 8));
    assert_eq!(PreVoteResult::Continue, pc.record_pre_reject(3, 8));
    assert_eq!(PreVoteResult::RevertToFollower, pc.record_pre_reject(4, 8));
    assert_eq!(vec![2u64, 3, 4], pc.pre_rejecters());
}

#[test]
fn empty_voter_list_never_promotes() {
    let mut pc = PreCandidate::new(prospective(8, 1), vec![]);
    // 2 * 0 > 0 is false.
    assert_eq!(PreVoteResult::Continue, pc.record_pre_grant(1));
}

#[test]
fn joint_quorum_needs_a_majority_of_every_configuration() {
    // Moving from {1,2,3} to {3,4,5}: a quorum needs a majority of both.
    let joint = Joint { configs: vec![vec![1u64, 2, 3], vec![3u64, 4, 5]] };
    let mut pc = PreCandidate::new(prospective(8, 1), joint);
    // {1,2} is a majority of the old configuration only.
    assert_eq!(PreVoteResult::Continue, pc.record_pre_grant(2));
    // {1,2,4} still lacks a majority of {3,4,5}.
    assert_eq!(PreVoteResult::Continue, pc.record_pre_grant(4));
    // {1,2,4,5} is a majority of both.
    assert_eq!(PreVoteResult::Promote, pc.record_pre_grant(5));
}

#[test]
fn joint_rejecting_quorum_reverts() {
    let joint = Joint { configs: vec![vec![1u64, 2, 3], vec![3u64, 4, 5]] };
    let mut pc = PreCandidate::new(prospective(8, 1), joint);
    assert_eq!(PreVoteResult::Continue, pc.record_pre_reject(3, 8));
    assert_eq!(PreVoteResult::Continue, pc.record_pre_reject(4, 8));
    assert_eq!(PreVoteResult::RevertToFollower, pc.record_pre_reject(2, 8));
}

#[test]
fn quorum_sets_decide_on_distinct_members() {
    let ids: BTreeSet<u64> = [1u64, 2].into_iter().collect();
    assert!(vec![1u64, 2, 3].is_quorum(&ids));
    assert!(!vec![1u64, 2, 3, 4].is_quorum(&ids));
    assert!(!Vec::<u64>::new().is_quorum(&BTreeSet::new()));
    assert!(Joint { configs: vec![] }.is_quorum(&BTreeSet::new()));
}
