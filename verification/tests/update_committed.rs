use ferrosa_raft::{CommittedLeaderId, LogId, RaftState};

fn log_id(term: u64, index: u64) -> LogId {
    LogId { leader_id: CommittedLeaderId::new(term, 0), index }
}

fn state_committed_at(term: u64, index: u64) -> RaftState {
    RaftState { committed: Some(log_id(term, index)) }
}

/// The ordinary case: a later term at a higher index advances committed.
#[test]
fn a_higher_term_at_a_higher_index_advances_committed() {
    let mut rs = state_committed_at(3, 17453);

    let prev = rs.update_committed(&Some(log_id(4, 17600)));

    assert_eq!(prev, Some(Some(log_id(3, 17453))), "the previous value is returned");
    assert_eq!(rs.committed, Some(log_id(4, 17600)));
}

/// The same term at a higher index advances committed.
#[test]
fn the_same_term_at_a_higher_index_advances_committed() {
    let mut rs = state_committed_at(3, 17453);

    let prev = rs.update_committed(&Some(log_id(3, 17454)));

    assert_eq!(prev, Some(Some(log_id(3, 17453))));
    assert_eq!(rs.committed, Some(log_id(3, 17454)));
}

/// A higher term at a lower index compares greater in log-id order, but must not move the
/// committed index backwards.
#[test]
fn a_higher_term_at_a_lower_index_must_not_move_committed_backwards() {
    let mut rs = state_committed_at(3, 17514);

    let prev = rs.update_committed(&Some(log_id(4, 17453)));

    assert_eq!(prev, None, "a committed index regression must not be accepted, however high its term");
    assert_eq!(
        rs.committed,
        Some(log_id(3, 17514)),
        "committed must be left untouched by a rejected regression"
    );
}

/// The same index under a higher term is not a regression, so it is accepted.
#[test]
fn a_higher_term_at_the_same_index_is_accepted() {
    let mut rs = state_committed_at(3, 17453);

    let prev = rs.update_committed(&Some(log_id(4, 17453)));

    assert_eq!(prev, Some(Some(log_id(3, 17453))));
    assert_eq!(rs.committed, Some(log_id(4, 17453)));
}

/// A lower term is rejected, whatever its index.
#[test]
fn a_lower_term_is_still_rejected() {
    let mut rs = state_committed_at(3, 17453);

    assert_eq!(rs.update_committed(&Some(log_id(2, 17600))), None);
    assert_eq!(rs.committed, Some(log_id(3, 17453)));

    assert_eq!(rs.update_committed(&Some(log_id(2, 17400))), None);
    assert_eq!(rs.committed, Some(log_id(3, 17453)));
}

/// The first commit, from no committed state, is accepted at any index.
#[test]
fn the_first_commit_is_accepted() {
    let mut rs = RaftState::default();

    let prev = rs.update_committed(&Some(log_id(1, 5)));

    assert_eq!(prev, Some(None));
    assert_eq!(rs.committed, Some(log_id(1, 5)));
}

/// Whatever `update_committed` accepts, the apply window `[prev.index + 1, new.index + 1)` is
/// never inverted.
#[test]
fn no_accepted_commit_can_produce_an_inverted_apply_window() {
    for cur_term in 1u64..6 {
        for cur_index in 0u64..40 {
            for new_term in 1u64..6 {
                for new_index in 0u64..40 {
                    let mut rs = state_committed_at(cur_term, cur_index);

                    if rs.update_committed(&Some(log_id(new_term, new_index))).is_some() {
                        let since = cur_index + 1;
                        let end = new_index + 1;
                        assert!(
                            since <= end,
                            "accepted committed {new_term}/{new_index} over \
                             {cur_term}/{cur_index} yields the inverted apply \
                             window [{since}, {end})"
                        );
                    }
                }
            }
        }
    }
}

#[test]
fn the_same_log_id_is_not_recommitted() {
    let mut rs = state_committed_at(3, 10);
    assert_eq!(rs.update_committed(&Some(log_id(3, 10))), None);
    assert_eq!(rs.committed, Some(log_id(3, 10)));
}

#[test]
fn committing_nothing_is_rejected() {
    let mut rs = RaftState::default();
    assert_eq!(rs.update_committed(&None), None);
    let mut rs = state_committed_at(3, 10);
    assert_eq!(rs.update_committed(&None), None);
    assert_eq!(rs.committed, Some(log_id(3, 10)));
}

#[test]
fn a_higher_leader_node_at_the_same_term_advances_committed() {
    let mut rs = state_committed_at(3, 10);
    let newer = LogId { leader_id: CommittedLeaderId::new(3, 1), index: 10 };
    assert_eq!(rs.update_committed(&Some(newer)), Some(Some(log_id(3, 10))));
    assert_eq!(rs.committed, Some(newer));
}
