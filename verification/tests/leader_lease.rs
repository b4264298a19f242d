use ferrosa_raft::LeaderLease;

#[test]
fn a_fresh_lease_is_never_invalidated() {
    let lease = LeaderLease::default();
    assert!(!lease.is_invalidated_for(0));
    assert!(!lease.is_invalidated_for(1_000));
}

#[test]
fn invalidation_suppresses_votes_at_or_before_it() {
    let mut lease = LeaderLease::default();
    lease.invalidate(100);
    assert!(lease.is_invalidated_for(50));
    assert!(lease.is_invalidated_for(100));
    assert!(!lease.is_invalidated_for(101), "a newer vote re-arms the lease");
}

#[test]
fn an_earlier_clock_reading_does_not_move_invalidation_back() {
    let mut lease = LeaderLease::default();
    lease.invalidate(100);
    lease.invalidate(40);
    assert!(lease.is_invalidated_for(100));
    assert_eq!(lease, {
        let mut l = LeaderLease::default();
        l.invalidate(100);
        l
    });
}

#[test]
fn a_later_invalidation_extends_suppression() {
    let mut lease = LeaderLease::default();
    lease.invalidate(100);
    assert!(!lease.is_invalidated_for(150));
    lease.invalidate(200);
    assert!(lease.is_invalidated_for(150));
    assert!(!lease.is_invalidated_for(201));
}
