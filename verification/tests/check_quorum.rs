use std::time::Duration;

use ferrosa_raft::CheckQuorumDecision;

fn ms(x: u64) -> u128 {
    Duration::from_millis(x).as_nanos()
}

#[test]
fn disabled_decision_never_steps_down() {
    assert!(!CheckQuorumDecision::Disabled.must_step_down());
}

#[test]
fn healthy_when_ack_within_window() {
    // election_timeout_max=1000ms, ratio=0.75 → window 750ms; ack 500ms ago.
    let d = CheckQuorumDecision::evaluate(ms(750), Some(ms(500)), ms(10_000));
    assert_eq!(d, CheckQuorumDecision::Healthy);
    assert!(!d.must_step_down());
}

#[test]
fn step_down_when_ack_older_than_window() {
    let d = CheckQuorumDecision::evaluate(ms(750), Some(ms(1000)), ms(10_000));
    assert_eq!(d, CheckQuorumDecision::StepDown { elapsed: ms(1000), deadline: ms(750) });
    assert!(d.must_step_down());
}

#[test]
fn step_down_just_past_a_4500ms_window() {
    // 0.75 of a 6000ms election timeout is 4500ms.
    let d = CheckQuorumDecision::evaluate(ms(4500), Some(ms(4501)), ms(10_000));
    match d {
        CheckQuorumDecision::StepDown { elapsed, deadline } => {
            assert_eq!(deadline, ms(4500));
            assert_eq!(elapsed, ms(4501));
        }
        other => panic!("expected StepDown, got {:?}", other),
    }
}

#[test]
fn never_acked_grace_period_then_step_down_on_window() {
    let d = CheckQuorumDecision::evaluate(ms(750), None, ms(300));
    assert!(matches!(d, CheckQuorumDecision::NeverAcked { .. }));
    assert!(!d.must_step_down());

    let d = CheckQuorumDecision::evaluate(ms(750), None, ms(800));
    assert!(matches!(d, CheckQuorumDecision::NeverAcked { .. }));
    assert!(d.must_step_down(), "must step down once grace expires");
}

#[test]
fn window_boundary_is_still_healthy() {
    let w = ms(1000);
    assert_eq!(CheckQuorumDecision::evaluate(w, Some(ms(999)), ms(10_000)), CheckQuorumDecision::Healthy);
    assert_eq!(CheckQuorumDecision::evaluate(w, Some(ms(1000)), ms(10_000)), CheckQuorumDecision::Healthy);
    assert!(matches!(
        CheckQuorumDecision::evaluate(w, Some(ms(1001)), ms(10_000)),
        CheckQuorumDecision::StepDown { .. }
    ));
    let d = CheckQuorumDecision::evaluate(w, None, ms(1000));
    assert!(!d.must_step_down());
}
