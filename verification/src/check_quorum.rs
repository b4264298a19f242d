//! Check-quorum decision: a leader that has not heard an append-entries ack from a quorum of
//! voters within its deadline window steps down.
//!
//! Durations are in nanoseconds. The deadline window itself is `election_timeout_max ×
//! check_quorum_ratio`, a floating-point product computed by the caller; this module decides on
//! the window it is given.
use vstd::prelude::*;

verus! {

/// Decision produced by a check-quorum evaluation.
#[derive(Debug, Clone, Copy, PartialEq, Eq, Structural)]
pub enum CheckQuorumDecision {
    /// Check-quorum is disabled (ratio `<= 0`). No action.
    Disabled,
    /// Leader is healthy: a quorum acked within the window. No action.
    Healthy,
    /// Leader has not seen a quorum ack within the deadline. Step down.
    StepDown {
        /// How long the leader has been without a quorum ack.
        elapsed: u128,
        /// The deadline window that was exceeded.
        deadline: u128,
    },
    /// Leader has never seen a quorum ack since becoming leader. Treated as healthy while the
    /// time since election is within the deadline, and as a step-down after that.
    NeverAcked {
        /// How long the node has been leader without any ack.
        elapsed_since_election: u128,
        deadline: u128,
    },
}

impl CheckQuorumDecision {
    /// Whether the decision requires the leader to step down.
    pub open spec fn requires_step_down(self) -> bool {
        match self {
            CheckQuorumDecision::StepDown { .. } => true,
            CheckQuorumDecision::NeverAcked { elapsed_since_election, deadline } =>
                elapsed_since_election > deadline,
            _ => false,
        }
    }

    /// Whether the leader must step down.
    pub fn must_step_down(&self) -> (b: bool)
        ensures
            b == self.requires_step_down(),
    {
        match self {
            CheckQuorumDecision::NeverAcked { elapsed_since_election, deadline } =>
                *elapsed_since_election > *deadline,
            CheckQuorumDecision::StepDown { .. } => true,
            _ => false,
        }
    }

    /// The decision of an enabled check-quorum with the given deadline window.
    pub open spec fn spec_evaluate(
        deadline: u128,
        elapsed_since_quorum_ack: Option<u128>,
        elapsed_since_election: u128,
    ) -> CheckQuorumDecision {
        match elapsed_since_quorum_ack {
            None => CheckQuorumDecision::NeverAcked { elapsed_since_election, deadline },
            Some(elapsed) => if elapsed > deadline {
                CheckQuorumDecision::StepDown { elapsed, deadline }
            } else {
                CheckQuorumDecision::Healthy
            },
        }
    }

    /// Evaluate the step-down condition of an enabled check-quorum whose window is `deadline`.
    ///
    /// - `elapsed_since_quorum_ack`: time since the leader last saw an ack from a majority of
    ///   voters; `None` if it has seen none since taking office.
    /// - `elapsed_since_election`: time since this node became leader, the grace period of a
    ///   leader that was never acked.
    pub fn evaluate(
        deadline: u128,
        elapsed_since_quorum_ack: Option<u128>,
        elapsed_since_election: u128,
    ) -> (d: CheckQuorumDecision)
        ensures
            d == Self::spec_evaluate(deadline, elapsed_since_quorum_ack, elapsed_since_election),
            d.requires_step_down() <==> match elapsed_since_quorum_ack {
                Some(elapsed) => elapsed > deadline,
                None => elapsed_since_election > deadline,
            },
    {
        match elapsed_since_quorum_ack {
            None => CheckQuorumDecision::NeverAcked { elapsed_since_election, deadline },
            Some(elapsed) => {
                if elapsed > deadline {
                    CheckQuorumDecision::StepDown { elapsed, deadline }
                } else {
                    CheckQuorumDecision::Healthy
                }
            },
        }
    }
}

/// Whether each decision makes the leader step down: a step-down decision always does, a
/// never-acked leader does once the time since election exceeds the window, and a disabled or
/// healthy one never does.
pub proof fn lemma_step_down_cases(elapsed: u128, since_election: u128, deadline: u128)
    ensures
        (CheckQuorumDecision::StepDown { elapsed, deadline }).requires_step_down(),
        (CheckQuorumDecision::NeverAcked { elapsed_since_election: since_election, deadline }).requires_step_down()
            <==> since_election > deadline,
        !CheckQuorumDecision::Disabled.requires_step_down(),
        !CheckQuorumDecision::Healthy.requires_step_down(),
{
}

/// The decision, in terms of its inputs: an ack older than the window gives a step-down carrying
/// that age and the window; an ack within the window is healthy; no ack at all gives the
/// never-acked decision carrying the time since election and the window.
pub proof fn lemma_evaluate_cases(deadline: u128, ack: Option<u128>, since_election: u128)
    ensures
        ack is Some && ack->0 > deadline ==> CheckQuorumDecision::spec_evaluate(deadline, ack, since_election)
            == (CheckQuorumDecision::StepDown { elapsed: ack->0, deadline }),
        ack is Some && ack->0 <= deadline ==> CheckQuorumDecision::spec_evaluate(deadline, ack, since_election)
            == CheckQuorumDecision::Healthy,
        ack is None ==> CheckQuorumDecision::spec_evaluate(deadline, ack, since_election)
            == (CheckQuorumDecision::NeverAcked { elapsed_since_election: since_election, deadline }),
{
}

/// A disabled check-quorum never makes the leader step down.
pub proof fn lemma_disabled_never_steps_down()
    ensures
        !CheckQuorumDecision::Disabled.requires_step_down(),
        !CheckQuorumDecision::Healthy.requires_step_down(),
{
}

/// Waiting longer never turns a step-down back into a healthy leader: the decision is monotone
/// in the time without a quorum ack.
pub proof fn lemma_step_down_monotone(
    deadline: u128,
    ack: Option<u128>,
    later_ack: Option<u128>,
    since_election: u128,
    later_since_election: u128,
)
    requires
        CheckQuorumDecision::spec_evaluate(deadline, ack, since_election).requires_step_down(),
        since_election <= later_since_election,
        ack is Some <==> later_ack is Some,
        ack is Some ==> ack->0 <= later_ack->0,
    ensures
        CheckQuorumDecision::spec_evaluate(deadline, later_ack, later_since_election).requires_step_down(),
{
}

/// A smaller deadline window steps down no later: whatever makes the leader step down under a
/// window `longer` also does under any window `shorter <= longer`. (A lower check-quorum ratio
/// gives a window no longer, so it steps down no later.)
pub proof fn lemma_shorter_window_steps_down_no_later(
    shorter: u128,
    longer: u128,
    ack: Option<u128>,
    since_election: u128,
)
    requires
        shorter <= longer,
        CheckQuorumDecision::spec_evaluate(longer, ack, since_election).requires_step_down(),
    ensures
        CheckQuorumDecision::spec_evaluate(shorter, ack, since_election).requires_step_down(),
{
}

} // verus!
