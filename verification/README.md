# ferrosa_raft

The election-safety decisions of a Raft node, verified with Verus:

- `pre_vote_decision`: the election restriction and the pre-vote grant decision;
- `pre_candidate`, `quorum`: the pre-vote round and its quorum sets (a majority, or a joint of
  configurations);
- `leader_lease`: explicit invalidation of a stepped-down leader's lease;
- `check_quorum`: the step-down decision of a leader that lost its quorum;
- `raft_state`: advancing the committed log id without moving the committed index back;
- `transfer`: leadership transfer as a state machine of events and actions;
- `message`, `log_id`, `server_state`, `rpc_type`: the data these decisions work on.

`app/` holds what runs around them: the floating-point check-quorum window, configuration
errors, serializable copies of the messages and their display forms, and the async trigger that
drives a leadership transfer against a running node.
