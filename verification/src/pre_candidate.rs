//! The pre-candidate: the pre-vote probing state of an election.
use vstd::prelude::*;

use std::collections::BTreeSet;

use vstd::std_specs::btree::spec_btree_keys_iter;
use vstd::std_specs::iter::IteratorSpec;
use vstd::std_specs::btree::{axiom_increasing_seq_meaning, increasing_seq};
use vstd::std_specs::cmp::OrdSpec;
use vstd::laws_cmp::obeys_cmp;

use crate::log_id::{NodeId, Vote};
use crate::quorum::QuorumSet;

verus! {

broadcast use vstd::laws_cmp::group_laws_cmp;

/// Outcome of recording a single pre-vote response while in the pre-candidate state.
///
/// - `Continue`: not enough responses yet to decide; keep probing.
/// - `Promote`: a quorum pre-granted. The caller now becomes a real candidate and starts a real
///   election, the only point at which the term is incremented.
/// - `RevertToFollower`: the pre-vote round can no longer succeed (a peer reported a strictly
///   higher term, or the rejections form a quorum). The caller goes back to follower **without**
///   advancing the term, so a stale node never bumps its term off a failed pre-vote.
#[derive(Debug, Clone, Copy, PartialEq, Eq, Structural)]
pub enum PreVoteResult {
    /// Keep probing; no decision yet.
    Continue,
    /// A quorum pre-granted; promote to a real candidate (the term is incremented there).
    Promote,
    /// Pre-vote cannot succeed; revert to follower with no term advance.
    RevertToFollower,
}

/// Pre-candidate: the pre-vote probing state.
///
/// A node holds a *prospective* vote — a vote for itself at `current_term + 1` — in memory only;
/// it is never persisted. The node asks peers whether they *would* grant this vote, without
/// changing persistent state on either side. Only after a quorum of distinct voters pre-grant
/// does the node promote to a real candidate and persist the incremented term.
///
/// Quorums are decided by `quorum_set`, the voters of the current membership: a majority of one
/// voter list, or of every configuration of a joint membership.
#[derive(Debug, Clone)]
pub struct PreCandidate<QS: QuorumSet> {
    /// Prospective vote for the pre-vote round. Held in memory only.
    prospective_vote: Vote,
    /// Distinct voters that have pre-granted so far.
    pre_grants: BTreeSet<NodeId>,
    /// Distinct voters that have pre-rejected so far.
    pre_rejects: BTreeSet<NodeId>,
    /// The quorum set used to evaluate whether grants or rejections form a quorum.
    quorum_set: QS,
}

/// The abstract state of a [`PreCandidate`].
pub struct PreCandidateView<QS> {
    pub prospective_vote: Vote,
    pub pre_grants: Set<NodeId>,
    pub pre_rejects: Set<NodeId>,
    pub quorum_set: QS,
}

impl<QS: QuorumSet> View for PreCandidate<QS> {
    type V = PreCandidateView<QS>;

    closed spec fn view(&self) -> PreCandidateView<QS> {
        PreCandidateView {
            prospective_vote: self.prospective_vote,
            pre_grants: self.pre_grants@,
            pre_rejects: self.pre_rejects@,
            quorum_set: self.quorum_set,
        }
    }
}

/// The state and outcome after `voter` pre-grants.
pub open spec fn spec_record_pre_grant<QS: QuorumSet>(s: PreCandidateView<QS>, voter: NodeId) -> (PreCandidateView<QS>, PreVoteResult) {
    let grants = s.pre_grants.insert(voter);
    (
        PreCandidateView { pre_grants: grants, ..s },
        if s.quorum_set.spec_is_quorum(grants) {
            PreVoteResult::Promote
        } else {
            PreVoteResult::Continue
        },
    )
}

/// The state and outcome after `voter`, at `voter_term`, pre-rejects.
pub open spec fn spec_record_pre_reject<QS: QuorumSet>(s: PreCandidateView<QS>, voter: NodeId, voter_term: u64) -> (PreCandidateView<QS>, PreVoteResult) {
    let rejects = s.pre_rejects.insert(voter);
    (
        PreCandidateView { pre_rejects: rejects, ..s },
        if voter_term > s.prospective_vote.leader_id.term {
            PreVoteResult::RevertToFollower
        } else if s.quorum_set.spec_is_quorum(rejects) {
            PreVoteResult::RevertToFollower
        } else {
            PreVoteResult::Continue
        },
    )
}

impl<QS: QuorumSet> PreCandidate<QS> {
    /// Create a new pre-candidate.
    ///
    /// `prospective_vote` must be a non-committed vote for `current_term + 1`. The node's own
    /// pre-grant is recorded, so a single-voter quorum (one-node cluster) promotes at once.
    pub fn new(prospective_vote: Vote, quorum_set: QS) -> (pc: Self)
        requires
            !prospective_vote.committed,
        ensures
            pc@.prospective_vote == prospective_vote,
            pc@.pre_grants == Set::<NodeId>::empty().insert(prospective_vote.leader_id.node_id),
            pc@.pre_rejects == Set::<NodeId>::empty(),
            pc@.quorum_set == quorum_set,
    {
        let mut pre_grants = BTreeSet::new();
        if let Some(me) = prospective_vote.leader_id().voted_for() {
            pre_grants.insert(me);
        }
        PreCandidate { prospective_vote, pre_grants, pre_rejects: BTreeSet::new(), quorum_set }
    }

    /// The prospective (in-memory) vote being probed.
    pub fn prospective_vote_ref(&self) -> (v: &Vote)
        ensures
            *v == self@.prospective_vote,
    {
        &self.prospective_vote
    }

    /// The term the prospective vote would campaign for once promoted.
    pub fn prospective_term(&self) -> (t: u64)
        ensures
            t == self@.prospective_vote.leader_id.term,
    {
        self.prospective_vote.leader_id().get_term()
    }

    /// Record a pre-grant from `voter`.
    ///
    /// Returns `Promote` once a quorum of distinct voters (including this node) have pre-granted,
    /// otherwise `Continue`.
    pub fn record_pre_grant(&mut self, voter: NodeId) -> (r: PreVoteResult)
        ensures
            (final(self)@, r) == spec_record_pre_grant(old(self)@, voter),
    {
        self.pre_grants.insert(voter);
        if self.quorum_set.is_quorum(&self.pre_grants) {
            PreVoteResult::Promote
        } else {
            PreVoteResult::Continue
        }
    }

    /// Record a pre-rejection from `voter`, who is at `voter_term`.
    ///
    /// - If `voter_term` is strictly greater than the prospective term, this node is stale; revert
    ///   to follower **without** advancing the term.
    /// - Otherwise, if the rejections form a quorum (so a grant quorum is no longer reachable),
    ///   revert to follower.
    /// - Otherwise, keep probing.
    pub fn record_pre_reject(&mut self, voter: NodeId, voter_term: u64) -> (r: PreVoteResult)
        ensures
            (final(self)@, r) == spec_record_pre_reject(old(self)@, voter, voter_term),
    {
        self.pre_rejects.insert(voter);
        if voter_term > self.prospective_term() {
            return PreVoteResult::RevertToFollower;
        }
        if self.quorum_set.is_quorum(&self.pre_rejects) {
            return PreVoteResult::RevertToFollower;
        }
        PreVoteResult::Continue
    }

    /// Voters that have pre-granted so far, in increasing order.
    pub fn pre_granters(&self) -> (v: Vec<NodeId>)
        ensures
            v@.to_set() == self@.pre_grants,
            v@.no_duplicates(),
            forall|i: int, j: int| 0 <= i < j < v@.len() ==> v@[i] < v@[j],
    {
        members_ascending(&self.pre_grants)
    }

    /// Voters that have pre-rejected so far, in increasing order.
    pub fn pre_rejecters(&self) -> (v: Vec<NodeId>)
        ensures
            v@.to_set() == self@.pre_rejects,
            v@.no_duplicates(),
            forall|i: int, j: int| 0 <= i < j < v@.len() ==> v@[i] < v@[j],
    {
        members_ascending(&self.pre_rejects)
    }
}

/// The members of `set`, in increasing order.
fn members_ascending(set: &BTreeSet<NodeId>) -> (v: Vec<NodeId>)
    ensures
        v@.to_set() == set@,
        v@.no_duplicates(),
        forall|i: int, j: int| 0 <= i < j < v@.len() ==> v@[i] < v@[j],
{
    let ghost keys = spec_btree_keys_iter(set).remaining();
    let mut v: Vec<NodeId> = Vec::new();
    for x in it: set.iter()
        invariant
            it.seq() == keys,
            v@.len() == it.index(),
            forall|j: int| 0 <= j < it.index() ==> v@[j] == *it.seq()[j],
    {
        v.push(*x);
    }
    assert(v@.len() == keys.len());
    assert(v@ =~= keys.unref());
    proof {
        vstd::std_specs::btree::axiom_spec_btree_keys_iter(set);
        lemma_increasing_keys_ascend(keys);
    }
    v
}

/// A pre-grant, in terms of its inputs: the voter joins the grants, nothing else changes, and the
/// outcome is `Promote` exactly when the grants then form a quorum, `Continue` otherwise.
pub proof fn lemma_pre_grant_decision<QS: QuorumSet>(s: PreCandidateView<QS>, voter: NodeId)
    ensures
        ({
            let (s2, r) = spec_record_pre_grant(s, voter);
            &&& s2.pre_grants == s.pre_grants.insert(voter)
            &&& s2.pre_rejects == s.pre_rejects
            &&& s2.prospective_vote == s.prospective_vote
            &&& s2.quorum_set == s.quorum_set
            &&& s.quorum_set.spec_is_quorum(s.pre_grants.insert(voter)) ==> r == PreVoteResult::Promote
            &&& !s.quorum_set.spec_is_quorum(s.pre_grants.insert(voter)) ==> r == PreVoteResult::Continue
        }),
{
}

/// A pre-rejection, in terms of its inputs: the voter joins the rejections and nothing else
/// changes; a voter at a term above the prospective term sends the node back to follower; at or
/// below it, the node goes back to follower exactly when the rejections then form a quorum, and
/// keeps probing otherwise.
pub proof fn lemma_pre_reject_decision<QS: QuorumSet>(s: PreCandidateView<QS>, voter: NodeId, voter_term: u64)
    ensures
        ({
            let (s2, r) = spec_record_pre_reject(s, voter, voter_term);
            let term = s.prospective_vote.leader_id.term;
            &&& s2.pre_rejects == s.pre_rejects.insert(voter)
            &&& s2.pre_grants == s.pre_grants
            &&& s2.prospective_vote == s.prospective_vote
            &&& s2.quorum_set == s.quorum_set
            &&& voter_term > term ==> r == PreVoteResult::RevertToFollower
            &&& voter_term <= term && s.quorum_set.spec_is_quorum(s.pre_rejects.insert(voter)) ==> r
                == PreVoteResult::RevertToFollower
            &&& voter_term <= term && !s.quorum_set.spec_is_quorum(s.pre_rejects.insert(voter)) ==> r
                == PreVoteResult::Continue
        }),
{
}

/// Recording a pre-vote response never changes the prospective vote: a pre-vote round never
/// advances the term, whatever the responses.
pub proof fn lemma_pre_vote_keeps_term<QS: QuorumSet>(s: PreCandidateView<QS>, voter: NodeId, voter_term: u64)
    ensures
        spec_record_pre_grant(s, voter).0.prospective_vote == s.prospective_vote,
        spec_record_pre_reject(s, voter, voter_term).0.prospective_vote == s.prospective_vote,
{
}

/// A rejection from a voter at a term above the prospective term always sends the node back to
/// follower.
pub proof fn lemma_higher_term_reject_reverts<QS: QuorumSet>(s: PreCandidateView<QS>, voter: NodeId, voter_term: u64)
    requires
        voter_term > s.prospective_vote.leader_id.term,
    ensures
        spec_record_pre_reject(s, voter, voter_term).1 == PreVoteResult::RevertToFollower,
{
}

/// Recording the same voter's pre-grant twice counts it once: the second call changes nothing and
/// gives the same outcome.
pub proof fn lemma_pre_grant_idempotent<QS: QuorumSet>(s: PreCandidateView<QS>, voter: NodeId)
    ensures
        spec_record_pre_grant(spec_record_pre_grant(s, voter).0, voter) == spec_record_pre_grant(s, voter),
{
    assert(s.pre_grants.insert(voter).insert(voter) =~= s.pre_grants.insert(voter));
}

/// Once the pre-candidate counts its own grant, every later response keeps counting it.
pub proof fn lemma_self_stays_counted<QS: QuorumSet>(s: PreCandidateView<QS>, voter: NodeId, voter_term: u64)
    requires
        s.pre_grants.contains(s.prospective_vote.leader_id.node_id),
    ensures
        spec_record_pre_grant(s, voter).0.pre_grants.contains(s.prospective_vote.leader_id.node_id),
        spec_record_pre_reject(s, voter, voter_term).0.pre_grants.contains(s.prospective_vote.leader_id.node_id),
{
}

/// Once the grants form a quorum, any further grant still promotes.
pub proof fn lemma_promotion_stable<QS: QuorumSet>(s: PreCandidateView<QS>, voter: NodeId, next: NodeId)
    requires
        spec_record_pre_grant(s, voter).1 == PreVoteResult::Promote,
    ensures
        spec_record_pre_grant(spec_record_pre_grant(s, voter).0, next).1 == PreVoteResult::Promote,
{
    let g = s.pre_grants.insert(voter);
    s.quorum_set.lemma_quorum_monotone(g, g.insert(next));
}

/// When the rejections form a quorum, no set of grants from voters that did not reject can form
/// one: a rejecting quorum makes a grant quorum unreachable.
pub proof fn lemma_rejecting_quorum_blocks_grants<QS: QuorumSet>(s: PreCandidateView<QS>)
    requires
        !s.quorum_set.spec_is_quorum(Set::empty()),
        s.quorum_set.spec_is_quorum(s.pre_rejects),
        s.pre_grants.disjoint(s.pre_rejects),
    ensures
        !s.quorum_set.spec_is_quorum(s.pre_grants),
{
    if s.quorum_set.spec_is_quorum(s.pre_grants) {
        s.quorum_set.lemma_quorums_intersect(s.pre_grants, s.pre_rejects);
    }
}

/// Keys that a set iterator yields in increasing order ascend as integers.
proof fn lemma_increasing_keys_ascend(keys: Seq<&NodeId>)
    requires
        increasing_seq(keys),
    ensures
        forall|i: int, j: int| 0 <= i < j < keys.len() ==> *keys[i] < *keys[j],
{
    assert(obeys_cmp::<&NodeId>());
    axiom_increasing_seq_meaning(keys);
    assert forall|i: int, j: int| 0 <= i < j < keys.len() implies *keys[i] < *keys[j] by {
        assert(OrdSpec::cmp_spec(&keys[i], &keys[j]) is Less);
    }
}

} // verus!
