//! Quorum sets: a majority of one voter list, or a joint of several configurations, where a
//! quorum needs a majority of every configuration (during a membership change).
use vstd::prelude::*;

use std::collections::BTreeSet;

use crate::log_id::NodeId;

verus! {

broadcast use vstd::laws_cmp::group_laws_cmp;

/// `ids` is a quorum of `voters`: more than half of the voter list consists of distinct voters
/// that are in `ids`.
pub open spec fn is_majority(voters: Seq<NodeId>, ids: Set<NodeId>) -> bool {
    2 * voters.to_set().intersect(ids).len() > voters.len()
}

/// Whether `voters[..i]` holds `v`.
fn appears_before(voters: &Vec<NodeId>, i: usize, v: NodeId) -> (b: bool)
    requires
        i <= voters.len(),
    ensures
        b == voters@.take(i as int).contains(v),
{
    let mut j: usize = 0;
    while j < i
        invariant
            j <= i <= voters.len(),
            forall|k: int| 0 <= k < j ==> voters@[k] != v,
        decreases i - j,
    {
        if voters[j] == v {
            assert(voters@.take(i as int)[j as int] == v);
            return true;
        }
        j += 1;
    }
    assert(!voters@.take(i as int).contains(v)) by {
        if voters@.take(i as int).contains(v) {
            let k = choose|k: int| 0 <= k < i && voters@.take(i as int)[k] == v;
            assert(voters@[k] == v);
        }
    }
    false
}

/// Whether `ids` forms a majority quorum of `voters`.
fn is_majority_quorum(voters: &Vec<NodeId>, ids: &BTreeSet<NodeId>) -> (b: bool)
    ensures
        b == is_majority(voters@, ids@),
{
    let mut count: usize = 0;
    let mut i: usize = 0;
    assert(voters@.take(0).to_set().intersect(ids@) =~= Set::<NodeId>::empty());
    while i < voters.len()
        invariant
            i <= voters.len(),
            count == voters@.take(i as int).to_set().intersect(ids@).len(),
            count <= i,
        decreases voters.len() - i,
    {
        let v = voters[i];
        let seen = appears_before(voters, i, v);
        let member = ids.contains(&v);
        proof {
            let t = voters@.take(i as int);
            let t1 = voters@.take(i + 1);
            assert(t1 =~= t.push(v));
            t.lemma_push_to_set_commute(v);
            let s = t.to_set();
            assert(s.finite()) by { vstd::seq_lib::seq_to_set_is_finite(t); }
            vstd::set_lib::lemma_len_intersect(s, ids@);
            if member && !seen {
                assert(s.insert(v).intersect(ids@) =~= s.intersect(ids@).insert(v));
                assert(!s.intersect(ids@).contains(v));
            } else {
                assert(s.insert(v).intersect(ids@) =~= s.intersect(ids@));
            }
            t.lemma_cardinality_of_set();
        }
        if member && !seen {
            count += 1;
        }
        i += 1;
    }
    assert(voters@.take(voters.len() as int) =~= voters@);
    count > voters.len() - count
}

/// Two majority quorums of the same voters share a voter. In particular, once a set of voters
/// that rejected forms a quorum, no disjoint set of granting voters can form one.
pub proof fn lemma_majorities_intersect(voters: Seq<NodeId>, a: Set<NodeId>, b: Set<NodeId>)
    requires
        is_majority(voters, a),
        is_majority(voters, b),
    ensures
        exists|x: NodeId| voters.contains(x) && a.contains(x) && b.contains(x),
{
    let s = voters.to_set();
    vstd::seq_lib::seq_to_set_is_finite(voters);
    voters.lemma_cardinality_of_set();
    let sa = s.intersect(a);
    let sb = s.intersect(b);
    vstd::set_lib::lemma_len_intersect(s, a);
    vstd::set_lib::lemma_len_intersect(s, b);
    if !(exists|x: NodeId| voters.contains(x) && a.contains(x) && b.contains(x)) {
        assert(sa.disjoint(sb));
        vstd::set_lib::lemma_set_disjoint_lens(sa, sb);
        vstd::set_lib::lemma_len_subset(sa + sb, s);
        assert(false);
    }
}

/// Adding voters to a quorum keeps it a quorum.
pub proof fn lemma_majority_monotone(voters: Seq<NodeId>, a: Set<NodeId>, b: Set<NodeId>)
    requires
        is_majority(voters, a),
        a.subset_of(b),
    ensures
        is_majority(voters, b),
{
    let s = voters.to_set();
    vstd::seq_lib::seq_to_set_is_finite(voters);
    vstd::set_lib::lemma_len_intersect(s, b);
    vstd::set_lib::lemma_len_subset(s.intersect(a), s.intersect(b));
}

/// The empty set is a majority of no voter list.
pub proof fn lemma_empty_is_no_majority(voters: Seq<NodeId>)
    ensures
        !is_majority(voters, Set::empty()),
{
    assert(voters.to_set().intersect(Set::<NodeId>::empty()) =~= Set::<NodeId>::empty());
}

/// A voter list decides on the number of distinct voters present: `ids` is a quorum of `voters`
/// exactly when the distinct voters in `ids` are more than half of the list's length. In
/// particular, for an even-sized list of distinct voters, one more than half suffices.
pub proof fn lemma_vec_quorum_is_strict_majority(voters: Vec<NodeId>, ids: Set<NodeId>)
    ensures
        voters.spec_is_quorum(ids) <==> voters@.to_set().intersect(ids).len() * 2 > voters@.len(),
        voters@.no_duplicates() && voters@.len() % 2 == 0 && voters@.to_set().intersect(ids).len()
            == voters@.len() / 2 + 1 ==> voters.spec_is_quorum(ids),
{
}

/// All the voters of a non-empty list of distinct voters form a quorum of it; so does any set that
/// contains them.
pub proof fn lemma_all_voters_form_quorum(voters: Vec<NodeId>, ids: Set<NodeId>)
    requires
        voters@.len() > 0,
        voters@.no_duplicates(),
        voters@.to_set().subset_of(ids),
    ensures
        voters.spec_is_quorum(ids),
{
    voters@.unique_seq_to_set();
    assert(voters@.to_set().intersect(ids) =~= voters@.to_set());
}

/// A joint configuration decides by its configurations: `ids` is a quorum of it exactly when, in
/// every configuration, the distinct voters in `ids` are more than half of that configuration's
/// length.
pub proof fn lemma_joint_quorum_is_majority_of_each(joint: Joint, ids: Set<NodeId>)
    ensures
        joint.spec_is_quorum(ids) <==> forall|i: int|
            0 <= i < joint.configs@.len() ==> #[trigger] joint.configs@[i]@.to_set().intersect(ids).len() * 2
                > joint.configs@[i]@.len(),
{
    if joint.spec_is_quorum(ids) {
        assert forall|i: int| 0 <= i < joint.configs@.len() implies #[trigger] joint.configs@[i]@.to_set().intersect(
            ids,
        ).len() * 2 > joint.configs@[i]@.len() by {
            assert(is_majority(joint.configs@[i]@, ids));
        }
    }
    if forall|i: int|
        0 <= i < joint.configs@.len() ==> #[trigger] joint.configs@[i]@.to_set().intersect(ids).len() * 2
            > joint.configs@[i]@.len() {
        assert forall|i: int| 0 <= i < joint.configs@.len() implies #[trigger] is_majority(joint.configs@[i]@, ids) by {
            assert(joint.configs@[i]@.to_set().intersect(ids).len() * 2 > joint.configs@[i]@.len());
        }
    }
}

/// A set of voters together with the rule that decides which groups of them form a quorum.
pub trait QuorumSet {
    /// Whether the node ids `ids` form a quorum.
    spec fn spec_is_quorum(&self, ids: Set<NodeId>) -> bool;

    /// Whether the node ids `ids` form a quorum.
    fn is_quorum(&self, ids: &BTreeSet<NodeId>) -> (b: bool)
        ensures
            b == self.spec_is_quorum(ids@),
    ;

    /// A superset of a quorum is a quorum.
    proof fn lemma_quorum_monotone(&self, a: Set<NodeId>, b: Set<NodeId>)
        requires
            self.spec_is_quorum(a),
            a.subset_of(b),
        ensures
            self.spec_is_quorum(b),
    ;

    /// Unless the empty set is already a quorum, any two quorums share a node.
    proof fn lemma_quorums_intersect(&self, a: Set<NodeId>, b: Set<NodeId>)
        requires
            !self.spec_is_quorum(Set::empty()),
            self.spec_is_quorum(a),
            self.spec_is_quorum(b),
        ensures
            exists|x: NodeId| a.contains(x) && b.contains(x),
    ;
}

/// A simple majority of one voter list.
impl QuorumSet for Vec<NodeId> {
    open spec fn spec_is_quorum(&self, ids: Set<NodeId>) -> bool {
        is_majority(self@, ids)
    }

    fn is_quorum(&self, ids: &BTreeSet<NodeId>) -> (b: bool) {
        is_majority_quorum(self, ids)
    }

    proof fn lemma_quorum_monotone(&self, a: Set<NodeId>, b: Set<NodeId>) {
        lemma_majority_monotone(self@, a, b);
    }

    proof fn lemma_quorums_intersect(&self, a: Set<NodeId>, b: Set<NodeId>) {
        lemma_majorities_intersect(self@, a, b);
    }
}

/// A joint configuration: a quorum is a majority of **every** one of its voter lists.
#[derive(Debug, Clone, PartialEq, Eq)]
pub struct Joint {
    pub configs: Vec<Vec<NodeId>>,
}

/// `ids` is a majority of every configuration.
pub open spec fn is_joint_majority(configs: Seq<Vec<NodeId>>, ids: Set<NodeId>) -> bool {
    forall|i: int| 0 <= i < configs.len() ==> #[trigger] is_majority(configs[i]@, ids)
}

impl QuorumSet for Joint {
    open spec fn spec_is_quorum(&self, ids: Set<NodeId>) -> bool {
        is_joint_majority(self.configs@, ids)
    }

    fn is_quorum(&self, ids: &BTreeSet<NodeId>) -> (b: bool) {
        let mut i: usize = 0;
        while i < self.configs.len()
            invariant
                i <= self.configs.len(),
                forall|j: int| 0 <= j < i ==> #[trigger] is_majority(self.configs@[j]@, ids@),
            decreases self.configs.len() - i,
        {
            if !is_majority_quorum(&self.configs[i], ids) {
                return false;
            }
            i += 1;
        }
        true
    }

    proof fn lemma_quorum_monotone(&self, a: Set<NodeId>, b: Set<NodeId>) {
        assert forall|i: int| 0 <= i < self.configs@.len() implies #[trigger] is_majority(self.configs@[i]@, b) by {
            lemma_majority_monotone(self.configs@[i]@, a, b);
        }
    }

    proof fn lemma_quorums_intersect(&self, a: Set<NodeId>, b: Set<NodeId>) {
        // The empty set is a majority of no list, so some configuration exists.
        let e = Set::<NodeId>::empty();
        assert(self.configs@.len() > 0) by {
            if self.configs@.len() == 0 {
                assert(is_joint_majority(self.configs@, e));
            }
        }
        assert(is_majority(self.configs@[0]@, a));
        assert(is_majority(self.configs@[0]@, b));
        lemma_majorities_intersect(self.configs@[0]@, a, b);
    }
}

} // verus!
