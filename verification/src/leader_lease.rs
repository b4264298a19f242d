//! Explicit invalidation of this node's leader lease.
//!
//! Time is measured on the node's monotonic clock, in nanoseconds.
use vstd::prelude::*;

verus! {

/// What the leader-lease check reports when a (pre-)vote request arrives.
#[derive(Debug, Clone, Copy, PartialEq, Eq, Structural)]
pub enum LeaseStatus {
    /// A leader was heard from recently; the lease still has `remaining` nanoseconds to run.
    Active { remaining: u128 },
    /// The lease ran out.
    Expired,
    /// The lease was explicitly invalidated (this node stepped down as leader).
    Invalidated,
}

impl LeaseStatus {
    /// Whether the lease still protects a live leader.
    pub fn is_active(&self) -> (b: bool)
        ensures
            b <==> self is Active,
    {
        matches!(self, LeaseStatus::Active { .. })
    }
}

/// Tracks explicit invalidation of this node's leader lease.
///
/// The leader lease is normally derived implicitly from the vote's last-modified time plus the
/// lease duration: while that window is open, the node refuses to grant (pre-)votes so it does
/// not disrupt a live leader.
///
/// When *this* node was the leader and steps down, its own committed-vote time is still recent,
/// so the implicit lease would keep reporting "valid". `LeaderLease` records the instant at
/// which the lease was explicitly invalidated: a lease derived from a vote modified at
/// `vote_utime` is alive only if it has **not** been invalidated at or after `vote_utime`.
/// Acknowledging a *new* leader moves `vote_utime` past any prior invalidation and re-arms the
/// lease.
#[derive(Debug, Clone, Copy, PartialEq, Eq, Structural)]
pub struct LeaderLease {
    /// The most recent time the lease was explicitly invalidated, if ever.
    invalidated_at: Option<u128>,
}

impl View for LeaderLease {
    type V = Option<u128>;

    /// The latest invalidation instant, if any.
    closed spec fn view(&self) -> Option<u128> {
        self.invalidated_at
    }
}

/// Whether a lease whose latest invalidation is `invalidated_at` suppresses the lease of a vote
/// modified at `vote_utime`.
pub open spec fn invalidates(invalidated_at: Option<u128>, vote_utime: u128) -> bool {
    match invalidated_at {
        Some(at) => at >= vote_utime,
        None => false,
    }
}

/// The invalidation instant kept after invalidating at `now`: the later of the two.
pub open spec fn after_invalidate(invalidated_at: Option<u128>, now: u128) -> Option<u128> {
    match invalidated_at {
        Some(prev) => if prev >= now { Some(prev) } else { Some(now) },
        None => Some(now),
    }
}

impl Default for LeaderLease {
    /// A lease that was never invalidated.
    fn default() -> (l: Self)
        ensures
            l@ == None::<u128>,
    {
        LeaderLease { invalidated_at: None }
    }
}

impl LeaderLease {
    /// Explicitly invalidate the lease as of `now`.
    ///
    /// Keeps the latest invalidation instant, so a non-monotone clock cannot move it back.
    pub fn invalidate(&mut self, now: u128)
        ensures
            final(self)@ == after_invalidate(old(self)@, now),
    {
        self.invalidated_at = match self.invalidated_at {
            Some(prev) if prev >= now => Some(prev),
            _ => Some(now),
        };
    }

    /// Whether the lease derived from a vote last modified at `vote_utime` has been invalidated:
    /// `true` iff an explicit invalidation happened at or after `vote_utime`.
    pub fn is_invalidated_for(&self, vote_utime: u128) -> (b: bool)
        ensures
            b == invalidates(self@, vote_utime),
    {
        match self.invalidated_at {
            Some(at) => at >= vote_utime,
            None => false,
        }
    }
}

/// After `invalidate(now)`, every vote modified at or before `now` has its lease suppressed, and
/// every vote it suppressed before stays suppressed.
pub proof fn lemma_invalidate_suppresses_older_votes(invalidated_at: Option<u128>, now: u128, vote_utime: u128)
    ensures
        vote_utime <= now ==> invalidates(after_invalidate(invalidated_at, now), vote_utime),
        invalidates(invalidated_at, vote_utime) ==> invalidates(after_invalidate(invalidated_at, now), vote_utime),
{
}

/// A vote modified strictly after every invalidation — a newly acknowledged leader — is never
/// suppressed: invalidation only ever silences a stale lease.
pub proof fn lemma_newer_vote_rearms_lease(invalidated_at: Option<u128>, vote_utime: u128)
    requires
        forall|at: u128| invalidated_at == Some(at) ==> at < vote_utime,
    ensures
        !invalidates(invalidated_at, vote_utime),
{
}

/// Exactly which votes a lease suppresses: none before any invalidation; after invalidating at
/// `now`, exactly the votes modified no later than the latest invalidation instant so far.
pub proof fn lemma_invalidation_exact(invalidated_at: Option<u128>, now: u128, vote_utime: u128)
    ensures
        !invalidates(None, vote_utime),
        invalidated_at is None ==> (invalidates(after_invalidate(invalidated_at, now), vote_utime)
            <==> vote_utime <= now),
        invalidated_at is Some ==> (invalidates(after_invalidate(invalidated_at, now), vote_utime)
            <==> vote_utime <= now || vote_utime <= invalidated_at->0),
{
}

/// Invalidating twice at the same instant is the same as invalidating once.
pub proof fn lemma_invalidate_idempotent(invalidated_at: Option<u128>, now: u128)
    ensures
        after_invalidate(after_invalidate(invalidated_at, now), now) == after_invalidate(invalidated_at, now),
{
}

} // verus!
