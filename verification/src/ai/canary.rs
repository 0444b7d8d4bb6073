//! Canary deployment of model backends: a stable share of agents is routed
//! to a candidate model while the current one serves everyone else; the
//! candidate is promoted once it passes its evaluations, or dropped.
//!
//! The deployer is generic in the backend handle it routes to and takes
//! `&mut self` where it changes; callers that share it across threads hold
//! it behind a lock.
use vstd::prelude::*;
use crate::hashing::{default_hash, hash_str};

verus! {

/// Decision counters feeding the false-positive guard. A false positive is
/// a call the neural layer flagged that the rule layers allowed; a true
/// negative is one neither flagged nor refused.
#[derive(Debug, Clone, Copy)]
pub struct CanaryStats {
    /// Calls served by the canary.
    pub canary_total: u64,
    /// Calls served by the current model.
    pub control_total: u64,
    /// False positives of the canary.
    pub canary_fp: u64,
    /// False positives of the current model.
    pub control_fp: u64,
    /// True negatives of the canary.
    pub canary_tn: u64,
    /// True negatives of the current model.
    pub control_tn: u64,
}

impl Default for CanaryStats {
    fn default() -> (s: Self)
        ensures
            s == zero_stats(),
    {
        CanaryStats {
            canary_total: 0,
            control_total: 0,
            canary_fp: 0,
            control_fp: 0,
            canary_tn: 0,
            control_tn: 0,
        }
    }
}

/// All counters at zero.
pub open spec fn zero_stats() -> CanaryStats {
    CanaryStats {
        canary_total: 0,
        control_total: 0,
        canary_fp: 0,
        control_fp: 0,
        canary_tn: 0,
        control_tn: 0,
    }
}

/// Whether `s` can count one more call of the given kind without a counter
/// overflowing.
pub open spec fn can_note(s: CanaryStats, bucket: bool, flagged: bool, allowed: bool) -> bool {
    &&& bucket ==> s.canary_total < u64::MAX
    &&& !bucket ==> s.control_total < u64::MAX
    &&& (allowed && flagged && bucket) ==> s.canary_fp < u64::MAX
    &&& (allowed && flagged && !bucket) ==> s.control_fp < u64::MAX
    &&& (allowed && !flagged && bucket) ==> s.canary_tn < u64::MAX
    &&& (allowed && !flagged && !bucket) ==> s.control_tn < u64::MAX
}

/// `s` after counting one call: served by the canary (`bucket`) or not,
/// flagged by the neural layer or not, allowed in the end or not.
pub open spec fn noted(s: CanaryStats, bucket: bool, flagged: bool, allowed: bool) -> CanaryStats {
    CanaryStats {
        canary_total: if bucket { (s.canary_total + 1) as u64 } else { s.canary_total },
        control_total: if !bucket { (s.control_total + 1) as u64 } else { s.control_total },
        canary_fp: if allowed && flagged && bucket { (s.canary_fp + 1) as u64 } else { s.canary_fp },
        control_fp: if allowed && flagged && !bucket {
            (s.control_fp + 1) as u64
        } else {
            s.control_fp
        },
        canary_tn: if allowed && !flagged && bucket {
            (s.canary_tn + 1) as u64
        } else {
            s.canary_tn
        },
        control_tn: if allowed && !flagged && !bucket {
            (s.control_tn + 1) as u64
        } else {
            s.control_tn
        },
    }
}

impl CanaryStats {
    /// Counts one call: `bucket` = served by the canary, `flagged` = the
    /// neural layer fired, `allowed` = allowed in the end.
    pub fn note(&mut self, bucket: bool, flagged: bool, allowed: bool)
        requires
            can_note(*old(self), bucket, flagged, allowed),
        ensures
            *final(self) == noted(*old(self), bucket, flagged, allowed),
    {
        if bucket {
            self.canary_total = self.canary_total + 1;
        } else {
            self.control_total = self.control_total + 1;
        }
        if allowed {
            if flagged {
                if bucket {
                    self.canary_fp = self.canary_fp + 1;
                } else {
                    self.control_fp = self.control_fp + 1;
                }
            } else if bucket {
                self.canary_tn = self.canary_tn + 1;
            } else {
                self.control_tn = self.control_tn + 1;
            }
        }
    }
}

/// Law: each counted call adds one to exactly one of the two totals, and
/// to one of the four outcome counters exactly when it was allowed.
pub proof fn lemma_note_counts_once(s: CanaryStats, bucket: bool, flagged: bool, allowed: bool)
    requires
        can_note(s, bucket, flagged, allowed),
    ensures
        noted(s, bucket, flagged, allowed).canary_total + noted(
            s,
            bucket,
            flagged,
            allowed,
        ).control_total == s.canary_total + s.control_total + 1,
        noted(s, bucket, flagged, allowed).canary_fp + noted(s, bucket, flagged, allowed).control_fp
            + noted(s, bucket, flagged, allowed).canary_tn + noted(
            s,
            bucket,
            flagged,
            allowed,
        ).control_tn == s.canary_fp + s.control_fp + s.canary_tn + s.control_tn + (if allowed {
            1int
        } else {
            0int
        }),
{
}

/// The outcome counters of each side never exceed the calls it served.
pub open spec fn counters_consistent(s: CanaryStats) -> bool {
    &&& s.canary_fp + s.canary_tn <= s.canary_total
    &&& s.control_fp + s.control_tn <= s.control_total
}

/// Law: fresh counters are consistent, and counting a call keeps them so:
/// on each side the false positives and true negatives together never
/// exceed the calls served, whatever sequence of calls was counted.
pub proof fn lemma_note_keeps_counters_consistent(s: CanaryStats, bucket: bool, flagged: bool, allowed: bool)
    requires
        counters_consistent(s),
        can_note(s, bucket, flagged, allowed),
    ensures
        counters_consistent(zero_stats()),
        counters_consistent(noted(s, bucket, flagged, allowed)),
{
}

// ---------------------------------------------------------------------------
// Stable bucketing
// ---------------------------------------------------------------------------

/// The rollout bucket of an agent, in `0..100`.
pub open spec fn agent_bucket(agent_id: Seq<char>) -> int {
    (default_hash(agent_id) % 100) as int
}

/// A candidate model and the share of agents (percent) it serves.
pub struct Canary<B> {
    /// The candidate model.
    pub model: B,
    /// The share of agents it serves, in `1..=100`.
    pub pct: u8,
}

/// Hot-swappable model deployer: `current` always serves; the canary, when
/// set, serves the agents whose bucket is below its share.
pub struct CanaryDeployer<B> {
    current: B,
    canary: Option<Canary<B>>,
    stats: CanaryStats,
}

/// Whether an agent is routed to the canary of `canary`.
pub open spec fn routes_to_canary<B>(canary: Option<Canary<B>>, agent_id: Seq<char>) -> bool {
    canary matches Some(c) && agent_bucket(agent_id) < c.pct
}

impl<B> CanaryDeployer<B> {
    /// The model that serves everyone outside the canary.
    pub closed spec fn current_model(&self) -> B {
        self.current
    }

    /// The canary, if one is set.
    pub closed spec fn canary_spec(&self) -> Option<Canary<B>> {
        self.canary
    }

    /// The counters.
    pub closed spec fn stats_spec(&self) -> CanaryStats {
        self.stats
    }

    /// Whether the canary's share is in `1..=100`.
    pub closed spec fn wf(&self) -> bool {
        self.canary matches Some(c) ==> 1 <= c.pct <= 100
    }

    /// A deployer serving everyone with `current`, no canary, counters at
    /// zero.
    pub fn new(current: B) -> (d: Self)
        ensures
            d.wf(),
            d.current_model() == current,
            d.canary_spec() is None,
            d.stats_spec() == zero_stats(),
    {
        CanaryDeployer { current, canary: None, stats: CanaryStats::default() }
    }

    /// The stable rollout bucket of an agent, in `0..100`: the same agent
    /// always lands in the same bucket.
    pub fn bucket(agent_id: &str) -> (b: u8)
        ensures
            b == agent_bucket(agent_id@),
            b < 100,
    {
        (hash_str(agent_id) % 100) as u8
    }

    /// Whether the agent is currently served by the canary.
    pub fn is_canary_bucket(&self, agent_id: &str) -> (r: bool)
        ensures
            r == routes_to_canary(self.canary_spec(), agent_id@),
    {
        match &self.canary {
            Some(c) => Self::bucket(agent_id) < c.pct,
            None => false,
        }
    }

    /// Counts one decision in the bucket the agent is routed to.
    pub fn note(&mut self, agent_id: &str, flagged: bool, allowed: bool)
        requires
            can_note(
                old(self).stats_spec(),
                routes_to_canary(old(self).canary_spec(), agent_id@),
                flagged,
                allowed,
            ),
        ensures
            final(self).stats_spec() == noted(
                old(self).stats_spec(),
                routes_to_canary(old(self).canary_spec(), agent_id@),
                flagged,
                allowed,
            ),
            final(self).current_model() == old(self).current_model(),
            final(self).canary_spec() == old(self).canary_spec(),
            final(self).wf() == old(self).wf(),
    {
        let bucket = self.is_canary_bucket(agent_id);
        self.stats.note(bucket, flagged, allowed);
    }

    /// The counters.
    pub fn stats(&self) -> (s: CanaryStats)
        ensures
            s == self.stats_spec(),
    {
        self.stats
    }

    /// The model that serves everyone outside the canary.
    pub fn active(&self) -> (m: &B)
        ensures
            *m == self.current_model(),
    {
        &self.current
    }

    /// Whether a canary is set.
    pub fn has_canary(&self) -> (r: bool)
        ensures
            r == self.canary_spec() is Some,
    {
        self.canary.is_some()
    }

    /// The model serving the agent: the canary's when the agent is in its
    /// share, the current one otherwise.
    pub fn backend_for(&self, agent_id: &str) -> (m: &B)
        ensures
            routes_to_canary(self.canary_spec(), agent_id@) ==> *m == self.canary_spec()->0.model,
            !routes_to_canary(self.canary_spec(), agent_id@) ==> *m == self.current_model(),
    {
        match &self.canary {
            Some(c) => {
                if Self::bucket(agent_id) < c.pct {
                    &c.model
                } else {
                    &self.current
                }
            },
            None => &self.current,
        }
    }

    /// Starts (or replaces) the canary, its share clamped to `1..=100`.
    pub fn set_canary(&mut self, model: B, pct: u8)
        ensures
            final(self).wf(),
            final(self).canary_spec() matches Some(c) && c.model == model && c.pct == (if pct < 1 {
                1
            } else if pct > 100 {
                100
            } else {
                pct
            }),
            final(self).current_model() == old(self).current_model(),
            final(self).stats_spec() == old(self).stats_spec(),
    {
        let pct = if pct < 1 {
            1
        } else if pct > 100 {
            100
        } else {
            pct
        };
        self.canary = Some(Canary { model, pct });
    }

    /// Promotes the canary to current (hot swap), which requires passed
    /// evaluations (`gate_passed`). Returns whether it promoted: without
    /// passed evaluations, or without a canary, nothing changes.
    pub fn promote(&mut self, gate_passed: bool) -> (r: bool)
        ensures
            r == (gate_passed && old(self).canary_spec() is Some),
            r ==> final(self).current_model() == old(self).canary_spec()->0.model
                && final(self).canary_spec() is None,
            !r ==> final(self).current_model() == old(self).current_model()
                && final(self).canary_spec() == old(self).canary_spec(),
            final(self).stats_spec() == old(self).stats_spec(),
            old(self).wf() ==> final(self).wf(),
    {
        if !gate_passed {
            return false;
        }
        let canary = self.canary.take();
        match canary {
            Some(c) => {
                self.current = c.model;
                true
            },
            None => false,
        }
    }

    /// Drops the canary; the current model keeps serving everyone.
    pub fn rollback(&mut self)
        ensures
            final(self).canary_spec() is None,
            final(self).current_model() == old(self).current_model(),
            final(self).stats_spec() == old(self).stats_spec(),
            final(self).wf(),
    {
        self.canary = None;
    }
}

/// Law: a canary at a share of 100 serves every agent, because every bucket
/// is below 100.
pub proof fn lemma_full_share_routes_everyone<B>(canary: Option<Canary<B>>, agent_id: Seq<char>)
    requires
        canary matches Some(c) && c.pct == 100,
    ensures
        routes_to_canary(canary, agent_id),
{
}

/// Law: without a canary no agent is routed to one.
pub proof fn lemma_no_canary_routes_no_one<B>(agent_id: Seq<char>)
    ensures
        !routes_to_canary(None::<Canary<B>>, agent_id),
{
}

/// Law: routing is stable: an agent is routed the same way whenever the
/// canary is the same, because its bucket depends on its identifier alone.
pub proof fn lemma_routing_stable<B>(canary: Option<Canary<B>>, a: Seq<char>, b: Seq<char>)
    requires
        a == b,
    ensures
        routes_to_canary(canary, a) == routes_to_canary(canary, b),
        0 <= agent_bucket(a) < 100,
{
}

} // verus!
