//! Active defense: agent reputation. Every call an agent makes moves its
//! score, clean calls up by one (to at most 100), violations down by their
//! severity; an agent whose score falls to zero is banned for ten minutes.
//!
//! Times are nanoseconds since the Unix epoch (UTC); the caller reads the
//! clock and passes the reading in.
use vstd::prelude::*;
use chrono::DateTime;
use crate::text::{copy_str, str_eq};

verus! {

/// Highest score.
pub const MAX_SCORE: i32 = 100;

/// Score of an agent seen for the first time.
pub const INITIAL_SCORE: i32 = 50;

/// At or below this score an agent is banned.
pub const BAN_THRESHOLD: i32 = 0;

/// Length of a ban, in minutes.
pub const BAN_DURATION_MINUTES: i64 = 10;

/// Length of a ban, in nanoseconds.
pub const BAN_DURATION_NANOS: i64 = 600000000000;

/// Standing of an agent.
#[derive(Debug, Clone, Copy, PartialEq, Eq, Structural)]
pub enum AgentStatus {
    /// Score above 80.
    Trusted,
    /// Score from 20 to 80.
    Neutral,
    /// Score from 1 to 19.
    Suspicious,
    /// Score at or below 0.
    Banned,
}

/// The reputation record of one agent.
pub struct ReputationScore {
    /// The agent.
    pub agent_id: String,
    /// Current score.
    pub score: i32,
    /// Current standing.
    pub status: AgentStatus,
    /// Calls recorded.
    pub total_calls: u64,
    /// Calls blocked.
    pub blocked_calls: u64,
    /// When the last violation happened.
    pub last_violation: Option<i64>,
    /// When the current ban ends.
    pub banned_until: Option<i64>,
    /// Reasons of the last five violations, oldest first.
    pub violations: Vec<String>,
}

/// The abstract content of a reputation record.
pub struct ScoreView {
    /// The agent.
    pub agent_id: Seq<char>,
    /// Current score.
    pub score: int,
    /// Current standing.
    pub status: AgentStatus,
    /// Calls recorded.
    pub total_calls: int,
    /// Calls blocked.
    pub blocked_calls: int,
    /// When the last violation happened.
    pub last_violation: Option<i64>,
    /// When the current ban ends.
    pub banned_until: Option<i64>,
    /// Reasons of the last violations, oldest first.
    pub violations: Seq<Seq<char>>,
}

impl View for ReputationScore {
    type V = ScoreView;

    open spec fn view(&self) -> ScoreView {
        ScoreView {
            agent_id: self.agent_id@,
            score: self.score as int,
            status: self.status,
            total_calls: self.total_calls as int,
            blocked_calls: self.blocked_calls as int,
            last_violation: self.last_violation,
            banned_until: self.banned_until,
            violations: self.violations@.map_values(|v: String| v@),
        }
    }
}

/// The standing a score gives.
pub open spec fn status_for(score: int) -> AgentStatus {
    if score <= BAN_THRESHOLD {
        AgentStatus::Banned
    } else if score < 20 {
        AgentStatus::Suspicious
    } else if score > 80 {
        AgentStatus::Trusted
    } else {
        AgentStatus::Neutral
    }
}

/// The record of an agent seen for the first time.
pub open spec fn fresh_score(agent_id: Seq<char>) -> ScoreView {
    ScoreView {
        agent_id,
        score: INITIAL_SCORE as int,
        status: AgentStatus::Neutral,
        total_calls: 0,
        blocked_calls: 0,
        last_violation: None,
        banned_until: None,
        violations: Seq::empty(),
    }
}

/// `r` with its standing brought in line with its score at time `now`: a
/// score at or below the threshold bans the agent (a new ban lasts from
/// `now` for the ban length; an agent already banned keeps its ban end).
pub open spec fn with_status(r: ScoreView, now: int) -> ScoreView {
    if r.score <= BAN_THRESHOLD {
        if r.status != AgentStatus::Banned {
            ScoreView {
                status: AgentStatus::Banned,
                banned_until: Some((now + BAN_DURATION_NANOS) as i64),
                ..r
            }
        } else {
            r
        }
    } else {
        ScoreView { status: status_for(r.score), ..r }
    }
}

/// Whether the ban of `r` is over at `now`.
pub open spec fn ban_expired(r: ScoreView, now: int) -> bool {
    &&& r.status == AgentStatus::Banned
    &&& r.banned_until matches Some(end) && now > end
}

/// `r` after a clean call at `now`: an expired ban is lifted first (the
/// agent becomes suspicious at score 10); then the call is counted and the
/// score rises by one, to at most [`MAX_SCORE`].
pub open spec fn after_success(r: ScoreView, now: int) -> ScoreView {
    let r1 = if ban_expired(r, now) {
        ScoreView { status: AgentStatus::Suspicious, score: 10, banned_until: None, ..r }
    } else {
        r
    };
    with_status(
        ScoreView {
            total_calls: r1.total_calls + 1,
            score: if r1.score + 1 < MAX_SCORE { r1.score + 1 } else { MAX_SCORE as int },
            ..r1
        },
        now,
    )
}

/// The violation log after adding `reason`: the last five.
pub open spec fn logged(v: Seq<Seq<char>>, reason: Seq<char>) -> Seq<Seq<char>> {
    if v.push(reason).len() > 5 {
        v.push(reason).drop_first()
    } else {
        v.push(reason)
    }
}

/// `r` after a violation of the given severity at `now`: the call is
/// counted as blocked, the score falls by the severity, and the reason is
/// logged.
pub open spec fn after_violation(r: ScoreView, reason: Seq<char>, severity: int, now: int) -> ScoreView {
    with_status(
        ScoreView {
            total_calls: r.total_calls + 1,
            blocked_calls: r.blocked_calls + 1,
            score: r.score - severity,
            last_violation: Some(now as i64),
            violations: logged(r.violations, reason),
            ..r
        },
        now,
    )
}

/// The invariant of a record: its standing follows its score, a banned
/// agent has a ban end, at most five reasons are kept, and no more calls
/// are blocked than recorded.
pub open spec fn score_ok(r: ScoreView) -> bool {
    &&& r.status == status_for(r.score)
    &&& r.status == AgentStatus::Banned ==> r.banned_until is Some
    &&& r.violations.len() <= 5
    &&& 0 <= r.blocked_calls <= r.total_calls
}

/// Law: a clean call keeps a record's invariant.
pub proof fn lemma_success_keeps_invariant(r: ScoreView, now: int)
    requires
        score_ok(r),
    ensures
        score_ok(after_success(r, now)),
{
}

/// Law: a violation keeps a record's invariant.
pub proof fn lemma_violation_keeps_invariant(r: ScoreView, reason: Seq<char>, severity: int, now: int)
    requires
        score_ok(r),
    ensures
        score_ok(after_violation(r, reason, severity, now)),
{
}

/// A fresh record satisfies the invariant.
pub proof fn lemma_fresh_ok(agent_id: Seq<char>)
    ensures
        score_ok(fresh_score(agent_id)),
{
}

impl ReputationScore {
    /// The record of an agent seen for the first time.
    pub fn fresh(agent_id: &str) -> (r: Self)
        ensures
            r@ == fresh_score(agent_id@),
    {
        let r = ReputationScore {
            agent_id: copy_str(agent_id),
            score: INITIAL_SCORE,
            status: AgentStatus::Neutral,
            total_calls: 0,
            blocked_calls: 0,
            last_violation: None,
            banned_until: None,
            violations: Vec::new(),
        };
        assert(r@.violations =~= Seq::<Seq<char>>::empty());
        r
    }

    /// Brings the standing in line with the score at time `now`.
    fn update_status(&mut self, now: i64)
        requires
            now + BAN_DURATION_NANOS <= i64::MAX,
        ensures
            final(self)@ == with_status(old(self)@, now as int),
    {
        if self.score <= BAN_THRESHOLD {
            if self.status != AgentStatus::Banned {
                self.status = AgentStatus::Banned;
                self.banned_until = Some(now + BAN_DURATION_NANOS);
            }
        } else if self.score < 20 {
            self.status = AgentStatus::Suspicious;
        } else if self.score > 80 {
            self.status = AgentStatus::Trusted;
        } else {
            self.status = AgentStatus::Neutral;
        }
    }

    /// Counts a clean call at `now`.
    fn note_success(&mut self, now: i64)
        requires
            old(self)@.total_calls < u64::MAX,
            old(self).score < i32::MAX,
            now + BAN_DURATION_NANOS <= i64::MAX,
        ensures
            final(self)@ == after_success(old(self)@, now as int),
    {
        if self.status == AgentStatus::Banned {
            match self.banned_until {
                Some(end) => {
                    if now > end {
                        self.status = AgentStatus::Suspicious;
                        self.score = 10;
                        self.banned_until = None;
                    }
                },
                None => {},
            }
        }
        self.total_calls = self.total_calls + 1;
        self.score = if self.score + 1 < MAX_SCORE {
            self.score + 1
        } else {
            MAX_SCORE
        };
        self.update_status(now);
    }

    /// Counts a violation at `now`.
    fn note_violation(&mut self, reason: &str, severity: i32, now: i64)
        requires
            old(self)@.total_calls < u64::MAX,
            old(self)@.blocked_calls < u64::MAX,
            i32::MIN <= old(self).score - severity <= i32::MAX,
            now + BAN_DURATION_NANOS <= i64::MAX,
        ensures
            final(self)@ == after_violation(old(self)@, reason@, severity as int, now as int),
    {
        let ghost v0 = self.violations@.map_values(|v: String| v@);
        self.total_calls = self.total_calls + 1;
        self.blocked_calls = self.blocked_calls + 1;
        self.score = self.score - severity;
        self.last_violation = Some(now);
        self.violations.push(copy_str(reason));
        assert(self.violations@.map_values(|v: String| v@) =~= v0.push(reason@));
        if self.violations.len() > 5 {
            self.violations.remove(0);
            assert(self.violations@.map_values(|v: String| v@) =~= v0.push(reason@).drop_first());
        }
        self.update_status(now);
    }

    /// A copy of the record.
    pub fn copy(&self) -> (c: Self)
        ensures
            c@ == self@,
    {
        let mut violations: Vec<String> = Vec::new();
        let mut k: usize = 0;
        while k < self.violations.len()
            invariant
                k <= self.violations@.len(),
                violations@.map_values(|v: String| v@) == self.violations@.map_values(
                    |v: String| v@,
                ).take(k as int),
            decreases self.violations.len() - k,
        {
            let ghost before = violations@.map_values(|v: String| v@);
            let c = copy_str(self.violations[k].as_str());
            violations.push(c);
            assert(violations@.map_values(|v: String| v@) =~= before.push(c@));
            assert(self.violations@.map_values(|v: String| v@).take(k + 1) =~= self.violations@.map_values(
                |v: String| v@,
            ).take(k as int).push(c@));
            k = k + 1;
            assert(violations@.map_values(|v: String| v@) =~= self.violations@.map_values(
                |v: String| v@,
            ).take(k as int));
        }
        assert(self.violations@.map_values(|v: String| v@).take(k as int) =~= self.violations@.map_values(
            |v: String| v@,
        ));
        ReputationScore {
            agent_id: copy_str(self.agent_id.as_str()),
            score: self.score,
            status: self.status,
            total_calls: self.total_calls,
            blocked_calls: self.blocked_calls,
            last_violation: self.last_violation,
            banned_until: self.banned_until,
            violations,
        }
    }
}

// ---------------------------------------------------------------------------
// The reputation system
// ---------------------------------------------------------------------------

/// The records of `s` by agent.
pub open spec fn records_view(s: Seq<ReputationScore>) -> Map<Seq<char>, ScoreView> {
    Map::new(
        |a: Seq<char>| exists|i: int| 0 <= i < s.len() && (#[trigger] s[i]).agent_id@ == a,
        |a: Seq<char>| s[choose|i: int| 0 <= i < s.len() && (#[trigger] s[i]).agent_id@ == a]@,
    )
}

/// No agent has two records in `s`.
pub open spec fn unique_agents(s: Seq<ReputationScore>) -> bool {
    forall|i: int, j: int|
        0 <= i < s.len() && 0 <= j < s.len() && (#[trigger] s[i]).agent_id@ == (#[trigger] s[
            j
        ]).agent_id@ ==> i == j
}

/// The record `records_view` gives for an agent is the one in `s`.
pub proof fn lemma_records_view_at(s: Seq<ReputationScore>, i: int)
    requires
        unique_agents(s),
        0 <= i < s.len(),
    ensures
        records_view(s).contains_key(s[i].agent_id@),
        records_view(s)[s[i].agent_id@] == s[i]@,
{
    let a = s[i].agent_id@;
    assert(exists|j: int| 0 <= j < s.len() && (#[trigger] s[j]).agent_id@ == a);
    let j = choose|j: int| 0 <= j < s.len() && (#[trigger] s[j]).agent_id@ == a;
    assert(i == j);
}

/// Replacing the record at `k` by one for the same agent replaces that
/// agent's record in the view.
pub proof fn lemma_records_view_update(s: Seq<ReputationScore>, k: int, r: ReputationScore)
    requires
        unique_agents(s),
        0 <= k < s.len(),
        r.agent_id@ == s[k].agent_id@,
    ensures
        unique_agents(s.update(k, r)),
        records_view(s.update(k, r)) == records_view(s).insert(r.agent_id@, r@),
{
    let t = s.update(k, r);
    assert forall|i: int, j: int|
        0 <= i < t.len() && 0 <= j < t.len() && (#[trigger] t[i]).agent_id@ == (#[trigger] t[
            j
        ]).agent_id@ implies i == j by {
        assert(t[i].agent_id@ == s[i].agent_id@);
        assert(t[j].agent_id@ == s[j].agent_id@);
    }
    assert forall|a: Seq<char>| #[trigger]
        records_view(t).contains_key(a) == records_view(s).insert(r.agent_id@, r@).contains_key(
            a,
        ) by {
        if records_view(t).contains_key(a) {
            let i = choose|i: int| 0 <= i < t.len() && (#[trigger] t[i]).agent_id@ == a;
            assert(s[i].agent_id@ == a);
        }
        if records_view(s).contains_key(a) {
            let i = choose|i: int| 0 <= i < s.len() && (#[trigger] s[i]).agent_id@ == a;
            assert(t[i].agent_id@ == a);
        }
        if a == r.agent_id@ {
            assert(t[k].agent_id@ == a);
        }
    }
    assert forall|a: Seq<char>| #[trigger] records_view(t).contains_key(a) implies records_view(
        t,
    )[a] == records_view(s).insert(r.agent_id@, r@)[a] by {
        let i = choose|i: int| 0 <= i < t.len() && (#[trigger] t[i]).agent_id@ == a;
        lemma_records_view_at(t, i);
        if i == k {
        } else {
            assert(s[i].agent_id@ == a);
            lemma_records_view_at(s, i);
        }
    }
    assert(records_view(t) =~= records_view(s).insert(r.agent_id@, r@));
}

/// Adding a record for an agent without one adds it to the view.
pub proof fn lemma_records_view_push(s: Seq<ReputationScore>, r: ReputationScore)
    requires
        unique_agents(s),
        !records_view(s).contains_key(r.agent_id@),
    ensures
        unique_agents(s.push(r)),
        records_view(s.push(r)) == records_view(s).insert(r.agent_id@, r@),
{
    let t = s.push(r);
    assert forall|i: int, j: int|
        0 <= i < t.len() && 0 <= j < t.len() && (#[trigger] t[i]).agent_id@ == (#[trigger] t[
            j
        ]).agent_id@ implies i == j by {
        if i < s.len() && j == s.len() {
            assert(s[i].agent_id@ == r.agent_id@);
        }
        if j < s.len() && i == s.len() {
            assert(s[j].agent_id@ == r.agent_id@);
        }
        if i < s.len() && j < s.len() {
            assert(t[i] == s[i] && t[j] == s[j]);
        }
    }
    assert forall|a: Seq<char>| #[trigger]
        records_view(t).contains_key(a) == records_view(s).insert(r.agent_id@, r@).contains_key(
            a,
        ) by {
        if records_view(t).contains_key(a) {
            let i = choose|i: int| 0 <= i < t.len() && (#[trigger] t[i]).agent_id@ == a;
            if i < s.len() {
                assert(s[i].agent_id@ == a);
            }
        }
        if records_view(s).contains_key(a) {
            let i = choose|i: int| 0 <= i < s.len() && (#[trigger] s[i]).agent_id@ == a;
            assert(t[i].agent_id@ == a);
        }
        if a == r.agent_id@ {
            assert(t[s.len() as int].agent_id@ == a);
        }
    }
    assert forall|a: Seq<char>| #[trigger] records_view(t).contains_key(a) implies records_view(
        t,
    )[a] == records_view(s).insert(r.agent_id@, r@)[a] by {
        let i = choose|i: int| 0 <= i < t.len() && (#[trigger] t[i]).agent_id@ == a;
        lemma_records_view_at(t, i);
        if i < s.len() {
            assert(t[i] == s[i]);
            lemma_records_view_at(s, i);
        }
    }
    assert(records_view(t) =~= records_view(s).insert(r.agent_id@, r@));
}

/// The record an agent's next call starts from: its record, or a fresh
/// one.
pub open spec fn current_score(m: Map<Seq<char>, ScoreView>, agent_id: Seq<char>) -> ScoreView {
    if m.contains_key(agent_id) {
        m[agent_id]
    } else {
        fresh_score(agent_id)
    }
}

/// Whether the agent is banned at `now`: its ban has not ended yet.
pub open spec fn banned_at(m: Map<Seq<char>, ScoreView>, agent_id: Seq<char>, now: int) -> bool {
    &&& m.contains_key(agent_id)
    &&& m[agent_id].status == AgentStatus::Banned
    &&& m[agent_id].banned_until matches Some(end) && now < end
}

/// Whether a call of the agent at `now` can be counted without a counter
/// or the clock leaving its range.
pub open spec fn can_count(m: Map<Seq<char>, ScoreView>, agent_id: Seq<char>, now: int) -> bool {
    &&& current_score(m, agent_id).total_calls < u64::MAX
    &&& current_score(m, agent_id).blocked_calls < u64::MAX
    &&& now + BAN_DURATION_NANOS <= i64::MAX
}

/// What `DateTime::<Utc>::to_string` gives for the instant `nanos`
/// nanoseconds after the Unix epoch.
pub uninterp spec fn utc_text(nanos: i64) -> Seq<char>;

/// `DateTime::from_timestamp_nanos(nanos).to_string()`: the instant in
/// UTC, as chrono displays it. The contract names the result.
#[verifier::external_body]
fn utc_display(nanos: i64) -> (s: String)
    ensures
        s@ == utc_text(nanos),
{
    DateTime::from_timestamp_nanos(nanos).to_string()
}

/// The reputation of every agent seen.
pub struct ReputationSystem {
    scores: Vec<ReputationScore>,
}

impl View for ReputationSystem {
    type V = Map<Seq<char>, ScoreView>;

    closed spec fn view(&self) -> Map<Seq<char>, ScoreView> {
        records_view(self.scores@)
    }
}

impl ReputationSystem {
    /// The invariant: one record per agent, each keyed by its agent and
    /// satisfying the record invariant.
    pub closed spec fn wf(&self) -> bool {
        &&& unique_agents(self.scores@)
        &&& forall|i: int| 0 <= i < self.scores@.len() ==> score_ok((#[trigger] self.scores@[i])@)
    }

    /// Law: every record of a well-formed system satisfies the record
    /// invariant and is keyed by its own agent.
    pub proof fn lemma_wf_records(&self, a: Seq<char>)
        requires
            self.wf(),
            self@.contains_key(a),
        ensures
            score_ok(self@[a]),
            self@[a].agent_id == a,
            i32::MIN <= self@[a].score <= i32::MAX,
    {
        let i = choose|i: int| 0 <= i < self.scores@.len() && (#[trigger] self.scores@[i]).agent_id@ == a;
        lemma_records_view_at(self.scores@, i);
    }

    /// A system that has seen no agent.
    pub fn new() -> (s: Self)
        ensures
            s.wf(),
            s@ == Map::<Seq<char>, ScoreView>::empty(),
    {
        let s = ReputationSystem { scores: Vec::new() };
        assert(s@ =~= Map::<Seq<char>, ScoreView>::empty());
        s
    }

    /// The index of the agent's record.
    fn position(&self, agent_id: &str) -> (r: Option<usize>)
        requires
            self.wf(),
        ensures
            r matches Some(k) ==> k < self.scores@.len() && self.scores@[k as int].agent_id@
                == agent_id@,
            r is None ==> !self@.contains_key(agent_id@),
    {
        let mut k: usize = 0;
        while k < self.scores.len()
            invariant
                k <= self.scores@.len(),
                forall|j: int| 0 <= j < k ==> (#[trigger] self.scores@[j]).agent_id@ != agent_id@,
            decreases self.scores.len() - k,
        {
            if str_eq(self.scores[k].agent_id.as_str(), agent_id) {
                return Some(k);
            }
            k = k + 1;
        }
        None
    }

    /// The agent's record, or a fresh one for an agent not seen yet.
    pub fn current(&self, agent_id: &str) -> (s: ReputationScore)
        requires
            self.wf(),
        ensures
            s@ == current_score(self@, agent_id@),
    {
        match self.position(agent_id) {
            Some(k) => {
                proof {
                    lemma_records_view_at(self.scores@, k as int);
                }
                self.scores[k].copy()
            },
            None => ReputationScore::fresh(agent_id),
        }
    }

    /// Whether the agent may act at `now`: an error naming the end of its
    /// ban while it is banned, and nothing otherwise.
    pub fn check_agent_status(&self, agent_id: &str, now: i64) -> (r: Result<(), String>)
        requires
            self.wf(),
        ensures
            r is Err <==> banned_at(self@, agent_id@, now as int),
            r matches Err(m) ==> m@ == "Agent BANNED active defense system until "@ + utc_text(
                self@[agent_id@].banned_until->0,
            ),
    {
        match self.position(agent_id) {
            Some(k) => {
                proof {
                    lemma_records_view_at(self.scores@, k as int);
                }
                let entry = &self.scores[k];
                if entry.status == AgentStatus::Banned {
                    match entry.banned_until {
                        Some(end) => {
                            if now < end {
                                let mut m = copy_str("Agent BANNED active defense system until ");
                                let when = utc_display(end);
                                m.append(when.as_str());
                                return Err(m);
                            }
                        },
                        None => {},
                    }
                }
                Ok(())
            },
            None => Ok(()),
        }
    }

    /// Records a clean, allowed call of the agent at `now`.
    pub fn record_success(&mut self, agent_id: &str, now: i64)
        requires
            old(self).wf(),
            can_count(old(self)@, agent_id@, now as int),
            current_score(old(self)@, agent_id@).score < i32::MAX,
        ensures
            final(self).wf(),
            final(self)@ == old(self)@.insert(
                agent_id@,
                after_success(current_score(old(self)@, agent_id@), now as int),
            ),
    {
        match self.position(agent_id) {
            Some(k) => {
                proof {
                    lemma_records_view_at(self.scores@, k as int);
                }
                let ghost s0 = self.scores@;
                let mut r = self.scores.remove(k);
                r.note_success(now);
                proof {
                    lemma_success_keeps_invariant(s0[k as int]@, now as int);
                }
                self.scores.insert(k, r);
                proof {
                    assert(self.scores@ =~= s0.update(k as int, r));
                    lemma_records_view_update(s0, k as int, r);
                }
            },
            None => {
                let mut r = ReputationScore::fresh(agent_id);
                r.note_success(now);
                proof {
                    lemma_fresh_ok(agent_id@);
                    lemma_success_keeps_invariant(fresh_score(agent_id@), now as int);
                    lemma_records_view_push(self.scores@, r);
                }
                self.scores.push(r);
            },
        }
    }

    /// Records a violation of the agent at `now`: a blocked call, the score
    /// lowered by `severity`, and `reason` logged.
    pub fn record_violation(&mut self, agent_id: &str, reason: &str, severity: i32, now: i64)
        requires
            old(self).wf(),
            can_count(old(self)@, agent_id@, now as int),
            i32::MIN <= current_score(old(self)@, agent_id@).score - severity <= i32::MAX,
        ensures
            final(self).wf(),
            final(self)@ == old(self)@.insert(
                agent_id@,
                after_violation(current_score(old(self)@, agent_id@), reason@, severity as int, now as int),
            ),
    {
        match self.position(agent_id) {
            Some(k) => {
                proof {
                    lemma_records_view_at(self.scores@, k as int);
                }
                let ghost s0 = self.scores@;
                let mut r = self.scores.remove(k);
                r.note_violation(reason, severity, now);
                proof {
                    lemma_violation_keeps_invariant(s0[k as int]@, reason@, severity as int, now as int);
                }
                self.scores.insert(k, r);
                proof {
                    assert(self.scores@ =~= s0.update(k as int, r));
                    lemma_records_view_update(s0, k as int, r);
                }
            },
            None => {
                let mut r = ReputationScore::fresh(agent_id);
                r.note_violation(reason, severity, now);
                proof {
                    lemma_fresh_ok(agent_id@);
                    lemma_violation_keeps_invariant(fresh_score(agent_id@), reason@, severity as int, now as int);
                    lemma_records_view_push(self.scores@, r);
                }
                self.scores.push(r);
            },
        }
    }

    /// Copies of all records, for the dashboard.
    pub fn all_scores(&self) -> (v: Vec<ReputationScore>)
        requires
            self.wf(),
        ensures
            records_view(v@) == self@,
            unique_agents(v@),
    {
        let mut v: Vec<ReputationScore> = Vec::new();
        let mut k: usize = 0;
        while k < self.scores.len()
            invariant
                k <= self.scores@.len(),
                v@.len() == k,
                forall|j: int| 0 <= j < k ==> (#[trigger] v@[j])@ == self.scores@[j]@,
            decreases self.scores.len() - k,
        {
            v.push(self.scores[k].copy());
            k = k + 1;
        }
        proof {
            assert forall|i: int, j: int|
                0 <= i < v@.len() && 0 <= j < v@.len() && (#[trigger] v@[i]).agent_id@ == (
                #[trigger] v@[j]).agent_id@ implies i == j by {
                assert(v@[i]@.agent_id == self.scores@[i]@.agent_id);
                assert(v@[j]@.agent_id == self.scores@[j]@.agent_id);
            }
            assert forall|a: Seq<char>| #[trigger] records_view(v@).contains_key(a)
                == records_view(self.scores@).contains_key(a) by {
                if records_view(v@).contains_key(a) {
                    let i = choose|i: int| 0 <= i < v@.len() && (#[trigger] v@[i]).agent_id@ == a;
                    assert(self.scores@[i]@.agent_id == v@[i]@.agent_id);
                }
                if records_view(self.scores@).contains_key(a) {
                    let i = choose|i: int| 0 <= i < self.scores@.len() && (
                    #[trigger] self.scores@[i]).agent_id@ == a;
                    assert(v@[i]@.agent_id == self.scores@[i]@.agent_id);
                }
            }
            assert forall|a: Seq<char>| #[trigger] records_view(v@).contains_key(a) implies records_view(
                v@,
            )[a] == records_view(self.scores@)[a] by {
                let i = choose|i: int| 0 <= i < v@.len() && (#[trigger] v@[i]).agent_id@ == a;
                assert(v@[i]@.agent_id == self.scores@[i]@.agent_id);
                lemma_records_view_at(v@, i);
                lemma_records_view_at(self.scores@, i);
            }
            assert(records_view(v@) =~= records_view(self.scores@));
        }
        v
    }
}

impl Default for ReputationSystem {
    fn default() -> (s: Self)
        ensures
            s.wf(),
            s@ == Map::<Seq<char>, ScoreView>::empty(),
    {
        ReputationSystem::new()
    }
}

/// Law: a violation that takes an agent that is not banned to the ban
/// threshold bans it for exactly the ban length: it is refused at every
/// moment before `now` plus ten minutes and let through from then on.
pub proof fn lemma_violation_bans_for_ban_length(
    m: Map<Seq<char>, ScoreView>,
    agent_id: Seq<char>,
    reason: Seq<char>,
    severity: int,
    now: int,
    t: int,
)
    requires
        current_score(m, agent_id).status != AgentStatus::Banned,
        current_score(m, agent_id).score - severity <= BAN_THRESHOLD,
        now + BAN_DURATION_NANOS <= i64::MAX,
        i64::MIN <= now,
    ensures
        banned_at(
            m.insert(agent_id, after_violation(current_score(m, agent_id), reason, severity, now)),
            agent_id,
            t,
        ) <==> t < now + BAN_DURATION_NANOS,
{
}

/// Law: an agent is never banned before any violation: clean calls alone
/// keep a fresh agent in good standing.
pub proof fn lemma_success_never_bans(r: ScoreView, now: int, t: int)
    requires
        score_ok(r),
        r.status != AgentStatus::Banned,
        r.score <= MAX_SCORE,
    ensures
        after_success(r, now).status != AgentStatus::Banned,
        after_success(r, now).score <= MAX_SCORE,
{
}

} // verus!
