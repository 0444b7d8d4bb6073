//! Recursive loop breaker: refuses a tool call that an agent has already
//! made too often, with identical arguments, within a time window.
//!
//! Arguments are compared by a hash of their canonical JSON form (keys
//! sorted, no whitespace), so formatting cannot hide a repeat. Times are
//! readings of a monotonic clock in nanoseconds, passed in by the caller.
use vstd::prelude::*;
use dashmap::DashMap;
use std::collections::VecDeque;
use crate::config::LoopBreakerConfig;
use crate::hashing::{default_hash, hash_str};
use crate::text::{copy_str, decimal, decimal_string, str_eq};

verus! {

/// One recorded call.
pub struct ActionEntry {
    /// The tool called.
    pub tool_name: String,
    /// Hash of the canonical arguments.
    pub arguments_hash: u64,
    /// When the call was made.
    pub timestamp: u64,
}

/// A recorded call as (tool, arguments hash, time).
pub open spec fn entry_view(e: ActionEntry) -> (Seq<char>, u64, u64) {
    (e.tool_name@, e.arguments_hash, e.timestamp)
}

/// The recorded calls of a history, oldest first.
pub open spec fn entries_view(h: Seq<ActionEntry>) -> Seq<(Seq<char>, u64, u64)> {
    h.map_values(|e: ActionEntry| entry_view(e))
}

/// What a history map holds: for each agent, its recorded calls, oldest
/// first.
pub uninterp spec fn history_contents(m: DashMap<String, VecDeque<ActionEntry>>) -> Map<
    Seq<char>,
    Seq<(Seq<char>, u64, u64)>,
>;

/// `DashMap::new`: an empty map.
#[verifier::external_body]
fn history_new() -> (r: DashMap<String, VecDeque<ActionEntry>>)
    ensures
        history_contents(r) =~= Map::empty(),
{
    DashMap::new()
}

/// `DashMap::remove`: takes the agent's history out of the map.
#[verifier::external_body]
fn history_take(m: &mut DashMap<String, VecDeque<ActionEntry>>, agent_id: &str) -> (r: Option<
    VecDeque<ActionEntry>,
>)
    ensures
        r is None <==> !history_contents(*old(m)).contains_key(agent_id@),
        r matches Some(h) ==> entries_view(h@) == history_contents(*old(m))[agent_id@],
        history_contents(*final(m)) == history_contents(*old(m)).remove(agent_id@),
{
    m.remove(agent_id).map(|(_, h)| h)
}

/// `DashMap::insert`: stores the agent's history, replacing any.
#[verifier::external_body]
fn history_put(m: &mut DashMap<String, VecDeque<ActionEntry>>, agent_id: &str, h: VecDeque<ActionEntry>)
    ensures
        history_contents(*final(m)) == history_contents(*old(m)).insert(agent_id@, entries_view(h@)),
{
    m.insert(agent_id.to_string(), h);
}

/// What `serde_json::from_str::<Value>(text)` then `Value::to_string`
/// gives: the compact JSON text of the value, object keys sorted, or `None`
/// when `text` is not JSON.
pub uninterp spec fn json_compact(text: Seq<char>) -> Option<Seq<char>>;

/// Parses `text` as JSON and writes it back compactly. The contract names
/// the result.
#[verifier::external_body]
fn json_canonical(text: &str) -> (r: Option<String>)
    ensures
        r is None <==> json_compact(text@) is None,
        r matches Some(t) ==> json_compact(text@) == Some(t@),
{
    serde_json::from_str::<serde_json::Value>(text).ok().map(|v| v.to_string())
}

/// The canonical form of arguments: their compact JSON when they are JSON,
/// the text itself otherwise.
pub open spec fn normalized_arguments(arguments: Seq<char>) -> Seq<char> {
    match json_compact(arguments) {
        Some(t) => t,
        None => arguments,
    }
}

/// Time elapsed from `then` to `now`, zero when `now` is earlier.
pub open spec fn elapsed(then: u64, now: u64) -> int {
    if now >= then {
        now - then
    } else {
        0
    }
}

/// `h` without its oldest calls made longer than `window` seconds before
/// `now` (up to the first one that is recent enough).
pub open spec fn pruned(h: Seq<(Seq<char>, u64, u64)>, now: u64, window: u64) -> Seq<
    (Seq<char>, u64, u64),
>
    decreases h.len(),
{
    if h.len() > 0 && elapsed(h[0].2, now) > window * 1000000000 {
        pruned(h.drop_first(), now, window)
    } else {
        h
    }
}

/// How many calls of `h` are of `tool` with arguments hashing to `hash`.
pub open spec fn repeats(h: Seq<(Seq<char>, u64, u64)>, tool: Seq<char>, hash: u64) -> nat
    decreases h.len(),
{
    if h.len() == 0 {
        0
    } else {
        repeats(h.drop_last(), tool, hash) + if h.last().0 == tool && h.last().1 == hash {
            1nat
        } else {
            0nat
        }
    }
}

/// The message refusing a call repeated `count` times.
pub open spec fn loop_message(tool: Seq<char>, count: nat, window: u64) -> Seq<char> {
    "Recursive loop detected: Tool '"@ + tool + "' called "@ + decimal(count)
        + " times with identical arguments in "@ + decimal(window as nat) + "s"@
}

/// Time elapsed from `then` to `now`, zero when `now` is earlier
/// (`Instant::duration_since`, which saturates).
fn age(then: u64, now: u64) -> (a: u64)
    ensures
        a == elapsed(then, now),
{
    if now >= then {
        now - then
    } else {
        0
    }
}

/// The text of an error result.
pub open spec fn error_text(r: Result<(), String>) -> Option<Seq<char>> {
    match r {
        Ok(()) => None,
        Err(m) => Some(m@),
    }
}

/// The recorded calls of an agent (none when it has made none).
pub open spec fn prior_history(
    hist: Map<Seq<char>, Seq<(Seq<char>, u64, u64)>>,
    agent_id: Seq<char>,
) -> Seq<(Seq<char>, u64, u64)> {
    if hist.contains_key(agent_id) {
        hist[agent_id]
    } else {
        Seq::empty()
    }
}

/// The histories after checking a call of `tool` by the agent at `now`,
/// and the refusal, if any. With detection off nothing changes; otherwise
/// the agent's calls older than the window are forgotten, and the call is
/// refused when at least `max_repeats` of the remaining ones had the same
/// tool and canonical arguments, or recorded when not.
pub open spec fn loop_check(
    hist: Map<Seq<char>, Seq<(Seq<char>, u64, u64)>>,
    enabled: bool,
    max_repeats: usize,
    window: u64,
    agent_id: Seq<char>,
    tool: Seq<char>,
    arguments: Seq<char>,
    now: u64,
) -> (Map<Seq<char>, Seq<(Seq<char>, u64, u64)>>, Option<Seq<char>>) {
    if !enabled {
        (hist, None)
    } else {
        let h = pruned(prior_history(hist, agent_id), now, window);
        let hash = default_hash(normalized_arguments(arguments));
        let n = repeats(h, tool, hash);
        if n >= max_repeats {
            (hist.insert(agent_id, h), Some(loop_message(tool, n + 1, window)))
        } else {
            (hist.insert(agent_id, h.push((tool, hash, now))), None)
        }
    }
}

/// The recursive loop breaker.
pub struct LoopBreaker {
    history: DashMap<String, VecDeque<ActionEntry>>,
    config: LoopBreakerConfig,
}

impl LoopBreaker {
    /// The recorded calls of each agent.
    pub closed spec fn history_spec(&self) -> Map<Seq<char>, Seq<(Seq<char>, u64, u64)>> {
        history_contents(self.history)
    }

    /// Whether detection is on.
    pub closed spec fn enabled_spec(&self) -> bool {
        self.config.enabled
    }

    /// How many identical calls are allowed within the window.
    pub closed spec fn max_repeats_spec(&self) -> usize {
        self.config.max_repeats
    }

    /// The window, in seconds.
    pub closed spec fn window_spec(&self) -> u64 {
        self.config.window_seconds
    }

    /// A loop breaker with no recorded calls.
    pub fn new(config: LoopBreakerConfig) -> (b: Self)
        ensures
            b.history_spec() == Map::<Seq<char>, Seq<(Seq<char>, u64, u64)>>::empty(),
            b.enabled_spec() == config.enabled,
            b.max_repeats_spec() == config.max_repeats,
            b.window_spec() == config.window_seconds,
    {
        LoopBreaker { history: history_new(), config }
    }

    /// The number of calls recorded for the agent.
    pub fn recorded_calls(&mut self, agent_id: &str) -> (n: usize)
        ensures
            final(self).history_spec() == old(self).history_spec(),
            final(self).enabled_spec() == old(self).enabled_spec(),
            final(self).max_repeats_spec() == old(self).max_repeats_spec(),
            final(self).window_spec() == old(self).window_spec(),
            n == prior_history(old(self).history_spec(), agent_id@).len(),
    {
        match history_take(&mut self.history, agent_id) {
            Some(h) => {
                let n = h.len();
                history_put(&mut self.history, agent_id, h);
                assert(self.history_spec() =~= old(self).history_spec());
                n
            },
            None => 0,
        }
    }

    /// Checks whether a call of `tool_name` by the agent at `now` repeats
    /// one already made too often within the window, and records it when it
    /// does not. Calls older than the window are forgotten first; the call
    /// is refused when at least `max_repeats` recent calls had the same
    /// tool and canonical arguments.
    pub fn check_and_record(&mut self, agent_id: &str, tool_name: &str, arguments: &str, now: u64) -> (r:
        Result<(), String>)
        requires
            old(self).history_spec().contains_key(agent_id@) ==> old(self).history_spec()[agent_id@].len()
                < usize::MAX,
        ensures
            final(self).enabled_spec() == old(self).enabled_spec(),
            final(self).max_repeats_spec() == old(self).max_repeats_spec(),
            final(self).window_spec() == old(self).window_spec(),
            (final(self).history_spec(), error_text(r)) == loop_check(
                old(self).history_spec(),
                old(self).enabled_spec(),
                old(self).max_repeats_spec(),
                old(self).window_spec(),
                agent_id@,
                tool_name@,
                arguments@,
                now,
            ),
    {
        if !self.config.enabled {
            return Ok(());
        }
        let normalized = match json_canonical(arguments) {
            Some(t) => t,
            None => copy_str(arguments),
        };
        let hash = hash_str(normalized.as_str());
        let window_ns: u128 = (self.config.window_seconds as u128) * 1000000000;
        let mut h: VecDeque<ActionEntry> = match history_take(&mut self.history, agent_id) {
            Some(h) => h,
            None => VecDeque::new(),
        };
        let ghost h0 = entries_view(h@);
        assert(h0 == prior_history(old(self).history_spec(), agent_id@));
        while h.len() > 0 && (age(h[0].timestamp, now) as u128) > window_ns
            invariant
                window_ns == self.config.window_seconds * 1000000000,
                pruned(h0, now, self.config.window_seconds) == pruned(
                    entries_view(h@),
                    now,
                    self.config.window_seconds,
                ),
            decreases h@.len(),
        {
            let ghost before = entries_view(h@);
            let _ = h.pop_front();
            assert(entries_view(h@) =~= before.drop_first());
        }
        let ghost hp = entries_view(h@);
        assert(hp == pruned(h0, now, self.config.window_seconds));
        proof {
            lemma_pruned_shorter(h0, now, self.config.window_seconds);
        }
        let mut count: usize = 0;
        let mut k: usize = 0;
        while k < h.len()
            invariant
                k <= h@.len(),
                hp == entries_view(h@),
                count == repeats(hp.take(k as int), tool_name@, hash),
                count <= k,
            decreases h.len() - k,
        {
            assert(hp.take(k + 1).drop_last() =~= hp.take(k as int));
            if h[k].arguments_hash == hash && str_eq(h[k].tool_name.as_str(), tool_name) {
                count = count + 1;
            }
            k = k + 1;
        }
        assert(hp.take(k as int) =~= hp);
        if count >= self.config.max_repeats {
            history_put(&mut self.history, agent_id, h);
            let mut m = copy_str("Recursive loop detected: Tool '");
            m.append(tool_name);
            m.append("' called ");
            let c = decimal_string((count as u64) + 1);
            m.append(c.as_str());
            m.append(" times with identical arguments in ");
            let w = decimal_string(self.config.window_seconds);
            m.append(w.as_str());
            m.append("s");
            return Err(m);
        }
        h.push_back(ActionEntry { tool_name: copy_str(tool_name), arguments_hash: hash, timestamp: now });
        assert(entries_view(h@) =~= hp.push((tool_name@, hash, now)));
        history_put(&mut self.history, agent_id, h);
        Ok(())
    }
}

/// Pruning never lengthens a history.
pub proof fn lemma_pruned_shorter(h: Seq<(Seq<char>, u64, u64)>, now: u64, window: u64)
    ensures
        pruned(h, now, window).len() <= h.len(),
    decreases h.len(),
{
    if h.len() > 0 && elapsed(h[0].2, now) > window * 1000000000 {
        lemma_pruned_shorter(h.drop_first(), now, window);
    }
}

/// Law: counting a call that matches adds one repeat, one that does not
/// adds none.
pub proof fn lemma_repeats_push(
    h: Seq<(Seq<char>, u64, u64)>,
    e: (Seq<char>, u64, u64),
    tool: Seq<char>,
    hash: u64,
)
    ensures
        repeats(h.push(e), tool, hash) == repeats(h, tool, hash) + if e.0 == tool && e.1 == hash {
            1nat
        } else {
            0nat
        },
{
    assert(h.push(e).drop_last() =~= h);
}

/// Law: a call made at `now` is never forgotten at `now`: pruning at the
/// time of the newest call keeps it, so a burst of identical calls at one
/// instant keeps counting up.
pub proof fn lemma_pruning_keeps_newest(h: Seq<(Seq<char>, u64, u64)>, e: (Seq<char>, u64, u64), now: u64, window: u64)
    requires
        e.2 == now,
    ensures
        pruned(h.push(e), now, window).len() >= 1,
        pruned(h.push(e), now, window).last() == e,
    decreases h.len(),
{
    if h.len() > 0 && elapsed(h[0].2, now) > window * 1000000000 {
        assert(h.push(e).drop_first() =~= h.drop_first().push(e));
        lemma_pruning_keeps_newest(h.drop_first(), e, now, window);
    } else if h.len() == 0 {
        assert(elapsed(e.2, now) == 0);
    }
}

} // verus!
