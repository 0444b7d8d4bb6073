//! Tool result cache (exact match): a tool's result is reused for the same
//! agent, tool and arguments until its time to live runs out.
//!
//! Times are readings of a monotonic clock in nanoseconds, passed in by the
//! caller.
use vstd::prelude::*;
use dashmap::DashMap;
use crate::config::CachingConfig;
use crate::hashing::{default_hash3, hash_str3, hex_string, hex_text};
use crate::text::copy_str;

verus! {

/// A cached result and the moment it expires.
pub struct CacheEntry {
    /// The cached result.
    pub result: String,
    /// When the entry expires.
    pub expiry: u64,
}

/// What a cache map holds: for each key, the cached result and its expiry.
pub uninterp spec fn cache_contents(m: DashMap<String, CacheEntry>) -> Map<Seq<char>, (Seq<char>, u64)>;

/// `DashMap::new`: an empty map.
#[verifier::external_body]
fn cache_new() -> (r: DashMap<String, CacheEntry>)
    ensures
        cache_contents(r) =~= Map::empty(),
{
    DashMap::new()
}

/// `DashMap::remove`: takes the entry of `key` out of the map.
#[verifier::external_body]
fn cache_take(m: &mut DashMap<String, CacheEntry>, key: &str) -> (r: Option<CacheEntry>)
    ensures
        r is None <==> !cache_contents(*old(m)).contains_key(key@),
        r matches Some(e) ==> cache_contents(*old(m))[key@] == (e.result@, e.expiry),
        cache_contents(*final(m)) == cache_contents(*old(m)).remove(key@),
{
    m.remove(key).map(|(_, e)| e)
}

/// `DashMap::insert`: stores the entry of `key`, replacing any.
#[verifier::external_body]
fn cache_put(m: &mut DashMap<String, CacheEntry>, key: &str, e: CacheEntry)
    ensures
        cache_contents(*final(m)) == cache_contents(*old(m)).insert(key@, (e.result@, e.expiry)),
{
    m.insert(key.to_string(), e);
}

/// The cache key of a call: the lowercase hexadecimal hash of the agent,
/// the tool and the arguments.
pub open spec fn cache_key(agent_id: Seq<char>, tool_name: Seq<char>, arguments: Seq<char>) -> Seq<char> {
    hex_text(default_hash3(agent_id, tool_name, arguments) as nat)
}

/// The live result cached under `key` at `now`: one whose expiry is still
/// ahead.
pub open spec fn cache_lookup(m: Map<Seq<char>, (Seq<char>, u64)>, key: Seq<char>, now: u64) -> Option<
    Seq<char>,
> {
    if m.contains_key(key) && m[key].1 > now {
        Some(m[key].0)
    } else {
        None
    }
}

/// The characters of an optional string.
pub open spec fn opt_text(o: Option<String>) -> Option<Seq<char>> {
    match o {
        Some(s) => Some(s@),
        None => None,
    }
}

/// The entries after looking `key` up at `now`, and the live result found.
/// With caching off nothing is found or changed; an expired entry found is
/// removed.
pub open spec fn cache_probe(
    m: Map<Seq<char>, (Seq<char>, u64)>,
    enabled: bool,
    key: Seq<char>,
    now: u64,
) -> (Map<Seq<char>, (Seq<char>, u64)>, Option<Seq<char>>) {
    if !enabled {
        (m, None)
    } else if m.contains_key(key) && m[key].1 <= now {
        (m.remove(key), None)
    } else {
        (m, cache_lookup(m, key, now))
    }
}

/// The tool result cache.
pub struct ResultCache {
    cache: DashMap<String, CacheEntry>,
    config: CachingConfig,
}

impl ResultCache {
    /// The cached entries by key.
    pub closed spec fn entries(&self) -> Map<Seq<char>, (Seq<char>, u64)> {
        cache_contents(self.cache)
    }

    /// Whether caching is on.
    pub closed spec fn enabled_spec(&self) -> bool {
        self.config.enabled
    }

    /// How long entries live, in seconds.
    pub closed spec fn ttl_spec(&self) -> u64 {
        self.config.ttl_seconds
    }

    /// An empty cache.
    pub fn new(config: CachingConfig) -> (c: Self)
        ensures
            c.entries() == Map::<Seq<char>, (Seq<char>, u64)>::empty(),
            c.enabled_spec() == config.enabled,
            c.ttl_spec() == config.ttl_seconds,
    {
        ResultCache { cache: cache_new(), config }
    }

    /// The cache key of a call.
    fn make_key(agent_id: &str, tool_name: &str, arguments: &str) -> (k: String)
        ensures
            k@ == cache_key(agent_id@, tool_name@, arguments@),
    {
        hex_string(hash_str3(agent_id, tool_name, arguments))
    }

    /// The cached result of a call at `now`, if caching is on and a live
    /// entry exists. An expired entry found on the way is removed.
    pub fn get(&mut self, agent_id: &str, tool_name: &str, arguments: &str, now: u64) -> (r: Option<
        String,
    >)
        ensures
            final(self).enabled_spec() == old(self).enabled_spec(),
            final(self).ttl_spec() == old(self).ttl_spec(),
            (final(self).entries(), opt_text(r)) == cache_probe(
                old(self).entries(),
                old(self).enabled_spec(),
                cache_key(agent_id@, tool_name@, arguments@),
                now,
            ),
    {
        if !self.config.enabled {
            return None;
        }
        let key = Self::make_key(agent_id, tool_name, arguments);
        match cache_take(&mut self.cache, key.as_str()) {
            None => {
                assert(self.entries() =~= old(self).entries());
                None
            },
            Some(e) => {
                if e.expiry > now {
                    let result = copy_str(e.result.as_str());
                    cache_put(&mut self.cache, key.as_str(), e);
                    assert(self.entries() =~= old(self).entries());
                    Some(result)
                } else {
                    None
                }
            },
        }
    }

    /// Stores the result of a call made at `now`, to live for the
    /// configured time; nothing when caching is off.
    pub fn set(&mut self, agent_id: &str, tool_name: &str, arguments: &str, result: String, now: u64)
        requires
            now + old(self).ttl_spec() * 1000000000 <= u64::MAX,
        ensures
            final(self).enabled_spec() == old(self).enabled_spec(),
            final(self).ttl_spec() == old(self).ttl_spec(),
            !old(self).enabled_spec() ==> final(self).entries() == old(self).entries(),
            old(self).enabled_spec() ==> final(self).entries() == old(self).entries().insert(
                cache_key(agent_id@, tool_name@, arguments@),
                (result@, (now + old(self).ttl_spec() * 1000000000) as u64),
            ),
    {
        if !self.config.enabled {
            return;
        }
        let key = Self::make_key(agent_id, tool_name, arguments);
        let expiry = now + self.config.ttl_seconds * 1000000000;
        cache_put(&mut self.cache, key.as_str(), CacheEntry { result, expiry });
    }
}

/// Law: a stored result is read back for the same call until it expires,
/// and not after.
pub proof fn lemma_read_after_write(
    m: Map<Seq<char>, (Seq<char>, u64)>,
    key: Seq<char>,
    result: Seq<char>,
    expiry: u64,
    now: u64,
)
    ensures
        cache_lookup(m.insert(key, (result, expiry)), key, now) == if now < expiry {
            Some(result)
        } else {
            None
        },
{
}

/// Law: storing a result under one key leaves the results of other keys
/// as they were.
pub proof fn lemma_write_keeps_other_keys(
    m: Map<Seq<char>, (Seq<char>, u64)>,
    key: Seq<char>,
    other: Seq<char>,
    entry: (Seq<char>, u64),
    now: u64,
)
    requires
        key != other,
    ensures
        cache_lookup(m.insert(key, entry), other, now) == cache_lookup(m, other, now),
{
}

} // verus!
