//! A cache of text embeddings keyed by model and text, with a time to live
//! and least-recently-used eviction (the `lru` crate).
//!
//! An embedding is held as the bit patterns of its `f32` components
//! (`f32::to_bits`), which is exact. Times are nanoseconds since the cache
//! was made; an entry expires once the clock reaches its expiry.
use vstd::prelude::*;
use lru::LruCache;
use std::num::NonZeroUsize;
use std::time::Instant;
use crate::clock::{clock_now, time_since, whole_nanos};
use crate::hashing::{default_hash, hash_str, hex_string, hex_text};
use crate::text::{copy_str, push_char};
use vstd::string::StringExecFns;

verus! {

#[verifier::external_type_specification]
#[verifier::external_body]
#[verifier::reject_recursive_types(K)]
#[verifier::reject_recursive_types(V)]
#[verifier::reject_recursive_types(S)]
pub struct ExLruCache<K, V, S>(LruCache<K, V, S>);

#[verifier::external_type_specification]
#[verifier::external_body]
pub struct ExLruHasher(lru::DefaultHasher);

/// The entries of an LRU cache of embeddings, least recently used first:
/// key, embedding bits, expiry.
pub uninterp spec fn lru_entries(c: LruCache<String, (Vec<u32>, u128)>) -> Seq<(Seq<char>, Seq<u32>, u128)>;

/// The capacity an LRU cache of embeddings was made with.
pub uninterp spec fn lru_capacity(c: LruCache<String, (Vec<u32>, u128)>) -> nat;

/// `es` has an entry with key `k`.
pub open spec fn has_key(es: Seq<(Seq<char>, Seq<u32>, u128)>, k: Seq<char>) -> bool {
    exists|i: int| 0 <= i < es.len() && #[trigger] es[i].0 == k
}

/// The position of the entry with key `k` in `es`.
pub open spec fn key_index(es: Seq<(Seq<char>, Seq<u32>, u128)>, k: Seq<char>) -> int {
    choose|i: int| 0 <= i < es.len() && #[trigger] es[i].0 == k
}

/// No two entries of `es` have the same key.
pub open spec fn keys_unique(es: Seq<(Seq<char>, Seq<u32>, u128)>) -> bool {
    forall|i: int, j: int| 0 <= i < es.len() && 0 <= j < es.len() && #[trigger] es[i].0 == #[trigger] es[j].0 ==> i == j
}

/// `es` after a use of its entry at `i`: the entry moves to the most
/// recently used end.
pub open spec fn touch(es: Seq<(Seq<char>, Seq<u32>, u128)>, i: int) -> Seq<(Seq<char>, Seq<u32>, u128)> {
    es.remove(i).push(es[i])
}

/// `es` after `LruCache::put` of `e` with capacity `cap`: an entry with the
/// same key is replaced and moves to the most recently used end; otherwise
/// a full cache first drops its least recently used entry.
pub open spec fn put_entry(
    es: Seq<(Seq<char>, Seq<u32>, u128)>,
    cap: nat,
    e: (Seq<char>, Seq<u32>, u128),
) -> Seq<(Seq<char>, Seq<u32>, u128)> {
    if has_key(es, e.0) {
        es.remove(key_index(es, e.0)).push(e)
    } else if es.len() == cap {
        es.drop_first().push(e)
    } else {
        es.push(e)
    }
}

/// `es` without its entries with key `k`, in order.
pub open spec fn without_key(es: Seq<(Seq<char>, Seq<u32>, u128)>, k: Seq<char>) -> Seq<(Seq<char>, Seq<u32>, u128)>
    decreases es.len(),
{
    if es.len() == 0 {
        es
    } else if es.last().0 == k {
        without_key(es.drop_last(), k)
    } else {
        without_key(es.drop_last(), k).push(es.last())
    }
}

/// The entries of `es` that have not expired at `now`, in order.
pub open spec fn unexpired(es: Seq<(Seq<char>, Seq<u32>, u128)>, now: u128) -> Seq<(Seq<char>, Seq<u32>, u128)>
    decreases es.len(),
{
    if es.len() == 0 {
        es
    } else if es.last().2 <= now {
        unexpired(es.drop_last(), now)
    } else {
        unexpired(es.drop_last(), now).push(es.last())
    }
}

/// The entries of `es` except the expired ones whose keys are in `ks`.
pub open spec fn keep_filter(es: Seq<(Seq<char>, Seq<u32>, u128)>, ks: Seq<Seq<char>>, now: u128) -> Seq<(Seq<char>, Seq<u32>, u128)>
    decreases es.len(),
{
    if es.len() == 0 {
        es
    } else if es.last().2 <= now && ks.contains(es.last().0) {
        keep_filter(es.drop_last(), ks, now)
    } else {
        keep_filter(es.drop_last(), ks, now).push(es.last())
    }
}

// ---------------------------------------------------------------------------
// The lru crate
// ---------------------------------------------------------------------------

/// `LruCache::new(NonZeroUsize::new(cap).unwrap())`: an empty cache of
/// capacity `cap`.
#[verifier::external_body]
fn lru_new(cap: usize) -> (c: LruCache<String, (Vec<u32>, u128)>)
    requires
        cap > 0,
    ensures
        lru_entries(c).len() == 0,
        lru_capacity(c) == cap,
{
    LruCache::new(NonZeroUsize::new(cap).unwrap())
}

/// `LruCache::get`, the value cloned: the value under `k`, whose entry
/// becomes the most recently used.
#[verifier::external_body]
fn lru_get(c: &mut LruCache<String, (Vec<u32>, u128)>, k: &str) -> (r: Option<(Vec<u32>, u128)>)
    ensures
        r is Some <==> has_key(lru_entries(*old(c)), k@),
        r matches Some(v) ==> v.0@ == lru_entries(*old(c))[key_index(lru_entries(*old(c)), k@)].1,
        r matches Some(v) ==> v.1 == lru_entries(*old(c))[key_index(lru_entries(*old(c)), k@)].2,
        r matches Some(v) ==> lru_entries(*final(c)) == touch(lru_entries(*old(c)), key_index(lru_entries(*old(c)), k@)),
        r is None ==> lru_entries(*final(c)) == lru_entries(*old(c)),
        lru_capacity(*final(c)) == lru_capacity(*old(c)),
{
    c.get(k).cloned()
}

/// `LruCache::put`: stores `v` under `k` as the most recently used entry.
#[verifier::external_body]
fn lru_put(c: &mut LruCache<String, (Vec<u32>, u128)>, k: String, v: (Vec<u32>, u128))
    ensures
        lru_entries(*final(c)) == put_entry(lru_entries(*old(c)), lru_capacity(*old(c)), (k@, v.0@, v.1)),
        lru_capacity(*final(c)) == lru_capacity(*old(c)),
{
    c.put(k, v);
}

/// `LruCache::pop`: removes the entry under `k`.
#[verifier::external_body]
fn lru_pop(c: &mut LruCache<String, (Vec<u32>, u128)>, k: &str)
    ensures
        lru_entries(*final(c)) == without_key(lru_entries(*old(c)), k@),
        lru_capacity(*final(c)) == lru_capacity(*old(c)),
{
    c.pop(k);
}

/// `LruCache::len`.
#[verifier::external_body]
fn lru_len(c: &LruCache<String, (Vec<u32>, u128)>) -> (n: usize)
    ensures
        n == lru_entries(*c).len(),
{
    c.len()
}

/// `LruCache::clear`.
#[verifier::external_body]
fn lru_clear(c: &mut LruCache<String, (Vec<u32>, u128)>)
    ensures
        lru_entries(*final(c)).len() == 0,
        lru_capacity(*final(c)) == lru_capacity(*old(c)),
{
    c.clear();
}

/// `LruCache::iter`, each entry mapped to its key and expiry: most
/// recently used first.
#[verifier::external_body]
fn lru_snapshot(c: &LruCache<String, (Vec<u32>, u128)>) -> (r: Vec<(String, u128)>)
    ensures
        r@.len() == lru_entries(*c).len(),
        forall|i: int| 0 <= i < r@.len() ==> (#[trigger] r@[i]).0@ == lru_entries(*c)[r@.len() - 1 - i].0,
        forall|i: int| 0 <= i < r@.len() ==> (#[trigger] r@[i]).1 == lru_entries(*c)[r@.len() - 1 - i].2,
{
    let mut out = Vec::new();
    for (k, v) in c.iter() {
        out.push((k.clone(), v.1));
    }
    out
}

// ---------------------------------------------------------------------------
// Lemmas on entry sequences
// ---------------------------------------------------------------------------

proof fn lemma_without_absent(es: Seq<(Seq<char>, Seq<u32>, u128)>, k: Seq<char>)
    requires
        !has_key(es, k),
    ensures
        without_key(es, k) == es,
    decreases es.len(),
{
    if es.len() > 0 {
        let d = es.drop_last();
        assert(!has_key(d, k)) by {
            if has_key(d, k) {
                let i = choose|i: int| 0 <= i < d.len() && #[trigger] d[i].0 == k;
                assert(es[i].0 == k);
            }
        }
        lemma_without_absent(d, k);
        assert(es.last().0 != k) by {
            if es.last().0 == k {
                assert(es[es.len() - 1].0 == k);
            }
        }
        assert(d.push(es.last()) =~= es);
    }
}

proof fn lemma_without_sub(es: Seq<(Seq<char>, Seq<u32>, u128)>, k: Seq<char>)
    ensures
        without_key(es, k).len() <= es.len(),
        forall|i: int| 0 <= i < without_key(es, k).len() ==> #[trigger] without_key(es, k)[i].0 != k,
        forall|i: int| 0 <= i < without_key(es, k).len() ==> es.contains(#[trigger] without_key(es, k)[i]),
        keys_unique(es) ==> keys_unique(without_key(es, k)),
    decreases es.len(),
{
    if es.len() > 0 {
        let d = es.drop_last();
        lemma_without_sub(d, k);
        let w = without_key(d, k);
        assert forall|i: int| 0 <= i < w.len() implies es.contains(#[trigger] w[i]) by {
            let j = choose|j: int| 0 <= j < d.len() && d[j] == w[i];
            assert(es[j] == w[i]);
        }
        if keys_unique(es) {
            assert(keys_unique(d)) by {
                assert forall|i: int, j: int| 0 <= i < d.len() && 0 <= j < d.len() && #[trigger] d[i].0 == #[trigger] d[j].0 implies i == j by {
                    assert(es[i].0 == es[j].0);
                }
            }
            if es.last().0 != k {
                let r = w.push(es.last());
                assert forall|i: int, j: int| 0 <= i < r.len() && 0 <= j < r.len() && #[trigger] r[i].0 == #[trigger] r[j].0 implies i == j by {
                    if i < w.len() && j == w.len() {
                        let m = choose|m: int| 0 <= m < d.len() && d[m] == w[i];
                        assert(es[m].0 == es[es.len() - 1].0);
                    }
                    if j < w.len() && i == w.len() {
                        let m = choose|m: int| 0 <= m < d.len() && d[m] == w[j];
                        assert(es[m].0 == es[es.len() - 1].0);
                    }
                }
            }
        }
    }
}

proof fn lemma_touch_unique(es: Seq<(Seq<char>, Seq<u32>, u128)>, i: int)
    requires
        keys_unique(es),
        0 <= i < es.len(),
    ensures
        keys_unique(touch(es, i)),
        touch(es, i).len() == es.len(),
        without_key(touch(es, i), es[i].0) == es.remove(i),
{
    let r = es.remove(i);
    let t = r.push(es[i]);
    assert(forall|m: int| 0 <= m < r.len() ==> #[trigger] r[m] == es[if m < i { m } else { m + 1 }]);
    assert(!has_key(r, es[i].0)) by {
        if has_key(r, es[i].0) {
            let m = choose|m: int| 0 <= m < r.len() && #[trigger] r[m].0 == es[i].0;
            let src = if m < i { m } else { m + 1 };
            assert(es[src].0 == es[i].0);
        }
    }
    assert forall|a: int, b: int| 0 <= a < t.len() && 0 <= b < t.len() && #[trigger] t[a].0 == #[trigger] t[b].0 implies a == b by {
        if a < r.len() && b < r.len() {
            let sa = if a < i { a } else { a + 1 };
            let sb = if b < i { b } else { b + 1 };
            assert(es[sa].0 == es[sb].0);
        } else if a < r.len() {
            assert(r[a].0 == es[i].0);
        } else if b < r.len() {
            assert(r[b].0 == es[i].0);
        }
    }
    lemma_without_absent(r, es[i].0);
    assert(t.drop_last() =~= r);
}

proof fn lemma_put_unique(es: Seq<(Seq<char>, Seq<u32>, u128)>, cap: nat, e: (Seq<char>, Seq<u32>, u128))
    requires
        keys_unique(es),
        es.len() <= cap,
        cap > 0,
    ensures
        keys_unique(put_entry(es, cap, e)),
        put_entry(es, cap, e).len() <= cap,
        put_entry(es, cap, e).last() == e,
{
    if has_key(es, e.0) {
        let i = key_index(es, e.0);
        lemma_touch_unique(es, i);
        let r = es.remove(i);
        let t = r.push(e);
        assert forall|a: int, b: int| 0 <= a < t.len() && 0 <= b < t.len() && #[trigger] t[a].0 == #[trigger] t[b].0 implies a == b by {
            let tt = touch(es, i);
            assert(tt[a].0 == t[a].0 && tt[b].0 == t[b].0);
        }
    } else {
        let r = if es.len() == cap {
            es.drop_first()
        } else {
            es
        };
        assert(forall|m: int| 0 <= m < r.len() ==> #[trigger] r[m] == es[if es.len() == cap { m + 1 } else { m }]);
        let t = r.push(e);
        assert forall|a: int, b: int| 0 <= a < t.len() && 0 <= b < t.len() && #[trigger] t[a].0 == #[trigger] t[b].0 implies a == b by {
            let off = if es.len() == cap { 1int } else { 0int };
            if a < r.len() && b < r.len() {
                assert(es[a + off].0 == es[b + off].0);
            } else if a < r.len() {
                assert(es[a + off].0 == e.0);
            } else if b < r.len() {
                assert(es[b + off].0 == e.0);
            }
        }
    }
}

/// Dropping an expired key whose entries have all expired.
proof fn lemma_keep_drop(es: Seq<(Seq<char>, Seq<u32>, u128)>, ks: Seq<Seq<char>>, k: Seq<char>, now: u128)
    requires
        forall|i: int| 0 <= i < es.len() && #[trigger] es[i].0 == k ==> es[i].2 <= now,
    ensures
        without_key(keep_filter(es, ks, now), k) == keep_filter(es, ks.push(k), now),
    decreases es.len(),
{
    if es.len() > 0 {
        let d = es.drop_last();
        assert forall|i: int| 0 <= i < d.len() && #[trigger] d[i].0 == k implies d[i].2 <= now by {
            assert(es[i].0 == k);
        }
        lemma_keep_drop(d, ks, k, now);
        let e = es.last();
        let x = keep_filter(d, ks, now);
        assert(x.push(e).drop_last() =~= x);
        assert(ks.push(k).contains(e.0) == (ks.contains(e.0) || e.0 == k)) by {
            if ks.contains(e.0) {
                let m = choose|m: int| 0 <= m < ks.len() && ks[m] == e.0;
                assert(ks.push(k)[m] == e.0);
            }
            if e.0 == k {
                assert(ks.push(k)[ks.len() as int] == e.0);
            }
            if ks.push(k).contains(e.0) {
                let m = choose|m: int| 0 <= m < ks.push(k).len() && ks.push(k)[m] == e.0;
                if m < ks.len() {
                    assert(ks[m] == e.0);
                }
            }
        }
        if e.0 == k {
            assert(es[es.len() - 1].0 == k);
        }
    }
}

/// Passing over a key whose entries have all not expired.
proof fn lemma_keep_pass(es: Seq<(Seq<char>, Seq<u32>, u128)>, ks: Seq<Seq<char>>, k: Seq<char>, now: u128)
    requires
        forall|i: int| 0 <= i < es.len() && #[trigger] es[i].0 == k ==> es[i].2 > now,
    ensures
        keep_filter(es, ks, now) == keep_filter(es, ks.push(k), now),
    decreases es.len(),
{
    if es.len() > 0 {
        let d = es.drop_last();
        assert forall|i: int| 0 <= i < d.len() && #[trigger] d[i].0 == k implies d[i].2 > now by {
            assert(es[i].0 == k);
        }
        lemma_keep_pass(d, ks, k, now);
        let e = es.last();
        if e.2 <= now {
            assert(e.0 != k) by {
                if e.0 == k {
                    assert(es[es.len() - 1].0 == k);
                }
            }
            assert(ks.push(k).contains(e.0) == ks.contains(e.0)) by {
                if ks.contains(e.0) {
                    let m = choose|m: int| 0 <= m < ks.len() && ks[m] == e.0;
                    assert(ks.push(k)[m] == e.0);
                }
                if ks.push(k).contains(e.0) {
                    let m = choose|m: int| 0 <= m < ks.push(k).len() && ks.push(k)[m] == e.0;
                    if m < ks.len() {
                        assert(ks[m] == e.0);
                    }
                }
            }
        }
    }
}

/// Once every key has been seen, the filter keeps exactly the unexpired
/// entries.
proof fn lemma_keep_all(es: Seq<(Seq<char>, Seq<u32>, u128)>, ks: Seq<Seq<char>>, now: u128)
    requires
        forall|i: int| 0 <= i < es.len() ==> ks.contains(#[trigger] es[i].0),
    ensures
        keep_filter(es, ks, now) == unexpired(es, now),
    decreases es.len(),
{
    if es.len() > 0 {
        let d = es.drop_last();
        assert forall|i: int| 0 <= i < d.len() implies ks.contains(#[trigger] d[i].0) by {
            assert(es[i].0 == d[i].0);
        }
        lemma_keep_all(d, ks, now);
        assert(ks.contains(es[es.len() - 1].0));
    }
}

// ---------------------------------------------------------------------------
// Keys
// ---------------------------------------------------------------------------

/// `n` in lowercase hexadecimal, zero-padded to 16 digits (`{:016x}`).
pub open spec fn hex16(n: nat) -> Seq<char> {
    let h = hex_text(n);
    if h.len() < 16 {
        Seq::new((16 - h.len()) as nat, |i: int| '0') + h
    } else {
        h
    }
}

/// The key of an embedding: the model id, `:`, and the 16-digit hex
/// `DefaultHasher` hash of the text.
pub open spec fn cache_key(model_id: Seq<char>, text: Seq<char>) -> Seq<char> {
    model_id + seq![':'] + hex16(default_hash(text) as nat)
}

/// 16 to the power `k`.
pub open spec fn pow16(k: nat) -> nat
    decreases k,
{
    if k == 0 {
        1
    } else {
        16 * pow16((k - 1) as nat)
    }
}

proof fn lemma_hex_text_len(n: nat, k: nat)
    requires
        k >= 1,
        n < pow16(k),
    ensures
        hex_text(n).len() <= k,
    decreases k,
{
    if n >= 16 {
        if k == 1 {
            assert(pow16(0) == 1);
            assert(pow16(1) == 16);
        }
        assert(k >= 2);
        assert(n / 16 < pow16((k - 1) as nat));
        lemma_hex_text_len(n / 16, (k - 1) as nat);
    }
}

/// The hash part of a key is 16 characters long.
pub proof fn lemma_hex16_len(n: u64)
    ensures
        hex16(n as nat).len() == 16,
{
    assert(pow16(16) == 0x1_0000_0000_0000_0000) by {
        reveal_with_fuel(pow16, 17);
    }
    lemma_hex_text_len(n as nat, 16);
}

/// Embeddings of different models never share a key, whatever the texts.
pub proof fn lemma_models_never_share_keys(m1: Seq<char>, t1: Seq<char>, m2: Seq<char>, t2: Seq<char>)
    requires
        m1 != m2,
    ensures
        cache_key(m1, t1) != cache_key(m2, t2),
{
    lemma_hex16_len(default_hash(t1));
    lemma_hex16_len(default_hash(t2));
    let k1 = cache_key(m1, t1);
    let k2 = cache_key(m2, t2);
    if k1 == k2 {
        assert(k1.len() == m1.len() + 17);
        assert(k2.len() == m2.len() + 17);
        assert(m1.len() == m2.len());
        assert(k1.subrange(0, m1.len() as int) =~= m1);
        assert(k2.subrange(0, m2.len() as int) =~= m2);
    }
}

/// What a cache serves is what was stored last under the key: after `put`,
/// the entry under the key is the one put.
pub proof fn lemma_put_then_find(es: Seq<(Seq<char>, Seq<u32>, u128)>, cap: nat, e: (Seq<char>, Seq<u32>, u128))
    requires
        keys_unique(es),
        es.len() <= cap,
        cap > 0,
    ensures
        has_key(put_entry(es, cap, e), e.0),
        put_entry(es, cap, e)[key_index(put_entry(es, cap, e), e.0)] == e,
{
    lemma_put_unique(es, cap, e);
    let t = put_entry(es, cap, e);
    assert(t[t.len() - 1].0 == e.0);
    let i = key_index(t, e.0);
    assert(t[i].0 == t[t.len() - 1].0);
}

// ---------------------------------------------------------------------------
// The cache
// ---------------------------------------------------------------------------

/// Statistics of the cache.
pub struct CacheStats {
    /// Entries held.
    pub size: usize,
    /// Capacity.
    pub max_size: usize,
    /// Time to live of an entry, in seconds.
    pub ttl_seconds: u64,
}

/// The embedding cache.
pub struct EmbeddingCache {
    slots: LruCache<String, (Vec<u32>, u128)>,
    ttl_seconds: u64,
    max_size: usize,
    origin: Instant,
    /// The latest clock reading, in nanoseconds since `origin`.
    latest: u128,
}

/// The expiry of an entry stored at `now` with a time to live of
/// `ttl_seconds` (saturating at the largest time).
pub open spec fn expiry(now: u128, ttl_seconds: u64) -> u128 {
    if now + ttl_seconds * 1_000_000_000 > u128::MAX {
        u128::MAX
    } else {
        (now + ttl_seconds * 1_000_000_000) as u128
    }
}

impl EmbeddingCache {
    /// The entries, least recently used first.
    pub closed spec fn entries(&self) -> Seq<(Seq<char>, Seq<u32>, u128)> {
        lru_entries(self.slots)
    }

    /// The capacity.
    pub closed spec fn capacity(&self) -> nat {
        self.max_size as nat
    }

    /// The time to live, in seconds.
    pub closed spec fn ttl(&self) -> u64 {
        self.ttl_seconds
    }

    /// The latest clock reading, in nanoseconds since the cache was made.
    pub closed spec fn clock(&self) -> u128 {
        self.latest
    }

    /// The cache is well formed: unique keys, at most `capacity` entries.
    pub closed spec fn wf(&self) -> bool {
        &&& keys_unique(lru_entries(self.slots))
        &&& lru_entries(self.slots).len() <= self.max_size
        &&& lru_capacity(self.slots) == self.max_size
        &&& self.max_size > 0
    }

    /// An empty cache whose entries live `ttl_seconds` seconds, holding at
    /// most `max_size` entries.
    pub fn new(ttl_seconds: u64, max_size: usize) -> (c: Self)
        requires
            max_size > 0,
        ensures
            c.wf(),
            c.entries().len() == 0,
            c.capacity() == max_size,
            c.ttl() == ttl_seconds,
            c.clock() == 0,
    {
        EmbeddingCache { slots: lru_new(max_size), ttl_seconds, max_size, origin: clock_now(), latest: 0 }
    }

    /// The key of the embedding of `text` by `model_id`.
    pub fn key(model_id: &str, text: &str) -> (k: String)
        ensures
            k@ == cache_key(model_id@, text@),
    {
        let h = hex_string(hash_str(text));
        let mut k = copy_str(model_id);
        push_char(&mut k, ':');
        let n = h.as_str().unicode_len();
        let mut pad: usize = n;
        while pad < 16
            invariant
                n == h@.len(),
                n <= pad <= 16 || (n > 16 && pad == n),
                k@ == model_id@ + seq![':'] + Seq::new((pad - n) as nat, |i: int| '0'),
            decreases 16 - pad,
        {
            push_char(&mut k, '0');
            pad = pad + 1;
            assert(k@ =~= model_id@ + seq![':'] + Seq::new((pad - n) as nat, |i: int| '0'));
        }
        let ghost before = k@;
        k.append(h.as_str());
        proof {
            if n >= 16 {
                assert(Seq::new((pad - n) as nat, |i: int| '0') =~= Seq::<char>::empty());
                assert(k@ =~= model_id@ + seq![':'] + h@);
            } else {
                assert(k@ =~= model_id@ + seq![':'] + (Seq::new((16 - n) as nat, |i: int| '0') + h@));
            }
        }
        k
    }

    /// The embedding of `text` by `model_id` at time `now`: served and made
    /// the most recently used when present and unexpired; an expired entry
    /// is removed and missed.
    pub fn get_at(&mut self, model_id: &str, text: &str, now: u128) -> (r: Option<Vec<u32>>)
        requires
            old(self).wf(),
        ensures
            final(self).wf(),
            final(self).capacity() == old(self).capacity(),
            final(self).ttl() == old(self).ttl(),
            final(self).clock() == old(self).clock(),
            ({
                let es = old(self).entries();
                let k = cache_key(model_id@, text@);
                let i = key_index(es, k);
                &&& (r is Some <==> (has_key(es, k) && now < es[i].2))
                &&& (r matches Some(v) ==> v@ == es[i].1)
                &&& (has_key(es, k) && now < es[i].2 ==> final(self).entries() == touch(es, i))
                &&& (has_key(es, k) && now >= es[i].2 ==> final(self).entries() == es.remove(i))
                &&& (!has_key(es, k) ==> final(self).entries() == es)
            }),
    {
        let ghost es = lru_entries(self.slots);
        let k = Self::key(model_id, text);
        match lru_get(&mut self.slots, k.as_str()) {
            Some((v, exp)) => {
                proof {
                    lemma_touch_unique(es, key_index(es, k@));
                }
                if now >= exp {
                    lru_pop(&mut self.slots, k.as_str());
                    proof {
                        let i = key_index(es, k@);
                        lemma_without_sub(touch(es, i), k@);
                    }
                    None
                } else {
                    Some(v)
                }
            },
            None => None,
        }
    }

    /// Stores the embedding of `text` by `model_id` at time `now`, expiring
    /// `ttl` seconds later, as the most recently used entry; a full cache
    /// without that key first drops its least recently used entry.
    pub fn insert_at(&mut self, model_id: &str, text: &str, embedding: Vec<u32>, now: u128)
        requires
            old(self).wf(),
        ensures
            final(self).wf(),
            final(self).capacity() == old(self).capacity(),
            final(self).ttl() == old(self).ttl(),
            final(self).clock() == old(self).clock(),
            final(self).entries() == put_entry(
                old(self).entries(),
                old(self).capacity(),
                (cache_key(model_id@, text@), embedding@, expiry(now, old(self).ttl())),
            ),
    {
        let k = Self::key(model_id, text);
        let ttl_ns: u128 = (self.ttl_seconds as u128) * 1_000_000_000;
        let exp: u128 = if now > u128::MAX - ttl_ns {
            u128::MAX
        } else {
            now + ttl_ns
        };
        let ghost e = (k@, embedding@, exp);
        proof {
            lemma_put_unique(lru_entries(self.slots), self.max_size as nat, e);
        }
        lru_put(&mut self.slots, k, (embedding, exp));
    }

    /// Removes every entry that has expired at time `now`, keeping the order
    /// of the others.
    pub fn cleanup_expired_at(&mut self, now: u128)
        requires
            old(self).wf(),
        ensures
            final(self).wf(),
            final(self).capacity() == old(self).capacity(),
            final(self).ttl() == old(self).ttl(),
            final(self).clock() == old(self).clock(),
            final(self).entries() == unexpired(old(self).entries(), now),
    {
        let ghost es = lru_entries(self.slots);
        let snap = lru_snapshot(&self.slots);
        let n = snap.len();
        let ghost mut ks: Seq<Seq<char>> = Seq::empty();
        let mut j: usize = 0;
        proof {
            assert(keep_filter(es, ks, now) == es) by {
                lemma_keep_none(es, ks, now);
            }
        }
        while j < n
            invariant
                j <= n,
                n == snap@.len(),
                n == es.len(),
                keys_unique(es),
                forall|i: int| 0 <= i < n ==> (#[trigger] snap@[i]).0@ == es[n - 1 - i].0,
                forall|i: int| 0 <= i < n ==> (#[trigger] snap@[i]).1 == es[n - 1 - i].2,
                ks.len() == j,
                forall|i: int| 0 <= i < j ==> ks[i] == (#[trigger] snap@[i]).0@,
                self.wf(),
                self.max_size == old(self).max_size,
                self.ttl_seconds == old(self).ttl_seconds,
                self.latest == old(self).latest,
                lru_entries(self.slots) == keep_filter(es, ks, now),
            decreases n - j,
        {
            let ghost kj = snap@[j as int].0@;
            let ghost m = n - 1 - j;
            assert forall|i: int| 0 <= i < es.len() && #[trigger] es[i].0 == kj implies i == m by {
                assert(es[m].0 == kj);
            }
            if snap[j].1 <= now {
                proof {
                    lemma_keep_drop(es, ks, kj, now);
                    lemma_without_sub(lru_entries(self.slots), kj);
                }
                lru_pop(&mut self.slots, snap[j].0.as_str());
            } else {
                proof {
                    lemma_keep_pass(es, ks, kj, now);
                }
            }
            proof {
                ks = ks.push(kj);
            }
            j = j + 1;
        }
        proof {
            assert forall|i: int| 0 <= i < es.len() implies ks.contains(#[trigger] es[i].0) by {
                assert(snap@[n - 1 - i].0@ == es[i].0);
                assert(ks[n - 1 - i] == es[i].0);
            }
            lemma_keep_all(es, ks, now);
        }
    }

    /// The nanoseconds elapsed since the cache was made, as the monotonic
    /// clock tells them: a reading is never earlier than the one before it,
    /// so an entry once expired stays expired.
    fn now(&mut self) -> (t: u128)
        requires
            old(self).wf(),
        ensures
            t >= old(self).clock(),
            final(self).clock() == t,
            final(self).wf(),
            final(self).entries() == old(self).entries(),
            final(self).capacity() == old(self).capacity(),
            final(self).ttl() == old(self).ttl(),
    {
        let reading = whole_nanos(&time_since(&self.origin));
        if reading > self.latest {
            self.latest = reading;
        }
        self.latest
    }

    /// `get_at` at the current time.
    pub fn get(&mut self, model_id: &str, text: &str) -> (r: Option<Vec<u32>>)
        requires
            old(self).wf(),
        ensures
            final(self).wf(),
            final(self).capacity() == old(self).capacity(),
            final(self).ttl() == old(self).ttl(),
            final(self).clock() >= old(self).clock(),
            ({
                let es = old(self).entries();
                let k = cache_key(model_id@, text@);
                let i = key_index(es, k);
                let now = final(self).clock();
                &&& (r is Some <==> (has_key(es, k) && now < es[i].2))
                &&& (r matches Some(v) ==> v@ == es[i].1)
                &&& (has_key(es, k) && now < es[i].2 ==> final(self).entries() == touch(es, i))
                &&& (has_key(es, k) && now >= es[i].2 ==> final(self).entries() == es.remove(i))
                &&& (!has_key(es, k) ==> final(self).entries() == es)
            }),
    {
        let now = self.now();
        self.get_at(model_id, text, now)
    }

    /// `insert_at` at the current time.
    pub fn insert(&mut self, model_id: &str, text: &str, embedding: Vec<u32>)
        requires
            old(self).wf(),
        ensures
            final(self).wf(),
            final(self).capacity() == old(self).capacity(),
            final(self).ttl() == old(self).ttl(),
            final(self).clock() >= old(self).clock(),
            final(self).entries() == put_entry(
                old(self).entries(),
                old(self).capacity(),
                (cache_key(model_id@, text@), embedding@, expiry(final(self).clock(), old(self).ttl())),
            ),
    {
        let now = self.now();
        self.insert_at(model_id, text, embedding, now);
    }

    /// `cleanup_expired_at` at the current time.
    pub fn cleanup_expired(&mut self)
        requires
            old(self).wf(),
        ensures
            final(self).wf(),
            final(self).capacity() == old(self).capacity(),
            final(self).ttl() == old(self).ttl(),
            final(self).clock() >= old(self).clock(),
            final(self).entries() == unexpired(old(self).entries(), final(self).clock()),
    {
        let now = self.now();
        self.cleanup_expired_at(now);
    }

    /// The statistics of the cache.
    pub fn stats(&self) -> (s: CacheStats)
        ensures
            s.size == self.entries().len(),
            s.max_size == self.capacity(),
            s.ttl_seconds == self.ttl(),
    {
        CacheStats { size: lru_len(&self.slots), max_size: self.max_size, ttl_seconds: self.ttl_seconds }
    }

    /// Removes every entry.
    pub fn clear(&mut self)
        requires
            old(self).wf(),
        ensures
            final(self).wf(),
            final(self).entries().len() == 0,
            final(self).capacity() == old(self).capacity(),
            final(self).ttl() == old(self).ttl(),
            final(self).clock() == old(self).clock(),
    {
        lru_clear(&mut self.slots);
    }
}

/// Before any key is seen, the filter keeps everything.
proof fn lemma_keep_none(es: Seq<(Seq<char>, Seq<u32>, u128)>, ks: Seq<Seq<char>>, now: u128)
    requires
        ks.len() == 0,
    ensures
        keep_filter(es, ks, now) == es,
    decreases es.len(),
{
    if es.len() > 0 {
        lemma_keep_none(es.drop_last(), ks, now);
        assert(!ks.contains(es.last().0));
        assert(es.drop_last().push(es.last()) =~= es);
    }
}

impl Default for EmbeddingCache {
    fn default() -> (c: Self)
        ensures
            c.wf(),
            c.entries().len() == 0,
            c.capacity() == 10000,
            c.ttl() == 300,
            c.clock() == 0,
    {
        EmbeddingCache::new(300, 10000)
    }
}

} // verus!
