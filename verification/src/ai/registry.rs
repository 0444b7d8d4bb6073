//! Entries of the model registry (versions of models with their status and
//! train-time metrics) and the order in which the registry lists them:
//! newest first, entries created at the same moment in the order the store
//! handed them out. The store itself (SQLite) lives with the application.
use vstd::prelude::*;

verus! {

broadcast use vstd::seq_lib::to_multiset_insert;

/// One registered model version.
#[derive(Clone, Debug)]
pub struct ModelEntry {
    pub id: String,
    pub model_id: String,
    pub version: String,
    pub dim: i64,
    pub path: String,
    /// Train-time holdout metrics, as JSON text.
    pub metrics: String,
    /// `staging`, `active`, `canary` or `retired`.
    pub status: String,
    pub created_at: i64,
}

/// Where an entry created at `t` goes into `s`, a list already newest
/// first: in front of the first entry no newer than itself.
pub open spec fn entry_slot(s: Seq<ModelEntry>, t: i64) -> int
    decreases s.len(),
{
    if s.len() == 0 {
        0
    } else if s[0].created_at <= t {
        0
    } else {
        1 + entry_slot(s.drop_first(), t)
    }
}

/// The entries newest first; of two entries created at the same moment the
/// one that came first stays first.
pub open spec fn newest_first_order(s: Seq<ModelEntry>) -> Seq<ModelEntry>
    decreases s.len(),
{
    if s.len() == 0 {
        Seq::empty()
    } else {
        let rest = newest_first_order(s.drop_first());
        rest.insert(entry_slot(rest, s[0].created_at), s[0])
    }
}

/// Whether the entries are newest first.
pub open spec fn is_newest_first(s: Seq<ModelEntry>) -> bool {
    forall|i: int, j: int| 0 <= i < j < s.len() ==> s[i].created_at >= s[j].created_at
}

/// The slot is the first index whose entry is no newer than `t`.
proof fn lemma_entry_slot_at(s: Seq<ModelEntry>, t: i64, k: int)
    requires
        0 <= k <= s.len(),
        forall|j: int| 0 <= j < k ==> s[j].created_at > t,
        k == s.len() || s[k].created_at <= t,
    ensures
        entry_slot(s, t) == k,
    decreases k,
{
    if k > 0 {
        assert forall|j: int| 0 <= j < k - 1 implies s.drop_first()[j].created_at > t by {
            assert(s.drop_first()[j] == s[j + 1]);
        }
        lemma_entry_slot_at(s.drop_first(), t, k - 1);
    }
}

/// The slot lies within the list.
proof fn lemma_entry_slot_bounds(s: Seq<ModelEntry>, t: i64)
    ensures
        0 <= entry_slot(s, t) <= s.len(),
        forall|j: int| 0 <= j < entry_slot(s, t) ==> s[j].created_at > t,
    decreases s.len(),
{
    if s.len() > 0 && s[0].created_at > t {
        lemma_entry_slot_bounds(s.drop_first(), t);
        assert forall|j: int| 0 <= j < entry_slot(s, t) implies s[j].created_at > t by {
            if j > 0 {
                assert(s[j] == s.drop_first()[j - 1]);
            }
        }
    }
}

/// Putting an entry into its slot keeps a newest-first list newest first.
proof fn lemma_insert_keeps_order(s: Seq<ModelEntry>, e: ModelEntry)
    requires
        is_newest_first(s),
    ensures
        is_newest_first(s.insert(entry_slot(s, e.created_at), e)),
    decreases s.len(),
{
    lemma_entry_slot_bounds(s, e.created_at);
    let k = entry_slot(s, e.created_at);
    let r = s.insert(k, e);
    lemma_entry_slot_first_after(s, e.created_at);
    assert forall|i: int, j: int| 0 <= i < j < r.len() implies r[i].created_at >= r[j].created_at by {
        if j < k {
            assert(r[i] == s[i] && r[j] == s[j]);
        } else if j == k {
            assert(r[i] == s[i]);
        } else if i < k {
            assert(r[i] == s[i] && r[j] == s[j - 1]);
        } else if i == k {
            assert(r[j] == s[j - 1]);
            assert(s[k].created_at >= s[j - 1].created_at);
        } else {
            assert(r[i] == s[i - 1] && r[j] == s[j - 1]);
        }
    }
}

/// Where the slot is inside the list, the entry there is no newer than `t`.
proof fn lemma_entry_slot_first_after(s: Seq<ModelEntry>, t: i64)
    ensures
        entry_slot(s, t) < s.len() ==> s[entry_slot(s, t)].created_at <= t,
    decreases s.len(),
{
    if s.len() > 0 && s[0].created_at > t {
        lemma_entry_slot_first_after(s.drop_first(), t);
        lemma_entry_slot_bounds(s.drop_first(), t);
        if entry_slot(s, t) < s.len() {
            assert(s[entry_slot(s, t)] == s.drop_first()[entry_slot(s.drop_first(), t)]);
        }
    }
}

/// Listing newest first neither loses nor adds an entry, and the list it
/// gives is newest first.
pub proof fn lemma_newest_first_is_sorted_permutation(s: Seq<ModelEntry>)
    ensures
        is_newest_first(newest_first_order(s)),
        newest_first_order(s).to_multiset() == s.to_multiset(),
        newest_first_order(s).len() == s.len(),
    decreases s.len(),
{
    if s.len() > 0 {
        let rest = newest_first_order(s.drop_first());
        lemma_newest_first_is_sorted_permutation(s.drop_first());
        lemma_entry_slot_bounds(rest, s[0].created_at);
        lemma_insert_keeps_order(rest, s[0]);
        let k = entry_slot(rest, s[0].created_at);
        assert(s =~= s.drop_first().insert(0, s[0]));
        assert(s.drop_first().insert(0, s[0]).to_multiset() == s.drop_first().to_multiset().insert(
            s[0],
        ));
        assert(rest.insert(k, s[0]).to_multiset() == rest.to_multiset().insert(s[0]));
    } else {
        assert(s =~= Seq::<ModelEntry>::empty());
    }
}

/// The entries as the registry lists them: newest first, ties in the order
/// given.
pub fn newest_first(entries: Vec<ModelEntry>) -> (out: Vec<ModelEntry>)
    ensures
        out@ == newest_first_order(entries@),
{
    let ghost all = entries@;
    let mut rest = entries;
    let mut out: Vec<ModelEntry> = Vec::new();
    proof {
        assert(all.subrange(all.len() as int, all.len() as int) =~= Seq::<ModelEntry>::empty());
    }
    while rest.len() > 0
        invariant
            rest.len() <= all.len(),
            rest@ == all.subrange(0, rest.len() as int),
            out@ == newest_first_order(all.subrange(rest.len() as int, all.len() as int)),
        decreases rest.len(),
    {
        let ghost before = all.subrange(rest.len() as int, all.len() as int);
        let e = rest.pop().unwrap();
        let ghost now = all.subrange(rest.len() as int, all.len() as int);
        proof {
            assert(now[0] == e);
            assert(now.drop_first() =~= before);
            assert(rest@ =~= all.subrange(0, rest.len() as int));
        }
        let t = e.created_at;
        let mut k: usize = 0;
        while k < out.len() && out[k].created_at > t
            invariant
                k <= out.len(),
                forall|j: int| 0 <= j < k ==> out@[j].created_at > t,
            decreases out.len() - k,
        {
            k = k + 1;
        }
        proof {
            lemma_entry_slot_at(out@, t, k as int);
        }
        out.insert(k, e);
    }
    proof {
        assert(all.subrange(0, all.len() as int) =~= all);
    }
    out
}

} // verus!
