//! The bounded snapshot history: a least-recently-used cache from snapshot
//! timestamp to the quote strings of that snapshot, kept by the `lru`
//! crate. The cache itself is trusted: its state is named by uninterpreted
//! functions — the recency order of the keys, the key-to-value map and the
//! capacity — and each operation's contract states what the crate's source
//! shows over those names.

use vstd::prelude::*;

verus! {

/// The pair of quote strings a snapshot carries: best bid, best ask.
pub type QuotePair = (String, String);

/// The bounded snapshot history: timestamps to quote strings, least
/// recently used first out.
pub type SnapshotHistory = lru::LruCache<u64, QuotePair>;

#[verifier::external_type_specification]
#[verifier::external_body]
#[verifier::reject_recursive_types(K)]
#[verifier::reject_recursive_types(V)]
#[verifier::reject_recursive_types(S)]
pub struct ExLruCache<K, V, S>(lru::LruCache<K, V, S>);

#[verifier::external_type_specification]
#[verifier::external_body]
pub struct ExDefaultHasher(lru::DefaultHasher);

/// The keys of the history, most recently used first.
pub uninterp spec fn history_keys(h: SnapshotHistory) -> Seq<u64>;

/// What the history associates with each present key.
pub uninterp spec fn history_vals(h: SnapshotHistory) -> Map<u64, (Seq<char>, Seq<char>)>;

/// The fixed capacity the history was created with.
pub uninterp spec fn history_cap(h: SnapshotHistory) -> nat;

/// Well-formedness of the history state: the recency order lists each
/// present key exactly once and never outgrows the capacity.
pub open spec fn history_wf(h: SnapshotHistory) -> bool {
    &&& history_keys(h).no_duplicates()
    &&& history_vals(h).dom() == history_keys(h).to_set()
    &&& history_keys(h).len() <= history_cap(h)
    &&& history_cap(h) >= 1
}

/// Relies on `lru::LruCache::new`: an empty cache that holds at most `cap`
/// entries.
#[verifier::external_body]
pub(crate) fn history_new(cap: usize) -> (hist: SnapshotHistory)
    requires
        cap >= 1,
    ensures
        history_cap(hist) == cap,
        history_keys(hist).len() == 0,
        history_vals(hist).dom() == history_keys(hist).to_set(),
{
    lru::LruCache::new(core::num::NonZeroUsize::new(cap).unwrap())
}

/// Relies on `lru::LruCache::put`: an existing key is updated in place and
/// moved to the front of the recency order, returning its old value; a
/// fresh key is inserted at the front, first evicting the least recently
/// used entry when the cache is full.
#[verifier::external_body]
pub(crate) fn history_put(
    h: &mut SnapshotHistory,
    k: u64,
    v: QuotePair,
) -> (r: Option<QuotePair>)
    ensures
        history_cap(*final(h)) == history_cap(*old(h)),
        history_wf(*old(h)) ==> history_wf(*final(h)),
        history_wf(*old(h)) ==> {
            let ks = history_keys(*old(h));
            let vs = history_vals(*old(h));
            &&& (r is Some <==> ks.contains(k))
            &&& (if ks.contains(k) {
                &&& history_keys(*final(h)) == seq![k] + ks.remove_value(k)
                &&& history_vals(*final(h)) == vs.insert(k, (v.0@, v.1@))
                &&& ((r->0).0@, (r->0).1@) == vs[k]
            } else if ks.len() < history_cap(*old(h)) {
                &&& history_keys(*final(h)) == seq![k] + ks
                &&& history_vals(*final(h)) == vs.insert(k, (v.0@, v.1@))
            } else {
                &&& history_keys(*final(h)) == seq![k] + ks.drop_last()
                &&& history_vals(*final(h)) == vs.remove(ks.last()).insert(k, (v.0@, v.1@))
            })
        },
{
    h.put(k, v)
}

/// Relies on `lru::LruCache::get`: a hit hands back the stored value and
/// moves the key to the front of the recency order; a miss leaves the cache
/// as it was.
#[verifier::external_body]
pub(crate) fn history_get(h: &mut SnapshotHistory, k: u64) -> (r: Option<QuotePair>)
    ensures
        history_cap(*final(h)) == history_cap(*old(h)),
        history_wf(*old(h)) ==> history_wf(*final(h)),
        history_wf(*old(h)) ==> {
            let ks = history_keys(*old(h));
            let vs = history_vals(*old(h));
            &&& (r is Some <==> ks.contains(k))
            &&& history_vals(*final(h)) == vs
            &&& (if ks.contains(k) {
                &&& ((r->0).0@, (r->0).1@) == vs[k]
                &&& history_keys(*final(h)) == seq![k] + ks.remove_value(k)
            } else {
                history_keys(*final(h)) == ks
            })
        },
{
    h.get(&k).cloned()
}

} // verus!
