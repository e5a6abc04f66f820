//! The result cache: a store of previously computed aggregate results,
//! keyed by identifier, each entry valid for a fixed time-to-live after the
//! moment it was stored.
//!
//! An expired entry is not deleted, only ignored by lookups and superseded
//! by the next write for the same identifier. Entries for distinct
//! identifiers accumulate for the life of the process.

use vstd::prelude::*;
use vstd::pervasive::VecAdditionalExecFns;

use crate::engine::ReconResult;
use crate::engine::ScanResultModel;

verus! {

/// Mathematical model of one cache entry: when it was stored, and what.
#[verifier::ext_equal]
pub struct CacheEntryModel {
    pub stored_at: u64,
    pub result: ScanResultModel,
}

/// An entry is valid at `now`: stored no later than `now`, and the
/// time-to-live has not yet elapsed.
pub open spec fn fresh_at(e: CacheEntryModel, now: u64, ttl: u64) -> bool {
    e.stored_at <= now && now - e.stored_at < ttl
}

/// What a lookup at time `now` yields from the modelled store: the entry's
/// result if the key is present and still valid, nothing otherwise.
pub open spec fn cache_lookup(
    m: Map<Seq<char>, CacheEntryModel>,
    key: Seq<char>,
    now: u64,
    ttl: u64,
) -> Option<ScanResultModel> {
    if m.contains_key(key) && fresh_at(m[key], now, ttl) {
        Some(m[key].result)
    } else {
        None
    }
}

/// The map that a sequence of keyed entries denotes; a later entry for the
/// same key supersedes an earlier one.
pub open spec fn entries_map(s: Seq<(String, u64, ReconResult)>) -> Map<
    Seq<char>,
    CacheEntryModel,
>
    decreases s.len(),
{
    if s.len() == 0 {
        Map::empty()
    } else {
        entries_map(s.drop_last()).insert(
            s.last().0@,
            CacheEntryModel { stored_at: s.last().1, result: s.last().2@ },
        )
    }
}

/// No two entries carry the same key.
pub open spec fn keys_unique(s: Seq<(String, u64, ReconResult)>) -> bool {
    forall|i: int, j: int| 0 <= i < j < s.len() ==> s[i].0@ != s[j].0@
}

/// An entry's key is a key of the denoted map, mapped to that entry.
proof fn lemma_map_of_index(s: Seq<(String, u64, ReconResult)>, i: int)
    requires
        keys_unique(s),
        0 <= i < s.len(),
    ensures
        entries_map(s).contains_key(s[i].0@),
        entries_map(s)[s[i].0@] == (CacheEntryModel { stored_at: s[i].1, result: s[i].2@ }),
    decreases s.len(),
{
    if i == s.len() - 1 {
    } else {
        assert(s.drop_last()[i] == s[i]);
        lemma_map_of_index(s.drop_last(), i);
    }
}

/// A key that no entry carries is no key of the denoted map.
proof fn lemma_map_no_key(s: Seq<(String, u64, ReconResult)>, key: Seq<char>)
    requires
        forall|i: int| 0 <= i < s.len() ==> s[i].0@ != key,
    ensures
        !entries_map(s).contains_key(key),
    decreases s.len(),
{
    if s.len() > 0 {
        lemma_map_no_key(s.drop_last(), key);
    }
}

/// Overwriting the entry at `i` in place denotes insertion of its key.
proof fn lemma_map_update(
    s: Seq<(String, u64, ReconResult)>,
    i: int,
    e: (String, u64, ReconResult),
)
    requires
        keys_unique(s),
        0 <= i < s.len(),
        e.0@ == s[i].0@,
    ensures
        keys_unique(s.update(i, e)),
        entries_map(s.update(i, e)) == entries_map(s).insert(
            e.0@,
            CacheEntryModel { stored_at: e.1, result: e.2@ },
        ),
    decreases s.len(),
{
    let t = s.update(i, e);
    let em = CacheEntryModel { stored_at: e.1, result: e.2@ };
    if i == s.len() - 1 {
        assert(t.drop_last() =~= s.drop_last());
        assert(entries_map(s).insert(e.0@, em) =~= entries_map(s.drop_last()).insert(e.0@, em));
    } else {
        assert(t.drop_last() =~= s.drop_last().update(i, e));
        lemma_map_update(s.drop_last(), i, e);
        let lastk = s.last().0@;
        let laste = CacheEntryModel { stored_at: s.last().1, result: s.last().2@ };
        assert(s[i].0@ != lastk);
        assert(t.last() == s.last());
        assert(entries_map(t) == entries_map(s.drop_last()).insert(e.0@, em).insert(lastk, laste));
        assert(entries_map(s.drop_last()).insert(e.0@, em).insert(lastk, laste) =~= entries_map(
            s,
        ).insert(e.0@, em));
    }
}

/// The cache: entries with pairwise distinct identifiers, denoting a map
/// from identifier to its most recently stored entry.
#[derive(Debug)]
pub struct ResultCache {
    entries: Vec<(String, u64, ReconResult)>,
}

impl View for ResultCache {
    type V = Map<Seq<char>, CacheEntryModel>;

    closed spec fn view(&self) -> Map<Seq<char>, CacheEntryModel> {
        entries_map(self.entries@)
    }
}

impl ResultCache {
    /// The cache's invariant: one entry per identifier.
    pub closed spec fn wf(&self) -> bool {
        keys_unique(self.entries@)
    }

    /// An empty cache.
    pub fn new() -> (r: Self)
        ensures
            r.wf(),
            r@ == Map::<Seq<char>, CacheEntryModel>::empty(),
    {
        ResultCache { entries: Vec::new() }
    }

    /// Looks the identifier up at time `now_ms`: the stored result while
    /// the entry is valid, nothing otherwise. A stale entry is left in
    /// place, not deleted.
    pub fn get(&self, key: &str, now_ms: u64, ttl_ms: u64) -> (r: Option<ReconResult>)
        requires
            self.wf(),
        ensures
            r matches Some(v) ==> cache_lookup(self@, key@, now_ms, ttl_ms) == Some(v@),
            r is None ==> cache_lookup(self@, key@, now_ms, ttl_ms) is None,
    {
        let owned = key.to_owned();
        let n = self.entries.len();
        let mut i: usize = 0;
        while i < n
            invariant
                self.wf(),
                n == self.entries@.len(),
                i <= n,
                owned@ == key@,
                forall|j: int| 0 <= j < i ==> self.entries@[j].0@ != key@,
            decreases n - i,
        {
            let entry = &self.entries[i];
            if entry.0 == owned {
                proof {
                    lemma_map_of_index(self.entries@, i as int);
                }
                if entry.1 <= now_ms && now_ms - entry.1 < ttl_ms {
                    return Some(entry.2.clone());
                } else {
                    return None;
                }
            }
            i += 1;
        }
        proof {
            lemma_map_no_key(self.entries@, key@);
        }
        None
    }

    /// Stores the result for the identifier at time `now_ms`, superseding
    /// any earlier entry for it.
    pub fn put(&mut self, key: String, now_ms: u64, value: ReconResult)
        requires
            old(self).wf(),
        ensures
            final(self).wf(),
            final(self)@ == old(self)@.insert(
                key@,
                CacheEntryModel { stored_at: now_ms, result: value@ },
            ),
    {
        let n = self.entries.len();
        let mut i: usize = 0;
        while i < n
            invariant
                self.wf(),
                self == old(self),
                n == self.entries@.len(),
                i <= n,
                forall|j: int| 0 <= j < i ==> self.entries@[j].0@ != key@,
            decreases n - i,
        {
            if self.entries[i].0 == key {
                proof {
                    lemma_map_update(self.entries@, i as int, (key, now_ms, value));
                }
                self.entries.set(i, (key, now_ms, value));
                return ;
            }
            i += 1;
        }
        proof {
            assert(self.entries@.push((key, now_ms, value)).drop_last() =~= self.entries@);
        }
        self.entries.push((key, now_ms, value));
    }
}

/// Law: a result stored at `t0` is returned unchanged by a lookup at any
/// `t1` within the time-to-live window — the scan that finds it does no
/// probing at all.
pub proof fn lemma_cached_within_ttl(
    m: Map<Seq<char>, CacheEntryModel>,
    key: Seq<char>,
    r: ScanResultModel,
    t0: u64,
    t1: u64,
    ttl: u64,
)
    requires
        t0 <= t1,
        t1 - t0 < ttl,
    ensures
        cache_lookup(m.insert(key, CacheEntryModel { stored_at: t0, result: r }), key, t1, ttl)
            == Some(r),
{
}

/// Law: once the time-to-live has elapsed, the stored result is no longer
/// returned, so the next cache-using scan probes afresh.
pub proof fn lemma_cached_expired(
    m: Map<Seq<char>, CacheEntryModel>,
    key: Seq<char>,
    r: ScanResultModel,
    t0: u64,
    t1: u64,
    ttl: u64,
)
    requires
        t0 <= t1,
        t1 - t0 >= ttl,
    ensures
        cache_lookup(m.insert(key, CacheEntryModel { stored_at: t0, result: r }), key, t1, ttl)
            is None,
{
}

} // verus!
