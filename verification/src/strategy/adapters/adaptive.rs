//! Score cache of the adaptive strategy.
//!
//! The adaptive strategy computes a score per backend (lower is better) and
//! caches it for a short time. A cached score is served only while it is no
//! older than the cache TTL and while the metrics and connection versions it
//! was computed under are still current. Scores are stored by their IEEE-754
//! bit pattern (`f64::to_bits`), which the cache never interprets.
use vstd::prelude::*;
use dashmap::DashMap;
use std::hash::RandomState;
use crate::strategy::error::StrategyError;
use crate::types::{Backend, BackendId, BackendMeta};

verus! {

/// Default cache TTL in milliseconds
pub const DEFAULT_CACHE_TTL_MS: u64 = 100;

/// Cached score for a backend
#[derive(Debug, Clone, Copy, PartialEq, Eq, Structural)]
pub struct CachedScore {
    /// Computed score, as the bit pattern of an `f64` (lower score is better)
    pub score_bits: u64,
    /// Timestamp when score was computed (milliseconds)
    pub computed_at: u64,
    /// Metrics version at computation time
    pub metrics_version: u64,
    /// Connections version at computation time
    pub connections_version: u64,
}

#[verifier::external_type_specification]
#[verifier::external_body]
#[verifier::reject_recursive_types(K)]
#[verifier::reject_recursive_types(V)]
#[verifier::reject_recursive_types(S)]
pub struct ExDashMap<K, V, S>(DashMap<K, V, S>);

/// The map type holding cached scores.
pub type ScoreMap = DashMap<BackendId, CachedScore, RandomState>;

/// The entries a score map holds, as a map from key to value.
pub uninterp spec fn score_entries(m: ScoreMap) -> Map<BackendId, CachedScore>;

/// `DashMap::new`. Claimed: the new map holds no entry.
#[verifier::external_body]
fn score_map_new() -> (fresh: ScoreMap)
    ensures
        score_entries(fresh).is_empty(),
{
    DashMap::new()
}

/// `DashMap::get`. Claimed: the result is present exactly when the map holds
/// `key`, and is then (a copy of) the value stored under it. The cache holds
/// no guard into the map while calling it, so the call cannot deadlock.
#[verifier::external_body]
fn score_map_get(m: &ScoreMap, key: BackendId) -> (r: Option<CachedScore>)
    ensures
        r is Some <==> score_entries(*m).dom().contains(key),
        r matches Some(v) ==> v == score_entries(*m)[key],
{
    match m.get(&key) {
        Some(entry) => Some(*entry),
        None => None,
    }
}

/// `DashMap::insert`. Claimed: afterwards the map holds `value` under `key`
/// and is otherwise unchanged (a previous value under `key` is replaced).
#[verifier::external_body]
fn score_map_insert(m: &mut ScoreMap, key: BackendId, value: CachedScore)
    ensures
        score_entries(*final(m)) == score_entries(*old(m)).insert(key, value),
{
    m.insert(key, value);
}

/// Cache for adaptive strategy scores
pub struct AdaptiveCache {
    scores: ScoreMap,
    metrics_version: u64,
    connections_version: u64,
    ttl_ms: u64,
}

/// Whether an entry may still be served at `now_ms`: not older than the TTL
/// (a clock that went backwards counts as age 0) and computed under the
/// current versions.
pub open spec fn entry_is_fresh(
    entry: CachedScore,
    now_ms: u64,
    ttl_ms: u64,
    metrics_version: u64,
    connections_version: u64,
) -> bool {
    &&& age_at(now_ms, entry.computed_at) <= ttl_ms
    &&& entry.metrics_version == metrics_version
    &&& entry.connections_version == connections_version
}

impl AdaptiveCache {
    /// The cached entries.
    pub closed spec fn entries(&self) -> Map<BackendId, CachedScore> {
        score_entries(self.scores)
    }

    /// The cache TTL in milliseconds.
    pub closed spec fn ttl(&self) -> u64 {
        self.ttl_ms
    }

    /// The current metrics version.
    pub closed spec fn metrics_ver(&self) -> u64 {
        self.metrics_version
    }

    /// The current connections version.
    pub closed spec fn connections_ver(&self) -> u64 {
        self.connections_version
    }

    /// The score `get` serves for `backend_id` at `now_ms`.
    pub open spec fn lookup(&self, backend_id: BackendId, now_ms: u64) -> Option<u64> {
        if self.entries().dom().contains(backend_id) && entry_is_fresh(
            self.entries()[backend_id],
            now_ms,
            self.ttl(),
            self.metrics_ver(),
            self.connections_ver(),
        ) {
            Some(self.entries()[backend_id].score_bits)
        } else {
            None
        }
    }

    /// Create a new adaptive cache
    pub fn new(ttl_ms: u64) -> (r: Self)
        ensures
            r.entries() == Map::<BackendId, CachedScore>::empty(),
            r.ttl() == ttl_ms,
            r.metrics_ver() == 0,
            r.connections_ver() == 0,
    {
        AdaptiveCache { scores: score_map_new(), metrics_version: 0, connections_version: 0, ttl_ms }
    }

    /// Get cached score for a backend if valid
    pub fn get(&self, backend_id: BackendId, now_ms: u64) -> (r: Option<u64>)
        ensures
            r == self.lookup(backend_id, now_ms),
    {
        let cached = match score_map_get(&self.scores, backend_id) {
            Some(c) => c,
            None => return None,
        };
        let age = now_ms.saturating_sub(cached.computed_at);
        if age > self.ttl_ms {
            return None;
        }
        if cached.metrics_version != self.metrics_version || cached.connections_version
            != self.connections_version {
            return None;
        }
        Some(cached.score_bits)
    }

    /// Store a score in cache
    pub fn put(&mut self, backend_id: BackendId, score_bits: u64, now_ms: u64)
        ensures
            final(self).entries() == old(self).entries().insert(
                backend_id,
                CachedScore {
                    score_bits,
                    computed_at: now_ms,
                    metrics_version: old(self).metrics_ver(),
                    connections_version: old(self).connections_ver(),
                },
            ),
            final(self).ttl() == old(self).ttl(),
            final(self).metrics_ver() == old(self).metrics_ver(),
            final(self).connections_ver() == old(self).connections_ver(),
    {
        let cached = CachedScore {
            score_bits,
            computed_at: now_ms,
            metrics_version: self.metrics_version,
            connections_version: self.connections_version,
        };
        score_map_insert(&mut self.scores, backend_id, cached);
    }

    /// Records a metrics update: the metrics version goes up by one
    /// (wrapping), which invalidates every score computed before.
    pub fn bump_metrics_version(&mut self)
        ensures
            final(self).metrics_ver() == old(self).metrics_ver().wrapping_add(1),
            final(self).connections_ver() == old(self).connections_ver(),
            final(self).entries() == old(self).entries(),
            final(self).ttl() == old(self).ttl(),
    {
        self.metrics_version = self.metrics_version.wrapping_add(1);
    }

    /// Records a change of the open connections: the connections version
    /// goes up by one (wrapping), which invalidates every score computed before.
    pub fn bump_connections_version(&mut self)
        ensures
            final(self).connections_ver() == old(self).connections_ver().wrapping_add(1),
            final(self).metrics_ver() == old(self).metrics_ver(),
            final(self).entries() == old(self).entries(),
            final(self).ttl() == old(self).ttl(),
    {
        self.connections_version = self.connections_version.wrapping_add(1);
    }
}

impl Default for AdaptiveCache {
    fn default() -> (r: Self)
        ensures
            r.entries() == Map::<BackendId, CachedScore>::empty(),
            r.ttl() == DEFAULT_CACHE_TTL_MS,
            r.metrics_ver() == 0,
            r.connections_ver() == 0,
    {
        Self::new(DEFAULT_CACHE_TTL_MS)
    }
}

/// The pick the adaptive strategy makes without scoring: no alive backend is
/// an error, a single alive backend is picked as it is, and with several
/// (`None`) the backends are scored.
pub fn adaptive_shortcut(healthy: &[Backend]) -> (r: Option<Result<BackendMeta, StrategyError>>)
    ensures
        healthy@.len() == 0 ==> r == Some(Err::<BackendMeta, StrategyError>(StrategyError::NoBackendAvailable)),
        healthy@.len() == 1 ==> r == Some(Ok::<BackendMeta, StrategyError>(healthy@[0].meta)),
        healthy@.len() > 1 ==> r is None,
{
    if healthy.len() == 1 {
        Some(Ok(healthy[0].meta.clone()))
    } else if healthy.len() == 0 {
        Some(Err(StrategyError::NoBackendAvailable))
    } else {
        None
    }
}

/// A score put into the cache is served back at any time from `now_ms` to
/// `now_ms + ttl` (and to a clock that went backwards), is no longer served
/// once it is older than the TTL, and a put leaves the other backends' entries
/// as they were.
pub proof fn lemma_cache_read_after_write(
    before: AdaptiveCache,
    after: AdaptiveCache,
    backend_id: BackendId,
    other: BackendId,
    score_bits: u64,
    put_at: u64,
    read_at: u64,
)
    requires
        after.entries() == before.entries().insert(
            backend_id,
            CachedScore {
                score_bits,
                computed_at: put_at,
                metrics_version: before.metrics_ver(),
                connections_version: before.connections_ver(),
            },
        ),
        after.ttl() == before.ttl(),
        after.metrics_ver() == before.metrics_ver(),
        after.connections_ver() == before.connections_ver(),
        other != backend_id,
    ensures
        read_at <= put_at + after.ttl() ==> after.lookup(backend_id, read_at) == Some(score_bits),
        read_at > put_at + after.ttl() ==> after.lookup(backend_id, read_at) is None,
        after.lookup(other, read_at) == before.lookup(other, read_at),
{
    assert(after.entries().dom().contains(backend_id));
}

/// The age of an entry computed at `computed_at`, read at `now_ms` (a clock
/// that went backwards counts as age 0).
pub open spec fn age_at(now_ms: u64, computed_at: u64) -> int {
    if now_ms >= computed_at { now_ms - computed_at } else { 0 }
}

/// The entries a cache holds after the puts `puts` (each a backend, a score
/// and the time of the put), made in order on an empty cache under the
/// versions `mv` and `cv`.
pub open spec fn entries_after(puts: Seq<(BackendId, u64, u64)>, mv: u64, cv: u64) -> Map<BackendId, CachedScore>
    decreases puts.len(),
{
    if puts.len() == 0 {
        Map::empty()
    } else {
        let p = puts.last();
        entries_after(puts.drop_last(), mv, cv).insert(
            p.0,
            CachedScore { score_bits: p.1, computed_at: p.2, metrics_version: mv, connections_version: cv },
        )
    }
}

/// The score and time of the last put for `backend_id` in `puts`, if any.
pub open spec fn last_put(puts: Seq<(BackendId, u64, u64)>, backend_id: BackendId) -> Option<(u64, u64)>
    decreases puts.len(),
{
    if puts.len() == 0 {
        None
    } else if puts.last().0 == backend_id {
        Some((puts.last().1, puts.last().2))
    } else {
        last_put(puts.drop_last(), backend_id)
    }
}

/// A new cache holds the entries of no put, and each `put` appends itself to
/// the history of puts the cache holds the entries of.
pub proof fn lemma_cache_history_step(
    before: AdaptiveCache,
    after: AdaptiveCache,
    puts: Seq<(BackendId, u64, u64)>,
    backend_id: BackendId,
    score_bits: u64,
    now_ms: u64,
)
    requires
        before.entries() == entries_after(puts, before.metrics_ver(), before.connections_ver()),
        after.entries() == before.entries().insert(
            backend_id,
            CachedScore {
                score_bits,
                computed_at: now_ms,
                metrics_version: before.metrics_ver(),
                connections_version: before.connections_ver(),
            },
        ),
        after.metrics_ver() == before.metrics_ver(),
        after.connections_ver() == before.connections_ver(),
    ensures
        entries_after(Seq::empty(), before.metrics_ver(), before.connections_ver())
            == Map::<BackendId, CachedScore>::empty(),
        after.entries() == entries_after(
            puts.push((backend_id, score_bits, now_ms)),
            after.metrics_ver(),
            after.connections_ver(),
        ),
{
    let next = puts.push((backend_id, score_bits, now_ms));
    assert(next.drop_last() =~= puts);
}

/// After any sequence of puts, `get` serves for a backend the score of its
/// last put while that put is no older than the TTL, and nothing when the
/// backend was never put or its last put is older than the TTL; puts for
/// other backends do not change the answer.
pub proof fn lemma_cache_history(c: AdaptiveCache, puts: Seq<(BackendId, u64, u64)>, backend_id: BackendId, now_ms: u64)
    requires
        c.entries() == entries_after(puts, c.metrics_ver(), c.connections_ver()),
    ensures
        c.lookup(backend_id, now_ms) == (match last_put(puts, backend_id) {
            None => None,
            Some((s, t)) => if age_at(now_ms, t) <= c.ttl() { Some(s) } else { None },
        }),
{
    lemma_entries_after(puts, backend_id, c.metrics_ver(), c.connections_ver());
}

proof fn lemma_entries_after(puts: Seq<(BackendId, u64, u64)>, backend_id: BackendId, mv: u64, cv: u64)
    ensures
        entries_after(puts, mv, cv).dom().contains(backend_id) <==> last_put(puts, backend_id) is Some,
        last_put(puts, backend_id) matches Some((s, t)) ==> entries_after(puts, mv, cv)[backend_id] == (
        CachedScore { score_bits: s, computed_at: t, metrics_version: mv, connections_version: cv }),
    decreases puts.len(),
{
    if puts.len() > 0 {
        lemma_entries_after(puts.drop_last(), backend_id, mv, cv);
    }
}

/// A version bump invalidates the cache: after the metrics or the
/// connections version went up, no score that was served before is served
/// any more, at any time, until it is put again; the entries themselves are
/// kept.
pub proof fn lemma_cache_bump_invalidates(before: AdaptiveCache, after: AdaptiveCache, backend_id: BackendId, t0: u64, t1: u64)
    requires
        after.entries() == before.entries(),
        after.ttl() == before.ttl(),
        (after.metrics_ver() == before.metrics_ver().wrapping_add(1) && after.connections_ver()
            == before.connections_ver()) || (after.connections_ver() == before.connections_ver().wrapping_add(1)
            && after.metrics_ver() == before.metrics_ver()),
    ensures
        before.lookup(backend_id, t0) is Some ==> after.lookup(backend_id, t1) is None,
{
}

} // verus!
