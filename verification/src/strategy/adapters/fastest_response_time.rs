//! Fastest response time: the alive backend with the lowest average latency.
use vstd::prelude::*;
use crate::strategy::error::StrategyError;
use crate::strategy::models::Strategy;
use crate::strategy::port::StrategyService;
use crate::types::{Backend, BackendMeta, has_latency, latency_below};

verus! {

/// Among the first `n` backends, the position of the first one with the lowest
/// average latency, counting only backends that have latency measurements.
pub open spec fn fastest_upto(s: Seq<Backend>, n: int) -> Option<int>
    decreases n,
{
    if n <= 0 {
        None
    } else {
        let prev = fastest_upto(s, n - 1);
        if !has_latency(s[n - 1]) {
            prev
        } else {
            match prev {
                None => Some(n - 1),
                Some(k) => if latency_below(s[n - 1], s[k]) { Some(n - 1) } else { Some(k) },
            }
        }
    }
}

/// The position fastest response time picks: the fastest measured backend,
/// or the first backend when none has measurements.
pub open spec fn fastest_index(s: Seq<Backend>) -> int {
    match fastest_upto(s, s.len() as int) {
        Some(k) => k,
        None => 0,
    }
}

/// Fastest response time strategy
pub struct FastestResponseTimeStrategy {}

impl Default for FastestResponseTimeStrategy {
    fn default() -> (r: Self) {
        FastestResponseTimeStrategy {}
    }
}

impl StrategyService for FastestResponseTimeStrategy {
    fn strategy(&self) -> (r: Strategy)
        ensures
            r == Strategy::FastestResponseTime,
    {
        Strategy::FastestResponseTime
    }

    /// Picks the first alive backend with the lowest average latency among
    /// those with measurements, falling back to the first alive backend.
    fn pick_backend(&mut self, healthy: &[Backend]) -> (r: Result<BackendMeta, StrategyError>)
        ensures
            healthy@.len() == 0 ==> r == Err::<BackendMeta, StrategyError>(StrategyError::NoBackendAvailable),
            healthy@.len() > 0 ==> r == Ok::<BackendMeta, StrategyError>(healthy@[fastest_index(healthy@)].meta),
    {
        let n = healthy.len();
        if n == 0 {
            return Err(StrategyError::NoBackendAvailable);
        }
        let mut best: Option<usize> = None;
        let mut i: usize = 0;
        while i < n
            invariant
                n == healthy@.len(),
                i <= n,
                match best {
                    Some(k) => fastest_upto(healthy@, i as int) == Some(k as int) && k < i,
                    None => fastest_upto(healthy@, i as int) is None,
                },
            decreases n - i,
        {
            if healthy[i].has_latency() {
                match best {
                    None => {
                        best = Some(i);
                    },
                    Some(k) => {
                        if healthy[i].latency_below(&healthy[k]) {
                            best = Some(i);
                        }
                    },
                }
            }
            i = i + 1;
        }
        match best {
            Some(k) => Ok(healthy[k].meta.clone()),
            None => Ok(healthy[0].meta.clone()),
        }
    }
}

/// Comparing average latencies exactly is transitive, and so is its negation.
proof fn lemma_latency_order(a: Backend, b: Backend, c: Backend)
    requires
        has_latency(a),
        has_latency(b),
        has_latency(c),
    ensures
        latency_below(a, b) && latency_below(b, c) ==> latency_below(a, c),
        !latency_below(a, b) && !latency_below(b, c) ==> !latency_below(a, c),
        latency_below(a, b) && !latency_below(c, b) ==> latency_below(a, c),
{
    let (ta, ca) = (a.latency_total_ms as int, a.request_count as int);
    let (tb, cb) = (b.latency_total_ms as int, b.request_count as int);
    let (tc, cc) = (c.latency_total_ms as int, c.request_count as int);
    assert(ta * cb < tb * ca && tb * cc < tc * cb ==> ta * cc < tc * ca) by (nonlinear_arith)
        requires ca > 0, cb > 0, cc > 0, ta > 0, tb > 0, tc > 0;
    assert(ta * cb >= tb * ca && tb * cc >= tc * cb ==> ta * cc >= tc * ca) by (nonlinear_arith)
        requires ca > 0, cb > 0, cc > 0, ta > 0, tb > 0, tc > 0;
    assert(ta * cb < tb * ca && tc * cb >= tb * cc ==> ta * cc < tc * ca) by (nonlinear_arith)
        requires ca > 0, cb > 0, cc > 0, ta > 0, tb > 0, tc > 0;
}

/// The backend fastest response time picks has measurements whenever any
/// alive backend has them; no measured backend is strictly faster, and every
/// measured backend before it is strictly slower.
pub proof fn lemma_fastest_is_first_minimum(s: Seq<Backend>, n: int)
    requires
        0 <= n <= s.len(),
    ensures
        match fastest_upto(s, n) {
            Some(k) => {
                &&& 0 <= k < n
                &&& has_latency(s[k])
                &&& forall|j: int| 0 <= j < n && has_latency(s[j]) ==> !latency_below(#[trigger] s[j], s[k])
                &&& forall|j: int| 0 <= j < k && has_latency(s[j]) ==> latency_below(s[k], #[trigger] s[j])
            },
            None => forall|j: int| 0 <= j < n ==> !has_latency(#[trigger] s[j]),
        },
    decreases n,
{
    if n > 0 {
        lemma_fastest_is_first_minimum(s, n - 1);
        match fastest_upto(s, n - 1) {
            Some(k) => {
                if has_latency(s[n - 1]) {
                    if latency_below(s[n - 1], s[k]) {
                        assert forall|j: int| 0 <= j < n && has_latency(s[j]) implies !latency_below(#[trigger] s[j], s[n - 1]) by {
                            if j < n - 1 {
                                lemma_latency_order(s[j], s[n - 1], s[k]);
                                lemma_latency_order(s[n - 1], s[k], s[j]);
                            }
                        }
                        assert forall|j: int| 0 <= j < n - 1 && has_latency(s[j]) implies latency_below(s[n - 1], #[trigger] s[j]) by {
                            lemma_latency_order(s[n - 1], s[k], s[j]);
                            assert(!latency_below(s[j], s[k]));
                        }
                    }
                }
            },
            None => {},
        }
    }
}

} // verus!
