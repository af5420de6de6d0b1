//! Least connections: the alive backend with the fewest open connections.
use vstd::prelude::*;
use crate::strategy::error::StrategyError;
use crate::strategy::models::Strategy;
use crate::strategy::port::StrategyService;
use crate::types::{Backend, BackendMeta};

verus! {

/// Position of the first backend with the fewest open connections among the
/// first `n` (0 when `n <= 1`).
pub open spec fn least_loaded_upto(s: Seq<Backend>, n: int) -> int
    decreases n,
{
    if n <= 1 {
        0
    } else {
        let k = least_loaded_upto(s, n - 1);
        if s[n - 1].active_connections < s[k].active_connections {
            n - 1
        } else {
            k
        }
    }
}

/// Position of the first backend with the fewest open connections.
pub open spec fn least_loaded(s: Seq<Backend>) -> int {
    least_loaded_upto(s, s.len() as int)
}

/// Least connections strategy implementation
pub struct LeastConnectionsStrategy {}

impl Default for LeastConnectionsStrategy {
    fn default() -> (r: Self) {
        LeastConnectionsStrategy {}
    }
}

impl StrategyService for LeastConnectionsStrategy {
    fn strategy(&self) -> (r: Strategy)
        ensures
            r == Strategy::LeastConnections,
    {
        Strategy::LeastConnections
    }

    /// Picks the first alive backend with the fewest open connections.
    fn pick_backend(&mut self, healthy: &[Backend]) -> (r: Result<BackendMeta, StrategyError>)
        ensures
            healthy@.len() == 0 ==> r == Err::<BackendMeta, StrategyError>(StrategyError::NoBackendAvailable),
            healthy@.len() > 0 ==> r == Ok::<BackendMeta, StrategyError>(healthy@[least_loaded(healthy@)].meta),
    {
        let n = healthy.len();
        if n == 0 {
            return Err(StrategyError::NoBackendAvailable);
        }
        let mut best: usize = 0;
        let mut i: usize = 1;
        while i < n
            invariant
                n == healthy@.len(),
                1 <= i <= n,
                best == least_loaded_upto(healthy@, i as int),
                best < i,
            decreases n - i,
        {
            if healthy[i].active_connections < healthy[best].active_connections {
                best = i;
            }
            i = i + 1;
        }
        Ok(healthy[best].meta.clone())
    }
}

/// The backend least connections picks carries the fewest open connections of
/// all alive backends, and every backend before it carries strictly more.
pub proof fn lemma_least_loaded_is_first_minimum(s: Seq<Backend>, n: int)
    requires
        1 <= n <= s.len(),
    ensures
        0 <= least_loaded_upto(s, n) < n,
        forall|j: int| 0 <= j < n ==> s[least_loaded_upto(s, n)].active_connections <= #[trigger] s[j].active_connections,
        forall|j: int| 0 <= j < least_loaded_upto(s, n) ==> s[least_loaded_upto(s, n)].active_connections < #[trigger] s[j].active_connections,
    decreases n,
{
    if n > 1 {
        lemma_least_loaded_is_first_minimum(s, n - 1);
    }
}

} // verus!
