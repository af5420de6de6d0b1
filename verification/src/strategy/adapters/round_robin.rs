//! Round robin: cycle through the alive backends in order.
use vstd::prelude::*;
use crate::strategy::error::StrategyError;
use crate::strategy::models::Strategy;
use crate::strategy::port::StrategyService;
use crate::types::{Backend, BackendMeta};

verus! {

/// The ticket that follows `t` (wrapping at `usize::MAX`, as an atomic
/// `fetch_add` does).
pub open spec fn next_ticket(t: usize) -> usize {
    if t == usize::MAX { 0 } else { (t + 1) as usize }
}

/// Round robin strategy implementation
pub struct RoundRobinStrategy {
    counter: usize,
}

impl RoundRobinStrategy {
    /// The ticket the next successful pick will use.
    pub closed spec fn ticket(&self) -> usize {
        self.counter
    }
}

impl Default for RoundRobinStrategy {
    fn default() -> (r: Self)
        ensures
            r.ticket() == 0,
    {
        RoundRobinStrategy { counter: 0 }
    }
}

impl StrategyService for RoundRobinStrategy {
    fn strategy(&self) -> (r: Strategy)
        ensures
            r == Strategy::RoundRobin,
    {
        Strategy::RoundRobin
    }

    /// Picks the alive backend at position `ticket % len` and advances the ticket.
    fn pick_backend(&mut self, healthy: &[Backend]) -> (r: Result<BackendMeta, StrategyError>)
        ensures
            healthy@.len() == 0 ==> r == Err::<BackendMeta, StrategyError>(StrategyError::NoBackendAvailable)
                && final(self).ticket() == old(self).ticket(),
            healthy@.len() > 0 ==> r == Ok::<BackendMeta, StrategyError>(
                healthy@[(old(self).ticket() as int) % (healthy@.len() as int)].meta,
            ) && final(self).ticket() == next_ticket(old(self).ticket()),
    {
        let n = healthy.len();
        if n == 0 {
            return Err(StrategyError::NoBackendAvailable);
        }
        let idx = self.counter % n;
        self.counter = self.counter.wrapping_add(1);
        Ok(healthy[idx].meta.clone())
    }
}

/// Round robin distributes evenly: over `n` consecutive tickets that do not
/// wrap, the `n` picks land on `n` distinct positions of an `n`-backend list,
/// so every alive backend is chosen exactly once per cycle.
pub proof fn lemma_round_robin_cycle(t: int, n: int, i: int, j: int)
    requires
        t >= 0,
        n > 0,
        0 <= i < n,
        0 <= j < n,
        i != j,
    ensures
        (t + i) % n != (t + j) % n,
        0 <= (t + i) % n < n,
{
    let a = t + i;
    let b = t + j;
    vstd::arithmetic::div_mod::lemma_fundamental_div_mod(a, n);
    vstd::arithmetic::div_mod::lemma_fundamental_div_mod(b, n);
    vstd::arithmetic::div_mod::lemma_mod_bound(a, n);
    if a % n == b % n {
        let d = a / n - b / n;
        vstd::arithmetic::mul::lemma_mul_is_distributive_sub(n, a / n, b / n);
        assert(n * d == a - b);
        if d >= 1 {
            assert(n * d >= n) by (nonlinear_arith) requires d >= 1, n > 0;
        } else if d <= -1 {
            assert(n * d <= -n) by (nonlinear_arith) requires d <= -1, n > 0;
        }
        assert(d == 0);
    }
}

} // verus!
