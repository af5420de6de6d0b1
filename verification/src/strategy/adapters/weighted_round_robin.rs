//! Weighted round robin: each alive backend receives a share of the tickets
//! proportional to its weight (a missing weight counts as 1).
use vstd::prelude::*;
use crate::strategy::adapters::round_robin::next_ticket;
use crate::strategy::error::StrategyError;
use crate::strategy::models::Strategy;
use crate::strategy::port::StrategyService;
use crate::types::{Backend, BackendMeta};

verus! {

/// The weight a backend counts with: its configured weight, or 1.
pub open spec fn effective_weight(b: Backend) -> nat {
    match b.meta.weight {
        Some(w) => w as nat,
        None => 1,
    }
}

/// Sum of the effective weights of the first `n` backends.
pub open spec fn weight_upto(s: Seq<Backend>, n: int) -> nat
    decreases n,
{
    if n <= 0 || n > s.len() {
        0
    } else {
        weight_upto(s, n - 1) + effective_weight(s[n - 1])
    }
}

/// Sum of all effective weights.
pub open spec fn total_weight(s: Seq<Backend>) -> nat {
    weight_upto(s, s.len() as int)
}

/// The first position at or after `i` whose cumulative weight exceeds `target`
/// (0 when there is none).
pub open spec fn weighted_slot_from(s: Seq<Backend>, target: nat, i: int) -> int
    decreases s.len() - i,
{
    if i < 0 || i >= s.len() {
        0
    } else if target < weight_upto(s, i + 1) {
        i
    } else {
        weighted_slot_from(s, target, i + 1)
    }
}

/// The position that serves slot `target` of a weighted cycle.
pub open spec fn weighted_slot(s: Seq<Backend>, target: nat) -> int {
    weighted_slot_from(s, target, 0)
}

/// Weighted round robin strategy implementation
pub struct WeightedRoundRobinStrategy {
    current_index: usize,
}

impl WeightedRoundRobinStrategy {
    /// The ticket the next successful pick will use.
    pub closed spec fn ticket(&self) -> usize {
        self.current_index
    }
}

impl Default for WeightedRoundRobinStrategy {
    fn default() -> (r: Self)
        ensures
            r.ticket() == 0,
    {
        WeightedRoundRobinStrategy { current_index: 0 }
    }
}

proof fn lemma_weight_upto_mono(s: Seq<Backend>, i: int, j: int)
    requires
        0 <= i <= j <= s.len(),
    ensures
        weight_upto(s, i) <= weight_upto(s, j),
    decreases j - i,
{
    if i < j {
        lemma_weight_upto_mono(s, i, j - 1);
    }
}

proof fn lemma_weight_upto_bound(s: Seq<Backend>, n: int)
    requires
        0 <= n <= s.len(),
    ensures
        weight_upto(s, n) <= 256 * n,
    decreases n,
{
    if n > 0 {
        lemma_weight_upto_bound(s, n - 1);
    }
}

impl StrategyService for WeightedRoundRobinStrategy {
    fn strategy(&self) -> (r: Strategy)
        ensures
            r == Strategy::WeightedRoundRobin,
    {
        Strategy::WeightedRoundRobin
    }

    /// Picks the backend serving slot `ticket % total_weight` and advances the
    /// ticket; fails without advancing when no backend is alive or all weights are 0.
    fn pick_backend(&mut self, healthy: &[Backend]) -> (r: Result<BackendMeta, StrategyError>)
        ensures
            healthy@.len() == 0 || total_weight(healthy@) == 0 ==> r == Err::<BackendMeta, StrategyError>(
                StrategyError::NoBackendAvailable,
            ) && final(self).ticket() == old(self).ticket(),
            healthy@.len() > 0 && total_weight(healthy@) > 0 ==> r == Ok::<BackendMeta, StrategyError>(
                healthy@[weighted_slot(healthy@, (old(self).ticket() as nat) % total_weight(healthy@))].meta,
            ) && final(self).ticket() == next_ticket(old(self).ticket()),
    {
        let n = healthy.len();
        if n == 0 {
            return Err(StrategyError::NoBackendAvailable);
        }
        let mut weights: Vec<u128> = Vec::new();
        let mut total: u128 = 0;
        let mut i: usize = 0;
        while i < n
            invariant
                n == healthy@.len(),
                i <= n,
                weights@.len() == i,
                forall|j: int| 0 <= j < i ==> #[trigger] weights@[j] == effective_weight(healthy@[j]),
                total == weight_upto(healthy@, i as int),
                total <= 256 * i,
            decreases n - i,
        {
            let w: u128 = match healthy[i].meta.weight {
                Some(w) => w as u128,
                None => 1,
            };
            weights.push(w);
            total = total + w;
            i = i + 1;
        }
        if total == 0 {
            return Err(StrategyError::NoBackendAvailable);
        }
        let current = self.current_index;
        self.current_index = self.current_index.wrapping_add(1);
        let target: u128 = (current as u128) % total;
        let ghost t = target as nat;
        let mut weight_sum: u128 = 0;
        let mut k: usize = 0;
        while k < n
            invariant
                n == healthy@.len(),
                weights@.len() == n,
                forall|j: int| 0 <= j < n ==> #[trigger] weights@[j] == effective_weight(healthy@[j]),
                total == weight_upto(healthy@, n as int),
                target < total,
                t == target,
                t == (current as nat) % (total as nat),
                current == old(self).ticket(),
                self.ticket() == next_ticket(current),
                k <= n,
                weight_sum == weight_upto(healthy@, k as int),
                weight_sum <= target,
                weighted_slot(healthy@, t) == weighted_slot_from(healthy@, t, k as int),
            decreases n - k,
        {
            proof { lemma_weight_upto_mono(healthy@, k as int + 1, n as int); }
            weight_sum = weight_sum + weights[k];
            if target < weight_sum {
                return Ok(healthy[k].meta.clone());
            }
            k = k + 1;
        }
        proof { assert(false); }
        Ok(healthy[0].meta.clone())
    }
}

/// The slot that serves ticket slot `target` lies in the cumulative-weight
/// interval of the backend it names.
proof fn lemma_weighted_slot_from(s: Seq<Backend>, target: nat, i: int)
    requires
        0 <= i <= s.len(),
        weight_upto(s, i) <= target < total_weight(s),
    ensures
        i <= weighted_slot_from(s, target, i) < s.len(),
        weight_upto(s, weighted_slot_from(s, target, i)) <= target < weight_upto(s, weighted_slot_from(s, target, i) + 1),
    decreases s.len() - i,
{
    if i < s.len() && target >= weight_upto(s, i + 1) {
        lemma_weighted_slot_from(s, target, i + 1);
    }
}

/// Weighted round robin is proportional: within one cycle of `total_weight`
/// slots, slot `t` goes to backend `k` exactly when `t` lies in `k`'s
/// interval of cumulative weights, an interval of `effective_weight(s[k])`
/// slots. Tickets that differ by a whole cycle go to the same backend.
pub proof fn lemma_weighted_share(s: Seq<Backend>, k: int, t: nat, c: nat)
    requires
        0 <= k < s.len(),
        t < total_weight(s),
    ensures
        weighted_slot(s, t) == k <==> weight_upto(s, k) <= t < weight_upto(s, k + 1),
        weight_upto(s, k + 1) == weight_upto(s, k) + effective_weight(s[k]),
        (c + total_weight(s)) % total_weight(s) == c % total_weight(s),
{
    lemma_weighted_slot_from(s, t, 0);
    let p = weighted_slot(s, t);
    if p < k {
        lemma_weight_upto_mono(s, p + 1, k);
    } else if p > k {
        lemma_weight_upto_mono(s, k + 1, p);
    }
    vstd::arithmetic::div_mod::lemma_mod_add_multiples_vanish(c as int, total_weight(s) as int);
}

/// Whether ticket `t` goes to position `k`.
pub open spec fn ticket_goes_to(s: Seq<Backend>, k: int, t: nat) -> bool {
    weighted_slot(s, t % total_weight(s)) == k
}

/// How many of the `n` consecutive tickets starting at `c` go to position `k`.
pub open spec fn picks_of(s: Seq<Backend>, k: int, c: nat, n: nat) -> nat
    decreases n,
{
    if n == 0 {
        0
    } else {
        picks_of(s, k, c, (n - 1) as nat) + (if ticket_goes_to(s, k, (c + n - 1) as nat) { 1nat } else { 0nat })
    }
}

proof fn lemma_picks_first_cycle(s: Seq<Backend>, k: int, n: nat)
    requires
        0 <= k < s.len(),
        n <= total_weight(s),
    ensures
        ({
            let a = weight_upto(s, k) as int;
            let b = weight_upto(s, k + 1) as int;
            let m = if (n as int) < b { n as int } else { b };
            picks_of(s, k, 0, n) == (if m > a { m - a } else { 0 })
        }),
    decreases n,
{
    lemma_weight_upto_mono(s, k + 1, s.len() as int);
    if n > 0 {
        lemma_picks_first_cycle(s, k, (n - 1) as nat);
        let t = (n - 1) as nat;
        vstd::arithmetic::div_mod::lemma_small_mod(t, total_weight(s));
        lemma_weighted_share(s, k, t, 0);
    }
}

proof fn lemma_picks_split_first(s: Seq<Backend>, k: int, c: nat, n: nat)
    ensures
        picks_of(s, k, c, n + 1) == (if ticket_goes_to(s, k, c) { 1nat } else { 0nat }) + picks_of(s, k, c + 1, n),
    decreases n,
{
    let first: nat = if ticket_goes_to(s, k, c) { 1nat } else { 0nat };
    let last: nat = if ticket_goes_to(s, k, (c + n) as nat) { 1nat } else { 0nat };
    assert(picks_of(s, k, c, n + 1) == picks_of(s, k, c, n) + last);
    if n == 0 {
        assert(picks_of(s, k, c, 0) == 0);
        assert(picks_of(s, k, c + 1, 0) == 0);
    } else {
        lemma_picks_split_first(s, k, c, (n - 1) as nat);
        assert(picks_of(s, k, c, n) == first + picks_of(s, k, c + 1, (n - 1) as nat));
        assert(picks_of(s, k, c + 1, n) == picks_of(s, k, c + 1, (n - 1) as nat) + last);
    }
}

proof fn lemma_picks_shift(s: Seq<Backend>, k: int, c: nat)
    requires
        total_weight(s) > 0,
    ensures
        picks_of(s, k, c + 1, total_weight(s)) == picks_of(s, k, c, total_weight(s)),
{
    let w = total_weight(s);
    lemma_picks_split_first(s, k, c, w);
    assert(picks_of(s, k, c, w + 1) == picks_of(s, k, c, w) + (if ticket_goes_to(s, k, (c + w) as nat) { 1nat } else { 0nat }));
    vstd::arithmetic::div_mod::lemma_mod_add_multiples_vanish(c as int, w as int);
    assert((c + w) as nat % w == c % w);
}

proof fn lemma_picks_any_start(s: Seq<Backend>, k: int, c: nat)
    requires
        total_weight(s) > 0,
    ensures
        picks_of(s, k, c, total_weight(s)) == picks_of(s, k, 0, total_weight(s)),
    decreases c,
{
    if c > 0 {
        lemma_picks_any_start(s, k, (c - 1) as nat);
        lemma_picks_shift(s, k, (c - 1) as nat);
    }
}

/// Over any `total_weight` consecutive tickets (one whole cycle), weighted
/// round robin sends exactly `effective_weight(s[k])` picks to each backend
/// `k`; a backend of weight 0 is never picked.
pub proof fn lemma_weighted_cycle_count(s: Seq<Backend>, k: int, c: nat)
    requires
        0 <= k < s.len(),
        total_weight(s) > 0,
    ensures
        picks_of(s, k, c, total_weight(s)) == effective_weight(s[k]),
{
    lemma_picks_any_start(s, k, c);
    lemma_picks_first_cycle(s, k, total_weight(s));
    lemma_weight_upto_mono(s, k + 1, s.len() as int);
    lemma_weight_upto_mono(s, k, k + 1);
}

/// Sum of the configured weights of the first `n` backends, a missing weight
/// counting as 1.
pub open spec fn configured_weight_sum(s: Seq<Backend>, n: int) -> nat
    decreases n,
{
    if n <= 0 || n > s.len() {
        0
    } else {
        configured_weight_sum(s, n - 1) + match s[n - 1].meta.weight {
            Some(w) => w as nat,
            None => 1nat,
        }
    }
}

proof fn lemma_weights_are_configured(s: Seq<Backend>, n: int)
    requires
        0 <= n <= s.len(),
    ensures
        weight_upto(s, n) == configured_weight_sum(s, n),
    decreases n,
{
    if n > 0 {
        lemma_weights_are_configured(s, n - 1);
    }
}

/// Weighted round robin follows the configured weights alone: over any
/// cycle of consecutive tickets as long as the sum of the configured weights
/// (a missing weight counting as 1), backend `k` is picked exactly its
/// configured weight times (1 when it has none, never when it is 0), whatever
/// the backends' open connections or other runtime state.
pub proof fn lemma_weighted_counts_follow_configuration(s: Seq<Backend>, k: int, c: nat)
    requires
        0 <= k < s.len(),
        configured_weight_sum(s, s.len() as int) > 0,
    ensures
        total_weight(s) == configured_weight_sum(s, s.len() as int),
        picks_of(s, k, c, configured_weight_sum(s, s.len() as int)) == (match s[k].meta.weight {
            Some(w) => w as nat,
            None => 1nat,
        }),
{
    lemma_weights_are_configured(s, s.len() as int);
    lemma_weighted_cycle_count(s, k, c);
}

proof fn lemma_slot_from_same_metas(s1: Seq<Backend>, s2: Seq<Backend>, target: nat, i: int)
    requires
        s1.len() == s2.len(),
        forall|j: int| 0 <= j < s1.len() ==> (#[trigger] s1[j]).meta == s2[j].meta,
    ensures
        weighted_slot_from(s1, target, i) == weighted_slot_from(s2, target, i),
    decreases s1.len() - i,
{
    if 0 <= i < s1.len() {
        lemma_weights_are_configured(s1, i + 1);
        lemma_weights_are_configured(s2, i + 1);
        lemma_configured_sum_same_metas(s1, s2, i + 1);
        lemma_slot_from_same_metas(s1, s2, target, i + 1);
    }
}

proof fn lemma_configured_sum_same_metas(s1: Seq<Backend>, s2: Seq<Backend>, n: int)
    requires
        s1.len() == s2.len(),
        forall|j: int| 0 <= j < s1.len() ==> (#[trigger] s1[j]).meta == s2[j].meta,
    ensures
        configured_weight_sum(s1, n) == configured_weight_sum(s2, n),
    decreases n,
{
    if n > 0 && n <= s1.len() {
        assert(s1[n - 1].meta == s2[n - 1].meta);
        lemma_configured_sum_same_metas(s1, s2, n - 1);
    }
}

/// Which backend a ticket goes to depends only on the backends' descriptions
/// (their configured weights), not on their health, open connections or
/// metrics: two lists with the same descriptions in the same order have the
/// same total weight and send every ticket to the same position.
pub proof fn lemma_weighted_pick_ignores_runtime_state(s1: Seq<Backend>, s2: Seq<Backend>, ticket: nat)
    requires
        s1.len() == s2.len(),
        forall|j: int| 0 <= j < s1.len() ==> (#[trigger] s1[j]).meta == s2[j].meta,
    ensures
        total_weight(s1) == total_weight(s2),
        total_weight(s1) > 0 ==> weighted_slot(s1, ticket % total_weight(s1)) == weighted_slot(
            s2,
            ticket % total_weight(s2),
        ),
{
    lemma_weights_are_configured(s1, s1.len() as int);
    lemma_weights_are_configured(s2, s2.len() as int);
    lemma_configured_sum_same_metas(s1, s2, s1.len() as int);
    if total_weight(s1) > 0 {
        lemma_slot_from_same_metas(s1, s2, ticket % total_weight(s1), 0);
    }
}

} // verus!
