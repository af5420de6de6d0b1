//! Properties shared by all strategies.
use vstd::prelude::*;
use crate::routing::alive_backends;
use crate::strategy::adapters::fastest_response_time::{fastest_index, lemma_fastest_is_first_minimum};
use crate::strategy::adapters::least_connections::{least_loaded, lemma_least_loaded_is_first_minimum};
use crate::strategy::adapters::weighted_round_robin::{total_weight, weighted_slot};
use crate::types::{Backend, accepts_connections};

verus! {

proof fn lemma_weighted_slot_in_range(s: Seq<Backend>, target: nat, i: int)
    requires
        0 <= i <= s.len(),
        target < total_weight(s),
    ensures
        0 <= crate::strategy::adapters::weighted_round_robin::weighted_slot_from(s, target, i) < s.len(),
    decreases s.len() - i,
{
    if i < s.len() {
        lemma_weighted_slot_in_range(s, target, i + 1);
    } else {
        assert(s.len() > 0) by {
            if s.len() == 0 {
                assert(total_weight(s) == 0);
            }
        }
    }
}

/// Every strategy routes only to backends that accept connections: handed
/// the healthy backends of a routing table, each picks a position inside that
/// list, and every backend in it is alive and not draining.
pub proof fn lemma_picks_are_alive(table: Seq<Backend>, ticket: usize)
    requires
        alive_backends(table).len() > 0,
    ensures
        ({
            let s = alive_backends(table);
            &&& forall|k: int| 0 <= k < s.len() ==> accepts_connections(#[trigger] s[k])
            &&& 0 <= (ticket as int) % (s.len() as int) < s.len()
            &&& 0 <= least_loaded(s) < s.len()
            &&& 0 <= fastest_index(s) < s.len()
            &&& total_weight(s) > 0 ==> 0 <= weighted_slot(s, (ticket as nat) % total_weight(s)) < s.len()
        }),
{
    let s = alive_backends(table);
    broadcast use vstd::seq_lib::group_filter_ensures;
    assert forall|k: int| 0 <= k < s.len() implies accepts_connections(#[trigger] s[k]) by {
        table.lemma_filter_pred(|b: Backend| accepts_connections(b), k);
    }
    lemma_least_loaded_is_first_minimum(s, s.len() as int);
    lemma_fastest_is_first_minimum(s, s.len() as int);
    if total_weight(s) > 0 {
        lemma_weighted_slot_in_range(s, (ticket as nat) % total_weight(s), 0);
    }
}

} // verus!
