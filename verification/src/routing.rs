//! The routing table: the runtime state of every configured backend.
use vstd::prelude::*;
use crate::types::{
    Backend, BackendConfig, BackendId, BackendMeta, accepts_connections, fresh_backend, with_connection_closed,
    with_connection_opened, with_health, with_request,
};

verus! {

/// Index of the first backend at or after `i` whose id is `id`, or -1.
pub open spec fn id_position_from(s: Seq<Backend>, id: BackendId, i: int) -> int
    decreases s.len() - i,
{
    if i < 0 || i >= s.len() {
        -1
    } else if s[i].meta.id == id {
        i
    } else {
        id_position_from(s, id, i + 1)
    }
}

/// Index of the first backend whose id is `id`, or -1 when there is none.
pub open spec fn id_position(s: Seq<Backend>, id: BackendId) -> int {
    id_position_from(s, id, 0)
}

/// Total number of open connections over the first `n` backends.
pub open spec fn connections_upto(s: Seq<Backend>, n: int) -> nat
    decreases n,
{
    if n <= 0 || n > s.len() {
        0
    } else {
        connections_upto(s, n - 1) + (s[n - 1].active_connections as nat)
    }
}

/// Total number of open connections over all backends.
pub open spec fn total_connections(s: Seq<Backend>) -> nat {
    connections_upto(s, s.len() as int)
}

/// The backends that may receive new connections (alive and not draining),
/// in table order.
pub open spec fn alive_backends(s: Seq<Backend>) -> Seq<Backend> {
    s.filter(|b: Backend| accepts_connections(b))
}

/// The description a configuration entry gives a backend.
pub open spec fn config_meta(c: BackendConfig) -> BackendMeta {
    BackendMeta { id: c.id, name: c.name, address: c.address, weight: c.weight }
}

/// Whether some entry of `configs` has the id `id`.
pub open spec fn configures_id(configs: Seq<BackendConfig>, id: BackendId) -> bool {
    exists|j: int| 0 <= j < configs.len() && (#[trigger] configs[j]).id == id
}

/// A backend of a new configuration after a migration: when the old table
/// has a backend with its id, the first such backend keeps its health, load
/// and metrics under the new description and stops draining; otherwise the
/// backend starts fresh.
pub open spec fn migrated_backend(old: Seq<Backend>, c: BackendConfig) -> Backend {
    let p = id_position(old, c.id);
    if p >= 0 {
        Backend { meta: config_meta(c), draining: false, ..old[p] }
    } else {
        fresh_backend(config_meta(c))
    }
}

/// Whether an old backend stays in the table to drain: the new
/// configuration drops its id and it still has open connections.
pub open spec fn stays_to_drain(configs: Seq<BackendConfig>, b: Backend) -> bool {
    !configures_id(configs, b.meta.id) && b.active_connections > 0
}

/// A backend marked as draining.
pub open spec fn as_draining(b: Backend) -> Backend {
    Backend { draining: true, ..b }
}

/// The table after a migration to `configs`: one backend per entry, in
/// order (see [`migrated_backend`]), followed by the old backends that stay
/// to drain, in table order, marked as draining.
pub open spec fn migrated_table(old: Seq<Backend>, configs: Seq<BackendConfig>) -> Seq<Backend> {
    configs.map_values(|c: BackendConfig| migrated_backend(old, c)) + old.filter(
        |b: Backend| stays_to_drain(configs, b),
    ).map_values(|b: Backend| as_draining(b))
}

/// Whether a backend has finished draining: it is draining and has no open
/// connection left.
pub open spec fn drained(b: Backend) -> bool {
    b.draining && b.active_connections == 0
}

/// Whether some entry of `configs` has the id `id`.
pub fn configures(configs: &Vec<BackendConfig>, id: BackendId) -> (r: bool)
    ensures
        r == configures_id(configs@, id),
{
    let n = configs.len();
    let mut i: usize = 0;
    while i < n
        invariant
            n == configs@.len(),
            i <= n,
            forall|j: int| 0 <= j < i ==> (#[trigger] configs@[j]).id != id,
        decreases n - i,
    {
        if configs[i].id == id {
            return true;
        }
        i = i + 1;
    }
    false
}

/// `id_position_from` finds the first matching index, if any.
pub proof fn lemma_id_position_from(s: Seq<Backend>, id: BackendId, i: int)
    requires
        0 <= i <= s.len(),
    ensures
        ({
            let p = id_position_from(s, id, i);
            &&& -1 <= p < s.len()
            &&& p >= 0 ==> i <= p && s[p].meta.id == id && forall|j: int| i <= j < p ==> s[j].meta.id != id
            &&& p == -1 ==> forall|j: int| i <= j < s.len() ==> s[j].meta.id != id
        }),
    decreases s.len() - i,
{
    if i < s.len() && s[i].meta.id != id {
        lemma_id_position_from(s, id, i + 1);
    }
}

/// `id_position` is the first index holding `id`, or -1 when no backend has that id.
pub proof fn lemma_id_position(s: Seq<Backend>, id: BackendId)
    ensures
        -1 <= id_position(s, id) < s.len(),
        id_position(s, id) >= 0 ==> s[id_position(s, id)].meta.id == id
            && forall|j: int| 0 <= j < id_position(s, id) ==> s[j].meta.id != id,
        id_position(s, id) == -1 ==> forall|j: int| 0 <= j < s.len() ==> s[j].meta.id != id,
{
    lemma_id_position_from(s, id, 0);
}

/// Routing table over the configured backends.
pub struct RouteTable {
    /// Backends in configuration order
    pub backends: Vec<Backend>,
}

impl RouteTable {
    /// A table of freshly registered backends, one per metadata entry, in order.
    pub fn new(metas: Vec<BackendMeta>) -> (r: Self)
        ensures
            r.backends@ == metas@.map_values(|m: BackendMeta| fresh_backend(m)),
    {
        let mut backends: Vec<Backend> = Vec::new();
        let n = metas.len();
        let mut i: usize = 0;
        while i < n
            invariant
                n == metas@.len(),
                i <= n,
                backends@ == metas@.take(i as int).map_values(|m: BackendMeta| fresh_backend(m)),
            decreases n - i,
        {
            backends.push(Backend::new(metas[i].clone()));
            assert(metas@.take(i + 1) =~= metas@.take(i as int).push(metas@[i as int]));
            i = i + 1;
        }
        assert(metas@.take(n as int) =~= metas@);
        RouteTable { backends }
    }

    /// A table built from configuration entries.
    pub fn from_configs(configs: &Vec<BackendConfig>) -> (r: Self)
        ensures
            r.backends@.len() == configs@.len(),
            forall|i: int| 0 <= i < configs@.len() ==> #[trigger] r.backends@[i] == fresh_backend(
                BackendMeta {
                    id: configs@[i].id,
                    name: configs@[i].name,
                    address: configs@[i].address,
                    weight: configs@[i].weight,
                },
            ),
    {
        let mut metas: Vec<BackendMeta> = Vec::new();
        let n = configs.len();
        let mut i: usize = 0;
        while i < n
            invariant
                n == configs@.len(),
                i <= n,
                metas@.len() == i,
                forall|j: int| 0 <= j < i ==> #[trigger] metas@[j] == (BackendMeta {
                    id: configs@[j].id,
                    name: configs@[j].name,
                    address: configs@[j].address,
                    weight: configs@[j].weight,
                }),
            decreases n - i,
        {
            metas.push(configs[i].to_meta());
            i = i + 1;
        }
        Self::new(metas)
    }

    /// Number of backends.
    pub fn len(&self) -> (r: usize)
        ensures
            r == self.backends@.len(),
    {
        self.backends.len()
    }

    /// Position of the first backend with the given id.
    pub fn find_index(&self, id: BackendId) -> (r: Option<usize>)
        ensures
            match r {
                Some(i) => i == id_position(self.backends@, id),
                None => id_position(self.backends@, id) == -1,
            },
    {
        let n = self.backends.len();
        let mut i: usize = 0;
        while i < n
            invariant
                n == self.backends@.len(),
                i <= n,
                id_position(self.backends@, id) == id_position_from(self.backends@, id, i as int),
            decreases n - i,
        {
            if self.backends[i].meta.id == id {
                return Some(i);
            }
            i = i + 1;
        }
        None
    }

    /// The first backend with the given id.
    pub fn get(&self, id: BackendId) -> (r: Option<&Backend>)
        ensures
            match r {
                Some(b) => id_position(self.backends@, id) >= 0 && *b == self.backends@[id_position(self.backends@, id)],
                None => id_position(self.backends@, id) == -1,
            },
    {
        proof { lemma_id_position(self.backends@, id); }
        match self.find_index(id) {
            Some(i) => Some(&self.backends[i]),
            None => None,
        }
    }

    /// The backends that may receive new connections (alive and not
    /// draining), in table order.
    pub fn healthy_backends(&self) -> (r: Vec<Backend>)
        ensures
            r@ == alive_backends(self.backends@),
    {
        let ghost pred = |b: Backend| accepts_connections(b);
        let mut r: Vec<Backend> = Vec::new();
        let n = self.backends.len();
        let mut i: usize = 0;
        while i < n
            invariant
                n == self.backends@.len(),
                i <= n,
                pred == (|b: Backend| accepts_connections(b)),
                r@ == self.backends@.take(i as int).filter(pred),
            decreases n - i,
        {
            reveal_with_fuel(Seq::<_>::filter, 1);
            assert(self.backends@.take(i + 1).drop_last() =~= self.backends@.take(i as int));
            if self.backends[i].can_accept_new_connections() {
                r.push(self.backends[i].clone());
            }
            i = i + 1;
        }
        assert(self.backends@.take(n as int) =~= self.backends@);
        r
    }

    /// Records a health update for the first backend with the given id and
    /// returns whether it was alive before; `None` when no backend has that id.
    pub fn set_health(&mut self, id: BackendId, healthy: bool, now_ms: u64) -> (r: Option<bool>)
        ensures
            ({
                let p = id_position(old(self).backends@, id);
                if p >= 0 {
                    &&& r == Some(old(self).backends@[p].alive)
                    &&& final(self).backends@ == old(self).backends@.update(p, with_health(old(self).backends@[p], healthy, now_ms))
                } else {
                    &&& r is None
                    &&& final(self).backends@ == old(self).backends@
                }
            }),
    {
        proof { lemma_id_position(self.backends@, id); }
        match self.find_index(id) {
            Some(i) => {
                let mut b = self.backends[i].clone();
                let was = b.alive;
                b.set_health(healthy, now_ms);
                self.backends.set(i, b);
                Some(was)
            },
            None => None,
        }
    }

    /// Records a completed request for the first backend with the given id;
    /// returns whether such a backend exists.
    pub fn record_request(&mut self, id: BackendId, latency_ms: u64, is_error: bool) -> (r: bool)
        ensures
            ({
                let p = id_position(old(self).backends@, id);
                &&& r == (p >= 0)
                &&& p >= 0 ==> final(self).backends@ == old(self).backends@.update(p, with_request(old(self).backends@[p], latency_ms, is_error))
                &&& p < 0 ==> final(self).backends@ == old(self).backends@
            }),
    {
        proof { lemma_id_position(self.backends@, id); }
        match self.find_index(id) {
            Some(i) => {
                let mut b = self.backends[i].clone();
                b.record_request(latency_ms, is_error);
                self.backends.set(i, b);
                true
            },
            None => false,
        }
    }

    /// Counts a new connection to the first backend with the given id.
    pub fn increment_connection(&mut self, id: BackendId) -> (r: bool)
        ensures
            ({
                let p = id_position(old(self).backends@, id);
                &&& r == (p >= 0)
                &&& p >= 0 ==> final(self).backends@ == old(self).backends@.update(p, with_connection_opened(old(self).backends@[p]))
                &&& p < 0 ==> final(self).backends@ == old(self).backends@
            }),
    {
        proof { lemma_id_position(self.backends@, id); }
        match self.find_index(id) {
            Some(i) => {
                let mut b = self.backends[i].clone();
                b.increment_connection();
                self.backends.set(i, b);
                true
            },
            None => false,
        }
    }

    /// Counts a closed connection of the first backend with the given id.
    pub fn decrement_connection(&mut self, id: BackendId) -> (r: bool)
        ensures
            ({
                let p = id_position(old(self).backends@, id);
                &&& r == (p >= 0)
                &&& p >= 0 ==> final(self).backends@ == old(self).backends@.update(p, with_connection_closed(old(self).backends@[p]))
                &&& p < 0 ==> final(self).backends@ == old(self).backends@
            }),
    {
        proof { lemma_id_position(self.backends@, id); }
        match self.find_index(id) {
            Some(i) => {
                let mut b = self.backends[i].clone();
                b.decrement_connection();
                self.backends.set(i, b);
                true
            },
            None => false,
        }
    }

    /// Stamps every backend with the time of the latest metrics refresh.
    pub fn update_metrics_timestamps(&mut self, now_ms: u64)
        ensures
            final(self).backends@.len() == old(self).backends@.len(),
            forall|i: int| 0 <= i < old(self).backends@.len() ==> #[trigger] final(self).backends@[i]
                == (Backend { metrics_updated_ms: now_ms, ..old(self).backends@[i] }),
    {
        let n = self.backends.len();
        let mut i: usize = 0;
        while i < n
            invariant
                n == self.backends@.len(),
                n == old(self).backends@.len(),
                i <= n,
                forall|j: int| 0 <= j < i ==> #[trigger] self.backends@[j]
                    == (Backend { metrics_updated_ms: now_ms, ..old(self).backends@[j] }),
                forall|j: int| i <= j < n ==> #[trigger] self.backends@[j] == old(self).backends@[j],
            decreases n - i,
        {
            let mut b = self.backends[i].clone();
            b.update_metrics_timestamp(now_ms);
            self.backends.set(i, b);
            i = i + 1;
        }
    }

    /// The table for a new configuration (see [`migrated_table`]): the
    /// backends the configuration keeps carry their runtime state over, new
    /// ones start fresh, and dropped backends that still have open
    /// connections stay, draining, until those connections close.
    pub fn migrate(&self, configs: &Vec<BackendConfig>) -> (r: RouteTable)
        ensures
            r.backends@ == migrated_table(self.backends@, configs@),
    {
        let ghost old_table = self.backends@;
        let ghost mf = |c: BackendConfig| migrated_backend(old_table, c);
        let mut backends: Vec<Backend> = Vec::new();
        let n = configs.len();
        let mut i: usize = 0;
        while i < n
            invariant
                n == configs@.len(),
                i <= n,
                old_table == self.backends@,
                mf == (|c: BackendConfig| migrated_backend(old_table, c)),
                backends@ == configs@.take(i as int).map_values(mf),
            decreases n - i,
        {
            proof { lemma_id_position(self.backends@, configs@[i as int].id); }
            let meta = configs[i].to_meta();
            let b = match self.find_index(meta.id) {
                Some(p) => {
                    let mut b = self.backends[p].clone();
                    b.meta = meta;
                    b.draining = false;
                    b
                },
                None => Backend::new(meta),
            };
            backends.push(b);
            assert(configs@.take(i + 1) =~= configs@.take(i as int).push(configs@[i as int]));
            assert(configs@.take(i + 1).map_values(mf) =~= configs@.take(i as int).map_values(mf).push(mf(configs@[i as int])));
            i = i + 1;
        }
        assert(configs@.take(n as int) =~= configs@);
        let ghost head = backends@;
        let ghost pred = |b: Backend| stays_to_drain(configs@, b);
        let ghost df = |b: Backend| as_draining(b);
        let m = self.backends.len();
        let mut j: usize = 0;
        while j < m
            invariant
                m == self.backends@.len(),
                j <= m,
                pred == (|b: Backend| stays_to_drain(configs@, b)),
                df == (|b: Backend| as_draining(b)),
                backends@ == head + self.backends@.take(j as int).filter(pred).map_values(df),
            decreases m - j,
        {
            reveal_with_fuel(Seq::<_>::filter, 1);
            let ghost before = self.backends@.take(j as int).filter(pred);
            assert(self.backends@.take(j + 1).drop_last() =~= self.backends@.take(j as int));
            if self.backends[j].active_connections > 0 && !configures(configs, self.backends[j].meta.id) {
                let mut d = self.backends[j].clone();
                d.draining = true;
                backends.push(d);
                assert(before.push(self.backends@[j as int]).map_values(df) =~= before.map_values(df).push(
                    df(self.backends@[j as int]),
                ));
            }
            j = j + 1;
        }
        assert(self.backends@.take(m as int) =~= self.backends@);
        RouteTable { backends }
    }

    /// Drops the backends that have finished draining.
    pub fn prune_drained(&mut self)
        ensures
            final(self).backends@ == old(self).backends@.filter(|b: Backend| !drained(b)),
    {
        let ghost pred = |b: Backend| !drained(b);
        let mut kept: Vec<Backend> = Vec::new();
        let n = self.backends.len();
        let mut i: usize = 0;
        while i < n
            invariant
                n == self.backends@.len(),
                i <= n,
                pred == (|b: Backend| !drained(b)),
                kept@ == self.backends@.take(i as int).filter(pred),
            decreases n - i,
        {
            reveal_with_fuel(Seq::<_>::filter, 1);
            assert(self.backends@.take(i + 1).drop_last() =~= self.backends@.take(i as int));
            if !(self.backends[i].draining && self.backends[i].active_connections == 0) {
                kept.push(self.backends[i].clone());
            }
            i = i + 1;
        }
        assert(self.backends@.take(n as int) =~= self.backends@);
        self.backends = kept;
    }

    /// Total number of open connections, capped at `usize::MAX`.
    pub fn total_active_connections(&self) -> (r: usize)
        ensures
            r == (if total_connections(self.backends@) > usize::MAX { usize::MAX as nat } else {
                total_connections(self.backends@)
            }),
    {
        let n = self.backends.len();
        let mut total: usize = 0;
        let mut i: usize = 0;
        while i < n
            invariant
                n == self.backends@.len(),
                i <= n,
                total == (if connections_upto(self.backends@, i as int) > usize::MAX { usize::MAX as nat } else {
                    connections_upto(self.backends@, i as int)
                }),
            decreases n - i,
        {
            total = total.saturating_add(self.backends[i].active_connections);
            i = i + 1;
        }
        total
    }
}

/// A migration drops no open connection: an old backend with open
/// connections whose id the new configuration drops stays in the table,
/// draining, with its connections; when the configuration keeps the id, the
/// entry for it carries over the connections of the first old backend with
/// that id. The draining backends of the new table are exactly those that
/// follow the configured ones, each with open connections and an id the
/// configuration drops, and only configured backends accept new connections.
pub proof fn lemma_migration_keeps_connections(old: Seq<Backend>, configs: Seq<BackendConfig>, k: int)
    requires
        0 <= k < old.len(),
        old[k].active_connections > 0,
    ensures
        ({
            let t = migrated_table(old, configs);
            let id = old[k].meta.id;
            &&& !configures_id(configs, id) ==> t.contains(as_draining(old[k]))
            &&& configures_id(configs, id) ==> exists|i: int|
                0 <= i < configs.len() && (#[trigger] configs[i]).id == id && t[i].meta == config_meta(configs[i])
                    && t[i].active_connections == old[id_position(old, id)].active_connections
                    && 0 <= id_position(old, id) <= k
            &&& forall|i: int| configs.len() <= i < t.len() ==> (#[trigger] t[i]).draining
                && t[i].active_connections > 0 && !configures_id(configs, t[i].meta.id)
            &&& forall|i: int| 0 <= i < t.len() && accepts_connections(#[trigger] t[i]) ==> i < configs.len()
        }),
{
    let t = migrated_table(old, configs);
    let id = old[k].meta.id;
    let pred = |b: Backend| stays_to_drain(configs, b);
    let df = |b: Backend| as_draining(b);
    let head = configs.map_values(|c: BackendConfig| migrated_backend(old, c));
    let tail = old.filter(pred);
    assert(t == head + tail.map_values(df));
    lemma_id_position(old, id);
    if !configures_id(configs, id) {
        old.lemma_filter_contains(pred, k);
        let q = choose|q: int| 0 <= q < tail.len() && tail[q] == old[k];
        assert(t[head.len() + q] == as_draining(old[k]));
    } else {
        let i = choose|i: int| 0 <= i < configs.len() && (#[trigger] configs[i]).id == id;
        assert(t[i] == migrated_backend(old, configs[i]));
    }
    assert forall|i: int| configs.len() <= i < t.len() implies (#[trigger] t[i]).draining
        && t[i].active_connections > 0 && !configures_id(configs, t[i].meta.id) by {
        old.lemma_filter_pred(pred, i - configs.len());
    }
    assert forall|i: int| 0 <= i < t.len() && accepts_connections(#[trigger] t[i]) implies i < configs.len() by {
        if i >= configs.len() {
            assert(t[i] == as_draining(tail[i - configs.len()]));
        }
    }
}

} // verus!
