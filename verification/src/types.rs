//! Backend descriptions and the routing table that tracks their runtime state.
use vstd::prelude::*;

verus! {

/// Backend identifier.
pub type BackendId = u8;

/// Copies an optional string.
pub fn clone_opt_string(s: &Option<String>) -> (r: Option<String>)
    ensures
        r == *s,
{
    match s {
        Some(t) => Some(t.clone()),
        None => None,
    }
}

/// Static description of a backend: identity, display name, address and weight.
#[derive(Debug, PartialEq, Eq)]
pub struct BackendMeta {
    /// Backend identifier
    pub id: BackendId,
    /// Optional display name
    pub name: Option<String>,
    /// Network address, `host:port`
    pub address: String,
    /// Optional weight (weighted strategies treat a missing weight as 1)
    pub weight: Option<u8>,
}

impl Clone for BackendMeta {
    fn clone(&self) -> (r: Self)
        ensures
            r == *self,
    {
        BackendMeta {
            id: self.id,
            name: clone_opt_string(&self.name),
            address: self.address.clone(),
            weight: self.weight,
        }
    }
}

impl BackendMeta {
    /// Creates backend metadata.
    pub fn new(id: BackendId, name: Option<String>, address: String, weight: Option<u8>) -> (r: Self)
        ensures
            r.id == id,
            r.name == name,
            r.address == address,
            r.weight == weight,
    {
        BackendMeta { id, name, address, weight }
    }

    /// The backend identifier.
    pub fn id(&self) -> (r: &BackendId)
        ensures
            *r == self.id,
    {
        &self.id
    }

    /// The display name, if any.
    pub fn name(&self) -> (r: Option<&str>)
        ensures
            match r {
                Some(t) => self.name is Some && t@ == self.name->0@,
                None => self.name is None,
            },
    {
        match &self.name {
            Some(t) => Some(t.as_str()),
            None => None,
        }
    }

    /// The network address.
    pub fn address(&self) -> (r: &str)
        ensures
            r@ == self.address@,
    {
        self.address.as_str()
    }

    /// The configured weight, if any.
    pub fn weight(&self) -> (r: Option<u8>)
        ensures
            r == self.weight,
    {
        self.weight
    }
}

/// Backend entry of a configuration file.
#[derive(Debug)]
pub struct BackendConfig {
    /// Backend identifier
    pub id: BackendId,
    /// Optional display name
    pub name: Option<String>,
    /// Network address, `host:port`
    pub address: String,
    /// Optional weight
    pub weight: Option<u8>,
}

impl BackendConfig {
    /// The metadata this configuration entry describes.
    pub fn to_meta(&self) -> (r: BackendMeta)
        ensures
            r == (BackendMeta { id: self.id, name: self.name, address: self.address, weight: self.weight }),
    {
        BackendMeta {
            id: self.id,
            name: clone_opt_string(&self.name),
            address: self.address.clone(),
            weight: self.weight,
        }
    }
}

impl From<BackendMeta> for BackendConfig {
    fn from(meta: BackendMeta) -> (r: BackendConfig) {
        BackendConfig { id: meta.id, name: meta.name, address: meta.address, weight: meta.weight }
    }
}

impl vstd::std_specs::convert::FromSpecImpl<BackendMeta> for BackendConfig {
    open spec fn obeys_from_spec() -> bool {
        true
    }

    open spec fn from_spec(meta: BackendMeta) -> BackendConfig {
        BackendConfig { id: meta.id, name: meta.name, address: meta.address, weight: meta.weight }
    }
}


/// Runtime state of a backend: health, load and accumulated request metrics.
#[derive(Debug)]
pub struct Backend {
    /// Static description
    pub meta: BackendMeta,
    /// Whether the last health information says the backend is up
    pub alive: bool,
    /// Whether the backend is being drained (accepts no new connections)
    pub draining: bool,
    /// Number of open proxied connections
    pub active_connections: usize,
    /// Sum of the latencies of all recorded requests, in milliseconds
    pub latency_total_ms: u64,
    /// Number of recorded requests
    pub request_count: u64,
    /// Number of recorded requests that failed
    pub error_count: u64,
    /// Time of the last health update, in milliseconds
    pub last_health_check_ms: u64,
    /// Time of the last metrics refresh, in milliseconds
    pub metrics_updated_ms: u64,
}

/// A backend that has just been registered: alive, idle, without metrics.
pub open spec fn fresh_backend(meta: BackendMeta) -> Backend {
    Backend {
        meta,
        alive: true,
        draining: false,
        active_connections: 0,
        latency_total_ms: 0,
        request_count: 0,
        error_count: 0,
        last_health_check_ms: 0,
        metrics_updated_ms: 0,
    }
}

/// `a + b`, capped at `u64::MAX`.
pub open spec fn sat_add(a: u64, b: u64) -> u64 {
    if a + b > u64::MAX { u64::MAX } else { (a + b) as u64 }
}

/// The backend after a health update.
pub open spec fn with_health(b: Backend, healthy: bool, now_ms: u64) -> Backend {
    Backend { alive: healthy, last_health_check_ms: now_ms, ..b }
}

/// The backend after one more request has been recorded.
pub open spec fn with_request(b: Backend, latency_ms: u64, is_error: bool) -> Backend {
    Backend {
        latency_total_ms: sat_add(b.latency_total_ms, latency_ms),
        request_count: sat_add(b.request_count, 1),
        error_count: if is_error { sat_add(b.error_count, 1) } else { b.error_count },
        ..b
    }
}

/// The backend with one more open connection (capped at `usize::MAX`).
pub open spec fn with_connection_opened(b: Backend) -> Backend {
    Backend {
        active_connections: if b.active_connections < usize::MAX { (b.active_connections + 1) as usize } else { b.active_connections },
        ..b
    }
}

/// The backend with one connection fewer (never below zero).
pub open spec fn with_connection_closed(b: Backend) -> Backend {
    Backend {
        active_connections: if b.active_connections > 0 { (b.active_connections - 1) as usize } else { 0 },
        ..b
    }
}

/// Whether a backend has latency measurements (its average latency is positive).
pub open spec fn has_latency(b: Backend) -> bool {
    b.request_count > 0 && b.latency_total_ms > 0
}

/// Whether `a`'s average latency is strictly below `b`'s
/// (`a.total / a.count < b.total / b.count`, compared exactly).
pub open spec fn latency_below(a: Backend, b: Backend) -> bool {
    a.latency_total_ms * b.request_count < b.latency_total_ms * a.request_count
}

/// Whether a backend may receive new connections.
pub open spec fn accepts_connections(b: Backend) -> bool {
    b.alive && !b.draining
}

impl Clone for Backend {
    fn clone(&self) -> (r: Self)
        ensures
            r == *self,
    {
        Backend {
            meta: self.meta.clone(),
            alive: self.alive,
            draining: self.draining,
            active_connections: self.active_connections,
            latency_total_ms: self.latency_total_ms,
            request_count: self.request_count,
            error_count: self.error_count,
            last_health_check_ms: self.last_health_check_ms,
            metrics_updated_ms: self.metrics_updated_ms,
        }
    }
}

impl Backend {
    /// A newly registered backend: alive, idle, without metrics.
    pub fn new(meta: BackendMeta) -> (r: Self)
        ensures
            r == fresh_backend(meta),
    {
        Backend {
            meta,
            alive: true,
            draining: false,
            active_connections: 0,
            latency_total_ms: 0,
            request_count: 0,
            error_count: 0,
            last_health_check_ms: 0,
            metrics_updated_ms: 0,
        }
    }

    /// The backend identifier.
    pub fn id(&self) -> (r: BackendId)
        ensures
            r == self.meta.id,
    {
        self.meta.id
    }

    /// Whether the backend is considered up.
    pub fn is_alive(&self) -> (r: bool)
        ensures
            r == self.alive,
    {
        self.alive
    }

    /// Number of open connections.
    pub fn active_connections(&self) -> (r: usize)
        ensures
            r == self.active_connections,
    {
        self.active_connections
    }

    /// Records the outcome of a health probe.
    pub fn set_health(&mut self, healthy: bool, now_ms: u64)
        ensures
            *final(self) == with_health(*old(self), healthy, now_ms),
    {
        self.alive = healthy;
        self.last_health_check_ms = now_ms;
    }

    /// Records one completed request and its latency.
    pub fn record_request(&mut self, latency_ms: u64, is_error: bool)
        ensures
            *final(self) == with_request(*old(self), latency_ms, is_error),
    {
        self.latency_total_ms = self.latency_total_ms.saturating_add(latency_ms);
        self.request_count = self.request_count.saturating_add(1);
        if is_error {
            self.error_count = self.error_count.saturating_add(1);
        }
    }

    /// Counts a newly opened connection.
    pub fn increment_connection(&mut self)
        ensures
            *final(self) == with_connection_opened(*old(self)),
    {
        if self.active_connections < usize::MAX {
            self.active_connections = self.active_connections + 1;
        }
    }

    /// Counts a closed connection.
    pub fn decrement_connection(&mut self)
        ensures
            *final(self) == with_connection_closed(*old(self)),
    {
        if self.active_connections > 0 {
            self.active_connections = self.active_connections - 1;
        }
    }

    /// Stamps the time of the latest metrics refresh.
    pub fn update_metrics_timestamp(&mut self, now_ms: u64)
        ensures
            *final(self) == (Backend { metrics_updated_ms: now_ms, ..*old(self) }),
    {
        self.metrics_updated_ms = now_ms;
    }

    /// Whether the backend may receive new connections (alive and not draining).
    pub fn can_accept_new_connections(&self) -> (r: bool)
        ensures
            r == accepts_connections(*self),
    {
        self.alive && !self.draining
    }

    /// Whether the backend is idle enough to be probed: fewer than `threshold` open connections.
    pub fn has_capacity_for_health_check(&self, threshold: usize) -> (r: bool)
        ensures
            r == (self.active_connections < threshold),
    {
        self.active_connections < threshold
    }

    /// Whether the backend has latency measurements.
    pub fn has_latency(&self) -> (r: bool)
        ensures
            r == has_latency(*self),
    {
        self.request_count > 0 && self.latency_total_ms > 0
    }

    /// Whether this backend's average latency is strictly below `other`'s.
    pub fn latency_below(&self, other: &Backend) -> (r: bool)
        ensures
            r == latency_below(*self, *other),
    {
        let a: u128 = self.latency_total_ms as u128;
        let b: u128 = other.request_count as u128;
        let c: u128 = other.latency_total_ms as u128;
        let d: u128 = self.request_count as u128;
        assert(a * b <= u64::MAX * u64::MAX && c * d <= u64::MAX * u64::MAX) by (nonlinear_arith)
            requires a <= u64::MAX, b <= u64::MAX, c <= u64::MAX, d <= u64::MAX;
        let lhs: u128 = a * b;
        let rhs: u128 = c * d;
        lhs < rhs
    }
}

} // verus!
