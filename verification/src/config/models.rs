//! Config models module
use vstd::prelude::*;
use crate::health::models::HealthConfig;
use crate::metrics::models::MetricsConfig;
use crate::proxy::models::ProxyConfig;
use crate::strategy::models::Strategy;
use crate::text::str_equals;
use crate::types::BackendConfig;

verus! {

/// Config source enum
///
/// Indicates how the configuration was loaded. This is set automatically by
/// the configuration builder and is not part of the serialized config.
#[derive(Debug, Clone, Copy, PartialEq, Eq, Structural)]
pub enum ConfigSource {
    /// Config loaded from environment variables
    Environment,
    /// Config loaded from file (default)
    File,
}

impl Default for ConfigSource {
    fn default() -> (r: Self)
        ensures
            r == ConfigSource::File,
    {
        ConfigSource::File
    }
}

/// Runtime config struct
#[derive(Debug, Clone, Copy, PartialEq, Eq, Structural)]
pub struct RuntimeConfig {
    /// Metrics capacity
    pub metrics_cap: usize,
    /// Health capacity
    pub health_cap: usize,
    /// Drain timeout in milliseconds
    pub drain_timeout_millis: u64,
    /// Background timeout in milliseconds
    pub background_timeout_millis: u64,
    /// Accept timeout in milliseconds
    pub accept_timeout_millis: u64,
    /// Config file watch interval in milliseconds
    pub config_watch_interval_millis: u64,
}

/// Config struct
#[derive(Debug)]
pub struct Config {
    /// Source of configuration (set automatically, not part of serialized config)
    pub source: ConfigSource,
    /// Runtime config
    pub runtime: RuntimeConfig,
    /// Proxy config
    pub proxy: ProxyConfig,
    /// Strategy
    pub strategy: Strategy,
    /// Backend List
    pub backends: Vec<BackendConfig>,
    /// Health config
    pub health: HealthConfig,
    /// Metrics config
    pub metrics: MetricsConfig,
}

/// Events emitted when configuration changes occur
#[derive(Debug, Clone, PartialEq, Eq)]
pub enum ConfigEvent {
    /// Configuration successfully migrated
    Migrated,
    /// Proxy listen address changed (the new address, `host:port`)
    ListenAddressChanged(String),
}

/// The events that announce a migration from the listen address
/// `old_address` to `new_address`: always `Migrated`, followed by
/// `ListenAddressChanged` with the new address when the address changed.
pub fn migration_events(old_address: &str, new_address: &str) -> (r: Vec<ConfigEvent>)
    ensures
        old_address@ == new_address@ ==> r@ == seq![ConfigEvent::Migrated],
        old_address@ != new_address@ ==> (r@.len() == 2 && r@[0] == ConfigEvent::Migrated
            && (r@[1] matches ConfigEvent::ListenAddressChanged(a) && a@ == new_address@)),
{
    let mut r: Vec<ConfigEvent> = Vec::new();
    r.push(ConfigEvent::Migrated);
    if !str_equals(old_address, new_address) {
        r.push(ConfigEvent::ListenAddressChanged(String::from_str(new_address)));
    }
    r
}

} // verus!
