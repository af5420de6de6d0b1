//! Config Builder module
//!
//! Loading from the environment: the embedding application reads the
//! `LEMONADE_LB_*` variables (after loading a `.env` file) into an
//! [`EnvVars`]; [`ConfigBuilder::from_env`] turns them into a [`Config`] with
//! the documented defaults, failing on the first malformed value in the order
//! the variables are listed below. Loading from a file is planned by
//! [`ConfigBuilder::plan_file_load`]: the file must exist and carry a
//! `.json`, `.toml`, `.yaml` or `.yml` extension (in any letter case).
use vstd::prelude::*;
use crate::config::error::ConfigError;
use crate::config::models::{Config, ConfigSource, RuntimeConfig};
use crate::health::models::HealthConfig;
use crate::metrics::models::MetricsConfig;
use crate::numbers::{IntErrorKind, int_error_text, parse_unsigned, parse_unsigned_decimal};
use crate::proxy::models::ProxyConfig;
use crate::strategy::models::{Strategy, parse_strategy};
use crate::types::BackendConfig;

verus! {

/// Metrics capacity variable
pub const LB_METRICS_CAP_ENV_KEY: &'static str = "LEMONADE_LB_METRICS_CAP";
/// Health capacity variable
pub const LB_HEALTH_CAP_ENV_KEY: &'static str = "LEMONADE_LB_HEALTH_CAP";
/// Drain timeout variable
pub const LB_DRAIN_TIMEOUT_MS_ENV_KEY: &'static str = "LEMONADE_LB_DRAIN_TIMEOUT_MS";
/// Background timeout variable
pub const LB_BACKGROUND_TIMEOUT_MS_ENV_KEY: &'static str = "LEMONADE_LB_BACKGROUND_TIMEOUT_MS";
/// Accept timeout variable
pub const LB_ACCEPT_TIMEOUT_MS_ENV_KEY: &'static str = "LEMONADE_LB_ACCEPT_TIMEOUT_MS";
/// Config watch interval variable
pub const LB_CONFIG_WATCH_INTERVAL_MS_ENV_KEY: &'static str = "LEMONADE_LB_CONFIG_WATCH_INTERVAL_MS";
/// Listen address variable
pub const LB_LISTEN_ADDRESS_ENV_KEY: &'static str = "LEMONADE_LB_LISTEN_ADDRESS";
/// Backend addresses variable (comma-separated `host:port` items)
pub const LB_BACKEND_ADDRESSES_ENV_KEY: &'static str = "LEMONADE_LB_BACKEND_ADDRESSES";
/// Max connections variable
pub const LB_MAX_CONNECTIONS_ENV_KEY: &'static str = "LEMONADE_LB_MAX_CONNECTIONS";
/// Strategy variable
pub const LB_STRATEGY_ENV_KEY: &'static str = "LEMONADE_LB_STRATEGY";
/// Health interval variable
pub const LB_HEALTH_INTERVAL_MS_ENV_KEY: &'static str = "LEMONADE_LB_HEALTH_INTERVAL_MS";
/// Health timeout variable
pub const LB_HEALTH_TIMEOUT_MS_ENV_KEY: &'static str = "LEMONADE_LB_HEALTH_TIMEOUT_MS";
/// Metrics interval variable
pub const LB_METRICS_INTERVAL_MS_ENV_KEY: &'static str = "LEMONADE_LB_METRICS_INTERVAL_MS";
/// Metrics timeout variable
pub const LB_METRICS_TIMEOUT_MS_ENV_KEY: &'static str = "LEMONADE_LB_METRICS_TIMEOUT_MS";

/// Default metrics capacity
pub const LB_METRICS_CAP_DEFAULT: &'static str = "100";
/// Default health capacity
pub const LB_HEALTH_CAP_DEFAULT: &'static str = "50";
/// Default drain timeout
pub const LB_DRAIN_TIMEOUT_MS_DEFAULT: &'static str = "5000";
/// Default background timeout
pub const LB_BACKGROUND_TIMEOUT_MS_DEFAULT: &'static str = "1000";
/// Default accept timeout
pub const LB_ACCEPT_TIMEOUT_MS_DEFAULT: &'static str = "2000";
/// Default config watch interval
pub const LB_CONFIG_WATCH_INTERVAL_MS_DEFAULT: &'static str = "1000";
/// Default listen address
pub const LB_LISTEN_ADDRESS_DEFAULT: &'static str = "127.0.0.1:3000";
/// Default strategy
pub const LB_STRATEGY_DEFAULT: &'static str = "round_robin";
/// Default health interval
pub const LB_HEALTH_INTERVAL_MS_DEFAULT: &'static str = "30000";
/// Default health timeout
pub const LB_HEALTH_TIMEOUT_MS_DEFAULT: &'static str = "30000";
/// Default metrics interval
pub const LB_METRICS_INTERVAL_MS_DEFAULT: &'static str = "10000";
/// Default metrics timeout
pub const LB_METRICS_TIMEOUT_MS_DEFAULT: &'static str = "10000";

/// The values of the `LEMONADE_LB_*` environment variables (`None` when unset).
#[derive(Debug)]
pub struct EnvVars {
    /// `LEMONADE_LB_METRICS_CAP`
    pub metrics_cap: Option<String>,
    /// `LEMONADE_LB_HEALTH_CAP`
    pub health_cap: Option<String>,
    /// `LEMONADE_LB_DRAIN_TIMEOUT_MS`
    pub drain_timeout_ms: Option<String>,
    /// `LEMONADE_LB_BACKGROUND_TIMEOUT_MS`
    pub background_timeout_ms: Option<String>,
    /// `LEMONADE_LB_ACCEPT_TIMEOUT_MS`
    pub accept_timeout_ms: Option<String>,
    /// `LEMONADE_LB_CONFIG_WATCH_INTERVAL_MS`
    pub config_watch_interval_ms: Option<String>,
    /// The listen address: `LEMONADE_LB_LISTEN_ADDRESS`, or
    /// [`LB_LISTEN_ADDRESS_DEFAULT`] when unset, parsed as a socket address and
    /// rendered in canonical form (`Ok`), or the address parser's message when
    /// it is not a socket address (`Err`)
    pub listen_address: Result<String, String>,
    /// The backend addresses: `None` when `LEMONADE_LB_BACKEND_ADDRESSES` is
    /// unset; otherwise its comma-separated items (see [`split_addresses`]),
    /// each parsed as a socket address and rendered in canonical form (`Ok`),
    /// or the address parser's message for the first item that is not one (`Err`)
    pub backend_addresses: Option<Result<Vec<String>, String>>,
    /// `LEMONADE_LB_MAX_CONNECTIONS`
    pub max_connections: Option<String>,
    /// `LEMONADE_LB_STRATEGY`
    pub strategy: Option<String>,
    /// `LEMONADE_LB_HEALTH_INTERVAL_MS`
    pub health_interval_ms: Option<String>,
    /// `LEMONADE_LB_HEALTH_TIMEOUT_MS`
    pub health_timeout_ms: Option<String>,
    /// `LEMONADE_LB_METRICS_INTERVAL_MS`
    pub metrics_interval_ms: Option<String>,
    /// `LEMONADE_LB_METRICS_TIMEOUT_MS`
    pub metrics_timeout_ms: Option<String>,
}

/// A variable's value, or the default when it is unset.
pub open spec fn value_text(v: Option<String>, default: Seq<char>) -> Seq<char> {
    match v {
        Some(s) => s@,
        None => default,
    }
}

/// The message for a malformed variable.
pub open spec fn failure_text(key: Seq<char>, detail: Seq<char>) -> Seq<char> {
    "Invalid "@ + key + ": "@ + detail
}

/// The failure message of a numeric variable, if it does not parse.
pub open spec fn numeric_failure(key: Seq<char>, r: Result<nat, IntErrorKind>) -> Option<Seq<char>> {
    match r {
        Ok(_) => None,
        Err(k) => Some(failure_text(key, int_error_text(k))),
    }
}

/// The value of a numeric variable that parses.
pub open spec fn parsed(r: Result<nat, IntErrorKind>) -> nat {
    match r {
        Ok(v) => v,
        Err(_) => 0,
    }
}

/// The first of two optional failures.
pub open spec fn first_of(a: Option<Seq<char>>, b: Option<Seq<char>>) -> Option<Seq<char>> {
    if a is Some { a } else { b }
}

/// Parse result of a variable read as a `usize` with a default.
pub open spec fn usize_var(v: Option<String>, default: Seq<char>) -> Result<nat, IntErrorKind> {
    parse_unsigned(value_text(v, default), usize::MAX as nat)
}

/// Parse result of a variable read as a `u64` with a default.
pub open spec fn u64_var(v: Option<String>, default: Seq<char>) -> Result<nat, IntErrorKind> {
    parse_unsigned(value_text(v, default), u64::MAX as nat)
}

/// The failure of the optional max-connections variable, if any.
pub open spec fn max_connections_failure(v: Option<String>) -> Option<Seq<char>> {
    match v {
        None => None,
        Some(s) => numeric_failure(LB_MAX_CONNECTIONS_ENV_KEY@, parse_unsigned(s@, u64::MAX as nat)),
    }
}

/// The failure of the strategy variable, if any.
pub open spec fn strategy_failure(v: Option<String>) -> Option<Seq<char>> {
    let text = value_text(v, LB_STRATEGY_DEFAULT@);
    match parse_strategy(text) {
        Some(_) => None,
        None => Some(failure_text(LB_STRATEGY_ENV_KEY@, "strategy not found: "@ + text)),
    }
}

/// The failure of the listen address, if any.
pub open spec fn listen_failure(l: Result<String, String>) -> Option<Seq<char>> {
    match l {
        Ok(_) => None,
        Err(e) => Some(failure_text(LB_LISTEN_ADDRESS_ENV_KEY@, e@)),
    }
}

/// Backend ids are bytes, so at most this many backends can be listed.
pub const MAX_BACKENDS: usize = 256;

/// The failure of the backend addresses, if any.
pub open spec fn backends_failure(b: Option<Result<Vec<String>, String>>) -> Option<Seq<char>> {
    match b {
        None => None,
        Some(Err(e)) => Some(failure_text(LB_BACKEND_ADDRESSES_ENV_KEY@, e@)),
        Some(Ok(v)) => if v@.len() > MAX_BACKENDS {
            Some(failure_text(LB_BACKEND_ADDRESSES_ENV_KEY@, "more than 256 backends"@))
        } else {
            None
        },
    }
}

/// The message of the first malformed variable, in reading order.
pub open spec fn env_failure(vars: EnvVars) -> Option<Seq<char>> {
    first_of(numeric_failure(LB_METRICS_CAP_ENV_KEY@, usize_var(vars.metrics_cap, LB_METRICS_CAP_DEFAULT@)),
    first_of(numeric_failure(LB_HEALTH_CAP_ENV_KEY@, usize_var(vars.health_cap, LB_HEALTH_CAP_DEFAULT@)),
    first_of(numeric_failure(LB_DRAIN_TIMEOUT_MS_ENV_KEY@, u64_var(vars.drain_timeout_ms, LB_DRAIN_TIMEOUT_MS_DEFAULT@)),
    first_of(numeric_failure(LB_BACKGROUND_TIMEOUT_MS_ENV_KEY@, u64_var(vars.background_timeout_ms, LB_BACKGROUND_TIMEOUT_MS_DEFAULT@)),
    first_of(numeric_failure(LB_ACCEPT_TIMEOUT_MS_ENV_KEY@, u64_var(vars.accept_timeout_ms, LB_ACCEPT_TIMEOUT_MS_DEFAULT@)),
    first_of(numeric_failure(LB_CONFIG_WATCH_INTERVAL_MS_ENV_KEY@, u64_var(vars.config_watch_interval_ms, LB_CONFIG_WATCH_INTERVAL_MS_DEFAULT@)),
    first_of(listen_failure(vars.listen_address),
    first_of(max_connections_failure(vars.max_connections),
    first_of(strategy_failure(vars.strategy),
    first_of(backends_failure(vars.backend_addresses),
    first_of(numeric_failure(LB_HEALTH_INTERVAL_MS_ENV_KEY@, u64_var(vars.health_interval_ms, LB_HEALTH_INTERVAL_MS_DEFAULT@)),
    first_of(numeric_failure(LB_HEALTH_TIMEOUT_MS_ENV_KEY@, u64_var(vars.health_timeout_ms, LB_HEALTH_TIMEOUT_MS_DEFAULT@)),
    first_of(numeric_failure(LB_METRICS_INTERVAL_MS_ENV_KEY@, u64_var(vars.metrics_interval_ms, LB_METRICS_INTERVAL_MS_DEFAULT@)),
    numeric_failure(LB_METRICS_TIMEOUT_MS_ENV_KEY@, u64_var(vars.metrics_timeout_ms, LB_METRICS_TIMEOUT_MS_DEFAULT@)),
    )))))))))))))
}

/// Whether `bs` are the backends listed by `addrs`: the i-th backend has id
/// i, the i-th address, and neither name nor weight.
pub open spec fn listed_backends(bs: Seq<BackendConfig>, addrs: Seq<String>) -> bool {
    &&& bs.len() == addrs.len()
    &&& forall|i: int| 0 <= i < bs.len() ==> {
        &&& (#[trigger] bs[i]).id == i
        &&& bs[i].name is None
        &&& bs[i].address@ == addrs[i]@
        &&& bs[i].weight is None
    }
}

/// The comma-separated items of a text, in order (a text without commas is
/// one item; empty items are kept).
pub open spec fn split_commas(s: Seq<char>) -> Seq<Seq<char>>
    decreases s.len(),
{
    if s.len() == 0 {
        seq![Seq::<char>::empty()]
    } else {
        let prev = split_commas(s.drop_last());
        if s.last() == ',' {
            prev.push(Seq::<char>::empty())
        } else {
            prev.update(prev.len() - 1, prev.last().push(s.last()))
        }
    }
}

proof fn lemma_split_commas_nonempty(s: Seq<char>)
    ensures
        split_commas(s).len() >= 1,
    decreases s.len(),
{
    if s.len() > 0 {
        lemma_split_commas_nonempty(s.drop_last());
    }
}

/// Splits a text at its commas.
pub fn split_addresses(s: &str) -> (r: Vec<String>)
    ensures
        r@.map_values(|x: String| x@) == split_commas(s@),
{
    let n = s.unicode_len();
    let mut done: Vec<String> = Vec::new();
    let mut current = String::new();
    let mut i: usize = 0;
    assert(s@.take(0) =~= Seq::<char>::empty());
    assert(done@.map_values(|x: String| x@).push(current@) =~= seq![Seq::<char>::empty()]);
    while i < n
        invariant
            n == s@.len(),
            i <= n,
            split_commas(s@.take(i as int)) == done@.map_values(|x: String| x@).push(current@),
        decreases n - i,
    {
        let c = s.get_char(i);
        proof {
            assert(s@.take(i + 1).drop_last() =~= s@.take(i as int));
            assert(s@.take(i + 1).last() == c);
            lemma_split_commas_nonempty(s@.take(i as int));
        }
        if c == ',' {
            let piece = current;
            done.push(piece);
            current = String::new();
            assert(done@.map_values(|x: String| x@).push(current@) =~= split_commas(s@.take(i + 1)));
        } else {
            let one = s.substring_char(i, i + 1);
            assert(one@ =~= seq![c]);
            let ghost before = current@;
            current.append(one);
            assert(current@ =~= before.push(c));
            assert(done@.map_values(|x: String| x@).push(current@) =~= split_commas(s@.take(i + 1)));
        }
        i = i + 1;
    }
    assert(s@.take(n as int) =~= s@);
    done.push(current);
    assert(done@.map_values(|x: String| x@) =~= split_commas(s@));
    done
}

/// Whether `c` is the configuration the variables describe.
pub open spec fn env_config(c: Config, vars: EnvVars) -> bool {
    &&& c.source == ConfigSource::Environment
    &&& c.runtime.metrics_cap == parsed(usize_var(vars.metrics_cap, LB_METRICS_CAP_DEFAULT@))
    &&& c.runtime.health_cap == parsed(usize_var(vars.health_cap, LB_HEALTH_CAP_DEFAULT@))
    &&& c.runtime.drain_timeout_millis == parsed(u64_var(vars.drain_timeout_ms, LB_DRAIN_TIMEOUT_MS_DEFAULT@))
    &&& c.runtime.background_timeout_millis == parsed(u64_var(vars.background_timeout_ms, LB_BACKGROUND_TIMEOUT_MS_DEFAULT@))
    &&& c.runtime.accept_timeout_millis == parsed(u64_var(vars.accept_timeout_ms, LB_ACCEPT_TIMEOUT_MS_DEFAULT@))
    &&& c.runtime.config_watch_interval_millis == parsed(u64_var(vars.config_watch_interval_ms, LB_CONFIG_WATCH_INTERVAL_MS_DEFAULT@))
    &&& vars.listen_address matches Ok(a) && c.proxy.listen_address@ == a@
    &&& c.proxy.max_connections == (match vars.max_connections {
        None => None,
        Some(s) => Some(parsed(parse_unsigned(s@, u64::MAX as nat)) as u64),
    })
    &&& Some(c.strategy) == parse_strategy(value_text(vars.strategy, LB_STRATEGY_DEFAULT@))
    &&& match vars.backend_addresses {
        Some(Ok(v)) => listed_backends(c.backends@, v@),
        _ => c.backends@.len() == 0,
    }
    &&& c.health.interval_ms == parsed(u64_var(vars.health_interval_ms, LB_HEALTH_INTERVAL_MS_DEFAULT@))
    &&& c.health.timeout_ms == parsed(u64_var(vars.health_timeout_ms, LB_HEALTH_TIMEOUT_MS_DEFAULT@))
    &&& c.metrics.interval_ms == parsed(u64_var(vars.metrics_interval_ms, LB_METRICS_INTERVAL_MS_DEFAULT@))
    &&& c.metrics.timeout_ms == parsed(u64_var(vars.metrics_timeout_ms, LB_METRICS_TIMEOUT_MS_DEFAULT@))
}

/// A variable's value, or the default when it is unset.
fn value_or<'a>(v: &'a Option<String>, default: &'a str) -> (r: &'a str)
    ensures
        r@ == value_text(*v, default@),
{
    match v {
        Some(s) => s.as_str(),
        None => default,
    }
}

/// The `Parse` error for a malformed variable.
fn invalid(key: &str, detail: &str) -> (r: ConfigError)
    ensures
        r matches ConfigError::Parse(t) && t@ == failure_text(key@, detail@),
{
    let msg = String::from_str("Invalid ").concat(key).concat(": ").concat(detail);
    ConfigError::Parse(msg)
}

/// Reads a numeric variable no larger than `max`.
fn read_number(v: &Option<String>, default: &str, key: &str, max: u64) -> (r: Result<u64, ConfigError>)
    ensures
        match parse_unsigned(value_text(*v, default@), max as nat) {
            Ok(n) => n <= max && r == Ok::<u64, ConfigError>(n as u64),
            Err(k) => r matches Err(ConfigError::Parse(t)) && t@ == failure_text(key@, int_error_text(k)),
        },
{
    match parse_unsigned_decimal(value_or(v, default), max) {
        Ok(n) => Ok(n),
        Err(k) => Err(invalid(key, k.message())),
    }
}

/// The format of a configuration file.
#[derive(Debug, Clone, Copy, PartialEq, Eq, Structural)]
pub enum ConfigFormat {
    /// `.json`
    Json,
    /// `.toml`
    Toml,
    /// `.yaml` or `.yml`
    Yaml,
}

/// How a configuration is to be loaded.
#[derive(Debug, Clone, Copy, PartialEq, Eq, Structural)]
pub enum ConfigLoad {
    /// No file given: read the environment
    Environment,
    /// Read the file and parse it in this format
    File(ConfigFormat),
}

/// ASCII lower-casing of a character.
pub open spec fn ascii_lower(c: char) -> char {
    if 'A' <= c && c <= 'Z' { ((c as int) + 32) as char } else { c }
}

/// Whether two strings are equal up to ASCII letter case.
pub open spec fn equals_ignoring_case(a: Seq<char>, b: Seq<char>) -> bool {
    a.len() == b.len() && forall|i: int| 0 <= i < a.len() ==> ascii_lower(#[trigger] a[i]) == ascii_lower(b[i])
}

/// The format a file extension names, compared case-insensitively. (Unicode
/// lower-casing agrees with ASCII lower-casing on these names: no other
/// character lower-cases to one of their letters.)
pub open spec fn format_of_extension(ext: Seq<char>) -> Option<ConfigFormat> {
    if equals_ignoring_case(ext, "json"@) {
        Some(ConfigFormat::Json)
    } else if equals_ignoring_case(ext, "toml"@) {
        Some(ConfigFormat::Toml)
    } else if equals_ignoring_case(ext, "yaml"@) || equals_ignoring_case(ext, "yml"@) {
        Some(ConfigFormat::Yaml)
    } else {
        None
    }
}

/// The extension dispatch: `json`, `toml`, `yaml` and `yml`, in any ASCII
/// letter case, name the JSON, TOML, YAML and YAML formats, and every other
/// extension names none.
pub proof fn lemma_extension_dispatch(e: Seq<char>)
    ensures
        equals_ignoring_case(e, "json"@) ==> format_of_extension(e) == Some(ConfigFormat::Json),
        equals_ignoring_case(e, "toml"@) ==> format_of_extension(e) == Some(ConfigFormat::Toml),
        equals_ignoring_case(e, "yaml"@) ==> format_of_extension(e) == Some(ConfigFormat::Yaml),
        equals_ignoring_case(e, "yml"@) ==> format_of_extension(e) == Some(ConfigFormat::Yaml),
        !equals_ignoring_case(e, "json"@) && !equals_ignoring_case(e, "toml"@) && !equals_ignoring_case(e, "yaml"@)
            && !equals_ignoring_case(e, "yml"@) ==> format_of_extension(e) is None,
{
    reveal_strlit("json");
    reveal_strlit("toml");
    reveal_strlit("yaml");
    reveal_strlit("yml");
    if equals_ignoring_case(e, "toml"@) || equals_ignoring_case(e, "yaml"@) || equals_ignoring_case(e, "yml"@) {
        assert(ascii_lower(e[0]) != 'j');
        assert(!equals_ignoring_case(e, "json"@));
    }
    if equals_ignoring_case(e, "yaml"@) || equals_ignoring_case(e, "yml"@) {
        assert(ascii_lower(e[0]) != 't');
        assert(!equals_ignoring_case(e, "toml"@));
    }
}

fn lower_char(c: char) -> (r: char)
    ensures
        r == ascii_lower(c),
{
    if 'A' <= c && c <= 'Z' {
        (((c as u32) + 32) as u8) as char
    } else {
        c
    }
}

/// Compares two strings ignoring ASCII letter case.
pub fn eq_ignore_ascii_case(a: &str, b: &str) -> (r: bool)
    ensures
        r == equals_ignoring_case(a@, b@),
{
    let n = a.unicode_len();
    if n != b.unicode_len() {
        return false;
    }
    let mut i: usize = 0;
    while i < n
        invariant
            n == a@.len(),
            n == b@.len(),
            i <= n,
            forall|j: int| 0 <= j < i ==> ascii_lower(#[trigger] a@[j]) == ascii_lower(b@[j]),
        decreases n - i,
    {
        if lower_char(a.get_char(i)) != lower_char(b.get_char(i)) {
            return false;
        }
        i = i + 1;
    }
    true
}

/// Config builder
pub struct ConfigBuilder;

impl ConfigBuilder {
    /// Load configuration from environment variable values.
    pub fn from_env(vars: &EnvVars) -> (r: Result<Config, ConfigError>)
        ensures
            match env_failure(*vars) {
                Some(m) => r matches Err(ConfigError::Parse(t)) && t@ == m,
                None => r matches Ok(c) && env_config(c, *vars),
            },
    {
        let metrics_cap = read_number(&vars.metrics_cap, LB_METRICS_CAP_DEFAULT, LB_METRICS_CAP_ENV_KEY, usize::MAX as u64);
        let metrics_cap = match metrics_cap { Ok(n) => n as usize, Err(e) => return Err(e) };
        let health_cap = read_number(&vars.health_cap, LB_HEALTH_CAP_DEFAULT, LB_HEALTH_CAP_ENV_KEY, usize::MAX as u64);
        let health_cap = match health_cap { Ok(n) => n as usize, Err(e) => return Err(e) };
        let drain_timeout_millis = match read_number(&vars.drain_timeout_ms, LB_DRAIN_TIMEOUT_MS_DEFAULT, LB_DRAIN_TIMEOUT_MS_ENV_KEY, u64::MAX) {
            Ok(n) => n,
            Err(e) => return Err(e),
        };
        let background_timeout_millis = match read_number(&vars.background_timeout_ms, LB_BACKGROUND_TIMEOUT_MS_DEFAULT, LB_BACKGROUND_TIMEOUT_MS_ENV_KEY, u64::MAX) {
            Ok(n) => n,
            Err(e) => return Err(e),
        };
        let accept_timeout_millis = match read_number(&vars.accept_timeout_ms, LB_ACCEPT_TIMEOUT_MS_DEFAULT, LB_ACCEPT_TIMEOUT_MS_ENV_KEY, u64::MAX) {
            Ok(n) => n,
            Err(e) => return Err(e),
        };
        let config_watch_interval_millis = match read_number(&vars.config_watch_interval_ms, LB_CONFIG_WATCH_INTERVAL_MS_DEFAULT, LB_CONFIG_WATCH_INTERVAL_MS_ENV_KEY, u64::MAX) {
            Ok(n) => n,
            Err(e) => return Err(e),
        };
        let listen_address = match &vars.listen_address {
            Ok(a) => a.clone(),
            Err(e) => return Err(invalid(LB_LISTEN_ADDRESS_ENV_KEY, e.as_str())),
        };
        let max_connections = match &vars.max_connections {
            None => None,
            Some(s) => match parse_unsigned_decimal(s.as_str(), u64::MAX) {
                Ok(n) => Some(n),
                Err(k) => return Err(invalid(LB_MAX_CONNECTIONS_ENV_KEY, k.message())),
            },
        };
        let strategy_text = value_or(&vars.strategy, LB_STRATEGY_DEFAULT);
        let strategy = match Strategy::from_str(strategy_text) {
            Ok(s) => s,
            Err(_) => {
                let detail = String::from_str("strategy not found: ").concat(strategy_text);
                return Err(invalid(LB_STRATEGY_ENV_KEY, detail.as_str()));
            },
        };
        let mut backends: Vec<BackendConfig> = Vec::new();
        match &vars.backend_addresses {
            None => {},
            Some(Err(e)) => return Err(invalid(LB_BACKEND_ADDRESSES_ENV_KEY, e.as_str())),
            Some(Ok(addrs)) => {
                if addrs.len() > MAX_BACKENDS {
                    return Err(invalid(LB_BACKEND_ADDRESSES_ENV_KEY, "more than 256 backends"));
                }
                let m = addrs.len();
                let mut i: usize = 0;
                while i < m
                    invariant
                        m == addrs@.len(),
                        m <= MAX_BACKENDS,
                        i <= m,
                        listed_backends(backends@, addrs@.take(i as int)),
                    decreases m - i,
                {
                    backends.push(BackendConfig { id: i as u8, name: None, address: addrs[i].clone(), weight: None });
                    i = i + 1;
                }
                assert(addrs@.take(m as int) =~= addrs@);
            },
        }
        let health_interval_ms = match read_number(&vars.health_interval_ms, LB_HEALTH_INTERVAL_MS_DEFAULT, LB_HEALTH_INTERVAL_MS_ENV_KEY, u64::MAX) {
            Ok(n) => n,
            Err(e) => return Err(e),
        };
        let health_timeout_ms = match read_number(&vars.health_timeout_ms, LB_HEALTH_TIMEOUT_MS_DEFAULT, LB_HEALTH_TIMEOUT_MS_ENV_KEY, u64::MAX) {
            Ok(n) => n,
            Err(e) => return Err(e),
        };
        let metrics_interval_ms = match read_number(&vars.metrics_interval_ms, LB_METRICS_INTERVAL_MS_DEFAULT, LB_METRICS_INTERVAL_MS_ENV_KEY, u64::MAX) {
            Ok(n) => n,
            Err(e) => return Err(e),
        };
        let metrics_timeout_ms = match read_number(&vars.metrics_timeout_ms, LB_METRICS_TIMEOUT_MS_DEFAULT, LB_METRICS_TIMEOUT_MS_ENV_KEY, u64::MAX) {
            Ok(n) => n,
            Err(e) => return Err(e),
        };
        let c = Config {
            source: ConfigSource::Environment,
            runtime: RuntimeConfig {
                metrics_cap,
                health_cap,
                drain_timeout_millis,
                background_timeout_millis,
                accept_timeout_millis,
                config_watch_interval_millis,
            },
            proxy: ProxyConfig { listen_address, max_connections },
            strategy,
            backends,
            health: HealthConfig { interval_ms: health_interval_ms, timeout_ms: health_timeout_ms },
            metrics: MetricsConfig { interval_ms: metrics_interval_ms, timeout_ms: metrics_timeout_ms },
        };
        Ok(c)
    }

    /// Decides how to load a configuration given the optional file path,
    /// whether that file exists, the error of reading it (`None` when it was
    /// read) and its extension (if it has one that is valid UTF-8): no path
    /// means the environment; a missing file is `FileNotFound`; a file that
    /// could not be read is `Io`; no extension or an unknown one is
    /// `UnsupportedFormat` naming the path.
    pub fn plan_file_load(
        path: Option<&str>,
        exists: bool,
        read_error: Option<String>,
        extension: Option<&str>,
    ) -> (r: Result<ConfigLoad, ConfigError>)
        ensures
            match path {
                None => r == Ok::<ConfigLoad, ConfigError>(ConfigLoad::Environment),
                Some(p) => if !exists {
                    r matches Err(ConfigError::FileNotFound(t)) && t@ == p@
                } else if read_error is Some {
                    r == Err::<ConfigLoad, ConfigError>(ConfigError::Io(read_error->0))
                } else {
                    match extension {
                        None => r matches Err(ConfigError::UnsupportedFormat(t)) && t@ == p@,
                        Some(e) => match format_of_extension(e@) {
                            Some(f) => r == Ok::<ConfigLoad, ConfigError>(ConfigLoad::File(f)),
                            None => r matches Err(ConfigError::UnsupportedFormat(t)) && t@ == p@,
                        },
                    }
                },
            },
            ({
                let readable = path is Some && exists && read_error is None;
                &&& readable && extension is Some && equals_ignoring_case(extension->0@, "json"@) ==> r
                    == Ok::<ConfigLoad, ConfigError>(ConfigLoad::File(ConfigFormat::Json))
                &&& readable && extension is Some && equals_ignoring_case(extension->0@, "toml"@) ==> r
                    == Ok::<ConfigLoad, ConfigError>(ConfigLoad::File(ConfigFormat::Toml))
                &&& readable && extension is Some && (equals_ignoring_case(extension->0@, "yaml"@)
                    || equals_ignoring_case(extension->0@, "yml"@)) ==> r == Ok::<ConfigLoad, ConfigError>(
                    ConfigLoad::File(ConfigFormat::Yaml),
                )
            }),
    {
        proof {
            if extension is Some {
                lemma_extension_dispatch(extension->0@);
            }
        }
        let p = match path {
            None => return Ok(ConfigLoad::Environment),
            Some(p) => p,
        };
        if !exists {
            return Err(ConfigError::FileNotFound(String::from_str(p)));
        }
        if let Some(e) = read_error {
            return Err(ConfigError::Io(e));
        }
        let ext = match extension {
            None => return Err(ConfigError::UnsupportedFormat(String::from_str(p))),
            Some(e) => e,
        };
        if eq_ignore_ascii_case(ext, "json") {
            Ok(ConfigLoad::File(ConfigFormat::Json))
        } else if eq_ignore_ascii_case(ext, "toml") {
            Ok(ConfigLoad::File(ConfigFormat::Toml))
        } else if eq_ignore_ascii_case(ext, "yaml") || eq_ignore_ascii_case(ext, "yml") {
            Ok(ConfigLoad::File(ConfigFormat::Yaml))
        } else {
            Err(ConfigError::UnsupportedFormat(String::from_str(p)))
        }
    }
}

} // verus!
