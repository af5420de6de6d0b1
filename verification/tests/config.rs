use lemonade::config::builder::{split_addresses, ConfigBuilder, ConfigFormat, ConfigLoad, EnvVars};
use lemonade::config::duration::{parse_duration_millis, DurationError};
use lemonade::config::error::ConfigError;
use lemonade::config::impls::{ConfigWatcher, NotifyConfigService, StaticConfigService, WatchTick};
use lemonade::config::models::ConfigSource;
use lemonade::numbers::{parse_unsigned_decimal, IntErrorKind};
use lemonade::strategy::models::Strategy;

fn no_vars() -> EnvVars {
    EnvVars {
        metrics_cap: None,
        health_cap: None,
        drain_timeout_ms: None,
        background_timeout_ms: None,
        accept_timeout_ms: None,
        config_watch_interval_ms: None,
        listen_address: Ok("127.0.0.1:3000".to_string()),
        backend_addresses: None,
        max_connections: None,
        strategy: None,
        health_interval_ms: None,
        health_timeout_ms: None,
        metrics_interval_ms: None,
        metrics_timeout_ms: None,
    }
}

fn parse_error(r: Result<lemonade::config::models::Config, ConfigError>) -> String {
    match r {
        Err(ConfigError::Parse(m)) => m,
        other => panic!("expected a parse error, got {:?}", other),
    }
}

#[test]
fn from_env_uses_defaults() {
    let config = ConfigBuilder::from_env(&no_vars()).unwrap();
    assert_eq!(config.source, ConfigSource::Environment);
    assert_eq!(config.runtime.metrics_cap, 100);
    assert_eq!(config.runtime.health_cap, 50);
    assert_eq!(config.runtime.drain_timeout_millis, 5000);
    assert_eq!(config.runtime.background_timeout_millis, 1000);
    assert_eq!(config.runtime.accept_timeout_millis, 2000);
    assert_eq!(config.runtime.config_watch_interval_millis, 1000);
    assert_eq!(config.proxy.listen_address, "127.0.0.1:3000");
    assert_eq!(config.proxy.max_connections, None);
    assert_eq!(config.strategy, Strategy::RoundRobin);
    assert!(config.backends.is_empty());
    assert_eq!(config.health.interval_ms, 30000);
    assert_eq!(config.health.timeout_ms, 30000);
    assert_eq!(config.metrics.interval_ms, 10000);
    assert_eq!(config.metrics.timeout_ms, 10000);
}

#[test]
fn from_env_reads_values() {
    let mut vars = no_vars();
    vars.metrics_cap = Some("7".to_string());
    vars.max_connections = Some("+250".to_string());
    vars.strategy = Some("least_connections".to_string());
    vars.listen_address = Ok("0.0.0.0:8080".to_string());
    vars.health_interval_ms = Some("18446744073709551615".to_string());
    let config = ConfigBuilder::from_env(&vars).unwrap();
    assert_eq!(config.runtime.metrics_cap, 7);
    assert_eq!(config.proxy.max_connections, Some(250));
    assert_eq!(config.strategy, Strategy::LeastConnections);
    assert_eq!(config.proxy.listen_address, "0.0.0.0:8080");
    assert_eq!(config.health.interval_ms, u64::MAX);
}

#[test]
fn from_env_reports_first_malformed_variable() {
    let mut vars = no_vars();
    vars.health_cap = Some("abc".to_string());
    vars.strategy = Some("nope".to_string());
    assert_eq!(
        parse_error(ConfigBuilder::from_env(&vars)),
        "Invalid LEMONADE_LB_HEALTH_CAP: invalid digit found in string"
    );
    vars.health_cap = None;
    assert_eq!(
        parse_error(ConfigBuilder::from_env(&vars)),
        "Invalid LEMONADE_LB_STRATEGY: strategy not found: nope"
    );
}

#[test]
fn from_env_number_errors_match_std_messages() {
    let mut vars = no_vars();
    vars.drain_timeout_ms = Some(String::new());
    assert_eq!(
        parse_error(ConfigBuilder::from_env(&vars)),
        "Invalid LEMONADE_LB_DRAIN_TIMEOUT_MS: cannot parse integer from empty string"
    );
    vars.drain_timeout_ms = None;
    vars.metrics_timeout_ms = Some("18446744073709551616".to_string());
    assert_eq!(
        parse_error(ConfigBuilder::from_env(&vars)),
        "Invalid LEMONADE_LB_METRICS_TIMEOUT_MS: number too large to fit in target type"
    );
    vars.metrics_timeout_ms = None;
    vars.max_connections = Some("-1".to_string());
    assert_eq!(
        parse_error(ConfigBuilder::from_env(&vars)),
        "Invalid LEMONADE_LB_MAX_CONNECTIONS: invalid digit found in string"
    );
}

#[test]
fn from_env_reports_bad_listen_address() {
    let mut vars = no_vars();
    vars.listen_address = Err("invalid socket address syntax".to_string());
    assert_eq!(
        parse_error(ConfigBuilder::from_env(&vars)),
        "Invalid LEMONADE_LB_LISTEN_ADDRESS: invalid socket address syntax"
    );
}

#[test]
fn decimal_parsing_matches_std() {
    for text in ["0", "42", "+7", "", "+", "-", "-3", "1x", "x1", "18446744073709551615", "18446744073709551616", "99999999999999999999x", "٣"] {
        let ours = parse_unsigned_decimal(text, u64::MAX);
        let theirs = text.parse::<u64>();
        match (ours, theirs) {
            (Ok(a), Ok(b)) => assert_eq!(a, b),
            (Err(k), Err(e)) => assert_eq!(k.message(), e.to_string()),
            (a, b) => panic!("{:?} differs from {:?} on {:?}", a, b, text),
        }
    }
    assert_eq!(parse_unsigned_decimal("256", 255), Err(IntErrorKind::PosOverflow));
    assert_eq!(parse_unsigned_decimal("255", 255), Ok(255));
}

#[test]
fn plan_file_load_dispatches_on_extension() {
    assert_eq!(ConfigBuilder::plan_file_load(None, false, None, None), Ok(ConfigLoad::Environment));
    assert_eq!(
        ConfigBuilder::plan_file_load(Some("lb.yaml"), false, None, Some("yaml")),
        Err(ConfigError::FileNotFound("lb.yaml".to_string()))
    );
    assert_eq!(
        ConfigBuilder::plan_file_load(Some("lb.JSON"), true, None, Some("JSON")),
        Ok(ConfigLoad::File(ConfigFormat::Json))
    );
    assert_eq!(
        ConfigBuilder::plan_file_load(Some("lb.toml"), true, None, Some("toml")),
        Ok(ConfigLoad::File(ConfigFormat::Toml))
    );
    assert_eq!(
        ConfigBuilder::plan_file_load(Some("lb.Yml"), true, None, Some("Yml")),
        Ok(ConfigLoad::File(ConfigFormat::Yaml))
    );
    assert_eq!(
        ConfigBuilder::plan_file_load(Some("lb.ini"), true, None, Some("ini")),
        Err(ConfigError::UnsupportedFormat("lb.ini".to_string()))
    );
    assert_eq!(
        ConfigBuilder::plan_file_load(Some("config"), true, None, None),
        Err(ConfigError::UnsupportedFormat("config".to_string()))
    );    // a file that cannot be read fails before its extension is looked at
    assert_eq!(
        ConfigBuilder::plan_file_load(Some("lb.ini"), true, Some("Permission denied".to_string()), Some("ini")),
        Err(ConfigError::Io("Permission denied".to_string()))
    );
    assert_eq!(
        ConfigBuilder::plan_file_load(None, false, Some("ignored".to_string()), None),
        Ok(ConfigLoad::Environment)
    );
}

#[test]
fn config_error_messages() {
    assert_eq!(
        ConfigError::UnsupportedFormat("a.ini".to_string()).message(),
        "Unsupported file format: a.ini. Supported formats: .json, .toml, .yaml, .yml"
    );
    assert_eq!(ConfigError::FileNotFound("x".to_string()).message(), "file not found: x");
    assert_eq!(ConfigError::Parse("p".to_string()).message(), "Parse error: p");
}

#[test]
fn durations_parse_with_units() {
    assert_eq!(parse_duration_millis("5s"), Ok(5000));
    assert_eq!(parse_duration_millis("250ms"), Ok(250));
    assert_eq!(parse_duration_millis("2m"), Ok(120000));
    assert_eq!(parse_duration_millis("1h"), Ok(3600000));
    assert_eq!(parse_duration_millis("40"), Ok(40));
    assert_eq!(parse_duration_millis("s"), Err(DurationError::Number(IntErrorKind::Empty)));
    assert_eq!(parse_duration_millis("5 s"), Err(DurationError::UnknownUnit));
    assert_eq!(parse_duration_millis("18446744073709551615s"), Err(DurationError::Overflow));
}

#[test]
fn notify_service_requires_existing_file() {
    assert!(NotifyConfigService::new(None, false, None).unwrap().config_path().is_none());
    let svc = NotifyConfigService::new(Some("lb.yaml".to_string()), true, None).unwrap();
    assert_eq!(svc.config_path(), Some("lb.yaml"));
    match NotifyConfigService::new(Some("missing.yaml".to_string()), false, None) {
        Err(ConfigError::FileNotFound(p)) => assert_eq!(p, "missing.yaml"),
        _ => panic!("expected FileNotFound"),
    }
    match NotifyConfigService::new(Some("locked.yaml".to_string()), true, Some("Permission denied".to_string())) {
        Err(ConfigError::Io(m)) => assert_eq!(m, "Permission denied"),
        _ => panic!("expected an I/O error"),
    }
    let _ = StaticConfigService::new();
    let _ = StaticConfigService::default();
}

#[test]
fn watcher_reloads_once_per_change() {
    let mut w = ConfigWatcher::new(1000, Some(5));
    assert_eq!(w.on_tick(1000, Some(5)), WatchTick { new_interval_ms: None, reload: false });
    assert_eq!(w.on_tick(1000, Some(9)), WatchTick { new_interval_ms: None, reload: true });
    assert_eq!(w.on_tick(1000, Some(9)), WatchTick { new_interval_ms: None, reload: false });
    assert_eq!(w.on_tick(250, Some(9)), WatchTick { new_interval_ms: Some(250), reload: false });
    assert_eq!(w.on_tick(250, None), WatchTick { new_interval_ms: None, reload: true });
    assert_eq!(w.watch_interval_ms, 250);
}

#[test]
fn from_env_reads_backend_addresses() {
    let mut vars = no_vars();
    vars.listen_address = Ok("127.0.0.1:50501".to_string());
    vars.strategy = Some("round_robin".to_string());
    vars.backend_addresses = Some(Ok(vec!["127.0.0.1:50510".to_string(), "127.0.0.1:50520".to_string()]));
    let config = ConfigBuilder::from_env(&vars).unwrap();
    assert_eq!(config.proxy.listen_address, "127.0.0.1:50501");
    assert_eq!(config.strategy, Strategy::RoundRobin);
    assert_eq!(config.backends.len(), 2);
    assert_eq!(config.backends[0].id, 0);
    assert_eq!(config.backends[0].address, "127.0.0.1:50510");
    assert_eq!(config.backends[0].name, None);
    assert_eq!(config.backends[0].weight, None);
    assert_eq!(config.backends[1].id, 1);
    assert_eq!(config.backends[1].address, "127.0.0.1:50520");
}

#[test]
fn from_env_reports_bad_backend_addresses() {
    let mut vars = no_vars();
    vars.backend_addresses = Some(Err("invalid socket address syntax".to_string()));
    assert_eq!(
        parse_error(ConfigBuilder::from_env(&vars)),
        "Invalid LEMONADE_LB_BACKEND_ADDRESSES: invalid socket address syntax"
    );
    let many: Vec<String> = (0..257).map(|i| format!("127.0.0.1:{}", 10000 + i)).collect();
    vars.backend_addresses = Some(Ok(many));
    assert_eq!(
        parse_error(ConfigBuilder::from_env(&vars)),
        "Invalid LEMONADE_LB_BACKEND_ADDRESSES: more than 256 backends"
    );
    let full: Vec<String> = (0..256).map(|i| format!("127.0.0.1:{}", 10000 + i)).collect();
    vars.backend_addresses = Some(Ok(full));
    let config = ConfigBuilder::from_env(&vars).unwrap();
    assert_eq!(config.backends.len(), 256);
    assert_eq!(config.backends[255].id, 255);
}

#[test]
fn split_addresses_keeps_every_item() {
    assert_eq!(split_addresses("127.0.0.1:50510,127.0.0.1:50520"), vec!["127.0.0.1:50510", "127.0.0.1:50520"]);
    assert_eq!(split_addresses("a"), vec!["a"]);
    assert_eq!(split_addresses(""), vec![""]);
    assert_eq!(split_addresses("a,,b"), vec!["a", "", "b"]);
    assert_eq!(split_addresses("a,"), vec!["a", ""]);
}
