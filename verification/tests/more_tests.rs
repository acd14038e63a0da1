use aws_secretsmanager_agent::error::{ConfigError, INVALID_LOG_LEVEL_ERR_MSG};
use aws_secretsmanager_agent::log_level::LogLevel;
use aws_secretsmanager_agent::numbers::parse_num;
use aws_secretsmanager_agent::prefetch::{
    PrefetchConfig, TagFilter, DEFAULT_CACHE_BUFFER_RATIO_BITS, MAX_CACHE_BUFFER_RATIO_BITS,
    MIN_CACHE_BUFFER_RATIO_BITS,
};
use aws_secretsmanager_agent::settings::{Config, ConfigFile, U16_MAX};
use std::str::FromStr;
use std::time::Duration;

fn file_with(f: impl FnOnce(&mut ConfigFile)) -> ConfigFile {
    let mut cf = ConfigFile::default();
    f(&mut cf);
    cf
}

fn build_err(cf: ConfigFile) -> ConfigError {
    match Config::build(cf) {
        Ok(_) => panic!("the file should be rejected"),
        Err(e) => e,
    }
}

#[test]
fn parse_num_doc_example() {
    assert_eq!(
        parse_num("42", ConfigError::BadMaxConn, u32::MAX as u64, Some(1..100), None),
        Ok(42)
    );
}

#[test]
fn parse_num_reads_unsigned_decimal_text() {
    let m = ConfigError::InvalidCacheSize;
    assert_eq!(parse_num("007", m, u64::MAX, None, None), Ok(7));
    assert_eq!(parse_num("+42", m, u64::MAX, None, None), Ok(42));
    assert_eq!(parse_num("18446744073709551615", m, u64::MAX, None, None), Ok(u64::MAX));
    for bad in ["", "+", "-0", "-1", " 42", "42 ", "4_2", "0x10", "18446744073709551616"] {
        assert_eq!(parse_num(bad, m, u64::MAX, None, None), Err(m), "{:?}", bad);
    }
}

#[test]
fn parse_num_applies_type_bound_and_ranges() {
    let m = ConfigError::InvalidHttpPort;
    assert_eq!(parse_num("65535", m, U16_MAX, None, None), Ok(65535));
    assert_eq!(parse_num("65536", m, U16_MAX, None, None), Err(m));
    assert_eq!(parse_num("0", m, U16_MAX, None, Some(1..1024)), Ok(0));
    assert_eq!(parse_num("1", m, U16_MAX, None, Some(1..1024)), Err(m));
    assert_eq!(parse_num("1023", m, U16_MAX, None, Some(1..1024)), Err(m));
    assert_eq!(parse_num("1024", m, U16_MAX, None, Some(1..1024)), Ok(1024));
    assert_eq!(parse_num("20", m, u64::MAX, Some(1..21), None), Ok(20));
    assert_eq!(parse_num("21", m, u64::MAX, Some(1..21), None), Err(m));
    assert_eq!(parse_num("0", m, u64::MAX, Some(1..21), None), Err(m));
}

#[test]
fn log_level_ignores_case() {
    assert_eq!(LogLevel::parse("WaRn"), Ok(LogLevel::Warn));
    assert_eq!(LogLevel::parse("eRROR"), Ok(LogLevel::Error));
    assert_eq!(LogLevel::parse("NoNe"), Ok(LogLevel::NONE));
    assert_eq!(LogLevel::parse("DEBUG"), LogLevel::parse("debug"));
    assert_eq!(LogLevel::from_lowercase("info"), Ok(LogLevel::Info));
    assert_eq!(LogLevel::from_lowercase("INFO"), Err(ConfigError::InvalidLogLevel));
}

#[test]
fn log_level_from_str_reports_message() {
    assert_eq!(LogLevel::from_str("Info"), Ok(LogLevel::Info));
    assert_eq!(LogLevel::from_str("information"), Err(INVALID_LOG_LEVEL_ERR_MSG.to_string()));
    assert_eq!(LogLevel::from_str(""), Err(INVALID_LOG_LEVEL_ERR_MSG.to_string()));
    assert_eq!(LogLevel::from_str(" info"), Err(INVALID_LOG_LEVEL_ERR_MSG.to_string()));
}

#[test]
fn default_file_builds_into_defaults() {
    let config = Config::build(ConfigFile::default()).unwrap();
    assert_eq!(config.log_level(), LogLevel::Info);
    assert!(config.log_to_file());
    assert_eq!(config.http_port(), 2773);
    assert_eq!(config.ttl(), Duration::from_secs(300));
    assert_eq!(config.cache_size(), 1000);
    assert_eq!(config.max_conn(), 800);
    assert_eq!(config.max_roles(), 20);
    assert_eq!(config.path_prefix(), "/v1/");
}

#[test]
fn overrides_are_applied() {
    let cf = file_with(|cf| {
        cf.log_level = "debug".to_string();
        cf.log_to_file = false;
        cf.http_port = "65535".to_string();
        cf.ttl_seconds = "600".to_string();
        cf.cache_size = "500".to_string();
        cf.ssrf_headers = vec!["X-Aws-Parameters-Secrets-Token".to_string()];
        cf.ssrf_env_variables = vec!["MY_TOKEN".to_string()];
        cf.path_prefix = "/other".to_string();
        cf.max_conn = "10".to_string();
        cf.max_roles = "5".to_string();
        cf.region = Some("us-west-2".to_string());
        cf.ignore_transient_errors = false;
        cf.validate_credentials = false;
    });
    let config = Config::build(cf).unwrap();
    assert_eq!(config.log_level(), LogLevel::Debug);
    assert!(!config.log_to_file());
    assert_eq!(config.http_port(), 65535);
    assert_eq!(config.ttl(), Duration::from_secs(600));
    assert_eq!(config.cache_size(), 500);
    assert_eq!(config.ssrf_headers(), vec!["X-Aws-Parameters-Secrets-Token".to_string()]);
    assert_eq!(config.ssrf_env_variables(), vec!["MY_TOKEN".to_string()]);
    assert_eq!(config.path_prefix(), "/other");
    assert_eq!(config.max_conn(), 10);
    assert_eq!(config.max_roles(), 5);
    assert_eq!(config.region(), Some(&"us-west-2".to_string()));
    assert!(!config.ignore_transient_errors());
    assert!(!config.validate_credentials());
    let copy = config.clone();
    assert_eq!(copy.region(), Some(&"us-west-2".to_string()));
    assert_eq!(copy.ttl(), Duration::from_secs(600));
}

#[test]
fn boundary_values_are_accepted() {
    let config = Config::build(file_with(|cf| {
        cf.http_port = "0".to_string();
        cf.ttl_seconds = "3600".to_string();
        cf.cache_size = "1".to_string();
        cf.max_conn = "1000".to_string();
        cf.max_roles = "1".to_string();
        cf.path_prefix = "/".to_string();
    }))
    .unwrap();
    assert_eq!(config.http_port(), 0);
    assert_eq!(config.ttl(), Duration::from_secs(3600));
    assert_eq!(config.cache_size(), 1);
    assert_eq!(config.max_conn(), 1000);
    assert_eq!(config.max_roles(), 1);
    let config = Config::build(file_with(|cf| {
        cf.http_port = "1024".to_string();
        cf.ttl_seconds = "0".to_string();
        cf.max_roles = "20".to_string();
    }))
    .unwrap();
    assert_eq!(config.http_port(), 1024);
    assert_eq!(config.ttl(), Duration::from_secs(0));
    assert_eq!(config.max_roles(), 20);
}

#[test]
fn first_broken_rule_is_reported() {
    let cf = file_with(|cf| {
        cf.log_level = "loud".to_string();
        cf.http_port = "80".to_string();
        cf.path_prefix = "v1".to_string();
    });
    assert_eq!(build_err(cf), ConfigError::InvalidLogLevel);
    let cf = file_with(|cf| {
        cf.log_level = "loud".to_string();
        cf.prefetch = Some(PrefetchConfig { max_jitter_seconds: 11, ..PrefetchConfig::default() });
    });
    assert_eq!(build_err(cf), ConfigError::InvalidMaxJitter);
    let cf = file_with(|cf| {
        cf.ssrf_headers = vec![];
        cf.ssrf_env_variables = vec![];
    });
    assert_eq!(build_err(cf), ConfigError::EmptySsrfList);
    let cf = file_with(|cf| {
        cf.cache_size = "0".to_string();
        cf.max_conn = "0".to_string();
    });
    assert_eq!(build_err(cf), ConfigError::InvalidCacheSize);
}

#[test]
fn ratio_bounds_follow_single_precision_order() {
    assert_eq!(f32::from_bits(MIN_CACHE_BUFFER_RATIO_BITS), 0.1f32);
    assert_eq!(f32::from_bits(MAX_CACHE_BUFFER_RATIO_BITS), 1.0f32);
    assert_eq!(f32::from_bits(DEFAULT_CACHE_BUFFER_RATIO_BITS), 0.8f32);
    for ratio in [f32::NAN, -0.0f32, f32::INFINITY, f32::NEG_INFINITY, 0.099999994f32, 1.0000001f32] {
        let cf = file_with(|cf| {
            cf.prefetch = Some(PrefetchConfig {
                cache_buffer_ratio_bits: ratio.to_bits(),
                ..PrefetchConfig::default()
            })
        });
        assert_eq!(build_err(cf), ConfigError::InvalidCacheBufferRatio, "{}", ratio);
    }
}

#[test]
fn built_prefetch_is_kept() {
    let cf = file_with(|cf| {
        cf.prefetch = Some(PrefetchConfig {
            cache_buffer_ratio_bits: 0.6f32.to_bits(),
            max_jitter_seconds: 5,
            filter_tags: vec![TagFilter { key: "Team".to_string(), role_arn: Some("arn".to_string()) }],
            secrets: vec![],
        })
    });
    let config = Config::build(cf).unwrap();
    assert!(config.prefetch().is_enabled());
    assert_eq!(f32::from_bits(config.prefetch().cache_buffer_ratio_bits), 0.6);
    assert_eq!(config.prefetch().max_jitter_seconds, 5);
    assert_eq!(config.prefetch().filter_tags[0].key, "Team");
    assert_eq!(config.prefetch().filter_tags[0].role_arn.as_deref(), Some("arn"));
    let copy = config.prefetch().clone();
    assert_eq!(copy.filter_tags[0].key, "Team");
}

#[test]
fn log_level_debug_text_reads_back() {
    for level in [LogLevel::Debug, LogLevel::Info, LogLevel::Warn, LogLevel::Error, LogLevel::NONE] {
        assert_eq!(LogLevel::from_str(&format!("{:?}", level)), Ok(level));
    }
}
