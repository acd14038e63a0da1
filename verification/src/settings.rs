use vstd::prelude::*;
use std::time::Duration;

use crate::error::ConfigError;
use crate::log_level::{spec_parse_log_level, LogLevel};
use crate::numbers::{parse_num, spec_parse_num};
use crate::prefetch::{
    cache_buffer_ratio_in_range, default_prefetch_view, PrefetchConfig, PrefetchConfigView,
    MAX_JITTER_SECONDS,
};
use crate::log_level::spec_level_of_lowercase;
use crate::text::starts_with_char;

verus! {

/// The largest value of a `u16`, as the bound of `parse_num`.
pub const U16_MAX: u64 = 65535;

/// The configurations as they are read from the file, before validation.
#[derive(Debug, Clone)]
pub struct ConfigFile {
    pub log_level: String,
    pub log_to_file: bool,
    pub http_port: String,
    pub ttl_seconds: String,
    pub cache_size: String,
    pub ssrf_headers: Vec<String>,
    pub ssrf_env_variables: Vec<String>,
    pub path_prefix: String,
    pub max_conn: String,
    pub max_roles: String,
    pub region: Option<String>,
    pub ignore_transient_errors: bool,
    pub validate_credentials: bool,
    pub prefetch: Option<PrefetchConfig>,
}

/// The text of an optional string.
pub open spec fn opt_text(o: Option<String>) -> Option<Seq<char>> {
    match o {
        Some(s) => Some(s@),
        None => None,
    }
}

/// The configurations that are used by the daemon.
#[derive(Debug)]
pub struct Config {
    log_level: LogLevel,
    log_to_file: bool,
    http_port: u16,
    ttl_secs: u64,
    cache_size: usize,
    ssrf_headers: Vec<String>,
    ssrf_env_variables: Vec<String>,
    path_prefix: String,
    max_conn: usize,
    max_roles: usize,
    region: Option<String>,
    ignore_transient_errors: bool,
    validate_credentials: bool,
    prefetch: PrefetchConfig,
}

/// The contents of a `Config`.
pub struct ConfigView {
    /// The level of logging the agent provides.
    pub log_level: LogLevel,
    /// Whether to write logs to a file or to stdout/stderr.
    pub log_to_file: bool,
    /// The port for the local HTTP server.
    pub http_port: u16,
    /// The `time to live` of a secret, in seconds.
    pub ttl_secs: u64,
    /// Maximum number secrets that can be stored in the cache.
    pub cache_size: usize,
    /// The request headers which will be checked in order for the SSRF token.
    pub ssrf_headers: Seq<Seq<char>>,
    /// The environment variable names to search through for the SSRF token.
    pub ssrf_env_variables: Seq<Seq<char>>,
    /// The prefix for path based requests.
    pub path_prefix: Seq<char>,
    /// The maximum number of simultaneous connections.
    pub max_conn: usize,
    /// The maximum number of assumed roles for cross-account access.
    pub max_roles: usize,
    /// The AWS Region that will be used to send the Secrets Manager request to.
    pub region: Option<Seq<char>>,
    /// Whether the agent should serve cached data on transient refresh errors.
    pub ignore_transient_errors: bool,
    /// Whether the agent should validate AWS credentials at startup.
    pub validate_credentials: bool,
    /// Pre-fetch configuration for warming the cache at startup.
    pub prefetch: PrefetchConfigView,
}

impl View for Config {
    type V = ConfigView;

    closed spec fn view(&self) -> ConfigView {
        ConfigView {
            log_level: self.log_level,
            log_to_file: self.log_to_file,
            http_port: self.http_port,
            ttl_secs: self.ttl_secs,
            cache_size: self.cache_size,
            ssrf_headers: self.ssrf_headers.deep_view(),
            ssrf_env_variables: self.ssrf_env_variables.deep_view(),
            path_prefix: self.path_prefix@,
            max_conn: self.max_conn,
            max_roles: self.max_roles,
            region: opt_text(self.region),
            ignore_transient_errors: self.ignore_transient_errors,
            validate_credentials: self.validate_credentials,
            prefetch: self.prefetch@,
        }
    }
}

/// The range in which the HTTP port must not lie: the privileged ports.
pub open spec fn http_port_excluded() -> std::ops::Range<u64> {
    std::ops::Range { start: 1, end: 1024 }
}

/// The range in which the time to live, in seconds, must lie.
pub open spec fn ttl_allowed() -> std::ops::Range<u64> {
    std::ops::Range { start: 0, end: 3601 }
}

/// The range in which the cache size must lie before it is checked to be non-zero.
pub open spec fn cache_size_allowed() -> std::ops::Range<u64> {
    std::ops::Range { start: 0, end: 1001 }
}

/// The range in which the maximum number of connections must lie.
pub open spec fn max_conn_allowed() -> std::ops::Range<u64> {
    std::ops::Range { start: 1, end: 1001 }
}

/// The range in which the maximum number of assumed roles must lie.
pub open spec fn max_roles_allowed() -> std::ops::Range<u64> {
    std::ops::Range { start: 1, end: 21 }
}

/// Whether the contents of a configuration meet every rule that `build`
/// checks.
pub open spec fn valid_config_view(v: ConfigView) -> bool {
    &&& !(1 <= v.http_port && v.http_port < 1024)
    &&& v.ttl_secs <= 3600
    &&& 1 <= v.cache_size <= 1000
    &&& 1 <= v.max_conn <= 1000
    &&& 1 <= v.max_roles <= 20
    &&& v.ssrf_headers.len() > 0
    &&& v.ssrf_env_variables.len() > 0
    &&& v.path_prefix.len() > 0 && v.path_prefix[0] == '/'
    &&& cache_buffer_ratio_in_range(v.prefetch.cache_buffer_ratio_bits)
    &&& v.prefetch.max_jitter_seconds <= MAX_JITTER_SECONDS
}

/// The prefetch configuration of a file, or the default one when it has none.
pub open spec fn prefetch_or_default(p: Option<PrefetchConfig>) -> PrefetchConfigView {
    match p {
        Some(p) => p@,
        None => default_prefetch_view(),
    }
}

/// What `Config::build` gives back for the file `cf`: the first rule that
/// the file breaks, in the order the agent checks them, or the validated
/// configuration.
pub open spec fn spec_build(cf: ConfigFile) -> Result<ConfigView, ConfigError> {
    let prefetch = prefetch_or_default(cf.prefetch);
    if !cache_buffer_ratio_in_range(prefetch.cache_buffer_ratio_bits) {
        Err(ConfigError::InvalidCacheBufferRatio)
    } else if prefetch.max_jitter_seconds > MAX_JITTER_SECONDS {
        Err(ConfigError::InvalidMaxJitter)
    } else {
        match spec_parse_log_level(cf.log_level@) {
            Err(e) => Err(e),
            Ok(log_level) => match spec_parse_num(
                cf.http_port@,
                ConfigError::InvalidHttpPort,
                U16_MAX,
                None,
                Some(http_port_excluded()),
            ) {
                Err(e) => Err(e),
                Ok(http_port) => match spec_parse_num(
                    cf.ttl_seconds@,
                    ConfigError::InvalidTtlSeconds,
                    u64::MAX,
                    Some(ttl_allowed()),
                    None,
                ) {
                    Err(e) => Err(e),
                    Ok(ttl_secs) => match spec_parse_num(
                        cf.cache_size@,
                        ConfigError::InvalidCacheSize,
                        usize::MAX as u64,
                        Some(cache_size_allowed()),
                        None,
                    ) {
                        Err(e) => Err(e),
                        Ok(cache_size) => if cache_size == 0 {
                            Err(ConfigError::InvalidCacheSize)
                        } else {
                            match spec_parse_num(
                                cf.max_conn@,
                                ConfigError::BadMaxConn,
                                usize::MAX as u64,
                                Some(max_conn_allowed()),
                                None,
                            ) {
                                Err(e) => Err(e),
                                Ok(max_conn) => match spec_parse_num(
                                    cf.max_roles@,
                                    ConfigError::BadMaxRoles,
                                    usize::MAX as u64,
                                    Some(max_roles_allowed()),
                                    None,
                                ) {
                                    Err(e) => Err(e),
                                    Ok(max_roles) => if cf.ssrf_headers@.len() == 0 {
                                        Err(ConfigError::EmptySsrfList)
                                    } else if cf.ssrf_env_variables@.len() == 0 {
                                        Err(ConfigError::EmptyEnvList)
                                    } else if !(cf.path_prefix@.len() > 0
                                        && cf.path_prefix@[0] == '/') {
                                        Err(ConfigError::BadPrefix)
                                    } else {
                                        Ok(
                                            ConfigView {
                                                log_level,
                                                log_to_file: cf.log_to_file,
                                                http_port: http_port as u16,
                                                ttl_secs,
                                                cache_size: cache_size as usize,
                                                ssrf_headers: cf.ssrf_headers.deep_view(),
                                                ssrf_env_variables: cf.ssrf_env_variables.deep_view(),
                                                path_prefix: cf.path_prefix@,
                                                max_conn: max_conn as usize,
                                                max_roles: max_roles as usize,
                                                region: opt_text(cf.region),
                                                ignore_transient_errors: cf.ignore_transient_errors,
                                                validate_credentials: cf.validate_credentials,
                                                prefetch,
                                            },
                                        )
                                    },
                                },
                            }
                        },
                    },
                },
            },
        }
    }
}

/// The contents of the outcome of `Config::build`.
pub open spec fn build_outcome(res: Result<Config, ConfigError>) -> Result<ConfigView, ConfigError> {
    match res {
        Ok(c) => Ok(c@),
        Err(e) => Err(e),
    }
}

impl Config {
    #[verifier::type_invariant]
    closed spec fn well_formed(self) -> bool {
        valid_config_view(self@)
    }

    /// Fills in the Config instance from the specified config overrides (or
    /// defaults), checking each of them.
    ///
    /// # Returns
    ///
    /// * `Ok(Config)` - If no errors were found in the overrides.
    /// * `Err(ConfigError)` - The first configuration error found.
    pub fn build(config_file: ConfigFile) -> (res: Result<Config, ConfigError>)
        ensures
            build_outcome(res) == spec_build(config_file),
    {
        let ghost cf = config_file;
        let prefetch = match config_file.prefetch {
            Some(p) => p,
            None => PrefetchConfig::default(),
        };
        if !(crate::prefetch::MIN_CACHE_BUFFER_RATIO_BITS <= prefetch.cache_buffer_ratio_bits
            && prefetch.cache_buffer_ratio_bits <= crate::prefetch::MAX_CACHE_BUFFER_RATIO_BITS) {
            return Err(ConfigError::InvalidCacheBufferRatio);
        }
        if prefetch.max_jitter_seconds > MAX_JITTER_SECONDS {
            return Err(ConfigError::InvalidMaxJitter);
        }
        let log_level = match LogLevel::parse(config_file.log_level.as_str()) {
            Ok(level) => level,
            Err(e) => {
                return Err(e);
            },
        };
        let http_port = match parse_num(
            config_file.http_port.as_str(),
            ConfigError::InvalidHttpPort,
            U16_MAX,
            None,
            Some(1..1024),
        ) {
            Ok(v) => v,
            Err(e) => {
                return Err(e);
            },
        };
        let ttl_secs = match parse_num(
            config_file.ttl_seconds.as_str(),
            ConfigError::InvalidTtlSeconds,
            u64::MAX,
            Some(0..3601),
            None,
        ) {
            Ok(v) => v,
            Err(e) => {
                return Err(e);
            },
        };
        let cache_size = match parse_num(
            config_file.cache_size.as_str(),
            ConfigError::InvalidCacheSize,
            usize::MAX as u64,
            Some(0..1001),
            None,
        ) {
            Ok(v) => v,
            Err(e) => {
                return Err(e);
            },
        };
        if cache_size == 0 {
            return Err(ConfigError::InvalidCacheSize);
        }
        let max_conn = match parse_num(
            config_file.max_conn.as_str(),
            ConfigError::BadMaxConn,
            usize::MAX as u64,
            Some(1..1001),
            None,
        ) {
            Ok(v) => v,
            Err(e) => {
                return Err(e);
            },
        };
        let max_roles = match parse_num(
            config_file.max_roles.as_str(),
            ConfigError::BadMaxRoles,
            usize::MAX as u64,
            Some(1..21),
            None,
        ) {
            Ok(v) => v,
            Err(e) => {
                return Err(e);
            },
        };
        if config_file.ssrf_headers.len() == 0 {
            return Err(ConfigError::EmptySsrfList);
        }
        if config_file.ssrf_env_variables.len() == 0 {
            return Err(ConfigError::EmptyEnvList);
        }
        if !starts_with_char(config_file.path_prefix.as_str(), '/') {
            return Err(ConfigError::BadPrefix);
        }
        let config = Config {
            log_level,
            log_to_file: config_file.log_to_file,
            http_port: http_port as u16,
            ttl_secs,
            cache_size: cache_size as usize,
            ssrf_headers: config_file.ssrf_headers,
            ssrf_env_variables: config_file.ssrf_env_variables,
            path_prefix: config_file.path_prefix,
            max_conn: max_conn as usize,
            max_roles: max_roles as usize,
            region: config_file.region,
            ignore_transient_errors: config_file.ignore_transient_errors,
            validate_credentials: config_file.validate_credentials,
            prefetch,
        };
        Ok(config)
    }
}


/// The default log level.
pub const DEFAULT_LOG_LEVEL: &'static str = "info";
/// The default HTTP port.
pub const DEFAULT_HTTP_PORT: &'static str = "2773";
/// The default time to live, in seconds.
pub const DEFAULT_TTL_SECONDS: &'static str = "300";
/// The default cache size.
pub const DEFAULT_CACHE_SIZE: &'static str = "1000";
/// The default path prefix.
pub const DEFAULT_PATH_PREFIX: &'static str = "/v1/";
/// The default maximum number of simultaneous connections.
pub const DEFAULT_MAX_CONNECTIONS: &'static str = "800";
/// The default maximum number of assumed roles.
pub const DEFAULT_MAX_ROLES: &'static str = "20";
/// The first default SSRF header.
pub const DEFAULT_SSRF_HEADER_AWS: &'static str = "X-Aws-Parameters-Secrets-Token";
/// The second default SSRF header.
pub const DEFAULT_SSRF_HEADER_VAULT: &'static str = "X-Vault-Token";
/// The first default SSRF environment variable.
pub const DEFAULT_SSRF_ENV_AWS_TOKEN: &'static str = "AWS_TOKEN";
/// The second default SSRF environment variable.
pub const DEFAULT_SSRF_ENV_SESSION_TOKEN: &'static str = "AWS_SESSION_TOKEN";
/// The third default SSRF environment variable.
pub const DEFAULT_SSRF_ENV_CONTAINER_TOKEN: &'static str = "AWS_CONTAINER_AUTHORIZATION_TOKEN";
/// Whether logs go to a file by default.
pub const DEFAULT_LOG_TO_FILE: bool = true;
/// Whether cached data is served on transient refresh errors by default.
pub const DEFAULT_IGNORE_TRANSIENT_ERRORS: bool = true;
/// Whether credentials are validated at startup by default.
pub const DEFAULT_STS_CHECK: bool = true;

/// The contents of the default configuration file: every setting at its
/// default, no region and no prefetch section.
pub open spec fn default_file_holds(cf: ConfigFile) -> bool {
    &&& cf.log_level@ == DEFAULT_LOG_LEVEL@
    &&& cf.log_to_file == DEFAULT_LOG_TO_FILE
    &&& cf.http_port@ == DEFAULT_HTTP_PORT@
    &&& cf.ttl_seconds@ == DEFAULT_TTL_SECONDS@
    &&& cf.cache_size@ == DEFAULT_CACHE_SIZE@
    &&& cf.ssrf_headers.deep_view() == seq![DEFAULT_SSRF_HEADER_AWS@, DEFAULT_SSRF_HEADER_VAULT@]
    &&& cf.ssrf_env_variables.deep_view() == seq![
        DEFAULT_SSRF_ENV_AWS_TOKEN@,
        DEFAULT_SSRF_ENV_SESSION_TOKEN@,
        DEFAULT_SSRF_ENV_CONTAINER_TOKEN@,
    ]
    &&& cf.path_prefix@ == DEFAULT_PATH_PREFIX@
    &&& cf.max_conn@ == DEFAULT_MAX_CONNECTIONS@
    &&& cf.max_roles@ == DEFAULT_MAX_ROLES@
    &&& cf.region is None
    &&& cf.ignore_transient_errors == DEFAULT_IGNORE_TRANSIENT_ERRORS
    &&& cf.validate_credentials == DEFAULT_STS_CHECK
    &&& cf.prefetch is None
}

/// The default configuration.
pub open spec fn default_config_view() -> ConfigView {
    ConfigView {
        log_level: LogLevel::Info,
        log_to_file: true,
        http_port: 2773,
        ttl_secs: 300,
        cache_size: 1000,
        ssrf_headers: seq![DEFAULT_SSRF_HEADER_AWS@, DEFAULT_SSRF_HEADER_VAULT@],
        ssrf_env_variables: seq![
            DEFAULT_SSRF_ENV_AWS_TOKEN@,
            DEFAULT_SSRF_ENV_SESSION_TOKEN@,
            DEFAULT_SSRF_ENV_CONTAINER_TOKEN@,
        ],
        path_prefix: DEFAULT_PATH_PREFIX@,
        max_conn: 800,
        max_roles: 20,
        region: None,
        ignore_transient_errors: true,
        validate_credentials: true,
        prefetch: default_prefetch_view(),
    }
}

impl Default for ConfigFile {
    /// The configuration file that holds every default.
    fn default() -> (r: Self)
        ensures
            default_file_holds(r),
    {
        let mut ssrf_headers: Vec<String> = Vec::new();
        ssrf_headers.push(DEFAULT_SSRF_HEADER_AWS.to_owned());
        ssrf_headers.push(DEFAULT_SSRF_HEADER_VAULT.to_owned());
        let mut ssrf_env_variables: Vec<String> = Vec::new();
        ssrf_env_variables.push(DEFAULT_SSRF_ENV_AWS_TOKEN.to_owned());
        ssrf_env_variables.push(DEFAULT_SSRF_ENV_SESSION_TOKEN.to_owned());
        ssrf_env_variables.push(DEFAULT_SSRF_ENV_CONTAINER_TOKEN.to_owned());
        let r = ConfigFile {
            log_level: DEFAULT_LOG_LEVEL.to_owned(),
            log_to_file: DEFAULT_LOG_TO_FILE,
            http_port: DEFAULT_HTTP_PORT.to_owned(),
            ttl_seconds: DEFAULT_TTL_SECONDS.to_owned(),
            cache_size: DEFAULT_CACHE_SIZE.to_owned(),
            ssrf_headers,
            ssrf_env_variables,
            path_prefix: DEFAULT_PATH_PREFIX.to_owned(),
            max_conn: DEFAULT_MAX_CONNECTIONS.to_owned(),
            max_roles: DEFAULT_MAX_ROLES.to_owned(),
            region: None,
            ignore_transient_errors: DEFAULT_IGNORE_TRANSIENT_ERRORS,
            validate_credentials: DEFAULT_STS_CHECK,
            prefetch: None,
        };
        assert(r.ssrf_headers.deep_view() =~= seq![DEFAULT_SSRF_HEADER_AWS@, DEFAULT_SSRF_HEADER_VAULT@]);
        assert(r.ssrf_env_variables.deep_view() =~= seq![
            DEFAULT_SSRF_ENV_AWS_TOKEN@,
            DEFAULT_SSRF_ENV_SESSION_TOKEN@,
            DEFAULT_SSRF_ENV_CONTAINER_TOKEN@,
        ]);
        r
    }
}

/// The default settings pass every check: the file that holds them builds
/// into the default configuration.
pub proof fn lemma_default_file_builds(cf: ConfigFile)
    requires
        default_file_holds(cf),
    ensures
        spec_build(cf) == Ok::<ConfigView, ConfigError>(default_config_view()),
{
    reveal_strlit("info");
    reveal_strlit("debug");
    reveal_strlit("2773");
    reveal_strlit("300");
    reveal_strlit("1000");
    reveal_strlit("800");
    reveal_strlit("20");
    reveal_strlit("/v1/");
    assert(crate::text::ascii_lowercase("info"@) =~= "info"@);
    assert(spec_level_of_lowercase("info"@) == Some(LogLevel::Info));
    assert("2773"@ =~= seq!['2', '7', '7', '3']);
    crate::numbers::lemma_digits4('2', '7', '7', '3');
    assert("300"@ =~= seq!['3', '0', '0']);
    crate::numbers::lemma_digits3('3', '0', '0');
    assert("1000"@ =~= seq!['1', '0', '0', '0']);
    crate::numbers::lemma_digits4('1', '0', '0', '0');
    assert("800"@ =~= seq!['8', '0', '0']);
    crate::numbers::lemma_digits3('8', '0', '0');
    assert("20"@ =~= seq!['2', '0']);
    crate::numbers::lemma_digits2('2', '0');
    assert(spec_parse_log_level(cf.log_level@) == Ok::<LogLevel, ConfigError>(LogLevel::Info));
    assert(spec_parse_num(cf.http_port@, ConfigError::InvalidHttpPort, U16_MAX, None, Some(http_port_excluded()))
        == Ok::<u64, ConfigError>(2773));
    assert(spec_parse_num(cf.ttl_seconds@, ConfigError::InvalidTtlSeconds, u64::MAX, Some(ttl_allowed()), None)
        == Ok::<u64, ConfigError>(300));
    assert(spec_parse_num(cf.cache_size@, ConfigError::InvalidCacheSize, usize::MAX as u64, Some(cache_size_allowed()), None)
        == Ok::<u64, ConfigError>(1000));
    assert(spec_parse_num(cf.max_conn@, ConfigError::BadMaxConn, usize::MAX as u64, Some(max_conn_allowed()), None)
        == Ok::<u64, ConfigError>(800));
    assert(spec_parse_num(cf.max_roles@, ConfigError::BadMaxRoles, usize::MAX as u64, Some(max_roles_allowed()), None)
        == Ok::<u64, ConfigError>(20));
    assert(cf.ssrf_headers@.len() == cf.ssrf_headers.deep_view().len());
    assert(cf.ssrf_env_variables@.len() == cf.ssrf_env_variables.deep_view().len());
    assert(cf.path_prefix@.len() > 0 && cf.path_prefix@[0] == '/');
}

/// What std's `Duration::from_secs` gives back for `secs`: the span of
/// `secs` whole seconds.
pub uninterp spec fn spec_duration_from_secs(secs: u64) -> Duration;

/// Makes the span of `secs` whole seconds with std's `Duration::from_secs`,
/// which never fails; the contract names its result.
#[verifier::external_body]
fn duration_from_secs(secs: u64) -> (r: Duration)
    ensures
        r == spec_duration_from_secs(secs),
{
    Duration::from_secs(secs)
}

impl Clone for Config {
    fn clone(&self) -> (r: Self)
        ensures
            r@ == self@,
    {
        proof {
            use_type_invariant(self);
        }
        let ssrf_headers = self.ssrf_headers.clone();
        let ssrf_env_variables = self.ssrf_env_variables.clone();
        assert(ssrf_headers.deep_view() =~= self.ssrf_headers.deep_view());
        assert(ssrf_env_variables.deep_view() =~= self.ssrf_env_variables.deep_view());
        Config {
            log_level: self.log_level,
            log_to_file: self.log_to_file,
            http_port: self.http_port,
            ttl_secs: self.ttl_secs,
            cache_size: self.cache_size,
            ssrf_headers,
            ssrf_env_variables,
            path_prefix: self.path_prefix.clone(),
            max_conn: self.max_conn,
            max_roles: self.max_roles,
            region: self.region.clone(),
            ignore_transient_errors: self.ignore_transient_errors,
            validate_credentials: self.validate_credentials,
            prefetch: self.prefetch.clone(),
        }
    }
}

impl Default for Config {
    /// The default configuration options.
    fn default() -> (r: Self)
        ensures
            r@ == default_config_view(),
    {
        let file = ConfigFile::default();
        proof {
            lemma_default_file_builds(file);
        }
        match Config::build(file) {
            Ok(config) => config,
            Err(_) => {
                proof {
                    assert(false);
                }
                vstd::pervasive::unreached()
            },
        }
    }
}

impl Config {
    /// The level of logging the agent provides ie. debug, info, warn, error or none.
    /// Defaults to Info.
    pub fn log_level(&self) -> (r: LogLevel)
        ensures
            r == self@.log_level,
    {
        self.log_level
    }

    /// Whether to write logs to a file (default) or to stdout/stderr.
    pub fn log_to_file(&self) -> (r: bool)
        ensures
            r == self@.log_to_file,
    {
        self.log_to_file
    }

    /// The port for the local HTTP server to listen for incoming requests.
    /// Defaults to 2773; never one of the privileged ports 1 to 1023.
    pub fn http_port(&self) -> (r: u16)
        ensures
            r == self@.http_port,
            !(1 <= r && r < 1024),
    {
        proof {
            use_type_invariant(self);
        }
        self.http_port
    }

    /// The `time to live` of a secret in the cache: at most 3600 seconds.
    /// Defaults to 300 seconds.
    pub fn ttl(&self) -> (r: Duration)
        ensures
            r == spec_duration_from_secs(self@.ttl_secs),
            self@.ttl_secs <= 3600,
    {
        proof {
            use_type_invariant(self);
        }
        duration_from_secs(self.ttl_secs)
    }

    /// Maximum number secrets that can be stored in the cache: from 1 to 1000.
    /// Defaults to 1000.
    pub fn cache_size(&self) -> (r: usize)
        ensures
            r == self@.cache_size,
            1 <= r <= 1000,
    {
        proof {
            use_type_invariant(self);
        }
        self.cache_size
    }

    /// A list of request headers which will be checked for the SSRF token
    /// (can not be empty).
    pub fn ssrf_headers(&self) -> (r: Vec<String>)
        ensures
            r.deep_view() == self@.ssrf_headers,
            r@.len() > 0,
    {
        proof {
            use_type_invariant(self);
        }
        let r = self.ssrf_headers.clone();
        assert(r.deep_view() =~= self.ssrf_headers.deep_view());
        r
    }

    /// The names of the environment variables containing the SSRF token
    /// (can not be empty).
    pub fn ssrf_env_variables(&self) -> (r: Vec<String>)
        ensures
            r.deep_view() == self@.ssrf_env_variables,
            r@.len() > 0,
    {
        proof {
            use_type_invariant(self);
        }
        let r = self.ssrf_env_variables.clone();
        assert(r.deep_view() =~= self.ssrf_env_variables.deep_view());
        r
    }

    /// The prefix for path based requests (must begin with /). Defaults to /v1/.
    pub fn path_prefix(&self) -> (r: String)
        ensures
            r@ == self@.path_prefix,
            r@.len() > 0 && r@[0] == '/',
    {
        proof {
            use_type_invariant(self);
        }
        self.path_prefix.clone()
    }

    /// The maximum number of simultaneous connections (1000 max). Defaults to 800.
    pub fn max_conn(&self) -> (r: usize)
        ensures
            r == self@.max_conn,
            1 <= r <= 1000,
    {
        proof {
            use_type_invariant(self);
        }
        self.max_conn
    }

    /// The maximum number of assumed roles for cross-account access (20 max).
    /// Defaults to 20.
    pub fn max_roles(&self) -> (r: usize)
        ensures
            r == self@.max_roles,
            1 <= r <= 20,
    {
        proof {
            use_type_invariant(self);
        }
        self.max_roles
    }

    /// The AWS Region that will be used to send the Secrets Manager request to.
    pub fn region(&self) -> (r: Option<&String>)
        ensures
            match r {
                Some(s) => self@.region == Some(s@),
                None => self@.region is None,
            },
    {
        self.region.as_ref()
    }

    /// Whether the client should serve cached data on transient refresh
    /// errors. Defaults to true.
    pub fn ignore_transient_errors(&self) -> (r: bool)
        ensures
            r == self@.ignore_transient_errors,
    {
        self.ignore_transient_errors
    }

    /// Whether to validate AWS credentials on startup. Defaults to true.
    pub fn validate_credentials(&self) -> (r: bool)
        ensures
            r == self@.validate_credentials,
    {
        self.validate_credentials
    }

    /// The pre-fetch configuration for warming the cache at startup, with its
    /// ratio between one tenth and one and its jitter at most 10 seconds.
    pub fn prefetch(&self) -> (r: &PrefetchConfig)
        ensures
            r@ == self@.prefetch,
            cache_buffer_ratio_in_range(r.cache_buffer_ratio_bits),
            r.max_jitter_seconds <= MAX_JITTER_SECONDS,
    {
        proof {
            use_type_invariant(self);
        }
        &self.prefetch
    }
}


/// Every configuration that `build` accepts meets every rule: a port that is
/// not privileged, a time to live of at most an hour, a cache size from 1 to
/// 1000, from 1 to 1000 connections, from 1 to 20 roles, at least one SSRF
/// header and one SSRF variable, a path prefix that begins with `/`, a
/// prefetch ratio between one tenth and one and a jitter of at most 10 s.
pub proof fn lemma_built_config_is_valid(cf: ConfigFile)
    ensures
        spec_build(cf) matches Ok(v) ==> valid_config_view(v),
{
    crate::numbers::lemma_parse_num_respects_ranges(cf.http_port@, ConfigError::InvalidHttpPort, U16_MAX, None, Some(http_port_excluded()));
    crate::numbers::lemma_parse_num_respects_ranges(cf.ttl_seconds@, ConfigError::InvalidTtlSeconds, u64::MAX, Some(ttl_allowed()), None);
    crate::numbers::lemma_parse_num_respects_ranges(cf.cache_size@, ConfigError::InvalidCacheSize, usize::MAX as u64, Some(cache_size_allowed()), None);
    crate::numbers::lemma_parse_num_respects_ranges(cf.max_conn@, ConfigError::BadMaxConn, usize::MAX as u64, Some(max_conn_allowed()), None);
    crate::numbers::lemma_parse_num_respects_ranges(cf.max_roles@, ConfigError::BadMaxRoles, usize::MAX as u64, Some(max_roles_allowed()), None);
    assert(cf.ssrf_headers@.len() == cf.ssrf_headers.deep_view().len());
    assert(cf.ssrf_env_variables@.len() == cf.ssrf_env_variables.deep_view().len());
}

/// `build` accepts a file exactly when each of its settings is valid on its
/// own, whatever the order in which they are checked.
pub proof fn lemma_build_accepts_iff_each_setting_valid(cf: ConfigFile)
    ensures
        spec_build(cf) is Ok <==> {
            let p = prefetch_or_default(cf.prefetch);
            &&& cache_buffer_ratio_in_range(p.cache_buffer_ratio_bits)
            &&& p.max_jitter_seconds <= MAX_JITTER_SECONDS
            &&& spec_parse_log_level(cf.log_level@) is Ok
            &&& spec_parse_num(cf.http_port@, ConfigError::InvalidHttpPort, U16_MAX, None, Some(http_port_excluded())) is Ok
            &&& spec_parse_num(cf.ttl_seconds@, ConfigError::InvalidTtlSeconds, u64::MAX, Some(ttl_allowed()), None) is Ok
            &&& spec_parse_num(cf.cache_size@, ConfigError::InvalidCacheSize, usize::MAX as u64, Some(cache_size_allowed()), None) matches Ok(n) && n != 0
            &&& spec_parse_num(cf.max_conn@, ConfigError::BadMaxConn, usize::MAX as u64, Some(max_conn_allowed()), None) is Ok
            &&& spec_parse_num(cf.max_roles@, ConfigError::BadMaxRoles, usize::MAX as u64, Some(max_roles_allowed()), None) is Ok
            &&& cf.ssrf_headers@.len() > 0
            &&& cf.ssrf_env_variables@.len() > 0
            &&& cf.path_prefix@.len() > 0 && cf.path_prefix@[0] == '/'
        },
{
}

/// A file that `build` accepts keeps the settings that need no conversion:
/// the lists, the prefix, the region, the flags and the prefetch section.
pub proof fn lemma_build_keeps_given_settings(cf: ConfigFile)
    ensures
        spec_build(cf) matches Ok(v) ==> {
            &&& v.log_to_file == cf.log_to_file
            &&& v.ssrf_headers == cf.ssrf_headers.deep_view()
            &&& v.ssrf_env_variables == cf.ssrf_env_variables.deep_view()
            &&& v.path_prefix == cf.path_prefix@
            &&& v.region == opt_text(cf.region)
            &&& v.ignore_transient_errors == cf.ignore_transient_errors
            &&& v.validate_credentials == cf.validate_credentials
            &&& v.prefetch == prefetch_or_default(cf.prefetch)
        },
{
}


/// A file that `build` accepts keeps each number it wrote, as written,
/// whatever its other settings: the port, the time to live, the cache size
/// and the two limits are the values of their decimal texts.
pub proof fn lemma_build_keeps_written_numbers(cf: ConfigFile)
    ensures
        spec_build(cf) matches Ok(v) ==> {
            &&& crate::numbers::spec_parse_unsigned(cf.http_port@, U16_MAX as int) == Some(v.http_port as nat)
            &&& crate::numbers::spec_parse_unsigned(cf.ttl_seconds@, u64::MAX as int) == Some(v.ttl_secs as nat)
            &&& crate::numbers::spec_parse_unsigned(cf.cache_size@, usize::MAX as int) == Some(v.cache_size as nat)
            &&& crate::numbers::spec_parse_unsigned(cf.max_conn@, usize::MAX as int) == Some(v.max_conn as nat)
            &&& crate::numbers::spec_parse_unsigned(cf.max_roles@, usize::MAX as int) == Some(v.max_roles as nat)
            &&& spec_parse_log_level(cf.log_level@) == Ok::<LogLevel, ConfigError>(v.log_level)
        },
{
    crate::numbers::lemma_parse_num_respects_ranges(cf.http_port@, ConfigError::InvalidHttpPort, U16_MAX, None, Some(http_port_excluded()));
    crate::numbers::lemma_parse_num_respects_ranges(cf.ttl_seconds@, ConfigError::InvalidTtlSeconds, u64::MAX, Some(ttl_allowed()), None);
    crate::numbers::lemma_parse_num_respects_ranges(cf.cache_size@, ConfigError::InvalidCacheSize, usize::MAX as u64, Some(cache_size_allowed()), None);
    crate::numbers::lemma_parse_num_respects_ranges(cf.max_conn@, ConfigError::BadMaxConn, usize::MAX as u64, Some(max_conn_allowed()), None);
    crate::numbers::lemma_parse_num_respects_ranges(cf.max_roles@, ConfigError::BadMaxRoles, usize::MAX as u64, Some(max_roles_allowed()), None);
}

/// A file whose port text is an unsigned decimal from 1024 to 65535, or 0,
/// and whose other settings are the defaults, builds with exactly that port.
pub proof fn lemma_build_accepts_unprivileged_port(cf: ConfigFile, d: ConfigFile)
    requires
        default_file_holds(d),
        cf == (ConfigFile { http_port: cf.http_port, ..d }),
        crate::numbers::is_unsigned_decimal(cf.http_port@),
        ({
            let port = crate::numbers::digits_value(crate::numbers::unsigned_digits(cf.http_port@));
            port == 0 || (1024 <= port && port <= 65535)
        }),
    ensures
        spec_build(cf) matches Ok(v) && v.http_port as nat == crate::numbers::digits_value(
            crate::numbers::unsigned_digits(cf.http_port@),
        ),
{
    lemma_default_file_builds(d);
    crate::numbers::lemma_parse_num_accepts_valid_numbers(cf.http_port@, ConfigError::InvalidHttpPort, U16_MAX, None, Some(http_port_excluded()));
}

} // verus!
