use vstd::prelude::*;

verus! {

/// Message of an invalid log level.
pub const INVALID_LOG_LEVEL_ERR_MSG: &'static str = "The log level specified in the configuration isn't valid.";
/// Message of an invalid HTTP port.
pub const INVALID_HTTP_PORT_ERR_MSG: &'static str = "The HTTP port specified in the configuration file isn't valid.";
/// Message of an invalid cache time to live.
pub const INVALID_TTL_SECONDS_ERR_MSG: &'static str = "The TTL in seconds specified in the configuration file isn't valid.";
/// Message of an invalid cache size.
pub const INVALID_CACHE_SIZE_ERR_MSG: &'static str = "The cache size specified in the configuration file isn't valid.";
/// Message of an invalid connection limit.
pub const BAD_MAX_CONN_MSG: &'static str = "The maximum number of connections specified in the configuration file isn't valid.";
/// Message of an invalid limit on assumed roles.
pub const BAD_MAX_ROLES_MSG: &'static str = "The maximum number of roles specified in the configuration file isn't valid.";
/// Message of an empty list of SSRF headers.
pub const EMPTY_SSRF_LIST_MSG: &'static str = "The list of SSRF headers in the configuration file can't be empty.";
/// Message of an empty list of SSRF environment variables.
pub const EMPTY_ENV_LIST_MSG: &'static str = "The list of SSRF environment variables in the configuration file can't be empty.";
/// Message of a path prefix that does not begin with a slash.
pub const BAD_PREFIX_MSG: &'static str = "The path prefix specified in the configuration file must begin with /.";
/// Message of a prefetch cache buffer ratio outside its range.
pub const INVALID_CACHE_BUFFER_RATIO_MSG: &'static str = "The prefetch cache_buffer_ratio must be between 0.1 and 1.0.";
/// Message of a prefetch jitter above its maximum.
pub const INVALID_MAX_JITTER_MSG: &'static str = "The prefetch max_jitter_seconds must be between 0 and 10.";

/// The ways in which a configuration can be rejected.
#[derive(Debug, Clone, Copy, PartialEq, Eq, Structural)]
pub enum ConfigError {
    InvalidLogLevel,
    InvalidHttpPort,
    InvalidTtlSeconds,
    InvalidCacheSize,
    BadMaxConn,
    BadMaxRoles,
    EmptySsrfList,
    EmptyEnvList,
    BadPrefix,
    InvalidCacheBufferRatio,
    InvalidMaxJitter,
}

impl ConfigError {
    /// The text that describes the error.
    pub open spec fn spec_message(self) -> Seq<char> {
        match self {
            ConfigError::InvalidLogLevel => INVALID_LOG_LEVEL_ERR_MSG@,
            ConfigError::InvalidHttpPort => INVALID_HTTP_PORT_ERR_MSG@,
            ConfigError::InvalidTtlSeconds => INVALID_TTL_SECONDS_ERR_MSG@,
            ConfigError::InvalidCacheSize => INVALID_CACHE_SIZE_ERR_MSG@,
            ConfigError::BadMaxConn => BAD_MAX_CONN_MSG@,
            ConfigError::BadMaxRoles => BAD_MAX_ROLES_MSG@,
            ConfigError::EmptySsrfList => EMPTY_SSRF_LIST_MSG@,
            ConfigError::EmptyEnvList => EMPTY_ENV_LIST_MSG@,
            ConfigError::BadPrefix => BAD_PREFIX_MSG@,
            ConfigError::InvalidCacheBufferRatio => INVALID_CACHE_BUFFER_RATIO_MSG@,
            ConfigError::InvalidMaxJitter => INVALID_MAX_JITTER_MSG@,
        }
    }

    /// The text that describes the error, as the agent reports it.
    pub fn message(&self) -> (r: String)
        ensures
            r@ == self.spec_message(),
    {
        let text: &str = match self {
            ConfigError::InvalidLogLevel => INVALID_LOG_LEVEL_ERR_MSG,
            ConfigError::InvalidHttpPort => INVALID_HTTP_PORT_ERR_MSG,
            ConfigError::InvalidTtlSeconds => INVALID_TTL_SECONDS_ERR_MSG,
            ConfigError::InvalidCacheSize => INVALID_CACHE_SIZE_ERR_MSG,
            ConfigError::BadMaxConn => BAD_MAX_CONN_MSG,
            ConfigError::BadMaxRoles => BAD_MAX_ROLES_MSG,
            ConfigError::EmptySsrfList => EMPTY_SSRF_LIST_MSG,
            ConfigError::EmptyEnvList => EMPTY_ENV_LIST_MSG,
            ConfigError::BadPrefix => BAD_PREFIX_MSG,
            ConfigError::InvalidCacheBufferRatio => INVALID_CACHE_BUFFER_RATIO_MSG,
            ConfigError::InvalidMaxJitter => INVALID_MAX_JITTER_MSG,
        };
        text.to_owned()
    }
}

} // verus!
