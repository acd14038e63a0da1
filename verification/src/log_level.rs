use vstd::prelude::*;
use vstd::utf8::is_ascii_chars;
use std::str::FromStr;

use crate::error::ConfigError;
use crate::text::{ascii_lowercase, same_text, spec_to_lowercase, to_lowercase};

verus! {

/// The log levels supported by the daemon.
#[derive(Debug, Clone, Copy, PartialEq, Eq, Structural)]
pub enum LogLevel {
    Debug,
    Info,
    Warn,
    Error,
    /// No logging at all. Its debug text, `NONE`, reads back as this level.
    NONE,
}

/// The level that an already lower-cased name stands for.
pub open spec fn spec_level_of_lowercase(lower: Seq<char>) -> Option<LogLevel> {
    if lower == "debug"@ {
        Some(LogLevel::Debug)
    } else if lower == "info"@ {
        Some(LogLevel::Info)
    } else if lower == "warn"@ {
        Some(LogLevel::Warn)
    } else if lower == "error"@ {
        Some(LogLevel::Error)
    } else if lower == "none"@ {
        Some(LogLevel::NONE)
    } else {
        None
    }
}

/// The lower-case form that the level names are compared with: on ASCII
/// text the ASCII one, elsewhere Unicode's.
pub open spec fn spec_level_key(s: Seq<char>) -> Seq<char> {
    if is_ascii_chars(s) {
        ascii_lowercase(s)
    } else {
        spec_to_lowercase(s)
    }
}

/// What parsing a level name gives back: the level whose name equals the
/// lower-cased text, or `InvalidLogLevel`.
pub open spec fn spec_parse_log_level(s: Seq<char>) -> Result<LogLevel, ConfigError> {
    match spec_level_of_lowercase(spec_level_key(s)) {
        Some(level) => Ok(level),
        None => Err(ConfigError::InvalidLogLevel),
    }
}

impl LogLevel {
    /// The level that a lower-cased name stands for, or `InvalidLogLevel`.
    pub fn from_lowercase(lower: &str) -> (res: Result<LogLevel, ConfigError>)
        ensures
            res == (match spec_level_of_lowercase(lower@) {
                Some(level) => Ok(level),
                None => Err(ConfigError::InvalidLogLevel),
            }),
    {
        if same_text(lower, "debug") {
            Ok(LogLevel::Debug)
        } else if same_text(lower, "info") {
            Ok(LogLevel::Info)
        } else if same_text(lower, "warn") {
            Ok(LogLevel::Warn)
        } else if same_text(lower, "error") {
            Ok(LogLevel::Error)
        } else if same_text(lower, "none") {
            Ok(LogLevel::NONE)
        } else {
            Err(ConfigError::InvalidLogLevel)
        }
    }

    /// Returns the log level if the provided `log_level` string is valid,
    /// whatever its case; `InvalidLogLevel` if it is not.
    pub fn parse(log_level: &str) -> (res: Result<LogLevel, ConfigError>)
        ensures
            res == spec_parse_log_level(log_level@),
            res == (match spec_level_of_lowercase(spec_to_lowercase(log_level@)) {
                Some(level) => Ok(level),
                None => Err(ConfigError::InvalidLogLevel),
            }),
    {
        let lower = to_lowercase(log_level);
        LogLevel::from_lowercase(lower.as_str())
    }
}

/// Returns the log level if the provided `log_level` string is valid.
/// Returns Err with the error's message if it's invalid.
impl FromStr for LogLevel {
    type Err = String;

    fn from_str(log_level: &str) -> (res: Result<Self, String>)
        ensures
            match (res, spec_parse_log_level(log_level@)) {
                (Ok(level), Ok(expected)) => level == expected,
                (Err(msg), Err(e)) => msg@ == e.spec_message(),
                _ => false,
            },
    {
        match LogLevel::parse(log_level) {
            Ok(level) => Ok(level),
            Err(e) => Err(e.message()),
        }
    }
}


/// Turning ASCII upper-case letters into lower-case ones a second time
/// changes nothing.
pub proof fn lemma_ascii_lowercase_idempotent(s: Seq<char>)
    ensures
        ascii_lowercase(ascii_lowercase(s)) == ascii_lowercase(s),
        is_ascii_chars(s) ==> is_ascii_chars(ascii_lowercase(s)),
{
    assert(ascii_lowercase(ascii_lowercase(s)) =~= ascii_lowercase(s));
}

/// Level names are read without regard to case: two ASCII texts that differ
/// only in the case of their letters give the same level, or are both
/// rejected.
pub proof fn lemma_log_level_ignores_ascii_case(s: Seq<char>, t: Seq<char>)
    requires
        is_ascii_chars(s),
        is_ascii_chars(t),
        ascii_lowercase(s) == ascii_lowercase(t),
    ensures
        spec_parse_log_level(s) == spec_parse_log_level(t),
{
}

/// An ASCII text is accepted exactly when its lower-case form is one of the
/// five level names, and the lower-case name of each level is accepted as
/// that level.
pub proof fn lemma_log_level_names(s: Seq<char>)
    requires
        is_ascii_chars(s),
    ensures
        spec_parse_log_level(s) is Ok <==> (ascii_lowercase(s) == "debug"@ || ascii_lowercase(s)
            == "info"@ || ascii_lowercase(s) == "warn"@ || ascii_lowercase(s) == "error"@
            || ascii_lowercase(s) == "none"@),
        ascii_lowercase(s) == "debug"@ ==> spec_parse_log_level(s) == Ok::<LogLevel, ConfigError>(LogLevel::Debug),
        ascii_lowercase(s) == "info"@ ==> spec_parse_log_level(s) == Ok::<LogLevel, ConfigError>(LogLevel::Info),
        ascii_lowercase(s) == "warn"@ ==> spec_parse_log_level(s) == Ok::<LogLevel, ConfigError>(LogLevel::Warn),
        ascii_lowercase(s) == "error"@ ==> spec_parse_log_level(s) == Ok::<LogLevel, ConfigError>(LogLevel::Error),
        ascii_lowercase(s) == "none"@ ==> spec_parse_log_level(s) == Ok::<LogLevel, ConfigError>(LogLevel::NONE),
{
    reveal_strlit("debug");
    reveal_strlit("info");
    reveal_strlit("warn");
    reveal_strlit("error");
    reveal_strlit("none");
    assert("info"@[0] != "debug"@[0]);
    assert("warn"@[0] != "debug"@[0] && "warn"@[0] != "info"@[0]);
    assert("error"@[0] != "debug"@[0] && "error"@[0] != "info"@[0] && "error"@[0] != "warn"@[0]);
    assert("none"@[0] != "debug"@[0] && "none"@[0] != "info"@[0] && "none"@[0] != "warn"@[0]
        && "none"@[0] != "error"@[0]);
}

} // verus!
