//! Configuration of the AWS Secrets Manager Agent: the defaults, the
//! validation of overrides read from a TOML file, and the validated settings.

pub mod error;
pub mod numbers;
pub mod text;
pub mod log_level;
pub mod prefetch;
pub mod settings;
