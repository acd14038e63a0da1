# aws_secretsmanager_agent configuration

The configuration of the AWS Secrets Manager Agent, with machine-checked proofs of its validation.

* `src/` — the verified library:
  * `error.rs` — `ConfigError`, one variant per rejected setting, and its messages;
  * `numbers.rs` — `parse_num`, reading unsigned decimal text and checking ranges;
  * `text.rs` — text comparison and the lower-casing used for log levels;
  * `log_level.rs` — `LogLevel` and its case-insensitive parsing;
  * `prefetch.rs` — the prefetch section (`PrefetchConfig`, `TagFilter`,
    `SecretPrefetchConfig`); the cache buffer ratio is held as the bits of its
    single-precision value;
  * `settings.rs` — `ConfigFile` (the settings as read), `Config` (the
    validated settings, with a type invariant), `Config::build`, the defaults
    and the laws that relate them.
* `app/` — reading the TOML file with the `config` crate and serde, and
  handing the values to `Config::build`.
* `tests/` — tests of the library.
