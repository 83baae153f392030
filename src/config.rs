use vstd::prelude::*;

use crate::appender::{ConfigError, SqliteLogAppender, DEFAULT_THRESHOLD};

verus! {

/// Configuration of a sink: where its store lives.
#[derive(Clone, Debug, Default)]
pub struct SqliteLogAppenderConfig {
    path: String,
}

impl View for SqliteLogAppenderConfig {
    /// The store locator.
    type V = Seq<char>;

    closed spec fn view(&self) -> Seq<char> {
        self.path@
    }
}

impl SqliteLogAppenderConfig {
    /// A configuration naming the store at `path`.
    pub fn new(path: &str) -> (r: SqliteLogAppenderConfig)
        ensures
            r@ == path@,
    {
        SqliteLogAppenderConfig { path: String::from_str(path) }
    }

    /// The store locator.
    pub fn path(&self) -> (r: &str)
        ensures
            r@ == self@,
    {
        self.path.as_str()
    }
}

/// Builds sinks from configuration.
pub struct SqliteLogAppenderDeserializer {}

impl SqliteLogAppenderDeserializer {
    /// A sink on the configured store, with the default threshold.
    pub fn deserialize(&self, config: SqliteLogAppenderConfig) -> (r: Result<SqliteLogAppender, ConfigError>)
        ensures
            r matches Ok(a) && a@.pending.len() == 0 && a@.threshold == DEFAULT_THRESHOLD
                && a@.locator == config@,
    {
        SqliteLogAppender::new(DEFAULT_THRESHOLD, config.path.as_str())
    }
}

} // verus!
