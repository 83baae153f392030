//! A buffered, batch-flushing sink for log records.
//!
//! Records are collected in memory and persisted to a relational store in
//! batches.  The flush procedure is a state machine: the caller performs each
//! store action and feeds back its outcome.
pub mod record;
pub mod store;
pub mod appender;
pub mod config;

pub use appender::{ConfigError, SinkState, SqliteLogAppender, DEFAULT_THRESHOLD};
pub use config::{SqliteLogAppenderConfig, SqliteLogAppenderDeserializer};
pub use record::LogRecord;
pub use store::{
    ActionView, FlushError, FlushErrorKind, FlushPhase, StoreAction, StoreEvent, INDEX_SQL, INSERT_SQL,
    TABLE_SQL,
};
