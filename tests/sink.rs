use sqlite_log_appender::{
    ConfigError, FlushErrorKind, FlushPhase, LogRecord, SqliteLogAppender,
    SqliteLogAppenderConfig, SqliteLogAppenderDeserializer, StoreAction, StoreEvent,
    DEFAULT_THRESHOLD, INDEX_SQL, INSERT_SQL, TABLE_SQL,
};
use std::collections::HashSet;

/// An in-memory store: committed rows, rows of the open transaction, and a
/// log of every action it was asked to perform.
struct FakeStore {
    rows: Vec<Vec<String>>,
    committed_ids: HashSet<String>,
    staged: Vec<Vec<String>>,
    opened: usize,
    schema_runs: usize,
    fail_open: bool,
    fail_schema: bool,
}

impl FakeStore {
    fn new() -> FakeStore {
        FakeStore {
            rows: Vec::new(),
            committed_ids: HashSet::new(),
            staged: Vec::new(),
            opened: 0,
            schema_runs: 0,
            fail_open: false,
            fail_schema: false,
        }
    }

    /// Performs the flush that `start` begins; a duplicate id fails its insert.
    fn run(
        &mut self,
        sink: &mut SqliteLogAppender,
        start: (FlushPhase, StoreAction),
    ) -> Result<(), (FlushErrorKind, String)> {
        let (mut phase, mut action) = start;
        loop {
            let event = match action {
                StoreAction::Finish(r) => {
                    self.staged.clear();
                    return r.map_err(|e| (e.kind, e.detail));
                }
                StoreAction::Open(path) => {
                    assert_eq!(path, sink.file_name());
                    self.opened += 1;
                    if self.fail_open {
                        StoreEvent::Failed("cannot open".to_string())
                    } else {
                        StoreEvent::Succeeded
                    }
                }
                StoreAction::Execute(sql, params) => {
                    if sql == TABLE_SQL || sql == INDEX_SQL {
                        assert!(params.is_empty());
                        self.schema_runs += 1;
                        if self.fail_schema {
                            StoreEvent::Failed("schema".to_string())
                        } else {
                            StoreEvent::Succeeded
                        }
                    } else {
                        assert_eq!(sql, INSERT_SQL);
                        assert_eq!(params.len(), 4);
                        let dup = self.committed_ids.contains(&params[0])
                            || self.staged.iter().any(|r| r[0] == params[0]);
                        if dup {
                            StoreEvent::Failed("UNIQUE constraint failed: entry.id".to_string())
                        } else {
                            self.staged.push(params);
                            StoreEvent::Succeeded
                        }
                    }
                }
                StoreAction::Begin => StoreEvent::Succeeded,
                StoreAction::Commit => {
                    for r in &self.staged {
                        self.committed_ids.insert(r[0].clone());
                    }
                    self.rows.append(&mut self.staged);
                    StoreEvent::Succeeded
                }
            };
            let next = sink.advance_flush(phase, event);
            phase = next.0;
            action = next.1;
        }
    }

    fn ids(&self) -> Vec<String> {
        self.rows.iter().map(|r| r[0].clone()).collect()
    }
}

fn rec(id: &str, message: &str) -> LogRecord {
    LogRecord::from_parts(
        id.to_string(),
        "2024-01-01 00:00:00.000000".to_string(),
        "INFO".to_string(),
        message.to_string(),
    )
}

fn pending_ids(sink: &SqliteLogAppender) -> Vec<String> {
    sink.pending().iter().map(|r| r.id.clone()).collect()
}

#[test]
fn new_rejects_zero_threshold() {
    assert!(matches!(SqliteLogAppender::new(0, "x.db"), Err(ConfigError::ZeroThreshold)));
}

#[test]
fn new_starts_empty_without_store() {
    let sink = SqliteLogAppender::new(7, "logs.db").unwrap();
    assert_eq!(sink.buf_size(), 7);
    assert_eq!(sink.file_name(), "logs.db");
    assert!(sink.pending().is_empty());
}

#[test]
fn below_threshold_no_flush() {
    let mut sink = SqliteLogAppender::new(5, "logs.db").unwrap();
    for id in ["a", "b", "c", "d"] {
        assert!(sink.append_record(rec(id, id)).is_none());
    }
    assert_eq!(pending_ids(&sink), vec!["a", "b", "c", "d"]);
    assert!(sink.maybe_flush_buf().is_none());
}

#[test]
fn flush_at_threshold_persists_in_order() {
    let mut sink = SqliteLogAppender::new(4, "logs.db").unwrap();
    let mut store = FakeStore::new();
    for id in ["r1", "r2", "r3"] {
        assert!(sink.append_record(rec(id, "m")).is_none());
    }
    let start = sink.append_record(rec("r4", "m")).unwrap();
    assert!(matches!(start.0, FlushPhase::Opening));
    assert!(store.run(&mut sink, start).is_ok());
    assert!(sink.pending().is_empty());
    assert_eq!(store.ids(), vec!["r1", "r2", "r3", "r4"]);
    assert_eq!(store.opened, 1);
    assert_eq!(store.schema_runs, 2);
}

#[test]
fn insert_parameters_follow_column_order() {
    let mut sink = SqliteLogAppender::new(1, "logs.db").unwrap();
    let mut store = FakeStore::new();
    let start = sink
        .append_record(LogRecord::from_parts(
            "id-1".to_string(),
            "2024-05-06 07:08:09.123456".to_string(),
            "WARN".to_string(),
            "disk low".to_string(),
        ))
        .unwrap();
    assert!(store.run(&mut sink, start).is_ok());
    assert_eq!(
        store.rows,
        vec![vec![
            "id-1".to_string(),
            "2024-05-06 07:08:09.123456".to_string(),
            "WARN".to_string(),
            "disk low".to_string(),
        ]]
    );
}

#[test]
fn scenario_threshold_three() {
    let mut sink = SqliteLogAppender::new(3, "logs.db").unwrap();
    let mut store = FakeStore::new();
    assert!(sink.append_record(rec("A", "a")).is_none());
    assert!(sink.append_record(rec("B", "b")).is_none());
    assert!(store.rows.is_empty());
    assert_eq!(store.opened, 0);
    let start = sink.append_record(rec("C", "c")).unwrap();
    assert!(store.run(&mut sink, start).is_ok());
    assert_eq!(store.ids(), vec!["A", "B", "C"]);
    assert!(sink.pending().is_empty());
    let start = sink.flush_buf();
    assert!(matches!(start.0, FlushPhase::Finished));
    assert!(matches!(start.1, StoreAction::Finish(Ok(()))));
    assert!(store.run(&mut sink, start).is_ok());
    assert_eq!(store.opened, 1);
    assert_eq!(store.ids(), vec!["A", "B", "C"]);
}

#[test]
fn last_insert_failure_keeps_batch() {
    let mut sink = SqliteLogAppender::new(3, "logs.db").unwrap();
    let mut store = FakeStore::new();
    assert!(sink.append_record(rec("x", "1")).is_none());
    assert!(sink.append_record(rec("y", "2")).is_none());
    let start = sink.append_record(rec("x", "3")).unwrap();
    let err = store.run(&mut sink, start).unwrap_err();
    assert_eq!(err.0, FlushErrorKind::Transaction);
    assert_eq!(err.1, "UNIQUE constraint failed: entry.id");
    assert!(store.rows.is_empty());
    assert_eq!(pending_ids(&sink), vec!["x", "y", "x"]);
}

#[test]
fn open_failure_is_connect_error() {
    let mut sink = SqliteLogAppender::new(1, "missing/dir/logs.db").unwrap();
    let mut store = FakeStore::new();
    store.fail_open = true;
    let start = sink.append_record(rec("a", "1")).unwrap();
    let err = store.run(&mut sink, start).unwrap_err();
    assert_eq!(err, (FlushErrorKind::Connect, "cannot open".to_string()));
    assert_eq!(pending_ids(&sink), vec!["a"]);
}

#[test]
fn schema_failure_is_schema_error() {
    let mut sink = SqliteLogAppender::new(2, "logs.db").unwrap();
    let mut store = FakeStore::new();
    store.fail_schema = true;
    sink.append_record(rec("a", "1"));
    let start = sink.flush_buf();
    let err = store.run(&mut sink, start).unwrap_err();
    assert_eq!(err.0, FlushErrorKind::Schema);
    assert_eq!(pending_ids(&sink), vec!["a"]);
}

#[test]
fn failed_flush_retried_later() {
    let mut sink = SqliteLogAppender::new(2, "logs.db").unwrap();
    let mut store = FakeStore::new();
    store.fail_open = true;
    sink.append_record(rec("a", "1"));
    let start = sink.append_record(rec("b", "2")).unwrap();
    assert!(store.run(&mut sink, start).is_err());
    store.fail_open = false;
    let start = sink.append_record(rec("c", "3")).unwrap();
    assert!(store.run(&mut sink, start).is_ok());
    assert_eq!(store.ids(), vec!["a", "b", "c"]);
    assert!(sink.pending().is_empty());
}

#[test]
fn batches_keep_arrival_order() {
    let mut sink = SqliteLogAppender::new(2, "logs.db").unwrap();
    let mut store = FakeStore::new();
    for id in ["1", "2", "3", "4", "5"] {
        if let Some(start) = sink.append_record(rec(id, id)) {
            assert!(store.run(&mut sink, start).is_ok());
        }
    }
    assert_eq!(store.ids(), vec!["1", "2", "3", "4"]);
    assert_eq!(pending_ids(&sink), vec!["5"]);
    let start = sink.flush_buf();
    assert!(store.run(&mut sink, start).is_ok());
    assert_eq!(store.ids(), vec!["1", "2", "3", "4", "5"]);
}

#[test]
fn explicit_flush_drains_below_threshold() {
    let mut sink = SqliteLogAppender::new(10, "logs.db").unwrap();
    let mut store = FakeStore::new();
    sink.append_record(rec("a", "1"));
    sink.append_record(rec("b", "2"));
    let start = sink.flush_buf();
    assert!(matches!(start.0, FlushPhase::Opening));
    assert!(store.run(&mut sink, start).is_ok());
    assert_eq!(store.ids(), vec!["a", "b"]);
    assert!(sink.pending().is_empty());
}

#[test]
fn append_stamps_record() {
    let mut sink = SqliteLogAppender::new(2, "logs.db").unwrap();
    assert!(sink.append("ERROR", "boom").is_none());
    let r = &sink.pending()[0];
    assert_eq!(r.level, "ERROR");
    assert_eq!(r.message, "boom");
    assert_eq!(r.id.len(), 36);
    assert!(sink.append("INFO", "again").is_some());
}

#[test]
fn identifiers_have_uuid_shape() {
    let r = LogRecord::new("INFO", "hello");
    let chars: Vec<char> = r.id.chars().collect();
    assert_eq!(chars.len(), 36);
    for (i, c) in chars.iter().enumerate() {
        if i == 8 || i == 13 || i == 18 || i == 23 {
            assert_eq!(*c, '-');
        } else {
            assert!(c.is_ascii_hexdigit() && !c.is_ascii_uppercase());
        }
    }
    assert_eq!(chars[14], '4');
}

#[test]
fn timestamp_has_microsecond_format() {
    let r = LogRecord::new("INFO", "hello");
    let b = r.ts.as_bytes();
    assert_eq!(b.len(), 26);
    assert_eq!(b[4], b'-');
    assert_eq!(b[7], b'-');
    assert_eq!(b[10], b' ');
    assert_eq!(b[13], b':');
    assert_eq!(b[16], b':');
    assert_eq!(b[19], b'.');
    assert!(b.iter().enumerate().all(|(i, c)| [4, 7, 10, 13, 16, 19].contains(&i) || c.is_ascii_digit()));
}

#[test]
fn identifiers_are_unique() {
    let mut sink = SqliteLogAppender::new(1000, "logs.db").unwrap();
    let mut store = FakeStore::new();
    let mut seen = HashSet::new();
    for _ in 0..100_000 {
        if let Some(start) = sink.append("INFO", "m") {
            for r in sink.pending() {
                seen.insert(r.id.clone());
            }
            assert!(store.run(&mut sink, start).is_ok());
        }
    }
    assert_eq!(seen.len(), 100_000);
    assert_eq!(store.rows.len(), 100_000);
}

#[test]
fn deserializer_uses_default_threshold() {
    let d = SqliteLogAppenderDeserializer {};
    let sink = d.deserialize(SqliteLogAppenderConfig::new("app.db")).unwrap();
    assert_eq!(sink.buf_size(), DEFAULT_THRESHOLD);
    assert_eq!(sink.buf_size(), 1024);
    assert_eq!(sink.file_name(), "app.db");
    assert!(sink.pending().is_empty());
}

#[test]
fn config_keeps_path() {
    assert_eq!(SqliteLogAppenderConfig::new("a/b.db").path(), "a/b.db");
}

#[test]
fn bootstrap_is_idempotent() {
    let uri = "file:bootstrap_twice?mode=memory&cache=shared";
    let first = rusqlite::Connection::open(uri).unwrap();
    first.execute(TABLE_SQL, []).unwrap();
    first.execute(INDEX_SQL, []).unwrap();
    let second = rusqlite::Connection::open(uri).unwrap();
    second.execute(TABLE_SQL, []).unwrap();
    second.execute(INDEX_SQL, []).unwrap();
    let count: i64 = second
        .query_row(
            "select count(*) from sqlite_master where name in ('entry', 'entry_ts_i')",
            [],
            |row| row.get(0),
        )
        .unwrap();
    assert_eq!(count, 2);
}

#[test]
fn duplicate_id_rolls_back_batch_in_store() {
    let conn = rusqlite::Connection::open_in_memory().unwrap();
    conn.execute(TABLE_SQL, []).unwrap();
    conn.execute(INDEX_SQL, []).unwrap();
    conn.execute_batch("BEGIN").unwrap();
    conn.execute(INSERT_SQL, ["a", "t", "INFO", "1"]).unwrap();
    assert!(conn.execute(INSERT_SQL, ["a", "t", "INFO", "2"]).is_err());
    conn.execute_batch("ROLLBACK").unwrap();
    let count: i64 = conn
        .query_row("select count(*) from entry", [], |row| row.get(0))
        .unwrap();
    assert_eq!(count, 0);
}
