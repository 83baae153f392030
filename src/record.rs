use vstd::prelude::*;

verus! {

/// One observed event, as it is persisted.
pub struct LogRecord {
    /// Unique identifier, the store's primary key.
    pub id: String,
    /// Severity label.
    pub level: String,
    /// Capture time, `YYYY-MM-DD hh:mm:ss.ffffff` in UTC.
    pub ts: String,
    /// Free-text payload.
    pub message: String,
}

/// Relies on `uuid::Uuid::new_v4` and its `Display`: a random version 4
/// identifier written as 36 lower-case hexadecimal digits and hyphens.
#[verifier::external_body]
fn fresh_identifier() -> (r: String)
    ensures
        r@.len() == 36,
        r@[8] == '-',
        r@[13] == '-',
        r@[14] == '4',
        r@[18] == '-',
        r@[23] == '-',
{
    uuid::Uuid::new_v4().to_string()
}

/// Relies on `chrono::Utc::now` and `DateTime::format`: the current UTC time
/// with microsecond precision.
#[verifier::external_body]
fn current_timestamp() -> (r: String) {
    chrono::Utc::now().format("%Y-%m-%d %H:%M:%S%.6f").to_string()
}

impl LogRecord {
    /// A record stamped with a fresh identifier and the current time.
    pub fn new(level: &str, message: &str) -> (r: LogRecord)
        ensures
            r.level@ == level@,
            r.message@ == message@,
            r.id@.len() == 36,
            r.id@[8] == '-',
            r.id@[13] == '-',
            r.id@[14] == '4',
            r.id@[18] == '-',
            r.id@[23] == '-',
    {
        let id = fresh_identifier();
        let ts = current_timestamp();
        LogRecord::from_parts(id, ts, String::from_str(level), String::from_str(message))
    }

    /// A record made of the given fields.
    pub fn from_parts(id: String, ts: String, level: String, message: String) -> (r: LogRecord)
        ensures
            r.id == id,
            r.ts == ts,
            r.level == level,
            r.message == message,
    {
        LogRecord { id, level, ts, message }
    }
}

} // verus!
