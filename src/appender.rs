use vstd::prelude::*;

use crate::record::LogRecord;
use crate::store::{
    all_succeed, flush_run, flush_start, flush_step, lemma_successful_flush, phase_action,
    phase_after, phase_awaits, phase_error_kind, successful_flush_actions, FlushError,
    FlushErrorKind, FlushPhase, StoreAction, StoreEvent, INDEX_SQL, INSERT_SQL, TABLE_SQL,
};

verus! {

/// The threshold of a sink built from configuration.
pub const DEFAULT_THRESHOLD: usize = 1024;

/// Why a sink could not be built.
#[derive(Clone, Copy, Debug, PartialEq, Eq, Structural)]
pub enum ConfigError {
    /// The flush threshold must be positive.
    ZeroThreshold,
}

/// The mathematical value of a sink.
pub struct SinkState {
    /// Records awaiting persistence, in arrival order.
    pub pending: Seq<LogRecord>,
    /// Buffer length at which an append asks for a flush.
    pub threshold: nat,
    /// Where the store lives.
    pub locator: Seq<char>,
}

/// Buffers log records and persists them in batches.
pub struct SqliteLogAppender {
    buf: Vec<LogRecord>,
    buf_size: usize,
    file_name: String,
}

impl View for SqliteLogAppender {
    type V = SinkState;

    closed spec fn view(&self) -> SinkState {
        SinkState { pending: self.buf@, threshold: self.buf_size as nat, locator: self.file_name@ }
    }
}

impl SqliteLogAppender {
    /// A sink with an empty buffer; the store is not touched.
    pub fn new(buf_size: usize, file_name: &str) -> (r: Result<SqliteLogAppender, ConfigError>)
        ensures
            r is Err <==> buf_size == 0,
            r matches Err(e) ==> e == ConfigError::ZeroThreshold,
            r matches Ok(a) ==> a@.pending.len() == 0 && a@.threshold == buf_size && a@.locator
                == file_name@,
    {
        if buf_size == 0 {
            return Err(ConfigError::ZeroThreshold);
        }
        Ok(SqliteLogAppender { buf: Vec::new(), buf_size, file_name: String::from_str(file_name) })
    }

    /// The flush threshold.
    pub fn buf_size(&self) -> (r: usize)
        ensures
            r == self@.threshold,
    {
        self.buf_size
    }

    /// The store locator.
    pub fn file_name(&self) -> (r: &str)
        ensures
            r@ == self@.locator,
    {
        self.file_name.as_str()
    }

    /// The records awaiting persistence.
    pub fn pending(&self) -> (r: &Vec<LogRecord>)
        ensures
            r@ == self@.pending,
    {
        &self.buf
    }

    /// The action that starts phase `p` of a flush of the buffer.
    fn phase_action(&self, p: FlushPhase) -> (r: StoreAction)
        requires
            phase_awaits(p, self@.pending.len()),
        ensures
            r@ == phase_action(p, self@.pending, self@.locator),
    {
        match p {
            FlushPhase::Opening => StoreAction::Open(self.file_name.clone()),
            FlushPhase::CreatingTable => {
                let params: Vec<String> = Vec::new();
                assert(params@.map_values(|s: String| s@) =~= Seq::<Seq<char>>::empty());
                StoreAction::Execute(String::from_str(TABLE_SQL), params)
            },
            FlushPhase::CreatingIndex => {
                let params: Vec<String> = Vec::new();
                assert(params@.map_values(|s: String| s@) =~= Seq::<Seq<char>>::empty());
                StoreAction::Execute(String::from_str(INDEX_SQL), params)
            },
            FlushPhase::Beginning => StoreAction::Begin,
            FlushPhase::Inserting(i) => {
                let lr = &self.buf[i];
                let params = vec![lr.id.clone(), lr.ts.clone(), lr.level.clone(), lr.message.clone()];
                let r = StoreAction::Execute(String::from_str(INSERT_SQL), params);
                assert(params@.map_values(|s: String| s@) =~= seq![lr.id@, lr.ts@, lr.level@, lr.message@]);
                r
            },
            FlushPhase::Committing => StoreAction::Commit,
            FlushPhase::Finished => StoreAction::Finish(Ok(())),
        }
    }

    /// Starts a flush of the whole buffer.  An empty buffer needs no store:
    /// the flush is then over at once.
    pub fn flush_buf(&self) -> (r: (FlushPhase, StoreAction))
        ensures
            r.0 == flush_start(self@.pending, self@.locator).0,
            r.1@ == flush_start(self@.pending, self@.locator).1,
    {
        if self.buf.len() == 0 {
            (FlushPhase::Finished, StoreAction::Finish(Ok(())))
        } else {
            (FlushPhase::Opening, StoreAction::Open(self.file_name.clone()))
        }
    }

    /// Starts a flush if the buffer has reached the threshold.
    pub fn maybe_flush_buf(&self) -> (r: Option<(FlushPhase, StoreAction)>)
        ensures
            r is Some <==> self@.pending.len() >= self@.threshold,
            r matches Some(s) ==> s.0 == flush_start(self@.pending, self@.locator).0 && s.1@
                == flush_start(self@.pending, self@.locator).1,
    {
        if self.buf.len() < self.buf_size {
            return None;
        }
        Some(self.flush_buf())
    }

    /// Adds a record to the end of the buffer, and starts a flush if the
    /// buffer has reached the threshold.
    pub fn append_record(&mut self, lr: LogRecord) -> (r: Option<(FlushPhase, StoreAction)>)
        ensures
            final(self)@.pending == old(self)@.pending.push(lr),
            final(self)@.threshold == old(self)@.threshold,
            final(self)@.locator == old(self)@.locator,
            r is Some <==> final(self)@.pending.len() >= final(self)@.threshold,
            r matches Some(s) ==> s.0 == flush_start(final(self)@.pending, final(self)@.locator).0
                && s.1@ == flush_start(final(self)@.pending, final(self)@.locator).1,
    {
        self.buf.push(lr);
        self.maybe_flush_buf()
    }

    /// Records an event with a fresh identifier and the current time, as
    /// [`append_record`](Self::append_record) does.
    pub fn append(&mut self, level: &str, message: &str) -> (r: Option<(FlushPhase, StoreAction)>)
        ensures
            final(self)@.pending.len() == old(self)@.pending.len() + 1,
            final(self)@.pending.drop_last() == old(self)@.pending,
            final(self)@.pending.last().level@ == level@,
            final(self)@.pending.last().message@ == message@,
            final(self)@.threshold == old(self)@.threshold,
            final(self)@.locator == old(self)@.locator,
            r is Some <==> final(self)@.pending.len() >= final(self)@.threshold,
            r matches Some(s) ==> s.0 == flush_start(final(self)@.pending, final(self)@.locator).0
                && s.1@ == flush_start(final(self)@.pending, final(self)@.locator).1,
    {
        let lr = LogRecord::new(level, message);
        let r = self.append_record(lr);
        assert(self@.pending.drop_last() =~= old(self)@.pending);
        r
    }

    /// Moves a flush on by the outcome of its current action.  The buffer is
    /// cleared only once the commit succeeded; a failure leaves it whole.
    pub fn advance_flush(&mut self, phase: FlushPhase, ev: StoreEvent) -> (r: (FlushPhase, StoreAction))
        requires
            phase_awaits(phase, old(self)@.pending.len()),
        ensures
            r.0 == flush_step(old(self)@.pending, old(self)@.locator, phase, ev).0,
            r.1@ == flush_step(old(self)@.pending, old(self)@.locator, phase, ev).1,
            final(self)@.pending == flush_step(old(self)@.pending, old(self)@.locator, phase, ev).2,
            final(self)@.threshold == old(self)@.threshold,
            final(self)@.locator == old(self)@.locator,
    {
        match ev {
            StoreEvent::Failed(detail) => {
                let kind = match phase {
                    FlushPhase::Opening => FlushErrorKind::Connect,
                    FlushPhase::CreatingTable => FlushErrorKind::Schema,
                    FlushPhase::CreatingIndex => FlushErrorKind::Schema,
                    _ => FlushErrorKind::Transaction,
                };
                assert(kind == phase_error_kind(phase));
                (FlushPhase::Finished, StoreAction::Finish(Err(FlushError { kind, detail })))
            },
            StoreEvent::Succeeded => {
                let n = self.buf.len();
                let q = match phase {
                    FlushPhase::Opening => FlushPhase::CreatingTable,
                    FlushPhase::CreatingTable => FlushPhase::CreatingIndex,
                    FlushPhase::CreatingIndex => FlushPhase::Beginning,
                    FlushPhase::Beginning => if n > 0 {
                        FlushPhase::Inserting(0)
                    } else {
                        FlushPhase::Committing
                    },
                    FlushPhase::Inserting(i) => if i + 1 < n {
                        FlushPhase::Inserting(i + 1)
                    } else {
                        FlushPhase::Committing
                    },
                    _ => FlushPhase::Finished,
                };
                assert(q == phase_after(phase, n as nat));
                if q == FlushPhase::Finished {
                    self.buf.clear();
                    (q, StoreAction::Finish(Ok(())))
                } else {
                    (q, self.phase_action(q))
                }
            },
        }
    }
}

/// Appends `recs` one at a time to a buffer holding `pending`, each flush
/// that an append asks for persisting the whole buffer.  Gives the batches
/// persisted, in order, and what stays pending.
pub open spec fn ingest(threshold: nat, pending: Seq<LogRecord>, recs: Seq<LogRecord>) -> (
    Seq<Seq<LogRecord>>,
    Seq<LogRecord>,
)
    decreases recs.len(),
{
    if recs.len() == 0 {
        (Seq::empty(), pending)
    } else {
        let buf = pending.push(recs[0]);
        if buf.len() >= threshold {
            let (batches, rest) = ingest(threshold, Seq::empty(), recs.drop_first());
            (seq![buf] + batches, rest)
        } else {
            ingest(threshold, buf, recs.drop_first())
        }
    }
}

/// While the buffer stays below the threshold no append asks for a flush,
/// and the buffer holds exactly the appended records in arrival order.
pub proof fn lemma_below_threshold(threshold: nat, pending: Seq<LogRecord>, recs: Seq<LogRecord>)
    requires
        pending.len() + recs.len() < threshold,
    ensures
        ingest(threshold, pending, recs) == (Seq::<Seq<LogRecord>>::empty(), pending + recs),
    decreases recs.len(),
{
    if recs.len() > 0 {
        lemma_below_threshold(threshold, pending.push(recs[0]), recs.drop_first());
        assert(pending.push(recs[0]) + recs.drop_first() =~= pending + recs);
    } else {
        assert(pending + recs =~= pending);
    }
}

proof fn lemma_reaching_threshold(threshold: nat, pending: Seq<LogRecord>, recs: Seq<LogRecord>)
    requires
        recs.len() > 0,
        pending.len() + recs.len() == threshold,
    ensures
        ingest(threshold, pending, recs) == (seq![pending + recs], Seq::<LogRecord>::empty()),
    decreases recs.len(),
{
    let buf = pending.push(recs[0]);
    if recs.len() > 1 {
        lemma_reaching_threshold(threshold, buf, recs.drop_first());
        assert(buf + recs.drop_first() =~= pending + recs);
    } else {
        assert(buf =~= pending + recs);
        assert(ingest(threshold, Seq::empty(), recs.drop_first()) == (
            Seq::<Seq<LogRecord>>::empty(),
            Seq::<LogRecord>::empty(),
        ));
        assert(seq![buf] + Seq::<Seq<LogRecord>>::empty() =~= seq![buf]);
    }
}

/// When the `threshold`-th record arrives at an empty sink, the earlier
/// appends ask for no flush, that append asks for one, and a flush in which
/// every store action succeeds inserts exactly those records in arrival
/// order, commits, and empties the buffer.
pub proof fn lemma_flush_at_threshold(threshold: nat, recs: Seq<LogRecord>, path: Seq<char>)
    requires
        0 < threshold <= usize::MAX,
        recs.len() == threshold,
    ensures
        ingest(threshold, Seq::empty(), recs.drop_last()) == (
            Seq::<Seq<LogRecord>>::empty(),
            recs.drop_last(),
        ),
        ingest(threshold, Seq::empty(), recs) == (seq![recs], Seq::<LogRecord>::empty()),
        flush_start(recs, path).0 == FlushPhase::Opening,
        flush_run(recs, path, FlushPhase::Opening, all_succeed(threshold + 5)) == (
            successful_flush_actions(recs),
            Seq::<LogRecord>::empty(),
        ),
{
    lemma_below_threshold(threshold, Seq::empty(), recs.drop_last());
    assert(Seq::<LogRecord>::empty() + recs.drop_last() =~= recs.drop_last());
    lemma_reaching_threshold(threshold, Seq::empty(), recs);
    assert(Seq::<LogRecord>::empty() + recs =~= recs);
    lemma_successful_flush(recs, path);
}

/// Arrival order is kept end to end: the persisted batches, one after the
/// other, followed by what stays pending, are the records that were pending
/// followed by the appended ones.
pub proof fn lemma_ingest_keeps_order(threshold: nat, pending: Seq<LogRecord>, recs: Seq<LogRecord>)
    ensures
        ingest(threshold, pending, recs).0.flatten() + ingest(threshold, pending, recs).1 == pending
            + recs,
    decreases recs.len(),
{
    if recs.len() == 0 {
        assert(Seq::<Seq<LogRecord>>::empty().flatten() =~= Seq::<LogRecord>::empty());
        assert(Seq::<LogRecord>::empty() + pending =~= pending + recs);
    } else {
        let buf = pending.push(recs[0]);
        assert(buf + recs.drop_first() =~= pending + recs);
        if buf.len() >= threshold {
            lemma_ingest_keeps_order(threshold, Seq::empty(), recs.drop_first());
            let (batches, rest) = ingest(threshold, Seq::empty(), recs.drop_first());
            let all = seq![buf] + batches;
            assert(all[0] == buf);
            assert(all.drop_first() =~= batches);
            assert(all.flatten() == buf + batches.flatten());
            assert(Seq::<LogRecord>::empty() + recs.drop_first() =~= recs.drop_first());
            assert(buf + batches.flatten() + rest =~= buf + (batches.flatten() + rest));
        } else {
            lemma_ingest_keeps_order(threshold, buf, recs.drop_first());
        }
    }
}

} // verus!
