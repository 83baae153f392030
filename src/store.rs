use vstd::prelude::*;

use crate::record::LogRecord;

verus! {

/// Creates the record table unless it exists.
pub const TABLE_SQL: &'static str = "create table if not exists entry (id varchar(128) not null primary key, ts varchar(128) not null, level varchar(128) not null, message varchar(8192) not null)";

/// Creates the lookup index on the timestamp column unless it exists.
pub const INDEX_SQL: &'static str = "create index if not exists entry_ts_i on entry (ts)";

/// Inserts one record; its parameters are id, timestamp, level and message.
pub const INSERT_SQL: &'static str = "insert into entry (id, ts, level, message) values (?1, ?2, ?3, ?4)";

/// Which part of a flush failed.
#[derive(Clone, Copy, Debug, PartialEq, Eq, Structural)]
pub enum FlushErrorKind {
    /// The store could not be opened.
    Connect,
    /// Creating the table or its index failed.
    Schema,
    /// Beginning, an insert, or the commit failed.
    Transaction,
}

/// A failed flush: where it failed and what the store reported.
#[derive(Debug)]
pub struct FlushError {
    pub kind: FlushErrorKind,
    pub detail: String,
}

/// The outcome of a store action, reported back to the flush machine.
pub enum StoreEvent {
    Succeeded,
    Failed(String),
}

/// The point a flush has reached: the action of that phase is under way.
#[derive(Clone, Copy, Debug, PartialEq, Eq, Structural)]
pub enum FlushPhase {
    Opening,
    CreatingTable,
    CreatingIndex,
    Beginning,
    /// Inserting the pending record at this index.
    Inserting(usize),
    Committing,
    Finished,
}

/// What the flush machine asks of the store.
pub enum StoreAction {
    /// Open the store at this locator.
    Open(String),
    /// Execute one statement with these text parameters.
    Execute(String, Vec<String>),
    /// Begin a transaction.
    Begin,
    /// Commit the transaction.
    Commit,
    /// The flush is over, with this result; an open transaction is abandoned.
    Finish(Result<(), FlushError>),
}

/// The mathematical value of a [`StoreAction`].
pub enum ActionView {
    Open(Seq<char>),
    Execute(Seq<char>, Seq<Seq<char>>),
    Begin,
    Commit,
    /// `None` for success, else the error's kind and detail.
    Finish(Option<(FlushErrorKind, Seq<char>)>),
}

impl View for StoreAction {
    type V = ActionView;

    open spec fn view(&self) -> ActionView {
        match self {
            StoreAction::Open(p) => ActionView::Open(p@),
            StoreAction::Execute(sql, params) => ActionView::Execute(
                sql@,
                params@.map_values(|s: String| s@),
            ),
            StoreAction::Begin => ActionView::Begin,
            StoreAction::Commit => ActionView::Commit,
            StoreAction::Finish(Ok(())) => ActionView::Finish(None),
            StoreAction::Finish(Err(e)) => ActionView::Finish(Some((e.kind, e.detail@))),
        }
    }
}

/// The statement parameters of a record, in column order.
pub open spec fn record_params(r: LogRecord) -> Seq<Seq<char>> {
    seq![r.id@, r.ts@, r.level@, r.message@]
}

/// The insert of one record.
pub open spec fn insert_action(r: LogRecord) -> ActionView {
    ActionView::Execute(INSERT_SQL@, record_params(r))
}

/// The kind of error reported when the action of phase `p` fails.
pub open spec fn phase_error_kind(p: FlushPhase) -> FlushErrorKind {
    match p {
        FlushPhase::Opening => FlushErrorKind::Connect,
        FlushPhase::CreatingTable => FlushErrorKind::Schema,
        FlushPhase::CreatingIndex => FlushErrorKind::Schema,
        _ => FlushErrorKind::Transaction,
    }
}

/// A phase that awaits an outcome while `n` records are pending.
pub open spec fn phase_awaits(p: FlushPhase, n: nat) -> bool {
    match p {
        FlushPhase::Inserting(i) => i < n,
        FlushPhase::Finished => false,
        _ => true,
    }
}

/// The phase after the action of `p` succeeded, with `n` records pending.
pub open spec fn phase_after(p: FlushPhase, n: nat) -> FlushPhase {
    match p {
        FlushPhase::Opening => FlushPhase::CreatingTable,
        FlushPhase::CreatingTable => FlushPhase::CreatingIndex,
        FlushPhase::CreatingIndex => FlushPhase::Beginning,
        FlushPhase::Beginning => if n > 0 {
            FlushPhase::Inserting(0)
        } else {
            FlushPhase::Committing
        },
        FlushPhase::Inserting(i) => if i + 1 < n {
            FlushPhase::Inserting((i + 1) as usize)
        } else {
            FlushPhase::Committing
        },
        _ => FlushPhase::Finished,
    }
}

/// The action that starts phase `p` of a flush of `pending` to `path`.
pub open spec fn phase_action(p: FlushPhase, pending: Seq<LogRecord>, path: Seq<char>) -> ActionView {
    match p {
        FlushPhase::Opening => ActionView::Open(path),
        FlushPhase::CreatingTable => ActionView::Execute(TABLE_SQL@, seq![]),
        FlushPhase::CreatingIndex => ActionView::Execute(INDEX_SQL@, seq![]),
        FlushPhase::Beginning => ActionView::Begin,
        FlushPhase::Inserting(i) => insert_action(pending[i as int]),
        FlushPhase::Committing => ActionView::Commit,
        FlushPhase::Finished => ActionView::Finish(None),
    }
}

/// How a flush of `pending` to `path` starts: nothing to do when it is empty.
pub open spec fn flush_start(pending: Seq<LogRecord>, path: Seq<char>) -> (FlushPhase, ActionView) {
    if pending.len() == 0 {
        (FlushPhase::Finished, ActionView::Finish(None))
    } else {
        (FlushPhase::Opening, ActionView::Open(path))
    }
}

/// One move of the flush machine: the next phase, the next action, and what
/// stays pending.  The buffer is cleared only when the commit succeeded; on
/// any failure it is left as it was.
pub open spec fn flush_step(
    pending: Seq<LogRecord>,
    path: Seq<char>,
    p: FlushPhase,
    ev: StoreEvent,
) -> (FlushPhase, ActionView, Seq<LogRecord>) {
    match ev {
        StoreEvent::Succeeded => {
            let q = phase_after(p, pending.len());
            if q == FlushPhase::Finished {
                (q, ActionView::Finish(None), Seq::empty())
            } else {
                (q, phase_action(q, pending, path), pending)
            }
        },
        StoreEvent::Failed(d) => (
            FlushPhase::Finished,
            ActionView::Finish(Some((phase_error_kind(p), d@))),
            pending,
        ),
    }
}

/// The actions issued and what stays pending when the machine in phase `p`
/// receives `events` in turn; events after the flush finished are ignored.
pub open spec fn flush_run(
    pending: Seq<LogRecord>,
    path: Seq<char>,
    p: FlushPhase,
    events: Seq<StoreEvent>,
) -> (Seq<ActionView>, Seq<LogRecord>)
    decreases events.len(),
{
    if events.len() == 0 || !phase_awaits(p, pending.len()) {
        (Seq::empty(), pending)
    } else {
        let (q, a, rest) = flush_step(pending, path, p, events[0]);
        let (more, fin) = flush_run(rest, path, q, events.drop_first());
        (seq![a] + more, fin)
    }
}

/// `n` successful outcomes.
pub open spec fn all_succeed(n: nat) -> Seq<StoreEvent> {
    Seq::new(n, |i: int| StoreEvent::Succeeded)
}

/// The inserts of `records`, in order.
pub open spec fn inserts_of(records: Seq<LogRecord>) -> Seq<ActionView> {
    records.map_values(|r: LogRecord| insert_action(r))
}

/// What a flush of a non-empty buffer issues once the store is open, when
/// every action succeeds.
pub open spec fn successful_flush_actions(pending: Seq<LogRecord>) -> Seq<ActionView> {
    seq![
        ActionView::Execute(TABLE_SQL@, seq![]),
        ActionView::Execute(INDEX_SQL@, seq![]),
        ActionView::Begin,
    ] + inserts_of(pending) + seq![ActionView::Commit, ActionView::Finish(None)]
}

proof fn lemma_all_succeed_drop_first(n: nat)
    requires
        n > 0,
    ensures
        all_succeed(n).drop_first() == all_succeed((n - 1) as nat),
        all_succeed(n)[0] == StoreEvent::Succeeded,
{
    assert(all_succeed(n).drop_first() =~= all_succeed((n - 1) as nat));
}

proof fn lemma_inserts_then_commit(pending: Seq<LogRecord>, path: Seq<char>, i: int)
    requires
        0 <= i < pending.len(),
        pending.len() <= usize::MAX,
    ensures
        flush_run(pending, path, FlushPhase::Inserting(i as usize), all_succeed((pending.len() - i + 1) as nat))
            == (inserts_of(pending.subrange(i + 1, pending.len() as int)) + seq![
            ActionView::Commit,
            ActionView::Finish(None),
        ], Seq::<LogRecord>::empty()),
    decreases pending.len() - i,
{
    let n = pending.len();
    let evs = all_succeed((n - i + 1) as nat);
    lemma_all_succeed_drop_first((n - i + 1) as nat);
    if i + 1 < n {
        lemma_inserts_then_commit(pending, path, i + 1);
        assert(inserts_of(pending.subrange(i + 1, n as int)) =~= seq![insert_action(pending[i + 1])]
            + inserts_of(pending.subrange(i + 2, n as int)));
        assert(flush_run(pending, path, FlushPhase::Inserting(i as usize), evs).0 =~= seq![
            insert_action(pending[i + 1]),
        ] + inserts_of(pending.subrange(i + 2, n as int)) + seq![
            ActionView::Commit,
            ActionView::Finish(None),
        ]);
    } else {
        lemma_all_succeed_drop_first(1);
        let tail = flush_run(pending, path, FlushPhase::Committing, all_succeed(1));
        assert(flush_run(Seq::empty(), path, FlushPhase::Finished, all_succeed(0)) == (
            Seq::<ActionView>::empty(),
            Seq::<LogRecord>::empty(),
        ));
        assert(tail.0 =~= seq![ActionView::Finish(None)]);
        assert(inserts_of(pending.subrange(i + 1, n as int)) =~= Seq::<ActionView>::empty());
        assert(flush_run(pending, path, FlushPhase::Inserting(i as usize), evs).0 =~= seq![
            ActionView::Commit,
            ActionView::Finish(None),
        ]);
    }
}

/// A flush in which every store action succeeds opens the store, creates
/// the schema, begins a transaction, inserts each pending record once and in
/// buffer order, commits, and leaves the buffer empty.
pub proof fn lemma_successful_flush(pending: Seq<LogRecord>, path: Seq<char>)
    requires
        0 < pending.len() <= usize::MAX,
    ensures
        flush_start(pending, path) == (FlushPhase::Opening, ActionView::Open(path)),
        flush_run(pending, path, FlushPhase::Opening, all_succeed(pending.len() + 5))
            == (successful_flush_actions(pending), Seq::<LogRecord>::empty()),
{
    let n = pending.len();
    lemma_all_succeed_drop_first(n + 5);
    lemma_all_succeed_drop_first(n + 4);
    lemma_all_succeed_drop_first(n + 3);
    lemma_all_succeed_drop_first(n + 2);
    lemma_inserts_then_commit(pending, path, 0);
    assert(inserts_of(pending) =~= seq![insert_action(pending[0])] + inserts_of(
        pending.subrange(1, n as int),
    ));
    let r4 = flush_run(pending, path, FlushPhase::Inserting(0), all_succeed(n + 1));
    let r3 = flush_run(pending, path, FlushPhase::Beginning, all_succeed(n + 2));
    let r2 = flush_run(pending, path, FlushPhase::CreatingIndex, all_succeed(n + 3));
    let r1 = flush_run(pending, path, FlushPhase::CreatingTable, all_succeed(n + 4));
    assert(r3 == (seq![insert_action(pending[0])] + r4.0, r4.1));
    assert(r2 == (seq![ActionView::Begin] + r3.0, r3.1));
    assert(r1 == (seq![ActionView::Execute(INDEX_SQL@, seq![])] + r2.0, r2.1));
    assert(flush_run(pending, path, FlushPhase::Opening, all_succeed(n + 5)).0
        =~= successful_flush_actions(pending));
}

proof fn lemma_inserts_then_failure(pending: Seq<LogRecord>, path: Seq<char>, i: int, d: String)
    requires
        0 <= i < pending.len(),
        pending.len() <= usize::MAX,
    ensures
        flush_run(
            pending,
            path,
            FlushPhase::Inserting(i as usize),
            all_succeed((pending.len() - i - 1) as nat).push(StoreEvent::Failed(d)),
        ) == (inserts_of(pending.subrange(i + 1, pending.len() as int)) + seq![
            ActionView::Finish(Some((FlushErrorKind::Transaction, d@))),
        ], pending),
    decreases pending.len() - i,
{
    let n = pending.len();
    let evs = all_succeed((n - i - 1) as nat).push(StoreEvent::Failed(d));
    if i + 1 < n {
        lemma_inserts_then_failure(pending, path, i + 1, d);
        assert(evs.drop_first() =~= all_succeed((n - i - 2) as nat).push(StoreEvent::Failed(d)));
        assert(evs[0] == StoreEvent::Succeeded);
        assert(inserts_of(pending.subrange(i + 1, n as int)) =~= seq![insert_action(pending[i + 1])]
            + inserts_of(pending.subrange(i + 2, n as int)));
        assert(flush_run(pending, path, FlushPhase::Inserting(i as usize), evs).0 =~= seq![
            insert_action(pending[i + 1]),
        ] + inserts_of(pending.subrange(i + 2, n as int)) + seq![
            ActionView::Finish(Some((FlushErrorKind::Transaction, d@))),
        ]);
    } else {
        assert(evs =~= seq![StoreEvent::Failed(d)]);
        assert(evs[0] == StoreEvent::Failed(d));
        assert(evs.drop_first() =~= Seq::<StoreEvent>::empty());
        assert(flush_run(pending, path, FlushPhase::Finished, evs.drop_first()) == (
            Seq::<ActionView>::empty(),
            pending,
        ));
        assert(inserts_of(pending.subrange(i + 1, n as int)) =~= Seq::<ActionView>::empty());
        assert(flush_run(pending, path, FlushPhase::Inserting(i as usize), evs).0 =~= seq![
            ActionView::Finish(Some((FlushErrorKind::Transaction, d@))),
        ]);
    }
}

/// When the insert of the last pending record fails, the flush ends with a
/// transaction error before any commit is issued, and the whole batch stays
/// pending.
pub proof fn lemma_last_insert_failure(pending: Seq<LogRecord>, path: Seq<char>, d: String)
    requires
        0 < pending.len() <= usize::MAX,
    ensures
        ({
            let (acts, fin) = flush_run(
                pending,
                path,
                FlushPhase::Opening,
                all_succeed(pending.len() + 3).push(StoreEvent::Failed(d)),
            );
            &&& acts == seq![
                ActionView::Execute(TABLE_SQL@, seq![]),
                ActionView::Execute(INDEX_SQL@, seq![]),
                ActionView::Begin,
            ] + inserts_of(pending) + seq![ActionView::Finish(Some((FlushErrorKind::Transaction, d@)))]
            &&& forall|j: int| 0 <= j < acts.len() ==> acts[j] != ActionView::Commit
            &&& fin == pending
        }),
{
    let n = pending.len();
    let evs = all_succeed(n + 3).push(StoreEvent::Failed(d));
    let e1 = all_succeed(n + 2).push(StoreEvent::Failed(d));
    let e2 = all_succeed(n + 1).push(StoreEvent::Failed(d));
    let e3 = all_succeed(n as nat).push(StoreEvent::Failed(d));
    let e4 = all_succeed((n - 1) as nat).push(StoreEvent::Failed(d));
    assert(evs.drop_first() =~= e1);
    assert(e1.drop_first() =~= e2);
    assert(e2.drop_first() =~= e3);
    assert(e3.drop_first() =~= e4);
    assert(evs[0] == StoreEvent::Succeeded);
    assert(e1[0] == StoreEvent::Succeeded);
    assert(e2[0] == StoreEvent::Succeeded);
    assert(e3[0] == StoreEvent::Succeeded);
    lemma_inserts_then_failure(pending, path, 0, d);
    assert(inserts_of(pending) =~= seq![insert_action(pending[0])] + inserts_of(
        pending.subrange(1, n as int),
    ));
    let r4 = flush_run(pending, path, FlushPhase::Inserting(0), e4);
    let r3 = flush_run(pending, path, FlushPhase::Beginning, e3);
    let r2 = flush_run(pending, path, FlushPhase::CreatingIndex, e2);
    let r1 = flush_run(pending, path, FlushPhase::CreatingTable, e1);
    assert(r3 == (seq![insert_action(pending[0])] + r4.0, r4.1));
    assert(r2 == (seq![ActionView::Begin] + r3.0, r3.1));
    assert(r1 == (seq![ActionView::Execute(INDEX_SQL@, seq![])] + r2.0, r2.1));
    let acts = flush_run(pending, path, FlushPhase::Opening, evs).0;
    assert(acts =~= seq![
        ActionView::Execute(TABLE_SQL@, seq![]),
        ActionView::Execute(INDEX_SQL@, seq![]),
        ActionView::Begin,
    ] + inserts_of(pending) + seq![ActionView::Finish(Some((FlushErrorKind::Transaction, d@)))]);
    assert forall|j: int| 0 <= j < acts.len() implies acts[j] != ActionView::Commit by {
        if 3 <= j < 3 + n {
            assert(acts[j] == insert_action(pending[j - 3]));
        }
    }
}

/// A flush is all-or-nothing for the buffer: whatever the store reports,
/// the buffer ends either untouched or, only after a successful finish,
/// empty; a flush that finished with an error leaves it untouched.
pub proof fn lemma_flush_atomic(
    pending: Seq<LogRecord>,
    path: Seq<char>,
    p: FlushPhase,
    events: Seq<StoreEvent>,
)
    ensures
        ({
            let (acts, fin) = flush_run(pending, path, p, events);
            &&& fin == pending || (fin.len() == 0 && acts.len() > 0 && acts.last()
                == ActionView::Finish(None))
            &&& (acts.len() > 0 && acts.last() matches ActionView::Finish(Some(_))) ==> fin
                == pending
        }),
    decreases events.len(),
{
    if events.len() > 0 && phase_awaits(p, pending.len()) {
        let (q, a, rest) = flush_step(pending, path, p, events[0]);
        lemma_flush_atomic(rest, path, q, events.drop_first());
        let (more, fin) = flush_run(rest, path, q, events.drop_first());
        let acts = seq![a] + more;
        if more.len() > 0 {
            assert(acts.last() == more.last());
        }
        if rest != pending {
            assert(!phase_awaits(q, rest.len()));
        }
    }
}

} // verus!
