use vstd::prelude::*;
use crate::load_balancing::IpAddress;
use tokio::sync::mpsc::UnboundedSender;

verus! {

/// The record of one completed request, as the request-serving side hands it
/// over.
pub struct LogData {
    pub target: String,
    pub worker_route: String,
    pub worker_id: usize,
    pub ip: IpAddress,
    pub method: String,
    pub path: String,
    pub query: Option<String>,
    pub version: String,
    pub status: u16,
    pub user_agent: Option<String>,
    pub elapsed: i64,
}

/// One row of the events table, in column order.
pub struct LogRow {
    pub namespace: String,
    pub target: String,
    pub worker_route: String,
    pub worker_id: i32,
    pub ip: IpAddress,
    pub method: String,
    pub path: String,
    pub query: Option<String>,
    pub version: String,
    pub status: i16,
    pub user_agent: Option<String>,
    pub elapsed: i64,
    pub timestamp: i64,
}

/// A query string is stored only when it is present and not empty.
pub open spec fn stored_query(q: Option<String>) -> Option<Seq<char>> {
    match q {
        Some(s) => if s@.len() == 0 {
            None
        } else {
            Some(s@)
        },
        None => None,
    }
}

pub open spec fn text_of(o: Option<String>) -> Option<Seq<char>> {
    match o {
        Some(s) => Some(s@),
        None => None,
    }
}

fn copy_text(o: &Option<String>) -> (r: Option<String>)
    ensures
        text_of(r) == text_of(*o),
{
    match o {
        Some(s) => Some(s.clone()),
        None => None,
    }
}

/// Builds the row stored for an event received at `timestamp` (microseconds
/// since the Unix epoch).
pub fn make_row(namespace: &str, timestamp: i64, data: &LogData) -> (r: LogRow)
    ensures
        r.namespace@ == namespace@,
        r.target@ == data.target@,
        r.worker_route@ == data.worker_route@,
        r.worker_id == data.worker_id as i32,
        r.ip == data.ip,
        r.method@ == data.method@,
        r.path@ == data.path@,
        text_of(r.query) == stored_query(data.query),
        r.version@ == data.version@,
        r.status == data.status as i16,
        text_of(r.user_agent) == text_of(data.user_agent),
        r.elapsed == data.elapsed,
        r.timestamp == timestamp,
{
    let query = match &data.query {
        Some(q) => if q.as_str().is_empty() {
            None
        } else {
            Some(q.clone())
        },
        None => None,
    };
    LogRow {
        namespace: namespace.to_owned(),
        target: data.target.clone(),
        worker_route: data.worker_route.clone(),
        worker_id: data.worker_id as i32,
        ip: data.ip,
        method: data.method.clone(),
        path: data.path.clone(),
        query,
        version: data.version.clone(),
        status: data.status as i16,
        user_agent: copy_text(&data.user_agent),
        elapsed: data.elapsed,
        timestamp,
    }
}

#[verifier::external_type_specification]
#[verifier::external_body]
#[verifier::reject_recursive_types(T)]
pub struct ExUnboundedSender<T>(UnboundedSender<T>);

/// Relies on tokio's `Clone for UnboundedSender`: another handle on the same
/// queue.
pub assume_specification<T>[ <UnboundedSender<T> as Clone>::clone ](
    s: &UnboundedSender<T>,
) -> UnboundedSender<T>;

/// Relies on `chrono::Local::now` and `DateTime::timestamp_micros`: the
/// current time, in microseconds since the Unix epoch. Nothing is known of
/// its value.
#[verifier::external_body]
fn now_micros() -> (r: i64) {
    chrono::Local::now().timestamp_micros()
}

/// Relies on tokio's `UnboundedSender::send`: it never blocks; the message is
/// queued, or dropped when the receiving task is gone.
#[verifier::external_body]
fn enqueue(sender: &UnboundedSender<(i64, LogData)>, timestamp: i64, data: LogData) {
    let _ = sender.send((timestamp, data));
}

/// The producing side of the telemetry queue; copies feed the same queue.
#[derive(Clone)]
pub struct TelemetrySender {
    pub sender: UnboundedSender<(i64, LogData)>,
}

impl TelemetrySender {
    /// Timestamps the event and queues it without waiting; when the writer
    /// task is gone the event is dropped, and no failure reaches the caller.
    pub fn send(&self, data: LogData) {
        let timestamp = now_micros();
        enqueue(&self.sender, timestamp, data);
    }
}

/// Most events written in one bulk load.
pub const BATCH_CAP: usize = 100;

/// Where the background writer stands.
#[derive(Clone, Copy, Debug, PartialEq, Eq, Structural)]
pub enum Phase {
    /// Waiting for events.
    Receiving,
    /// Holding a batch, waiting for a datastore connection and bulk-load sink.
    Acquiring,
    /// Writing the batch's rows one by one.
    Writing,
    /// Finalizing the bulk load.
    Finishing,
    /// Every sender is gone and the queue is empty.
    Stopped,
}

/// What happened since the last action.
#[derive(Clone, Copy, Debug, PartialEq, Eq, Structural)]
pub enum PipelineEvent {
    /// This many events were drained from the queue; zero means the queue is
    /// closed and empty.
    Received(usize),
    SinkReady,
    SinkFailed,
    RowWritten,
    RowFailed,
    Finished,
    FinishFailed,
}

/// What the runner does next.
#[derive(Clone, Copy, Debug, PartialEq, Eq, Structural)]
pub enum PipelineAction {
    /// Drop what is left of the current batch, then wait for at least one
    /// event and drain at most this many.
    Receive(usize),
    /// Get a datastore connection and open a binary bulk load on it.
    AcquireSink,
    /// Write the batch's event at this position as one row.
    WriteRow(usize),
    /// Finalize the bulk load.
    Finish,
    /// End the task.
    Stop,
}

/// The state of the background writer.
#[derive(Clone, Copy, Debug, PartialEq, Eq, Structural)]
pub struct PipelineState {
    pub phase: Phase,
    pub batch_len: usize,
    pub next_row: usize,
}

pub open spec fn receiving() -> PipelineState {
    PipelineState { phase: Phase::Receiving, batch_len: 0, next_row: 0 }
}

/// The transition of the background writer.
pub open spec fn next_spec(s: PipelineState, e: PipelineEvent) -> (PipelineState, PipelineAction) {
    let recover = (receiving(), PipelineAction::Receive(BATCH_CAP));
    match (s.phase, e) {
        (Phase::Stopped, _) => (s, PipelineAction::Stop),
        (Phase::Receiving, PipelineEvent::Received(n)) => if n == 0 {
            (PipelineState { phase: Phase::Stopped, batch_len: 0, next_row: 0 }, PipelineAction::Stop)
        } else {
            (
                PipelineState { phase: Phase::Acquiring, batch_len: n, next_row: 0 },
                PipelineAction::AcquireSink,
            )
        },
        (Phase::Acquiring, PipelineEvent::SinkReady) => (
            PipelineState { phase: Phase::Writing, batch_len: s.batch_len, next_row: 0 },
            PipelineAction::WriteRow(0),
        ),
        (Phase::Writing, PipelineEvent::RowWritten) => if s.next_row + 1 < s.batch_len {
            (
                PipelineState {
                    phase: Phase::Writing,
                    batch_len: s.batch_len,
                    next_row: (s.next_row + 1) as usize,
                },
                PipelineAction::WriteRow((s.next_row + 1) as usize),
            )
        } else {
            (
                PipelineState { phase: Phase::Finishing, batch_len: s.batch_len, next_row: 0 },
                PipelineAction::Finish,
            )
        },
        (Phase::Writing, PipelineEvent::RowFailed) => (
            PipelineState { phase: Phase::Finishing, batch_len: s.batch_len, next_row: 0 },
            PipelineAction::Finish,
        ),
        _ => recover,
    }
}

impl PipelineState {
    /// A batch is held exactly while acquiring, writing or finishing, and the
    /// row being written lies in it.
    pub open spec fn wf(self) -> bool {
        &&& (self.phase == Phase::Acquiring || self.phase == Phase::Writing || self.phase
            == Phase::Finishing) ==> self.batch_len > 0
        &&& self.phase == Phase::Writing ==> self.next_row < self.batch_len
    }

    /// The writer before its first event, and what it does first.
    pub fn start() -> (r: (PipelineState, PipelineAction))
        ensures
            r.0 == receiving(),
            r.1 == PipelineAction::Receive(BATCH_CAP),
            r.0.wf(),
    {
        (PipelineState { phase: Phase::Receiving, batch_len: 0, next_row: 0 }, PipelineAction::Receive(BATCH_CAP))
    }

    /// The next state and action after `e`.
    pub fn next(self, e: PipelineEvent) -> (r: (PipelineState, PipelineAction))
        requires
            self.wf(),
        ensures
            r == next_spec(self, e),
            r.0.wf(),
    {
        let recover = (
            PipelineState { phase: Phase::Receiving, batch_len: 0, next_row: 0 },
            PipelineAction::Receive(BATCH_CAP),
        );
        match (self.phase, e) {
            (Phase::Stopped, _) => (self, PipelineAction::Stop),
            (Phase::Receiving, PipelineEvent::Received(n)) => if n == 0 {
                (PipelineState { phase: Phase::Stopped, batch_len: 0, next_row: 0 }, PipelineAction::Stop)
            } else {
                (
                    PipelineState { phase: Phase::Acquiring, batch_len: n, next_row: 0 },
                    PipelineAction::AcquireSink,
                )
            },
            (Phase::Acquiring, PipelineEvent::SinkReady) => (
                PipelineState { phase: Phase::Writing, batch_len: self.batch_len, next_row: 0 },
                PipelineAction::WriteRow(0),
            ),
            (Phase::Writing, PipelineEvent::RowWritten) => if self.next_row + 1 < self.batch_len {
                (
                    PipelineState {
                        phase: Phase::Writing,
                        batch_len: self.batch_len,
                        next_row: self.next_row + 1,
                    },
                    PipelineAction::WriteRow(self.next_row + 1),
                )
            } else {
                (
                    PipelineState { phase: Phase::Finishing, batch_len: self.batch_len, next_row: 0 },
                    PipelineAction::Finish,
                )
            },
            (Phase::Writing, PipelineEvent::RowFailed) => (
                PipelineState { phase: Phase::Finishing, batch_len: self.batch_len, next_row: 0 },
                PipelineAction::Finish,
            ),
            _ => recover,
        }
    }
}

/// Failure isolation: the writer stops only once the queue is closed and
/// empty; a failure to get a sink or to finalize a load sends it back to
/// receiving, and a failed row sends it to finalizing what was written.
pub proof fn failures_never_stop_the_writer(s: PipelineState, e: PipelineEvent)
    requires
        s.wf(),
    ensures
        next_spec(s, e).0.phase == Phase::Stopped ==> s.phase == Phase::Stopped || e
            == PipelineEvent::Received(0),
        s.phase != Phase::Stopped && (e == PipelineEvent::SinkFailed || e
            == PipelineEvent::FinishFailed) ==> next_spec(s, e) == (
            receiving(),
            PipelineAction::Receive(BATCH_CAP),
        ),
        s.phase == Phase::Writing && e == PipelineEvent::RowFailed ==> next_spec(s, e).1
            == PipelineAction::Finish,
{
}

/// Rows keep the order of the batch: the first row written is the batch's
/// first event, and each later one is the event right after the row just
/// written, until the batch is exhausted.
pub proof fn rows_follow_batch_order(s: PipelineState, e: PipelineEvent, i: usize)
    requires
        s.wf(),
        next_spec(s, e).1 == PipelineAction::WriteRow(i),
    ensures
        (s.phase == Phase::Acquiring && i == 0) || (s.phase == Phase::Writing && i == s.next_row
            + 1),
        i < s.batch_len,
{
}

/// The state reached and the actions taken after a sequence of events.
pub open spec fn run(s: PipelineState, events: Seq<PipelineEvent>) -> (PipelineState, Seq<PipelineAction>)
    decreases events.len(),
{
    if events.len() == 0 {
        (s, Seq::empty())
    } else {
        let (t, a) = next_spec(s, events[0]);
        let (u, rest) = run(t, events.drop_first());
        (u, seq![a] + rest)
    }
}

proof fn lemma_run_concat(s: PipelineState, a: Seq<PipelineEvent>, b: Seq<PipelineEvent>)
    ensures
        run(s, a + b) == ({
            let (t, x) = run(s, a);
            let (u, y) = run(t, b);
            (u, x + y)
        }),
    decreases a.len(),
{
    if a.len() == 0 {
        assert(a + b =~= b);
        assert(Seq::<PipelineAction>::empty() + run(s, b).1 =~= run(s, b).1);
    } else {
        let (t, act) = next_spec(s, a[0]);
        assert((a + b).drop_first() =~= a.drop_first() + b);
        assert((a + b)[0] == a[0]);
        lemma_run_concat(t, a.drop_first(), b);
        let (t2, x2) = run(t, a.drop_first());
        let (u, y) = run(t2, b);
        assert(seq![act] + (x2 + y) =~= (seq![act] + x2) + y);
    }
}

proof fn lemma_run_single(s: PipelineState, e: PipelineEvent)
    ensures
        run(s, seq![e]) == (next_spec(s, e).0, seq![next_spec(s, e).1]),
{
    let t = next_spec(s, e).0;
    assert(seq![e].drop_first() =~= Seq::<PipelineEvent>::empty());
    assert(run(t, Seq::<PipelineEvent>::empty()) == (t, Seq::<PipelineAction>::empty()));
    assert(seq![next_spec(s, e).1] + Seq::<PipelineAction>::empty() =~= seq![next_spec(s, e).1]);
}

pub open spec fn rows_written(m: nat) -> Seq<PipelineEvent> {
    Seq::new(m, |i: int| PipelineEvent::RowWritten)
}

proof fn lemma_writing_run(n: usize, k: usize, m: nat)
    requires
        k + m < n,
    ensures
        run(PipelineState { phase: Phase::Writing, batch_len: n, next_row: k }, rows_written(m))
            == (
            PipelineState { phase: Phase::Writing, batch_len: n, next_row: (k + m) as usize },
            Seq::new(m, |i: int| PipelineAction::WriteRow((k + 1 + i) as usize)),
        ),
    decreases m,
{
    let s = PipelineState { phase: Phase::Writing, batch_len: n, next_row: k };
    if m == 0 {
        assert(Seq::new(0, |i: int| PipelineAction::WriteRow((k + 1 + i) as usize)) =~= Seq::<
            PipelineAction,
        >::empty());
    } else {
        let k1 = (k + 1) as usize;
        assert(rows_written(m).drop_first() =~= rows_written((m - 1) as nat));
        lemma_writing_run(n, k1, (m - 1) as nat);
        assert(seq![PipelineAction::WriteRow(k1)] + Seq::new(
            (m - 1) as nat,
            |i: int| PipelineAction::WriteRow((k1 + 1 + i) as usize),
        ) =~= Seq::new(m, |i: int| PipelineAction::WriteRow((k + 1 + i) as usize)));
    }
}

/// Rows keep the order in which events were queued: once a sink is ready, a
/// batch of `n` events whose rows all go through is written as rows
/// `0, 1, ..., n - 1`, each once and in that order, and then finalized.
pub proof fn batch_rows_written_in_order(n: usize)
    requires
        n > 0,
    ensures
        run(
            PipelineState { phase: Phase::Acquiring, batch_len: n, next_row: 0 },
            seq![PipelineEvent::SinkReady] + rows_written(n as nat),
        ) == (
            PipelineState { phase: Phase::Finishing, batch_len: n, next_row: 0 },
            Seq::new(n as nat, |i: int| PipelineAction::WriteRow(i as usize)).push(
                PipelineAction::Finish,
            ),
        ),
{
    let s0 = PipelineState { phase: Phase::Acquiring, batch_len: n, next_row: 0 };
    let s1 = PipelineState { phase: Phase::Writing, batch_len: n, next_row: 0 };
    let m = (n - 1) as nat;
    assert(rows_written(n as nat) =~= rows_written(m) + seq![PipelineEvent::RowWritten]);
    assert(seq![PipelineEvent::SinkReady] + rows_written(n as nat) =~= seq![
        PipelineEvent::SinkReady,
    ] + rows_written(m) + seq![PipelineEvent::RowWritten]);
    lemma_run_concat(s0, seq![PipelineEvent::SinkReady], rows_written(m));
    lemma_run_concat(
        s0,
        seq![PipelineEvent::SinkReady] + rows_written(m),
        seq![PipelineEvent::RowWritten],
    );
    lemma_run_single(s0, PipelineEvent::SinkReady);
    lemma_writing_run(n, 0, m);
    let last = PipelineState { phase: Phase::Writing, batch_len: n, next_row: (n - 1) as usize };
    lemma_run_single(last, PipelineEvent::RowWritten);
    assert(seq![PipelineAction::WriteRow(0)] + Seq::new(
        m,
        |i: int| PipelineAction::WriteRow((0 + 1 + i) as usize),
    ) + seq![PipelineAction::Finish] =~= Seq::new(
        n as nat,
        |i: int| PipelineAction::WriteRow(i as usize),
    ).push(PipelineAction::Finish));
}

} // verus!
