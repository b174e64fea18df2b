//! State shared between a run writer and its background worker.
//!
//! The writer queues metrics, starts at most one worker, and lets that worker
//! drain the queue in batches and report the run's terminal status. Threads,
//! locking and network calls belong to the caller: every method here is one
//! critical section, performed while the caller holds the state's lock.
use vstd::prelude::*;

use crate::data::{Metric, RunStatus, Timestamp};
use crate::error::ClientError;

verus! {

/// Abstract state of a run writer.
pub struct WriterModel {
    /// Metrics waiting to be sent, oldest first.
    pub pending: Seq<Metric>,
    /// The outstanding error that no caller has seen yet.
    pub error: Option<ClientError>,
    /// The status to report when the run ends.
    pub status: RunStatus,
    /// The end time to report when the run ends.
    pub end_time: Option<Timestamp>,
    /// Whether the run has been finalized.
    pub finalized: bool,
    /// Whether a worker handle is held.
    pub has_worker: bool,
    /// Every metric ever queued, in queueing order.
    pub logged: Seq<Metric>,
    /// Every metric ever handed to a worker, batch after batch.
    pub handed_out: Seq<Metric>,
}

/// The model of a fresh writer.
pub open spec fn initial_model() -> WriterModel {
    WriterModel {
        pending: Seq::empty(),
        error: None,
        status: RunStatus::Running,
        end_time: None,
        finalized: false,
        has_worker: false,
        logged: Seq::empty(),
        handed_out: Seq::empty(),
    }
}

/// What holds of every writer state: nothing is lost or repeated between
/// queueing and handing out, and the status stays `Running` until the run
/// is finalized.
pub open spec fn model_wf(s: WriterModel) -> bool {
    &&& s.handed_out + s.pending == s.logged
    &&& !s.finalized ==> s.status == RunStatus::Running && s.end_time is None
}

/// The first error kept, later ones dropped.
pub open spec fn first_error(kept: Option<ClientError>, later: Option<ClientError>) -> Option<
    ClientError,
> {
    if kept is Some {
        kept
    } else {
        later
    }
}

/// The error of an outcome, if it failed.
pub open spec fn outcome_error(outcome: Result<(), ClientError>) -> Option<ClientError> {
    match outcome {
        Ok(_) => None,
        Err(e) => Some(e),
    }
}

/// Abstract state of one worker's lifetime.
pub struct CycleModel {
    /// The first error this worker met.
    pub error: Option<ClientError>,
    /// Whether this worker has issued the terminal update.
    pub terminal_sent: bool,
}

/// The three things a worker can be told to do next.
#[derive(Debug, Clone, Copy, PartialEq, Eq, Structural)]
pub enum StepKind {
    /// Send the whole pending queue as one batch.
    Drain,
    /// Report the terminal status and end time.
    UpdateTerminal,
    /// Hand back the error, release the worker slot and stop.
    Exit,
}

/// Which step a worker takes: drain while metrics wait and no error is known,
/// then report the terminal status once if one was requested, then exit.
pub open spec fn step_kind(s: WriterModel, c: CycleModel) -> StepKind {
    if !c.terminal_sent && s.error is None && c.error is None && s.pending.len() > 0 {
        StepKind::Drain
    } else if !c.terminal_sent && s.status != RunStatus::Running {
        StepKind::UpdateTerminal
    } else {
        StepKind::Exit
    }
}

/// The writer state after a worker step.
pub open spec fn step_state(s: WriterModel, c: CycleModel) -> WriterModel {
    match step_kind(s, c) {
        StepKind::Drain => WriterModel {
            pending: Seq::empty(),
            handed_out: s.handed_out + s.pending,
            ..s
        },
        StepKind::UpdateTerminal => s,
        StepKind::Exit => WriterModel {
            error: first_error(s.error, c.error),
            has_worker: false,
            ..s
        },
    }
}

/// The worker's own state after a step.
pub open spec fn step_cycle(s: WriterModel, c: CycleModel) -> CycleModel {
    match step_kind(s, c) {
        StepKind::Drain => c,
        StepKind::UpdateTerminal => CycleModel { terminal_sent: true, ..c },
        StepKind::Exit => CycleModel { error: None, ..c },
    }
}

/// What `take_error` returns: a failed join first, else the outstanding error.
pub open spec fn take_error_result(s: WriterModel, joined: Option<bool>) -> Result<(), ClientError> {
    if joined == Some(false) {
        Err(ClientError::TaskJoinError)
    } else {
        match s.error {
            Some(e) => Err(e),
            None => Ok(()),
        }
    }
}

/// The writer state after `take_error`: a returned outstanding error is cleared.
pub open spec fn take_error_state(s: WriterModel, joined: Option<bool>) -> WriterModel {
    if joined == Some(false) {
        s
    } else {
        WriterModel { error: None, ..s }
    }
}

/// The writer state after a request to end the run; only the first one counts.
pub open spec fn end_state(s: WriterModel, status: RunStatus, now: Timestamp) -> WriterModel {
    if s.finalized {
        s
    } else {
        WriterModel { status, end_time: Some(now), finalized: true, ..s }
    }
}

/// No metric is lost or repeated: once a worker gets past draining without
/// any error, everything ever queued has been handed out exactly once, in
/// queueing order, as consecutive batches.
pub proof fn lemma_everything_delivered(s: WriterModel, c: CycleModel)
    requires
        model_wf(s),
        s.error is None,
        c.error is None,
        !c.terminal_sent,
        step_kind(s, c) != StepKind::Drain,
    ensures
        s.pending.len() == 0,
        s.handed_out == s.logged,
{
    assert(s.handed_out + s.pending =~= s.handed_out);
}

/// A drain hands out exactly what was pending and keeps the queue consistent.
pub proof fn lemma_drain_keeps_order(s: WriterModel, c: CycleModel)
    requires
        model_wf(s),
        step_kind(s, c) == StepKind::Drain,
    ensures
        model_wf(step_state(s, c)),
        step_state(s, c).handed_out == s.handed_out + s.pending,
        step_state(s, c).pending.len() == 0,
        step_state(s, c).logged == s.logged,
{
    assert(step_state(s, c).handed_out + step_state(s, c).pending =~= s.logged);
}

/// An outstanding error is handed out once: after `take_error` has returned
/// it, the next call returns `Ok` unless it has a failed join to report.
pub proof fn lemma_error_taken_once(s: WriterModel, first: Option<bool>, second: Option<bool>)
    requires
        first != Some(false),
    ensures
        take_error_result(take_error_state(s, first), second) == if second == Some(false) {
            Err::<(), ClientError>(ClientError::TaskJoinError)
        } else {
            Ok(())
        },
{
}

/// Ending a run that was not finalized yet reports the requested status:
/// with nothing queued afterwards, a worker drains at most once and then
/// issues the terminal update with that status and end time, by which point,
/// if no error was met, every metric ever queued has been handed out. A
/// writer that is discarded without `finish` requests `Failed` this way.
pub proof fn lemma_end_reports_status(
    s: WriterModel,
    status: RunStatus,
    now: Timestamp,
    c: CycleModel,
)
    requires
        model_wf(s),
        !s.finalized,
        status != RunStatus::Running,
        !c.terminal_sent,
    ensures
        ({
            let e = end_state(s, status, now);
            let after = if step_kind(e, c) == StepKind::Drain {
                step_state(e, c)
            } else {
                e
            };
            &&& step_kind(after, c) == StepKind::UpdateTerminal
            &&& after.status == status
            &&& after.end_time == Some(now)
            &&& s.error is None && c.error is None ==> after.handed_out == after.logged
        }),
{
    let e = end_state(s, status, now);
    if step_kind(e, c) == StepKind::Drain {
        lemma_drain_keeps_order(e, c);
        assert(step_state(e, c).handed_out + step_state(e, c).pending =~= step_state(e, c).handed_out);
    } else if s.error is None && c.error is None {
        assert(e.handed_out + e.pending =~= e.handed_out);
    }
}

/// Finishing at a time no earlier than any queued metric's timestamp records
/// `Finished` with an end time at or after all of them.
pub proof fn lemma_finish_end_time(s: WriterModel, now: Timestamp)
    requires
        model_wf(s),
        !s.finalized,
        forall|i: int| 0 <= i < s.logged.len() ==> s.logged[i].timestamp.0 <= now.0,
    ensures
        end_state(s, RunStatus::Finished, now).status == RunStatus::Finished,
        end_state(s, RunStatus::Finished, now).end_time == Some(now),
        forall|i: int|
            0 <= i < s.logged.len() ==> s.logged[i].timestamp.0 <= end_state(
                s,
                RunStatus::Finished,
                now,
            ).end_time->Some_0.0,
{
}

/// The records of one `log_metrics` call: one per entry, in order, all with
/// the same timestamp and step.
pub open spec fn stamped(entries: Seq<(String, u64)>, timestamp: Timestamp, step: Option<i64>) -> Seq<
    Metric,
> {
    entries.map_values(
        |e: (String, u64)| Metric { key: e.0, value_bits: e.1, timestamp, step },
    )
}

/// Builds the records of one `log_metrics` call from `(key, value bits)`
/// entries, sharing `timestamp` and `step` among them.
pub fn stamp_metrics(entries: &Vec<(String, u64)>, timestamp: Timestamp, step: Option<i64>) -> (r:
    Vec<Metric>)
    ensures
        r@ == stamped(entries@, timestamp, step),
{
    let mut r: Vec<Metric> = Vec::new();
    let mut i: usize = 0;
    while i < entries.len()
        invariant
            i <= entries.len(),
            r@ == stamped(entries@.take(i as int), timestamp, step),
        decreases entries.len() - i,
    {
        let (key, value_bits) = &entries[i];
        r.push(Metric { key: key.clone(), value_bits: *value_bits, timestamp, step });
        i = i + 1;
        proof {
            assert(entries@.take(i as int) =~= entries@.take(i - 1) + seq![entries@[i - 1]]);
            assert(r@ =~= stamped(entries@.take(i as int), timestamp, step));
        }
    }
    proof {
        assert(entries@.take(i as int) =~= entries@);
    }
    r
}

/// Whether a request for a worker starts one: only when none is held.
pub open spec fn spawns(s: WriterModel) -> bool {
    !s.has_worker
}

/// The writer state after a request for a worker.
pub open spec fn ensure_state(s: WriterModel) -> WriterModel {
    WriterModel { has_worker: true, ..s }
}

/// At most one worker at a time: after a request for a worker, a further
/// request starts none, and while a worker is held neither queueing, error
/// hand-out, ending nor a worker step short of its exit frees the slot.
pub proof fn lemma_single_worker(
    s: WriterModel,
    c: CycleModel,
    joined: Option<bool>,
    status: RunStatus,
    now: Timestamp,
    m: Metric,
)
    ensures
        !spawns(ensure_state(s)),
        s.has_worker ==> !spawns(WriterModel { pending: s.pending.push(m), logged: s.logged.push(m), ..s }),
        s.has_worker ==> !spawns(take_error_state(s, joined)),
        s.has_worker ==> !spawns(end_state(s, status, now)),
        s.has_worker && step_kind(s, c) != StepKind::Exit ==> !spawns(step_state(s, c)),
{
}

/// A worker's instruction, produced by [`WriterState::next_action`].
pub enum WorkerAction {
    /// Send these metrics as one batch, then record the outcome.
    SendBatch(Vec<Metric>),
    /// Update the run to this status and end time, then record the outcome.
    UpdateTerminal { status: RunStatus, end_time: Option<Timestamp> },
    /// Stop: the worker slot has been released.
    Exit,
}

/// What one worker knows about its own lifetime.
pub struct WorkerCycle {
    error: Option<ClientError>,
    terminal_sent: bool,
}

impl View for WorkerCycle {
    type V = CycleModel;

    closed spec fn view(&self) -> CycleModel {
        CycleModel { error: self.error, terminal_sent: self.terminal_sent }
    }
}

impl WorkerCycle {
    /// A worker that has met no error and sent no terminal update.
    pub fn new() -> (r: WorkerCycle)
        ensures
            r@ == (CycleModel { error: None, terminal_sent: false }),
    {
        WorkerCycle { error: None, terminal_sent: false }
    }

    /// Records the outcome of a network operation; the first error wins.
    pub fn record(&mut self, outcome: Result<(), ClientError>)
        ensures
            final(self)@ == (CycleModel {
                error: first_error(old(self)@.error, outcome_error(outcome)),
                ..old(self)@
            }),
    {
        if self.error.is_none() {
            match outcome {
                Ok(()) => {},
                Err(e) => {
                    self.error = Some(e);
                },
            }
        }
    }
}

/// The state block shared by a writer and its worker; `H` is the worker's handle.
pub struct WriterState<H> {
    metrics: Vec<Metric>,
    error: Option<ClientError>,
    status: RunStatus,
    end_time: Option<Timestamp>,
    finalized: bool,
    worker: Option<H>,
    logged: Ghost<Seq<Metric>>,
    handed_out: Ghost<Seq<Metric>>,
}

impl<H> View for WriterState<H> {
    type V = WriterModel;

    closed spec fn view(&self) -> WriterModel {
        WriterModel {
            pending: self.metrics@,
            error: self.error,
            status: self.status,
            end_time: self.end_time,
            finalized: self.finalized,
            has_worker: self.worker is Some,
            logged: self.logged@,
            handed_out: self.handed_out@,
        }
    }
}

impl<H> WriterState<H> {
    /// The worker handle held, if any.
    pub closed spec fn worker_handle(&self) -> Option<H> {
        self.worker
    }

    pub open spec fn wf(&self) -> bool {
        model_wf(self@)
    }

    /// A fresh state: nothing queued, no error, status `Running`, no worker.
    pub fn new() -> (r: WriterState<H>)
        ensures
            r.wf(),
            r@ == initial_model(),
            r.worker_handle() is None,
    {
        let r = WriterState {
            metrics: Vec::new(),
            error: None,
            status: RunStatus::Running,
            end_time: None,
            finalized: false,
            worker: None,
            logged: Ghost(Seq::empty()),
            handed_out: Ghost(Seq::empty()),
        };
        proof {
            assert(r@.handed_out + r@.pending =~= r@.logged);
        }
        r
    }

    /// Queues one metric behind those already waiting.
    pub fn enqueue(&mut self, m: Metric)
        requires
            old(self).wf(),
        ensures
            final(self).wf(),
            final(self)@ == (WriterModel {
                pending: old(self)@.pending.push(m),
                logged: old(self)@.logged.push(m),
                ..old(self)@
            }),
            final(self).worker_handle() == old(self).worker_handle(),
    {
        self.logged = Ghost(self.logged@.push(m));
        self.metrics.push(m);
        proof {
            assert(self@.handed_out + self@.pending =~= self@.logged);
        }
    }

    /// Queues several metrics, in their order, behind those already waiting.
    pub fn enqueue_all(&mut self, ms: Vec<Metric>)
        requires
            old(self).wf(),
        ensures
            final(self).wf(),
            final(self)@ == (WriterModel {
                pending: old(self)@.pending + ms@,
                logged: old(self)@.logged + ms@,
                ..old(self)@
            }),
            final(self).worker_handle() == old(self).worker_handle(),
    {
        let mut ms = ms;
        self.logged = Ghost(self.logged@ + ms@);
        self.metrics.append(&mut ms);
        proof {
            assert(self@.handed_out + self@.pending =~= self@.logged);
        }
    }

    /// Starts a worker through `spawn` unless one is already held, so that at
    /// most one worker exists at a time. Returns whether `spawn` was used.
    pub fn ensure_worker<F: FnOnce() -> H>(&mut self, spawn: F) -> (spawned: bool)
        requires
            old(self).wf(),
            spawn.requires(()),
        ensures
            final(self).wf(),
            spawned == (old(self).worker_handle() is None),
            spawned == spawns(old(self)@),
            final(self)@ == ensure_state(old(self)@),
            spawned ==> spawn.ensures((), final(self).worker_handle()->Some_0),
            !spawned ==> final(self).worker_handle() == old(self).worker_handle(),
    {
        if self.worker.is_none() {
            let h = spawn();
            self.worker = Some(h);
            true
        } else {
            false
        }
    }

    /// Takes the worker handle out of the state, leaving the slot empty.
    pub fn take_worker(&mut self) -> (r: Option<H>)
        requires
            old(self).wf(),
        ensures
            final(self).wf(),
            r == old(self).worker_handle(),
            final(self).worker_handle() is None,
            final(self)@ == (WriterModel { has_worker: false, ..old(self)@ }),
    {
        self.worker.take()
    }

    /// Takes the worker handle out if `is_finished` says that its worker has
    /// ended, so that the caller can join it; else leaves the slot alone.
    pub fn reap_finished<F: Fn(&H) -> bool>(&mut self, is_finished: F) -> (r: Option<H>)
        requires
            old(self).wf(),
            old(self).worker_handle() is Some ==> is_finished.requires(
                (&old(self).worker_handle()->Some_0,),
            ),
        ensures
            final(self).wf(),
            old(self).worker_handle() is None ==> r is None && final(self).worker_handle() is None
                && final(self)@ == old(self)@,
            old(self).worker_handle() is Some ==> {
                let h = old(self).worker_handle()->Some_0;
                ||| is_finished.ensures((&h,), true) && r == Some(h) && final(self).worker_handle() is None
                    && final(self)@ == (WriterModel { has_worker: false, ..old(self)@ })
                ||| is_finished.ensures((&h,), false) && r is None && final(self).worker_handle()
                    == old(self).worker_handle() && final(self)@ == old(self)@
            },
    {
        let finished = match &self.worker {
            Some(h) => is_finished(h),
            None => false,
        };
        if finished {
            self.worker.take()
        } else {
            None
        }
    }

    /// Hands out the outstanding error, at most once. `joined` is the outcome
    /// of joining a worker that was found finished (`None` if none was), and a
    /// failed join is reported first, leaving the outstanding error in place.
    pub fn take_error(&mut self, joined: Option<bool>) -> (r: Result<(), ClientError>)
        requires
            old(self).wf(),
        ensures
            final(self).wf(),
            r == take_error_result(old(self)@, joined),
            final(self)@ == take_error_state(old(self)@, joined),
            final(self).worker_handle() == old(self).worker_handle(),
    {
        if joined == Some(false) {
            return Err(ClientError::TaskJoinError);
        }
        match self.error.take() {
            Some(e) => Err(e),
            None => Ok(()),
        }
    }

    /// Asks for the run to end with `status` at time `now`. Only the first
    /// request counts; returns whether this one did.
    pub fn request_end(&mut self, status: RunStatus, now: Timestamp) -> (started: bool)
        requires
            old(self).wf(),
        ensures
            final(self).wf(),
            started == !old(self)@.finalized,
            final(self)@ == end_state(old(self)@, status, now),
            final(self).worker_handle() == old(self).worker_handle(),
    {
        if self.finalized {
            return false;
        }
        self.status = status;
        self.end_time = Some(now);
        self.finalized = true;
        true
    }

    /// Whether the run has been finalized.
    pub fn is_finalized(&self) -> (r: bool)
        ensures
            r == self@.finalized,
    {
        self.finalized
    }

    /// Decides a worker's next step and applies it to the shared state.
    ///
    /// While metrics wait and neither this worker nor an earlier one has an
    /// unreported error, the whole queue is taken as one batch. Otherwise, if
    /// the run has been asked to end and this worker has not yet reported it,
    /// the terminal update is issued. Otherwise the worker's first error joins
    /// the outstanding one (the earlier wins), the worker slot is released and
    /// the worker must stop.
    pub fn next_action(&mut self, cycle: &mut WorkerCycle) -> (r: WorkerAction)
        requires
            old(self).wf(),
        ensures
            final(self).wf(),
            final(self)@ == step_state(old(self)@, old(cycle)@),
            final(cycle)@ == step_cycle(old(self)@, old(cycle)@),
            step_kind(old(self)@, old(cycle)@) == StepKind::Drain ==> (r matches WorkerAction::SendBatch(
                b,
            ) && b@ == old(self)@.pending),
            step_kind(old(self)@, old(cycle)@) == StepKind::UpdateTerminal ==> r
                == (WorkerAction::UpdateTerminal {
                status: old(self)@.status,
                end_time: old(self)@.end_time,
            }),
            step_kind(old(self)@, old(cycle)@) == StepKind::Exit ==> r is Exit,
            step_kind(old(self)@, old(cycle)@) != StepKind::Exit ==> final(self).worker_handle()
                == old(self).worker_handle(),
            step_kind(old(self)@, old(cycle)@) == StepKind::Exit ==> final(self).worker_handle() is None,
    {
        if !cycle.terminal_sent && self.error.is_none() && cycle.error.is_none()
            && self.metrics.len() > 0 {
            let mut batch: Vec<Metric> = Vec::new();
            std::mem::swap(&mut batch, &mut self.metrics);
            self.handed_out = Ghost(self.handed_out@ + batch@);
            proof {
                assert(self@.handed_out + self@.pending =~= self@.logged);
            }
            return WorkerAction::SendBatch(batch);
        }
        if !cycle.terminal_sent && self.status != RunStatus::Running {
            cycle.terminal_sent = true;
            return WorkerAction::UpdateTerminal { status: self.status, end_time: self.end_time };
        }
        if self.error.is_none() {
            self.error = cycle.error.take();
        } else {
            cycle.error = None;
        }
        self.worker = None;
        WorkerAction::Exit
    }
}

} // verus!
