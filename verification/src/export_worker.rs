//! The export worker: what it does next, and when it gives up.
//!
//! The worker alternates between waiting for a line, exporting a batch and
//! backing off after a failure. Each of those is carried out elsewhere; the
//! worker is told how it went and answers with what is to be done next.

use crate::channel::{drained_queue, ran_dry, taken};
use crate::log_export::{
    account_dropped_batch, gap_view, line_records, records_of, since, Batch, BatchView, DropLedger,
    Gap, INITIAL_BACKOFF_MS, MAX_BACKOFF_MS, MAX_BATCH, MAX_EXPORT_ATTEMPTS,
};
use crate::log_line::{LineView, SandboxLogLine};
use crate::log_record::{line_record, record_for, RecordView};
use tokio::sync::mpsc;
use vstd::prelude::*;

verus! {

/// Where the worker stands.
#[derive(Debug, Clone, Copy, PartialEq, Eq, Structural)]
pub enum Phase {
    /// Waiting for the first line of a batch.
    Idle,
    /// A batch is being exported.
    Exporting { attempt: u32, backoff_ms: u64 },
    /// An attempt failed; the next one follows after a delay.
    BackingOff { attempt: u32, backoff_ms: u64 },
    /// Shutting down: the batch that was to be retried gets one last attempt.
    LastAttempt,
    /// Shutting down: what is queued is exported, one attempt per batch.
    Flushing,
    /// Nothing is left to do.
    Stopped,
}

/// What is to be done next.
#[derive(Debug, Clone, Copy, PartialEq, Eq, Structural)]
pub enum Action {
    /// Wait for a line, for the queue to close, or for shutdown.
    AwaitLine,
    /// Export the batch.
    Export,
    /// Wait for this many milliseconds, or for shutdown.
    Sleep(u64),
    /// Shut the exporter down.
    Stop,
}

/// How the last action went.
#[derive(Debug)]
pub enum ExportEvent {
    /// A line came off the queue.
    Line(SandboxLogLine),
    /// The queue closed or shutdown was requested.
    Ended,
    /// The exporter took the batch.
    Delivered,
    /// The exporter failed.
    Failed,
    /// The delay is over.
    Elapsed,
}

/// The contents of an [`ExportEvent`].
pub enum ExportEventView {
    Line(LineView),
    Ended,
    Delivered,
    Failed,
    Elapsed,
}

impl View for ExportEvent {
    type V = ExportEventView;

    open spec fn view(&self) -> ExportEventView {
        match *self {
            ExportEvent::Line(line) => ExportEventView::Line(line@),
            ExportEvent::Ended => ExportEventView::Ended,
            ExportEvent::Delivered => ExportEventView::Delivered,
            ExportEvent::Failed => ExportEventView::Failed,
            ExportEvent::Elapsed => ExportEventView::Elapsed,
        }
    }
}

impl Phase {
    /// What the phase asks for.
    pub open spec fn wants(self) -> Action {
        match self {
            Phase::Idle => Action::AwaitLine,
            Phase::Exporting { .. } => Action::Export,
            Phase::BackingOff { backoff_ms, .. } => Action::Sleep(backoff_ms),
            Phase::LastAttempt => Action::Export,
            Phase::Flushing => Action::Export,
            Phase::Stopped => Action::Stop,
        }
    }

    /// What the phase asks for.
    #[must_use]
    pub fn action(self) -> (action: Action)
        ensures
            action == self.wants(),
    {
        match self {
            Phase::Idle => Action::AwaitLine,
            Phase::Exporting { .. } => Action::Export,
            Phase::BackingOff { backoff_ms, .. } => Action::Sleep(backoff_ms),
            Phase::LastAttempt => Action::Export,
            Phase::Flushing => Action::Export,
            Phase::Stopped => Action::Stop,
        }
    }

    /// Attempts and delays stay within their bounds, and the last attempt is
    /// never waited for.
    pub open spec fn bounded(self) -> bool {
        match self {
            Phase::Exporting { attempt, backoff_ms } => {
                &&& 1 <= attempt <= MAX_EXPORT_ATTEMPTS
                &&& INITIAL_BACKOFF_MS <= backoff_ms <= MAX_BACKOFF_MS
            },
            Phase::BackingOff { attempt, backoff_ms } => {
                &&& 1 <= attempt < MAX_EXPORT_ATTEMPTS
                &&& INITIAL_BACKOFF_MS <= backoff_ms <= MAX_BACKOFF_MS
            },
            _ => true,
        }
    }
}

/// The delay after the next failure: twice the last, up to the maximum.
pub open spec fn longer_backoff(backoff_ms: u64) -> u64 {
    if 2 * backoff_ms <= MAX_BACKOFF_MS {
        (2 * backoff_ms) as u64
    } else {
        MAX_BACKOFF_MS
    }
}

/// The export worker.
#[derive(Debug)]
pub struct ExportWorker {
    ocsf_full_payload: bool,
    batch: Batch,
    phase: Phase,
}

/// The contents of an [`ExportWorker`].
pub struct WorkerView {
    pub ocsf_full_payload: bool,
    pub batch: BatchView,
    pub phase: Phase,
}

impl View for ExportWorker {
    type V = WorkerView;

    closed spec fn view(&self) -> WorkerView {
        WorkerView {
            ocsf_full_payload: self.ocsf_full_payload,
            batch: self.batch@,
            phase: self.phase,
        }
    }
}

/// The worker and the ledger after a step.
pub struct Step {
    pub worker: WorkerView,
    pub ledger: DropLedger,
}

impl WorkerView {
    /// The batch holds records exactly while there is something to export.
    pub open spec fn consistent(self) -> bool {
        self.batch.len() == 0 <==> self.phase is Idle || self.phase is Stopped
    }

    /// The phase is within its bounds and so is the batch, which holds records
    /// exactly while there is something to export, and reports a gap only where
    /// something was dropped.
    pub open spec fn wf(self) -> bool {
        &&& self.phase.bounded()
        &&& self.batch.len() <= MAX_BATCH
        &&& self.batch.gap matches Some(gap) ==> gap.dropped > 0
        &&& self.consistent()
    }

    /// Whether an event makes the worker give up on its batch: the last attempt
    /// failed, or one made while shutting down.
    pub open spec fn gives_up(self, event: ExportEventView) -> bool {
        match (self.phase, event) {
            (Phase::Exporting { attempt, .. }, ExportEventView::Failed) => attempt
                >= MAX_EXPORT_ATTEMPTS,
            (Phase::LastAttempt, ExportEventView::Failed) => true,
            (Phase::Flushing, ExportEventView::Failed) => true,
            _ => false,
        }
    }

    /// Whether an event tells that the exporter took the batch.
    pub open spec fn delivers(self, event: ExportEventView) -> bool {
        event is Delivered && (self.phase is Exporting || self.phase is LastAttempt
            || self.phase is Flushing)
    }

    /// Whether an event makes the worker drain the queue.
    pub open spec fn drains(self, event: ExportEventView) -> bool {
        match (self.phase, event) {
            (Phase::Idle, ExportEventView::Line(_)) => true,
            (Phase::Idle, ExportEventView::Ended) => true,
            (Phase::LastAttempt, ExportEventView::Delivered) => true,
            (Phase::LastAttempt, ExportEventView::Failed) => true,
            (Phase::Flushing, ExportEventView::Delivered) => true,
            _ => false,
        }
    }

    /// A fresh batch of a first line, if there is one, and what was drained;
    /// the gap goes with it.
    pub open spec fn gather(
        self,
        first: Seq<LineView>,
        drained: Seq<LineView>,
        ledger: DropLedger,
    ) -> BatchView {
        BatchView {
            lines: line_records(first, self.ocsf_full_payload) + line_records(
                drained,
                self.ocsf_full_payload,
            ),
            gap: ledger.gap(),
        }
    }

    /// The final flush: export what was drained, or stop where nothing is left
    /// to say.
    pub open spec fn flush(self, drained: Seq<LineView>, ledger: DropLedger) -> Step {
        let batch = self.gather(Seq::empty(), drained, ledger);
        Step {
            worker: WorkerView {
                batch,
                phase: if batch.len() == 0 {
                    Phase::Stopped
                } else {
                    Phase::Flushing
                },
                ..self
            },
            ledger: ledger.reported(),
        }
    }

    /// The step an event leads to, given what was drained. An event that does
    /// not belong to the phase changes nothing.
    pub open spec fn step(
        self,
        event: ExportEventView,
        drained: Seq<LineView>,
        ledger: DropLedger,
        now_ms: i64,
    ) -> Step {
        match (self.phase, event) {
            (Phase::Idle, ExportEventView::Line(line)) => Step {
                worker: WorkerView {
                    batch: self.gather(seq![line], drained, ledger),
                    phase: Phase::Exporting { attempt: 1, backoff_ms: INITIAL_BACKOFF_MS },
                    ..self
                },
                ledger: ledger.reported(),
            },
            (Phase::Idle, ExportEventView::Ended) => self.flush(drained, ledger),
            (Phase::Exporting { .. }, ExportEventView::Delivered) => Step {
                worker: WorkerView { batch: BatchView::empty(), phase: Phase::Idle, ..self },
                ledger,
            },
            (
                Phase::Exporting { attempt, backoff_ms },
                ExportEventView::Failed,
            ) => if attempt < MAX_EXPORT_ATTEMPTS {
                Step {
                    worker: WorkerView { phase: Phase::BackingOff { attempt, backoff_ms }, ..self },
                    ledger,
                }
            } else {
                Step {
                    worker: WorkerView { batch: BatchView::empty(), phase: Phase::Idle, ..self },
                    ledger: ledger.losing(self.batch, now_ms),
                }
            },
            (Phase::BackingOff { attempt, backoff_ms }, ExportEventView::Elapsed) => Step {
                worker: WorkerView {
                    phase: Phase::Exporting {
                        attempt: (attempt + 1) as u32,
                        backoff_ms: longer_backoff(backoff_ms),
                    },
                    ..self
                },
                ledger,
            },
            (Phase::BackingOff { .. }, ExportEventView::Ended) => Step {
                worker: WorkerView { phase: Phase::LastAttempt, ..self },
                ledger,
            },
            (Phase::LastAttempt, ExportEventView::Delivered) => self.flush(drained, ledger),
            (Phase::LastAttempt, ExportEventView::Failed) => self.flush(
                drained,
                ledger.losing(self.batch, now_ms),
            ),
            (Phase::Flushing, ExportEventView::Delivered) => self.flush(drained, ledger),
            (Phase::Flushing, ExportEventView::Failed) => Step {
                worker: WorkerView { batch: BatchView::empty(), phase: Phase::Stopped, ..self },
                ledger: ledger.losing(self.batch, now_ms),
            },
            _ => Step { worker: self, ledger },
        }
    }
}

impl ExportWorker {
    /// A worker that waits for its first line.
    #[must_use]
    pub fn new(ocsf_full_payload: bool) -> (worker: ExportWorker)
        ensures
            worker@ == (WorkerView {
                ocsf_full_payload,
                batch: BatchView::empty(),
                phase: Phase::Idle,
            }),
            worker@.wf(),
    {
        ExportWorker { ocsf_full_payload, batch: Batch::empty(), phase: Phase::Idle }
    }

    /// What is to be done next.
    #[must_use]
    pub fn action(&self) -> (action: Action)
        ensures
            action == self@.phase.wants(),
    {
        self.phase.action()
    }

    /// The batch to export.
    #[must_use]
    pub fn batch(&self) -> (batch: &Batch)
        ensures
            batch@ == self@.batch,
    {
        &self.batch
    }

    /// The attempt that is being made or was made last, for a batch that is
    /// retried.
    #[must_use]
    pub fn attempt(&self) -> (attempt: Option<u32>)
        ensures
            attempt == match self@.phase {
                Phase::Exporting { attempt, .. } => Some(attempt),
                Phase::BackingOff { attempt, .. } => Some(attempt),
                _ => None,
            },
    {
        match self.phase {
            Phase::Exporting { attempt, .. } => Some(attempt),
            Phase::BackingOff { attempt, .. } => Some(attempt),
            _ => None,
        }
    }

    /// Give up on the batch: its lines count as dropped, and what it was to
    /// report is still to be reported.
    fn lose(&mut self, ledger: &mut DropLedger, now_ms: i64)
        ensures
            final(self)@ == (WorkerView { batch: BatchView::empty(), ..old(self)@ }),
            *final(ledger) == old(ledger).losing(old(self)@.batch, now_ms),
    {
        if let Some(gap) = self.batch.gap {
            ledger.restore(gap);
        }
        account_dropped_batch(ledger, self.batch.lines.len(), now_ms);
        self.batch = Batch::empty();
    }

    /// Gather a fresh batch behind the line already in it, if there is one. The
    /// gap goes with it, and has its place reserved.
    fn gather(&mut self, rx: &mut mpsc::Receiver<SandboxLogLine>, ledger: &mut DropLedger)
        requires
            old(self)@.batch.lines.len() < MAX_BATCH,
        ensures
            drained_queue(*final(rx)) == drained_queue(*old(rx)),
            taken(*old(rx)).is_prefix_of(taken(*final(rx))),
            final(self)@.batch == (BatchView {
                lines: old(self)@.batch.lines + line_records(
                    since(taken(*old(rx)), taken(*final(rx))),
                    old(self)@.ocsf_full_payload,
                ),
                gap: old(ledger).gap(),
            }),
            final(self)@.batch.len() <= MAX_BATCH,
            final(self)@.batch.len() < MAX_BATCH ==> ran_dry(*final(rx)),
            final(self)@.ocsf_full_payload == old(self)@.ocsf_full_payload,
            final(self)@.phase == old(self)@.phase,
            *final(ledger) == old(ledger).reported(),
    {
        self.batch.gap = ledger.take_gap();
        self.batch.fill(rx, self.ocsf_full_payload);
    }

    /// The final flush: drain whatever is queued, one attempt per batch.
    /// Retrying here would race the shutdown deadline for nothing; the collector
    /// that just failed is not coming back within it.
    fn flush(&mut self, rx: &mut mpsc::Receiver<SandboxLogLine>, ledger: &mut DropLedger)
        ensures
            drained_queue(*final(rx)) == drained_queue(*old(rx)),
            taken(*old(rx)).is_prefix_of(taken(*final(rx))),
            (Step { worker: final(self)@, ledger: *final(ledger) }) == old(self)@.flush(
                since(taken(*old(rx)), taken(*final(rx))),
                *old(ledger),
            ),
            final(self)@.batch.len() < MAX_BATCH ==> ran_dry(*final(rx)),
            final(self)@.wf(),
    {
        let ghost none = line_records(Seq::empty(), self@.ocsf_full_payload);
        self.batch = Batch::empty();
        proof {
            assert(none =~= Seq::empty());
        }
        self.gather(rx, ledger);
        let left = self.batch.len();
        self.phase = if left == 0 {
            Phase::Stopped
        } else {
            Phase::Flushing
        };
    }

    /// Take in how the last action went, and say what is to be done next.
    ///
    /// `now_ms` dates a batch that is given up on.
    pub fn step(
        &mut self,
        event: ExportEvent,
        rx: &mut mpsc::Receiver<SandboxLogLine>,
        ledger: &mut DropLedger,
        now_ms: i64,
    ) -> (action: Action)
        requires
            old(self)@.wf(),
        ensures
            final(self)@.wf(),
            drained_queue(*final(rx)) == drained_queue(*old(rx)),
            taken(*old(rx)).is_prefix_of(taken(*final(rx))),
            !old(self)@.drains(event@) ==> taken(*final(rx)) == taken(*old(rx)),
            old(self)@.drains(event@) ==> final(self)@.batch.len() == MAX_BATCH || ran_dry(
                *final(rx),
            ),
            (Step { worker: final(self)@, ledger: *final(ledger) }) == old(self)@.step(
                event@,
                since(taken(*old(rx)), taken(*final(rx))),
                *old(ledger),
                now_ms,
            ),
            action == final(self)@.phase.wants(),
    {
        match (self.phase, event) {
            (Phase::Idle, ExportEvent::Line(line)) => {
                let ghost first = line_records(seq![line@], self@.ocsf_full_payload);
                self.batch = Batch::empty();
                proof {
                    assert(records_of(self.batch.lines@).len() == self.batch.lines@.len());
                }
                self.batch.lines.push(record_for(&line, self.ocsf_full_payload));
                proof {
                    assert(records_of(self.batch.lines@) =~= first);
                }
                self.gather(rx, ledger);
                self.phase = Phase::Exporting { attempt: 1, backoff_ms: INITIAL_BACKOFF_MS };
            },
            (Phase::Idle, ExportEvent::Ended) => {
                self.flush(rx, ledger);
            },
            (Phase::Exporting { .. }, ExportEvent::Delivered) => {
                self.batch = Batch::empty();
                self.phase = Phase::Idle;
            },
            (Phase::Exporting { attempt, backoff_ms }, ExportEvent::Failed) => {
                if attempt < MAX_EXPORT_ATTEMPTS {
                    self.phase = Phase::BackingOff { attempt, backoff_ms };
                } else {
                    self.lose(ledger, now_ms);
                    self.phase = Phase::Idle;
                }
            },
            (Phase::BackingOff { attempt, backoff_ms }, ExportEvent::Elapsed) => {
                let backoff_ms: u64 = if 2 * backoff_ms <= MAX_BACKOFF_MS {
                    2 * backoff_ms
                } else {
                    MAX_BACKOFF_MS
                };
                self.phase = Phase::Exporting { attempt: attempt + 1, backoff_ms };
            },
            (Phase::BackingOff { .. }, ExportEvent::Ended) => {
                self.phase = Phase::LastAttempt;
            },
            (Phase::LastAttempt, ExportEvent::Delivered) => {
                self.flush(rx, ledger);
            },
            (Phase::LastAttempt, ExportEvent::Failed) => {
                self.lose(ledger, now_ms);
                self.flush(rx, ledger);
            },
            (Phase::Flushing, ExportEvent::Delivered) => {
                self.flush(rx, ledger);
            },
            (Phase::Flushing, ExportEvent::Failed) => {
                self.lose(ledger, now_ms);
                self.phase = Phase::Stopped;
            },
            _ => {},
        }
        self.phase.action()
    }
}

impl Step {
    /// The step after another failed attempt.
    pub open spec fn failed(self, now_ms: i64) -> Step {
        self.worker.step(ExportEventView::Failed, Seq::empty(), self.ledger, now_ms)
    }

    /// The step after another delay.
    pub open spec fn waited(self, now_ms: i64) -> Step {
        self.worker.step(ExportEventView::Elapsed, Seq::empty(), self.ledger, now_ms)
    }
}

/// A batch that fails every attempt is tried five times, with delays of one,
/// two, four and eight seconds between them; then its lines are counted and what
/// it was to report is taken back, and the worker goes on to the next line.
pub proof fn law_a_poison_batch_is_counted_and_left_behind(
    worker: WorkerView,
    ledger: DropLedger,
    now_ms: i64,
)
    requires
        worker.phase == (Phase::Exporting { attempt: 1, backoff_ms: INITIAL_BACKOFF_MS }),
    ensures
        ({
            let first = Step { worker, ledger }.failed(now_ms);
            let second = first.waited(now_ms).failed(now_ms);
            let third = second.waited(now_ms).failed(now_ms);
            let fourth = third.waited(now_ms).failed(now_ms);
            let fifth = fourth.waited(now_ms).failed(now_ms);
            &&& first.worker.phase.wants() == Action::Sleep(1_000)
            &&& second.worker.phase.wants() == Action::Sleep(2_000)
            &&& third.worker.phase.wants() == Action::Sleep(4_000)
            &&& fourth.worker.phase.wants() == Action::Sleep(8_000)
            &&& first.waited(now_ms).worker.batch == worker.batch
            &&& second.waited(now_ms).worker.batch == worker.batch
            &&& third.waited(now_ms).worker.batch == worker.batch
            &&& fourth.waited(now_ms).worker.batch == worker.batch
            &&& fifth.worker.phase.wants() == Action::AwaitLine
            &&& fifth.worker.batch == BatchView::empty()
            &&& fifth.ledger == ledger.losing(worker.batch, now_ms)
        }),
{
}

/// Every step keeps attempts, delays and batches within their bounds.
pub proof fn law_steps_stay_within_bounds(
    worker: WorkerView,
    event: ExportEventView,
    drained: Seq<LineView>,
    ledger: DropLedger,
    now_ms: i64,
)
    requires
        worker.wf(),
        worker.drains(event) ==> arrived(worker, event, drained) + (if ledger.dropped > 0
            || worker.gives_up(event) {
            1nat
        } else {
            0nat
        }) <= MAX_BATCH,
    ensures
        worker.step(event, drained, ledger, now_ms).worker.wf(),
{
    assert(line_records(drained, worker.ocsf_full_payload).len() == drained.len());
}

/// The records that the worker answers for: lines in the batch, drops that the
/// batch reports, and drops still to be reported.
pub open spec fn outstanding(worker: WorkerView, ledger: DropLedger) -> nat {
    worker.batch.lines.len() + match worker.batch.gap {
        Some(gap) => gap.dropped as nat,
        None => 0nat,
    } + ledger.dropped as nat
}

/// The records that an event brings in.
pub open spec fn arrived(
    worker: WorkerView,
    event: ExportEventView,
    drained: Seq<LineView>,
) -> nat {
    if worker.drains(event) {
        drained.len() + if event is Line {
            1nat
        } else {
            0nat
        }
    } else {
        0
    }
}

/// The records that an event settles: a delivered batch takes its lines and its
/// report with it.
pub open spec fn settled(worker: WorkerView, event: ExportEventView) -> nat {
    if worker.delivers(event) {
        outstanding(worker, DropLedger::clear())
    } else {
        0
    }
}

/// No record goes missing: whatever happens, what the worker answers for grows
/// by what it takes off the queue and shrinks by what the exporter took, and by
/// nothing else. A batch that is given up on moves into the count, as long as the
/// count can hold it.
pub proof fn law_no_record_goes_missing(
    worker: WorkerView,
    event: ExportEventView,
    drained: Seq<LineView>,
    ledger: DropLedger,
    now_ms: i64,
)
    requires
        worker.wf(),
        worker.gives_up(event) ==> outstanding(worker, ledger) <= u64::MAX,
    ensures
        ({
            let after = worker.step(event, drained, ledger, now_ms);
            outstanding(after.worker, after.ledger) + settled(worker, event) == outstanding(
                worker,
                ledger,
            ) + arrived(worker, event, drained)
        }),
{
    let after = worker.step(event, drained, ledger, now_ms);
    assert(line_records(Seq::empty(), worker.ocsf_full_payload).len() == 0);
    assert(line_records(drained, worker.ocsf_full_payload).len() == drained.len());
}

/// A report that is lost with its batch comes back: the next gap counts what it
/// counted, the lines of the batch and what was dropped since, and starts where
/// it started. It goes out at once where the final flush follows.
pub proof fn law_a_lost_report_comes_back(
    worker: WorkerView,
    event: ExportEventView,
    drained: Seq<LineView>,
    ledger: DropLedger,
    now_ms: i64,
)
    requires
        worker.wf(),
        worker.gives_up(event),
        worker.batch.gap matches Some(gap) && gap.since_ms != 0,
        outstanding(worker, ledger) <= u64::MAX,
    ensures
        ({
            let after = worker.step(event, drained, ledger, now_ms);
            (if worker.phase is LastAttempt {
                after.worker.batch.gap
            } else {
                after.ledger.gap()
            }) == Some(
                Gap {
                    dropped: outstanding(worker, ledger) as u64,
                    since_ms: worker.batch.gap->0.since_ms,
                },
            )
        }),
{
}

/// A batch that was to be retried when shutdown came does not dam what is queued
/// behind it: it gets one last attempt and, should that fail too, is counted, and
/// the final flush goes on.
pub proof fn law_shutdown_goes_past_the_batch_in_hand(
    worker: WorkerView,
    drained: Seq<LineView>,
    ledger: DropLedger,
    now_ms: i64,
)
    requires
        worker.phase is BackingOff,
    ensures
        ({
            let last = worker.step(ExportEventView::Ended, Seq::empty(), ledger, now_ms);
            &&& last.worker.phase.wants() == Action::Export
            &&& last.worker.batch == worker.batch
            &&& last.worker.step(ExportEventView::Failed, drained, last.ledger, now_ms)
                == worker.flush(drained, ledger.losing(worker.batch, now_ms))
            &&& last.worker.step(ExportEventView::Delivered, drained, last.ledger, now_ms)
                == worker.flush(drained, ledger)
        }),
{
}

/// One turn of the worker: what happened, what the queue held, and what had been
/// dropped by then.
pub struct Turn {
    pub event: ExportEventView,
    pub drained: Seq<LineView>,
    pub ledger: DropLedger,
    pub now_ms: i64,
}

/// The lines that an event brings in, in queue order.
pub open spec fn arrived_lines(
    worker: WorkerView,
    event: ExportEventView,
    drained: Seq<LineView>,
) -> Seq<LineView> {
    if !worker.drains(event) {
        Seq::empty()
    } else {
        match event {
            ExportEventView::Line(line) => seq![line] + drained,
            _ => drained,
        }
    }
}

impl WorkerView {
    /// The worker after some turns.
    pub open spec fn after(self, turns: Seq<Turn>) -> WorkerView
        decreases turns.len(),
    {
        if turns.len() == 0 {
            self
        } else {
            let turn = turns.last();
            self.after(turns.drop_last()).step(
                turn.event,
                turn.drained,
                turn.ledger,
                turn.now_ms,
            ).worker
        }
    }

    /// The lines taken off the queue over some turns, in queue order.
    pub open spec fn received(self, turns: Seq<Turn>) -> Seq<LineView>
        decreases turns.len(),
    {
        if turns.len() == 0 {
            Seq::empty()
        } else {
            self.received(turns.drop_last()) + arrived_lines(
                self.after(turns.drop_last()),
                turns.last().event,
                turns.last().drained,
            )
        }
    }

    /// The records of lines that the exporter took over some turns, in the order
    /// of the calls.
    pub open spec fn delivered(self, turns: Seq<Turn>) -> Seq<RecordView>
        decreases turns.len(),
    {
        if turns.len() == 0 {
            Seq::empty()
        } else {
            let before = self.after(turns.drop_last());
            self.delivered(turns.drop_last()) + if before.delivers(turns.last().event) {
                before.batch.lines
            } else {
                Seq::empty()
            }
        }
    }

    /// Whether no batch is given up on over some turns.
    pub open spec fn keeps_up(self, turns: Seq<Turn>) -> bool
        decreases turns.len(),
    {
        turns.len() == 0 || {
            &&& self.keeps_up(turns.drop_last())
            &&& !self.after(turns.drop_last()).gives_up(turns.last().event)
        }
    }
}

/// Writing two lists of lines as records is writing both in turn.
proof fn lemma_line_records_in_turn(
    first: Seq<LineView>,
    second: Seq<LineView>,
    ocsf_full_payload: bool,
)
    ensures
        line_records(first + second, ocsf_full_payload) == line_records(first, ocsf_full_payload)
            + line_records(second, ocsf_full_payload),
{
    assert(line_records(first + second, ocsf_full_payload) =~= line_records(
        first,
        ocsf_full_payload,
    ) + line_records(second, ocsf_full_payload));
}

/// Without giving up on a batch, a step exports what it had and takes in what
/// arrived, in order.
proof fn lemma_a_step_keeps_the_order(worker: WorkerView, turn: Turn)
    requires
        worker.consistent(),
        !worker.gives_up(turn.event),
    ensures
        ({
            let after = worker.step(turn.event, turn.drained, turn.ledger, turn.now_ms).worker;
            &&& after.consistent()
            &&& after.ocsf_full_payload == worker.ocsf_full_payload
            &&& (if worker.delivers(turn.event) {
                worker.batch.lines
            } else {
                Seq::empty()
            }) + after.batch.lines == worker.batch.lines + line_records(
                arrived_lines(worker, turn.event, turn.drained),
                worker.ocsf_full_payload,
            )
        }),
{
    let full = worker.ocsf_full_payload;
    let after = worker.step(turn.event, turn.drained, turn.ledger, turn.now_ms).worker;
    let arrived = arrived_lines(worker, turn.event, turn.drained);
    let none = Seq::<RecordView>::empty();
    assert(line_records(Seq::empty(), full) =~= none);
    assert(line_records(turn.drained, full).len() == turn.drained.len());
    if let ExportEventView::Line(line) = turn.event {
        assert(line_records(seq![line], full).len() == 1);
        lemma_line_records_in_turn(seq![line], turn.drained, full);
    }
    let exported = if worker.delivers(turn.event) {
        worker.batch.lines
    } else {
        none
    };
    assert(exported + after.batch.lines =~= worker.batch.lines + line_records(arrived, full));
}

/// As long as no batch is given up on, the exporter gets every line that was
/// taken off the queue, once and in queue order: what it took, followed by what
/// is in hand, is what came off the queue. With nothing in hand, as whenever the
/// worker waits for a line or has stopped, it took all of it.
pub proof fn law_lines_are_delivered_once_and_in_order(worker: WorkerView, turns: Seq<Turn>)
    requires
        worker.phase is Idle,
        worker.batch == BatchView::empty(),
        worker.keeps_up(turns),
    ensures
        worker.delivered(turns) + worker.after(turns).batch.lines == line_records(
            worker.received(turns),
            worker.ocsf_full_payload,
        ),
        worker.after(turns).phase is Idle || worker.after(turns).phase is Stopped
            ==> worker.delivered(turns) == line_records(
            worker.received(turns),
            worker.ocsf_full_payload,
        ),
{
    lemma_the_order_is_kept(worker, turns);
    let after = worker.after(turns);
    if after.phase is Idle || after.phase is Stopped {
        assert(worker.delivered(turns) + after.batch.lines =~= worker.delivered(turns));
    }
}

proof fn lemma_the_order_is_kept(worker: WorkerView, turns: Seq<Turn>)
    requires
        worker.phase is Idle,
        worker.batch == BatchView::empty(),
        worker.keeps_up(turns),
    ensures
        worker.after(turns).consistent(),
        worker.after(turns).ocsf_full_payload == worker.ocsf_full_payload,
        worker.delivered(turns) + worker.after(turns).batch.lines == line_records(
            worker.received(turns),
            worker.ocsf_full_payload,
        ),
    decreases turns.len(),
{
    let full = worker.ocsf_full_payload;
    if turns.len() == 0 {
        assert(worker.delivered(turns) + worker.after(turns).batch.lines =~= line_records(
            worker.received(turns),
            full,
        ));
    } else {
        let earlier = turns.drop_last();
        let turn = turns.last();
        let before = worker.after(earlier);
        let after = worker.after(turns);
        lemma_the_order_is_kept(worker, earlier);
        lemma_a_step_keeps_the_order(before, turn);
        let arrived = arrived_lines(before, turn.event, turn.drained);
        let exported = if before.delivers(turn.event) {
            before.batch.lines
        } else {
            Seq::empty()
        };
        lemma_line_records_in_turn(worker.received(earlier), arrived, full);
        assert(worker.delivered(turns) + after.batch.lines =~= worker.delivered(earlier) + (exported
            + after.batch.lines));
        assert(worker.delivered(earlier) + (before.batch.lines + line_records(arrived, full))
            =~= (worker.delivered(earlier) + before.batch.lines) + line_records(arrived, full));
    }
}

/// Shutdown reports pending drops even where nothing is queued: one batch of one
/// record, the gap, and then the worker stops.
pub proof fn law_shutdown_reports_pending_drops(
    worker: WorkerView,
    ledger: DropLedger,
    now_ms: i64,
)
    requires
        worker.phase is Idle,
        ledger.dropped > 0,
    ensures
        ({
            let flushing = worker.step(ExportEventView::Ended, Seq::empty(), ledger, now_ms);
            let stopped = flushing.worker.step(
                ExportEventView::Delivered,
                Seq::empty(),
                flushing.ledger,
                now_ms,
            );
            &&& flushing.worker.phase.wants() == Action::Export
            &&& flushing.worker.batch.records() == seq![
                gap_view(Gap { dropped: ledger.dropped, since_ms: ledger.dropped_since_ms }),
            ]
            &&& flushing.ledger == DropLedger::clear()
            &&& stopped.worker.phase.wants() == Action::Stop
            &&& stopped.ledger == DropLedger::clear()
        }),
{
    let none = line_records(Seq::empty(), worker.ocsf_full_payload);
    assert(none + none =~= Seq::empty());
    let flushing = worker.step(ExportEventView::Ended, Seq::empty(), ledger, now_ms);
    assert(flushing.worker.batch.records() =~= seq![
        gap_view(Gap { dropped: ledger.dropped, since_ms: ledger.dropped_since_ms }),
    ]);
}

/// The first batch after a drop reports it: its last record is the gap, with
/// the count and the window of everything dropped since the last report, and
/// the ledger starts afresh.
pub proof fn law_the_next_batch_reports_the_gap(
    worker: WorkerView,
    line: LineView,
    drained: Seq<LineView>,
    ledger: DropLedger,
    now_ms: i64,
)
    requires
        worker.phase is Idle,
        ledger.dropped > 0,
    ensures
        ({
            let after = worker.step(ExportEventView::Line(line), drained, ledger, now_ms);
            &&& after.worker.batch.records().last() == gap_view(
                Gap { dropped: ledger.dropped, since_ms: ledger.dropped_since_ms },
            )
            &&& after.worker.batch.records().first() == line_record(line, worker.ocsf_full_payload)
            &&& after.ledger == DropLedger::clear()
        }),
{
    assert(line_records(seq![line], worker.ocsf_full_payload)[0] == line_record(
        line,
        worker.ocsf_full_payload,
    ));
}

/// Once the worker shuts down it never waits for a line or a delay again.
pub proof fn law_flushing_leads_only_to_a_stop(
    worker: WorkerView,
    event: ExportEventView,
    drained: Seq<LineView>,
    ledger: DropLedger,
    now_ms: i64,
)
    requires
        worker.phase is LastAttempt || worker.phase is Flushing || worker.phase is Stopped,
    ensures
        ({
            let after = worker.step(event, drained, ledger, now_ms).worker.phase;
            after.wants() == Action::Export || after.wants() == Action::Stop
        }),
        worker.phase is Stopped ==> worker.step(event, drained, ledger, now_ms) == (Step {
            worker,
            ledger,
        }),
{
}

} // verus!
