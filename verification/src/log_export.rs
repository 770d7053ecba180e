//! Off-box export of aggregated sandbox/gateway logs as OTLP log records.
//!
//! Every log line the gateway observes, its own events and lines pushed from
//! sandboxes, flows through [`crate::tracing_bus::TracingLogBus`]. When log
//! export is enabled, the bus forwards each line into the bounded queue owned
//! here; a background worker drains the queue in batches and drives the OTLP
//! exporter directly.
//!
//! # Accountable delivery
//!
//! No stage of this pipeline drops silently. The worker owns batching and sees
//! every batch's outcome:
//!
//! - A full ingest queue (collector outage, sustained overload) counts each
//!   rejected line instead of enqueueing it.
//! - A batch that still fails after bounded retries is counted rather than
//!   retried forever, so one poison batch cannot dam the stream.
//! - The next successful batch carries a synthetic `telemetry_gap` record with
//!   the dropped count and the window it covers: a report that is lost with its
//!   batch goes back into the count.
//!
//! Loss therefore remains possible (under outage the gateway prefers bounded
//! memory over unbounded buffering), but it is always visible and alertable
//! downstream. What the final flush could not deliver is in the count that is
//! left when the worker stops; lines still queued by then, or offered later, are
//! not counted, since the process is exiting anyway.

use crate::channel::{
    another_sender, drained_queue, enqueued, fed_queue, new_queue, offer, queue_limit, queue_offers, ran_dry, take, taken, SendOutcome,
};
use crate::log_line::{LineView, SandboxLogLine};
use crate::log_record::{
    attributes_of, line_record, record_for, AttributeValue, AttributeView, LogRecord, RecordTime,
    RecordView, Severity,
};
use crate::text::{decimal, decimal_text};
use tokio::sync::mpsc;
use vstd::prelude::*;
use vstd::string::*;

verus! {

/// Instrumentation scope recorded on every exported log record.
pub const INSTRUMENTATION_SCOPE: &'static str = "openshell-gateway-logs";

/// Ingest queue capacity in log lines. Bounds export memory during a collector
/// outage; lines beyond it are counted and reported as a `telemetry_gap`.
pub const QUEUE_CAPACITY: usize = 65_536;

/// Maximum records per exported batch.
pub const MAX_BATCH: usize = 512;

/// Attempts per batch before it is dropped and accounted. With the backoff
/// below this rides out 15s of collector unavailability per batch, and the time
/// the attempts themselves take, while preventing a batch the collector
/// deterministically rejects from damming the stream behind it.
pub const MAX_EXPORT_ATTEMPTS: u32 = 5;

/// Initial backoff delay after a failed export attempt, in milliseconds.
pub const INITIAL_BACKOFF_MS: u64 = 1_000;

/// Maximum backoff delay between export attempts, in milliseconds.
pub const MAX_BACKOFF_MS: u64 = 30_000;

/// How long shutdown waits for the worker to flush before giving up, in
/// milliseconds.
pub const SHUTDOWN_TIMEOUT_MS: u64 = 5_000;

/// What has been dropped since the last report.
#[derive(Debug, Clone, Copy, PartialEq, Eq, Structural)]
pub struct DropLedger {
    /// How many records.
    pub dropped: u64,
    /// When the first of them was dropped, in milliseconds since the Unix
    /// epoch; zero while nothing has been.
    pub dropped_since_ms: i64,
}

/// A report of dropped records.
#[derive(Debug, Clone, Copy, PartialEq, Eq, Structural)]
pub struct Gap {
    pub dropped: u64,
    pub since_ms: i64,
}

/// A count after `more`; it wraps around past its range.
pub open spec fn wrapped_sum(count: u64, more: u64) -> u64 {
    if count + more > u64::MAX {
        (count + more - u64::MAX - 1) as u64
    } else {
        (count + more) as u64
    }
}

impl DropLedger {
    /// Nothing dropped.
    pub open spec fn clear() -> DropLedger {
        DropLedger { dropped: 0, dropped_since_ms: 0 }
    }

    /// The ledger after `count` more drops. The earliest drop stays the window
    /// start until reported.
    pub open spec fn counting(self, count: u64, now_ms: i64) -> DropLedger {
        DropLedger {
            dropped: wrapped_sum(self.dropped, count),
            dropped_since_ms: if self.dropped_since_ms == 0 {
                now_ms
            } else {
                self.dropped_since_ms
            },
        }
    }

    /// The ledger after a report was lost: its drops are still to be reported, and
    /// its window started before any that opened since.
    pub open spec fn restoring(self, gap: Gap) -> DropLedger {
        DropLedger {
            dropped: wrapped_sum(self.dropped, gap.dropped),
            dropped_since_ms: if gap.since_ms == 0 {
                self.dropped_since_ms
            } else {
                gap.since_ms
            },
        }
    }

    /// The ledger after a batch was lost: its lines are dropped, and what it was
    /// to report is still to be reported.
    pub open spec fn losing(self, batch: BatchView, now_ms: i64) -> DropLedger {
        match batch.gap {
            Some(gap) => self.restoring(gap),
            None => self,
        }.counting(batch.lines.len() as u64, now_ms)
    }

    /// What is to be reported.
    pub open spec fn gap(self) -> Option<Gap> {
        if self.dropped == 0 {
            None
        } else {
            Some(Gap { dropped: self.dropped, since_ms: self.dropped_since_ms })
        }
    }

    /// The ledger after a report.
    pub open spec fn reported(self) -> DropLedger {
        if self.dropped == 0 {
            self
        } else {
            DropLedger::clear()
        }
    }

    /// An empty ledger.
    #[must_use]
    pub fn new() -> (ledger: DropLedger)
        ensures
            ledger == DropLedger::clear(),
    {
        DropLedger { dropped: 0, dropped_since_ms: 0 }
    }

    /// Count drops.
    pub fn count(&mut self, count: u64, now_ms: i64)
        ensures
            *final(self) == old(self).counting(count, now_ms),
    {
        if self.dropped_since_ms == 0 {
            self.dropped_since_ms = now_ms;
        }
        self.dropped = self.dropped.wrapping_add(count);
    }

    /// Take back a report that was lost.
    pub fn restore(&mut self, gap: Gap)
        ensures
            *final(self) == old(self).restoring(gap),
    {
        if gap.since_ms != 0 {
            self.dropped_since_ms = gap.since_ms;
        }
        self.dropped = self.dropped.wrapping_add(gap.dropped);
    }

    /// If any records were dropped since the last report, reset the ledger and
    /// hand out the count and window.
    #[must_use]
    pub fn take_gap(&mut self) -> (gap: Option<Gap>)
        ensures
            gap == old(self).gap(),
            *final(self) == old(self).reported(),
    {
        let dropped = self.dropped;
        if dropped == 0 {
            return None;
        }
        let since_ms = self.dropped_since_ms;
        self.dropped = 0;
        self.dropped_since_ms = 0;
        Some(Gap { dropped, since_ms })
    }
}

/// Fold lines that could not be delivered into the same accounting stream as
/// queue-full drops, so the next successful export reports them.
pub fn account_dropped_batch(ledger: &mut DropLedger, len: usize, now_ms: i64)
    ensures
        *final(ledger) == old(ledger).counting(len as u64, now_ms),
{
    ledger.count(len as u64, now_ms);
}

/// The record of a gap.
pub open spec fn gap_view(gap: Gap) -> RecordView {
    RecordView {
        severity: Severity::Warn,
        body: "telemetry gap: "@ + decimal(gap.dropped as int)
            + " gateway log record(s) dropped under backpressure"@,
        time: RecordTime::Now,
        attributes: seq![
            ("log.source"@, AttributeView::Text("gateway"@)),
            ("log.target"@, AttributeView::Text("telemetry_gap"@)),
            ("log.level"@, AttributeView::Text("WARN"@)),
            ("log.ocsf"@, AttributeView::Flag(false)),
            (
                "dropped"@,
                AttributeView::Number(
                    if gap.dropped <= i64::MAX {
                        gap.dropped as i64
                    } else {
                        i64::MAX
                    },
                ),
            ),
            ("dropped.since_ms"@, AttributeView::Number(gap.since_ms)),
        ],
    }
}

/// The `telemetry_gap` record that carries a gap's count and window.
///
/// Minted directly rather than enqueued, so it bypasses the congestion that
/// caused the drops.
#[must_use]
pub fn gap_record(gap: Gap) -> (record: LogRecord)
    ensures
        record@ == gap_view(gap),
{
    let body = "telemetry gap: ".to_owned().concat(
        decimal_text(gap.dropped as i128).as_str(),
    ).concat(" gateway log record(s) dropped under backpressure");
    let dropped: i64 = if gap.dropped <= i64::MAX as u64 {
        gap.dropped as i64
    } else {
        i64::MAX
    };
    let mut attributes: Vec<(String, AttributeValue)> = Vec::new();
    attributes.push(("log.source".to_owned(), AttributeValue::Text("gateway".to_owned())));
    attributes.push(("log.target".to_owned(), AttributeValue::Text("telemetry_gap".to_owned())));
    attributes.push(("log.level".to_owned(), AttributeValue::Text("WARN".to_owned())));
    attributes.push(("log.ocsf".to_owned(), AttributeValue::Flag(false)));
    attributes.push(("dropped".to_owned(), AttributeValue::Number(dropped)));
    attributes.push(("dropped.since_ms".to_owned(), AttributeValue::Number(gap.since_ms)));
    proof {
        assert(attributes_of(attributes@) =~= gap_view(gap).attributes);
    }
    LogRecord { severity: Severity::Warn, body, time: RecordTime::Now, attributes }
}

/// Handle used by the tracing bus to enqueue log lines for export.
///
/// Cloneable and cheap: it wraps the sender half of the export queue. Sending
/// never waits, so it is safe to call from synchronous tracing callbacks. When the queue is full the line is dropped and counted; the
/// worker reports the accumulated count as a `telemetry_gap` record on its next
/// export.
#[derive(Debug)]
pub struct LogExportHandle {
    tx: mpsc::Sender<SandboxLogLine>,
}

/// The ledger after a line was offered to the queue.
pub open spec fn after_offer(ledger: DropLedger, outcome: SendOutcome, now_ms: i64) -> DropLedger {
    match outcome {
        SendOutcome::Full => ledger.counting(1, now_ms),
        _ => ledger,
    }
}

/// Account for a line that was offered to the queue. A full queue counts it as
/// dropped; a stopped worker discards it silently, since the process is exiting
/// anyway.
pub fn settle_offer(outcome: SendOutcome, ledger: &mut DropLedger, now_ms: i64)
    ensures
        *final(ledger) == after_offer(*old(ledger), outcome, now_ms),
{
    match outcome {
        SendOutcome::Full => ledger.count(1, now_ms),
        SendOutcome::Accepted => {},
        SendOutcome::Closed => {},
    }
}

/// What has passed through a [`LogExportHandle`].
pub struct QueueView {
    /// The queue that it feeds.
    pub queue: nat,
    /// The lines offered to the queue, oldest first.
    pub offered: Seq<LineView>,
    /// Those of them that the queue accepted.
    pub accepted: Seq<LineView>,
    /// How many lines the queue was made to hold.
    pub limit: usize,
}

impl QueueView {
    /// A queue of the given capacity that nothing was offered to.
    pub open spec fn fresh(queue: nat, capacity: usize) -> QueueView {
        QueueView { queue, offered: Seq::empty(), accepted: Seq::empty(), limit: capacity }
    }

    /// The queue after a line was offered, with what became of it.
    pub open spec fn offering(self, line: LineView, outcome: SendOutcome) -> QueueView {
        QueueView {
            offered: self.offered.push(line),
            accepted: if outcome == SendOutcome::Accepted {
                self.accepted.push(line)
            } else {
                self.accepted
            },
            ..self
        }
    }
}

impl View for LogExportHandle {
    type V = QueueView;

    closed spec fn view(&self) -> QueueView {
        QueueView {
            queue: fed_queue(self.tx),
            offered: queue_offers(self.tx),
            accepted: enqueued(self.tx),
            limit: queue_limit(self.tx),
        }
    }
}

impl Clone for LogExportHandle {
    /// Another handle that feeds the same queue.
    fn clone(&self) -> (copy: Self)
        ensures
            copy@ == QueueView::fresh(self@.queue, self@.limit),
    {
        LogExportHandle { tx: another_sender(&self.tx) }
    }
}

impl LogExportHandle {
    /// A queue of the given capacity: the handle that feeds it and the end that
    /// the worker drains.
    #[must_use]
    pub fn with_capacity(capacity: usize) -> (ends: (
        LogExportHandle,
        mpsc::Receiver<SandboxLogLine>,
    ))
        requires
            0 < capacity <= usize::MAX / 8,
        ensures
            ends.0@ == QueueView::fresh(drained_queue(ends.1), capacity),
            taken(ends.1) == Seq::<LineView>::empty(),
    {
        let (tx, rx) = new_queue(capacity);
        (LogExportHandle { tx }, rx)
    }

    /// Enqueue a log line for off-box export, and say what became of it.
    ///
    /// Never blocks. A full queue counts the line as dropped; a stopped worker
    /// (shutdown) discards it silently.
    pub fn enqueue(
        &mut self,
        line: SandboxLogLine,
        ledger: &mut DropLedger,
        now_ms: i64,
    ) -> (outcome: SendOutcome)
        ensures
            final(self)@ == old(self)@.offering(line@, outcome),
            *final(ledger) == after_offer(*old(ledger), outcome, now_ms),
    {
        let outcome = offer(&mut self.tx, line);
        settle_offer(outcome, ledger, now_ms);
        outcome
    }
}

/// One batch of records: log lines, and the gap to report with them.
#[derive(Debug)]
pub struct Batch {
    pub lines: Vec<LogRecord>,
    pub gap: Option<Gap>,
}

/// The contents of a list of records.
pub open spec fn records_of(records: Seq<LogRecord>) -> Seq<RecordView> {
    records.map_values(|record: LogRecord| record@)
}

/// The records of a list of lines.
pub open spec fn line_records(lines: Seq<LineView>, ocsf_full_payload: bool) -> Seq<RecordView> {
    lines.map_values(|line: LineView| line_record(line, ocsf_full_payload))
}

/// The contents of a [`Batch`].
pub struct BatchView {
    pub lines: Seq<RecordView>,
    pub gap: Option<Gap>,
}

impl View for Batch {
    type V = BatchView;

    open spec fn view(&self) -> BatchView {
        BatchView { lines: records_of(self.lines@), gap: self.gap }
    }
}

impl BatchView {
    /// No records.
    pub open spec fn empty() -> BatchView {
        BatchView { lines: Seq::empty(), gap: None }
    }

    /// How many records are exported.
    pub open spec fn len(self) -> nat {
        self.lines.len() + if self.gap is Some {
            1nat
        } else {
            0nat
        }
    }

    /// The records in export order: the lines, then the gap.
    pub open spec fn records(self) -> Seq<RecordView> {
        self.lines + match self.gap {
            Some(gap) => seq![gap_view(gap)],
            None => Seq::empty(),
        }
    }
}

impl Batch {
    /// A batch without records.
    pub(crate) fn empty() -> (batch: Batch)
        ensures
            batch@ == BatchView::empty(),
    {
        let batch = Batch { lines: Vec::new(), gap: None };
        proof {
            assert(records_of(batch.lines@) =~= Seq::empty());
        }
        batch
    }

    /// How many records are exported.
    #[must_use]
    pub fn len(&self) -> (len: usize)
        requires
            self@.lines.len() < usize::MAX,
        ensures
            len == self@.len(),
    {
        match self.gap {
            Some(_) => self.lines.len() + 1,
            None => self.lines.len(),
        }
    }

    /// The records in export order: the lines, then the gap.
    #[must_use]
    pub fn records(&self) -> (records: Vec<LogRecord>)
        ensures
            records_of(records@) == self@.records(),
    {
        let mut records: Vec<LogRecord> = Vec::new();
        let ghost all = self@.lines;
        let mut i: usize = 0;
        while i < self.lines.len()
            invariant
                i <= self.lines@.len(),
                all == records_of(self.lines@),
                records_of(records@) =~= all.take(i as int),
            decreases self.lines@.len() - i,
        {
            records.push(self.lines[i].clone());
            proof {
                assert(all.take(i + 1) =~= all.take(i as int).push(all[i as int]));
            }
            i = i + 1;
        }
        proof {
            assert(all.take(i as int) =~= all);
        }
        if let Some(gap) = self.gap {
            records.push(gap_record(gap));
            proof {
                assert(records_of(records@) =~= all + seq![gap_view(gap)]);
            }
        } else {
            proof {
                assert(all + Seq::<RecordView>::empty() =~= all);
            }
        }
        records
    }

    /// Drain the queue into the batch, until it runs dry or the batch holds
    /// [`MAX_BATCH`] records.
    pub(crate) fn fill(&mut self, rx: &mut mpsc::Receiver<SandboxLogLine>, ocsf_full_payload: bool)
        requires
            old(self)@.len() <= MAX_BATCH,
        ensures
            drained_queue(*final(rx)) == drained_queue(*old(rx)),
            taken(*old(rx)).is_prefix_of(taken(*final(rx))),
            final(self)@.lines == old(self)@.lines + line_records(
                since(taken(*old(rx)), taken(*final(rx))),
                ocsf_full_payload,
            ),
            final(self)@.len() <= MAX_BATCH,
            final(self)@.len() < MAX_BATCH ==> ran_dry(*final(rx)),
            final(self)@.gap == old(self)@.gap,
    {
        let ghost start = taken(*rx);
        let ghost before = self@.lines;
        proof {
            assert(since(start, start) =~= Seq::empty());
            assert(before + line_records(since(start, start), ocsf_full_payload) =~= before);
        }
        let mut more = true;
        while more && self.len() < MAX_BATCH
            invariant
                drained_queue(*rx) == drained_queue(*old(rx)),
                start.is_prefix_of(taken(*rx)),
                self@.lines == before + line_records(since(start, taken(*rx)), ocsf_full_payload),
                self@.len() <= MAX_BATCH,
                !more ==> ran_dry(*rx),
                self@.gap == old(self)@.gap,
            decreases MAX_BATCH - self@.len(), more as int,
        {
            let ghost earlier = taken(*rx);
            let ghost kept = self@.lines;
            match take(rx) {
                Some(line) => {
                    self.lines.push(record_for(&line, ocsf_full_payload));
                    proof {
                        assert(self@.lines =~= kept.push(line_record(line@, ocsf_full_payload)));
                        assert(since(start, taken(*rx)) =~= since(start, earlier).push(line@));
                        assert(line_records(since(start, taken(*rx)), ocsf_full_payload)
                            =~= line_records(since(start, earlier), ocsf_full_payload).push(
                            line_record(line@, ocsf_full_payload),
                        ));
                        assert(self@.lines =~= before + line_records(
                            since(start, taken(*rx)),
                            ocsf_full_payload,
                        ));
                    }
                },
                None => {
                    more = false;
                },
            }
        }
    }
}

/// What a history gained.
pub open spec fn since(before: Seq<LineView>, after: Seq<LineView>) -> Seq<LineView> {
    after.skip(before.len() as int)
}

} // verus!
