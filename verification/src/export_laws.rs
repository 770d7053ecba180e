//! What the export pipeline promises of its queue, its ledger and its batches.

use crate::channel::SendOutcome;
use crate::export_worker::{longer_backoff, Action, ExportEventView, Phase, WorkerView};
use crate::log_export::{
    after_offer, gap_view, line_records, BatchView, DropLedger, Gap, QueueView, INITIAL_BACKOFF_MS,
    INSTRUMENTATION_SCOPE, MAX_BACKOFF_MS, MAX_BATCH, MAX_EXPORT_ATTEMPTS, QUEUE_CAPACITY,
    SHUTDOWN_TIMEOUT_MS,
};
use crate::log_line::LineView;
use crate::log_record::{line_record, AttributeView, RecordTime, Severity};
use crate::otlp::{transport_of, Transport};
use crate::phrases::{lemma_named_at, named};
use crate::text::decimal;
use vstd::prelude::*;

verus! {

/// The limits of the pipeline: lines queued, records per batch, attempts per
/// batch, and the delays in milliseconds.
pub proof fn law_limits_of_the_pipeline()
    ensures
        QUEUE_CAPACITY == 65_536,
        MAX_BATCH == 512,
        MAX_EXPORT_ATTEMPTS == 5,
        INITIAL_BACKOFF_MS == 1_000,
        MAX_BACKOFF_MS == 30_000,
        SHUTDOWN_TIMEOUT_MS == 5_000,
        INSTRUMENTATION_SCOPE@ == "openshell-gateway-logs"@,
{
}

/// Counting adds to the count, and dates the window where nothing has yet.
pub proof fn law_counting_adds_up(ledger: DropLedger, count: u64, now_ms: i64)
    requires
        ledger.dropped + count <= u64::MAX,
    ensures
        ledger.counting(count, now_ms).dropped == ledger.dropped + count,
        ledger.dropped_since_ms == 0 ==> ledger.counting(count, now_ms).dropped_since_ms == now_ms,
        ledger.dropped_since_ms != 0 ==> ledger.counting(count, now_ms).dropped_since_ms
            == ledger.dropped_since_ms,
{
}

/// A count past its range starts over: what is left of it is the sum less the
/// whole range.
pub proof fn law_counts_wrap_around(ledger: DropLedger, count: u64, now_ms: i64)
    requires
        ledger.dropped + count > u64::MAX,
    ensures
        ledger.counting(count, now_ms).dropped == ledger.dropped + count - 0x1_0000_0000_0000_0000,
{
}

/// A lost report goes back into the count, and its window with it.
pub proof fn law_lost_reports_are_added_back(ledger: DropLedger, gap: Gap)
    requires
        ledger.dropped + gap.dropped <= u64::MAX,
    ensures
        ledger.restoring(gap).dropped == ledger.dropped + gap.dropped,
        gap.since_ms != 0 ==> ledger.restoring(gap).dropped_since_ms == gap.since_ms,
        gap.since_ms == 0 ==> ledger.restoring(gap).dropped_since_ms == ledger.dropped_since_ms,
{
}

/// A lost batch counts for its lines and for the report it carried; the window
/// starts with the report's, else with the one that was open, else now.
pub proof fn law_lost_batches_are_counted(ledger: DropLedger, batch: BatchView, now_ms: i64)
    requires
        ledger.dropped + batch.lines.len() + (if batch.gap is Some {
            batch.gap->0.dropped as int
        } else {
            0
        }) <= u64::MAX,
    ensures
        ({
            let after = ledger.losing(batch, now_ms);
            &&& batch.gap is None ==> after.dropped == ledger.dropped + batch.lines.len()
            &&& batch.gap is Some ==> after.dropped == ledger.dropped + batch.lines.len()
                + batch.gap->0.dropped
            &&& batch.gap is Some && batch.gap->0.since_ms != 0 ==> after.dropped_since_ms
                == batch.gap->0.since_ms
            &&& batch.gap is None && ledger.dropped_since_ms != 0 ==> after.dropped_since_ms
                == ledger.dropped_since_ms
            &&& batch.gap is None && ledger.dropped_since_ms == 0 ==> after.dropped_since_ms
                == now_ms
        }),
{
}

/// A report tells exactly what the ledger holds, and there is one exactly where
/// something was dropped; reporting leaves nothing to report.
pub proof fn law_reports_tell_the_ledger(ledger: DropLedger)
    ensures
        ledger.gap() is Some <==> ledger.dropped > 0,
        ledger.dropped > 0 ==> ledger.gap()->0.dropped == ledger.dropped
            && ledger.gap()->0.since_ms == ledger.dropped_since_ms,
        ledger.dropped > 0 ==> ledger.reported().dropped == 0 && ledger.reported().dropped_since_ms
            == 0,
        ledger.dropped == 0 ==> ledger.reported() == ledger,
        ledger.reported().gap() is None,
        DropLedger::clear().dropped == 0,
        DropLedger::clear().dropped_since_ms == 0,
{
}

/// Only a full queue drops a line: it counts one.
pub proof fn law_only_a_full_queue_drops(ledger: DropLedger, outcome: SendOutcome, now_ms: i64)
    requires
        ledger.dropped < u64::MAX,
    ensures
        outcome != SendOutcome::Full ==> after_offer(ledger, outcome, now_ms) == ledger,
        outcome == SendOutcome::Full ==> {
            &&& after_offer(ledger, outcome, now_ms).dropped == ledger.dropped + 1
            &&& after_offer(ledger, outcome, now_ms).dropped_since_ms == if ledger.dropped_since_ms
                == 0 {
                now_ms
            } else {
                ledger.dropped_since_ms
            }
        },
{
}

/// Every line is offered behind those before it, and accepted exactly where the
/// queue took it.
pub proof fn law_queues_remember_offers(queue: QueueView, line: LineView, outcome: SendOutcome)
    ensures
        queue.offering(line, outcome).offered == queue.offered.push(line),
        outcome == SendOutcome::Accepted ==> queue.offering(line, outcome).accepted
            == queue.accepted.push(line),
        outcome != SendOutcome::Accepted ==> queue.offering(line, outcome).accepted
            == queue.accepted,
        queue.offering(line, outcome).queue == queue.queue,
        queue.offering(line, outcome).limit == queue.limit,
{
}

/// A gap's record is a warning of the gateway about a telemetry gap, and carries
/// the count, as far as a signed number goes, and the window.
pub proof fn law_gap_records_tell_the_gap(gap: Gap)
    ensures
        ({
            let record = gap_view(gap);
            &&& record.severity == Severity::Warn
            &&& record.body == "telemetry gap: "@ + decimal(gap.dropped as int)
                + " gateway log record(s) dropped under backpressure"@
            &&& record.time == RecordTime::Now
            &&& record.attributes.len() == 6
            &&& named(record.attributes, "log.source"@, AttributeView::Text("gateway"@))
            &&& named(record.attributes, "log.target"@, AttributeView::Text("telemetry_gap"@))
            &&& named(record.attributes, "log.level"@, AttributeView::Text("WARN"@))
            &&& named(record.attributes, "log.ocsf"@, AttributeView::Flag(false))
            &&& gap.dropped <= 0x7fff_ffff_ffff_ffff ==> named(
                record.attributes,
                "dropped"@,
                AttributeView::Number(gap.dropped as i64),
            )
            &&& gap.dropped > 0x7fff_ffff_ffff_ffff ==> named(
                record.attributes,
                "dropped"@,
                AttributeView::Number(0x7fff_ffff_ffff_ffff),
            )
            &&& named(record.attributes, "dropped.since_ms"@, AttributeView::Number(gap.since_ms))
        }),
{
    let attributes = gap_view(gap).attributes;
    reveal_strlit("log.source");
    reveal_strlit("log.target");
    reveal_strlit("log.level");
    reveal_strlit("log.ocsf");
    reveal_strlit("dropped");
    reveal_strlit("dropped.since_ms");
    assert("log.source"@[0] == 'l' && "log.source"@[4] == 's');
    assert("log.target"@[0] == 'l' && "log.target"@[4] == 't');
    assert("log.level"@[0] == 'l' && "log.level"@[4] == 'l');
    assert("log.ocsf"@[0] == 'l' && "log.ocsf"@[4] == 'o');
    assert("dropped"@[0] == 'd' && "dropped"@.len() == 7);
    assert("dropped.since_ms"@[0] == 'd' && "dropped.since_ms"@.len() == 16);
    lemma_named_at(attributes, "log.source"@, attributes[0].1, 0);
    lemma_named_at(attributes, "log.target"@, attributes[1].1, 1);
    lemma_named_at(attributes, "log.level"@, attributes[2].1, 2);
    lemma_named_at(attributes, "log.ocsf"@, attributes[3].1, 3);
    lemma_named_at(attributes, "dropped"@, attributes[4].1, 4);
    lemma_named_at(attributes, "dropped.since_ms"@, attributes[5].1, 5);
}

/// Each line has one record, at its own place.
pub proof fn law_one_record_per_line(lines: Seq<LineView>, ocsf_full_payload: bool, at: int)
    ensures
        line_records(lines, ocsf_full_payload).len() == lines.len(),
        0 <= at < lines.len() ==> line_records(lines, ocsf_full_payload)[at] == line_record(
            lines[at],
            ocsf_full_payload,
        ),
{
}

/// A batch is exported line by line, with the gap behind the lines.
pub proof fn law_batches_are_exported_in_order(batch: BatchView, at: int)
    ensures
        batch.gap is None ==> batch.records() == batch.lines && batch.len() == batch.lines.len(),
        batch.gap is Some ==> {
            &&& batch.len() == batch.lines.len() + 1
            &&& batch.records().len() == batch.lines.len() + 1
            &&& batch.records().last() == gap_view(batch.gap->0)
        },
        0 <= at < batch.lines.len() ==> batch.records()[at] == batch.lines[at],
        BatchView::empty().records().len() == 0,
{
}

/// Delays double, up to half a minute.
pub proof fn law_delays_double(backoff_ms: u64)
    ensures
        backoff_ms <= 15_000 ==> longer_backoff(backoff_ms) == 2 * backoff_ms,
        backoff_ms > 15_000 ==> longer_backoff(backoff_ms) == 30_000,
{
}

/// What each phase asks for.
pub proof fn law_phases_ask(attempt: u32, backoff_ms: u64)
    ensures
        Phase::Idle.wants() == Action::AwaitLine,
        (Phase::Exporting { attempt, backoff_ms }).wants() == Action::Export,
        (Phase::BackingOff { attempt, backoff_ms }).wants() == Action::Sleep(backoff_ms),
        Phase::LastAttempt.wants() == Action::Export,
        Phase::Flushing.wants() == Action::Export,
        Phase::Stopped.wants() == Action::Stop,
{
}

/// A line that ends the wait starts a batch: itself first, then what the queue
/// held, and the gap. Its first attempt follows at once, with a second between
/// it and the next.
pub proof fn law_a_line_starts_a_batch(
    worker: WorkerView,
    line: LineView,
    drained: Seq<LineView>,
    ledger: DropLedger,
    now_ms: i64,
    at: int,
)
    requires
        worker.phase is Idle,
    ensures
        ({
            let after = worker.step(ExportEventView::Line(line), drained, ledger, now_ms);
            let full = worker.ocsf_full_payload;
            &&& after.worker.phase == (Phase::Exporting { attempt: 1, backoff_ms: 1_000 })
            &&& after.worker.ocsf_full_payload == full
            &&& after.worker.batch.lines.len() == 1 + drained.len()
            &&& after.worker.batch.lines[0] == line_record(line, full)
            &&& 0 <= at < drained.len() ==> after.worker.batch.lines[at + 1] == line_record(
                drained[at],
                full,
            )
            &&& after.worker.batch.gap is Some <==> ledger.dropped > 0
            &&& ledger.dropped > 0 ==> after.worker.batch.gap->0.dropped == ledger.dropped
                && after.worker.batch.gap->0.since_ms == ledger.dropped_since_ms
                && after.ledger.dropped == 0
        }),
{
}

/// A delivered batch is done with: the worker waits for the next line, and the
/// ledger is as it was.
pub proof fn law_a_delivered_batch_is_done_with(
    worker: WorkerView,
    drained: Seq<LineView>,
    ledger: DropLedger,
    now_ms: i64,
)
    requires
        worker.phase is Exporting,
    ensures
        ({
            let after = worker.step(ExportEventView::Delivered, drained, ledger, now_ms);
            &&& after.worker.phase is Idle
            &&& after.worker.batch.lines.len() == 0
            &&& after.worker.batch.gap is None
            &&& after.worker.ocsf_full_payload == worker.ocsf_full_payload
            &&& after.ledger == ledger
        }),
{
}

/// A batch is attempted five times at most. A failure before the fifth keeps the
/// batch and sleeps for the delay; after it the next attempt comes, with twice
/// the delay behind it. The fifth failure counts the batch as dropped.
pub proof fn law_a_batch_has_five_attempts(
    worker: WorkerView,
    drained: Seq<LineView>,
    ledger: DropLedger,
    now_ms: i64,
    attempt: u32,
    backoff_ms: u64,
)
    requires
        attempt < u32::MAX,
    ensures
        worker.phase == (Phase::Exporting { attempt, backoff_ms }) ==> {
            let after = worker.step(ExportEventView::Failed, drained, ledger, now_ms);
            &&& attempt < 5 ==> after.worker.phase == (Phase::BackingOff { attempt, backoff_ms })
                && after.worker.batch == worker.batch && after.ledger == ledger
            &&& attempt >= 5 ==> after.worker.phase is Idle && after.worker.batch.lines.len() == 0
                && after.worker.batch.gap is None && after.ledger == ledger.losing(
                worker.batch,
                now_ms,
            )
        },
        worker.phase == (Phase::BackingOff { attempt, backoff_ms }) ==> {
            let after = worker.step(ExportEventView::Elapsed, drained, ledger, now_ms);
            &&& after.worker.phase is Exporting
            &&& after.worker.phase->Exporting_attempt == attempt + 1
            &&& backoff_ms <= 15_000 ==> after.worker.phase->Exporting_backoff_ms == 2 * backoff_ms
            &&& backoff_ms > 15_000 ==> after.worker.phase->Exporting_backoff_ms == 30_000
            &&& after.worker.batch == worker.batch
            &&& after.ledger == ledger
        },
{
}

/// The final flush exports what is queued, and stops once there is neither a line
/// nor a drop left to tell of. Nothing is retried: a batch that fails is counted.
pub proof fn law_the_flush_ends(
    worker: WorkerView,
    drained: Seq<LineView>,
    ledger: DropLedger,
    now_ms: i64,
    at: int,
)
    requires
        worker.phase is Flushing,
    ensures
        ({
            let after = worker.step(ExportEventView::Delivered, drained, ledger, now_ms);
            &&& after.worker.phase is Stopped <==> drained.len() == 0 && ledger.dropped == 0
            &&& after.worker.phase is Flushing <==> drained.len() > 0 || ledger.dropped > 0
            &&& after.worker.batch.lines.len() == drained.len()
            &&& 0 <= at < drained.len() ==> after.worker.batch.lines[at] == line_record(
                drained[at],
                worker.ocsf_full_payload,
            )
            &&& after.worker.batch.gap is Some <==> ledger.dropped > 0
        }),
        ({
            let after = worker.step(ExportEventView::Failed, drained, ledger, now_ms);
            &&& after.worker.phase is Stopped
            &&& after.worker.batch.lines.len() == 0
            &&& after.ledger == ledger.losing(worker.batch, now_ms)
        }),
{
}

/// Shutdown takes a waiting worker to the final flush, and one that was about to
/// retry to a last attempt at the batch it has.
pub proof fn law_shutdown_starts_the_flush(
    worker: WorkerView,
    drained: Seq<LineView>,
    ledger: DropLedger,
    now_ms: i64,
    at: int,
)
    ensures
        worker.phase is Idle ==> {
            let after = worker.step(ExportEventView::Ended, drained, ledger, now_ms);
            &&& after.worker.phase is Stopped <==> drained.len() == 0 && ledger.dropped == 0
            &&& after.worker.phase is Flushing <==> drained.len() > 0 || ledger.dropped > 0
            &&& after.worker.batch.lines.len() == drained.len()
            &&& 0 <= at < drained.len() ==> after.worker.batch.lines[at] == line_record(
                drained[at],
                worker.ocsf_full_payload,
            )
        },
        worker.phase is BackingOff ==> {
            let after = worker.step(ExportEventView::Ended, drained, ledger, now_ms);
            &&& after.worker.phase is LastAttempt
            &&& after.worker.batch == worker.batch
            &&& after.ledger == ledger
        },
{
}

/// A report of an event that does not belong to the phase changes nothing.
pub proof fn law_stray_events_change_nothing(
    worker: WorkerView,
    event: ExportEventView,
    drained: Seq<LineView>,
    ledger: DropLedger,
    now_ms: i64,
)
    requires
        worker.phase is Idle ==> !(event is Line) && !(event is Ended),
        worker.phase is Exporting ==> !(event is Delivered) && !(event is Failed),
        worker.phase is BackingOff ==> !(event is Elapsed) && !(event is Ended),
        worker.phase is LastAttempt ==> !(event is Delivered) && !(event is Failed),
        worker.phase is Flushing ==> !(event is Delivered) && !(event is Failed),
    ensures
        worker.step(event, drained, ledger, now_ms).worker == worker,
        worker.step(event, drained, ledger, now_ms).ledger == ledger,
{
}

/// A collector is reached over TLS under `https`, in the clear under `http`, and
/// not at all under any other scheme or without an authority.
pub proof fn law_schemes_choose_the_transport(
    scheme: Option<Seq<char>>,
    authority: Option<Seq<char>>,
)
    ensures
        transport_of(scheme, authority) == Some(Transport::Tls) <==> scheme == Some("https"@)
            && authority is Some,
        transport_of(scheme, authority) == Some(Transport::Plain) <==> scheme == Some("http"@)
            && authority is Some,
{
    reveal_strlit("https");
    reveal_strlit("http");
    assert("https"@.len() != "http"@.len());
}

/// A worker gives up on a batch exactly where its fifth attempt failed, or any
/// made while shutting down.
pub proof fn law_when_a_batch_is_given_up(worker: WorkerView, event: ExportEventView)
    ensures
        worker.gives_up(event) <==> event is Failed && {
            ||| worker.phase is Exporting && worker.phase->Exporting_attempt >= 5
            ||| worker.phase is LastAttempt
            ||| worker.phase is Flushing
        },
        worker.delivers(event) <==> event is Delivered && {
            ||| worker.phase is Exporting
            ||| worker.phase is LastAttempt
            ||| worker.phase is Flushing
        },
{
}

/// A worker drains the queue exactly where it needs a new batch: at the end of
/// the wait, and throughout the flush.
pub proof fn law_when_the_queue_is_drained(worker: WorkerView, event: ExportEventView)
    ensures
        worker.drains(event) <==> {
            ||| worker.phase is Idle && (event is Line || event is Ended)
            ||| worker.phase is LastAttempt && (event is Delivered || event is Failed)
            ||| worker.phase is Flushing && event is Delivered
        },
{
}

/// Within bounds, attempts count from one to five and delays from a second to
/// half a minute, no delay follows the fifth attempt, a batch holds at most 512
/// records, none while there is nothing to export and some while there is, and a
/// gap reports at least one drop.
pub proof fn law_bounds_of_a_worker(worker: WorkerView)
    requires
        worker.wf(),
    ensures
        worker.phase is Exporting ==> 1 <= worker.phase->Exporting_attempt <= 5 && 1_000
            <= worker.phase->Exporting_backoff_ms <= 30_000,
        worker.phase is BackingOff ==> 1 <= worker.phase->BackingOff_attempt <= 4 && 1_000
            <= worker.phase->BackingOff_backoff_ms <= 30_000,
        worker.batch.len() <= 512,
        worker.phase is Idle || worker.phase is Stopped ==> worker.batch.lines.len() == 0
            && worker.batch.gap is None,
        !(worker.phase is Idle) && !(worker.phase is Stopped) ==> worker.batch.lines.len() > 0
            || worker.batch.gap is Some,
        worker.batch.gap is Some ==> worker.batch.gap->0.dropped > 0,
{
}

} // verus!
