use openshell_telemetry::channel::SendOutcome;
use openshell_telemetry::export_worker::{Action, ExportEvent, ExportWorker, Phase};
use openshell_telemetry::log_export::{
    account_dropped_batch, gap_record, settle_offer, DropLedger, Gap, LogExportHandle,
    INITIAL_BACKOFF_MS, MAX_BACKOFF_MS, MAX_BATCH, MAX_EXPORT_ATTEMPTS, QUEUE_CAPACITY,
};
use openshell_telemetry::log_line::{SandboxLogLine, OCSF_TARGET};
use openshell_telemetry::log_record::{
    ocsf_severity, record_for, severity_for, severity_of, AttributeValue, LogRecord, RecordTime,
    Severity,
};
use openshell_telemetry::ocsf::attributes::SEVERITY_ID_KEY;
use openshell_telemetry::string_map::FieldMap;
use tokio::sync::mpsc;

fn ocsf_line(message: &str) -> SandboxLogLine {
    SandboxLogLine {
        sandbox_id: "sb-1".into(),
        timestamp_ms: 1,
        level: "OCSF".into(),
        target: OCSF_TARGET.into(),
        message: message.into(),
        source: "sandbox".into(),
        fields: FieldMap::new(),
    }
}

fn plain_line(message: &str) -> SandboxLogLine {
    SandboxLogLine {
        sandbox_id: "sb-1".into(),
        timestamp_ms: 1,
        level: "INFO".into(),
        target: "test".into(),
        message: message.into(),
        source: "sandbox".into(),
        fields: FieldMap::new(),
    }
}

fn text(value: &str) -> Option<AttributeValue> {
    Some(AttributeValue::Text(value.to_string()))
}

fn attribute(record: &LogRecord, key: &str) -> Option<AttributeValue> {
    record
        .attributes
        .iter()
        .find(|(name, _)| name == key)
        .map(|(_, value)| value.clone())
}

/// Runs the worker to its stop against an exporter, and hands back the delays
/// it asked for. Lines that `late` holds are enqueued once the queue runs dry.
fn drive(
    worker: &mut ExportWorker,
    handle: &mut LogExportHandle,
    rx: &mut mpsc::Receiver<SandboxLogLine>,
    ledger: &mut DropLedger,
    late: &mut Vec<SandboxLogLine>,
    export: &mut dyn FnMut(Vec<LogRecord>) -> bool,
) -> Vec<u64> {
    let mut delays = Vec::new();
    let mut action = worker.action();
    loop {
        let event = match action {
            Action::AwaitLine => match rx.try_recv() {
                Ok(line) => ExportEvent::Line(line),
                Err(_) => match late.pop() {
                    Some(line) => {
                        handle.enqueue(line, ledger, 9);
                        continue;
                    }
                    None => ExportEvent::Ended,
                },
            },
            Action::Export => {
                if export(worker.batch().records()) {
                    ExportEvent::Delivered
                } else {
                    ExportEvent::Failed
                }
            }
            Action::Sleep(ms) => {
                delays.push(ms);
                ExportEvent::Elapsed
            }
            Action::Stop => return delays,
        };
        action = worker.step(event, rx, ledger, 77);
    }
}

#[test]
fn ocsf_events_export_at_their_own_severity() {
    // Every OCSF line carries the level "OCSF", so without reading the
    // shorthand tag a blocked denial exports as INFO and cannot be alerted on
    // downstream.
    let denial = ocsf_line("NET:OPEN [MED] DENIED curl(1) -> blocked.invalid:443");
    assert_eq!(severity_for(&denial, true), Severity::Warn2);

    let finding = ocsf_line("FINDING:BLOCKED [HIGH] \"NSSH1 Nonce Replay Attack\"");
    assert_eq!(severity_for(&finding, true), Severity::Error);

    let routine = ocsf_line("CONFIG:LOADED [INFO] Loaded sandbox policy");
    assert_eq!(severity_for(&routine, true), Severity::Info);
}

#[test]
fn ocsf_severity_ordering_survives_the_mapping() {
    // Distinct OCSF levels must not collapse onto one OTLP number, or "medium
    // and above" stops being expressible.
    let severities: Vec<_> = (1..=6u8).map(|id| ocsf_severity(id).number()).collect();
    let mut sorted = severities.clone();
    sorted.dedup();
    assert_eq!(severities, sorted, "OCSF levels collapsed: {severities:?}");
    assert!(severities.windows(2).all(|w| w[0] < w[1]));
}

#[test]
fn severity_numbers_are_those_of_otlp() {
    let numbers: Vec<u8> = [
        Severity::Trace,
        Severity::Debug,
        Severity::Info,
        Severity::Warn,
        Severity::Warn2,
        Severity::Error,
        Severity::Error2,
        Severity::Fatal,
    ]
    .iter()
    .map(|severity| severity.number())
    .collect();
    assert_eq!(numbers, vec![1, 5, 9, 13, 14, 17, 18, 21]);
    assert_eq!(ocsf_severity(0), Severity::Info);
    assert_eq!(ocsf_severity(99), Severity::Info);
    assert_eq!(ocsf_severity(6), Severity::Fatal);
}

#[test]
fn a_structured_severity_outranks_the_rendered_tag() {
    // The pushed field is what the emitter assigned; the tag is a rendering of
    // it. When they disagree the field wins.
    let mut line = ocsf_line("NET:OPEN [INFO] DENIED curl(1) -> host:443");
    line.fields
        .insert(SEVERITY_ID_KEY.to_string(), "4".to_string());
    assert_eq!(severity_for(&line, true), Severity::Error);
}

#[test]
fn a_malformed_structured_severity_falls_back_to_the_tag() {
    let mut line = ocsf_line("NET:OPEN [MED] DENIED curl(1) -> host:443");
    line.fields
        .insert(SEVERITY_ID_KEY.to_string(), "not-a-number".to_string());
    assert_eq!(severity_for(&line, true), Severity::Warn2);
}

#[test]
fn structured_severities_parse_like_small_integers() {
    for (spelled, severity) in [
        ("5", Severity::Error2),
        ("+5", Severity::Error2),
        ("005", Severity::Error2),
        ("255", Severity::Info),
        ("256", Severity::Warn2),
        ("-1", Severity::Warn2),
        ("", Severity::Warn2),
        ("+", Severity::Warn2),
        (" 5", Severity::Warn2),
        ("5 ", Severity::Warn2),
    ] {
        let mut line = ocsf_line("NET:OPEN [MED] x");
        line.fields
            .insert(SEVERITY_ID_KEY.to_string(), spelled.to_string());
        assert_eq!(severity_for(&line, true), severity, "{spelled:?}");
    }
}

#[test]
fn an_untagged_ocsf_line_falls_back_to_its_level() {
    let untagged = ocsf_line("NET:OPEN no severity tag here");
    assert_eq!(severity_for(&untagged, true), Severity::Info);
}

#[test]
fn non_ocsf_lines_still_use_their_level() {
    // A gateway line whose text happens to contain a tag must not be reranked
    // by it.
    let mut line = ocsf_line("connection refused [HIGH] load");
    line.level = "WARN".into();
    line.target = "openshell_server::compute".into();
    line.source = "gateway".into();
    assert_eq!(severity_for(&line, false), Severity::Warn);
}

#[test]
fn severity_mapping_covers_known_levels() {
    assert_eq!(severity_of("TRACE"), Severity::Trace);
    assert_eq!(severity_of("DEBUG"), Severity::Debug);
    assert_eq!(severity_of("INFO"), Severity::Info);
    assert_eq!(severity_of("WARN"), Severity::Warn);
    assert_eq!(severity_of("ERROR"), Severity::Error);
    assert_eq!(severity_of("OCSF"), Severity::Info);
    assert_eq!(severity_of("something-else"), Severity::Info);
}

#[test]
fn levels_are_matched_exactly() {
    assert_eq!(severity_of("WARNING"), Severity::Warn);
    assert_eq!(severity_of("warn"), Severity::Info);
    assert_eq!(severity_of(""), Severity::Info);
}

#[test]
fn records_carry_the_line_and_its_fields() {
    let mut line = plain_line("hello");
    line.timestamp_ms = 1_742_054_400_000;
    line.fields.insert("principal".to_string(), "user:alice".to_string());
    let record = record_for(&line, false);
    assert_eq!(record.severity, Severity::Info);
    assert_eq!(record.body, "hello");
    assert_eq!(record.time, RecordTime::Millis(1_742_054_400_000));
    let names: Vec<&str> = record.attributes.iter().map(|(name, _)| name.as_str()).collect();
    assert_eq!(
        names,
        ["sandbox.id", "log.source", "log.target", "log.level", "log.ocsf", "principal"]
    );
    assert_eq!(attribute(&record, "log.ocsf"), Some(AttributeValue::Flag(false)));
    assert_eq!(attribute(&record, "principal"), text("user:alice"));
}

#[test]
fn the_payload_of_an_ocsf_event_leaves_only_on_demand() {
    let mut line = ocsf_line("NET:OPEN [LOW] x");
    line.fields.insert("ocsf.class_uid".to_string(), "4001".to_string());
    line.fields.insert(SEVERITY_ID_KEY.to_string(), "5".to_string());
    let withheld = record_for(&line, false);
    let full = record_for(&line, true);
    assert_eq!(attribute(&withheld, "ocsf.class_uid"), None);
    assert_eq!(attribute(&full, "ocsf.class_uid"), text("4001"));
    assert_eq!(withheld.severity, Severity::Error2);
    assert_eq!(full.severity, Severity::Error2);
    assert_eq!(withheld.attributes.len(), 5);
    assert_eq!(full.attributes.len(), 7);
    assert_eq!(attribute(&full, "log.ocsf"), Some(AttributeValue::Flag(true)));
}

#[test]
fn a_line_without_a_time_or_a_sandbox_says_so() {
    let mut line = plain_line("x");
    line.timestamp_ms = 0;
    line.sandbox_id = String::new();
    let record = record_for(&line, false);
    assert_eq!(record.time, RecordTime::Unknown);
    assert_eq!(attribute(&record, "sandbox.id"), None);
    line.timestamp_ms = -5;
    assert_eq!(record_for(&line, false).time, RecordTime::Unknown);
}

#[test]
fn enqueued_lines_reach_the_exporter_and_shutdown_flushes() {
    let (mut handle, mut rx) = LogExportHandle::with_capacity(QUEUE_CAPACITY);
    let mut ledger = DropLedger::new();
    handle.enqueue(plain_line("one"), &mut ledger, 5);
    handle.enqueue(plain_line("two"), &mut ledger, 5);
    handle.enqueue(
        ocsf_line("NET:OPEN [MED] DENIED curl(1) -> blocked.invalid:443"),
        &mut ledger,
        5,
    );
    let mut worker = ExportWorker::new(false);
    let mut emitted = Vec::new();
    assert_eq!(worker.step(ExportEvent::Ended, &mut rx, &mut ledger, 6), Action::Export);
    emitted.extend(worker.batch().records());
    assert_eq!(worker.step(ExportEvent::Delivered, &mut rx, &mut ledger, 6), Action::Stop);

    assert_eq!(emitted.len(), 3, "all enqueued lines are exported");
    let denial = &emitted[2];
    assert_eq!(denial.severity, Severity::Warn2);
    assert_eq!(attribute(denial, "sandbox.id"), text("sb-1"));
    assert_eq!(attribute(denial, "log.ocsf"), Some(AttributeValue::Flag(true)));
}

#[test]
fn queue_overflow_is_accounted_as_a_telemetry_gap() {
    let (mut handle, mut rx) = LogExportHandle::with_capacity(2);
    let mut ledger = DropLedger::new();
    for i in 0..10 {
        handle.enqueue(plain_line(&format!("line-{i}")), &mut ledger, 1_000 + i);
    }
    let mut worker = ExportWorker::new(false);
    let mut emitted = Vec::new();
    drive(&mut worker, &mut handle, &mut rx, &mut ledger, &mut Vec::new(), &mut |records| {
        emitted.extend(records);
        true
    });
    let (gaps, lines): (Vec<_>, Vec<_>) = emitted
        .iter()
        .partition(|record| attribute(record, "log.target") == text("telemetry_gap"));

    assert_eq!(lines.len(), 2, "the queued lines are exported");
    assert_eq!(gaps.len(), 1, "one gap record accounts for the rest");
    let gap = gaps[0];
    assert_eq!(gap.severity, Severity::Warn);
    assert_eq!(attribute(gap, "dropped"), Some(AttributeValue::Number(8)));
    assert_eq!(
        attribute(gap, "dropped.since_ms"),
        Some(AttributeValue::Number(1_002)),
        "the gap carries its window start"
    );
    assert!(gap.body.contains("8 gateway log record(s) dropped"));
    assert_eq!(gap.time, RecordTime::Now);
    assert_eq!(ledger, DropLedger::new());
}

#[test]
fn export_failures_are_retried_until_delivery() {
    let (mut handle, mut rx) = LogExportHandle::with_capacity(QUEUE_CAPACITY);
    let mut ledger = DropLedger::new();
    handle.enqueue(plain_line("survives retries"), &mut ledger, 5);
    let mut worker = ExportWorker::new(false);
    let mut attempts = 0;
    let mut emitted = Vec::new();
    let delays = drive(&mut worker, &mut handle, &mut rx, &mut ledger, &mut Vec::new(), &mut |records| {
        attempts += 1;
        if attempts <= 2 {
            return false;
        }
        emitted.extend(records);
        true
    });
    assert_eq!(attempts, 3, "two failures, one success");
    assert_eq!(emitted.len(), 1);
    assert_eq!(emitted[0].body, "survives retries");
    assert_eq!(delays, vec![1_000, 2_000]);
}

#[test]
fn a_batch_exhausting_its_retries_is_dropped_and_accounted() {
    let (mut handle, mut rx) = LogExportHandle::with_capacity(QUEUE_CAPACITY);
    let mut ledger = DropLedger::new();
    handle.enqueue(plain_line("poison"), &mut ledger, 5);
    let mut late = vec![plain_line("after the gap")];
    let mut worker = ExportWorker::new(false);
    let mut attempts = 0;
    let mut emitted = Vec::new();
    let delays = drive(&mut worker, &mut handle, &mut rx, &mut ledger, &mut late, &mut |records| {
        attempts += 1;
        if attempts <= MAX_EXPORT_ATTEMPTS {
            return false;
        }
        emitted.extend(records);
        true
    });
    let bodies: Vec<&str> = emitted.iter().map(|record| record.body.as_str()).collect();
    assert!(
        !bodies.iter().any(|b| *b == "poison"),
        "the undeliverable batch is gone: {bodies:?}"
    );
    assert!(
        bodies.iter().any(|b| *b == "after the gap"),
        "the stream continues past it: {bodies:?}"
    );
    let gap = emitted
        .iter()
        .find(|record| attribute(record, "log.target") == text("telemetry_gap"))
        .expect("the dropped batch is reported");
    assert_eq!(attribute(gap, "dropped"), Some(AttributeValue::Number(1)));
    assert_eq!(attribute(gap, "dropped.since_ms"), Some(AttributeValue::Number(77)));
    assert_eq!(delays, vec![1_000, 2_000, 4_000, 8_000]);
}

#[test]
fn enqueue_after_shutdown_is_a_noop() {
    let (mut handle, rx) = LogExportHandle::with_capacity(QUEUE_CAPACITY);
    let mut ledger = DropLedger::new();
    drop(rx);
    // The worker is gone and the channel closed; enqueue must not panic and
    // must not count the line as a drop worth reporting.
    let outcome = handle.enqueue(plain_line("hello"), &mut ledger, 5);
    assert_eq!(outcome, SendOutcome::Closed);
    assert_eq!(ledger.dropped, 0);
}

#[test]
fn batches_are_bounded() {
    let (mut handle, mut rx) = LogExportHandle::with_capacity(QUEUE_CAPACITY);
    let mut ledger = DropLedger::new();
    for i in 0..(2 * MAX_BATCH + 3) {
        handle.enqueue(plain_line(&format!("{i}")), &mut ledger, 5);
    }
    let mut worker = ExportWorker::new(false);
    let mut sizes = Vec::new();
    let mut bodies = Vec::new();
    drive(&mut worker, &mut handle, &mut rx, &mut ledger, &mut Vec::new(), &mut |records| {
        sizes.push(records.len());
        bodies.extend(records.into_iter().map(|record| record.body));
        true
    });
    assert_eq!(sizes, vec![MAX_BATCH, MAX_BATCH, 3]);
    let expected: Vec<String> = (0..(2 * MAX_BATCH + 3)).map(|i| format!("{i}")).collect();
    assert_eq!(bodies, expected, "lines leave in the order they came");
}

#[test]
fn the_ledger_keeps_the_earliest_drop() {
    let mut ledger = DropLedger::new();
    assert_eq!(ledger.take_gap(), None);
    ledger.count(1, 100);
    ledger.count(2, 200);
    account_dropped_batch(&mut ledger, 7, 300);
    assert_eq!(ledger.take_gap(), Some(Gap { dropped: 10, since_ms: 100 }));
    assert_eq!(ledger, DropLedger::new());
    settle_offer(SendOutcome::Accepted, &mut ledger, 1);
    settle_offer(SendOutcome::Closed, &mut ledger, 1);
    assert_eq!(ledger, DropLedger::new());
    settle_offer(SendOutcome::Full, &mut ledger, 400);
    assert_eq!(ledger, DropLedger { dropped: 1, dropped_since_ms: 400 });
    ledger.dropped = u64::MAX;
    ledger.count(2, 500);
    assert_eq!(ledger.dropped, 1);
}

#[test]
fn huge_gaps_report_the_largest_number() {
    let record = gap_record(Gap { dropped: u64::MAX, since_ms: 3 });
    assert_eq!(attribute(&record, "dropped"), Some(AttributeValue::Number(i64::MAX)));
    assert_eq!(
        record.body,
        "telemetry gap: 18446744073709551615 gateway log record(s) dropped under backpressure"
    );
}

#[test]
fn a_lost_report_comes_back_with_its_count_and_window() {
    let (mut handle, mut rx) = LogExportHandle::with_capacity(4);
    let mut ledger = DropLedger { dropped: 8, dropped_since_ms: 1000 };
    handle.enqueue(plain_line("a"), &mut ledger, 2000);
    let mut worker = ExportWorker::new(false);
    let mut attempts = 0;
    let mut emitted = Vec::new();
    drive(&mut worker, &mut handle, &mut rx, &mut ledger, &mut Vec::new(), &mut |records| {
        attempts += 1;
        if attempts <= MAX_EXPORT_ATTEMPTS {
            assert_eq!(records.len(), 2);
            return false;
        }
        emitted.extend(records);
        true
    });
    assert_eq!(emitted.len(), 1);
    assert_eq!(attribute(&emitted[0], "dropped"), Some(AttributeValue::Number(9)));
    assert_eq!(attribute(&emitted[0], "dropped.since_ms"), Some(AttributeValue::Number(1000)));
    assert_eq!(ledger, DropLedger::new());
}

#[test]
fn a_restored_report_keeps_the_earlier_window() {
    let mut ledger = DropLedger::new();
    ledger.count(2, 500);
    ledger.restore(Gap { dropped: 3, since_ms: 100 });
    assert_eq!(ledger, DropLedger { dropped: 5, dropped_since_ms: 100 });
    ledger.restore(Gap { dropped: 1, since_ms: 0 });
    assert_eq!(ledger, DropLedger { dropped: 6, dropped_since_ms: 100 });
}

#[test]
fn a_full_batch_has_room_for_the_gap() {
    let (mut handle, mut rx) = LogExportHandle::with_capacity(QUEUE_CAPACITY);
    let mut ledger = DropLedger::new();
    for i in 0..(MAX_BATCH + 1) {
        handle.enqueue(plain_line(&format!("{i}")), &mut ledger, 5);
    }
    ledger.count(3, 6);
    let mut worker = ExportWorker::new(false);
    let mut sizes = Vec::new();
    let mut lines = Vec::new();
    drive(&mut worker, &mut handle, &mut rx, &mut ledger, &mut Vec::new(), &mut |records| {
        sizes.push(records.len());
        lines.extend(
            records
                .into_iter()
                .filter(|record| attribute(record, "log.target") != text("telemetry_gap"))
                .map(|record| record.body),
        );
        true
    });
    assert_eq!(sizes, vec![MAX_BATCH, 2]);
    let expected: Vec<String> = (0..(MAX_BATCH + 1)).map(|i| format!("{i}")).collect();
    assert_eq!(lines, expected);
}

#[test]
fn shutdown_reports_pending_drops_alone() {
    let (mut handle, mut rx) = LogExportHandle::with_capacity(4);
    let mut ledger = DropLedger { dropped: 4, dropped_since_ms: 30 };
    let mut worker = ExportWorker::new(false);
    let mut emitted = Vec::new();
    drive(&mut worker, &mut handle, &mut rx, &mut ledger, &mut Vec::new(), &mut |records| {
        emitted.push(records.len());
        assert_eq!(attribute(&records[0], "dropped"), Some(AttributeValue::Number(4)));
        true
    });
    assert_eq!(emitted, vec![1]);
    assert_eq!(ledger, DropLedger::new());
}

#[test]
fn clones_of_a_handle_feed_one_queue() {
    let (mut handle, mut rx) = LogExportHandle::with_capacity(4);
    let mut ledger = DropLedger::new();
    let mut copy = handle.clone();
    handle.enqueue(plain_line("one"), &mut ledger, 1);
    copy.enqueue(plain_line("two"), &mut ledger, 1);
    drop(handle);
    assert_eq!(rx.try_recv().unwrap().message, "one");
    assert_eq!(rx.try_recv().unwrap().message, "two");
    drop(copy);
    assert!(rx.try_recv().is_err());
}

#[test]
fn shutdown_during_a_delay_flushes_what_is_in_hand_and_queued() {
    let (mut handle, mut rx) = LogExportHandle::with_capacity(4);
    let mut ledger = DropLedger::new();
    let mut worker = ExportWorker::new(true);
    assert_eq!(
        worker.step(ExportEvent::Line(plain_line("first")), &mut rx, &mut ledger, 1),
        Action::Export
    );
    assert_eq!(
        worker.step(ExportEvent::Failed, &mut rx, &mut ledger, 1),
        Action::Sleep(INITIAL_BACKOFF_MS)
    );
    assert_eq!(worker.attempt(), Some(1));
    handle.enqueue(plain_line("second"), &mut ledger, 1);
    assert_eq!(worker.step(ExportEvent::Ended, &mut rx, &mut ledger, 1), Action::Export);
    assert_eq!(worker.attempt(), None);
    let bodies: Vec<String> = worker.batch().records().into_iter().map(|r| r.body).collect();
    assert_eq!(bodies, vec!["first"]);
    assert_eq!(worker.step(ExportEvent::Delivered, &mut rx, &mut ledger, 1), Action::Export);
    let bodies: Vec<String> = worker.batch().records().into_iter().map(|r| r.body).collect();
    assert_eq!(bodies, vec!["second"]);
    assert_eq!(worker.step(ExportEvent::Failed, &mut rx, &mut ledger, 8), Action::Stop);
    assert_eq!(worker.step(ExportEvent::Elapsed, &mut rx, &mut ledger, 9), Action::Stop);
    // What the final flush could not deliver is counted.
    assert_eq!(ledger, DropLedger { dropped: 1, dropped_since_ms: 8 });
}

#[test]
fn a_poison_batch_in_hand_does_not_dam_the_final_flush() {
    let (mut handle, mut rx) = LogExportHandle::with_capacity(4);
    let mut ledger = DropLedger { dropped: 2, dropped_since_ms: 40 };
    let mut worker = ExportWorker::new(true);
    worker.step(ExportEvent::Line(plain_line("poison")), &mut rx, &mut ledger, 1);
    worker.step(ExportEvent::Failed, &mut rx, &mut ledger, 1);
    handle.enqueue(plain_line("second"), &mut ledger, 1);
    assert_eq!(worker.step(ExportEvent::Ended, &mut rx, &mut ledger, 1), Action::Export);
    assert_eq!(worker.step(ExportEvent::Failed, &mut rx, &mut ledger, 9), Action::Export);
    let records = worker.batch().records();
    assert_eq!(records.len(), 2);
    assert_eq!(records[0].body, "second");
    // The batch in hand and what it was to report.
    assert_eq!(attribute(&records[1], "dropped"), Some(AttributeValue::Number(3)));
    assert_eq!(attribute(&records[1], "dropped.since_ms"), Some(AttributeValue::Number(40)));
    assert_eq!(worker.step(ExportEvent::Delivered, &mut rx, &mut ledger, 9), Action::Stop);
    assert_eq!(ledger, DropLedger::new());
}

#[test]
fn an_event_out_of_turn_changes_nothing() {
    let (_handle, mut rx) = LogExportHandle::with_capacity(4);
    let mut ledger = DropLedger::new();
    let mut worker = ExportWorker::new(true);
    assert_eq!(worker.action(), Action::AwaitLine);
    assert_eq!(worker.step(ExportEvent::Delivered, &mut rx, &mut ledger, 1), Action::AwaitLine);
    assert_eq!(worker.step(ExportEvent::Elapsed, &mut rx, &mut ledger, 1), Action::AwaitLine);
    assert_eq!(worker.batch().len(), 0);
    let long = Phase::BackingOff { attempt: 2, backoff_ms: MAX_BACKOFF_MS };
    assert_eq!(long.action(), Action::Sleep(30_000));
}
