use openshell_telemetry::audit::{emit_entity, EntityOutcome, GatewayAuditConfig};
use openshell_telemetry::log_export::{DropLedger, LogExportHandle};
use openshell_telemetry::log_line::{
    Payload, PlatformEvent, SandboxLogLine, SandboxStreamEvent, OCSF_TARGET,
};
use openshell_telemetry::log_record::{record_for, AttributeValue, LogRecord, Severity};
use openshell_telemetry::ocsf::attributes::{RAW_KEY, SEVERITY_ID_KEY};
use openshell_telemetry::ocsf::enums::EntityActivityId;
use openshell_telemetry::ocsf::objects::ManagedEntity;
use openshell_telemetry::principal::Principal;
use openshell_telemetry::string_map::FieldMap;
use openshell_telemetry::tracing_bus::{
    display_level, is_export_feedback_target, Lane, LogVisitor, PlatformEventBus, TracingLogBus,
    DEFAULT_TAIL, PLATFORM_TAIL,
};
use tokio::sync::broadcast;

fn make_log_event(sandbox_id: &str, message: &str) -> SandboxLogLine {
    SandboxLogLine {
        sandbox_id: sandbox_id.to_string(),
        timestamp_ms: 1000,
        level: "INFO".to_string(),
        target: "test".to_string(),
        message: message.to_string(),
        source: "gateway".to_string(),
        fields: FieldMap::new(),
    }
}

fn publish(bus: &mut TracingLogBus, line: SandboxLogLine) {
    let mut ledger = DropLedger::new();
    bus.publish_external(line, &mut ledger, 5);
    assert_eq!(ledger, DropLedger::new());
}

fn platform_event(i: i64) -> SandboxStreamEvent {
    SandboxStreamEvent {
        payload: Some(Payload::Event(PlatformEvent {
            timestamp_ms: i,
            source: "test".to_string(),
            event_type: "Normal".to_string(),
            reason: format!("Event{i}"),
            message: format!("Message {i}"),
            metadata: FieldMap::new(),
        })),
    }
}

fn reason(event: &SandboxStreamEvent) -> &str {
    match &event.payload {
        Some(Payload::Event(e)) => e.reason.as_str(),
        other => panic!("expected Event payload, got {other:?}"),
    }
}

fn message(event: &SandboxStreamEvent) -> &str {
    match &event.payload {
        Some(Payload::Log(line)) => line.message.as_str(),
        other => panic!("expected Log payload, got {other:?}"),
    }
}

fn visitor(sandbox_id: Option<&str>, text: &str, fields: &[(&str, &str)]) -> LogVisitor {
    let mut visitor = LogVisitor::new();
    if let Some(id) = sandbox_id {
        visitor.record_str("sandbox_id", id);
    }
    visitor.record_debug("message", text);
    for (name, value) in fields {
        visitor.record_str(name, value);
    }
    visitor
}

fn attr(record: &LogRecord, key: &str) -> Option<AttributeValue> {
    record
        .attributes
        .iter()
        .find(|(name, _)| name == key)
        .map(|(_, value)| value.clone())
}

#[test]
fn tracing_log_bus_remove_cleans_up_all_maps() {
    let mut bus = TracingLogBus::new();
    let sandbox_id = "sb-1";

    // Create entries via subscribe and publish
    let _rx = bus.subscribe(sandbox_id);
    publish(&mut bus, make_log_event(sandbox_id, "hello"));

    // Verify entries exist
    assert_eq!(bus.tail(sandbox_id, 10).len(), 1);

    // Remove
    bus.remove(sandbox_id);

    // Verify entries are gone
    assert!(bus.tail(sandbox_id, 10).is_empty());
}

#[test]
fn tracing_log_bus_subscribe_after_remove_creates_fresh_channel() {
    let mut bus = TracingLogBus::new();
    let sandbox_id = "sb-2";

    // Create and remove
    publish(&mut bus, make_log_event(sandbox_id, "old message"));
    bus.remove(sandbox_id);

    // Subscribe again: should get a fresh channel with no history
    let mut rx = bus.subscribe(sandbox_id);
    assert!(bus.tail(sandbox_id, 10).is_empty());

    // New publish should reach the new subscriber
    publish(&mut bus, make_log_event(sandbox_id, "new message"));
    let evt = rx.try_recv().expect("should receive new event");
    assert!(evt.payload.is_some());
}

#[test]
fn tracing_log_bus_remove_closes_active_receivers() {
    let mut bus = TracingLogBus::new();
    let sandbox_id = "sb-3";

    let mut rx = bus.subscribe(sandbox_id);

    // Remove drops the sender
    bus.remove(sandbox_id);

    // Existing receiver should get Closed error
    match rx.try_recv() {
        Err(broadcast::error::TryRecvError::Closed) => {} // expected
        other => panic!("expected Closed, got {other:?}"),
    }
}

#[test]
fn tracing_log_bus_remove_nonexistent_is_noop() {
    let mut bus = TracingLogBus::new();
    // Should not panic
    bus.remove("nonexistent");
}

#[test]
fn export_feedback_targets_are_excluded() {
    assert!(is_export_feedback_target("openshell_server::log_export"));
    assert!(is_export_feedback_target("opentelemetry_otlp::exporter"));
    assert!(is_export_feedback_target("tonic::transport"));
    assert!(is_export_feedback_target("h2::codec"));
    // The rest of the gateway must not be swept up by the guard.
    assert!(!is_export_feedback_target("openshell_server::auth::guard"));
    assert!(!is_export_feedback_target("openshell_server::grpc::policy"));
}

#[test]
fn feedback_targets_are_matched_by_prefix() {
    assert!(is_export_feedback_target("hyper"));
    assert!(is_export_feedback_target("rustls::client"));
    assert!(!is_export_feedback_target("my_tonic"));
    assert!(!is_export_feedback_target("h"));
    assert!(!is_export_feedback_target(""));
}

#[test]
fn gateway_scoped_events_export_without_a_sandbox_id() {
    let mut ledger = DropLedger::new();
    let (handle, mut rx) = LogExportHandle::with_capacity(16);
    let mut bus = TracingLogBus::new();
    bus.set_export(handle);

    let workspace = visitor(None, "workspace created", &[("principal", "user:alice")]);
    let lane = bus.on_event("openshell_server", "INFO", "event", workspace, &mut ledger, 7);
    assert_eq!(lane, Lane::Gateway);
    let failed = visitor(None, "OTLP log export failed", &[]);
    let lane = bus.on_event(
        "openshell_server::log_export",
        "WARN",
        "event",
        failed,
        &mut ledger,
        7,
    );
    assert_eq!(lane, Lane::Ignored);
    let scoped = visitor(Some("sb-1"), "sandbox event", &[]);
    let lane = bus.on_event("openshell_server", "INFO", "event", scoped, &mut ledger, 7);
    assert_eq!(lane, Lane::Sandbox);

    let mut emitted = Vec::new();
    while let Ok(line) = rx.try_recv() {
        emitted.push(record_for(&line, false));
    }
    assert_eq!(emitted.len(), 2, "the export-path warning must not export");

    let gateway = &emitted[0];
    assert!(
        attr(gateway, "sandbox.id").is_none(),
        "gateway-scoped records carry no sandbox.id"
    );
    assert_eq!(
        attr(gateway, "principal"),
        Some(AttributeValue::Text("user:alice".into())),
        "structured fields survive export"
    );
    assert_eq!(
        attr(gateway, "log.source"),
        Some(AttributeValue::Text("gateway".into()))
    );
    assert_eq!(
        attr(&emitted[1], "sandbox.id"),
        Some(AttributeValue::Text("sb-1".into()))
    );

    // Visibility plane unchanged: only the sandbox-scoped line has a tail.
    assert_eq!(bus.tail("sb-1", 10).len(), 1);
    assert!(bus.tail("", 10).is_empty());
}

#[test]
fn export_path_events_about_a_sandbox_show_but_do_not_export() {
    let mut ledger = DropLedger::new();
    let (handle, mut rx) = LogExportHandle::with_capacity(1);
    let mut bus = TracingLogBus::new();
    bus.set_export(handle);
    let mut watcher = bus.subscribe("sb-1");
    for target in ["tonic::transport", "openshell_server::log_export"] {
        let event = visitor(Some("sb-1"), "transport error", &[]);
        let lane = bus.on_event(target, "WARN", "event", event, &mut ledger, 7);
        assert_eq!(lane, Lane::Visibility);
        assert_eq!(message(&watcher.try_recv().unwrap()), "transport error");
    }
    assert_eq!(bus.tail("sb-1", 10).len(), 2);
    assert!(rx.try_recv().is_err());
    assert_eq!(ledger, DropLedger::new());
}

#[test]
fn gateway_scoped_events_are_ignored_when_export_is_off() {
    let mut ledger = DropLedger::new();
    let mut bus = TracingLogBus::default();
    let event = visitor(None, "workspace created", &[("principal", "user:alice")]);
    let lane = bus.on_event("openshell_server", "INFO", "event", event, &mut ledger, 7);
    assert_eq!(lane, Lane::Ignored);
    assert!(bus.tail("", 10).is_empty());
    assert!(!bus.exports());
}

#[test]
fn an_empty_sandbox_id_is_no_sandbox() {
    let mut ledger = DropLedger::new();
    let (handle, mut rx) = LogExportHandle::with_capacity(16);
    let mut bus = TracingLogBus::new();
    bus.set_export(handle);
    let event = visitor(Some(""), "x", &[]);
    assert_eq!(bus.on_event("t", "INFO", "n", event, &mut ledger, 7), Lane::Gateway);
    assert!(bus.tail("", 10).is_empty());
    assert_eq!(rx.try_recv().unwrap().sandbox_id, "");
}

#[test]
fn captured_lines_take_the_name_where_there_is_no_message() {
    let mut ledger = DropLedger::new();
    let mut bus = TracingLogBus::new();
    let mut event = LogVisitor::new();
    event.record_debug("sandbox_id", "sb-9");
    event.record_str("k", "first");
    event.record_debug("k", "second");
    bus.on_event(OCSF_TARGET, "INFO", "event src/a.rs:1", event, &mut ledger, 42);
    let tail = bus.tail("sb-9", 1);
    match &tail[0].payload {
        Some(Payload::Log(line)) => {
            assert_eq!(line.message, "event src/a.rs:1");
            assert_eq!(line.level, "OCSF");
            assert_eq!(line.source, "gateway");
            assert_eq!(line.timestamp_ms, 42);
            assert_eq!(line.fields.len(), 1);
            assert_eq!(line.fields.get("k").map(String::as_str), Some("second"));
        }
        other => panic!("expected Log payload, got {other:?}"),
    }
}

#[test]
fn display_level_maps_ocsf_target_to_ocsf() {
    assert_eq!(display_level(OCSF_TARGET, "INFO"), "OCSF");
    assert_eq!(display_level("openshell_server", "WARN"), "WARN");
}

#[test]
fn platform_event_bus_remove_cleans_up() {
    let mut bus = PlatformEventBus::new();
    let sandbox_id = "sb-4";

    let mut rx = bus.subscribe(sandbox_id);

    // Publish an event
    let evt = SandboxStreamEvent { payload: None };
    assert!(bus.publish(sandbox_id, evt));
    assert!(rx.try_recv().is_ok());

    // Remove
    bus.remove(sandbox_id);

    // Receiver should be closed
    match rx.try_recv() {
        Err(broadcast::error::TryRecvError::Closed) => {} // expected
        other => panic!("expected Closed, got {other:?}"),
    }
}

#[test]
fn platform_event_bus_subscribe_after_remove_creates_fresh_channel() {
    let mut bus = PlatformEventBus::new();
    let sandbox_id = "sb-5";

    let _old_rx = bus.subscribe(sandbox_id);
    bus.remove(sandbox_id);

    // New subscription should work
    let mut new_rx = bus.subscribe(sandbox_id);
    let evt = SandboxStreamEvent { payload: None };
    bus.publish(sandbox_id, evt);
    assert!(new_rx.try_recv().is_ok());
}

#[test]
fn platform_event_bus_remove_nonexistent_is_noop() {
    let mut bus = PlatformEventBus::new();
    // Should not panic
    bus.remove("nonexistent");
}

#[test]
fn platform_event_bus_tail_returns_buffered_events() {
    let mut bus = PlatformEventBus::new();
    let sandbox_id = "sb-6";

    // Publish some events
    for i in 0..5 {
        bus.publish(sandbox_id, platform_event(i));
    }

    // Tail should return all events in order
    let events = bus.tail(sandbox_id, 10);
    assert_eq!(events.len(), 5);

    // Verify order (oldest first)
    for (i, evt) in events.iter().enumerate() {
        assert_eq!(reason(evt), format!("Event{i}"));
    }

    // Tail with smaller max should return most recent events
    let events = bus.tail(sandbox_id, 2);
    assert_eq!(events.len(), 2);
    assert_eq!(reason(&events[0]), "Event3");
    assert_eq!(reason(&events[1]), "Event4");
}

#[test]
fn platform_event_bus_tail_empty_sandbox() {
    let bus = PlatformEventBus::new();
    let events = bus.tail("nonexistent", 10);
    assert!(events.is_empty());
}

#[test]
fn platform_event_bus_remove_clears_tail() {
    let mut bus = PlatformEventBus::new();
    let sandbox_id = "sb-7";

    let evt = SandboxStreamEvent { payload: None };
    assert!(!bus.publish(sandbox_id, evt));
    assert_eq!(bus.tail(sandbox_id, 10).len(), 1);

    bus.remove(sandbox_id);
    assert!(bus.tail(sandbox_id, 10).is_empty());
}

#[test]
fn tails_keep_the_latest_events_only() {
    let mut bus = PlatformEventBus::new();
    for i in 0..60 {
        bus.publish("sb", platform_event(i));
    }
    let events = bus.tail("sb", 1000);
    assert_eq!(events.len(), PLATFORM_TAIL);
    assert_eq!(reason(&events[0]), "Event10");
    assert_eq!(reason(&events[49]), "Event59");
    assert!(bus.tail("sb", 0).is_empty());
    assert!(bus.tail("other", 5).is_empty());

    let mut bus = TracingLogBus::new();
    for i in 0..(DEFAULT_TAIL + 2) {
        publish(&mut bus, make_log_event("sb", &format!("{i}")));
    }
    let events = bus.tail("sb", DEFAULT_TAIL + 5);
    assert_eq!(events.len(), DEFAULT_TAIL);
    assert_eq!(message(&events[0]), "2");
    let mut ledger = DropLedger::new();
    bus.publish_log(make_log_event("sb", "last"), 1, &mut ledger, 5);
    let events = bus.tail("sb", 10);
    assert_eq!(events.len(), 1);
    assert_eq!(message(&events[0]), "last");
    bus.publish_log(make_log_event("sb", "gone"), 0, &mut ledger, 5);
    assert!(bus.tail("sb", 10).is_empty());
}

#[test]
fn watchers_hear_their_own_sandbox_from_here_on() {
    let mut bus = TracingLogBus::new();
    publish(&mut bus, make_log_event("a", "before"));
    let mut first = bus.subscribe("a");
    let mut other = bus.subscribe("b");
    publish(&mut bus, make_log_event("a", "one"));
    let mut second = bus.subscribe("a");
    publish(&mut bus, make_log_event("a", "two"));
    assert_eq!(message(&first.try_recv().unwrap()), "one");
    assert_eq!(message(&first.try_recv().unwrap()), "two");
    assert_eq!(message(&second.try_recv().unwrap()), "two");
    assert!(second.try_recv().is_err());
    assert!(matches!(
        other.try_recv(),
        Err(broadcast::error::TryRecvError::Empty)
    ));
    assert_eq!(bus.tail("a", 10).len(), 3);
}

#[test]
fn the_first_export_handle_wins() {
    let mut ledger = DropLedger::new();
    let mut bus = TracingLogBus::new();
    let (first, mut first_rx) = LogExportHandle::with_capacity(4);
    let (second, mut second_rx) = LogExportHandle::with_capacity(4);
    bus.set_export(first);
    bus.set_export(second);
    bus.publish_external(make_log_event("a", "x"), &mut ledger, 5);
    assert_eq!(first_rx.try_recv().unwrap().message, "x");
    assert!(second_rx.try_recv().is_err());
}

#[test]
fn a_full_export_queue_does_not_stop_the_tail() {
    let mut ledger = DropLedger::new();
    let mut bus = TracingLogBus::new();
    let (handle, mut rx) = LogExportHandle::with_capacity(1);
    bus.set_export(handle);
    bus.publish_external(make_log_event("a", "1"), &mut ledger, 10);
    bus.publish_external(make_log_event("a", "2"), &mut ledger, 20);
    bus.export_only(make_log_event("", "3"), &mut ledger, 30);
    assert_eq!(ledger, DropLedger { dropped: 2, dropped_since_ms: 20 });
    assert_eq!(bus.tail("a", 10).len(), 2);
    assert_eq!(rx.try_recv().unwrap().message, "1");
    assert!(rx.try_recv().is_err());
}

#[test]
fn audit_emissions_travel_in_raw_form() {
    let who = Principal::Anonymous;
    let audit = GatewayAuditConfig { enabled: true, auth_success_events: false };
    let outcome = |sandbox| EntityOutcome {
        activity: EntityActivityId::Delete,
        entity: ManagedEntity::new("provider", "aws"),
        sandbox,
        principal: &who,
        request_id: None,
        success_message: "gone".to_string(),
        failure_message: "still there".to_string(),
        unmapped: vec![],
    };
    let mut ledger = DropLedger::new();
    let (handle, mut rx) = LogExportHandle::with_capacity(4);
    let mut bus = TracingLogBus::new();
    bus.set_export(handle);

    let gateway = emit_entity(&audit, false, outcome(None)).unwrap();
    let lane = bus.on_event(OCSF_TARGET, "INFO", "e", gateway.visitor(), &mut ledger, 5);
    assert_eq!(lane, Lane::Gateway);
    let line = rx.try_recv().unwrap();
    assert_eq!(line.message, "ENTITY:DELETE [LOW] FAILED provider \"aws\" by anonymous");
    assert_eq!(line.level, "OCSF");
    assert_eq!(line.fields.get(SEVERITY_ID_KEY).map(String::as_str), Some("2"));
    let raw: serde_json::Value =
        serde_json::from_str(line.fields.get(RAW_KEY).unwrap()).unwrap();
    assert_eq!(raw, gateway.event.to_json());
    let record = record_for(&line, false);
    assert_eq!(record.severity, Severity::Warn);
    assert!(attr(&record, "sandbox.id").is_none());

    let scoped = emit_entity(&audit, true, outcome(Some(("sb-1", "one")))).unwrap();
    let lane = bus.on_event(OCSF_TARGET, "INFO", "e", scoped.visitor(), &mut ledger, 5);
    assert_eq!(lane, Lane::Sandbox);
    assert_eq!(bus.tail("sb-1", 10).len(), 1);
    let record = record_for(&rx.try_recv().unwrap(), true);
    assert_eq!(record.severity, Severity::Info);
    assert_eq!(record.attributes[0].0, "sandbox.id");
}
