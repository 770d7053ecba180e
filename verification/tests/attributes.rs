use openshell_telemetry::ocsf::attributes::{
    flatten_event, flatten_value, number_text, raw_document, raw_event_fields, raw_fields,
    truncate, MAX_VALUE_LEN, RAW_KEY, SEVERITY_ID_KEY, TRUNCATION_SUFFIX,
};
use openshell_telemetry::ocsf::enums::SeverityId;
use openshell_telemetry::ocsf::events::{BaseEvent, BaseEventData, OcsfEvent};
use openshell_telemetry::ocsf::objects::{Metadata, Product};
use openshell_telemetry::string_map::FieldMap;

fn test_event() -> OcsfEvent {
    let mut base = BaseEventData::new(
        0,
        "Base Event",
        0,
        "Uncategorized",
        99,
        "Other",
        SeverityId::Medium,
        Metadata {
            version: "1.7.0".to_string(),
            product: Product::openshell_sandbox("0.1.0"),
            profiles: vec!["container".to_string(), "host".to_string()],
            uid: Some("sandbox-abc123".to_string()),
            log_source: None,
        },
    );
    base.set_time(1_742_054_400_000);
    base.set_message("Test event");
    OcsfEvent::Base(BaseEvent { base })
}

fn parse(text: &str) -> serde_json::Value {
    serde_json::from_str(text).unwrap()
}

fn flatten_text(path: &str, text: &str) -> FieldMap {
    let mut out = FieldMap::new();
    flatten_value(&path.to_string(), &parse(text), &mut out);
    out
}

fn field<'a>(fields: &'a FieldMap, key: &str) -> Option<&'a str> {
    fields.get(key).map(String::as_str)
}

#[test]
fn scalars_and_nested_objects_flatten_under_the_ocsf_prefix() {
    let fields = flatten_event(&test_event());

    assert_eq!(fields.get("ocsf.class_uid").map(String::as_str), Some("0"));
    // Pins SEVERITY_ID_KEY to the key flattening actually emits; the gateway
    // ranks events by it.
    assert_eq!(fields.get(SEVERITY_ID_KEY).map(String::as_str), Some("3"));
    // Nested object, not a JSON blob under one key.
    assert_eq!(
        fields.get("ocsf.metadata.version").map(String::as_str),
        Some("1.7.0")
    );
    // Strings arrive unquoted so a consumer can match them directly.
    assert_eq!(
        fields.get("ocsf.class_name").map(String::as_str),
        Some("Base Event")
    );
    assert!((0..fields.len()).all(|i| fields.key_at(i).starts_with("ocsf.")));
}

#[test]
fn scalar_arrays_join_on_one_key() {
    let fields = flatten_event(&test_event());
    assert_eq!(
        fields.get("ocsf.metadata.profiles").map(String::as_str),
        Some("container,host")
    );
}

#[test]
fn object_arrays_are_indexed() {
    let mut out = FieldMap::new();
    let value = parse("[{\"name\": \"a\"}, {\"name\": \"b\"}]");
    flatten_value(&mut "ocsf.affected".to_string(), &value, &mut out);

    assert_eq!(
        out.get("ocsf.affected.0.name").map(String::as_str),
        Some("a")
    );
    assert_eq!(
        out.get("ocsf.affected.1.name").map(String::as_str),
        Some("b")
    );
}

#[test]
fn nulls_and_empty_arrays_produce_no_keys() {
    let mut out = FieldMap::new();
    let value = parse("{\"absent\": null, \"none\": [], \"kept\": 1}");
    flatten_value(&mut "ocsf".to_string(), &value, &mut out);

    assert_eq!(out.len(), 1);
    assert_eq!(out.get("ocsf.kept").map(String::as_str), Some("1"));
}

#[test]
fn raw_fields_carry_the_complete_event_and_its_severity() {
    let event = test_event();
    let fields = raw_event_fields(&event);

    assert_eq!(fields.len(), 2);
    // The raw value parses to exactly the event's document: full fidelity is
    // the contract.
    let raw = fields.get(RAW_KEY).expect("raw payload present");
    let parsed: serde_json::Value = serde_json::from_str(raw).expect("raw is valid JSON");
    assert_eq!(parsed, event.to_json());
    // The severity travels beside it under the same key the flattened form
    // uses, so the gateway ranks both forms identically.
    assert_eq!(fields.get(SEVERITY_ID_KEY).map(String::as_str), Some("3"));
}

#[test]
fn raw_fields_do_not_truncate_long_values() {
    let mut base = match test_event() {
        OcsfEvent::Base(event) => event.base,
        other => panic!("unexpected variant: {other:?}"),
    };
    let long_message = "x".repeat(MAX_VALUE_LEN * 4);
    base.set_message(&long_message);
    let event = OcsfEvent::Base(BaseEvent { base });

    let fields = raw_event_fields(&event);
    let parsed: serde_json::Value = serde_json::from_str(fields.get(RAW_KEY).unwrap()).unwrap();
    assert_eq!(
        parsed.get("message").and_then(|m| m.as_str()),
        Some(long_message.as_str()),
        "raw form must never truncate"
    );
}

#[test]
fn long_values_are_truncated_and_marked() {
    let long = "x".repeat(MAX_VALUE_LEN + 50);
    let out = flatten_text("ocsf", &format!("{{\"reason\": \"{long}\"}}"));

    let stored = out.get("ocsf.reason").expect("reason kept");
    assert_eq!(stored.chars().count(), MAX_VALUE_LEN + 1);
    assert!(stored.ends_with(TRUNCATION_SUFFIX));
}

#[test]
fn truncation_does_not_split_a_multibyte_character() {
    // Truncating by bytes here would panic or produce invalid UTF-8.
    let long = "é".repeat(MAX_VALUE_LEN + 10);
    let out = flatten_text("ocsf", &format!("{{\"reason\": \"{long}\"}}"));

    let stored = out.get("ocsf.reason").expect("reason kept");
    assert_eq!(stored.chars().count(), MAX_VALUE_LEN + 1);
    assert!(stored.starts_with('é'));
}

#[test]
fn a_value_of_the_longest_length_is_kept_whole() {
    let exact = "é".repeat(MAX_VALUE_LEN);
    assert_eq!(truncate(exact.clone()), exact);
    let cut = truncate("ab".repeat(MAX_VALUE_LEN));
    assert_eq!(cut, format!("{}…", "ab".repeat(MAX_VALUE_LEN / 2)));
    assert_eq!(truncate(String::new()), "");
}

#[test]
fn truncating_twice_is_truncating_once() {
    let once = truncate("y".repeat(300));
    assert_eq!(truncate(once.clone()), once);
}

#[test]
fn scalars_render_without_quotes() {
    let out = flatten_text(
        "p",
        "{\"t\": \"text\", \"yes\": true, \"no\": false, \"i\": -42, \"max\": 9223372036854775807, \
         \"f\": 1.5, \"e\": 1e300, \"big\": 18446744073709551615, \"empty\": \"\"}",
    );
    assert_eq!(field(&out, "p.t"), Some("text"));
    assert_eq!(field(&out, "p.yes"), Some("true"));
    assert_eq!(field(&out, "p.no"), Some("false"));
    assert_eq!(field(&out, "p.i"), Some("-42"));
    assert_eq!(field(&out, "p.max"), Some("9223372036854775807"));
    assert_eq!(field(&out, "p.f"), Some("1.5"));
    assert_eq!(field(&out, "p.e"), Some("1e300"));
    // An integer goes by its digits, beyond the range of a signed one too.
    assert_eq!(field(&out, "p.big"), Some("18446744073709551615"));
    assert_eq!(field(&out, "p.empty"), Some(""));
}

#[test]
fn joined_arrays_skip_nulls_only() {
    let out = flatten_text(
        "p",
        "{\"a\": [1, null, true, \"x\"], \"nulls\": [null, null], \"lead\": [\"\", \"b\"], \
         \"mid\": [\"a\", \"\", \"b\"], \"empty\": [\"\"], \"late\": [null, \"\", null, 7], \
         \"big\": [\"a\", 18446744073709551615]}",
    );
    assert_eq!(field(&out, "p.a"), Some("1,true,x"));
    assert_eq!(field(&out, "p.nulls"), None);
    assert_eq!(field(&out, "p.lead"), Some(",b"));
    assert_eq!(field(&out, "p.mid"), Some("a,,b"));
    assert_eq!(field(&out, "p.empty"), Some(""));
    assert_eq!(field(&out, "p.late"), Some(",7"));
    assert_eq!(field(&out, "p.big"), Some("a,18446744073709551615"));
    assert_eq!(out.len(), 6);
}

#[test]
fn mixed_arrays_are_indexed_throughout() {
    let out = flatten_text("p", "[1, [2, 3], {\"k\": null}, [[4]]]");
    assert_eq!(field(&out, "p.0"), Some("1"));
    assert_eq!(field(&out, "p.1"), Some("2,3"));
    assert_eq!(field(&out, "p.3.0"), Some("4"));
    assert_eq!(out.len(), 3);
}

#[test]
fn a_later_key_of_the_same_path_wins() {
    let out = flatten_text("p", "{\"a\": {\"b\": 1}, \"a.b\": 2}");
    assert_eq!(out.len(), 1);
    assert_eq!(field(&out, "p.a.b"), Some("2"));
}

#[test]
fn a_document_that_could_not_be_written_leaves_no_fields() {
    assert!(raw_fields(None, SeverityId::High).is_empty());
    let fields = raw_fields(Some("{}".to_string()), SeverityId::Critical);
    assert_eq!(field(&fields, RAW_KEY), Some("{}"));
    assert_eq!(field(&fields, SEVERITY_ID_KEY), Some("5"));
}

#[test]
fn integers_go_by_their_digits() {
    assert_eq!(number_text(Some(-7), None, Some("-7.0".to_string())), "-7");
    assert_eq!(number_text(Some(7), Some(7), None), "7");
    assert_eq!(number_text(Some(i64::MIN), None, None), "-9223372036854775808");
    assert_eq!(number_text(None, Some(u64::MAX), None), "18446744073709551615");
    assert_eq!(number_text(None, None, Some("0.5".to_string())), "0.5");
    assert_eq!(number_text(None, None, None), "");
}

#[test]
fn raw_fields_read_back_into_the_document() {
    let mut event = test_event();
    assert_eq!(raw_document(&raw_event_fields(&event)), Some(event.to_json()));
    event.set_time(-5);
    let fields = raw_event_fields(&event);
    let document = raw_document(&fields).unwrap();
    assert_eq!(document, event.to_json());
    assert_eq!(document["time"], serde_json::Value::from(-5));
    assert_eq!(document["metadata"]["profiles"][1], serde_json::Value::from("host"));

    let mut broken = FieldMap::new();
    assert_eq!(raw_document(&broken), None);
    broken.insert(RAW_KEY.to_string(), "{".to_string());
    assert_eq!(raw_document(&broken), None);
}

#[test]
fn flattened_leaves_stand_under_their_dotted_paths() {
    let long = "x".repeat(MAX_VALUE_LEN + 9);
    let text = format!(
        "{{\"o\": {{\"n\": null, \"e\": [], \"k\": {{}}}}, \"l\": \"{long}\", \
         \"m\": [{{\"z\": 1}}, null, \"s\"]}}"
    );
    let out = flatten_text("p", &text);
    let cut = field(&out, "p.l").unwrap();
    assert_eq!(cut.chars().count(), MAX_VALUE_LEN + 1);
    assert!(cut.ends_with(TRUNCATION_SUFFIX));
    assert_eq!(field(&out, "p.m.0.z"), Some("1"));
    assert_eq!(field(&out, "p.m.2"), Some("s"));
    assert_eq!(out.len(), 3, "nothing stands at a null, an empty array or an object");
}
