use openshell_telemetry::otlp::{
    endpoint_transport, log_exporter_for, ocsf_full_payload, setup_error, transport_for,
    wants_log_export, OtlpConfig, Transport,
};
use openshell_telemetry::string_map::FieldMap;

#[test]
fn a_pipeline_that_cannot_be_built_is_off_with_its_error() {
    assert_eq!(log_exporter_for::<u8, &str>(None), (None, None));
    assert_eq!(log_exporter_for::<u8, &str>(Some(Ok(3))), (Some(3), None));
    assert_eq!(log_exporter_for::<u8, &str>(Some(Err("bad"))), (None, Some("bad")));
}

#[test]
fn the_trace_error_takes_precedence() {
    assert_eq!(setup_error(Some("trace"), Some("log")), Some("trace"));
    assert_eq!(setup_error(None, Some("log")), Some("log"));
    assert_eq!(setup_error::<&str>(None, None), None);
}

#[test]
fn export_options_default_to_off() {
    assert!(!ocsf_full_payload(None));
    assert!(!wants_log_export(None));
    let config = OtlpConfig { export_logs: true, ocsf_full_payload: false };
    assert!(wants_log_export(Some(config)));
    assert!(!ocsf_full_payload(Some(config)));
    let full = OtlpConfig { export_logs: false, ocsf_full_payload: true };
    assert!(ocsf_full_payload(Some(full)));
}

#[test]
fn maps_overwrite_in_place_and_forget() {
    let mut map = FieldMap::new();
    assert!(map.is_empty());
    map.insert("a".to_string(), "1".to_string());
    map.insert("b".to_string(), "2".to_string());
    map.insert("a".to_string(), "3".to_string());
    assert_eq!(map.len(), 2);
    assert_eq!(map.key_at(0), "a");
    assert_eq!(map.value_at(0), "3");
    let copy = map.clone();
    assert_eq!(map.remove("a").as_deref(), Some("3"));
    assert_eq!(map.remove("a"), None);
    assert_eq!(map.get("a"), None);
    assert_eq!(copy.get("a").map(String::as_str), Some("3"));
}

#[test]
fn endpoints_need_a_web_scheme_and_an_authority() {
    assert_eq!(
        endpoint_transport("https://collector.example.com:4317"),
        Some(Transport::Tls)
    );
    assert_eq!(endpoint_transport("http://127.0.0.1:4317"), Some(Transport::Plain));
    for bad in ["definitely not a url", "", "/path", "ftp://host", "collector:4317"] {
        assert_eq!(endpoint_transport(bad), None, "{bad}");
    }
    let https = Some("https".to_string());
    assert_eq!(transport_for(&https, &None), None);
    assert_eq!(transport_for(&None, &https), None);
    assert_eq!(transport_for(&https, &https), Some(Transport::Tls));
}
