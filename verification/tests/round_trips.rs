use openshell_telemetry::ocsf::attributes::{raw_document, raw_event_fields};
use openshell_telemetry::ocsf::enums::{AuthProtocolId, SeverityId, StatusId, UserTypeId};
use openshell_telemetry::ocsf::events::{
    AuthenticationEvent, BaseEventData, EntityManagementEvent, OcsfEvent,
};
use openshell_telemetry::ocsf::objects::{
    Actor, Container, Device, Endpoint, ManagedEntity, Metadata, Product, User,
};

fn parse(text: &str) -> serde_json::Value {
    serde_json::from_str(text).unwrap()
}

#[test]
fn user_serializes_type_pair_and_round_trips() {
    let user = User::new("alice", "oidc|alice-123", UserTypeId::User);
    let json = user.to_json();
    assert_eq!(json["name"], "alice");
    assert_eq!(json["uid"], "oidc|alice-123");
    assert_eq!(json["type_id"], 1);
    assert_eq!(json["type"], "User");

    let back = User::from_json(&json).unwrap();
    assert_eq!(back, user);
}

#[test]
fn entity_round_trips_with_type_key() {
    let entity = ManagedEntity::new("workspace", "ws-1").with_name("team-a");
    let json = entity.to_json();
    assert_eq!(json["type"], "workspace");
    assert_eq!(json["uid"], "ws-1");
    assert_eq!(json["name"], "team-a");
    let back = ManagedEntity::from_json(&json).unwrap();
    assert_eq!(back, entity);
}

#[test]
fn authentication_failure_round_trips() {
    let mut base = BaseEventData::new(
        3002,
        "Authentication",
        3,
        "Identity & Access Management",
        1,
        "Logon",
        SeverityId::Medium,
        Metadata {
            version: "1.7.0".to_string(),
            product: Product::openshell_sandbox("0.1.0"),
            profiles: vec!["security_control".to_string()],
            uid: None,
            log_source: None,
        },
    );
    base.set_status(StatusId::Failure);
    base.set_status_detail("token expired");

    let event = AuthenticationEvent {
        base,
        user: Some(User::named("oidc|alice-123")),
        auth_protocol: Some(AuthProtocolId::OpenId),
        src_endpoint: None,
    };

    let json = OcsfEvent::Authentication(event.clone()).to_json();
    assert_eq!(json["class_uid"], 3002);
    assert_eq!(json["type_uid"], 300_201);
    assert_eq!(json["auth_protocol_id"], 4);
    assert_eq!(json["auth_protocol"], "OpenID");
    assert_eq!(json["status_detail"], "token expired");

    let back = AuthenticationEvent::from_json(&json).unwrap();
    assert_eq!(back, event);
}

#[test]
fn entity_management_round_trips() {
    let base = BaseEventData::new(
        3004,
        "Entity Management",
        3,
        "Identity & Access Management",
        1,
        "Create",
        SeverityId::Informational,
        Metadata {
            version: "1.7.0".to_string(),
            product: Product::openshell_sandbox("0.1.0"),
            profiles: vec!["security_control".to_string()],
            uid: None,
            log_source: None,
        },
    );
    let event = EntityManagementEvent {
        base,
        entity: ManagedEntity::new("workspace", "ws-1").with_name("team-a"),
        actor: Some(Actor::from_user(User::new(
            "alice",
            "oidc|alice-123",
            UserTypeId::User,
        ))),
    };

    let json = OcsfEvent::EntityManagement(event.clone()).to_json();
    assert_eq!(json["class_uid"], 3004);
    assert_eq!(json["type_uid"], 300_401);
    assert_eq!(json["entity"]["type"], "workspace");
    assert_eq!(json["actor"]["user"]["uid"], "oidc|alice-123");
    assert!(
        json["actor"].get("process").is_none(),
        "user actors serialize without a process"
    );

    let back = EntityManagementEvent::from_json(&json).unwrap();
    assert_eq!(back, event);
}

#[test]
fn everything_optional_round_trips() {
    let mut base = BaseEventData::new(
        3002,
        "Authentication",
        3,
        "Identity & Access Management",
        2,
        "Logoff",
        SeverityId::Fatal,
        Metadata {
            version: "1.7.0".to_string(),
            product: Product::openshell_sandbox("0.1.0"),
            profiles: vec![],
            uid: Some("sb-1".to_string()),
            log_source: Some("src".to_string()),
        },
    );
    base.set_time(-1);
    base.set_status(StatusId::Other);
    base.set_message("m");
    base.device = Some(Device { hostname: "h".to_string() });
    base.container = Some(Container { name: "n".to_string(), image: "i".to_string() });
    base.unmapped = Some(parse("{\"k\":[1,null]}"));
    let event = AuthenticationEvent {
        base,
        user: None,
        auth_protocol: None,
        src_endpoint: Some(Endpoint::from_ip("::1", 65535)),
    };
    let json = OcsfEvent::Authentication(event.clone()).to_json();
    assert_eq!(AuthenticationEvent::from_json(&json).unwrap(), event);
    // An Authentication document has no entity.
    assert!(EntityManagementEvent::from_json(&json).is_none());
}

#[test]
fn readers_ignore_the_unknown_and_refuse_the_wrong_kind() {
    let user = User::from_json(&parse("{\"name\":\"a\",\"uid\":null,\"extra\":1,\"type_id\":7}"));
    assert_eq!(
        user,
        Some(User { name: "a".to_string(), uid: None, type_id: Some(UserTypeId::Unknown) })
    );
    let untyped = User::from_json(&parse("{\"name\":\"a\",\"type_id\":null}")).unwrap();
    assert_eq!(untyped.type_id, None);
    for bad in [
        "{}",
        "{\"name\":1}",
        "{\"name\":\"a\",\"uid\":2}",
        "{\"name\":\"a\",\"type_id\":256}",
        "{\"name\":\"a\",\"type_id\":-1}",
        "{\"name\":\"a\",\"type_id\":1.0}",
        "{\"name\":\"a\",\"type_id\":\"1\"}",
        "\"a\"",
    ] {
        assert!(User::from_json(&parse(bad)).is_none(), "{bad}");
    }
    assert!(ManagedEntity::from_json(&parse("{\"uid\":\"x\"}")).is_none());
    assert!(ManagedEntity::from_json(&parse("{\"type\":\"t\",\"name\":[]}")).is_none());
    assert!(Endpoint::from_json(&parse("{\"ip\":\"x\",\"port\":65536}")).is_none());
    assert!(Actor::from_json(&parse("{\"user\":null}")).is_none());
    assert!(Metadata::from_json(&parse("{\"version\":\"1\",\"profiles\":[\"a\",2]}")).is_none());
}

#[test]
fn users_and_entities_read_from_arrays_of_their_fields() {
    assert_eq!(
        User::from_json(&parse("[\"alice\",\"oidc|1\",2]")),
        Some(User::new("alice", "oidc|1", UserTypeId::Admin))
    );
    let bare = User { name: "a".to_string(), uid: None, type_id: None };
    for text in ["[\"a\"]", "[\"a\",null]", "[\"a\",null,null]"] {
        assert_eq!(User::from_json(&parse(text)), Some(bare.clone()), "{text}");
    }
    assert_eq!(
        ManagedEntity::from_json(&parse("[\"workspace\",\"ws-1\",\"team-a\"]")),
        Some(ManagedEntity::new("workspace", "ws-1").with_name("team-a"))
    );
    assert_eq!(
        ManagedEntity::from_json(&parse("[\"workspace\",\"ws-1\"]")),
        Some(ManagedEntity::new("workspace", "ws-1"))
    );
    for bad in ["[]", "[1]", "[null]", "[\"a\",2]", "[\"a\",null,\"x\",null]"] {
        assert!(User::from_json(&parse(bad)).is_none(), "{bad}");
        assert!(ManagedEntity::from_json(&parse(bad)).is_none(), "{bad}");
    }
}

#[test]
fn an_entity_event_is_written_in_field_order() {
    let mut base = BaseEventData::new(
        3004,
        "Entity Management",
        3,
        "Identity & Access Management",
        1,
        "Create",
        SeverityId::Low,
        Metadata {
            version: "1.7.0".to_string(),
            product: Product::openshell_sandbox("0.1.0"),
            profiles: vec!["b".to_string(), "a".to_string()],
            uid: None,
            log_source: None,
        },
    );
    base.set_message("say \"hi\"");
    base.unmapped = Some(parse("{\"z\":1,\"a\":0.5}"));
    let event = OcsfEvent::EntityManagement(EntityManagementEvent {
        base,
        entity: ManagedEntity::new("workspace", "ws-1").with_name("team-a"),
        actor: Some(Actor::from_user(User::new("alice", "oidc|1", UserTypeId::User))),
    });
    let text = event.to_text().unwrap();
    assert!(text.starts_with("{\"class_uid\":3004,\"class_name\":\"Entity Management\","));
    assert!(text.contains("\"message\":\"say \\\"hi\\\"\",\"metadata\":{\"version\":\"1.7.0\","));
    assert!(text.contains("\"profiles\":[\"b\",\"a\"]},\"unmapped\":{\"a\":0.5,\"z\":1},"));
    assert!(text.ends_with(
        "\"entity\":{\"type\":\"workspace\",\"uid\":\"ws-1\",\"name\":\"team-a\"},\
         \"actor\":{\"user\":{\"name\":\"alice\",\"uid\":\"oidc|1\",\"type_id\":1,\"type\":\"User\"}}}"
    ));
    assert_eq!(parse(&text), event.to_json());
    assert_eq!(raw_document(&raw_event_fields(&event)), Some(event.to_json()));
}

#[test]
fn an_authentication_event_is_written_in_name_order() {
    let base = BaseEventData::new(
        3002,
        "Authentication",
        3,
        "Identity & Access Management",
        1,
        "Logon",
        SeverityId::Medium,
        Metadata {
            version: "1.7.0".to_string(),
            product: Product::openshell_sandbox("0.1.0"),
            profiles: vec!["security_control".to_string()],
            uid: None,
            log_source: None,
        },
    );
    let event = OcsfEvent::Authentication(AuthenticationEvent {
        base,
        user: Some(User::named("bob")),
        auth_protocol: Some(AuthProtocolId::OpenId),
        src_endpoint: None,
    });
    let text = event.to_text().unwrap();
    assert!(text.starts_with("{\"activity_id\":1,\"activity_name\":\"Logon\",\"auth_protocol\":"));
    assert!(text.ends_with("\"user\":{\"name\":\"bob\",\"type\":\"Unknown\",\"type_id\":0}}"));
    assert_eq!(parse(&text), event.to_json());
}

#[test]
fn an_unmapped_null_reads_as_nothing() {
    let mut base = BaseEventData::new(
        3004,
        "Entity Management",
        3,
        "Identity & Access Management",
        1,
        "Create",
        SeverityId::Low,
        Metadata {
            version: "1.7.0".to_string(),
            product: Product::openshell_sandbox("0.1.0"),
            profiles: vec!["a".to_string()],
            uid: None,
            log_source: None,
        },
    );
    base.unmapped = Some(serde_json::Value::Null);
    let event = EntityManagementEvent {
        base,
        entity: ManagedEntity::new("t", "u"),
        actor: None,
    };
    let json = OcsfEvent::EntityManagement(event).to_json();
    let mut broken = json.clone();
    assert_eq!(EntityManagementEvent::from_json(&json).unwrap().base.unmapped, None);
    broken["severity_id"] = serde_json::Value::from(7);
    assert!(EntityManagementEvent::from_json(&broken).is_none());
}
