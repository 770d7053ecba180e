use openshell_telemetry::ocsf::enums::{
    AuthActivityId, AuthProtocolId, EntityActivityId, SeverityId, StateId, StatusId, UserTypeId,
};
use openshell_telemetry::ocsf::objects::{
    Actor, Container, Device, Endpoint, FindingInfo, ManagedEntity, Metadata, Product, User,
};

#[test]
fn entity_activity_values_and_labels() {
    assert_eq!(EntityActivityId::Create.as_u8(), 1);
    assert_eq!(EntityActivityId::Delete.as_u8(), 4);
    assert_eq!(EntityActivityId::Update.label(), "Update");
    assert_eq!(EntityActivityId::Other.as_u8(), 99);
}

#[test]
fn display_prefers_name_then_uid() {
    assert_eq!(
        ManagedEntity::new("workspace", "ws-1")
            .with_name("team-a")
            .display(),
        "team-a"
    );
    assert_eq!(ManagedEntity::new("workspace", "ws-1").display(), "ws-1");
}

#[test]
fn display_falls_back_to_the_type() {
    let entity = ManagedEntity {
        entity_type: "workspace".to_string(),
        uid: None,
        name: None,
    };
    assert_eq!(entity.display(), "workspace");
    assert_eq!(entity.to_json().to_string(), "{\"type\":\"workspace\"}");
}

#[test]
fn named_user_omits_uid() {
    let json = User::named("anonymous").to_json();
    assert!(json.get("uid").is_none());
    assert_eq!(json["type_id"], 0);
}

#[test]
fn untyped_user_omits_the_type_pair() {
    let user = User {
        name: "bob".to_string(),
        uid: Some("u-1".to_string()),
        type_id: None,
    };
    assert_eq!(user.to_json().to_string(), "{\"name\":\"bob\",\"uid\":\"u-1\"}");
}

#[test]
fn user_type_ids_and_labels() {
    let all = [
        (UserTypeId::Unknown, 0, "Unknown"),
        (UserTypeId::User, 1, "User"),
        (UserTypeId::Admin, 2, "Admin"),
        (UserTypeId::System, 3, "System"),
        (UserTypeId::Other, 99, "Other"),
    ];
    for (type_id, id, label) in all {
        assert_eq!(type_id.as_u8(), id);
        assert_eq!(type_id.label(), label);
        assert_eq!(UserTypeId::from_u8(id), type_id);
    }
    assert_eq!(UserTypeId::from_u8(42), UserTypeId::Unknown);
}

#[test]
fn other_enums_have_their_ids() {
    assert_eq!(SeverityId::Fatal.as_u8(), 6);
    assert_eq!(SeverityId::Informational.label(), "Informational");
    assert_eq!(StatusId::Failure.as_u8(), 2);
    assert_eq!(StatusId::Success.label(), "Success");
    assert_eq!(AuthActivityId::Logon.as_u8(), 1);
    assert_eq!(AuthProtocolId::OpenId.as_u8(), 4);
    assert_eq!(AuthProtocolId::OpenId.label(), "OpenID");
    assert_eq!(StateId::Other.as_u8(), 99);
}

#[test]
fn nested_objects_serialize_by_their_schema_names() {
    let actor = Actor::from_user(User::new("alice", "a-1", UserTypeId::Admin));
    assert_eq!(actor.to_json()["user"]["type"], "Admin");
    let endpoint = Endpoint::from_ip("10.0.0.9", 51044);
    assert_eq!(endpoint.to_json().to_string(), "{\"ip\":\"10.0.0.9\",\"port\":51044}");
    let metadata = Metadata {
        version: "1.7.0".to_string(),
        product: Product::openshell_sandbox("0.1.0"),
        profiles: vec!["container".to_string(), "host".to_string()],
        uid: None,
        log_source: None,
    };
    let json = metadata.to_json();
    assert_eq!(json["profiles"][1], "host");
    assert_eq!(json["product"]["version"], "0.1.0");
    assert!(json.get("uid").is_none());
    assert_eq!(Device { hostname: "h".to_string() }.to_json()["hostname"], "h");
    let container = Container { name: "n".to_string(), image: "i".to_string() };
    assert_eq!(container.to_json()["image"], "i");
    let info = FindingInfo::new("F-1", "title").with_desc("what");
    assert_eq!(
        info.to_json().to_string(),
        "{\"desc\":\"what\",\"title\":\"title\",\"uid\":\"F-1\"}"
    );
}
