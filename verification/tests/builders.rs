use openshell_telemetry::ocsf::builders::{
    AuthenticationBuilder, ConfigStateChangeBuilder, DetectionFindingBuilder,
    EntityManagementBuilder, SandboxContext,
};
use openshell_telemetry::ocsf::enums::{
    AuthActivityId, AuthProtocolId, EntityActivityId, SeverityId, StateId, StatusId, UserTypeId,
};
use openshell_telemetry::ocsf::objects::{Endpoint, FindingInfo, ManagedEntity, User};
use openshell_telemetry::ocsf::shorthand::severity_id_from_shorthand;

fn test_sandbox_context() -> SandboxContext {
    SandboxContext {
        sandbox_id: "sandbox-abc123".to_string(),
        sandbox_name: "my-sandbox".to_string(),
        container_image: "ghcr.io/openshell/sandbox:latest".to_string(),
        hostname: "sandbox-abc123".to_string(),
        product_version: "0.1.0".to_string(),
        proxy_ip: "10.42.0.1".to_string(),
        proxy_port: 3128,
    }
}

#[test]
fn authentication_failure_builder_produces_audit_event() {
    let ctx = test_sandbox_context();
    let event = AuthenticationBuilder::new(&ctx)
        .auth_protocol(AuthProtocolId::OpenId)
        .user(User::named("oidc|alice-123"))
        .src_endpoint(Endpoint::from_ip("10.0.0.9", 51044))
        .status(StatusId::Failure)
        .status_detail("token expired")
        .message("OIDC token rejected")
        .build();

    let json = event.to_json();
    assert_eq!(json["class_uid"], 3002);
    assert_eq!(json["activity_id"], 1);
    assert_eq!(json["auth_protocol_id"], 4);
    assert_eq!(json["status_detail"], "token expired");
    assert_eq!(json["user"]["name"], "oidc|alice-123");

    let line = event.format_shorthand();
    assert!(
        line.starts_with("AUTHN:LOGON [MED] FAILED openid user:oidc|alice-123 from 10.0.0.9:51044"),
        "unexpected shorthand: {line}"
    );
    assert!(
        line.contains("[reason:token expired]"),
        "reason missing: {line}"
    );
}

#[test]
fn entity_management_builder_produces_audit_event() {
    let ctx = test_sandbox_context();
    let event = EntityManagementBuilder::new(&ctx)
        .activity(EntityActivityId::Create)
        .entity(ManagedEntity::new("workspace", "ws-1").with_name("team-a"))
        .actor_user(User::new("alice", "oidc|alice-123", UserTypeId::User))
        .status(StatusId::Success)
        .unmapped("request_id", serde_json::Value::from("req-42"))
        .message("workspace team-a created")
        .build();

    let json = event.to_json();
    assert_eq!(json["class_uid"], 3004);
    assert_eq!(json["activity_id"], 1);
    assert_eq!(json["type_uid"], 300_401);
    assert_eq!(json["category_uid"], 3);
    assert_eq!(json["entity"]["type"], "workspace");
    assert_eq!(json["entity"]["name"], "team-a");
    assert_eq!(json["actor"]["user"]["name"], "alice");
    assert_eq!(json["unmapped"]["request_id"], "req-42");

    let line = event.format_shorthand();
    assert!(
        line.starts_with("ENTITY:CREATE [INFO] workspace \"team-a\" by alice"),
        "unexpected shorthand: {line}"
    );
}

#[test]
fn failed_operations_render_failed_in_shorthand() {
    let ctx = test_sandbox_context();
    let event = EntityManagementBuilder::new(&ctx)
        .activity(EntityActivityId::Delete)
        .entity(ManagedEntity::new("provider", "aws-prod"))
        .status(StatusId::Failure)
        .build();
    let line = event.format_shorthand();
    assert!(
        line.starts_with("ENTITY:DELETE [INFO] FAILED provider \"aws-prod\""),
        "unexpected shorthand: {line}"
    );
}

#[test]
fn an_unset_entity_is_an_unmistakable_placeholder() {
    let ctx = test_sandbox_context();
    let event = EntityManagementBuilder::new(&ctx).build();
    let json = event.to_json();
    assert_eq!(json["entity"]["type"], "unknown");
    assert_eq!(json["entity"]["uid"], "unknown");
    assert!(json.get("actor").is_none());
    assert!(json.get("status_id").is_none());
    assert!(json.get("unmapped").is_none());
    assert_eq!(event.format_shorthand(), "ENTITY:OTHER [INFO] unknown \"unknown\"");
}

#[test]
fn the_context_shows_in_every_event() {
    let ctx = test_sandbox_context();
    let json = AuthenticationBuilder::new(&ctx)
        .activity(AuthActivityId::Logoff)
        .unmapped("b", serde_json::Value::from(2))
        .unmapped("a", serde_json::Value::from(1))
        .unmapped("b", serde_json::Value::from(3))
        .build()
        .to_json();
    assert_eq!(json["metadata"]["uid"], "sandbox-abc123");
    assert_eq!(json["metadata"]["version"], "1.7.0");
    assert_eq!(json["metadata"]["profiles"][0], "security_control");
    assert_eq!(json["device"]["hostname"], "sandbox-abc123");
    assert_eq!(json["container"]["name"], "my-sandbox");
    assert_eq!(json["type_uid"], 300_202);
    assert_eq!(json["type_name"], "Authentication: Logoff");
    assert_eq!(json["severity_id"], 3);
    assert_eq!(json["unmapped"].to_string(), "{\"a\":1,\"b\":3}");
    let mut nameless = test_sandbox_context();
    nameless.sandbox_id = String::new();
    let json = AuthenticationBuilder::new(&nameless).build().to_json();
    assert!(json["metadata"].get("uid").is_none());
}

#[test]
fn config_changes_read_as_their_label() {
    let ctx = test_sandbox_context();
    let event = ConfigStateChangeBuilder::new(&ctx)
        .state(StateId::Other, "inference_route_set")
        .actor_user(User::named("ops"))
        .severity(SeverityId::Low)
        .status(StatusId::Failure)
        .message("route rejected")
        .unmapped("route", serde_json::Value::from("r-1"))
        .build();
    let json = event.to_json();
    assert_eq!(json["class_uid"], 5019);
    assert_eq!(json["state"], "inference_route_set");
    assert_eq!(json["state_id"], 99);
    assert_eq!(json["unmapped"]["route"], "r-1");
    assert_eq!(
        event.format_shorthand(),
        "CONFIG:inference_route_set [LOW] FAILED route rejected"
    );
}

#[test]
fn findings_carry_their_evidence() {
    let ctx = test_sandbox_context();
    let event = DetectionFindingBuilder::new(&ctx)
        .finding_info(FindingInfo::new("F-1", "Something odd"))
        .severity(SeverityId::Critical)
        .is_alert(true)
        .evidence_pairs(&[("who", "sb-1"), ("what", "op")])
        .status(StatusId::Success)
        .message("seen")
        .build();
    let json = event.to_json();
    assert_eq!(json["class_uid"], 2004);
    assert_eq!(json["is_alert"], true);
    assert_eq!(json["evidences"]["who"], "sb-1");
    assert_eq!(json["finding_info"]["title"], "Something odd");
    assert_eq!(event.format_shorthand(), "FINDING [CRIT] \"Something odd\"");
    let bare = DetectionFindingBuilder::new(&ctx).build();
    assert_eq!(bare.to_json()["finding_info"]["uid"], "unknown");
}

#[test]
fn severities_read_back_from_the_line() {
    let ctx = test_sandbox_context();
    let ranks = [
        (SeverityId::Unknown, 1),
        (SeverityId::Informational, 1),
        (SeverityId::Low, 2),
        (SeverityId::Medium, 3),
        (SeverityId::High, 4),
        (SeverityId::Critical, 5),
        (SeverityId::Fatal, 6),
        (SeverityId::Other, 1),
    ];
    for (severity, rank) in ranks {
        let line = EntityManagementBuilder::new(&ctx)
            .severity(severity)
            .build()
            .format_shorthand();
        assert_eq!(severity_id_from_shorthand(&line), Some(rank), "{line}");
    }
    assert_eq!(severity_id_from_shorthand(""), None);
    assert_eq!(severity_id_from_shorthand("[HIGH]"), None);
    assert_eq!(severity_id_from_shorthand("A B [HIGH]"), None);
    assert_eq!(severity_id_from_shorthand("A [HIGHER]"), None);
    assert_eq!(severity_id_from_shorthand("A [HIGH]"), Some(4));
}
