use openshell_telemetry::audit::{
    actor_user, audited_failure, ctx, ctx_for_sandbox, emit_authn_failure, emit_authn_success,
    emit_config_outcome, emit_cross_sandbox_finding, emit_entity, emit_entity_outcome,
    emit_entity_outcome_judged, emit_sandbox_admin_attempt_finding, emit_system_entity,
    is_credential_like_key, principal, request_id, system_actor, AuthnOutcome, ConfigOutcome,
    EntityOutcome, GatewayAuditConfig, SystemEntityOutcome,
};
use openshell_telemetry::ocsf::enums::{EntityActivityId, UserTypeId};
use openshell_telemetry::ocsf::objects::ManagedEntity;
use openshell_telemetry::principal::{
    Identity, IdentityProvider, Principal, SandboxIdentitySource, SandboxPrincipal, UserPrincipal,
};

const ON: GatewayAuditConfig = GatewayAuditConfig {
    enabled: true,
    auth_success_events: true,
};
const QUIET: GatewayAuditConfig = GatewayAuditConfig {
    enabled: true,
    auth_success_events: false,
};
const OFF: GatewayAuditConfig = GatewayAuditConfig {
    enabled: false,
    auth_success_events: true,
};

fn sandbox_principal(id: &str) -> Principal {
    Principal::Sandbox(SandboxPrincipal {
        sandbox_id: id.to_string(),
        source: SandboxIdentitySource::BootstrapJwt {
            issuer: "gateway".to_string(),
        },
        trust_domain: None,
    })
}

fn entity_outcome<'a>(
    principal: &'a Principal,
    sandbox: Option<(&'a str, &'a str)>,
) -> EntityOutcome<'a> {
    EntityOutcome {
        activity: EntityActivityId::Update,
        entity: ManagedEntity::new("provider", "p-1"),
        sandbox,
        principal,
        request_id: Some("req-9"),
        success_message: "provider updated".to_string(),
        failure_message: "provider update failed".to_string(),
        unmapped: vec![
            ("workspace", serde_json::Value::from("ws-1")),
            ("request_id", serde_json::Value::from("shadowed")),
        ],
    }
}

fn authn_outcome<'a>(mechanism: &'a str) -> AuthnOutcome<'a> {
    AuthnOutcome {
        mechanism,
        reason: Some("rejected_credential"),
        detail: Some("token expired"),
        principal: None,
        peer_addr: Some(("10.0.0.9", 51044)),
        path: "/openshell.v1.OpenShell/Get",
        request_id: Some("req-1"),
    }
}

#[test]
fn user_principals_map_subject_and_display_name() {
    let principal = Principal::User(UserPrincipal {
        identity: Identity {
            subject: "oidc|alice-123".to_string(),
            display_name: Some("alice".to_string()),
            roles: vec!["admin".to_string()],
            scopes: vec![],
            provider: IdentityProvider::Oidc,
        },
    });
    let user = actor_user(&principal);
    assert_eq!(user.name, "alice");
    assert_eq!(user.uid.as_deref(), Some("oidc|alice-123"));
    assert_eq!(user.type_id, Some(UserTypeId::User));
}

#[test]
fn user_principals_without_display_name_use_the_subject() {
    let principal = Principal::User(UserPrincipal {
        identity: Identity {
            subject: "CN=ops-cert".to_string(),
            display_name: None,
            roles: vec![],
            scopes: vec![],
            provider: IdentityProvider::Mtls,
        },
    });
    assert_eq!(actor_user(&principal).name, "CN=ops-cert");
}

#[test]
fn sandbox_principals_are_service_actors_under_their_sandbox_id() {
    let principal = Principal::Sandbox(SandboxPrincipal {
        sandbox_id: "sb-7f3a".to_string(),
        source: SandboxIdentitySource::BootstrapJwt {
            issuer: "gateway".to_string(),
        },
        trust_domain: None,
    });
    let user = actor_user(&principal);
    assert_eq!(user.name, "sandbox:sb-7f3a");
    assert_eq!(user.uid.as_deref(), Some("sb-7f3a"));
    assert_eq!(user.type_id, Some(UserTypeId::Other));
}

#[test]
fn anonymous_principals_are_named_honestly() {
    let user = actor_user(&Principal::Anonymous);
    assert_eq!(user.name, "anonymous");
    assert!(user.uid.is_none());
}

#[test]
fn requests_without_a_principal_audit_as_anonymous() {
    let request = tonic::Request::new(());
    assert!(matches!(
        principal(request.extensions()),
        Principal::Anonymous
    ));
}

#[test]
fn the_principal_of_a_request_is_the_one_it_holds() {
    let mut request = tonic::Request::new(());
    request.extensions_mut().insert(sandbox_principal("sb-1"));
    match principal(request.extensions()) {
        Principal::Sandbox(sandbox) => assert_eq!(sandbox.sandbox_id, "sb-1"),
        other => panic!("unexpected principal: {other:?}"),
    }
}

#[test]
fn request_id_reads_the_x_request_id_header() {
    let mut request = tonic::Request::new(());
    assert_eq!(request_id(request.metadata()), None);
    request
        .metadata_mut()
        .insert("x-request-id", "req-42".parse().unwrap());
    assert_eq!(request_id(request.metadata()).as_deref(), Some("req-42"));
}

#[test]
fn a_request_id_that_is_no_text_is_ignored() {
    let mut request = tonic::Request::new(());
    let value = tonic::metadata::MetadataValue::try_from(&b"req-\xff"[..]).unwrap();
    request.metadata_mut().insert("x-request-id", value);
    assert_eq!(request_id(request.metadata()), None);
    request
        .metadata_mut()
        .insert("x-request-id", "tab\there".parse().unwrap());
    assert_eq!(request_id(request.metadata()).as_deref(), Some("tab\there"));
}

#[test]
fn authz_denials_are_not_audited_as_mutation_failures() {
    assert!(!audited_failure(&tonic::Status::permission_denied("no")));
    assert!(!audited_failure(&tonic::Status::unauthenticated("who")));
    assert!(audited_failure(&tonic::Status::not_found("missing")));
    assert!(audited_failure(&tonic::Status::invalid_argument("bad")));
    assert!(audited_failure(&tonic::Status::internal("broken")));
}

#[test]
fn credential_like_keys_are_detected_conservatively() {
    for key in [
        "api_key",
        "provider_apikey",
        "oauth_client_secret",
        "refresh_token",
        "db_password",
        "signing_key",
        "key",
        "AUTH_HEADER",
    ] {
        assert!(is_credential_like_key(key), "{key} should be redacted");
    }
    for key in [
        "providers_v2_enabled",
        "proposal_approval_mode",
        "keyboard_layout",
    ] {
        assert!(!is_credential_like_key(key), "{key} should pass through");
    }
}

#[test]
fn credential_detection_handles_case_and_edges() {
    for key in ["KEY", "Signing_KEY", "_key", "PassWD", "xCREDENTIALx", "private_key_path", "author"] {
        assert!(is_credential_like_key(key), "{key} should be redacted");
    }
    for key in ["", "keys", "key_", "akey", "pass word", "TOKE"] {
        assert!(!is_credential_like_key(key), "{key} should pass through");
    }
}

#[test]
fn contexts_name_the_gateway() {
    let gateway = ctx();
    assert_eq!(gateway.container_image, "openshell/gateway");
    assert_eq!(gateway.hostname, "openshell-gateway");
    assert_eq!(gateway.sandbox_id, "");
    assert_eq!(gateway.proxy_port, 0);
    let sandbox = ctx_for_sandbox("sb-1", "box");
    assert_eq!(sandbox.sandbox_id, "sb-1");
    assert_eq!(sandbox.sandbox_name, "box");
    assert_eq!(sandbox.hostname, "openshell-gateway");
    let system = system_actor("provider-refresh");
    assert_eq!(system.name, "system:provider-refresh");
    assert_eq!(system.uid.as_deref(), Some("system:provider-refresh"));
    assert_eq!(system.type_id, Some(UserTypeId::Other));
}

#[test]
fn entity_outcomes_emit_in_their_lane() {
    let who = sandbox_principal("sb-7");
    let emission = emit_entity(&ON, true, entity_outcome(&who, Some(("sb-7", "box")))).unwrap();
    assert_eq!(emission.sandbox_id.as_deref(), Some("sb-7"));
    let json = emission.event.to_json();
    assert_eq!(json["metadata"]["uid"], "sb-7");
    assert_eq!(json["container"]["name"], "box");
    assert_eq!(json["status"], "Success");
    assert_eq!(json["severity_id"], 1);
    assert_eq!(json["message"], "provider updated");
    assert_eq!(json["actor"]["user"]["name"], "sandbox:sb-7");
    assert_eq!(json["unmapped"]["workspace"], "ws-1");
    assert_eq!(json["unmapped"]["request_id"], "req-9");

    let emission = emit_entity(&ON, false, entity_outcome(&who, None)).unwrap();
    assert_eq!(emission.sandbox_id, None);
    let json = emission.event.to_json();
    assert!(json["metadata"].get("uid").is_none());
    assert_eq!(json["status"], "Failure");
    assert_eq!(json["severity_id"], 2);
    assert_eq!(json["message"], "provider update failed");

    assert!(emit_entity(&OFF, true, entity_outcome(&who, None)).is_none());
}

#[test]
fn finished_handlers_emit_unless_denied() {
    let who = Principal::Anonymous;
    let ok: Result<&u32, &tonic::Status> = Ok(&7);
    let emission = emit_entity_outcome(&ON, ok, entity_outcome(&who, None)).unwrap();
    assert_eq!(emission.event.to_json()["status"], "Success");

    let missing = tonic::Status::not_found("missing");
    let failed: Result<&u32, &tonic::Status> = Err(&missing);
    let emission = emit_entity_outcome(&ON, failed, entity_outcome(&who, None)).unwrap();
    assert_eq!(emission.event.to_json()["status"], "Failure");

    let denied = tonic::Status::permission_denied("no");
    let rejected: Result<&u32, &tonic::Status> = Err(&denied);
    assert!(emit_entity_outcome(&ON, rejected, entity_outcome(&who, None)).is_none());
    assert!(emit_entity_outcome(&OFF, ok, entity_outcome(&who, None)).is_none());
}

#[test]
fn an_ok_response_may_report_a_failure() {
    let who = Principal::Anonymous;
    let body = 3_u32;
    let ok: Result<&u32, &tonic::Status> = Ok(&body);
    let judged = emit_entity_outcome_judged(&ON, ok, |n| *n > 5, entity_outcome(&who, None));
    assert_eq!(judged.unwrap().event.to_json()["status"], "Failure");
    let judged = emit_entity_outcome_judged(&ON, ok, |n| *n < 5, entity_outcome(&who, None));
    assert_eq!(judged.unwrap().event.to_json()["status"], "Success");
    let denied = tonic::Status::unauthenticated("who");
    let rejected: Result<&u32, &tonic::Status> = Err(&denied);
    assert!(emit_entity_outcome_judged(&ON, rejected, |_| true, entity_outcome(&who, None)).is_none());
}

#[test]
fn background_mutations_are_attributed_to_their_component() {
    let outcome = |sandbox| SystemEntityOutcome {
        activity: EntityActivityId::Delete,
        entity: ManagedEntity::new("credential", "c-1"),
        sandbox,
        component: "compute-reconcile",
        success_message: "removed".to_string(),
        failure_message: "not removed".to_string(),
        unmapped: vec![("why", serde_json::Value::from("stale"))],
    };
    let emission = emit_system_entity(&QUIET, false, outcome(None)).unwrap();
    assert_eq!(
        emission.event.format_shorthand(),
        "ENTITY:DELETE [LOW] FAILED credential \"c-1\" by system:compute-reconcile"
    );
    assert_eq!(emission.event.to_json()["unmapped"]["why"], "stale");
    let emission = emit_system_entity(&ON, true, outcome(Some(("sb-2", "two")))).unwrap();
    assert_eq!(emission.sandbox_id.as_deref(), Some("sb-2"));
    assert!(emit_system_entity(&OFF, true, outcome(None)).is_none());
}

#[test]
fn config_outcomes_ride_the_gateway_lane() {
    let who = Principal::Anonymous;
    let outcome = || ConfigOutcome {
        state_label: "inference_route_set",
        principal: &who,
        request_id: Some("req-3"),
        success_message: "route set".to_string(),
        failure_message: "route not set".to_string(),
        unmapped: vec![("route", serde_json::Value::from("r-1"))],
    };
    let emission = emit_config_outcome(&ON, true, outcome()).unwrap();
    assert_eq!(emission.sandbox_id, None);
    assert_eq!(
        emission.event.format_shorthand(),
        "CONFIG:inference_route_set [INFO] route set"
    );
    let json = emission.event.to_json();
    assert_eq!(json["unmapped"]["request_id"], "req-3");
    assert_eq!(json["actor"]["user"]["name"], "anonymous");
    let emission = emit_config_outcome(&ON, false, outcome()).unwrap();
    assert_eq!(emission.event.to_json()["severity_id"], 2);
    assert!(emit_config_outcome(&OFF, true, outcome()).is_none());
}

#[test]
fn authentication_failures_always_emit_and_successes_on_demand() {
    let failure = emit_authn_failure(&QUIET, &authn_outcome("bearer")).unwrap();
    assert_eq!(
        failure.event.format_shorthand(),
        "AUTHN:LOGON [MED] FAILED openid from 10.0.0.9:51044 [reason:token expired]"
    );
    let json = failure.event.to_json();
    assert_eq!(json["unmapped"]["mechanism"], "bearer");
    assert_eq!(json["unmapped"]["path"], "/openshell.v1.OpenShell/Get");
    assert_eq!(json["unmapped"]["reason"], "rejected_credential");
    assert_eq!(json["unmapped"]["request_id"], "req-1");
    assert!(json.get("user").is_none());

    let who = sandbox_principal("sb-1");
    let mut outcome = authn_outcome("mtls");
    outcome.reason = None;
    outcome.detail = None;
    outcome.peer_addr = None;
    outcome.request_id = None;
    outcome.principal = Some(&who);
    let success = emit_authn_success(&ON, &outcome).unwrap();
    assert_eq!(
        success.event.format_shorthand(),
        "AUTHN:LOGON [INFO] other user:sandbox:sb-1"
    );
    let json = success.event.to_json();
    assert_eq!(json["unmapped"].to_string(), "{\"mechanism\":\"mtls\",\"path\":\"/openshell.v1.OpenShell/Get\"}");

    assert!(emit_authn_success(&QUIET, &outcome).is_none());
    assert!(emit_authn_success(&OFF, &outcome).is_none());
    assert!(emit_authn_failure(&OFF, &outcome).is_none());
    let local = emit_authn_failure(&ON, &authn_outcome("local_dev")).unwrap();
    assert_eq!(local.event.to_json()["auth_protocol_id"], 0);
}

#[test]
fn findings_escalate_on_the_gateway_lane() {
    let finding = emit_cross_sandbox_finding(&ON, "sb-1", "sb-2").unwrap();
    assert_eq!(finding.sandbox_id, None);
    let json = finding.event.to_json();
    assert_eq!(json["finding_info"]["uid"], "OSGW-CROSS-SANDBOX");
    assert_eq!(json["evidences"]["requested_sandbox_id"], "sb-2");
    assert_eq!(json["is_alert"], true);
    assert_eq!(json["severity_id"], 4);
    assert_eq!(json["message"], "cross-sandbox access denied: sb-1 addressed sb-2");
    assert!(emit_cross_sandbox_finding(&OFF, "sb-1", "sb-2").is_none());

    let finding = emit_sandbox_admin_attempt_finding(&ON, "sb-1", "DeleteWorkspace").unwrap();
    let json = finding.event.to_json();
    assert_eq!(json["finding_info"]["uid"], "OSGW-SANDBOX-ADMIN-ATTEMPT");
    assert_eq!(json["evidences"]["operation"], "DeleteWorkspace");
    assert_eq!(
        json["message"],
        "sandbox principal sb-1 attempted admin operation DeleteWorkspace"
    );
    assert!(emit_sandbox_admin_attempt_finding(&OFF, "sb-1", "x").is_none());
}
