//! Gateway audit event emission.
//!
//! Governance operations (workspace, provider, sandbox, credential, policy and
//! settings mutations, plus authentication outcomes) become OCSF audit events
//! here. The helpers own the two pieces every emission needs: the gateway's
//! OCSF context and the mapping from the authenticated [`Principal`] to the
//! OCSF actor.
//!
//! An [`Emission`] says what is to be emitted and where it belongs: one tied to
//! a sandbox appears in that sandbox's stream and exports with its
//! `sandbox.id`; a gateway-scoped one takes the gateway lane and exports
//! without one.
//!
//! Never include tokens, credentials, or secret material.

pub use crate::request::{audited_failure, principal, request_id};

use crate::audit_laws::law_credential_keys_are_these;
use crate::json::{copy_of, json_of, put, text_value, Json};
use crate::ocsf::builders::{
    AuthenticationBuilder, AuthenticationBuilderView, ConfigBuilderView, ConfigStateChangeBuilder,
    pairs_of, ContextView, DetectionFindingBuilder, EntityBuilderView, EntityManagementBuilder,
    FindingBuilderView, SandboxContext,
};
use crate::ocsf::document::{put_all, text_of};
use crate::ocsf::enums::{
    AuthProtocolId, EntityActivityId, SeverityId, StateId, StatusId, UserTypeId,
};
use crate::ocsf::events::{EventView, OcsfEvent};
use crate::ocsf::objects::{
    ActorView, Endpoint, EndpointView, FindingInfo, FindingInfoView, ManagedEntity,
    ManagedEntityView, User, UserView,
};
use crate::phrases::{closes, holds};
use crate::principal::{Principal, PrincipalView};
use crate::request::{audited_code, code_of};
use crate::text::{
    ascii_lowercase, chars_of, contains, ends_with, finishes_with, lowercase_chars_of, occurs,
    occurs_at, same_text, stands_at,
};
use vstd::prelude::*;
use vstd::string::*;

verus! {

/// The gateway version that audit events report.
pub const VERSION: &'static str = "0.1.0";

/// Which audit events the gateway emits.
#[derive(Debug, Clone, Copy, PartialEq, Eq, Structural)]
pub struct GatewayAuditConfig {
    /// The master toggle: off, nothing is emitted.
    pub enabled: bool,
    /// Whether authentication successes are emitted too.
    pub auth_success_events: bool,
}

/// The gateway's own context: no sandbox is in play.
pub open spec fn gateway_context() -> ContextView {
    ContextView {
        sandbox_id: Seq::empty(),
        sandbox_name: Seq::empty(),
        container_image: "openshell/gateway"@,
        hostname: "openshell-gateway"@,
        product_version: VERSION@,
        proxy_ip: "127.0.0.1"@,
        proxy_port: 0,
    }
}

/// The gateway's context for an event about a sandbox, or its own.
pub open spec fn context_for(sandbox: Option<(Seq<char>, Seq<char>)>) -> ContextView {
    match sandbox {
        Some((sandbox_id, sandbox_name)) => ContextView {
            sandbox_id,
            sandbox_name,
            ..gateway_context()
        },
        None => gateway_context(),
    }
}

/// The gateway's OCSF context, for constructing audit event builders.
///
/// The gateway is the product here: `metadata.uid` stays empty (no sandbox) and
/// the container image names the gateway itself.
#[must_use]
pub fn ctx() -> (ctx: SandboxContext)
    ensures
        ctx@ == gateway_context(),
{
    SandboxContext {
        sandbox_id: String::new(),
        sandbox_name: String::new(),
        container_image: "openshell/gateway".to_owned(),
        hostname: "openshell-gateway".to_owned(),
        product_version: VERSION.to_owned(),
        proxy_ip: "127.0.0.1".to_owned(),
        proxy_port: 0,
    }
}

/// A per-sandbox variant of the gateway context, for gateway-authored audit
/// events about a specific sandbox.
#[must_use]
pub fn ctx_for_sandbox(sandbox_id: &str, sandbox_name: &str) -> (context: SandboxContext)
    ensures
        context@ == context_for(Some((sandbox_id@, sandbox_name@))),
{
    SandboxContext {
        sandbox_id: sandbox_id.to_owned(),
        sandbox_name: sandbox_name.to_owned(),
        ..ctx()
    }
}

/// The OCSF actor of a principal.
pub open spec fn actor_of_principal(principal: PrincipalView) -> UserView {
    match principal {
        PrincipalView::User(identity) => UserView::identified(
            match identity.display_name {
                Some(name) => name,
                None => identity.subject,
            },
            identity.subject,
            UserTypeId::User,
        ),
        PrincipalView::Sandbox { sandbox_id, .. } => UserView::identified(
            "sandbox:"@ + sandbox_id,
            sandbox_id,
            UserTypeId::Other,
        ),
        PrincipalView::Anonymous => UserView::named("anonymous"@),
    }
}

/// Map the authenticated principal to the OCSF actor user.
///
/// Identity comes from the session, never from request payloads: users carry
/// their OIDC subject / certificate CN as the stable uid, sandbox principals
/// appear as service-type actors under their sandbox id (OCSF has no `Service`
/// user type; `Other` is its conventional home), and anonymous callers are
/// named as such so a permissive dev gateway still produces an honest trail.
#[must_use]
pub fn actor_user(principal: &Principal) -> (user: User)
    ensures
        user@ == actor_of_principal(principal@),
{
    match principal {
        Principal::User(user) => {
            let subject = user.identity.subject.as_str();
            match &user.identity.display_name {
                Some(name) => User::new(name.as_str(), subject, UserTypeId::User),
                None => User::new(subject, subject, UserTypeId::User),
            }
        },
        Principal::Sandbox(sandbox) => {
            let name = "sandbox:".to_owned().concat(sandbox.sandbox_id.as_str());
            User::new(name.as_str(), sandbox.sandbox_id.as_str(), UserTypeId::Other)
        },
        Principal::Anonymous => User::named("anonymous"),
    }
}

/// The OCSF actor of a gateway component.
pub open spec fn component_actor(component: Seq<char>) -> UserView {
    UserView::identified("system:"@ + component, "system:"@ + component, UserTypeId::Other)
}

/// The OCSF actor for background (principal-less) gateway mutations.
///
/// Convention: `system:<component>` (e.g. `system:provider-refresh`,
/// `system:compute-reconcile`, `system:gateway-startup`), user type Other.
/// Timer- and reconciliation-driven state changes appear in the same trail as
/// request-driven ones, attributed to the component that made them.
#[must_use]
pub fn system_actor(component: &str) -> (user: User)
    ensures
        user@ == component_actor(component@),
{
    let name = "system:".to_owned().concat(component);
    User::new(name.as_str(), name.as_str(), UserTypeId::Other)
}

/// An audit event and where it belongs.
#[derive(Debug)]
pub struct Emission {
    /// The sandbox whose stream the event appears in, or `None` for the gateway
    /// lane.
    pub sandbox_id: Option<String>,
    pub event: OcsfEvent,
}

/// The contents of an [`Emission`].
pub struct EmissionView {
    pub sandbox_id: Option<Seq<char>>,
    pub event: EventView,
}

impl View for Emission {
    type V = EmissionView;

    open spec fn view(&self) -> EmissionView {
        EmissionView {
            sandbox_id: text_of(self.sandbox_id),
            event: self.event@,
        }
    }
}

/// The contents of an optional emission.
pub open spec fn emission_of(emission: Option<Emission>) -> Option<EmissionView> {
    match emission {
        Some(e) => Some(e@),
        None => None,
    }
}

/// Emit a gateway-scoped audit event (no sandbox in play).
///
/// Exports on the gateway lane, without a `sandbox.id` attribute.
#[must_use]
pub fn emit(event: OcsfEvent) -> (emission: Emission)
    ensures
        emission@ == (EmissionView { sandbox_id: None, event: event@ }),
{
    Emission { sandbox_id: None, event }
}

/// Emit an audit event about a specific sandbox.
///
/// Appears in that sandbox's visibility stream and exports under its
/// `sandbox.id`, alongside the supervisor's own events.
#[must_use]
pub fn emit_for_sandbox(sandbox_id: &str, event: OcsfEvent) -> (emission: Emission)
    ensures
        emission@ == (EmissionView { sandbox_id: Some(sandbox_id@), event: event@ }),
{
    Emission { sandbox_id: Some(sandbox_id.to_owned()), event }
}

/// The outcome that a finished mutation reports.
pub open spec fn outcome_status(success: bool) -> StatusId {
    if success {
        StatusId::Success
    } else {
        StatusId::Failure
    }
}

/// Failed mutations rank Low so Warn+ alerting can see them; routine successes
/// stay Informational.
pub open spec fn outcome_severity(success: bool) -> SeverityId {
    if success {
        SeverityId::Informational
    } else {
        SeverityId::Low
    }
}

fn status_of(success: bool) -> (status: StatusId)
    ensures
        status == outcome_status(success),
{
    if success {
        StatusId::Success
    } else {
        StatusId::Failure
    }
}

fn severity_of(success: bool) -> (severity: SeverityId)
    ensures
        severity == outcome_severity(success),
{
    if success {
        SeverityId::Informational
    } else {
        SeverityId::Low
    }
}

/// The documents that a list of named values holds.
pub open spec fn named_values(values: Seq<(&'static str, serde_json::Value)>) -> Seq<
    (Seq<char>, Json),
> {
    values.map_values(|pair: (&'static str, serde_json::Value)| (pair.0@, json_of(pair.1)))
}

/// The contents of an optional borrowed text.
pub open spec fn borrowed_text(text: Option<&str>) -> Option<Seq<char>> {
    match text {
        Some(t) => Some(t@),
        None => None,
    }
}

/// The contents of an optional sandbox id and name.
pub open spec fn sandbox_of(sandbox: Option<(&str, &str)>) -> Option<(Seq<char>, Seq<char>)> {
    match sandbox {
        Some((id, name)) => Some((id@, name@)),
        None => None,
    }
}

/// The `request_id` member that a correlation id leaves.
pub open spec fn request_id_member(request_id: Option<Seq<char>>) -> Seq<(Seq<char>, Json)> {
    match request_id {
        Some(id) => seq![("request_id"@, Json::Text(id))],
        None => Seq::empty(),
    }
}

/// The context of an event about a sandbox, or of one on the gateway lane.
fn event_ctx(sandbox: Option<(&str, &str)>) -> (context: SandboxContext)
    ensures
        context@ == context_for(sandbox_of(sandbox)),
{
    match sandbox {
        Some((id, name)) => ctx_for_sandbox(id, name),
        None => ctx(),
    }
}

/// Where an event about a sandbox belongs, or one about none.
pub open spec fn lane(sandbox: Option<(Seq<char>, Seq<char>)>) -> Option<Seq<char>> {
    match sandbox {
        Some((sandbox_id, _)) => Some(sandbox_id),
        None => None,
    }
}

fn emit_in_lane(sandbox: Option<(&str, &str)>, event: OcsfEvent) -> (emission: Emission)
    ensures
        emission@ == (EmissionView { sandbox_id: lane(sandbox_of(sandbox)), event: event@ }),
{
    match sandbox {
        Some((id, _)) => emit_for_sandbox(id, event),
        None => emit(event),
    }
}

/// One background mutation's audit facts: an [`EntityOutcome`] without a
/// request principal. Consumed by [`emit_system_entity`].
pub struct SystemEntityOutcome<'a> {
    pub activity: EntityActivityId,
    pub entity: ManagedEntity,
    /// `Some((sandbox_id, sandbox_name))` routes into that sandbox's stream.
    pub sandbox: Option<(&'a str, &'a str)>,
    /// Component name; the actor renders as `system:<component>`.
    pub component: &'a str,
    pub success_message: String,
    pub failure_message: String,
    pub unmapped: Vec<(&'static str, serde_json::Value)>,
}

/// One mutation's audit facts, gathered by a handler wrapper before/after
/// running its inner logic. Consumed by [`emit_entity_outcome`].
pub struct EntityOutcome<'a> {
    pub activity: EntityActivityId,
    pub entity: ManagedEntity,
    /// `Some((sandbox_id, sandbox_name))` routes the event into that sandbox's
    /// stream (mutations about a specific, resolved sandbox); `None` rides the
    /// gateway lane.
    pub sandbox: Option<(&'a str, &'a str)>,
    pub principal: &'a Principal,
    pub request_id: Option<&'a str>,
    pub success_message: String,
    pub failure_message: String,
    pub unmapped: Vec<(&'static str, serde_json::Value)>,
}

/// What a mutation's audit event says, whoever the actor is.
pub struct MutationView {
    pub activity: EntityActivityId,
    pub entity: ManagedEntityView,
    pub sandbox: Option<(Seq<char>, Seq<char>)>,
    pub actor: UserView,
    pub success_message: Seq<char>,
    pub failure_message: Seq<char>,
    /// Unmapped members in writing order.
    pub unmapped: Seq<(Seq<char>, Json)>,
}

impl<'a> SystemEntityOutcome<'a> {
    /// What the event says.
    pub open spec fn mutation(self) -> MutationView {
        MutationView {
            activity: self.activity,
            entity: self.entity@,
            sandbox: sandbox_of(self.sandbox),
            actor: component_actor(self.component@),
            success_message: self.success_message@,
            failure_message: self.failure_message@,
            unmapped: named_values(self.unmapped@),
        }
    }
}

impl<'a> EntityOutcome<'a> {
    /// What the event says. The correlation id is written last.
    pub open spec fn mutation(self) -> MutationView {
        MutationView {
            activity: self.activity,
            entity: self.entity@,
            sandbox: sandbox_of(self.sandbox),
            actor: actor_of_principal(self.principal@),
            success_message: self.success_message@,
            failure_message: self.failure_message@,
            unmapped: named_values(self.unmapped@) + request_id_member(
                borrowed_text(self.request_id),
            ),
        }
    }
}

impl MutationView {
    /// The event of a mutation that ended as given.
    pub open spec fn event(self, success: bool) -> EventView {
        EntityBuilderView {
            activity: self.activity,
            entity: Some(self.entity),
            actor: Some(ActorView { user: self.actor }),
            severity: outcome_severity(success),
            status: Some(outcome_status(success)),
            message: Some(
                if success {
                    self.success_message
                } else {
                    self.failure_message
                },
            ),
            unmapped: put_all(Seq::empty(), self.unmapped),
            ..EntityBuilderView::fresh(context_for(self.sandbox))
        }.event()
    }

    /// The emission of a mutation that ended as given.
    pub open spec fn emission(self, success: bool) -> EmissionView {
        EmissionView { sandbox_id: lane(self.sandbox), event: self.event(success) }
    }
}

/// Add every named value to an entity event.
fn with_entity_unmapped<'a>(
    builder: EntityManagementBuilder<'a>,
    unmapped: &Vec<(&'static str, serde_json::Value)>,
) -> (extended: EntityManagementBuilder<'a>)
    ensures
        extended@ == (EntityBuilderView {
            unmapped: put_all(builder@.unmapped, named_values(unmapped@)),
            ..builder@
        }),
{
    let ghost start = builder@;
    let ghost all = named_values(unmapped@);
    let mut extended = builder;
    let mut i: usize = 0;
    while i < unmapped.len()
        invariant
            i <= unmapped@.len(),
            all == named_values(unmapped@),
            extended@ == (EntityBuilderView {
                unmapped: put_all(start.unmapped, all.take(i as int)),
                ..start
            }),
        decreases unmapped@.len() - i,
    {
        extended = extended.unmapped(unmapped[i].0, copy_of(&unmapped[i].1));
        proof {
            assert(all.take(i + 1).drop_last() =~= all.take(i as int));
        }
        i = i + 1;
    }
    proof {
        assert(all.take(i as int) =~= all);
    }
    extended
}

/// Emit an Entity Management \[3004\] audit event for a background mutation
/// with a [`system_actor`]. Nothing is emitted when the master audit toggle is
/// off.
#[must_use]
pub fn emit_system_entity<'a>(
    audit: &GatewayAuditConfig,
    success: bool,
    outcome: SystemEntityOutcome<'a>,
) -> (emission: Option<Emission>)
    ensures
        emission_of(emission) == if audit.enabled {
            Some(outcome.mutation().emission(success))
        } else {
            None
        },
        emission is Some <==> audit.enabled,
        emission matches Some(emitted) ==> {
            &&& success ==> emitted.event@.base.status == Some(StatusId::Success)
                && emitted.event@.base.message == Some(outcome.success_message@)
            &&& !success ==> emitted.event@.base.status == Some(StatusId::Failure)
                && emitted.event@.base.message == Some(outcome.failure_message@)
        },
{
    if !audit.enabled {
        return None;
    }
    let context = event_ctx(outcome.sandbox);
    let message = if success {
        outcome.success_message.as_str()
    } else {
        outcome.failure_message.as_str()
    };
    let builder = EntityManagementBuilder::new(&context).activity(outcome.activity).entity(
        outcome.entity,
    ).actor_user(system_actor(outcome.component)).status(status_of(success)).severity(
        severity_of(success),
    ).message(message);
    let built = with_entity_unmapped(builder, &outcome.unmapped).build();
    Some(emit_in_lane(outcome.sandbox, built))
}

/// Build and emit an Entity Management \[3004\] event.
///
/// Private on purpose: callers go through [`emit_entity_outcome`] /
/// [`emit_entity_outcome_judged`], which apply the audit `enabled` toggle and
/// the denial-exclusion rule before reaching here.
fn emit_entity_event<'a>(success: bool, outcome: EntityOutcome<'a>) -> (emission: Emission)
    ensures
        emission@ == outcome.mutation().emission(success),
{
    let context = event_ctx(outcome.sandbox);
    let message = if success {
        outcome.success_message.as_str()
    } else {
        outcome.failure_message.as_str()
    };
    let builder = EntityManagementBuilder::new(&context).activity(outcome.activity).entity(
        outcome.entity,
    ).actor_user(actor_user(outcome.principal)).status(status_of(success)).severity(
        severity_of(success),
    ).message(message);
    let mut extended = with_entity_unmapped(builder, &outcome.unmapped);
    let ghost named = named_values(outcome.unmapped@);
    if let Some(request_id) = outcome.request_id {
        extended = extended.unmapped("request_id", text_value(request_id.to_owned()));
        proof {
            let member = request_id_member(borrowed_text(outcome.request_id));
            assert((named + member).drop_last() =~= named);
        }
    } else {
        proof {
            assert(named + Seq::<(Seq<char>, Json)>::empty() =~= named);
        }
    }
    emit_in_lane(outcome.sandbox, extended.build())
}

/// Emit the Entity Management \[3004\] audit event with an already-known
/// outcome, for handlers that emit at the store-commit point inside their inner
/// logic (where the sandbox identity is in scope) rather than from a wrapper.
/// Nothing is emitted when the master audit toggle is off.
#[must_use]
pub fn emit_entity<'a>(
    audit: &GatewayAuditConfig,
    success: bool,
    outcome: EntityOutcome<'a>,
) -> (emission: Option<Emission>)
    ensures
        emission_of(emission) == if audit.enabled {
            Some(outcome.mutation().emission(success))
        } else {
            None
        },
        emission is Some <==> audit.enabled,
        emission matches Some(emitted) ==> {
            &&& success ==> emitted.event@.base.status == Some(StatusId::Success)
                && emitted.event@.base.message == Some(outcome.success_message@)
            &&& !success ==> emitted.event@.base.status == Some(StatusId::Failure)
                && emitted.event@.base.message == Some(outcome.failure_message@)
        },
{
    if !audit.enabled {
        return None;
    }
    Some(emit_entity_event(success, outcome))
}

/// Emit the Entity Management \[3004\] audit event for a finished handler.
///
/// Nothing is emitted when the master audit toggle is off. Success emits with
/// `Success`; a failure emits with `Failure` unless the rejection was an
/// authentication/authorization denial (see [`audited_failure`]), which is the
/// authentication boundary's event, not a mutation attempt.
#[must_use]
pub fn emit_entity_outcome<'a, T>(
    audit: &GatewayAuditConfig,
    result: Result<&T, &tonic::Status>,
    outcome: EntityOutcome<'a>,
) -> (emission: Option<Emission>)
    ensures
        emission_of(emission) == match result {
            Ok(_) if audit.enabled => Some(outcome.mutation().emission(true)),
            Err(status) if audit.enabled && audited_code(code_of(*status)) => Some(
                outcome.mutation().emission(false),
            ),
            _ => None,
        },
        emission is None <==> !audit.enabled || (result matches Err(status) && (code_of(*status)
            == 7 || code_of(*status) == 16)),
        emission matches Some(emitted) ==> {
            &&& result is Ok ==> emitted.event@.base.status == Some(StatusId::Success)
                && emitted.event@.base.message == Some(outcome.success_message@)
            &&& result is Err ==> emitted.event@.base.status == Some(StatusId::Failure)
                && emitted.event@.base.message == Some(outcome.failure_message@)
        },
{
    let always = |_body: &T| -> (success: bool)
        ensures
            success,
        { true };
    emit_entity_outcome_judged(audit, result, always, outcome)
}

/// Like [`emit_entity_outcome`], but an `Ok` response's success is judged from
/// its body, for RPCs that report a rejected mutation inside an `Ok` response
/// (e.g. profile import returning diagnostics with `imported: false`).
#[must_use]
pub fn emit_entity_outcome_judged<'a, T, F: FnOnce(&T) -> bool>(
    audit: &GatewayAuditConfig,
    result: Result<&T, &tonic::Status>,
    response_success: F,
    outcome: EntityOutcome<'a>,
) -> (emission: Option<Emission>)
    requires
        audit.enabled ==> (result matches Ok(body) ==> call_requires(response_success, (body,))),
    ensures
        match result {
            Ok(body) => if audit.enabled {
                exists|success: bool|
                    #![trigger outcome.mutation().emission(success)]
                    call_ensures(response_success, (body,), success) && emission_of(emission)
                        == Some(outcome.mutation().emission(success))
            } else {
                emission is None
            },
            Err(status) => emission_of(emission) == if audit.enabled && audited_code(
                code_of(*status),
            ) {
                Some(outcome.mutation().emission(false))
            } else {
                None
            },
        },
        emission is None <==> !audit.enabled || (result matches Err(status) && (code_of(*status)
            == 7 || code_of(*status) == 16)),
{
    if !audit.enabled {
        return None;
    }
    let success = match result {
        Ok(body) => response_success(body),
        Err(status) => {
            if !audited_failure(status) {
                return None;
            }
            false
        },
    };
    Some(emit_entity_event(success, outcome))
}

/// One gateway configuration mutation's audit facts, for a Device Config State
/// Change \[5019\] event on the gateway lane. Consumed by
/// [`emit_config_outcome`].
pub struct ConfigOutcome<'a> {
    /// Custom state label (e.g. `inference_route_set`).
    pub state_label: &'a str,
    pub principal: &'a Principal,
    pub request_id: Option<&'a str>,
    pub success_message: String,
    pub failure_message: String,
    pub unmapped: Vec<(&'static str, serde_json::Value)>,
}

impl<'a> ConfigOutcome<'a> {
    /// The event of a change that ended as given. The correlation id is written
    /// last.
    pub open spec fn event(self, success: bool) -> EventView {
        ConfigBuilderView {
            state: StateId::Other,
            state_label: self.state_label@,
            actor: Some(ActorView { user: actor_of_principal(self.principal@) }),
            severity: outcome_severity(success),
            status: Some(outcome_status(success)),
            message: Some(
                if success {
                    self.success_message@
                } else {
                    self.failure_message@
                },
            ),
            unmapped: put_all(
                Seq::empty(),
                named_values(self.unmapped@) + request_id_member(borrowed_text(self.request_id)),
            ),
            ..ConfigBuilderView::fresh(gateway_context())
        }.event()
    }
}

/// Add every named value to a configuration event.
fn with_config_unmapped<'a>(
    builder: ConfigStateChangeBuilder<'a>,
    unmapped: &Vec<(&'static str, serde_json::Value)>,
) -> (extended: ConfigStateChangeBuilder<'a>)
    ensures
        extended@ == (ConfigBuilderView {
            unmapped: put_all(builder@.unmapped, named_values(unmapped@)),
            ..builder@
        }),
{
    let ghost start = builder@;
    let ghost all = named_values(unmapped@);
    let mut extended = builder;
    let mut i: usize = 0;
    while i < unmapped.len()
        invariant
            i <= unmapped@.len(),
            all == named_values(unmapped@),
            extended@ == (ConfigBuilderView {
                unmapped: put_all(start.unmapped, all.take(i as int)),
                ..start
            }),
        decreases unmapped@.len() - i,
    {
        extended = extended.unmapped(unmapped[i].0, copy_of(&unmapped[i].1));
        proof {
            assert(all.take(i + 1).drop_last() =~= all.take(i as int));
        }
        i = i + 1;
    }
    proof {
        assert(all.take(i as int) =~= all);
    }
    extended
}

/// Build and emit a Device Config State Change \[5019\] audit event with an
/// already-known outcome, carrying the acting principal. Nothing is emitted when
/// the master audit toggle is off; callers apply [`audited_failure`] before
/// reporting a failure here.
#[must_use]
pub fn emit_config_outcome<'a>(
    audit: &GatewayAuditConfig,
    success: bool,
    outcome: ConfigOutcome<'a>,
) -> (emission: Option<Emission>)
    ensures
        emission_of(emission) == if audit.enabled {
            Some(EmissionView { sandbox_id: None, event: outcome.event(success) })
        } else {
            None
        },
        emission is Some <==> audit.enabled,
        emission matches Some(emitted) ==> {
            &&& success ==> emitted.event@.base.status == Some(StatusId::Success)
                && emitted.event@.base.message == Some(outcome.success_message@)
            &&& !success ==> emitted.event@.base.status == Some(StatusId::Failure)
                && emitted.event@.base.message == Some(outcome.failure_message@)
        },
{
    if !audit.enabled {
        return None;
    }
    let context = ctx();
    let message = if success {
        outcome.success_message.as_str()
    } else {
        outcome.failure_message.as_str()
    };
    let builder = ConfigStateChangeBuilder::new(&context).state(
        StateId::Other,
        outcome.state_label,
    ).severity(severity_of(success)).status(status_of(success)).actor_user(
        actor_user(outcome.principal),
    ).message(message);
    let mut extended = with_config_unmapped(builder, &outcome.unmapped);
    let ghost named = named_values(outcome.unmapped@);
    if let Some(request_id) = outcome.request_id {
        extended = extended.unmapped("request_id", text_value(request_id.to_owned()));
        proof {
            let member = request_id_member(borrowed_text(outcome.request_id));
            assert((named + member).drop_last() =~= named);
        }
    } else {
        proof {
            assert(named + Seq::<(Seq<char>, Json)>::empty() =~= named);
        }
    }
    Some(emit(extended.build()))
}

/// One authentication outcome at the gateway boundary, for an Authentication
/// \[3002\] audit event. Never carries token or credential material; `detail`
/// must be a gateway-authored status message.
pub struct AuthnOutcome<'a> {
    /// Credential mechanism the request presented (`bearer`, `mtls`,
    /// `local_dev`, `none`).
    pub mechanism: &'a str,
    /// Low-cardinality failure category (`rejected_credential`,
    /// `authenticator_error`, `missing_credentials`,
    /// `missing_client_certificate`, `anonymous`). `None` for successes.
    pub reason: Option<&'a str>,
    /// Gateway-authored status message for failures.
    pub detail: Option<&'a str>,
    /// The authenticated principal, for success events.
    pub principal: Option<&'a Principal>,
    /// The peer's IP address in its canonical text form, and its port.
    pub peer_addr: Option<(&'a str, u16)>,
    /// Request path, for correlation (`/openshell.v1.OpenShell/...`).
    pub path: &'a str,
    pub request_id: Option<&'a str>,
}

/// The OCSF protocol of a credential mechanism. The vocabulary is coarse; the
/// exact mechanism travels in `unmapped.mechanism`.
pub open spec fn mechanism_protocol(mechanism: Seq<char>) -> AuthProtocolId {
    if mechanism == "bearer"@ {
        AuthProtocolId::OpenId
    } else if mechanism == "mtls"@ {
        AuthProtocolId::Other
    } else {
        AuthProtocolId::Unknown
    }
}

fn protocol_of(mechanism: &str) -> (protocol: AuthProtocolId)
    ensures
        protocol == mechanism_protocol(mechanism@),
{
    if same_text(mechanism, "bearer") {
        AuthProtocolId::OpenId
    } else if same_text(mechanism, "mtls") {
        AuthProtocolId::Other
    } else {
        AuthProtocolId::Unknown
    }
}

/// The `reason` member that a failure category leaves.
pub open spec fn reason_member(reason: Option<Seq<char>>) -> Seq<(Seq<char>, Json)> {
    match reason {
        Some(text) => seq![("reason"@, Json::Text(text))],
        None => Seq::empty(),
    }
}

impl<'a> AuthnOutcome<'a> {
    /// The unmapped members in writing order.
    pub open spec fn unmapped(self) -> Seq<(Seq<char>, Json)> {
        seq![
            ("mechanism"@, Json::Text(self.mechanism@)),
            ("path"@, Json::Text(self.path@)),
        ] + reason_member(borrowed_text(self.reason)) + request_id_member(
            borrowed_text(self.request_id),
        )
    }

    /// The event of an attempt that ended as given.
    pub open spec fn event(self, success: bool) -> EventView {
        AuthenticationBuilderView {
            user: match self.principal {
                Some(principal) => Some(actor_of_principal(principal@)),
                None => None,
            },
            auth_protocol: Some(mechanism_protocol(self.mechanism@)),
            src_endpoint: match self.peer_addr {
                Some((ip, port)) => Some(EndpointView { ip: ip@, port }),
                None => None,
            },
            severity: if success {
                SeverityId::Informational
            } else {
                SeverityId::Medium
            },
            status: Some(outcome_status(success)),
            status_detail: borrowed_text(self.detail),
            unmapped: put_all(Seq::empty(), self.unmapped()),
            ..AuthenticationBuilderView::fresh(gateway_context())
        }.event()
    }
}

/// Writing one more member.
proof fn lemma_put_last(written: Seq<(Seq<char>, Json)>, name: Seq<char>, json: Json)
    ensures
        put_all(Seq::empty(), written + seq![(name, json)]) == put(
            put_all(Seq::empty(), written),
            name,
            json,
        ),
{
    assert((written + seq![(name, json)]).drop_last() =~= written);
}

fn build_authn_event<'a>(success: bool, outcome: &AuthnOutcome<'a>) -> (event: OcsfEvent)
    ensures
        event@ == outcome.event(success),
{
    let context = ctx();
    let severity = if success {
        SeverityId::Informational
    } else {
        SeverityId::Medium
    };
    let ghost nothing = Seq::<(Seq<char>, Json)>::empty();
    let ghost first = seq![("mechanism"@, Json::Text(outcome.mechanism@))];
    let ghost both = seq![
        ("mechanism"@, Json::Text(outcome.mechanism@)),
        ("path"@, Json::Text(outcome.path@)),
    ];
    let ghost reasoned = both + reason_member(borrowed_text(outcome.reason));
    let mut builder = AuthenticationBuilder::new(&context).auth_protocol(
        protocol_of(outcome.mechanism),
    ).status(status_of(success)).severity(severity).unmapped(
        "mechanism",
        text_value(outcome.mechanism.to_owned()),
    ).unmapped("path", text_value(outcome.path.to_owned()));
    proof {
        lemma_put_last(nothing, "mechanism"@, Json::Text(outcome.mechanism@));
        assert(nothing + first =~= first);
        lemma_put_last(first, "path"@, Json::Text(outcome.path@));
        assert(first + seq![("path"@, Json::Text(outcome.path@))] =~= both);
    }
    if let Some(principal) = outcome.principal {
        builder = builder.user(actor_user(principal));
    }
    if let Some(reason) = outcome.reason {
        builder = builder.unmapped("reason", text_value(reason.to_owned()));
        proof {
            lemma_put_last(both, "reason"@, Json::Text(reason@));
        }
    } else {
        proof {
            assert(both + nothing =~= both);
        }
    }
    if let Some(detail) = outcome.detail {
        builder = builder.status_detail(detail);
    }
    if let Some((ip, port)) = outcome.peer_addr {
        builder = builder.src_endpoint(Endpoint::from_ip(ip, port));
    }
    if let Some(request_id) = outcome.request_id {
        builder = builder.unmapped("request_id", text_value(request_id.to_owned()));
        proof {
            lemma_put_last(reasoned, "request_id"@, Json::Text(request_id@));
        }
    } else {
        proof {
            assert(reasoned + nothing =~= reasoned);
        }
    }
    builder.build()
}

/// Emit an Authentication \[3002\] failure event, one per rejected request at
/// the authenticator boundary. Always on while audit events are enabled.
#[must_use]
pub fn emit_authn_failure<'a>(audit: &GatewayAuditConfig, outcome: &AuthnOutcome<'a>) -> (emission:
    Option<Emission>)
    ensures
        emission_of(emission) == if audit.enabled {
            Some(EmissionView { sandbox_id: None, event: outcome.event(false) })
        } else {
            None
        },
        emission is Some <==> audit.enabled,
        emission matches Some(emitted) ==> emitted.event@.base.status == Some(StatusId::Failure)
            && emitted.sandbox_id is None,
{
    if !audit.enabled {
        return None;
    }
    Some(emit(build_authn_event(false, outcome)))
}

/// Emit an Authentication \[3002\] success event, one per authenticated
/// request. Behind `auth_success_events` (default off): a complete
/// authentication ledger multiplies volume by the request rate.
#[must_use]
pub fn emit_authn_success<'a>(audit: &GatewayAuditConfig, outcome: &AuthnOutcome<'a>) -> (emission:
    Option<Emission>)
    ensures
        emission_of(emission) == if audit.enabled && audit.auth_success_events {
            Some(EmissionView { sandbox_id: None, event: outcome.event(true) })
        } else {
            None
        },
        emission is Some <==> audit.enabled && audit.auth_success_events,
        emission matches Some(emitted) ==> emitted.event@.base.status == Some(StatusId::Success)
            && emitted.sandbox_id is None,
{
    if !audit.enabled || !audit.auth_success_events {
        return None;
    }
    Some(emit(build_authn_event(true, outcome)))
}

/// A high-severity alert on the gateway lane.
pub open spec fn gateway_alert(
    info: FindingInfoView,
    evidence: Seq<(Seq<char>, Seq<char>)>,
    message: Seq<char>,
) -> EmissionView {
    EmissionView {
        sandbox_id: None,
        event: FindingBuilderView {
            finding_info: Some(info),
            evidence,
            is_alert: true,
            severity: SeverityId::High,
            message: Some(message),
            ..FindingBuilderView::fresh(gateway_context())
        }.event(),
    }
}

/// Emit a Detection Finding \[2004\] for a cross-sandbox access attempt: a
/// sandbox principal addressed a sandbox it does not own. The domain denial
/// log/status remains the primary record; this is the escalation for security
/// monitoring.
#[must_use]
pub fn emit_cross_sandbox_finding(
    audit: &GatewayAuditConfig,
    principal_sandbox_id: &str,
    requested_sandbox_id: &str,
) -> (emission: Option<Emission>)
    ensures
        emission_of(emission) == if audit.enabled {
            Some(
                gateway_alert(
                    FindingInfoView {
                        uid: "OSGW-CROSS-SANDBOX"@,
                        title: "Cross-sandbox access attempt"@,
                        desc: Some("a sandbox principal addressed a sandbox it does not own"@),
                    },
                    seq![
                        ("principal_sandbox_id"@, principal_sandbox_id@),
                        ("requested_sandbox_id"@, requested_sandbox_id@),
                    ],
                    "cross-sandbox access denied: "@ + principal_sandbox_id@ + " addressed "@
                        + requested_sandbox_id@,
                ),
            )
        } else {
            None
        },
        emission is Some <==> audit.enabled,
        emission matches Some(emitted) ==> emitted.event@.base.severity == SeverityId::High
            && emitted.sandbox_id is None,
{
    if !audit.enabled {
        return None;
    }
    let context = ctx();
    let message = "cross-sandbox access denied: ".to_owned().concat(principal_sandbox_id).concat(
        " addressed ",
    ).concat(requested_sandbox_id);
    let evidence = [
        ("principal_sandbox_id", principal_sandbox_id),
        ("requested_sandbox_id", requested_sandbox_id),
    ];
    proof {
        assert(pairs_of(evidence@) =~= seq![
            ("principal_sandbox_id"@, principal_sandbox_id@),
            ("requested_sandbox_id"@, requested_sandbox_id@),
        ]);
    }
    let event = DetectionFindingBuilder::new(&context).finding_info(
        FindingInfo::new("OSGW-CROSS-SANDBOX", "Cross-sandbox access attempt").with_desc(
            "a sandbox principal addressed a sandbox it does not own",
        ),
    ).severity(SeverityId::High).is_alert(true).evidence_pairs(&evidence).message(
        message.as_str(),
    ).build();
    Some(emit(event))
}

/// Emit a Detection Finding \[2004\] for a sandbox principal that attempted an
/// operation reserved for users or platform admins.
#[must_use]
pub fn emit_sandbox_admin_attempt_finding(
    audit: &GatewayAuditConfig,
    principal_sandbox_id: &str,
    operation: &str,
) -> (emission: Option<Emission>)
    ensures
        emission_of(emission) == if audit.enabled {
            Some(
                gateway_alert(
                    FindingInfoView {
                        uid: "OSGW-SANDBOX-ADMIN-ATTEMPT"@,
                        title: "Sandbox principal attempted admin operation"@,
                        desc: Some(
                            "a sandbox principal attempted an operation reserved for users or admins"@,
                        ),
                    },
                    seq![
                        ("principal_sandbox_id"@, principal_sandbox_id@),
                        ("operation"@, operation@),
                    ],
                    "sandbox principal "@ + principal_sandbox_id@ + " attempted admin operation "@
                        + operation@,
                ),
            )
        } else {
            None
        },
        emission is Some <==> audit.enabled,
        emission matches Some(emitted) ==> emitted.event@.base.severity == SeverityId::High
            && emitted.sandbox_id is None,
{
    if !audit.enabled {
        return None;
    }
    let context = ctx();
    let message = "sandbox principal ".to_owned().concat(principal_sandbox_id).concat(
        " attempted admin operation ",
    ).concat(operation);
    let evidence = [
        ("principal_sandbox_id", principal_sandbox_id),
        ("operation", operation),
    ];
    proof {
        assert(pairs_of(evidence@) =~= seq![
            ("principal_sandbox_id"@, principal_sandbox_id@),
            ("operation"@, operation@),
        ]);
    }
    let event = DetectionFindingBuilder::new(&context).finding_info(
        FindingInfo::new(
            "OSGW-SANDBOX-ADMIN-ATTEMPT",
            "Sandbox principal attempted admin operation",
        ).with_desc("a sandbox principal attempted an operation reserved for users or admins"),
    ).severity(SeverityId::High).is_alert(true).evidence_pairs(&evidence).message(
        message.as_str(),
    ).build();
    Some(emit(event))
}

/// The words that give a key away wherever they stand in it.
pub open spec fn credential_words() -> Seq<Seq<char>> {
    seq![
        "secret"@,
        "token"@,
        "password"@,
        "passwd"@,
        "credential"@,
        "api_key"@,
        "apikey"@,
        "private_key"@,
        "auth"@,
    ]
}

/// Whether a key, in lower case, names credential material.
pub open spec fn names_credential(key: Seq<char>) -> bool {
    ||| exists|i: int|
        0 <= i < credential_words().len() && occurs(key, #[trigger] credential_words()[i])
    ||| finishes_with(key, "_key"@)
    ||| key == "key"@
}

/// Whether a setting key looks like it names credential material.
///
/// Values under matching keys are always redacted from audit events; the
/// "never log secrets" rule outranks audit completeness. Conservative by
/// design: a false positive redacts a harmless value, a false negative ships a
/// secret.
#[must_use]
pub fn is_credential_like_key(key: &str) -> (matches: bool)
    ensures
        matches == names_credential(ascii_lowercase(key@)),
        matches <==> {
            let lower = ascii_lowercase(key@);
            ||| holds(lower, "secret"@)
            ||| holds(lower, "token"@)
            ||| holds(lower, "password"@)
            ||| holds(lower, "passwd"@)
            ||| holds(lower, "credential"@)
            ||| holds(lower, "api_key"@)
            ||| holds(lower, "apikey"@)
            ||| holds(lower, "private_key"@)
            ||| holds(lower, "auth"@)
            ||| closes(lower, "_key"@)
            ||| lower == "key"@
        },
{
    proof {
        law_credential_keys_are_these(ascii_lowercase(key@));
    }
    let lower = lowercase_chars_of(key);
    let words = [
        "secret",
        "token",
        "password",
        "passwd",
        "credential",
        "api_key",
        "apikey",
        "private_key",
        "auth",
    ];
    let mut i: usize = 0;
    while i < words.len()
        invariant
            i <= words@.len(),
            lower@ == ascii_lowercase(key@),
            words@.len() == credential_words().len(),
            forall|j: int| 0 <= j < words@.len() ==> (#[trigger] words@[j])@ == credential_words()[j],
            forall|j: int| 0 <= j < i ==> !occurs(lower@, #[trigger] credential_words()[j]),
        decreases words@.len() - i,
    {
        if contains(&lower, words[i]) {
            proof {
                assert(occurs(lower@, credential_words()[i as int]));
                law_credential_keys_are_these(lower@);
            }
            return true;
        }
        i = i + 1;
    }
    if ends_with(&lower, "_key") {
        return true;
    }
    let wanted = chars_of("key");
    if lower.len() != wanted.len() {
        return false;
    }
    let same = stands_at(&lower, &wanted, 0);
    proof {
        assert(lower@.subrange(0, wanted@.len() as int) =~= lower@);
    }
    same
}

/// Whether `upper` and `lower` are the two cases of one ASCII letter.
pub open spec fn cases_of_a_letter(upper: char, lower: char) -> bool {
    'A' <= upper <= 'Z' && lower as int == upper as int + 32
}

/// Whether two keys differ at most in the case of ASCII letters.
pub open spec fn differ_in_case(key: Seq<char>, other: Seq<char>) -> bool {
    &&& key.len() == other.len()
    &&& forall|i: int|
        0 <= i < key.len() ==> (#[trigger] key[i]) == other[i] || cases_of_a_letter(
            key[i],
            other[i],
        ) || cases_of_a_letter(other[i], key[i])
}

/// Keys that differ only in the case of ASCII letters are judged alike.
pub proof fn law_credential_detection_ignores_case(key: Seq<char>, other: Seq<char>)
    requires
        differ_in_case(key, other),
    ensures
        names_credential(ascii_lowercase(key)) == names_credential(ascii_lowercase(other)),
{
    assert forall|i: int| 0 <= i < key.len() implies #[trigger] ascii_lowercase(key)[i]
        == ascii_lowercase(other)[i] by {
        assert(key[i] == other[i] || cases_of_a_letter(key[i], other[i]) || cases_of_a_letter(
            other[i],
            key[i],
        ));
    }
    assert(ascii_lowercase(key) =~= ascii_lowercase(other));
}

/// The credential words are in lower case.
proof fn lemma_credential_words_are_lower(i: int)
    requires
        0 <= i < credential_words().len(),
    ensures
        ascii_lowercase(credential_words()[i]) == credential_words()[i],
{
    reveal_strlit("secret");
    reveal_strlit("token");
    reveal_strlit("password");
    reveal_strlit("passwd");
    reveal_strlit("credential");
    reveal_strlit("api_key");
    reveal_strlit("apikey");
    reveal_strlit("private_key");
    reveal_strlit("auth");
    assert(ascii_lowercase(credential_words()[i]) =~= credential_words()[i]);
}

/// Whatever surrounds a credential word in a key, the key is detected.
pub proof fn law_surrounded_credential_words_are_detected(
    before: Seq<char>,
    i: int,
    after: Seq<char>,
)
    requires
        0 <= i < credential_words().len(),
    ensures
        names_credential(ascii_lowercase(before + credential_words()[i] + after)),
{
    lemma_credential_words_are_lower(i);
    let word = credential_words()[i];
    let key = ascii_lowercase(before + word + after);
    let at = before.len() as int;
    assert(key.subrange(at, at + word.len()) =~= ascii_lowercase(word));
    assert(occurs_at(key, word, at));
}

/// The metadata of a mutation's event names the sandbox whose stream it goes to,
/// and none on the gateway lane.
pub proof fn law_metadata_matches_the_lane(mutation: MutationView, success: bool)
    requires
        mutation.sandbox matches Some((sandbox_id, _)) ==> sandbox_id.len() > 0,
    ensures
        mutation.emission(success).event.base.metadata.uid == mutation.emission(success).sandbox_id,
{
}

} // verus!
