//! Builders for the events that the gateway authors.

use crate::json::{empty_object, json_of, members_of, no_members, object_value, put, put_member, Json};
use crate::ocsf::document::{json_of_option, text_of, texts_of};
use crate::ocsf::enums::{
    AuthActivityId, AuthProtocolId, EntityActivityId, SeverityId, StateId, StatusId,
};
use crate::ocsf::events::{
    actor_of, endpoint_of, facts_of, user_of, AuthenticationEvent, BaseEventData, BaseView,
    ClassView, ConfigStateChangeEvent, DetectionFindingEvent, EntityManagementEvent, EventView,
    OcsfEvent,
};
use crate::ocsf::objects::{
    Actor, ActorView, Container, ContainerView, Device, DeviceView, Endpoint, EndpointView,
    FindingInfo, FindingInfoView, ManagedEntity, ManagedEntityView, Metadata, MetadataView,
    Product, ProductView, User, UserView,
};
use vstd::prelude::*;
use vstd::string::*;

verus! {

/// The OCSF schema version of every event.
pub const SCHEMA_VERSION: &'static str = "1.7.0";

/// The identity under which events are reported.
#[derive(Debug, Clone, PartialEq, Eq)]
pub struct SandboxContext {
    pub sandbox_id: String,
    pub sandbox_name: String,
    pub container_image: String,
    pub hostname: String,
    pub product_version: String,
    /// The proxy address in its canonical text form.
    pub proxy_ip: String,
    pub proxy_port: u16,
}

/// The contents of a [`SandboxContext`].
pub struct ContextView {
    pub sandbox_id: Seq<char>,
    pub sandbox_name: Seq<char>,
    pub container_image: Seq<char>,
    pub hostname: Seq<char>,
    pub product_version: Seq<char>,
    pub proxy_ip: Seq<char>,
    pub proxy_port: u16,
}

impl View for SandboxContext {
    type V = ContextView;

    open spec fn view(&self) -> ContextView {
        ContextView {
            sandbox_id: self.sandbox_id@,
            sandbox_name: self.sandbox_name@,
            container_image: self.container_image@,
            hostname: self.hostname@,
            product_version: self.product_version@,
            proxy_ip: self.proxy_ip@,
            proxy_port: self.proxy_port,
        }
    }
}

impl ContextView {
    /// The metadata of an event with one profile. It names the sandbox only
    /// where there is one.
    pub open spec fn metadata(self, profile: Seq<char>) -> MetadataView {
        MetadataView {
            version: SCHEMA_VERSION@,
            product: ProductView::openshell(self.product_version),
            profiles: seq![profile],
            uid: if self.sandbox_id.len() == 0 {
                None
            } else {
                Some(self.sandbox_id)
            },
            log_source: None,
        }
    }

    /// An event's base with the outcome, the message and the surroundings
    /// filled in.
    pub open spec fn with_common_fields(
        self,
        base: BaseView,
        status: Option<StatusId>,
        message: Option<Seq<char>>,
    ) -> BaseView {
        BaseView {
            status,
            message,
            device: Some(DeviceView { hostname: self.hostname }),
            container: Some(
                ContainerView { name: self.sandbox_name, image: self.container_image },
            ),
            ..base
        }
    }
}

impl SandboxContext {
    /// The metadata of an event with one profile.
    #[must_use]
    pub fn metadata(&self, profile: &str) -> (metadata: Metadata)
        ensures
            metadata@ == self@.metadata(profile@),
    {
        let mut profiles: Vec<String> = Vec::new();
        profiles.push(profile.to_owned());
        proof {
            assert(texts_of(profiles@) =~= seq![profile@]);
        }
        Metadata {
            version: SCHEMA_VERSION.to_owned(),
            product: Product::openshell_sandbox(self.product_version.as_str()),
            profiles,
            uid: if self.sandbox_id.as_str().is_empty() {
                None
            } else {
                Some(self.sandbox_id.clone())
            },
            log_source: None,
        }
    }

    /// Fill in the outcome, the message and the surroundings.
    pub fn apply_common_fields(
        &self,
        base: &mut BaseEventData,
        status: Option<StatusId>,
        message: Option<String>,
    )
        ensures
            final(base)@ == self@.with_common_fields(old(base)@, status, text_of(message)),
    {
        base.status = status;
        base.message = message;
        base.device = Some(Device { hostname: self.hostname.clone() });
        base.container = Some(
            Container { name: self.sandbox_name.clone(), image: self.container_image.clone() },
        );
    }
}

/// The unmapped document: absent where nothing was added.
pub open spec fn unmapped_json(members: Seq<(Seq<char>, Json)>) -> Option<Json> {
    if members.len() == 0 {
        None
    } else {
        Some(Json::Object(members))
    }
}

fn unmapped_value(members: serde_json::Map<String, serde_json::Value>) -> (value: Option<
    serde_json::Value,
>)
    ensures
        json_of_option(value) == unmapped_json(members_of(members)),
{
    if no_members(&members) {
        None
    } else {
        Some(object_value(members))
    }
}

/// Builder for Entity Management \[3004\] events: CRUD on platform resources
/// (workspaces, members, providers, sandboxes, credentials) performed by an
/// authenticated actor.
pub struct EntityManagementBuilder<'a> {
    ctx: &'a SandboxContext,
    activity: EntityActivityId,
    entity: Option<ManagedEntity>,
    actor: Option<Actor>,
    severity: SeverityId,
    status: Option<StatusId>,
    message: Option<String>,
    unmapped: serde_json::Map<String, serde_json::Value>,
}

/// The contents of an [`EntityManagementBuilder`].
pub struct EntityBuilderView {
    pub ctx: ContextView,
    pub activity: EntityActivityId,
    pub entity: Option<ManagedEntityView>,
    pub actor: Option<ActorView>,
    pub severity: SeverityId,
    pub status: Option<StatusId>,
    pub message: Option<Seq<char>>,
    pub unmapped: Seq<(Seq<char>, Json)>,
}

/// The contents of an optional resource.
pub open spec fn entity_of(entity: Option<ManagedEntity>) -> Option<ManagedEntityView> {
    match entity {
        Some(e) => Some(e@),
        None => None,
    }
}

impl<'a> View for EntityManagementBuilder<'a> {
    type V = EntityBuilderView;

    closed spec fn view(&self) -> EntityBuilderView {
        EntityBuilderView {
            ctx: self.ctx@,
            activity: self.activity,
            entity: entity_of(self.entity),
            actor: actor_of(self.actor),
            severity: self.severity,
            status: self.status,
            message: text_of(self.message),
            unmapped: members_of(self.unmapped),
        }
    }
}

impl EntityBuilderView {
    /// Nothing set but the context.
    pub open spec fn fresh(ctx: ContextView) -> EntityBuilderView {
        EntityBuilderView {
            ctx,
            activity: EntityActivityId::Unknown,
            entity: None,
            actor: None,
            severity: SeverityId::Informational,
            status: None,
            message: None,
            unmapped: Seq::empty(),
        }
    }

    /// The event that is built. An unset resource shows as `unknown`.
    pub open spec fn event(self) -> EventView {
        EventView {
            base: self.ctx.with_common_fields(
                BaseView {
                    unmapped: unmapped_json(self.unmapped),
                    ..BaseView::of_class(
                        3004,
                        "Entity Management"@,
                        3,
                        "Identity & Access Management"@,
                        self.activity.id(),
                        self.activity.name(),
                        self.severity,
                        self.ctx.metadata("security_control"@),
                    )
                },
                self.status,
                self.message,
            ),
            class: ClassView::EntityManagement {
                entity: match self.entity {
                    Some(entity) => entity,
                    None => ManagedEntityView::identified("unknown"@, "unknown"@),
                },
                actor: self.actor,
            },
        }
    }
}

impl<'a> EntityManagementBuilder<'a> {
    /// Start an event in a context.
    #[must_use]
    pub fn new(ctx: &'a SandboxContext) -> (builder: Self)
        ensures
            builder@ == EntityBuilderView::fresh(ctx@),
    {
        EntityManagementBuilder {
            ctx,
            activity: EntityActivityId::Unknown,
            entity: None,
            actor: None,
            severity: SeverityId::Informational,
            status: None,
            message: None,
            unmapped: empty_object(),
        }
    }

    /// Set the event activity (Create / Update / Delete).
    #[must_use]
    pub fn activity(self, id: EntityActivityId) -> (builder: Self)
        ensures
            builder@ == (EntityBuilderView { activity: id, ..self@ }),
    {
        EntityManagementBuilder { activity: id, ..self }
    }

    /// Set the resource the operation acts on.
    #[must_use]
    pub fn entity(self, entity: ManagedEntity) -> (builder: Self)
        ensures
            builder@ == (EntityBuilderView { entity: Some(entity@), ..self@ }),
    {
        EntityManagementBuilder { entity: Some(entity), ..self }
    }

    /// Set the authenticated identity performing the operation.
    #[must_use]
    pub fn actor_user(self, user: User) -> (builder: Self)
        ensures
            builder@ == (EntityBuilderView { actor: Some(ActorView { user: user@ }), ..self@ }),
    {
        EntityManagementBuilder { actor: Some(Actor::from_user(user)), ..self }
    }

    /// Set the severity.
    #[must_use]
    pub fn severity(self, severity: SeverityId) -> (builder: Self)
        ensures
            builder@ == (EntityBuilderView { severity, ..self@ }),
    {
        EntityManagementBuilder { severity, ..self }
    }

    /// Set the outcome.
    #[must_use]
    pub fn status(self, status: StatusId) -> (builder: Self)
        ensures
            builder@ == (EntityBuilderView { status: Some(status), ..self@ }),
    {
        EntityManagementBuilder { status: Some(status), ..self }
    }

    /// Set the human-readable message.
    #[must_use]
    pub fn message(self, message: &str) -> (builder: Self)
        ensures
            builder@ == (EntityBuilderView { message: Some(message@), ..self@ }),
    {
        EntityManagementBuilder { message: Some(message.to_owned()), ..self }
    }

    /// Add an unmapped field (e.g. `operation`, `workspace`).
    #[must_use]
    pub fn unmapped(self, key: &str, value: serde_json::Value) -> (builder: Self)
        ensures
            builder@ == (EntityBuilderView {
                unmapped: put(self@.unmapped, key@, json_of(value)),
                ..self@
            }),
    {
        let mut members = self.unmapped;
        put_member(&mut members, key.to_owned(), value);
        EntityManagementBuilder { unmapped: members, ..self }
    }

    /// The event.
    #[must_use]
    pub fn build(self) -> (event: OcsfEvent)
        ensures
            event@ == self@.event(),
    {
        let mut base = BaseEventData::new(
            3004,
            "Entity Management",
            3,
            "Identity & Access Management",
            self.activity.as_u8(),
            self.activity.label(),
            self.severity,
            self.ctx.metadata("security_control"),
        );
        base.unmapped = unmapped_value(self.unmapped);
        self.ctx.apply_common_fields(&mut base, self.status, self.message);
        // A managed entity is the class's whole point; an unset one is a caller
        // bug surfaced as an unmistakable placeholder rather than a panic on
        // the logging path.
        let entity = match self.entity {
            Some(entity) => entity,
            None => ManagedEntity::new("unknown", "unknown"),
        };
        OcsfEvent::EntityManagement(EntityManagementEvent { base, entity, actor: self.actor })
    }
}


/// Builder for Authentication \[3002\] events: authentication outcomes at the
/// gateway boundary. Never carry token or credential material; the identity
/// and a low-cardinality failure reason are the payload.
pub struct AuthenticationBuilder<'a> {
    ctx: &'a SandboxContext,
    activity: AuthActivityId,
    user: Option<User>,
    auth_protocol: Option<AuthProtocolId>,
    src_endpoint: Option<Endpoint>,
    severity: SeverityId,
    status: Option<StatusId>,
    status_detail: Option<String>,
    message: Option<String>,
    unmapped: serde_json::Map<String, serde_json::Value>,
}

/// The contents of an [`AuthenticationBuilder`].
pub struct AuthenticationBuilderView {
    pub ctx: ContextView,
    pub activity: AuthActivityId,
    pub user: Option<UserView>,
    pub auth_protocol: Option<AuthProtocolId>,
    pub src_endpoint: Option<EndpointView>,
    pub severity: SeverityId,
    pub status: Option<StatusId>,
    pub status_detail: Option<Seq<char>>,
    pub message: Option<Seq<char>>,
    pub unmapped: Seq<(Seq<char>, Json)>,
}

impl<'a> View for AuthenticationBuilder<'a> {
    type V = AuthenticationBuilderView;

    closed spec fn view(&self) -> AuthenticationBuilderView {
        AuthenticationBuilderView {
            ctx: self.ctx@,
            activity: self.activity,
            user: user_of(self.user),
            auth_protocol: self.auth_protocol,
            src_endpoint: endpoint_of(self.src_endpoint),
            severity: self.severity,
            status: self.status,
            status_detail: text_of(self.status_detail),
            message: text_of(self.message),
            unmapped: members_of(self.unmapped),
        }
    }
}

impl AuthenticationBuilderView {
    /// A logon of medium severity with nothing else set.
    pub open spec fn fresh(ctx: ContextView) -> AuthenticationBuilderView {
        AuthenticationBuilderView {
            ctx,
            activity: AuthActivityId::Logon,
            user: None,
            auth_protocol: None,
            src_endpoint: None,
            severity: SeverityId::Medium,
            status: None,
            status_detail: None,
            message: None,
            unmapped: Seq::empty(),
        }
    }

    /// The event that is built.
    pub open spec fn event(self) -> EventView {
        EventView {
            base: self.ctx.with_common_fields(
                BaseView {
                    status_detail: self.status_detail,
                    unmapped: unmapped_json(self.unmapped),
                    ..BaseView::of_class(
                        3002,
                        "Authentication"@,
                        3,
                        "Identity & Access Management"@,
                        self.activity.id(),
                        self.activity.name(),
                        self.severity,
                        self.ctx.metadata("security_control"@),
                    )
                },
                self.status,
                self.message,
            ),
            class: ClassView::Authentication {
                user: self.user,
                auth_protocol: self.auth_protocol,
                src_endpoint: self.src_endpoint,
            },
        }
    }
}

impl<'a> AuthenticationBuilder<'a> {
    /// Start an event in a context.
    #[must_use]
    pub fn new(ctx: &'a SandboxContext) -> (builder: Self)
        ensures
            builder@ == AuthenticationBuilderView::fresh(ctx@),
    {
        AuthenticationBuilder {
            ctx,
            activity: AuthActivityId::Logon,
            user: None,
            auth_protocol: None,
            src_endpoint: None,
            severity: SeverityId::Medium,
            status: None,
            status_detail: None,
            message: None,
            unmapped: empty_object(),
        }
    }

    /// Set the event activity (defaults to Logon).
    #[must_use]
    pub fn activity(self, id: AuthActivityId) -> (builder: Self)
        ensures
            builder@ == (AuthenticationBuilderView { activity: id, ..self@ }),
    {
        AuthenticationBuilder { activity: id, ..self }
    }

    /// Set the identity that attempted to authenticate, as far as known.
    #[must_use]
    pub fn user(self, user: User) -> (builder: Self)
        ensures
            builder@ == (AuthenticationBuilderView { user: Some(user@), ..self@ }),
    {
        AuthenticationBuilder { user: Some(user), ..self }
    }

    /// Set the authentication mechanism.
    #[must_use]
    pub fn auth_protocol(self, id: AuthProtocolId) -> (builder: Self)
        ensures
            builder@ == (AuthenticationBuilderView { auth_protocol: Some(id), ..self@ }),
    {
        AuthenticationBuilder { auth_protocol: Some(id), ..self }
    }

    /// Set where the attempt came from.
    #[must_use]
    pub fn src_endpoint(self, endpoint: Endpoint) -> (builder: Self)
        ensures
            builder@ == (AuthenticationBuilderView { src_endpoint: Some(endpoint@), ..self@ }),
    {
        AuthenticationBuilder { src_endpoint: Some(endpoint), ..self }
    }

    /// Set the low-cardinality failure reason (e.g. `token expired`).
    #[must_use]
    pub fn status_detail(self, detail: &str) -> (builder: Self)
        ensures
            builder@ == (AuthenticationBuilderView { status_detail: Some(detail@), ..self@ }),
    {
        AuthenticationBuilder { status_detail: Some(detail.to_owned()), ..self }
    }

    /// Set the severity.
    #[must_use]
    pub fn severity(self, severity: SeverityId) -> (builder: Self)
        ensures
            builder@ == (AuthenticationBuilderView { severity, ..self@ }),
    {
        AuthenticationBuilder { severity, ..self }
    }

    /// Set the outcome.
    #[must_use]
    pub fn status(self, status: StatusId) -> (builder: Self)
        ensures
            builder@ == (AuthenticationBuilderView { status: Some(status), ..self@ }),
    {
        AuthenticationBuilder { status: Some(status), ..self }
    }

    /// Set the human-readable message.
    #[must_use]
    pub fn message(self, message: &str) -> (builder: Self)
        ensures
            builder@ == (AuthenticationBuilderView { message: Some(message@), ..self@ }),
    {
        AuthenticationBuilder { message: Some(message.to_owned()), ..self }
    }

    /// Add an unmapped field.
    #[must_use]
    pub fn unmapped(self, key: &str, value: serde_json::Value) -> (builder: Self)
        ensures
            builder@ == (AuthenticationBuilderView {
                unmapped: put(self@.unmapped, key@, json_of(value)),
                ..self@
            }),
    {
        let mut members = self.unmapped;
        put_member(&mut members, key.to_owned(), value);
        AuthenticationBuilder { unmapped: members, ..self }
    }

    /// The event.
    #[must_use]
    pub fn build(self) -> (event: OcsfEvent)
        ensures
            event@ == self@.event(),
    {
        let mut base = BaseEventData::new(
            3002,
            "Authentication",
            3,
            "Identity & Access Management",
            self.activity.as_u8(),
            self.activity.label(),
            self.severity,
            self.ctx.metadata("security_control"),
        );
        if let Some(detail) = &self.status_detail {
            base.set_status_detail(detail.as_str());
        }
        base.unmapped = unmapped_value(self.unmapped);
        self.ctx.apply_common_fields(&mut base, self.status, self.message);
        OcsfEvent::Authentication(
            AuthenticationEvent {
                base,
                user: self.user,
                auth_protocol: self.auth_protocol,
                src_endpoint: self.src_endpoint,
            },
        )
    }
}

/// Builder for Device Config State Change \[5019\] events.
pub struct ConfigStateChangeBuilder<'a> {
    ctx: &'a SandboxContext,
    state: StateId,
    state_label: String,
    actor: Option<Actor>,
    severity: SeverityId,
    status: Option<StatusId>,
    message: Option<String>,
    unmapped: serde_json::Map<String, serde_json::Value>,
}

/// The contents of a [`ConfigStateChangeBuilder`].
pub struct ConfigBuilderView {
    pub ctx: ContextView,
    pub state: StateId,
    pub state_label: Seq<char>,
    pub actor: Option<ActorView>,
    pub severity: SeverityId,
    pub status: Option<StatusId>,
    pub message: Option<Seq<char>>,
    pub unmapped: Seq<(Seq<char>, Json)>,
}

impl<'a> View for ConfigStateChangeBuilder<'a> {
    type V = ConfigBuilderView;

    closed spec fn view(&self) -> ConfigBuilderView {
        ConfigBuilderView {
            ctx: self.ctx@,
            state: self.state,
            state_label: self.state_label@,
            actor: actor_of(self.actor),
            severity: self.severity,
            status: self.status,
            message: text_of(self.message),
            unmapped: members_of(self.unmapped),
        }
    }
}

impl ConfigBuilderView {
    /// An unknown state with nothing else set.
    pub open spec fn fresh(ctx: ContextView) -> ConfigBuilderView {
        ConfigBuilderView {
            ctx,
            state: StateId::Unknown,
            state_label: StateId::Unknown.name(),
            actor: None,
            severity: SeverityId::Informational,
            status: None,
            message: None,
            unmapped: Seq::empty(),
        }
    }

    /// The event that is built.
    pub open spec fn event(self) -> EventView {
        EventView {
            base: self.ctx.with_common_fields(
                BaseView {
                    unmapped: unmapped_json(self.unmapped),
                    ..BaseView::of_class(
                        5019,
                        "Device Config State Change"@,
                        5,
                        "Discovery"@,
                        1,
                        "Log"@,
                        self.severity,
                        self.ctx.metadata("security_control"@),
                    )
                },
                self.status,
                self.message,
            ),
            class: ClassView::ConfigStateChange {
                state: self.state,
                state_label: self.state_label,
                actor: self.actor,
            },
        }
    }
}

impl<'a> ConfigStateChangeBuilder<'a> {
    /// Start an event in a context.
    #[must_use]
    pub fn new(ctx: &'a SandboxContext) -> (builder: Self)
        ensures
            builder@ == ConfigBuilderView::fresh(ctx@),
    {
        ConfigStateChangeBuilder {
            ctx,
            state: StateId::Unknown,
            state_label: StateId::Unknown.label().to_owned(),
            actor: None,
            severity: SeverityId::Informational,
            status: None,
            message: None,
            unmapped: empty_object(),
        }
    }

    /// Set the new state and what it is called.
    #[must_use]
    pub fn state(self, state: StateId, label: &str) -> (builder: Self)
        ensures
            builder@ == (ConfigBuilderView { state, state_label: label@, ..self@ }),
    {
        ConfigStateChangeBuilder { state, state_label: label.to_owned(), ..self }
    }

    /// Set the authenticated identity that changed the configuration.
    #[must_use]
    pub fn actor_user(self, user: User) -> (builder: Self)
        ensures
            builder@ == (ConfigBuilderView { actor: Some(ActorView { user: user@ }), ..self@ }),
    {
        ConfigStateChangeBuilder { actor: Some(Actor::from_user(user)), ..self }
    }

    /// Set the severity.
    #[must_use]
    pub fn severity(self, severity: SeverityId) -> (builder: Self)
        ensures
            builder@ == (ConfigBuilderView { severity, ..self@ }),
    {
        ConfigStateChangeBuilder { severity, ..self }
    }

    /// Set the outcome.
    #[must_use]
    pub fn status(self, status: StatusId) -> (builder: Self)
        ensures
            builder@ == (ConfigBuilderView { status: Some(status), ..self@ }),
    {
        ConfigStateChangeBuilder { status: Some(status), ..self }
    }

    /// Set the human-readable message.
    #[must_use]
    pub fn message(self, message: &str) -> (builder: Self)
        ensures
            builder@ == (ConfigBuilderView { message: Some(message@), ..self@ }),
    {
        ConfigStateChangeBuilder { message: Some(message.to_owned()), ..self }
    }

    /// Add an unmapped field.
    #[must_use]
    pub fn unmapped(self, key: &str, value: serde_json::Value) -> (builder: Self)
        ensures
            builder@ == (ConfigBuilderView {
                unmapped: put(self@.unmapped, key@, json_of(value)),
                ..self@
            }),
    {
        let mut members = self.unmapped;
        put_member(&mut members, key.to_owned(), value);
        ConfigStateChangeBuilder { unmapped: members, ..self }
    }

    /// The event.
    #[must_use]
    pub fn build(self) -> (event: OcsfEvent)
        ensures
            event@ == self@.event(),
    {
        let mut base = BaseEventData::new(
            5019,
            "Device Config State Change",
            5,
            "Discovery",
            1,
            "Log",
            self.severity,
            self.ctx.metadata("security_control"),
        );
        base.unmapped = unmapped_value(self.unmapped);
        self.ctx.apply_common_fields(&mut base, self.status, self.message);
        OcsfEvent::ConfigStateChange(
            ConfigStateChangeEvent {
                base,
                state: self.state,
                state_label: self.state_label,
                actor: self.actor,
            },
        )
    }
}

/// Builder for Detection Finding \[2004\] events.
pub struct DetectionFindingBuilder<'a> {
    ctx: &'a SandboxContext,
    finding_info: Option<FindingInfo>,
    evidence: Vec<(String, String)>,
    is_alert: bool,
    severity: SeverityId,
    status: Option<StatusId>,
    message: Option<String>,
}

/// The contents of a [`DetectionFindingBuilder`].
pub struct FindingBuilderView {
    pub ctx: ContextView,
    pub finding_info: Option<FindingInfoView>,
    pub evidence: Seq<(Seq<char>, Seq<char>)>,
    pub is_alert: bool,
    pub severity: SeverityId,
    pub status: Option<StatusId>,
    pub message: Option<Seq<char>>,
}

/// The contents of an optional finding description.
pub open spec fn finding_of(info: Option<FindingInfo>) -> Option<FindingInfoView> {
    match info {
        Some(i) => Some(i@),
        None => None,
    }
}

impl<'a> View for DetectionFindingBuilder<'a> {
    type V = FindingBuilderView;

    closed spec fn view(&self) -> FindingBuilderView {
        FindingBuilderView {
            ctx: self.ctx@,
            finding_info: finding_of(self.finding_info),
            evidence: facts_of(self.evidence@),
            is_alert: self.is_alert,
            severity: self.severity,
            status: self.status,
            message: text_of(self.message),
        }
    }
}

impl FindingBuilderView {
    /// A finding of medium severity with nothing else set.
    pub open spec fn fresh(ctx: ContextView) -> FindingBuilderView {
        FindingBuilderView {
            ctx,
            finding_info: None,
            evidence: Seq::empty(),
            is_alert: false,
            severity: SeverityId::Medium,
            status: None,
            message: None,
        }
    }

    /// The event that is built. An unset description shows as `unknown`.
    pub open spec fn event(self) -> EventView {
        EventView {
            base: self.ctx.with_common_fields(
                BaseView::of_class(
                    2004,
                    "Detection Finding"@,
                    2,
                    "Findings"@,
                    1,
                    "Create"@,
                    self.severity,
                    self.ctx.metadata("security_control"@),
                ),
                self.status,
                self.message,
            ),
            class: ClassView::DetectionFinding {
                finding_info: match self.finding_info {
                    Some(info) => info,
                    None => FindingInfoView {
                        uid: "unknown"@,
                        title: "unknown"@,
                        desc: None,
                    },
                },
                evidence: self.evidence,
                is_alert: self.is_alert,
            },
        }
    }
}

/// The facts that a list of borrowed pairs names.
pub open spec fn pairs_of(pairs: Seq<(&str, &str)>) -> Seq<(Seq<char>, Seq<char>)> {
    pairs.map_values(|pair: (&str, &str)| (pair.0@, pair.1@))
}

impl<'a> DetectionFindingBuilder<'a> {
    /// Start an event in a context.
    #[must_use]
    pub fn new(ctx: &'a SandboxContext) -> (builder: Self)
        ensures
            builder@ == FindingBuilderView::fresh(ctx@),
    {
        let builder = DetectionFindingBuilder {
            ctx,
            finding_info: None,
            evidence: Vec::new(),
            is_alert: false,
            severity: SeverityId::Medium,
            status: None,
            message: None,
        };
        proof {
            assert(facts_of(builder.evidence@) =~= Seq::empty());
        }
        builder
    }

    /// Set what was found.
    #[must_use]
    pub fn finding_info(self, info: FindingInfo) -> (builder: Self)
        ensures
            builder@ == (FindingBuilderView { finding_info: Some(info@), ..self@ }),
    {
        DetectionFindingBuilder { finding_info: Some(info), ..self }
    }

    /// Set whether the finding is an alert.
    #[must_use]
    pub fn is_alert(self, is_alert: bool) -> (builder: Self)
        ensures
            builder@ == (FindingBuilderView { is_alert, ..self@ }),
    {
        DetectionFindingBuilder { is_alert, ..self }
    }

    /// Set the named facts that support the finding.
    #[must_use]
    pub fn evidence_pairs(self, pairs: &[(&str, &str)]) -> (builder: Self)
        ensures
            builder@ == (FindingBuilderView { evidence: pairs_of(pairs@), ..self@ }),
    {
        let mut evidence: Vec<(String, String)> = Vec::new();
        let mut i: usize = 0;
        while i < pairs.len()
            invariant
                i <= pairs@.len(),
                facts_of(evidence@) =~= pairs_of(pairs@).take(i as int),
            decreases pairs@.len() - i,
        {
            let (name, value) = pairs[i];
            evidence.push((name.to_owned(), value.to_owned()));
            proof {
                assert(pairs_of(pairs@).take(i + 1) =~= pairs_of(pairs@).take(i as int).push(
                    (name@, value@),
                ));
            }
            i = i + 1;
        }
        proof {
            assert(pairs_of(pairs@).take(i as int) =~= pairs_of(pairs@));
        }
        DetectionFindingBuilder { evidence, ..self }
    }

    /// Set the severity.
    #[must_use]
    pub fn severity(self, severity: SeverityId) -> (builder: Self)
        ensures
            builder@ == (FindingBuilderView { severity, ..self@ }),
    {
        DetectionFindingBuilder { severity, ..self }
    }

    /// Set the outcome.
    #[must_use]
    pub fn status(self, status: StatusId) -> (builder: Self)
        ensures
            builder@ == (FindingBuilderView { status: Some(status), ..self@ }),
    {
        DetectionFindingBuilder { status: Some(status), ..self }
    }

    /// Set the human-readable message.
    #[must_use]
    pub fn message(self, message: &str) -> (builder: Self)
        ensures
            builder@ == (FindingBuilderView { message: Some(message@), ..self@ }),
    {
        DetectionFindingBuilder { message: Some(message.to_owned()), ..self }
    }

    /// The event.
    #[must_use]
    pub fn build(self) -> (event: OcsfEvent)
        ensures
            event@ == self@.event(),
    {
        let mut base = BaseEventData::new(
            2004,
            "Detection Finding",
            2,
            "Findings",
            1,
            "Create",
            self.severity,
            self.ctx.metadata("security_control"),
        );
        self.ctx.apply_common_fields(&mut base, self.status, self.message);
        let finding_info = match self.finding_info {
            Some(info) => info,
            None => FindingInfo::new("unknown", "unknown"),
        };
        OcsfEvent::DetectionFinding(
            DetectionFindingEvent {
                base,
                finding_info,
                evidence: self.evidence,
                is_alert: self.is_alert,
            },
        )
    }
}

} // verus!
