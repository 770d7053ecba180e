//! What the vocabulary of the schema stands for, and what built events say of
//! what their builders were given.

use crate::json::Json;
use crate::ocsf::builders::{
    unmapped_json, AuthenticationBuilderView, ConfigBuilderView, ContextView, EntityBuilderView,
    FindingBuilderView, SCHEMA_VERSION,
};
use crate::ocsf::enums::{
    AuthActivityId, AuthProtocolId, EntityActivityId, SeverityId, StateId, StatusId, UserTypeId,
};
use crate::ocsf::events::{BaseView, ClassView};
use crate::ocsf::objects::{ManagedEntityView, MetadataView, ProductView, UserView};
use vstd::prelude::*;

verus! {

/// The ids and labels of severities.
pub proof fn law_severities_by_id_and_label()
    ensures
        SeverityId::Unknown.id() == 0 && SeverityId::Unknown.name() == "Unknown"@,
        SeverityId::Informational.id() == 1 && SeverityId::Informational.name() == "Informational"@,
        SeverityId::Low.id() == 2 && SeverityId::Low.name() == "Low"@,
        SeverityId::Medium.id() == 3 && SeverityId::Medium.name() == "Medium"@,
        SeverityId::High.id() == 4 && SeverityId::High.name() == "High"@,
        SeverityId::Critical.id() == 5 && SeverityId::Critical.name() == "Critical"@,
        SeverityId::Fatal.id() == 6 && SeverityId::Fatal.name() == "Fatal"@,
        SeverityId::Other.id() == 99 && SeverityId::Other.name() == "Other"@,
{
}

/// The ids and labels of outcomes.
pub proof fn law_outcomes_by_id_and_label()
    ensures
        StatusId::Unknown.id() == 0 && StatusId::Unknown.name() == "Unknown"@,
        StatusId::Success.id() == 1 && StatusId::Success.name() == "Success"@,
        StatusId::Failure.id() == 2 && StatusId::Failure.name() == "Failure"@,
        StatusId::Other.id() == 99 && StatusId::Other.name() == "Other"@,
{
}

/// The ids and labels of entity activities.
pub proof fn law_entity_activities_by_id_and_label()
    ensures
        EntityActivityId::Unknown.id() == 0 && EntityActivityId::Unknown.name() == "Unknown"@,
        EntityActivityId::Create.id() == 1 && EntityActivityId::Create.name() == "Create"@,
        EntityActivityId::Read.id() == 2 && EntityActivityId::Read.name() == "Read"@,
        EntityActivityId::Update.id() == 3 && EntityActivityId::Update.name() == "Update"@,
        EntityActivityId::Delete.id() == 4 && EntityActivityId::Delete.name() == "Delete"@,
        EntityActivityId::Other.id() == 99 && EntityActivityId::Other.name() == "Other"@,
{
}

/// The ids and labels of authentication activities and protocols.
pub proof fn law_authentication_by_id_and_label()
    ensures
        AuthActivityId::Unknown.id() == 0 && AuthActivityId::Unknown.name() == "Unknown"@,
        AuthActivityId::Logon.id() == 1 && AuthActivityId::Logon.name() == "Logon"@,
        AuthActivityId::Logoff.id() == 2 && AuthActivityId::Logoff.name() == "Logoff"@,
        AuthActivityId::Other.id() == 99 && AuthActivityId::Other.name() == "Other"@,
        AuthProtocolId::Unknown.id() == 0 && AuthProtocolId::Unknown.name() == "Unknown"@,
        AuthProtocolId::OpenId.id() == 4 && AuthProtocolId::OpenId.name() == "OpenID"@,
        AuthProtocolId::Other.id() == 99 && AuthProtocolId::Other.name() == "Other"@,
{
}

/// The ids and labels of user types and configuration states, and the type that
/// each id stands for.
pub proof fn law_types_and_states_by_id_and_label(id: u8)
    ensures
        UserTypeId::Unknown.id() == 0 && UserTypeId::Unknown.name() == "Unknown"@,
        UserTypeId::User.id() == 1 && UserTypeId::User.name() == "User"@,
        UserTypeId::Admin.id() == 2 && UserTypeId::Admin.name() == "Admin"@,
        UserTypeId::System.id() == 3 && UserTypeId::System.name() == "System"@,
        UserTypeId::Other.id() == 99 && UserTypeId::Other.name() == "Other"@,
        UserTypeId::of_id(id) == UserTypeId::User <==> id == 1,
        UserTypeId::of_id(id) == UserTypeId::Admin <==> id == 2,
        UserTypeId::of_id(id) == UserTypeId::System <==> id == 3,
        UserTypeId::of_id(id) == UserTypeId::Other <==> id == 99,
        UserTypeId::of_id(id) == UserTypeId::Unknown <==> id != 1 && id != 2 && id != 3 && id
            != 99,
        StateId::Unknown.id() == 0 && StateId::Unknown.name() == "Unknown"@,
        StateId::Disabled.id() == 1 && StateId::Disabled.name() == "Disabled"@,
        StateId::Enabled.id() == 2 && StateId::Enabled.name() == "Enabled"@,
        StateId::Other.id() == 99 && StateId::Other.name() == "Other"@,
{
}

/// An identity is what it was made of: with a uid and a type, or known by name
/// only.
pub proof fn law_identities_are_as_given(name: Seq<char>, uid: Seq<char>, type_id: UserTypeId)
    ensures
        UserView::identified(name, uid, type_id).name == name,
        UserView::identified(name, uid, type_id).uid == Some(uid),
        UserView::identified(name, uid, type_id).type_id == Some(type_id),
        UserView::named(name).name == name,
        UserView::named(name).uid is None,
        UserView::named(name).type_id == Some(UserTypeId::Unknown),
{
}

/// A resource is called by its name, else by its uid, else by its type.
pub proof fn law_resources_are_called_by_what_is_known(entity: ManagedEntityView)
    ensures
        entity.name is Some ==> entity.readable() == entity.name->0,
        entity.name is None && entity.uid is Some ==> entity.readable() == entity.uid->0,
        entity.name is None && entity.uid is None ==> entity.readable() == entity.entity_type,
        ManagedEntityView::identified(entity.entity_type, entity.readable()).entity_type
            == entity.entity_type,
        ManagedEntityView::identified(entity.entity_type, entity.readable()).uid == Some(
            entity.readable(),
        ),
        ManagedEntityView::identified(entity.entity_type, entity.readable()).name is None,
{
}

/// The product is OpenShell's, at the given version.
pub proof fn law_the_product_is_openshell(version: Seq<char>)
    ensures
        ProductView::openshell(version).name == "OpenShell Sandbox"@,
        ProductView::openshell(version).vendor_name == "NVIDIA"@,
        ProductView::openshell(version).version == version,
        SCHEMA_VERSION@ == "1.7.0"@,
{
}

/// Whether metadata is that of a context: the schema and the product at their
/// versions, one profile, and the sandbox where there is one.
pub open spec fn describes(metadata: MetadataView, ctx: ContextView, profile: Seq<char>) -> bool {
    &&& metadata.version == "1.7.0"@
    &&& metadata.product.name == "OpenShell Sandbox"@
    &&& metadata.product.vendor_name == "NVIDIA"@
    &&& metadata.product.version == ctx.product_version
    &&& metadata.profiles.len() == 1 && metadata.profiles[0] == profile
    &&& ctx.sandbox_id.len() > 0 ==> metadata.uid == Some(ctx.sandbox_id)
    &&& ctx.sandbox_id.len() == 0 ==> metadata.uid is None
    &&& metadata.log_source is None
}

/// A context's metadata describes it.
pub proof fn law_metadata_describes_the_context(ctx: ContextView, profile: Seq<char>)
    ensures
        describes(ctx.metadata(profile), ctx, profile),
{
}

/// Filling in the common fields sets the outcome, the message, the host and the
/// container, and leaves everything else as it was.
pub proof fn law_common_fields_are_filled_in(
    ctx: ContextView,
    base: BaseView,
    status: Option<StatusId>,
    message: Option<Seq<char>>,
)
    ensures
        ({
            let filled = ctx.with_common_fields(base, status, message);
            &&& filled.status == status
            &&& filled.message == message
            &&& filled.device is Some && filled.device->0.hostname == ctx.hostname
            &&& filled.container is Some && filled.container->0.name == ctx.sandbox_name
            &&& filled.container is Some && filled.container->0.image == ctx.container_image
            &&& filled == (BaseView {
                status,
                message,
                device: filled.device,
                container: filled.container,
                ..base
            })
        }),
{
}

/// A new event is of the given class and activity, and nothing else is known of
/// it; its type is the class and the activity taken together.
pub proof fn law_new_events_are_of_their_class(
    class_uid: u32,
    class_name: Seq<char>,
    category_uid: u8,
    category_name: Seq<char>,
    activity_id: u8,
    activity_name: Seq<char>,
    severity: SeverityId,
    metadata: MetadataView,
)
    ensures
        ({
            let base = BaseView::of_class(
                class_uid,
                class_name,
                category_uid,
                category_name,
                activity_id,
                activity_name,
                severity,
                metadata,
            );
            &&& base.class_uid == class_uid && base.class_name == class_name
            &&& base.category_uid == category_uid && base.category_name == category_name
            &&& base.activity_id == activity_id && base.activity_name == activity_name
            &&& base.type_uid == class_uid * 100 + activity_id
            &&& base.type_label == class_name + ": "@ + activity_name
            &&& base.time == 0
            &&& base.severity == severity
            &&& base.metadata == metadata
            &&& base.status is None && base.status_detail is None && base.message is None
            &&& base.device is None && base.container is None && base.unmapped is None
        }),
{
}

/// Whether a built event's base is that of a context, with the given severity,
/// outcome and message.
pub open spec fn built_in(
    base: BaseView,
    ctx: ContextView,
    severity: SeverityId,
    status: Option<StatusId>,
    message: Option<Seq<char>>,
) -> bool {
    &&& describes(base.metadata, ctx, "security_control"@)
    &&& base.device is Some && base.device->0.hostname == ctx.hostname
    &&& base.container is Some && base.container->0.name == ctx.sandbox_name
    &&& base.container is Some && base.container->0.image == ctx.container_image
    &&& base.severity == severity
    &&& base.status == status
    &&& base.message == message
    &&& base.time == 0
    &&& base.type_uid == base.class_uid * 100 + base.activity_id
    &&& base.type_label == base.class_name + ": "@ + base.activity_name
}

/// Unmapped members make an object, and none make nothing.
pub proof fn law_unmapped_members_make_an_object(members: Seq<(Seq<char>, Json)>)
    ensures
        members.len() == 0 ==> unmapped_json(members) is None,
        members.len() > 0 ==> unmapped_json(members) == Some(Json::Object(members)),
{
}

/// An Entity Management event says what its builder was given.
pub proof fn law_entity_events_are_as_built(builder: EntityBuilderView)
    ensures
        ({
            let event = builder.event();
            let base = event.base;
            &&& base.class_uid == 3004 && base.class_name == "Entity Management"@
            &&& base.category_uid == 3 && base.category_name == "Identity & Access Management"@
            &&& base.activity_id == builder.activity.id()
            &&& base.activity_name == builder.activity.name()
            &&& built_in(base, builder.ctx, builder.severity, builder.status, builder.message)
            &&& base.status_detail is None
            &&& builder.unmapped.len() == 0 ==> base.unmapped is None
            &&& builder.unmapped.len() > 0 ==> base.unmapped == Some(Json::Object(builder.unmapped))
            &&& event.class is EntityManagement
            &&& event.class->EntityManagement_actor == builder.actor
            &&& builder.entity is Some ==> event.class->EntityManagement_entity
                == builder.entity->0
            &&& builder.entity is None ==> event.class->EntityManagement_entity == (
            ManagedEntityView { entity_type: "unknown"@, uid: Some("unknown"@), name: None })
        }),
{
}

/// An Authentication event says what its builder was given.
pub proof fn law_authentication_events_are_as_built(builder: AuthenticationBuilderView)
    ensures
        ({
            let event = builder.event();
            let base = event.base;
            &&& base.class_uid == 3002 && base.class_name == "Authentication"@
            &&& base.category_uid == 3 && base.category_name == "Identity & Access Management"@
            &&& base.activity_id == builder.activity.id()
            &&& base.activity_name == builder.activity.name()
            &&& built_in(base, builder.ctx, builder.severity, builder.status, builder.message)
            &&& base.status_detail == builder.status_detail
            &&& builder.unmapped.len() == 0 ==> base.unmapped is None
            &&& builder.unmapped.len() > 0 ==> base.unmapped == Some(Json::Object(builder.unmapped))
            &&& event.class == (ClassView::Authentication {
                user: builder.user,
                auth_protocol: builder.auth_protocol,
                src_endpoint: builder.src_endpoint,
            })
        }),
{
}

/// A Device Config State Change event says what its builder was given.
pub proof fn law_config_events_are_as_built(builder: ConfigBuilderView)
    ensures
        ({
            let event = builder.event();
            let base = event.base;
            &&& base.class_uid == 5019 && base.class_name == "Device Config State Change"@
            &&& base.category_uid == 5 && base.category_name == "Discovery"@
            &&& base.activity_id == 1 && base.activity_name == "Log"@
            &&& built_in(base, builder.ctx, builder.severity, builder.status, builder.message)
            &&& base.status_detail is None
            &&& builder.unmapped.len() == 0 ==> base.unmapped is None
            &&& builder.unmapped.len() > 0 ==> base.unmapped == Some(Json::Object(builder.unmapped))
            &&& event.class == (ClassView::ConfigStateChange {
                state: builder.state,
                state_label: builder.state_label,
                actor: builder.actor,
            })
        }),
{
}

/// A Detection Finding event says what its builder was given.
pub proof fn law_finding_events_are_as_built(builder: FindingBuilderView)
    ensures
        ({
            let event = builder.event();
            let base = event.base;
            &&& base.class_uid == 2004 && base.class_name == "Detection Finding"@
            &&& base.category_uid == 2 && base.category_name == "Findings"@
            &&& base.activity_id == 1 && base.activity_name == "Create"@
            &&& built_in(base, builder.ctx, builder.severity, builder.status, builder.message)
            &&& base.status_detail is None
            &&& base.unmapped is None
            &&& event.class is DetectionFinding
            &&& event.class->DetectionFinding_evidence == builder.evidence
            &&& event.class->DetectionFinding_is_alert == builder.is_alert
            &&& builder.finding_info is Some ==> event.class->DetectionFinding_finding_info
                == builder.finding_info->0
            &&& builder.finding_info is None
                ==> event.class->DetectionFinding_finding_info.uid == "unknown"@
                && event.class->DetectionFinding_finding_info.title == "unknown"@
                && event.class->DetectionFinding_finding_info.desc is None
        }),
{
}

/// A builder starts with its context and nothing else: an entity event of no
/// known activity, a logon, a change to no known state, no alert. Authentications
/// and findings start out as medium, everything else as informational.
pub proof fn law_builders_start_empty(ctx: ContextView)
    ensures
        EntityBuilderView::fresh(ctx) == (EntityBuilderView {
            ctx,
            activity: EntityActivityId::Unknown,
            entity: None,
            actor: None,
            severity: SeverityId::Informational,
            status: None,
            message: None,
            unmapped: Seq::empty(),
        }),
        AuthenticationBuilderView::fresh(ctx) == (AuthenticationBuilderView {
            ctx,
            activity: AuthActivityId::Logon,
            user: None,
            auth_protocol: None,
            src_endpoint: None,
            severity: SeverityId::Medium,
            status: None,
            status_detail: None,
            message: None,
            unmapped: Seq::empty(),
        }),
        ConfigBuilderView::fresh(ctx) == (ConfigBuilderView {
            ctx,
            state: StateId::Unknown,
            state_label: "Unknown"@,
            actor: None,
            severity: SeverityId::Informational,
            status: None,
            message: None,
            unmapped: Seq::empty(),
        }),
        FindingBuilderView::fresh(ctx) == (FindingBuilderView {
            ctx,
            finding_info: None,
            evidence: Seq::empty(),
            is_alert: false,
            severity: SeverityId::Medium,
            status: None,
            message: None,
        }),
{
}

} // verus!
