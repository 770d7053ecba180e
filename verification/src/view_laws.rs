//! What the contents of a value are: its own fields, one by one.

use crate::audit::{borrowed_text, emission_of, named_values, sandbox_of, Emission};
use crate::json::json_of;
use crate::log_export::{records_of, Batch};
use crate::log_line::{PayloadView, PlatformEvent, SandboxLogLine, SandboxStreamEvent};
use crate::log_record::{attributes_of, AttributeValue, AttributeView, LogRecord};
use crate::ocsf::builders::{pairs_of, SandboxContext};
use crate::ocsf::document::{json_of_option, text_of, texts_of};
use crate::ocsf::events::{
    actor_of, container_of, device_of, endpoint_of, facts_of, user_of, BaseEventData, ClassView,
    OcsfEvent,
};
use crate::ocsf::objects::{
    Actor, Container, Device, Endpoint, FindingInfo, ManagedEntity, Metadata, Product, User,
};
use crate::principal::{Identity, Principal, PrincipalView, SandboxIdentitySource};
use crate::streams::events_of;
use crate::tracing_bus::LogVisitor;
use vstd::prelude::*;

verus! {

/// The contents of a line are its fields.
pub proof fn law_lines_are_their_fields(line: SandboxLogLine)
    ensures
        line@.sandbox_id == line.sandbox_id@,
        line@.timestamp_ms == line.timestamp_ms,
        line@.level == line.level@,
        line@.target == line.target@,
        line@.message == line.message@,
        line@.source == line.source@,
        line@.fields == line.fields.ordered(),
{
}

/// The contents of a platform event are its fields.
pub proof fn law_platform_events_are_their_fields(event: PlatformEvent)
    ensures
        event@.timestamp_ms == event.timestamp_ms,
        event@.source == event.source@,
        event@.event_type == event.event_type@,
        event@.reason == event.reason@,
        event@.message == event.message@,
        event@.metadata == event.metadata.ordered(),
{
}

/// The contents of a stream event are its payload's.
pub proof fn law_stream_events_are_their_payload(event: SandboxStreamEvent)
    ensures
        event.payload is None <==> event@.payload is None,
        event.payload is Some && event.payload->0 is Log ==> event@.payload == Some(
            PayloadView::Log(event.payload->0->Log_0@),
        ),
        event.payload is Some && event.payload->0 is Event ==> event@.payload == Some(
            PayloadView::Event(event.payload->0->Event_0@),
        ),
{
}

/// The contents of a record are its fields, and those of an attribute its value.
pub proof fn law_records_are_their_fields(record: LogRecord, value: AttributeValue)
    ensures
        record@.severity == record.severity,
        record@.body == record.body@,
        record@.time == record.time,
        record@.attributes == attributes_of(record.attributes@),
        value is Text ==> value@ == AttributeView::Text(value->Text_0@),
        value is Flag ==> value@ == AttributeView::Flag(value->Flag_0),
        value is Number ==> value@ == AttributeView::Number(value->Number_0),
{
}

/// The contents of what a log event carries are its fields, those of a batch the
/// lines and the gap, and those of an emission its sandbox and event.
pub proof fn law_carriers_are_their_fields(visitor: LogVisitor, batch: Batch, emission: Emission)
    ensures
        visitor@.sandbox_id == text_of(visitor.sandbox_id),
        visitor@.message == text_of(visitor.message),
        visitor@.fields == visitor.fields.ordered(),
        batch@.lines == records_of(batch.lines@),
        batch@.gap == batch.gap,
        emission@.sandbox_id == text_of(emission.sandbox_id),
        emission@.event == emission.event@,
        emission_of(Some(emission)) == Some(emission@),
        emission_of(None) is None,
{
}

/// The contents of a list are those of its items, in order.
pub proof fn law_lists_are_their_items(
    attributes: Seq<(String, AttributeValue)>,
    records: Seq<LogRecord>,
    events: Seq<SandboxStreamEvent>,
    texts: Seq<String>,
    facts: Seq<(String, String)>,
    at: int,
)
    ensures
        attributes_of(attributes).len() == attributes.len(),
        0 <= at < attributes.len() ==> attributes_of(attributes)[at] == (
            attributes[at].0@,
            attributes[at].1@,
        ),
        records_of(records).len() == records.len(),
        0 <= at < records.len() ==> records_of(records)[at] == records[at]@,
        events_of(events).len() == events.len(),
        0 <= at < events.len() ==> events_of(events)[at] == events[at]@,
        texts_of(texts).len() == texts.len(),
        0 <= at < texts.len() ==> texts_of(texts)[at] == texts[at]@,
        facts_of(facts).len() == facts.len(),
        0 <= at < facts.len() ==> facts_of(facts)[at] == (facts[at].0@, facts[at].1@),
{
}

/// So it is for borrowed texts and named values.
pub proof fn law_borrowed_lists_are_their_items(
    pairs: Seq<(&str, &str)>,
    values: Seq<(&'static str, serde_json::Value)>,
    at: int,
)
    ensures
        pairs_of(pairs).len() == pairs.len(),
        0 <= at < pairs.len() ==> pairs_of(pairs)[at] == (pairs[at].0@, pairs[at].1@),
        named_values(values).len() == values.len(),
        0 <= at < values.len() ==> named_values(values)[at] == (
            values[at].0@,
            json_of(values[at].1),
        ),
{
}

/// What is optional is there exactly where it was given.
pub proof fn law_options_are_their_values(
    text: String,
    word: &str,
    id: &str,
    name: &str,
    value: serde_json::Value,
)
    ensures
        text_of(Some(text)) == Some(text@),
        text_of(None) is None,
        borrowed_text(Some(word)) == Some(word@),
        borrowed_text(None) is None,
        sandbox_of(Some((id, name))) == Some((id@, name@)),
        sandbox_of(None) is None,
        json_of_option(Some(value)) == Some(json_of(value)),
        json_of_option(None) is None,
{
}

/// So it is for the objects of an event.
pub proof fn law_optional_objects_are_their_values(
    device: Device,
    container: Container,
    actor: Actor,
    user: User,
    endpoint: Endpoint,
)
    ensures
        device_of(Some(device)) == Some(device@),
        device_of(None) is None,
        container_of(Some(container)) == Some(container@),
        container_of(None) is None,
        actor_of(Some(actor)) == Some(actor@),
        actor_of(None) is None,
        user_of(Some(user)) == Some(user@),
        user_of(None) is None,
        endpoint_of(Some(endpoint)) == Some(endpoint@),
        endpoint_of(None) is None,
{
}

/// The contents of an object are its fields.
pub proof fn law_objects_are_their_fields(
    user: User,
    entity: ManagedEntity,
    actor: Actor,
    endpoint: Endpoint,
    product: Product,
    metadata: Metadata,
    device: Device,
    container: Container,
    info: FindingInfo,
)
    ensures
        user@.name == user.name@,
        user@.uid == text_of(user.uid),
        user@.type_id == user.type_id,
        entity@.entity_type == entity.entity_type@,
        entity@.uid == text_of(entity.uid),
        entity@.name == text_of(entity.name),
        actor@.user == actor.user@,
        endpoint@.ip == endpoint.ip@,
        endpoint@.port == endpoint.port,
        product@.name == product.name@,
        product@.vendor_name == product.vendor_name@,
        product@.version == product.version@,
        metadata@.version == metadata.version@,
        metadata@.product == metadata.product@,
        metadata@.profiles == texts_of(metadata.profiles@),
        metadata@.uid == text_of(metadata.uid),
        metadata@.log_source == text_of(metadata.log_source),
        device@.hostname == device.hostname@,
        container@.name == container.name@,
        container@.image == container.image@,
        info@.uid == info.uid@,
        info@.title == info.title@,
        info@.desc == text_of(info.desc),
{
}

/// The contents of an event's common part are its fields.
pub proof fn law_event_bases_are_their_fields(base: BaseEventData)
    ensures
        base@.class_uid == base.class_uid,
        base@.class_name == base.class_name@,
        base@.category_uid == base.category_uid,
        base@.category_name == base.category_name@,
        base@.activity_id == base.activity_id,
        base@.activity_name == base.activity_name@,
        base@.type_uid == base.type_uid,
        base@.type_label == base.type_label@,
        base@.time == base.time,
        base@.severity == base.severity,
        base@.status == base.status,
        base@.status_detail == text_of(base.status_detail),
        base@.message == text_of(base.message),
        base@.metadata == base.metadata@,
        base@.device == device_of(base.device),
        base@.container == container_of(base.container),
        base@.unmapped == json_of_option(base.unmapped),
{
}

/// The contents of an event are its common part and what its class adds.
pub proof fn law_events_are_their_fields(event: OcsfEvent)
    ensures
        event is Base ==> event@.base == event->Base_0.base@ && event@.class is Base,
        event is EntityManagement ==> {
            let inner = event->EntityManagement_0;
            &&& event@.base == inner.base@
            &&& event@.class == (ClassView::EntityManagement {
                entity: inner.entity@,
                actor: actor_of(inner.actor),
            })
        },
        event is Authentication ==> {
            let inner = event->Authentication_0;
            &&& event@.base == inner.base@
            &&& event@.class == (ClassView::Authentication {
                user: user_of(inner.user),
                auth_protocol: inner.auth_protocol,
                src_endpoint: endpoint_of(inner.src_endpoint),
            })
        },
        event is ConfigStateChange ==> {
            let inner = event->ConfigStateChange_0;
            &&& event@.base == inner.base@
            &&& event@.class == (ClassView::ConfigStateChange {
                state: inner.state,
                state_label: inner.state_label@,
                actor: actor_of(inner.actor),
            })
        },
        event is DetectionFinding ==> {
            let inner = event->DetectionFinding_0;
            &&& event@.base == inner.base@
            &&& event@.class == (ClassView::DetectionFinding {
                finding_info: inner.finding_info@,
                evidence: facts_of(inner.evidence@),
                is_alert: inner.is_alert,
            })
        },
{
}

/// The contents of a context are its fields.
pub proof fn law_contexts_are_their_fields(ctx: SandboxContext)
    ensures
        ctx@.sandbox_id == ctx.sandbox_id@,
        ctx@.sandbox_name == ctx.sandbox_name@,
        ctx@.container_image == ctx.container_image@,
        ctx@.hostname == ctx.hostname@,
        ctx@.product_version == ctx.product_version@,
        ctx@.proxy_ip == ctx.proxy_ip@,
        ctx@.proxy_port == ctx.proxy_port,
{
}

/// The contents of a principal are its identity's.
pub proof fn law_principals_are_their_fields(principal: Principal, identity: Identity)
    ensures
        identity@.subject == identity.subject@,
        identity@.display_name == text_of(identity.display_name),
        identity@.roles == texts_of(identity.roles@),
        identity@.scopes == texts_of(identity.scopes@),
        identity@.provider == identity.provider,
        principal is User ==> principal@ == PrincipalView::User(principal->User_0.identity@),
        principal is Sandbox ==> {
            let sandbox = principal->Sandbox_0;
            &&& principal@ is Sandbox
            &&& principal@->sandbox_id == sandbox.sandbox_id@
            &&& sandbox.source matches SandboxIdentitySource::BootstrapJwt { issuer }
                && principal@->issuer == issuer@
            &&& principal@->trust_domain == text_of(sandbox.trust_domain)
        },
        principal is Anonymous ==> principal@ is Anonymous,
{
}

} // verus!
