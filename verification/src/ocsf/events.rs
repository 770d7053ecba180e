//! OCSF event classes and the documents they serialize to.

use crate::json::{bool_value, copy_of, json_of, Json};
use crate::ocsf::document::{
    int_member, json_of_option, lemma_written_in_turn, object, optional_member,
    optional_text_member, text_member, text_of, Document,
};
use crate::ocsf::enums::{AuthProtocolId, SeverityId, StateId, StatusId};
use crate::ocsf::objects::{
    Actor, ActorView, Container, ContainerView, Device, DeviceView, Endpoint, EndpointView,
    FindingInfo, FindingInfoView, ManagedEntity, ManagedEntityView, Metadata, MetadataView, User,
    UserView,
};
use vstd::prelude::*;
use vstd::string::*;

verus! {

/// Fields common to every OCSF event.
#[derive(Debug, Clone, PartialEq, Eq)]
pub struct BaseEventData {
    pub class_uid: u32,
    pub class_name: String,
    pub category_uid: u8,
    pub category_name: String,
    pub activity_id: u8,
    pub activity_name: String,
    pub type_uid: i64,
    pub type_label: String,
    /// When the event happened, in milliseconds since the Unix epoch.
    pub time: i64,
    pub severity: SeverityId,
    pub status: Option<StatusId>,
    pub status_detail: Option<String>,
    pub message: Option<String>,
    pub metadata: Metadata,
    pub device: Option<Device>,
    pub container: Option<Container>,
    /// Producer-specific members that the schema has no place for.
    pub unmapped: Option<serde_json::Value>,
}

/// The contents of a [`BaseEventData`].
pub struct BaseView {
    pub class_uid: u32,
    pub class_name: Seq<char>,
    pub category_uid: u8,
    pub category_name: Seq<char>,
    pub activity_id: u8,
    pub activity_name: Seq<char>,
    pub type_uid: i64,
    pub type_label: Seq<char>,
    pub time: i64,
    pub severity: SeverityId,
    pub status: Option<StatusId>,
    pub status_detail: Option<Seq<char>>,
    pub message: Option<Seq<char>>,
    pub metadata: MetadataView,
    pub device: Option<DeviceView>,
    pub container: Option<ContainerView>,
    pub unmapped: Option<Json>,
}

/// The contents of an optional device.
pub open spec fn device_of(device: Option<Device>) -> Option<DeviceView> {
    match device {
        Some(d) => Some(d@),
        None => None,
    }
}

/// The contents of an optional container.
pub open spec fn container_of(container: Option<Container>) -> Option<ContainerView> {
    match container {
        Some(c) => Some(c@),
        None => None,
    }
}

/// The contents of an optional actor.
pub open spec fn actor_of(actor: Option<Actor>) -> Option<ActorView> {
    match actor {
        Some(a) => Some(a@),
        None => None,
    }
}

/// The contents of an optional user.
pub open spec fn user_of(user: Option<User>) -> Option<UserView> {
    match user {
        Some(u) => Some(u@),
        None => None,
    }
}

/// The contents of an optional endpoint.
pub open spec fn endpoint_of(endpoint: Option<Endpoint>) -> Option<EndpointView> {
    match endpoint {
        Some(e) => Some(e@),
        None => None,
    }
}

impl View for BaseEventData {
    type V = BaseView;

    open spec fn view(&self) -> BaseView {
        BaseView {
            class_uid: self.class_uid,
            class_name: self.class_name@,
            category_uid: self.category_uid,
            category_name: self.category_name@,
            activity_id: self.activity_id,
            activity_name: self.activity_name@,
            type_uid: self.type_uid,
            type_label: self.type_label@,
            time: self.time,
            severity: self.severity,
            status: self.status,
            status_detail: text_of(self.status_detail),
            message: text_of(self.message),
            metadata: self.metadata@,
            device: device_of(self.device),
            container: container_of(self.container),
            unmapped: json_of_option(self.unmapped),
        }
    }
}

impl BaseView {
    /// A new event of a class: the type is the class and the activity taken
    /// together, and everything optional is absent.
    pub open spec fn of_class(
        class_uid: u32,
        class_name: Seq<char>,
        category_uid: u8,
        category_name: Seq<char>,
        activity_id: u8,
        activity_name: Seq<char>,
        severity: SeverityId,
        metadata: MetadataView,
    ) -> BaseView {
        BaseView {
            class_uid,
            class_name,
            category_uid,
            category_name,
            activity_id,
            activity_name,
            type_uid: (class_uid * 100 + activity_id) as i64,
            type_label: class_name + ": "@ + activity_name,
            time: 0,
            severity,
            status: None,
            status_detail: None,
            message: None,
            metadata,
            device: None,
            container: None,
            unmapped: None,
        }
    }

    /// The members that name the event's class, activity and time.
    pub open spec fn class_members(self) -> Seq<(Seq<char>, Json)> {
        int_member("class_uid"@, self.class_uid as int) + text_member(
            "class_name"@,
            self.class_name,
        ) + int_member("category_uid"@, self.category_uid as int) + text_member(
            "category_name"@,
            self.category_name,
        ) + int_member("activity_id"@, self.activity_id as int) + text_member(
            "activity_name"@,
            self.activity_name,
        ) + int_member("type_uid"@, self.type_uid as int) + text_member(
            "type_name"@,
            self.type_label,
        ) + int_member("time"@, self.time as int)
    }

    /// The members that rank the event.
    pub open spec fn severity_members(self) -> Seq<(Seq<char>, Json)> {
        int_member("severity_id"@, self.severity.id() as int) + text_member(
            "severity"@,
            self.severity.name(),
        )
    }

    /// The members that report the outcome.
    pub open spec fn status_members(self) -> Seq<(Seq<char>, Json)> {
        match self.status {
            Some(status) => int_member("status_id"@, status.id() as int) + text_member(
                "status"@,
                status.name(),
            ),
            None => Seq::empty(),
        }
    }

    /// The members that report the outcome and the surroundings.
    pub open spec fn context_members(self) -> Seq<(Seq<char>, Json)> {
        self.status_members() + optional_text_member("status_detail"@, self.status_detail) + optional_text_member(
            "message"@,
            self.message,
        ) + seq![("metadata"@, self.metadata.document())] + optional_member(
            "device"@,
            match self.device {
                Some(device) => Some(device.document()),
                None => None,
            },
        ) + optional_member(
            "container"@,
            match self.container {
                Some(container) => Some(container.document()),
                None => None,
            },
        ) + optional_member("unmapped"@, self.unmapped)
    }

    /// Every member common to all classes.
    pub open spec fn members(self) -> Seq<(Seq<char>, Json)> {
        self.class_members() + self.severity_members() + self.context_members()
    }
}

impl BaseEventData {
    /// A new event of a class.
    #[must_use]
    pub fn new(
        class_uid: u32,
        class_name: &str,
        category_uid: u8,
        category_name: &str,
        activity_id: u8,
        activity_name: &str,
        severity: SeverityId,
        metadata: Metadata,
    ) -> (base: BaseEventData)
        ensures
            base@ == BaseView::of_class(
                class_uid,
                class_name@,
                category_uid,
                category_name@,
                activity_id,
                activity_name@,
                severity,
                metadata@,
            ),
    {
        let mut type_label = class_name.to_owned();
        type_label.append(": ");
        type_label.append(activity_name);
        BaseEventData {
            class_uid,
            class_name: class_name.to_owned(),
            category_uid,
            category_name: category_name.to_owned(),
            activity_id,
            activity_name: activity_name.to_owned(),
            type_uid: class_uid as i64 * 100 + activity_id as i64,
            type_label,
            time: 0,
            severity,
            status: None,
            status_detail: None,
            message: None,
            metadata,
            device: None,
            container: None,
            unmapped: None,
        }
    }

    /// Stamp the event with a time.
    pub fn set_time(&mut self, time_ms: i64)
        ensures
            final(self)@ == (BaseView { time: time_ms, ..old(self)@ }),
    {
        self.time = time_ms;
    }

    /// Set the outcome.
    pub fn set_status(&mut self, status: StatusId)
        ensures
            final(self)@ == (BaseView { status: Some(status), ..old(self)@ }),
    {
        self.status = Some(status);
    }

    /// Set why the outcome was what it was.
    pub fn set_status_detail(&mut self, detail: &str)
        ensures
            final(self)@ == (BaseView { status_detail: Some(detail@), ..old(self)@ }),
    {
        self.status_detail = Some(detail.to_owned());
    }

    /// Set the human-readable message.
    pub fn set_message(&mut self, message: &str)
        ensures
            final(self)@ == (BaseView { message: Some(message@), ..old(self)@ }),
    {
        self.message = Some(message.to_owned());
    }

    /// Write the members that name the event's class, activity and time.
    fn write_class(&self, document: &mut Document)
        requires
            old(document).wf(),
        ensures
            final(document).wf(),
            final(document).written() == old(document).written() + self@.class_members(),
    {
        let ghost before = document.written();
        document.number("class_uid", self.class_uid as i64);
        document.text("class_name", self.class_name.as_str());
        document.number("category_uid", self.category_uid as i64);
        document.text("category_name", self.category_name.as_str());
        document.number("activity_id", self.activity_id as i64);
        document.text("activity_name", self.activity_name.as_str());
        document.number("type_uid", self.type_uid);
        document.text("type_name", self.type_label.as_str());
        document.number("time", self.time);
        proof {
            assert(document.written() =~= before + self@.class_members());
        }
    }

    /// Write the members that report the outcome.
    fn write_status(&self, document: &mut Document)
        requires
            old(document).wf(),
        ensures
            final(document).wf(),
            final(document).written() == old(document).written() + self@.status_members(),
    {
        let ghost before = document.written();
        if let Some(status) = self.status {
            document.number("status_id", status.as_u8() as i64);
            document.text("status", status.label());
        }
        proof {
            assert(document.written() =~= before + self@.status_members());
        }
    }

    /// Write the members that report the outcome and the surroundings.
    fn write_context(&self, document: &mut Document)
        requires
            old(document).wf(),
        ensures
            final(document).wf(),
            final(document).written() == old(document).written() + self@.context_members(),
    {
        let ghost before = document.written();
        let ghost mut run = self@.status_members();
        self.write_status(document);
        document.optional_text("status_detail", &self.status_detail);
        proof {
            let next = optional_text_member("status_detail"@, self@.status_detail);
            lemma_written_in_turn(before, run, next);
            run = run + next;
        }
        document.optional_text("message", &self.message);
        proof {
            let next = optional_text_member("message"@, self@.message);
            lemma_written_in_turn(before, run, next);
            run = run + next;
        }
        document.value("metadata", self.metadata.to_json());
        proof {
            let next = seq![("metadata"@, self@.metadata.document())];
            lemma_written_in_turn(before, run, next);
            run = run + next;
        }
        let device = match &self.device {
            Some(device) => Some(device.to_json()),
            None => None,
        };
        document.optional_value("device", device);
        proof {
            let next = optional_member("device"@, json_of_option(device));
            lemma_written_in_turn(before, run, next);
            run = run + next;
        }
        let container = match &self.container {
            Some(container) => Some(container.to_json()),
            None => None,
        };
        document.optional_value("container", container);
        proof {
            let next = optional_member("container"@, json_of_option(container));
            lemma_written_in_turn(before, run, next);
            run = run + next;
        }
        let unmapped = match &self.unmapped {
            Some(unmapped) => Some(copy_of(unmapped)),
            None => None,
        };
        document.optional_value("unmapped", unmapped);
        proof {
            let next = optional_member("unmapped"@, json_of_option(unmapped));
            lemma_written_in_turn(before, run, next);
        }
    }

    /// Write the members common to all classes.
    fn write(&self, document: &mut Document)
        requires
            old(document).wf(),
        ensures
            final(document).wf(),
            final(document).written() == old(document).written() + self@.members(),
    {
        let ghost before = document.written();
        self.write_class(document);
        document.number("severity_id", self.severity.as_u8() as i64);
        document.text("severity", self.severity.label());
        self.write_context(document);
        proof {
            assert(document.written() =~= before + self@.members());
        }
    }
}

/// OCSF Base Event \[0\].
#[derive(Debug, Clone, PartialEq, Eq)]
pub struct BaseEvent {
    pub base: BaseEventData,
}

/// OCSF Entity Management Event \[3004\].
///
/// CRUD operations on platform resources performed by an authenticated actor.
/// The gateway's governance paper trail.
#[derive(Debug, Clone, PartialEq, Eq)]
pub struct EntityManagementEvent {
    /// Common base event fields.
    pub base: BaseEventData,
    /// The resource the operation acted on.
    pub entity: ManagedEntity,
    /// Who performed the operation.
    pub actor: Option<Actor>,
}

/// OCSF Authentication Event \[3002\].
///
/// Authentication outcomes at the gateway boundary. Failures export by
/// default; successes are enabled by the gateway audit toggle.
#[derive(Debug, Clone, PartialEq, Eq)]
pub struct AuthenticationEvent {
    /// Common base event fields.
    pub base: BaseEventData,
    /// The identity that attempted to authenticate, as far as it is known. A
    /// rejected token may yield no identity at all.
    pub user: Option<User>,
    /// Authentication mechanism.
    pub auth_protocol: Option<AuthProtocolId>,
    /// Where the attempt came from.
    pub src_endpoint: Option<Endpoint>,
}

/// OCSF Device Config State Change Event \[5019\].
#[derive(Debug, Clone, PartialEq, Eq)]
pub struct ConfigStateChangeEvent {
    /// Common base event fields.
    pub base: BaseEventData,
    pub state: StateId,
    /// What the new state is called.
    pub state_label: String,
    /// Who changed the configuration.
    pub actor: Option<Actor>,
}

/// OCSF Detection Finding Event \[2004\].
#[derive(Debug, Clone, PartialEq, Eq)]
pub struct DetectionFindingEvent {
    /// Common base event fields.
    pub base: BaseEventData,
    pub finding_info: FindingInfo,
    /// Named facts that support the finding.
    pub evidence: Vec<(String, String)>,
    pub is_alert: bool,
}

/// An OCSF event of any class the gateway emits.
#[derive(Debug, Clone, PartialEq, Eq)]
pub enum OcsfEvent {
    Base(BaseEvent),
    EntityManagement(EntityManagementEvent),
    Authentication(AuthenticationEvent),
    ConfigStateChange(ConfigStateChangeEvent),
    DetectionFinding(DetectionFindingEvent),
}

/// What is particular to an event's class.
pub enum ClassView {
    Base,
    EntityManagement { entity: ManagedEntityView, actor: Option<ActorView> },
    Authentication {
        user: Option<UserView>,
        auth_protocol: Option<AuthProtocolId>,
        src_endpoint: Option<EndpointView>,
    },
    ConfigStateChange { state: StateId, state_label: Seq<char>, actor: Option<ActorView> },
    DetectionFinding {
        finding_info: FindingInfoView,
        evidence: Seq<(Seq<char>, Seq<char>)>,
        is_alert: bool,
    },
}

/// The contents of an [`OcsfEvent`].
pub struct EventView {
    pub base: BaseView,
    pub class: ClassView,
}

/// The contents of a list of named facts.
pub open spec fn facts_of(facts: Seq<(String, String)>) -> Seq<(Seq<char>, Seq<char>)> {
    facts.map_values(|fact: (String, String)| (fact.0@, fact.1@))
}

impl View for OcsfEvent {
    type V = EventView;

    open spec fn view(&self) -> EventView {
        match *self {
            OcsfEvent::Base(event) => EventView { base: event.base@, class: ClassView::Base },
            OcsfEvent::EntityManagement(event) => EventView {
                base: event.base@,
                class: ClassView::EntityManagement {
                    entity: event.entity@,
                    actor: actor_of(event.actor),
                },
            },
            OcsfEvent::Authentication(event) => EventView {
                base: event.base@,
                class: ClassView::Authentication {
                    user: user_of(event.user),
                    auth_protocol: event.auth_protocol,
                    src_endpoint: endpoint_of(event.src_endpoint),
                },
            },
            OcsfEvent::ConfigStateChange(event) => EventView {
                base: event.base@,
                class: ClassView::ConfigStateChange {
                    state: event.state,
                    state_label: event.state_label@,
                    actor: actor_of(event.actor),
                },
            },
            OcsfEvent::DetectionFinding(event) => EventView {
                base: event.base@,
                class: ClassView::DetectionFinding {
                    finding_info: event.finding_info@,
                    evidence: facts_of(event.evidence@),
                    is_alert: event.is_alert,
                },
            },
        }
    }
}

/// The member that an optional actor leaves.
pub open spec fn actor_member(actor: Option<ActorView>) -> Seq<(Seq<char>, Json)> {
    optional_member(
        "actor"@,
        match actor {
            Some(a) => Some(a.document()),
            None => None,
        },
    )
}

/// The members that a list of named facts leaves, one per fact.
pub open spec fn fact_members(facts: Seq<(Seq<char>, Seq<char>)>) -> Seq<(Seq<char>, Json)> {
    facts.map_values(|fact: (Seq<char>, Seq<char>)| (fact.0, Json::Text(fact.1)))
}

impl ClassView {
    /// The members particular to the class.
    pub open spec fn members(self) -> Seq<(Seq<char>, Json)> {
        match self {
            ClassView::Base => Seq::empty(),
            ClassView::EntityManagement { entity, actor } => seq![("entity"@, entity.document())]
                + actor_member(actor),
            ClassView::Authentication { user, auth_protocol, src_endpoint } => optional_member(
                "user"@,
                match user {
                    Some(u) => Some(u.document()),
                    None => None,
                },
            ) + (match auth_protocol {
                Some(protocol) => int_member("auth_protocol_id"@, protocol.id() as int)
                    + text_member("auth_protocol"@, protocol.name()),
                None => Seq::empty(),
            }) + optional_member(
                "src_endpoint"@,
                match src_endpoint {
                    Some(endpoint) => Some(endpoint.document()),
                    None => None,
                },
            ),
            ClassView::ConfigStateChange { state, state_label, actor } => int_member(
                "state_id"@,
                state.id() as int,
            ) + text_member("state"@, state_label) + actor_member(actor),
            ClassView::DetectionFinding { finding_info, evidence, is_alert } => seq![
                ("finding_info"@, finding_info.document()),
            ] + seq![("evidences"@, object(fact_members(evidence)))] + seq![
                ("is_alert"@, Json::Bool(is_alert)),
            ],
        }
    }
}

impl EventView {
    /// Every member of the event, in writing order.
    pub open spec fn members(self) -> Seq<(Seq<char>, Json)> {
        self.base.members() + self.class.members()
    }

    /// The document of the event.
    pub open spec fn document(self) -> Json {
        object(self.members())
    }
}

/// Write an optional actor.
fn write_actor(actor: &Option<Actor>, document: &mut Document)
    requires
        old(document).wf(),
    ensures
        final(document).wf(),
        final(document).written() == old(document).written() + actor_member(actor_of(*actor)),
{
    if let Some(a) = actor {
        document.value("actor", a.to_json());
    } else {
        proof {
            assert(document.written() + Seq::<(Seq<char>, Json)>::empty() =~= document.written());
        }
    }
}

/// A list of named facts as an object.
fn facts_value(facts: &Vec<(String, String)>) -> (value: serde_json::Value)
    ensures
        json_of(value) == object(fact_members(facts_of(facts@))),
{
    let mut document = Document::new();
    let ghost all = fact_members(facts_of(facts@));
    let mut i: usize = 0;
    while i < facts.len()
        invariant
            i <= facts@.len(),
            all == fact_members(facts_of(facts@)),
            document.wf(),
            document.written() == all.take(i as int),
        decreases facts@.len() - i,
    {
        document.text(facts[i].0.as_str(), facts[i].1.as_str());
        proof {
            assert(all.take(i + 1) =~= all.take(i as int) + text_member(
                facts@[i as int].0@,
                facts@[i as int].1@,
            ));
        }
        i = i + 1;
    }
    proof {
        assert(all.take(all.len() as int) =~= all);
    }
    document.finish()
}

impl OcsfEvent {
    /// The fields common to every class.
    #[must_use]
    pub fn base(&self) -> (base: &BaseEventData)
        ensures
            base@ == self@.base,
    {
        match self {
            OcsfEvent::Base(event) => &event.base,
            OcsfEvent::EntityManagement(event) => &event.base,
            OcsfEvent::Authentication(event) => &event.base,
            OcsfEvent::ConfigStateChange(event) => &event.base,
            OcsfEvent::DetectionFinding(event) => &event.base,
        }
    }

    /// Stamp the event with a time.
    pub fn set_time(&mut self, time_ms: i64)
        ensures
            final(self)@ == (EventView {
                base: BaseView { time: time_ms, ..old(self)@.base },
                class: old(self)@.class,
            }),
    {
        match self {
            OcsfEvent::Base(event) => event.base.set_time(time_ms),
            OcsfEvent::EntityManagement(event) => event.base.set_time(time_ms),
            OcsfEvent::Authentication(event) => event.base.set_time(time_ms),
            OcsfEvent::ConfigStateChange(event) => event.base.set_time(time_ms),
            OcsfEvent::DetectionFinding(event) => event.base.set_time(time_ms),
        }
    }

    /// The event's document.
    #[must_use]
    pub fn to_json(&self) -> (value: serde_json::Value)
        ensures
            json_of(value) == self@.document(),
    {
        let mut document = Document::new();
        self.base().write(&mut document);
        proof {
            assert(document.written() =~= self@.base.members());
        }
        match self {
            OcsfEvent::Base(_) => {},
            OcsfEvent::EntityManagement(event) => {
                document.value("entity", event.entity.to_json());
                write_actor(&event.actor, &mut document);
            },
            OcsfEvent::Authentication(event) => {
                if let Some(user) = &event.user {
                    document.value("user", user.to_json());
                }
                if let Some(protocol) = event.auth_protocol {
                    document.number("auth_protocol_id", protocol.as_u8() as i64);
                    document.text("auth_protocol", protocol.label());
                }
                if let Some(endpoint) = &event.src_endpoint {
                    document.value("src_endpoint", endpoint.to_json());
                }
            },
            OcsfEvent::ConfigStateChange(event) => {
                document.number("state_id", event.state.as_u8() as i64);
                document.text("state", event.state_label.as_str());
                write_actor(&event.actor, &mut document);
            },
            OcsfEvent::DetectionFinding(event) => {
                document.value("finding_info", event.finding_info.to_json());
                document.value("evidences", facts_value(&event.evidence));
                document.value("is_alert", bool_value(event.is_alert));
            },
        }
        proof {
            assert(document.written() =~= self@.members());
        }
        document.finish()
    }
}

} // verus!
