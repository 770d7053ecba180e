//! Shorthand formatter: an OCSF event as one line for a human reader.
//!
//! A line is a head (`CLASS:ACTIVITY`), the severity tag, and what the class
//! has to say: `ENTITY:CREATE [INFO] workspace "team-a" by alice`.

use crate::ocsf::document::text_of;
use crate::ocsf::enums::{AuthProtocolId, SeverityId, StatusId};
use crate::ocsf::events::{actor_of, endpoint_of, user_of, ClassView, EventView, OcsfEvent};
use crate::ocsf::objects::{Actor, ActorView, Endpoint, EndpointView, User, UserView};
use crate::text::{chars_of, decimal, decimal_text, occurs_at, stands_at};
use vstd::prelude::*;
use vstd::string::*;

verus! {

/// The tag of a severity. A severity outside the six ranks reads as
/// informational.
pub open spec fn tag(severity: SeverityId) -> Seq<char> {
    match severity {
        SeverityId::Low => "[LOW]"@,
        SeverityId::Medium => "[MED]"@,
        SeverityId::High => "[HIGH]"@,
        SeverityId::Critical => "[CRIT]"@,
        SeverityId::Fatal => "[FATAL]"@,
        _ => "[INFO]"@,
    }
}

fn severity_tag(severity: SeverityId) -> (text: &'static str)
    ensures
        text@ == tag(severity),
{
    match severity {
        SeverityId::Low => "[LOW]",
        SeverityId::Medium => "[MED]",
        SeverityId::High => "[HIGH]",
        SeverityId::Critical => "[CRIT]",
        SeverityId::Fatal => "[FATAL]",
        _ => "[INFO]",
    }
}

/// The id of the severity whose tag stands at `at`.
pub open spec fn tagged_id(message: Seq<char>, at: int) -> Option<u8> {
    if occurs_at(message, "[INFO]"@, at) {
        Some(1)
    } else if occurs_at(message, "[LOW]"@, at) {
        Some(2)
    } else if occurs_at(message, "[MED]"@, at) {
        Some(3)
    } else if occurs_at(message, "[HIGH]"@, at) {
        Some(4)
    } else if occurs_at(message, "[CRIT]"@, at) {
        Some(5)
    } else if occurs_at(message, "[FATAL]"@, at) {
        Some(6)
    } else {
        None
    }
}

/// Whether `at` is the first space of `message`.
pub open spec fn first_space(message: Seq<char>, at: int) -> bool {
    &&& 0 <= at < message.len()
    &&& message[at] == ' '
    &&& forall|i: int| 0 <= i < at ==> #[trigger] message[i] != ' '
}

/// The severity id that a line's tag spells: the tag follows the head.
pub open spec fn shorthand_severity(message: Seq<char>) -> Option<u8> {
    if exists|at: int| first_space(message, at) {
        tagged_id(message, (choose|at: int| first_space(message, at)) + 1)
    } else {
        None
    }
}

/// Recover the severity id from a rendered line, where it has a tag.
#[must_use]
pub fn severity_id_from_shorthand(message: &str) -> (id: Option<u8>)
    ensures
        id == shorthand_severity(message@),
{
    let chars = chars_of(message);
    let mut at: usize = 0;
    while at < chars.len()
        invariant
            chars@ == message@,
            at <= chars@.len(),
            forall|i: int| 0 <= i < at ==> #[trigger] message@[i] != ' ',
        decreases chars@.len() - at,
    {
        if chars[at] == ' ' {
            proof {
                assert(first_space(message@, at as int));
                let chosen = choose|i: int| first_space(message@, i);
                assert(chosen == at);
            }
            let next = at + 1;
            if stands_at(&chars, &chars_of("[INFO]"), next) {
                return Some(1);
            }
            if stands_at(&chars, &chars_of("[LOW]"), next) {
                return Some(2);
            }
            if stands_at(&chars, &chars_of("[MED]"), next) {
                return Some(3);
            }
            if stands_at(&chars, &chars_of("[HIGH]"), next) {
                return Some(4);
            }
            if stands_at(&chars, &chars_of("[CRIT]"), next) {
                return Some(5);
            }
            if stands_at(&chars, &chars_of("[FATAL]"), next) {
                return Some(6);
            }
            return None;
        }
        at = at + 1;
    }
    None
}

/// How an entity activity reads in a head.
pub open spec fn entity_verb(activity_id: u8) -> Seq<char> {
    match activity_id {
        1 => "ENTITY:CREATE"@,
        2 => "ENTITY:READ"@,
        3 => "ENTITY:UPDATE"@,
        4 => "ENTITY:DELETE"@,
        _ => "ENTITY:OTHER"@,
    }
}

/// How an authentication activity reads in a head.
pub open spec fn authn_verb(activity_id: u8) -> Seq<char> {
    match activity_id {
        1 => "AUTHN:LOGON"@,
        2 => "AUTHN:LOGOFF"@,
        _ => "AUTHN:OTHER"@,
    }
}

/// How a protocol reads in a line.
pub open spec fn protocol_word(protocol: AuthProtocolId) -> Seq<char> {
    match protocol {
        AuthProtocolId::OpenId => "openid"@,
        AuthProtocolId::Other => "other"@,
        AuthProtocolId::Unknown => "unknown"@,
    }
}

/// The head of an event's line.
pub open spec fn head(event: EventView) -> Seq<char> {
    match event.class {
        ClassView::Base => "EVENT"@,
        ClassView::EntityManagement { .. } => entity_verb(event.base.activity_id),
        ClassView::Authentication { .. } => authn_verb(event.base.activity_id),
        ClassView::ConfigStateChange { state_label, .. } => "CONFIG:"@ + state_label,
        ClassView::DetectionFinding { .. } => "FINDING"@,
    }
}

/// ` FAILED` for a failure.
pub open spec fn failure_word(status: Option<StatusId>) -> Seq<char> {
    if status == Some(StatusId::Failure) {
        " FAILED"@
    } else {
        Seq::empty()
    }
}

/// ` ` and the message, where there is one.
pub open spec fn message_words(message: Option<Seq<char>>) -> Seq<char> {
    match message {
        Some(text) => " "@ + text,
        None => Seq::empty(),
    }
}

/// ` ` and the protocol, where it is known.
pub open spec fn protocol_words(protocol: Option<AuthProtocolId>) -> Seq<char> {
    match protocol {
        Some(p) => " "@ + protocol_word(p),
        None => Seq::empty(),
    }
}

/// ` user:` and the name, where there is an identity.
pub open spec fn user_words(user: Option<UserView>) -> Seq<char> {
    match user {
        Some(u) => " user:"@ + u.name,
        None => Seq::empty(),
    }
}

/// ` from `, the address and the port, where the origin is known.
pub open spec fn origin_words(endpoint: Option<EndpointView>) -> Seq<char> {
    match endpoint {
        Some(e) => " from "@ + e.ip + ":"@ + decimal(e.port as int),
        None => Seq::empty(),
    }
}

/// ` [reason:…]`, where a detail is given.
pub open spec fn reason_words(detail: Option<Seq<char>>) -> Seq<char> {
    match detail {
        Some(d) => " [reason:"@ + d + "]"@,
        None => Seq::empty(),
    }
}

/// ` by ` and the name, where there is an actor.
pub open spec fn actor_words(actor: Option<ActorView>) -> Seq<char> {
    match actor {
        Some(a) => " by "@ + a.user.name,
        None => Seq::empty(),
    }
}

/// What the class has to say.
pub open spec fn details(event: EventView) -> Seq<char> {
    match event.class {
        ClassView::Base => message_words(event.base.message),
        ClassView::EntityManagement { entity, actor } => {
            " "@ + entity.entity_type + " \""@ + entity.readable() + "\""@ + actor_words(actor)
        },
        ClassView::Authentication { user, auth_protocol, src_endpoint } => {
            protocol_words(auth_protocol) + user_words(user) + origin_words(src_endpoint)
                + reason_words(event.base.status_detail)
        },
        ClassView::ConfigStateChange { .. } => message_words(event.base.message),
        ClassView::DetectionFinding { finding_info, .. } => " \""@ + finding_info.title + "\""@,
    }
}

/// The line of an event.
pub open spec fn shorthand(event: EventView) -> Seq<char> {
    head(event) + " "@ + tag(event.base.severity) + failure_word(event.base.status) + details(event)
}

fn entity_head(activity_id: u8) -> (text: &'static str)
    ensures
        text@ == entity_verb(activity_id),
{
    match activity_id {
        1 => "ENTITY:CREATE",
        2 => "ENTITY:READ",
        3 => "ENTITY:UPDATE",
        4 => "ENTITY:DELETE",
        _ => "ENTITY:OTHER",
    }
}

fn authn_head(activity_id: u8) -> (text: &'static str)
    ensures
        text@ == authn_verb(activity_id),
{
    match activity_id {
        1 => "AUTHN:LOGON",
        2 => "AUTHN:LOGOFF",
        _ => "AUTHN:OTHER",
    }
}

fn protocol_text(protocol: AuthProtocolId) -> (text: &'static str)
    ensures
        text@ == protocol_word(protocol),
{
    match protocol {
        AuthProtocolId::OpenId => "openid",
        AuthProtocolId::Other => "other",
        AuthProtocolId::Unknown => "unknown",
    }
}

fn message_text(message: &Option<String>) -> (words: String)
    ensures
        words@ == message_words(text_of(*message)),
{
    match message {
        Some(text) => " ".to_owned().concat(text.as_str()),
        None => String::new(),
    }
}

fn protocol_words_text(protocol: Option<AuthProtocolId>) -> (words: String)
    ensures
        words@ == protocol_words(protocol),
{
    match protocol {
        Some(p) => " ".to_owned().concat(protocol_text(p)),
        None => String::new(),
    }
}

fn user_text(user: &Option<User>) -> (words: String)
    ensures
        words@ == user_words(user_of(*user)),
{
    match user {
        Some(u) => " user:".to_owned().concat(u.name.as_str()),
        None => String::new(),
    }
}

fn origin_text(endpoint: &Option<Endpoint>) -> (words: String)
    ensures
        words@ == origin_words(endpoint_of(*endpoint)),
{
    match endpoint {
        Some(e) => " from ".to_owned().concat(e.ip.as_str()).concat(":").concat(
            decimal_text(e.port as i128).as_str(),
        ),
        None => String::new(),
    }
}

fn reason_text(detail: &Option<String>) -> (words: String)
    ensures
        words@ == reason_words(text_of(*detail)),
{
    match detail {
        Some(d) => " [reason:".to_owned().concat(d.as_str()).concat("]"),
        None => String::new(),
    }
}

fn actor_text(actor: &Option<Actor>) -> (words: String)
    ensures
        words@ == actor_words(actor_of(*actor)),
{
    match actor {
        Some(a) => " by ".to_owned().concat(a.user.name.as_str()),
        None => String::new(),
    }
}

/// The head and tag of an event's line, and whether it failed.
fn opening(event: &OcsfEvent) -> (line: String)
    ensures
        line@ == head(event@) + " "@ + tag(event@.base.severity) + failure_word(event@.base.status),
{
    let base = event.base();
    let mut line = match event {
        OcsfEvent::Base(_) => "EVENT".to_owned(),
        OcsfEvent::EntityManagement(_) => entity_head(base.activity_id).to_owned(),
        OcsfEvent::Authentication(_) => authn_head(base.activity_id).to_owned(),
        OcsfEvent::ConfigStateChange(change) => {
            let mut head = "CONFIG:".to_owned();
            head.append(change.state_label.as_str());
            head
        },
        OcsfEvent::DetectionFinding(_) => "FINDING".to_owned(),
    };
    line.append(" ");
    line.append(severity_tag(base.severity));
    let failed = match base.status {
        Some(status) => status == StatusId::Failure,
        None => false,
    };
    if failed {
        line.append(" FAILED");
    } else {
        proof {
            assert(line@ + Seq::<char>::empty() =~= line@);
        }
    }
    line
}

impl OcsfEvent {
    /// The event as one line.
    #[must_use]
    pub fn format_shorthand(&self) -> (line: String)
        ensures
            line@ == shorthand(self@),
    {
        let details = match self {
            OcsfEvent::Base(event) => message_text(&event.base.message),
            OcsfEvent::EntityManagement(event) => " ".to_owned().concat(
                event.entity.entity_type.as_str(),
            ).concat(" \"").concat(event.entity.display()).concat("\"").concat(
                actor_text(&event.actor).as_str(),
            ),
            OcsfEvent::Authentication(event) => protocol_words_text(event.auth_protocol).concat(
                user_text(&event.user).as_str(),
            ).concat(origin_text(&event.src_endpoint).as_str()).concat(
                reason_text(&event.base.status_detail).as_str(),
            ),
            OcsfEvent::ConfigStateChange(event) => message_text(&event.base.message),
            OcsfEvent::DetectionFinding(event) => " \"".to_owned().concat(
                event.finding_info.title.as_str(),
            ).concat("\""),
        };
        opening(self).concat(details.as_str())
    }
}

/// Whether a text holds no space.
pub open spec fn spaceless(text: Seq<char>) -> bool {
    forall|i: int| 0 <= i < text.len() ==> #[trigger] text[i] != ' '
}

/// The id that a severity's tag stands for: a severity outside the six ranks
/// reads as informational.
pub open spec fn tag_rank(severity: SeverityId) -> u8 {
    if 2 <= severity.id() <= 6 {
        severity.id()
    } else {
        1
    }
}

/// A tag is told from the others by its second character.
proof fn lemma_tags_differ(severity: SeverityId, message: Seq<char>, at: int)
    requires
        occurs_at(message, tag(severity), at),
    ensures
        tagged_id(message, at) == Some(tag_rank(severity)),
{
    reveal_strlit("[INFO]");
    reveal_strlit("[LOW]");
    reveal_strlit("[MED]");
    reveal_strlit("[HIGH]");
    reveal_strlit("[CRIT]");
    reveal_strlit("[FATAL]");
    let text = tag(severity);
    assert(message.subrange(at, at + text.len())[1] == message[at + 1]);
    assert forall|other: Seq<char>| other.len() > 1 && #[trigger] occurs_at(
        message,
        other,
        at,
    ) implies other[1] == text[1] by {
        assert(message.subrange(at, at + other.len())[1] == message[at + 1]);
    }
}

/// The heads that the formatter writes hold no space, apart from the label of a
/// configuration change.
proof fn lemma_heads_are_spaceless(event: EventView)
    requires
        event.class matches ClassView::ConfigStateChange { state_label, .. } ==> spaceless(
            state_label,
        ),
    ensures
        spaceless(head(event)),
{
    reveal_strlit("EVENT");
    reveal_strlit("FINDING");
    reveal_strlit("CONFIG:");
    reveal_strlit("ENTITY:CREATE");
    reveal_strlit("ENTITY:READ");
    reveal_strlit("ENTITY:UPDATE");
    reveal_strlit("ENTITY:DELETE");
    reveal_strlit("ENTITY:OTHER");
    reveal_strlit("AUTHN:LOGON");
    reveal_strlit("AUTHN:LOGOFF");
    reveal_strlit("AUTHN:OTHER");
}

/// The severity of a formatted event reads back from its line, except where the
/// label of a configuration change holds a space and so ends the head early.
pub proof fn law_severity_reads_back_from_the_line(event: EventView)
    requires
        event.class matches ClassView::ConfigStateChange { state_label, .. } ==> spaceless(
            state_label,
        ),
    ensures
        shorthand_severity(shorthand(event)) == Some(tag_rank(event.base.severity)),
{
    let line = shorthand(event);
    let at = head(event).len() as int;
    lemma_heads_are_spaceless(event);
    reveal_strlit(" ");
    assert(line[at] == ' ');
    assert forall|i: int| 0 <= i < at implies #[trigger] line[i] != ' ' by {
        assert(line[i] == head(event)[i]);
    }
    assert(first_space(line, at));
    let chosen = choose|i: int| first_space(line, i);
    assert(chosen == at);
    let text = tag(event.base.severity);
    assert(line.subrange(at + 1, at + 1 + text.len()) =~= text);
    lemma_tags_differ(event.base.severity, line, at + 1);
}

} // verus!
