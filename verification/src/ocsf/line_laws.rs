//! What the one-line, flattened and raw forms of an event say.

use crate::json::{ryu_text, Json};
use crate::ocsf::attributes::{
    all_scalar, child_path, is_scalar, item_leaves, joined, leaf_text, leaves,
    member_leaves, raw, scalar_text, truncated, KEY_PREFIX, MAX_VALUE_LEN, RAW_KEY, SEVERITY_ID_KEY,
};
use crate::ocsf::enums::{AuthProtocolId, SeverityId, StatusId};
use crate::ocsf::events::EventView;
use crate::ocsf::shorthand::{shorthand, tag};
use crate::text::decimal;
use vstd::prelude::*;

verus! {

/// Each severity has its tag, and those outside the six ranks that of the
/// informational one.
pub proof fn law_severities_by_tag()
    ensures
        tag(SeverityId::Unknown) == "[INFO]"@,
        tag(SeverityId::Informational) == "[INFO]"@,
        tag(SeverityId::Low) == "[LOW]"@,
        tag(SeverityId::Medium) == "[MED]"@,
        tag(SeverityId::High) == "[HIGH]"@,
        tag(SeverityId::Critical) == "[CRIT]"@,
        tag(SeverityId::Fatal) == "[FATAL]"@,
        tag(SeverityId::Other) == "[INFO]"@,
{
}

/// Whether a line is a head, the severity's tag, the word for a failure where
/// there was one, and what comes behind them.
pub open spec fn reads(
    line: Seq<char>,
    head: Seq<char>,
    severity: SeverityId,
    status: Option<StatusId>,
    rest: Seq<char>,
) -> bool {
    &&& status == Some(StatusId::Failure) ==> line == head + " "@ + tag(severity) + " FAILED"@
        + rest
    &&& status != Some(StatusId::Failure) ==> line == head + " "@ + tag(severity) + rest
}

/// An Entity Management event's line names the activity, the resource by type and
/// by what it is called, and the actor where there is one.
pub proof fn law_entity_events_in_a_line(event: EventView)
    requires
        event.class is EntityManagement,
    ensures
        ({
            let entity = event.class->EntityManagement_entity;
            let actor = event.class->EntityManagement_actor;
            let id = event.base.activity_id;
            let head = if id == 1 {
                "ENTITY:CREATE"@
            } else if id == 2 {
                "ENTITY:READ"@
            } else if id == 3 {
                "ENTITY:UPDATE"@
            } else if id == 4 {
                "ENTITY:DELETE"@
            } else {
                "ENTITY:OTHER"@
            };
            let resource = " "@ + entity.entity_type + " \""@ + entity.readable() + "\""@;
            let line = shorthand(event);
            &&& actor is Some ==> reads(
                line,
                head,
                event.base.severity,
                event.base.status,
                resource + " by "@ + actor->0.user.name,
            )
            &&& actor is None ==> reads(
                line,
                head,
                event.base.severity,
                event.base.status,
                resource,
            )
        }),
{
    let entity = event.class->EntityManagement_entity;
    let none = Seq::<char>::empty();
    let resource = " "@ + entity.entity_type + " \""@ + entity.readable() + "\""@;
    assert(resource + none =~= resource);
    if let Some(actor) = event.class->EntityManagement_actor {
        assert(resource + (" by "@ + actor.user.name) =~= resource + " by "@ + actor.user.name);
    }
    lemma_nothing_added();
}

/// What nothing is added to stays as it is.
proof fn lemma_nothing_added()
    ensures
        forall|opening: Seq<char>| #[trigger] (opening + Seq::<char>::empty()) == opening,
{
    assert forall|opening: Seq<char>| #[trigger] (opening + Seq::<char>::empty())
        == opening by {
        assert(opening + Seq::<char>::empty() =~= opening);
    }
}

/// An Authentication event's line names the activity, and the protocol, the
/// identity, the origin and the reason, each where it is known.
pub proof fn law_authentication_events_in_a_line(event: EventView)
    requires
        event.class is Authentication,
    ensures
        ({
            let user = event.class->Authentication_user;
            let protocol = event.class->Authentication_auth_protocol;
            let origin = event.class->Authentication_src_endpoint;
            let detail = event.base.status_detail;
            let head = if event.base.activity_id == 1 {
                "AUTHN:LOGON"@
            } else if event.base.activity_id == 2 {
                "AUTHN:LOGOFF"@
            } else {
                "AUTHN:OTHER"@
            };
            let mechanism = if protocol == Some(AuthProtocolId::OpenId) {
                " "@ + "openid"@
            } else if protocol == Some(AuthProtocolId::Other) {
                " "@ + "other"@
            } else if protocol == Some(AuthProtocolId::Unknown) {
                " "@ + "unknown"@
            } else {
                Seq::empty()
            };
            let identity = if user is Some {
                " user:"@ + user->0.name
            } else {
                Seq::empty()
            };
            let peer = if origin is Some {
                " from "@ + origin->0.ip + ":"@ + decimal(origin->0.port as int)
            } else {
                Seq::empty()
            };
            let reason = if detail is Some {
                " [reason:"@ + detail->0 + "]"@
            } else {
                Seq::empty()
            };
            reads(
                shorthand(event),
                head,
                event.base.severity,
                event.base.status,
                mechanism + identity + peer + reason,
            )
        }),
{
    lemma_nothing_added();
}

/// A configuration change's line names what the new state is called, and the
/// message where there is one.
pub proof fn law_config_events_in_a_line(event: EventView)
    requires
        event.class is ConfigStateChange,
    ensures
        ({
            let head = "CONFIG:"@ + event.class->ConfigStateChange_state_label;
            &&& event.base.message is Some ==> reads(
                shorthand(event),
                head,
                event.base.severity,
                event.base.status,
                " "@ + event.base.message->0,
            )
            &&& event.base.message is None ==> reads(
                shorthand(event),
                head,
                event.base.severity,
                event.base.status,
                Seq::empty(),
            )
        }),
{
    lemma_nothing_added();
}

/// A finding's line names its title; that of an event of no class its message,
/// where there is one.
pub proof fn law_findings_and_other_events_in_a_line(event: EventView)
    ensures
        event.class is DetectionFinding ==> reads(
            shorthand(event),
            "FINDING"@,
            event.base.severity,
            event.base.status,
            " \""@ + event.class->DetectionFinding_finding_info.title + "\""@,
        ),
        event.class is Base && event.base.message is Some ==> reads(
            shorthand(event),
            "EVENT"@,
            event.base.severity,
            event.base.status,
            " "@ + event.base.message->0,
        ),
        event.class is Base && event.base.message is None ==> reads(
            shorthand(event),
            "EVENT"@,
            event.base.severity,
            event.base.status,
            Seq::empty(),
        ),
{
    lemma_nothing_added();
}

/// The keys and the limit of the flattened and raw forms.
pub proof fn law_keys_of_flattened_and_raw_events()
    ensures
        KEY_PREFIX@ == "ocsf"@,
        SEVERITY_ID_KEY@ == "ocsf.severity_id"@,
        RAW_KEY@ == "ocsf.raw"@,
        MAX_VALUE_LEN == 256,
{
}

/// A value of up to 256 characters is kept whole; a longer one keeps the first
/// 256 and is marked.
pub proof fn law_long_values_are_cut(text: Seq<char>)
    ensures
        text.len() <= 256 ==> truncated(text) == text,
        text.len() > 256 ==> truncated(text) == text.take(256).push('…'),
{
    reveal_strlit("…");
    if text.len() > 256 {
        assert(truncated(text) =~= text.take(256).push('…'));
    }
}

/// Texts read as they are, truth values as words, integers as their digits and
/// other numbers as doubles print.
pub proof fn law_scalars_read_plainly(text: Seq<char>, number: int, double: Json)
    ensures
        scalar_text(Json::Text(text)) == text,
        scalar_text(Json::Bool(true)) == "true"@,
        scalar_text(Json::Bool(false)) == "false"@,
        scalar_text(Json::Int(number)) == decimal(number),
        double is Real ==> scalar_text(double) == ryu_text(double),
{
}

/// Everything is a scalar but arrays and objects.
pub proof fn law_arrays_and_objects_are_no_scalars(json: Json, items: Seq<Json>)
    ensures
        is_scalar(json) <==> json is Null || json is Bool || json is Int || json is Real || json
            is Text,
        all_scalar(items) <==> forall|i: int|
            0 <= i < items.len() ==> !((#[trigger] items[i]) is Array) && !(items[i] is Object),
{
    if all_scalar(items) {
        assert forall|i: int| 0 <= i < items.len() implies !((#[trigger] items[i]) is Array) && !(
        items[i] is Object) by {
            assert(is_scalar(items[i]));
        }
    }
}

/// Joining goes item by item: a null leaves no trace, and any other item has a
/// comma in front unless it is the first that is kept.
pub proof fn law_joining_goes_item_by_item(items: Seq<Json>, n: nat)
    requires
        n < items.len(),
    ensures
        joined(items, 0) == Seq::<char>::empty(),
        items[n as int] is Null ==> joined(items, n + 1) == joined(items, n),
        !(items[n as int] is Null) && (forall|i: int| 0 <= i < n ==> (#[trigger] items[i]) is Null)
            ==> joined(items, n + 1) == scalar_text(items[n as int]),
        !(items[n as int] is Null) && (exists|i: int| 0 <= i < n && !((#[trigger] items[i]) is Null))
            ==> joined(items, n + 1) == joined(items, n) + ","@ + scalar_text(items[n as int]),
{
}

/// A null and an object are not one value. An array is one exactly where it holds
/// scalars only and not nulls alone: those joined. Everything else is one, as it
/// reads.
pub proof fn law_what_is_one_value(json: Json)
    ensures
        json is Null || json is Object ==> leaf_text(json) is None,
        json is Array ==> {
            let items = json->Array_0;
            &&& leaf_text(json) is Some <==> all_scalar(items) && exists|i: int|
                0 <= i < items.len() && !((#[trigger] items[i]) is Null)
            &&& leaf_text(json) is Some ==> leaf_text(json)->0 == joined(items, items.len())
        },
        json is Text || json is Bool || json is Int || json is Real ==> leaf_text(json) == Some(
            scalar_text(json),
        ),
{
}

/// A path grows by a dot and a segment.
pub proof fn law_paths_grow_by_a_dot(path: Seq<char>, segment: Seq<char>)
    ensures
        child_path(path, segment) == path + "."@ + segment,
{
}

/// What is one value has one pair, under its own path.
pub proof fn law_one_value_has_one_pair(path: Seq<char>, json: Json)
    ensures
        leaf_text(json) is Some ==> leaves(path, json) == seq![
            (path, truncated(leaf_text(json)->0)),
        ],
        json is Null ==> leaves(path, json).len() == 0,
{
}

/// The pairs of earlier members do not depend on later ones.
proof fn lemma_earlier_members_stay(
    path: Seq<char>,
    members: Seq<(Seq<char>, Json)>,
    more: (Seq<char>, Json),
    n: nat,
)
    requires
        n <= members.len(),
    ensures
        member_leaves(path, members.push(more), n) == member_leaves(path, members, n),
    decreases n,
{
    if n > 0 {
        lemma_earlier_members_stay(path, members, more, (n - 1) as nat);
        assert(members.push(more)[n - 1] == members[n - 1]);
    }
}

/// An object's pairs are those of its members, in order, each under the path and
/// the member's name.
pub proof fn law_objects_flatten_member_by_member(
    path: Seq<char>,
    members: Seq<(Seq<char>, Json)>,
    name: Seq<char>,
    value: Json,
)
    ensures
        leaves(path, Json::Object(Seq::empty())).len() == 0,
        leaves(path, Json::Object(members.push((name, value)))) == leaves(
            path,
            Json::Object(members),
        ) + leaves(path + "."@ + name, value),
{
    lemma_earlier_members_stay(path, members, (name, value), members.len());
    let all = members.push((name, value));
    assert(all[members.len() as int] == (name, value));
    assert(leaves(path, Json::Object(all)) == member_leaves(path, all, all.len()));
    assert(leaves(path, Json::Object(members)) == member_leaves(path, members, members.len()));
    let none = Seq::<(Seq<char>, Json)>::empty();
    assert(leaves(path, Json::Object(none)) == member_leaves(path, none, 0));
}

/// An array that holds an array or an object flattens item by item, each under
/// the path and the item's position, counted from zero.
pub proof fn law_arrays_flatten_item_by_item(path: Seq<char>, items: Seq<Json>, n: nat)
    requires
        n < items.len(),
    ensures
        !all_scalar(items) ==> leaves(path, Json::Array(items)) == item_leaves(
            path,
            items,
            items.len(),
        ),
        item_leaves(path, items, 0).len() == 0,
        item_leaves(path, items, n + 1) == item_leaves(path, items, n) + leaves(
            path + "."@ + decimal(n as int),
            items[n as int],
        ),
{
}

/// The raw form is two fields: the text of the document, and the severity's id.
pub proof fn law_raw_events_are_two_fields(text: Seq<char>, severity: SeverityId)
    ensures
        raw(text, severity) == seq![
            ("ocsf.raw"@, text),
            ("ocsf.severity_id"@, decimal(severity.id() as int)),
        ],
{
}

} // verus!
