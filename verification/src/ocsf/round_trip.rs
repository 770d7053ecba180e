//! What documents say of the objects and events they were written for, and that
//! both survive the trip through them.

use crate::json::Json;
use crate::ocsf::document::{
    int_member, last_written, law_member_is_last_written, law_the_last_of_a_name_is_written,
    lemma_last_written_in_turn, object, optional_member, optional_text_member, put_all, text_array,
    text_member,
};
use crate::ocsf::enums::{AuthProtocolId, StateId};
use crate::ocsf::events::{fact_members, BaseView, ClassView, EventView};
use crate::ocsf::objects::{
    ActorView, ContainerView, DeviceView, EndpointView, FindingInfoView, ManagedEntityView,
    MetadataView, ProductView, UserView,
};
use crate::ocsf::reading::{
    actor_in, authentication_in, base_in, container_in, device_in, endpoint_in, entity_event_in,
    entity_in, metadata_in, product_in, texts_in, user_in,
};
use crate::phrases::{named, unnamed};
use crate::string_map::{law_lookup_is_the_first_match, lookup};
use vstd::prelude::*;
use vstd::string::*;

verus! {

/// A number by which the member names of the schema are told apart.
spec fn print(name: Seq<char>) -> int {
    (name.len() * 1000 + name.first() as int) * 1000 + name.last() as int
}

/// The member names of an event.
proof fn lemma_event_prints()
    ensures
        print("class_uid"@) == 9_099_100,
        print("class_name"@) == 10_099_101,
        print("category_uid"@) == 12_099_100,
        print("category_name"@) == 13_099_101,
        print("activity_id"@) == 11_097_100,
        print("activity_name"@) == 13_097_101,
        print("type_uid"@) == 8_116_100,
        print("type_name"@) == 9_116_101,
        print("time"@) == 4_116_101,
        print("severity_id"@) == 11_115_100,
        print("severity"@) == 8_115_121,
        print("status_id"@) == 9_115_100,
        print("status"@) == 6_115_115,
        print("status_detail"@) == 13_115_108,
        print("message"@) == 7_109_101,
        print("metadata"@) == 8_109_097,
        print("device"@) == 6_100_101,
        print("container"@) == 9_099_114,
        print("unmapped"@) == 8_117_100,
        print("entity"@) == 6_101_121,
        print("actor"@) == 5_097_114,
        print("user"@) == 4_117_114,
        print("auth_protocol_id"@) == 16_097_100,
        print("auth_protocol"@) == 13_097_108,
        print("src_endpoint"@) == 12_115_116,
{
    reveal_strlit("class_uid");
    reveal_strlit("class_name");
    reveal_strlit("category_uid");
    reveal_strlit("category_name");
    reveal_strlit("activity_id");
    reveal_strlit("activity_name");
    reveal_strlit("type_uid");
    reveal_strlit("type_name");
    reveal_strlit("time");
    reveal_strlit("severity_id");
    reveal_strlit("severity");
    reveal_strlit("status_id");
    reveal_strlit("status");
    reveal_strlit("status_detail");
    reveal_strlit("message");
    reveal_strlit("metadata");
    reveal_strlit("device");
    reveal_strlit("container");
    reveal_strlit("unmapped");
    reveal_strlit("entity");
    reveal_strlit("actor");
    reveal_strlit("user");
    reveal_strlit("auth_protocol_id");
    reveal_strlit("auth_protocol");
    reveal_strlit("src_endpoint");
}

/// The member names of the objects inside an event.
proof fn lemma_object_prints()
    ensures
        print("name"@) == 4_110_101,
        print("uid"@) == 3_117_100,
        print("type_id"@) == 7_116_100,
        print("type"@) == 4_116_101,
        print("version"@) == 7_118_110,
        print("product"@) == 7_112_116,
        print("profiles"@) == 8_112_115,
        print("log_source"@) == 10_108_101,
        print("vendor_name"@) == 11_118_101,
        print("hostname"@) == 8_104_101,
        print("image"@) == 5_105_101,
        print("ip"@) == 2_105_112,
        print("port"@) == 4_112_116,
        print("user"@) == 4_117_114,
{
    reveal_strlit("name");
    reveal_strlit("uid");
    reveal_strlit("type_id");
    reveal_strlit("type");
    reveal_strlit("version");
    reveal_strlit("product");
    reveal_strlit("profiles");
    reveal_strlit("log_source");
    reveal_strlit("vendor_name");
    reveal_strlit("hostname");
    reveal_strlit("image");
    reveal_strlit("ip");
    reveal_strlit("port");
    reveal_strlit("user");
}

/// What stands under `key` after one more member was written, if it was.
spec fn pick(
    name: Seq<char>,
    json: Option<Json>,
    key: Seq<char>,
    before: Option<Json>,
) -> Option<Json> {
    if key == name && json is Some {
        json
    } else {
        before
    }
}

/// Reading after one more member was written, if it was.
proof fn lemma_pick(
    first: Seq<(Seq<char>, Json)>,
    name: Seq<char>,
    json: Option<Json>,
    key: Seq<char>,
)
    ensures
        last_written(first + optional_member(name, json), key) == pick(
            name,
            json,
            key,
            last_written(first, key),
        ),
{
    let all = first + optional_member(name, json);
    match json {
        Some(j) => {
            assert(all.drop_last() =~= first);
            assert(all.last() == (name, j));
        },
        None => {
            assert(all =~= first);
        },
    }
}

/// The document of an optional text.
spec fn text_json(text: Option<Seq<char>>) -> Option<Json> {
    match text {
        Some(t) => Some(Json::Text(t)),
        None => None,
    }
}

/// What a user's document holds under `key`.
spec fn user_picks(user: UserView, key: Seq<char>) -> Option<Json> {
    let named = pick("name"@, Some(Json::Text(user.name)), key, None);
    let identified = pick("uid"@, text_json(user.uid), key, named);
    match user.type_id {
        Some(type_id) => pick(
            "type"@,
            Some(Json::Text(type_id.name())),
            key,
            pick("type_id"@, Some(Json::Int(type_id.id() as int)), key, identified),
        ),
        None => identified,
    }
}

proof fn lemma_user_picks(user: UserView, key: Seq<char>)
    ensures
        lookup(put_all(Seq::empty(), user.members()), key) == user_picks(user, key),
{
    let none = Seq::<(Seq<char>, Json)>::empty();
    let one = text_member("name"@, user.name);
    let two = one + optional_text_member("uid"@, user.uid);
    assert(none + one =~= one);
    lemma_pick(none, "name"@, Some(Json::Text(user.name)), key);
    lemma_pick(one, "uid"@, text_json(user.uid), key);
    match user.type_id {
        Some(type_id) => {
            let three = two + int_member("type_id"@, type_id.id() as int);
            lemma_pick(two, "type_id"@, Some(Json::Int(type_id.id() as int)), key);
            lemma_pick(three, "type"@, Some(Json::Text(type_id.name())), key);
            assert(user.members() =~= three + text_member("type"@, type_id.name()));
        },
        None => {
            assert(user.members() =~= two);
        },
    }
    law_member_is_last_written(user.members(), key);
}

/// A user reads back from its document.
pub proof fn law_users_round_trip(user: UserView)
    ensures
        user_in(user.document()) == Some(user),
{
    lemma_object_prints();
    lemma_user_picks(user, "name"@);
    lemma_user_picks(user, "uid"@);
    lemma_user_picks(user, "type_id"@);
}

/// What the document of three optional members holds under `key`.
proof fn lemma_three_picks(
    names: (Seq<char>, Seq<char>, Seq<char>),
    jsons: (Option<Json>, Option<Json>, Option<Json>),
    key: Seq<char>,
)
    ensures
        lookup(
            put_all(
                Seq::empty(),
                optional_member(names.0, jsons.0) + optional_member(names.1, jsons.1)
                    + optional_member(names.2, jsons.2),
            ),
            key,
        ) == pick(names.2, jsons.2, key, pick(names.1, jsons.1, key, pick(names.0, jsons.0, key, None))),
{
    let none = Seq::<(Seq<char>, Json)>::empty();
    let one = optional_member(names.0, jsons.0);
    let two = one + optional_member(names.1, jsons.1);
    let three = two + optional_member(names.2, jsons.2);
    assert(none + one =~= one);
    lemma_pick(none, names.0, jsons.0, key);
    lemma_pick(one, names.1, jsons.1, key);
    lemma_pick(two, names.2, jsons.2, key);
    law_member_is_last_written(three, key);
}

/// A resource reads back from its document.
pub proof fn law_entities_round_trip(entity: ManagedEntityView)
    ensures
        entity_in(entity.document()) == Some(entity),
{
    lemma_object_prints();
    let names = ("type"@, "uid"@, "name"@);
    let jsons = (
        Some(Json::Text(entity.entity_type)),
        text_json(entity.uid),
        text_json(entity.name),
    );
    lemma_three_picks(names, jsons, "type"@);
    lemma_three_picks(names, jsons, "uid"@);
    lemma_three_picks(names, jsons, "name"@);
}

/// An actor reads back from its document.
pub proof fn law_actors_round_trip(actor: ActorView)
    ensures
        actor_in(actor.document()) == Some(actor),
{
    lemma_object_prints();
    law_users_round_trip(actor.user);
    let names = ("user"@, "user"@, "user"@);
    let jsons = (Some(actor.user.document()), None::<Json>, None::<Json>);
    lemma_three_picks(names, jsons, "user"@);
    let written = seq![("user"@, actor.user.document())];
    let none = Seq::<(Seq<char>, Json)>::empty();
    assert(written + none + none =~= written);
}

/// An endpoint reads back from its document.
pub proof fn law_endpoints_round_trip(endpoint: EndpointView)
    ensures
        endpoint_in(endpoint.document()) == Some(endpoint),
{
    lemma_object_prints();
    let names = ("ip"@, "port"@, "port"@);
    let jsons = (
        Some(Json::Text(endpoint.ip)),
        Some(Json::Int(endpoint.port as int)),
        None::<Json>,
    );
    lemma_three_picks(names, jsons, "ip"@);
    lemma_three_picks(names, jsons, "port"@);
    let written = text_member("ip"@, endpoint.ip) + int_member("port"@, endpoint.port as int);
    assert(written + Seq::<(Seq<char>, Json)>::empty() =~= written);
}

/// A device reads back from its document.
pub proof fn law_devices_round_trip(device: DeviceView)
    ensures
        device_in(device.document()) == Some(device),
{
    lemma_object_prints();
    let names = ("hostname"@, "hostname"@, "hostname"@);
    lemma_three_picks(
        names,
        (Some(Json::Text(device.hostname)), None::<Json>, None::<Json>),
        "hostname"@,
    );
    let written = text_member("hostname"@, device.hostname);
    let none = Seq::<(Seq<char>, Json)>::empty();
    assert(written + none + none =~= written);
}

/// A container reads back from its document.
pub proof fn law_containers_round_trip(container: ContainerView)
    ensures
        container_in(container.document()) == Some(container),
{
    lemma_object_prints();
    let names = ("name"@, "image"@, "image"@);
    let jsons = (
        Some(Json::Text(container.name)),
        Some(Json::Text(container.image)),
        None::<Json>,
    );
    lemma_three_picks(names, jsons, "name"@);
    lemma_three_picks(names, jsons, "image"@);
    let written = text_member("name"@, container.name) + text_member("image"@, container.image);
    assert(written + Seq::<(Seq<char>, Json)>::empty() =~= written);
}

/// A product reads back from its document.
pub proof fn law_products_round_trip(product: ProductView)
    ensures
        product_in(product.document()) == Some(product),
{
    lemma_object_prints();
    let names = ("name"@, "vendor_name"@, "version"@);
    let jsons = (
        Some(Json::Text(product.name)),
        Some(Json::Text(product.vendor_name)),
        Some(Json::Text(product.version)),
    );
    lemma_three_picks(names, jsons, "name"@);
    lemma_three_picks(names, jsons, "vendor_name"@);
    lemma_three_picks(names, jsons, "version"@);
}

/// What a metadata document holds under `key`.
spec fn metadata_picks(metadata: MetadataView, key: Seq<char>) -> Option<Json> {
    pick(
        "log_source"@,
        text_json(metadata.log_source),
        key,
        pick(
            "uid"@,
            text_json(metadata.uid),
            key,
            pick(
                "profiles"@,
                Some(text_array(metadata.profiles)),
                key,
                pick(
                    "product"@,
                    Some(metadata.product.document()),
                    key,
                    pick("version"@, Some(Json::Text(metadata.version)), key, None),
                ),
            ),
        ),
    )
}

proof fn lemma_metadata_picks(metadata: MetadataView, key: Seq<char>)
    ensures
        lookup(put_all(Seq::empty(), metadata.members()), key) == metadata_picks(metadata, key),
{
    let none = Seq::<(Seq<char>, Json)>::empty();
    let one = text_member("version"@, metadata.version);
    let two = one + seq![("product"@, metadata.product.document())];
    let three = two + seq![("profiles"@, text_array(metadata.profiles))];
    let four = three + optional_text_member("uid"@, metadata.uid);
    assert(none + one =~= one);
    lemma_pick(none, "version"@, Some(Json::Text(metadata.version)), key);
    lemma_pick(one, "product"@, Some(metadata.product.document()), key);
    lemma_pick(two, "profiles"@, Some(text_array(metadata.profiles)), key);
    lemma_pick(three, "uid"@, text_json(metadata.uid), key);
    lemma_pick(four, "log_source"@, text_json(metadata.log_source), key);
    law_member_is_last_written(metadata.members(), key);
}

/// Metadata reads back from its document.
pub proof fn law_metadata_round_trips(metadata: MetadataView)
    ensures
        metadata_in(metadata.document()) == Some(metadata),
{
    lemma_object_prints();
    law_products_round_trip(metadata.product);
    lemma_metadata_picks(metadata, "version"@);
    lemma_metadata_picks(metadata, "product"@);
    lemma_metadata_picks(metadata, "profiles"@);
    lemma_metadata_picks(metadata, "uid"@);
    lemma_metadata_picks(metadata, "log_source"@);
    let texts = metadata.profiles;
    assert(text_array(texts)->Array_0.map_values(|item: Json| item->Text_0) =~= texts);
    assert(texts_in(text_array(texts)) == Some(texts));
}

/// What an event's class members hold under `key`.
spec fn class_picks(base: BaseView, key: Seq<char>) -> Option<Json> {
    pick("time"@, Some(Json::Int(base.time as int)), key, pick("type_name"@, Some(Json::Text(base.type_label)), key, pick("type_uid"@, Some(Json::Int(base.type_uid as int)), key, pick("activity_name"@, Some(Json::Text(base.activity_name)), key, pick("activity_id"@, Some(Json::Int(base.activity_id as int)), key, pick("category_name"@, Some(Json::Text(base.category_name)), key, pick("category_uid"@, Some(Json::Int(base.category_uid as int)), key, pick("class_name"@, Some(Json::Text(base.class_name)), key, pick("class_uid"@, Some(Json::Int(base.class_uid as int)), key, None)))))))))
}

proof fn lemma_class_picks(base: BaseView, key: Seq<char>)
    ensures
        last_written(base.class_members(), key) == class_picks(base, key),
{
    let none = Seq::<(Seq<char>, Json)>::empty();
    let one = int_member("class_uid"@, base.class_uid as int);
    assert(none + one =~= one);
    lemma_pick(none, "class_uid"@, Some(Json::Int(base.class_uid as int)), key);
    let two = one + text_member("class_name"@, base.class_name);
    lemma_pick(one, "class_name"@, Some(Json::Text(base.class_name)), key);
    let three = two + int_member("category_uid"@, base.category_uid as int);
    lemma_pick(two, "category_uid"@, Some(Json::Int(base.category_uid as int)), key);
    let four = three + text_member("category_name"@, base.category_name);
    lemma_pick(three, "category_name"@, Some(Json::Text(base.category_name)), key);
    let five = four + int_member("activity_id"@, base.activity_id as int);
    lemma_pick(four, "activity_id"@, Some(Json::Int(base.activity_id as int)), key);
    let six = five + text_member("activity_name"@, base.activity_name);
    lemma_pick(five, "activity_name"@, Some(Json::Text(base.activity_name)), key);
    let seven = six + int_member("type_uid"@, base.type_uid as int);
    lemma_pick(six, "type_uid"@, Some(Json::Int(base.type_uid as int)), key);
    let eight = seven + text_member("type_name"@, base.type_label);
    lemma_pick(seven, "type_name"@, Some(Json::Text(base.type_label)), key);
    lemma_pick(eight, "time"@, Some(Json::Int(base.time as int)), key);
}

/// What an event's ranking members hold under `key`.
spec fn severity_picks(base: BaseView, key: Seq<char>) -> Option<Json> {
    pick("severity"@, Some(Json::Text(base.severity.name())), key, pick("severity_id"@, Some(Json::Int(base.severity.id() as int)), key, None))
}

proof fn lemma_severity_picks(base: BaseView, key: Seq<char>)
    ensures
        last_written(base.severity_members(), key) == severity_picks(base, key),
{
    let none = Seq::<(Seq<char>, Json)>::empty();
    let one = int_member("severity_id"@, base.severity.id() as int);
    assert(none + one =~= one);
    lemma_pick(none, "severity_id"@, Some(Json::Int(base.severity.id() as int)), key);
    lemma_pick(one, "severity"@, Some(Json::Text(base.severity.name())), key);
}

/// The id of an optional status.
spec fn status_id_json(base: BaseView) -> Option<Json> {
    match base.status {
        Some(status) => Some(Json::Int(status.id() as int)),
        None => None,
    }
}

/// The label of an optional status.
spec fn status_label_json(base: BaseView) -> Option<Json> {
    match base.status {
        Some(status) => Some(Json::Text(status.name())),
        None => None,
    }
}

/// The document of an optional device.
spec fn device_json(base: BaseView) -> Option<Json> {
    match base.device {
        Some(device) => Some(device.document()),
        None => None,
    }
}

/// The document of an optional container.
spec fn container_json(base: BaseView) -> Option<Json> {
    match base.container {
        Some(container) => Some(container.document()),
        None => None,
    }
}

/// What an event's outcome members hold under `key`.
spec fn status_picks(base: BaseView, key: Seq<char>) -> Option<Json> {
    pick("status"@, status_label_json(base), key, pick("status_id"@, status_id_json(base), key, None))
}

proof fn lemma_status_picks(base: BaseView, key: Seq<char>)
    ensures
        last_written(optional_member("status_id"@, status_id_json(base)) + optional_member("status"@, status_label_json(base)), key) == status_picks(base, key),
{
    let none = Seq::<(Seq<char>, Json)>::empty();
    let one = optional_member("status_id"@, status_id_json(base));
    assert(none + one =~= one);
    lemma_pick(none, "status_id"@, status_id_json(base), key);
    lemma_pick(one, "status"@, status_label_json(base), key);
}

/// What an event's context members hold under `key`.
spec fn context_picks(base: BaseView, key: Seq<char>) -> Option<Json> {
    pick(
        "unmapped"@,
        base.unmapped,
        key,
        pick(
            "container"@,
            container_json(base),
            key,
            pick(
                "device"@,
                device_json(base),
                key,
                pick(
                    "metadata"@,
                    Some(base.metadata.document()),
                    key,
                    pick(
                        "message"@,
                        text_json(base.message),
                        key,
                        pick(
                            "status_detail"@,
                            text_json(base.status_detail),
                            key,
                            status_picks(base, key),
                        ),
                    ),
                ),
            ),
        ),
    )
}

proof fn lemma_context_picks(base: BaseView, key: Seq<char>)
    ensures
        last_written(base.context_members(), key) == context_picks(base, key),
{
    let one = base.status_members();
    assert(one =~= optional_member("status_id"@, status_id_json(base)) + optional_member(
        "status"@,
        status_label_json(base),
    ));
    lemma_status_picks(base, key);
    let two = one + optional_text_member("status_detail"@, base.status_detail);
    let three = two + optional_text_member("message"@, base.message);
    let four = three + seq![("metadata"@, base.metadata.document())];
    let five = four + optional_member("device"@, device_json(base));
    let six = five + optional_member("container"@, container_json(base));
    lemma_pick(one, "status_detail"@, text_json(base.status_detail), key);
    lemma_pick(two, "message"@, text_json(base.message), key);
    lemma_pick(three, "metadata"@, Some(base.metadata.document()), key);
    lemma_pick(four, "device"@, device_json(base), key);
    lemma_pick(five, "container"@, container_json(base), key);
    lemma_pick(six, "unmapped"@, base.unmapped, key);
}

/// The later of two finds.
spec fn later(first: Option<Json>, second: Option<Json>) -> Option<Json> {
    match second {
        Some(json) => Some(json),
        None => first,
    }
}

/// What the members common to all classes hold under `key`.
spec fn base_picks(base: BaseView, key: Seq<char>) -> Option<Json> {
    later(later(class_picks(base, key), severity_picks(base, key)), context_picks(base, key))
}

/// What a document holds under `key`, given what its class adds.
proof fn lemma_event_picks(event: EventView, key: Seq<char>)
    ensures
        lookup(put_all(Seq::empty(), event.members()), key) == later(
            base_picks(event.base, key),
            last_written(event.class.members(), key),
        ),
{
    let base = event.base;
    lemma_class_picks(base, key);
    lemma_severity_picks(base, key);
    lemma_context_picks(base, key);
    lemma_last_written_in_turn(base.class_members(), base.severity_members(), key);
    lemma_last_written_in_turn(
        base.class_members() + base.severity_members(),
        base.context_members(),
        key,
    );
    lemma_last_written_in_turn(base.members(), event.class.members(), key);
    law_member_is_last_written(event.members(), key);
}

/// Whether a class adds no member that is common to all classes.
spec fn stands_apart(class: ClassView) -> bool {
    let added = class.members();
    &&& last_written(added, "class_uid"@) is None
    &&& last_written(added, "class_name"@) is None
    &&& last_written(added, "category_uid"@) is None
    &&& last_written(added, "category_name"@) is None
    &&& last_written(added, "activity_id"@) is None
    &&& last_written(added, "activity_name"@) is None
    &&& last_written(added, "type_uid"@) is None
    &&& last_written(added, "type_name"@) is None
    &&& last_written(added, "time"@) is None
    &&& last_written(added, "severity_id"@) is None
    &&& last_written(added, "status_id"@) is None
    &&& last_written(added, "status_detail"@) is None
    &&& last_written(added, "message"@) is None
    &&& last_written(added, "metadata"@) is None
    &&& last_written(added, "device"@) is None
    &&& last_written(added, "container"@) is None
    &&& last_written(added, "unmapped"@) is None
}

/// The members common to all classes read back from an event's document.
proof fn lemma_base_round_trips(event: EventView)
    requires
        stands_apart(event.class),
        event.base.unmapped != Some(Json::Null),
    ensures
        base_in(put_all(Seq::empty(), event.members())) == Some(event.base),
{
    lemma_event_prints();
    let base = event.base;
    lemma_event_picks(event, "class_uid"@);
    lemma_event_picks(event, "class_name"@);
    lemma_event_picks(event, "category_uid"@);
    lemma_event_picks(event, "category_name"@);
    lemma_event_picks(event, "activity_id"@);
    lemma_event_picks(event, "activity_name"@);
    lemma_event_picks(event, "type_uid"@);
    lemma_event_picks(event, "type_name"@);
    lemma_event_picks(event, "time"@);
    lemma_event_picks(event, "severity_id"@);
    lemma_event_picks(event, "status_id"@);
    lemma_event_picks(event, "status_detail"@);
    lemma_event_picks(event, "message"@);
    lemma_event_picks(event, "metadata"@);
    lemma_event_picks(event, "device"@);
    lemma_event_picks(event, "container"@);
    lemma_event_picks(event, "unmapped"@);
    law_metadata_round_trips(base.metadata);
    if let Some(device) = base.device {
        law_devices_round_trip(device);
    }
    if let Some(container) = base.container {
        law_containers_round_trip(container);
    }
}

/// What an Entity Management event adds under `key`.
proof fn lemma_entity_class_picks(
    entity: ManagedEntityView,
    actor: Option<ActorView>,
    key: Seq<char>,
)
    ensures
        last_written((ClassView::EntityManagement { entity, actor }).members(), key) == pick(
            "actor"@,
            match actor {
                Some(a) => Some(a.document()),
                None => None,
            },
            key,
            pick("entity"@, Some(entity.document()), key, None),
        ),
{
    let none = Seq::<(Seq<char>, Json)>::empty();
    let one = seq![("entity"@, entity.document())];
    assert(none + one =~= one);
    lemma_pick(none, "entity"@, Some(entity.document()), key);
    lemma_pick(
        one,
        "actor"@,
        match actor {
            Some(a) => Some(a.document()),
            None => None,
        },
        key,
    );
}

/// An Entity Management event reads back from its document, except that an
/// unmapped null reads as nothing.
pub proof fn law_entity_events_round_trip(event: EventView)
    requires
        event.class is EntityManagement,
        event.base.unmapped != Some(Json::Null),
    ensures
        entity_event_in(event.document()) == Some(event),
{
    lemma_event_prints();
    let entity = event.class->EntityManagement_entity;
    let actor = event.class->EntityManagement_actor;
    assert forall|key: Seq<char>| #![trigger last_written(event.class.members(), key)]
        print(key) != print("entity"@) && print(key) != print("actor"@) implies last_written(
        event.class.members(),
        key,
    ) is None by {
        lemma_entity_class_picks(entity, actor, key);
    }
    lemma_base_round_trips(event);
    lemma_event_picks(event, "entity"@);
    lemma_event_picks(event, "actor"@);
    lemma_entity_class_picks(entity, actor, "entity"@);
    lemma_entity_class_picks(entity, actor, "actor"@);
    law_entities_round_trip(entity);
    if let Some(a) = actor {
        law_actors_round_trip(a);
    }
}

/// The document of an optional identity.
spec fn user_json(user: Option<UserView>) -> Option<Json> {
    match user {
        Some(u) => Some(u.document()),
        None => None,
    }
}

/// The id of an optional protocol.
spec fn protocol_id_json(protocol: Option<AuthProtocolId>) -> Option<Json> {
    match protocol {
        Some(p) => Some(Json::Int(p.id() as int)),
        None => None,
    }
}

/// The label of an optional protocol.
spec fn protocol_label_json(protocol: Option<AuthProtocolId>) -> Option<Json> {
    match protocol {
        Some(p) => Some(Json::Text(p.name())),
        None => None,
    }
}

/// The document of an optional origin.
spec fn origin_json(endpoint: Option<EndpointView>) -> Option<Json> {
    match endpoint {
        Some(e) => Some(e.document()),
        None => None,
    }
}

/// What an Authentication event adds under `key`.
proof fn lemma_authentication_class_picks(
    user: Option<UserView>,
    auth_protocol: Option<AuthProtocolId>,
    src_endpoint: Option<EndpointView>,
    key: Seq<char>,
)
    ensures
        last_written(
            (ClassView::Authentication { user, auth_protocol, src_endpoint }).members(),
            key,
        ) == pick(
            "src_endpoint"@,
            origin_json(src_endpoint),
            key,
            pick(
                "auth_protocol"@,
                protocol_label_json(auth_protocol),
                key,
                pick(
                    "auth_protocol_id"@,
                    protocol_id_json(auth_protocol),
                    key,
                    pick("user"@, user_json(user), key, None),
                ),
            ),
        ),
{
    let none = Seq::<(Seq<char>, Json)>::empty();
    let one = optional_member("user"@, user_json(user));
    let two = one + optional_member("auth_protocol_id"@, protocol_id_json(auth_protocol));
    let three = two + optional_member("auth_protocol"@, protocol_label_json(auth_protocol));
    let four = three + optional_member("src_endpoint"@, origin_json(src_endpoint));
    assert(none + one =~= one);
    lemma_pick(none, "user"@, user_json(user), key);
    lemma_pick(one, "auth_protocol_id"@, protocol_id_json(auth_protocol), key);
    lemma_pick(two, "auth_protocol"@, protocol_label_json(auth_protocol), key);
    lemma_pick(three, "src_endpoint"@, origin_json(src_endpoint), key);
    assert((ClassView::Authentication { user, auth_protocol, src_endpoint }).members() =~= four);
}

/// An Authentication event reads back from its document, except that an
/// unmapped null reads as nothing.
pub proof fn law_authentication_events_round_trip(event: EventView)
    requires
        event.class is Authentication,
        event.base.unmapped != Some(Json::Null),
    ensures
        authentication_in(event.document()) == Some(event),
{
    lemma_event_prints();
    let user = event.class->Authentication_user;
    let auth_protocol = event.class->Authentication_auth_protocol;
    let src_endpoint = event.class->Authentication_src_endpoint;
    assert forall|key: Seq<char>| #![trigger last_written(event.class.members(), key)]
        print(key) != print("user"@) && print(key) != print("auth_protocol_id"@) && print(key)
            != print("auth_protocol"@) && print(key) != print(
            "src_endpoint"@,
        ) implies last_written(event.class.members(), key) is None by {
        lemma_authentication_class_picks(user, auth_protocol, src_endpoint, key);
    }
    lemma_base_round_trips(event);
    lemma_event_picks(event, "user"@);
    lemma_event_picks(event, "auth_protocol_id"@);
    lemma_event_picks(event, "src_endpoint"@);
    lemma_authentication_class_picks(user, auth_protocol, src_endpoint, "user"@);
    lemma_authentication_class_picks(user, auth_protocol, src_endpoint, "auth_protocol_id"@);
    lemma_authentication_class_picks(user, auth_protocol, src_endpoint, "src_endpoint"@);
    if let Some(u) = user {
        law_users_round_trip(u);
    }
    if let Some(e) = src_endpoint {
        law_endpoints_round_trip(e);
    }
}

/// Whether an object says a value under a name, or says nothing under it.
pub open spec fn says(document: Json, name: Seq<char>, value: Option<Json>) -> bool {
    &&& document is Object
    &&& value is Some ==> named(document->Object_0, name, value->0)
    &&& value is None ==> unnamed(document->Object_0, name)
}

/// What is found under a name is what an object says under it.
proof fn lemma_says(members: Seq<(Seq<char>, Json)>, name: Seq<char>, value: Option<Json>)
    requires
        lookup(members, name) == value,
    ensures
        says(Json::Object(members), name, value),
{
    let json = if value is Some {
        value->0
    } else {
        Json::Null
    };
    law_lookup_is_the_first_match(members, name, json);
}

/// A user's document says the name, the uid where there is one, the type by id
/// and label where there is one, and nothing else.
pub proof fn law_user_documents(user: UserView, other: Seq<char>)
    ensures
        ({
            let document = user.document();
            &&& says(document, "name"@, Some(Json::Text(user.name)))
            &&& user.uid is Some ==> says(document, "uid"@, Some(Json::Text(user.uid->0)))
            &&& user.uid is None ==> says(document, "uid"@, None)
            &&& user.type_id is Some ==> says(
                document,
                "type_id"@,
                Some(Json::Int(user.type_id->0.id() as int)),
            ) && says(document, "type"@, Some(Json::Text(user.type_id->0.name())))
            &&& user.type_id is None ==> says(document, "type_id"@, None) && says(
                document,
                "type"@,
                None,
            )
            &&& other != "name"@ && other != "uid"@ && other != "type_id"@ && other != "type"@
                ==> says(document, other, None)
        }),
{
    lemma_object_prints();
    let members = put_all(Seq::empty(), user.members());
    lemma_user_picks(user, "name"@);
    lemma_user_picks(user, "uid"@);
    lemma_user_picks(user, "type_id"@);
    lemma_user_picks(user, "type"@);
    lemma_user_picks(user, other);
    lemma_says(members, "name"@, Some(Json::Text(user.name)));
    lemma_says(members, "uid"@, text_json(user.uid));
    lemma_says(members, "type_id"@, lookup(members, "type_id"@));
    lemma_says(members, "type"@, lookup(members, "type"@));
    lemma_says(members, other, lookup(members, other));
}

/// A resource's document says its type, its uid and its name, the latter two
/// where they are known, and nothing else.
pub proof fn law_entity_documents(entity: ManagedEntityView, other: Seq<char>)
    ensures
        ({
            let document = entity.document();
            &&& says(document, "type"@, Some(Json::Text(entity.entity_type)))
            &&& entity.uid is Some ==> says(document, "uid"@, Some(Json::Text(entity.uid->0)))
            &&& entity.uid is None ==> says(document, "uid"@, None)
            &&& entity.name is Some ==> says(document, "name"@, Some(Json::Text(entity.name->0)))
            &&& entity.name is None ==> says(document, "name"@, None)
            &&& other != "type"@ && other != "uid"@ && other != "name"@ ==> says(
                document,
                other,
                None,
            )
        }),
{
    lemma_object_prints();
    let members = put_all(Seq::empty(), entity.members());
    let names = ("type"@, "uid"@, "name"@);
    let jsons = (
        Some(Json::Text(entity.entity_type)),
        text_json(entity.uid),
        text_json(entity.name),
    );
    lemma_three_picks(names, jsons, "type"@);
    lemma_three_picks(names, jsons, "uid"@);
    lemma_three_picks(names, jsons, "name"@);
    lemma_three_picks(names, jsons, other);
    lemma_says(members, "type"@, jsons.0);
    lemma_says(members, "uid"@, jsons.1);
    lemma_says(members, "name"@, jsons.2);
    lemma_says(members, other, lookup(members, other));
}

/// An actor's document says the acting user, and nothing else.
pub proof fn law_actor_documents(actor: ActorView, other: Seq<char>)
    ensures
        says(actor.document(), "user"@, Some(actor.user.document())),
        other != "user"@ ==> says(actor.document(), other, None),
{
    let names = ("user"@, "user"@, "user"@);
    let jsons = (Some(actor.user.document()), None::<Json>, None::<Json>);
    let written = seq![("user"@, actor.user.document())];
    let members = put_all(Seq::empty(), written);
    lemma_three_picks(names, jsons, "user"@);
    lemma_three_picks(names, jsons, other);
    let none = Seq::<(Seq<char>, Json)>::empty();
    assert(written + none + none =~= written);
    lemma_says(members, "user"@, jsons.0);
    lemma_says(members, other, lookup(members, other));
}

/// An endpoint's document says the address and the port, and nothing else.
pub proof fn law_endpoint_documents(endpoint: EndpointView, other: Seq<char>)
    ensures
        says(endpoint.document(), "ip"@, Some(Json::Text(endpoint.ip))),
        says(endpoint.document(), "port"@, Some(Json::Int(endpoint.port as int))),
        other != "ip"@ && other != "port"@ ==> says(endpoint.document(), other, None),
{
    lemma_object_prints();
    let names = ("ip"@, "port"@, "port"@);
    let jsons = (
        Some(Json::Text(endpoint.ip)),
        Some(Json::Int(endpoint.port as int)),
        None::<Json>,
    );
    let written = text_member("ip"@, endpoint.ip) + int_member("port"@, endpoint.port as int);
    let members = put_all(Seq::empty(), written);
    lemma_three_picks(names, jsons, "ip"@);
    lemma_three_picks(names, jsons, "port"@);
    lemma_three_picks(names, jsons, other);
    assert(written + Seq::<(Seq<char>, Json)>::empty() =~= written);
    lemma_says(members, "ip"@, jsons.0);
    lemma_says(members, "port"@, jsons.1);
    lemma_says(members, other, lookup(members, other));
}

/// A device's document says the host name, and nothing else.
pub proof fn law_device_documents(device: DeviceView, other: Seq<char>)
    ensures
        says(device.document(), "hostname"@, Some(Json::Text(device.hostname))),
        other != "hostname"@ ==> says(device.document(), other, None),
{
    let names = ("hostname"@, "hostname"@, "hostname"@);
    let jsons = (Some(Json::Text(device.hostname)), None::<Json>, None::<Json>);
    let written = text_member("hostname"@, device.hostname);
    let members = put_all(Seq::empty(), written);
    lemma_three_picks(names, jsons, "hostname"@);
    lemma_three_picks(names, jsons, other);
    let none = Seq::<(Seq<char>, Json)>::empty();
    assert(written + none + none =~= written);
    lemma_says(members, "hostname"@, jsons.0);
    lemma_says(members, other, lookup(members, other));
}

/// A container's document says the name and the image, and nothing else.
pub proof fn law_container_documents(container: ContainerView, other: Seq<char>)
    ensures
        says(container.document(), "name"@, Some(Json::Text(container.name))),
        says(container.document(), "image"@, Some(Json::Text(container.image))),
        other != "name"@ && other != "image"@ ==> says(container.document(), other, None),
{
    lemma_object_prints();
    let names = ("name"@, "image"@, "image"@);
    let jsons = (
        Some(Json::Text(container.name)),
        Some(Json::Text(container.image)),
        None::<Json>,
    );
    let written = text_member("name"@, container.name) + text_member("image"@, container.image);
    let members = put_all(Seq::empty(), written);
    lemma_three_picks(names, jsons, "name"@);
    lemma_three_picks(names, jsons, "image"@);
    lemma_three_picks(names, jsons, other);
    assert(written + Seq::<(Seq<char>, Json)>::empty() =~= written);
    lemma_says(members, "name"@, jsons.0);
    lemma_says(members, "image"@, jsons.1);
    lemma_says(members, other, lookup(members, other));
}

/// A product's document says its name, its vendor and its version, and nothing
/// else.
pub proof fn law_product_documents(product: ProductView, other: Seq<char>)
    ensures
        says(product.document(), "name"@, Some(Json::Text(product.name))),
        says(product.document(), "vendor_name"@, Some(Json::Text(product.vendor_name))),
        says(product.document(), "version"@, Some(Json::Text(product.version))),
        other != "name"@ && other != "vendor_name"@ && other != "version"@ ==> says(
            product.document(),
            other,
            None,
        ),
{
    lemma_object_prints();
    let names = ("name"@, "vendor_name"@, "version"@);
    let jsons = (
        Some(Json::Text(product.name)),
        Some(Json::Text(product.vendor_name)),
        Some(Json::Text(product.version)),
    );
    let members = put_all(Seq::empty(), product.members());
    lemma_three_picks(names, jsons, "name"@);
    lemma_three_picks(names, jsons, "vendor_name"@);
    lemma_three_picks(names, jsons, "version"@);
    lemma_three_picks(names, jsons, other);
    lemma_says(members, "name"@, jsons.0);
    lemma_says(members, "vendor_name"@, jsons.1);
    lemma_says(members, "version"@, jsons.2);
    lemma_says(members, other, lookup(members, other));
}

/// A finding's description says its uid, its title and what it is about, the
/// latter where it is known, and nothing else.
pub proof fn law_finding_documents(info: FindingInfoView, other: Seq<char>)
    ensures
        ({
            let document = info.document();
            &&& says(document, "uid"@, Some(Json::Text(info.uid)))
            &&& says(document, "title"@, Some(Json::Text(info.title)))
            &&& info.desc is Some ==> says(document, "desc"@, Some(Json::Text(info.desc->0)))
            &&& info.desc is None ==> says(document, "desc"@, None)
            &&& other != "uid"@ && other != "title"@ && other != "desc"@ ==> says(
                document,
                other,
                None,
            )
        }),
{
    reveal_strlit("uid");
    reveal_strlit("title");
    reveal_strlit("desc");
    assert("uid"@.len() == 3);
    assert("title"@.len() == 5);
    assert("desc"@.len() == 4);
    let names = ("uid"@, "title"@, "desc"@);
    let jsons = (
        Some(Json::Text(info.uid)),
        Some(Json::Text(info.title)),
        text_json(info.desc),
    );
    let written = text_member("uid"@, info.uid) + text_member("title"@, info.title)
        + optional_text_member("desc"@, info.desc);
    let members = put_all(Seq::empty(), written);
    lemma_three_picks(names, jsons, "uid"@);
    lemma_three_picks(names, jsons, "title"@);
    lemma_three_picks(names, jsons, "desc"@);
    lemma_three_picks(names, jsons, other);
    lemma_says(members, "uid"@, jsons.0);
    lemma_says(members, "title"@, jsons.1);
    lemma_says(members, "desc"@, jsons.2);
    lemma_says(members, other, lookup(members, other));
}

/// Metadata's document says the schema version, the product, the profiles in
/// order, the sandbox and the log source, the latter two where they are known,
/// and nothing else.
pub proof fn law_metadata_documents(metadata: MetadataView, other: Seq<char>, at: int)
    ensures
        ({
            let document = metadata.document();
            &&& says(document, "version"@, Some(Json::Text(metadata.version)))
            &&& says(document, "product"@, Some(metadata.product.document()))
            &&& exists|items: Seq<Json>|
                {
                    &&& #[trigger] says(document, "profiles"@, Some(Json::Array(items)))
                    &&& items.len() == metadata.profiles.len()
                    &&& 0 <= at < items.len() ==> items[at] == Json::Text(metadata.profiles[at])
                }
            &&& metadata.uid is Some ==> says(document, "uid"@, Some(Json::Text(metadata.uid->0)))
            &&& metadata.uid is None ==> says(document, "uid"@, None)
            &&& metadata.log_source is Some ==> says(
                document,
                "log_source"@,
                Some(Json::Text(metadata.log_source->0)),
            )
            &&& metadata.log_source is None ==> says(document, "log_source"@, None)
            &&& other != "version"@ && other != "product"@ && other != "profiles"@ && other
                != "uid"@ && other != "log_source"@ ==> says(document, other, None)
        }),
{
    lemma_object_prints();
    let members = put_all(Seq::empty(), metadata.members());
    lemma_metadata_picks(metadata, "version"@);
    lemma_metadata_picks(metadata, "product"@);
    lemma_metadata_picks(metadata, "profiles"@);
    lemma_metadata_picks(metadata, "uid"@);
    lemma_metadata_picks(metadata, "log_source"@);
    lemma_metadata_picks(metadata, other);
    lemma_says(members, "version"@, Some(Json::Text(metadata.version)));
    lemma_says(members, "product"@, Some(metadata.product.document()));
    lemma_says(members, "profiles"@, Some(text_array(metadata.profiles)));
    lemma_says(members, "uid"@, text_json(metadata.uid));
    lemma_says(members, "log_source"@, text_json(metadata.log_source));
    lemma_says(members, other, lookup(members, other));
    let items = text_array(metadata.profiles)->Array_0;
    assert(says(metadata.document(), "profiles"@, Some(Json::Array(items))));
}

/// The member names of the other classes.
proof fn lemma_class_prints()
    ensures
        print("state_id"@) == 8_115_100,
        print("state"@) == 5_115_101,
        print("finding_info"@) == 12_102_111,
        print("evidences"@) == 9_101_115,
        print("is_alert"@) == 8_105_116,
{
    reveal_strlit("state_id");
    reveal_strlit("state");
    reveal_strlit("finding_info");
    reveal_strlit("evidences");
    reveal_strlit("is_alert");
}

/// What a configuration change adds under `key`.
proof fn lemma_config_class_picks(
    state: StateId,
    state_label: Seq<char>,
    actor: Option<ActorView>,
    key: Seq<char>,
)
    ensures
        last_written(
            (ClassView::ConfigStateChange { state, state_label, actor }).members(),
            key,
        ) == pick(
            "actor"@,
            actor_json(actor),
            key,
            pick(
                "state"@,
                Some(Json::Text(state_label)),
                key,
                pick("state_id"@, Some(Json::Int(state.id() as int)), key, None),
            ),
        ),
{
    let none = Seq::<(Seq<char>, Json)>::empty();
    let one = int_member("state_id"@, state.id() as int);
    let two = one + text_member("state"@, state_label);
    assert(none + one =~= one);
    lemma_pick(none, "state_id"@, Some(Json::Int(state.id() as int)), key);
    lemma_pick(one, "state"@, Some(Json::Text(state_label)), key);
    lemma_pick(two, "actor"@, actor_json(actor), key);
}

/// The document of an optional actor.
spec fn actor_json(actor: Option<ActorView>) -> Option<Json> {
    match actor {
        Some(a) => Some(a.document()),
        None => None,
    }
}

/// What a finding adds under `key`.
proof fn lemma_finding_class_picks(
    finding_info: FindingInfoView,
    evidence: Seq<(Seq<char>, Seq<char>)>,
    is_alert: bool,
    key: Seq<char>,
)
    ensures
        last_written(
            (ClassView::DetectionFinding { finding_info, evidence, is_alert }).members(),
            key,
        ) == pick(
            "is_alert"@,
            Some(Json::Bool(is_alert)),
            key,
            pick(
                "evidences"@,
                Some(object(fact_members(evidence))),
                key,
                pick("finding_info"@, Some(finding_info.document()), key, None),
            ),
        ),
{
    let none = Seq::<(Seq<char>, Json)>::empty();
    let one = seq![("finding_info"@, finding_info.document())];
    let two = one + seq![("evidences"@, object(fact_members(evidence)))];
    assert(none + one =~= one);
    lemma_pick(none, "finding_info"@, Some(finding_info.document()), key);
    lemma_pick(one, "evidences"@, Some(object(fact_members(evidence))), key);
    lemma_pick(two, "is_alert"@, Some(Json::Bool(is_alert)), key);
}

/// Whether a name is one that only some classes have.
spec fn of_some_class(name: Seq<char>) -> bool {
    ||| print(name) == print("entity"@)
    ||| print(name) == print("actor"@)
    ||| print(name) == print("user"@)
    ||| print(name) == print("auth_protocol_id"@)
    ||| print(name) == print("auth_protocol"@)
    ||| print(name) == print("src_endpoint"@)
    ||| print(name) == print("state_id"@)
    ||| print(name) == print("state"@)
    ||| print(name) == print("finding_info"@)
    ||| print(name) == print("evidences"@)
    ||| print(name) == print("is_alert"@)
}

/// No class writes under any other name.
proof fn lemma_classes_stand_apart(class: ClassView, key: Seq<char>)
    requires
        !of_some_class(key),
    ensures
        last_written(class.members(), key) is None,
{
    match class {
        ClassView::Base => {},
        ClassView::EntityManagement { entity, actor } => {
            lemma_entity_class_picks(entity, actor, key);
        },
        ClassView::Authentication { user, auth_protocol, src_endpoint } => {
            lemma_authentication_class_picks(user, auth_protocol, src_endpoint, key);
        },
        ClassView::ConfigStateChange { state, state_label, actor } => {
            lemma_config_class_picks(state, state_label, actor, key);
        },
        ClassView::DetectionFinding { finding_info, evidence, is_alert } => {
            lemma_finding_class_picks(finding_info, evidence, is_alert, key);
        },
    }
}

/// What an event's document says under a name common to all classes.
proof fn lemma_event_says(event: EventView, key: Seq<char>)
    requires
        !of_some_class(key),
    ensures
        says(event.document(), key, base_picks(event.base, key)),
{
    lemma_event_picks(event, key);
    lemma_classes_stand_apart(event.class, key);
    lemma_says(put_all(Seq::empty(), event.members()), key, base_picks(event.base, key));
}

/// Every event's document says the class, category, activity and type of the
/// event, each by id and by name, and when it happened.
pub proof fn law_event_documents_say_what_kind(event: EventView)
    ensures
        ({
            let document = event.document();
            let base = event.base;
            &&& says(document, "class_uid"@, Some(Json::Int(base.class_uid as int)))
            &&& says(document, "class_name"@, Some(Json::Text(base.class_name)))
            &&& says(document, "category_uid"@, Some(Json::Int(base.category_uid as int)))
            &&& says(document, "category_name"@, Some(Json::Text(base.category_name)))
            &&& says(document, "activity_id"@, Some(Json::Int(base.activity_id as int)))
            &&& says(document, "activity_name"@, Some(Json::Text(base.activity_name)))
            &&& says(document, "type_uid"@, Some(Json::Int(base.type_uid as int)))
            &&& says(document, "type_name"@, Some(Json::Text(base.type_label)))
            &&& says(document, "time"@, Some(Json::Int(base.time as int)))
        }),
{
    lemma_event_prints();
    lemma_class_prints();
    lemma_event_says(event, "class_uid"@);
    lemma_event_says(event, "class_name"@);
    lemma_event_says(event, "category_uid"@);
    lemma_event_says(event, "category_name"@);
    lemma_event_says(event, "activity_id"@);
    lemma_event_says(event, "activity_name"@);
    lemma_event_says(event, "type_uid"@);
    lemma_event_says(event, "type_name"@);
    lemma_event_says(event, "time"@);
}

/// Every event's document says how severe the event is and how it ended, by id
/// and by label, and why, as far as known.
pub proof fn law_event_documents_say_how_it_ended(event: EventView)
    ensures
        ({
            let document = event.document();
            let base = event.base;
            &&& says(document, "severity_id"@, Some(Json::Int(base.severity.id() as int)))
            &&& says(document, "severity"@, Some(Json::Text(base.severity.name())))
            &&& base.status is Some ==> says(
                document,
                "status_id"@,
                Some(Json::Int(base.status->0.id() as int)),
            ) && says(document, "status"@, Some(Json::Text(base.status->0.name())))
            &&& base.status is None ==> says(document, "status_id"@, None) && says(
                document,
                "status"@,
                None,
            )
            &&& base.status_detail is Some ==> says(
                document,
                "status_detail"@,
                Some(Json::Text(base.status_detail->0)),
            )
            &&& base.status_detail is None ==> says(document, "status_detail"@, None)
            &&& base.message is Some ==> says(
                document,
                "message"@,
                Some(Json::Text(base.message->0)),
            )
            &&& base.message is None ==> says(document, "message"@, None)
        }),
{
    lemma_event_prints();
    lemma_class_prints();
    lemma_event_says(event, "severity_id"@);
    lemma_event_says(event, "severity"@);
    lemma_event_says(event, "status_id"@);
    lemma_event_says(event, "status"@);
    lemma_event_says(event, "status_detail"@);
    lemma_event_says(event, "message"@);
}

/// Every event's document says who reported the event, where, and what the
/// schema has no place for, as far as there is any.
pub proof fn law_event_documents_say_where(event: EventView)
    ensures
        ({
            let document = event.document();
            let base = event.base;
            &&& says(document, "metadata"@, Some(base.metadata.document()))
            &&& base.device is Some ==> says(
                document,
                "device"@,
                Some(base.device->0.document()),
            )
            &&& base.device is None ==> says(document, "device"@, None)
            &&& base.container is Some ==> says(
                document,
                "container"@,
                Some(base.container->0.document()),
            )
            &&& base.container is None ==> says(document, "container"@, None)
            &&& says(document, "unmapped"@, base.unmapped)
        }),
{
    lemma_event_prints();
    lemma_class_prints();
    lemma_event_says(event, "metadata"@);
    lemma_event_says(event, "device"@);
    lemma_event_says(event, "container"@);
    lemma_event_says(event, "unmapped"@);
}

/// What an event's document says under a name that only its class has.
proof fn lemma_class_says(event: EventView, key: Seq<char>)
    requires
        base_picks(event.base, key) is None,
    ensures
        says(event.document(), key, last_written(event.class.members(), key)),
{
    lemma_event_picks(event, key);
    lemma_says(
        put_all(Seq::empty(), event.members()),
        key,
        last_written(event.class.members(), key),
    );
}

/// An Entity Management event's document says the resource, and the actor where
/// there is one.
pub proof fn law_entity_event_documents(event: EventView)
    requires
        event.class is EntityManagement,
    ensures
        ({
            let entity = event.class->EntityManagement_entity;
            let actor = event.class->EntityManagement_actor;
            &&& says(event.document(), "entity"@, Some(entity.document()))
            &&& actor is Some ==> says(event.document(), "actor"@, Some(actor->0.document()))
            &&& actor is None ==> says(event.document(), "actor"@, None)
        }),
{
    lemma_event_prints();
    let entity = event.class->EntityManagement_entity;
    let actor = event.class->EntityManagement_actor;
    lemma_entity_class_picks(entity, actor, "entity"@);
    lemma_entity_class_picks(entity, actor, "actor"@);
    lemma_class_says(event, "entity"@);
    lemma_class_says(event, "actor"@);
}

/// An Authentication event's document says the identity, the protocol by id and
/// label, and the origin, each where it is known.
pub proof fn law_authentication_event_documents(event: EventView)
    requires
        event.class is Authentication,
    ensures
        ({
            let document = event.document();
            let user = event.class->Authentication_user;
            let protocol = event.class->Authentication_auth_protocol;
            let origin = event.class->Authentication_src_endpoint;
            &&& user is Some ==> says(document, "user"@, Some(user->0.document()))
            &&& user is None ==> says(document, "user"@, None)
            &&& protocol is Some ==> says(
                document,
                "auth_protocol_id"@,
                Some(Json::Int(protocol->0.id() as int)),
            ) && says(document, "auth_protocol"@, Some(Json::Text(protocol->0.name())))
            &&& protocol is None ==> says(document, "auth_protocol_id"@, None) && says(
                document,
                "auth_protocol"@,
                None,
            )
            &&& origin is Some ==> says(document, "src_endpoint"@, Some(origin->0.document()))
            &&& origin is None ==> says(document, "src_endpoint"@, None)
        }),
{
    lemma_event_prints();
    let user = event.class->Authentication_user;
    let protocol = event.class->Authentication_auth_protocol;
    let origin = event.class->Authentication_src_endpoint;
    lemma_authentication_class_picks(user, protocol, origin, "user"@);
    lemma_authentication_class_picks(user, protocol, origin, "auth_protocol_id"@);
    lemma_authentication_class_picks(user, protocol, origin, "auth_protocol"@);
    lemma_authentication_class_picks(user, protocol, origin, "src_endpoint"@);
    lemma_class_says(event, "user"@);
    lemma_class_says(event, "auth_protocol_id"@);
    lemma_class_says(event, "auth_protocol"@);
    lemma_class_says(event, "src_endpoint"@);
}

/// A configuration change's document says the state by id, what the new state is
/// called, and the actor where there is one.
pub proof fn law_config_event_documents(event: EventView)
    requires
        event.class is ConfigStateChange,
    ensures
        ({
            let document = event.document();
            let actor = event.class->ConfigStateChange_actor;
            &&& says(
                document,
                "state_id"@,
                Some(Json::Int(event.class->ConfigStateChange_state.id() as int)),
            )
            &&& says(
                document,
                "state"@,
                Some(Json::Text(event.class->ConfigStateChange_state_label)),
            )
            &&& actor is Some ==> says(document, "actor"@, Some(actor->0.document()))
            &&& actor is None ==> says(document, "actor"@, None)
        }),
{
    lemma_event_prints();
    lemma_class_prints();
    let state = event.class->ConfigStateChange_state;
    let label = event.class->ConfigStateChange_state_label;
    let actor = event.class->ConfigStateChange_actor;
    lemma_config_class_picks(state, label, actor, "state_id"@);
    lemma_config_class_picks(state, label, actor, "state"@);
    lemma_config_class_picks(state, label, actor, "actor"@);
    lemma_class_says(event, "state_id"@);
    lemma_class_says(event, "state"@);
    lemma_class_says(event, "actor"@);
}

/// A finding's document says the description, the named facts, each as a text
/// under its own name, and whether it is an alert.
pub proof fn law_finding_event_documents(event: EventView, at: int)
    requires
        event.class is DetectionFinding,
    ensures
        ({
            let document = event.document();
            let evidence = event.class->DetectionFinding_evidence;
            &&& says(
                document,
                "finding_info"@,
                Some(event.class->DetectionFinding_finding_info.document()),
            )
            &&& says(
                document,
                "is_alert"@,
                Some(Json::Bool(event.class->DetectionFinding_is_alert)),
            )
            &&& exists|facts: Json|
                {
                    &&& #[trigger] says(document, "evidences"@, Some(facts))
                    &&& facts is Object
                    &&& 0 <= at < evidence.len() && (forall|j: int|
                        at < j < evidence.len() ==> (#[trigger] evidence[j]).0 != evidence[at].0)
                        ==> says(facts, evidence[at].0, Some(Json::Text(evidence[at].1)))
                }
        }),
{
    lemma_event_prints();
    lemma_class_prints();
    let info = event.class->DetectionFinding_finding_info;
    let evidence = event.class->DetectionFinding_evidence;
    let is_alert = event.class->DetectionFinding_is_alert;
    lemma_finding_class_picks(info, evidence, is_alert, "finding_info"@);
    lemma_finding_class_picks(info, evidence, is_alert, "evidences"@);
    lemma_finding_class_picks(info, evidence, is_alert, "is_alert"@);
    lemma_class_says(event, "finding_info"@);
    lemma_class_says(event, "evidences"@);
    lemma_class_says(event, "is_alert"@);
    let facts = object(fact_members(evidence));
    if 0 <= at < evidence.len() && (forall|j: int|
        at < j < evidence.len() ==> (#[trigger] evidence[j]).0 != evidence[at].0) {
        let written = fact_members(evidence);
        assert forall|j: int| at < j < written.len() implies (#[trigger] written[j]).0
            != written[at].0 by {
            assert(evidence[j].0 != evidence[at].0);
        }
        law_the_last_of_a_name_is_written(written, at);
        law_member_is_last_written(written, written[at].0);
        lemma_says(put_all(Seq::empty(), written), written[at].0, Some(written[at].1));
    }
    assert(says(event.document(), "evidences"@, Some(facts)));
}

/// An event's document says nothing under a name that the schema does not have.
pub proof fn law_event_documents_say_nothing_else(event: EventView, other: Seq<char>)
    requires
        other != "class_uid"@,
        other != "class_name"@,
        other != "category_uid"@,
        other != "category_name"@,
        other != "activity_id"@,
        other != "activity_name"@,
        other != "type_uid"@,
        other != "type_name"@,
        other != "time"@,
        other != "severity_id"@,
        other != "severity"@,
        other != "status_id"@,
        other != "status"@,
        other != "status_detail"@,
        other != "message"@,
        other != "metadata"@,
        other != "device"@,
        other != "container"@,
        other != "unmapped"@,
        event.class is EntityManagement ==> other != "entity"@ && other != "actor"@,
        event.class is Authentication ==> other != "user"@ && other != "auth_protocol_id"@ && other
            != "auth_protocol"@ && other != "src_endpoint"@,
        event.class is ConfigStateChange ==> other != "state_id"@ && other != "state"@ && other
            != "actor"@,
        event.class is DetectionFinding ==> other != "finding_info"@ && other != "evidences"@
            && other != "is_alert"@,
    ensures
        says(event.document(), other, None),
{
    match event.class {
        ClassView::Base => {},
        ClassView::EntityManagement { entity, actor } => {
            lemma_entity_class_picks(entity, actor, other);
        },
        ClassView::Authentication { user, auth_protocol, src_endpoint } => {
            lemma_authentication_class_picks(user, auth_protocol, src_endpoint, other);
        },
        ClassView::ConfigStateChange { state, state_label, actor } => {
            lemma_config_class_picks(state, state_label, actor, other);
        },
        ClassView::DetectionFinding { finding_info, evidence, is_alert } => {
            lemma_finding_class_picks(finding_info, evidence, is_alert, other);
        },
    }
    lemma_class_says(event, other);
}

} // verus!
