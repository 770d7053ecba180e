//! What documents must hold to be read, and what is read off them.

use crate::json::Json;
use crate::ocsf::enums::{AuthProtocolId, SeverityId, StatusId, UserTypeId};
use crate::ocsf::reading::{
    actor_at, actor_in, authentication_in, base_in, container_at, container_in, device_at,
    device_in, endpoint_in, entity_event_in, entity_in, metadata_in, origin_at, product_in,
    protocol_with, severity_with, status_with, texts_in, user_at, user_in,
};
use crate::ocsf::objects::{ActorView, ContainerView, DeviceView, EndpointView, UserView};
use crate::phrases::{named, unnamed};
use crate::string_map::{law_lookup_is_the_first_match, lookup};
use vstd::prelude::*;

verus! {

/// An id is read as the severity, outcome or protocol that has it, and as none
/// where none has.
pub proof fn law_ids_are_read_as_what_has_them(id: u8)
    ensures
        match severity_with(id as int) {
            Some(severity) => severity.id() == id,
            None => 6 < id < 99 || id > 99,
        },
        match status_with(id) {
            Some(status) => status.id() == id,
            None => 2 < id < 99 || id > 99,
        },
        match protocol_with(id) {
            Some(protocol) => protocol.id() == id,
            None => 0 < id < 4 || 4 < id < 99 || id > 99,
        },
        id <= 6 || id == 99 ==> severity_with(id as int) is Some,
        id <= 2 || id == 99 ==> status_with(id) is Some,
        id == 0 || id == 4 || id == 99 ==> protocol_with(id) is Some,
        severity_with(99) == Some(SeverityId::Other),
        status_with(99) == Some(StatusId::Other),
        protocol_with(99) == Some(AuthProtocolId::Other),
{
}

/// Whether a name has a text.
pub open spec fn has_text(members: Seq<(Seq<char>, Json)>, name: Seq<char>, text: Seq<char>) -> bool {
    named(members, name, Json::Text(text))
}

/// Whether a name has no value: it is not there, or is null.
pub open spec fn has_nothing(members: Seq<(Seq<char>, Json)>, name: Seq<char>) -> bool {
    unnamed(members, name) || named(members, name, Json::Null)
}

/// What is found under a name.
proof fn lemma_found(members: Seq<(Seq<char>, Json)>, name: Seq<char>)
    ensures
        unnamed(members, name) <==> lookup(members, name) is None,
        forall|value: Json| #[trigger]
            named(members, name, value) <==> lookup(members, name) == Some(value),
{
    law_lookup_is_the_first_match(members, name, Json::Null);
    assert forall|value: Json| #[trigger] named(members, name, value) <==> lookup(members, name)
        == Some(value) by {
        law_lookup_is_the_first_match(members, name, value);
    }
}

/// A user needs a name that is a text. A uid is optional and a text, a type id
/// optional and a byte. Nothing else is read, and no other object is a user.
pub proof fn law_reading_users(
    members: Seq<(Seq<char>, Json)>,
    name: Seq<char>,
    uid: Seq<char>,
    type_id: int,
    value: Json,
)
    ensures
        ({
            let user = user_in(Json::Object(members));
            &&& unnamed(members, "name"@) ==> user is None
            &&& named(members, "name"@, value) && !(value is Text) ==> user is None
            &&& named(members, "uid"@, value) && !(value is Text) && !(value is Null) ==> user
                is None
            &&& named(members, "type_id"@, value) && !(value is Int) && !(value is Null) ==> user
                is None
            &&& named(members, "type_id"@, Json::Int(type_id)) && (type_id < 0 || type_id > 255)
                ==> user is None
            &&& user is Some && has_text(members, "name"@, name) ==> user->0.name == name
            &&& user is Some && has_text(members, "uid"@, uid) ==> user->0.uid == Some(uid)
            &&& user is Some && has_nothing(members, "uid"@) ==> user->0.uid is None
            &&& user is Some && named(members, "type_id"@, Json::Int(type_id))
                ==> user->0.type_id == Some(UserTypeId::of_id(type_id as u8))
            &&& user is Some && has_nothing(members, "type_id"@) ==> user->0.type_id
                is None
            &&& has_text(members, "name"@, name) && (has_text(members, "uid"@, uid)
                || has_nothing(members, "uid"@)) && (has_nothing(
                members,
                "type_id"@,
            ) || named(members, "type_id"@, Json::Int(type_id)) && 0 <= type_id <= 255) ==> user
                is Some
        }),
{
    lemma_found(members, "name"@);
    lemma_found(members, "uid"@);
    lemma_found(members, "type_id"@);
}

/// A resource needs a type that is a text. A uid and a name are optional and
/// texts.
pub proof fn law_reading_entities(
    members: Seq<(Seq<char>, Json)>,
    entity_type: Seq<char>,
    uid: Seq<char>,
    name: Seq<char>,
    value: Json,
)
    ensures
        ({
            let entity = entity_in(Json::Object(members));
            &&& unnamed(members, "type"@) ==> entity is None
            &&& named(members, "type"@, value) && !(value is Text) ==> entity is None
            &&& named(members, "uid"@, value) && !(value is Text) && !(value is Null) ==> entity
                is None
            &&& named(members, "name"@, value) && !(value is Text) && !(value is Null) ==> entity
                is None
            &&& entity is Some && has_text(members, "type"@, entity_type)
                ==> entity->0.entity_type == entity_type
            &&& entity is Some && has_text(members, "uid"@, uid) ==> entity->0.uid == Some(uid)
            &&& entity is Some && has_nothing(members, "uid"@) ==> entity->0.uid is None
            &&& entity is Some && has_text(members, "name"@, name) ==> entity->0.name == Some(name)
            &&& entity is Some && has_nothing(members, "name"@) ==> entity->0.name is None
            &&& has_text(members, "type"@, entity_type) && (has_text(members, "uid"@, uid)
                || has_nothing(members, "uid"@)) && (has_text(members, "name"@, name)
                || has_nothing(members, "name"@)) ==> entity is Some
        }),
{
    lemma_found(members, "type"@);
    lemma_found(members, "uid"@);
    lemma_found(members, "name"@);
}

/// Users and resources are also read off arrays of their fields, in order and no
/// more than three; what is neither an object nor an array is no user, resource,
/// or anything else that is read.
pub proof fn law_reading_arrays_and_the_rest(items: Seq<Json>, value: Json)
    ensures
        items.len() > 3 ==> user_in(Json::Array(items)) is None && entity_in(Json::Array(items))
            is None,
        items.len() == 0 ==> user_in(Json::Array(items)) is None && entity_in(Json::Array(items))
            is None,
        items.len() == 1 && items[0] is Text ==> {
            &&& user_in(Json::Array(items)) matches Some(user) && user.name == items[0]->Text_0
                && user.uid is None && user.type_id is None
            &&& entity_in(Json::Array(items)) matches Some(entity) && entity.entity_type
                == items[0]->Text_0 && entity.uid is None && entity.name is None
        },
        items.len() >= 2 && items[0] is Text && items[1] is Text && items.len() <= 3 ==> {
            &&& user_in(Json::Array(items)) matches Some(user) ==> user.name == items[0]->Text_0
                && user.uid == Some(items[1]->Text_0)
            &&& entity_in(Json::Array(items)) matches Some(entity) ==> entity.entity_type
                == items[0]->Text_0 && entity.uid == Some(items[1]->Text_0)
        },
        !(value is Object) && !(value is Array) ==> user_in(value) is None && entity_in(value)
            is None,
        !(value is Object) ==> {
            &&& actor_in(value) is None
            &&& endpoint_in(value) is None
            &&& product_in(value) is None
            &&& device_in(value) is None
            &&& container_in(value) is None
            &&& metadata_in(value) is None
            &&& entity_event_in(value) is None
            &&& authentication_in(value) is None
        },
{
}

/// An actor is the user it holds; an endpoint needs an address and a port that
/// fits.
pub proof fn law_reading_actors_and_endpoints(
    members: Seq<(Seq<char>, Json)>,
    value: Json,
    ip: Seq<char>,
    port: int,
)
    ensures
        has_nothing(members, "user"@) ==> actor_in(Json::Object(members)) is None,
        named(members, "user"@, value) && user_in(value) is None ==> actor_in(Json::Object(members))
            is None,
        named(members, "user"@, value) && !(value is Null) && user_in(value) is Some ==> actor_in(
            Json::Object(members),
        ) is Some && actor_in(Json::Object(members))->0.user == user_in(value)->0,
        ({
            let endpoint = endpoint_in(Json::Object(members));
            &&& unnamed(members, "ip"@) || unnamed(members, "port"@) ==> endpoint is None
            &&& named(members, "ip"@, value) && !(value is Text) ==> endpoint is None
            &&& named(members, "port"@, value) && !(value is Int) ==> endpoint is None
            &&& named(members, "port"@, Json::Int(port)) && (port < 0 || port > 65_535)
                ==> endpoint is None
            &&& has_text(members, "ip"@, ip) && named(members, "port"@, Json::Int(port)) && 0
                <= port <= 65_535 ==> endpoint is Some && endpoint->0.ip == ip
                && endpoint->0.port == port
        }),
{
    lemma_found(members, "user"@);
    lemma_found(members, "ip"@);
    lemma_found(members, "port"@);
}

/// An event needs its class, category, activity and type, its time, its severity
/// and its metadata; without any of them it is not read.
pub proof fn law_reading_needs_the_base(members: Seq<(Seq<char>, Json)>)
    ensures
        ({
            ||| unnamed(members, "class_uid"@)
            ||| unnamed(members, "class_name"@)
            ||| unnamed(members, "category_uid"@)
            ||| unnamed(members, "category_name"@)
            ||| unnamed(members, "activity_id"@)
            ||| unnamed(members, "activity_name"@)
            ||| unnamed(members, "type_uid"@)
            ||| unnamed(members, "type_name"@)
            ||| unnamed(members, "time"@)
            ||| unnamed(members, "severity_id"@)
            ||| has_nothing(members, "metadata"@)
        }) ==> base_in(members) is None && entity_event_in(Json::Object(members)) is None
            && authentication_in(Json::Object(members)) is None,
        has_nothing(members, "entity"@) ==> entity_event_in(Json::Object(members)) is None,
{
    lemma_found(members, "class_uid"@);
    lemma_found(members, "class_name"@);
    lemma_found(members, "category_uid"@);
    lemma_found(members, "category_name"@);
    lemma_found(members, "activity_id"@);
    lemma_found(members, "activity_name"@);
    lemma_found(members, "type_uid"@);
    lemma_found(members, "type_name"@);
    lemma_found(members, "time"@);
    lemma_found(members, "severity_id"@);
    lemma_found(members, "metadata"@);
    lemma_found(members, "entity"@);
}

/// What is read of an event is what its document says.
pub proof fn law_reading_the_base(
    members: Seq<(Seq<char>, Json)>,
    text: Seq<char>,
    number: int,
)
    requires
        base_in(members) is Some,
    ensures
        ({
            let base = base_in(members)->0;
            &&& named(members, "class_uid"@, Json::Int(number)) ==> base.class_uid == number
            &&& has_text(members, "class_name"@, text) ==> base.class_name == text
            &&& named(members, "category_uid"@, Json::Int(number)) ==> base.category_uid == number
            &&& has_text(members, "category_name"@, text) ==> base.category_name == text
            &&& named(members, "activity_id"@, Json::Int(number)) ==> base.activity_id == number
            &&& has_text(members, "activity_name"@, text) ==> base.activity_name == text
            &&& named(members, "type_uid"@, Json::Int(number)) ==> base.type_uid == number
            &&& has_text(members, "type_name"@, text) ==> base.type_label == text
            &&& named(members, "time"@, Json::Int(number)) ==> base.time == number
            &&& named(members, "severity_id"@, Json::Int(number)) ==> base.severity.id() == number
            &&& named(members, "status_id"@, Json::Int(number)) ==> base.status is Some
                && base.status->0.id() == number
            &&& has_nothing(members, "status_id"@) ==> base.status is None
            &&& has_text(members, "status_detail"@, text) ==> base.status_detail == Some(text)
            &&& has_nothing(members, "status_detail"@) ==> base.status_detail is None
            &&& has_text(members, "message"@, text) ==> base.message == Some(text)
            &&& has_nothing(members, "message"@) ==> base.message is None
        }),
{
    lemma_found(members, "class_uid"@);
    lemma_found(members, "class_name"@);
    lemma_found(members, "category_uid"@);
    lemma_found(members, "category_name"@);
    lemma_found(members, "activity_id"@);
    lemma_found(members, "activity_name"@);
    lemma_found(members, "type_uid"@);
    lemma_found(members, "type_name"@);
    lemma_found(members, "time"@);
    lemma_found(members, "severity_id"@);
    lemma_found(members, "status_id"@);
    lemma_found(members, "status_detail"@);
    lemma_found(members, "message"@);
}

/// An optional part of an event that is absent or null reads as absent; one that
/// does not read as what it is for makes the event unreadable.
pub proof fn law_reading_optional_parts(members: Seq<(Seq<char>, Json)>, value: Json)
    ensures
        has_nothing(members, "device"@) ==> device_at(members) == Some(None::<DeviceView>),
        has_nothing(members, "container"@) ==> container_at(members) == Some(None::<ContainerView>),
        has_nothing(members, "actor"@) ==> actor_at(members) == Some(None::<ActorView>),
        has_nothing(members, "user"@) ==> user_at(members) == Some(None::<UserView>),
        has_nothing(members, "src_endpoint"@) ==> origin_at(members) == Some(None::<EndpointView>),
        !(value is Null) ==> {
            &&& named(members, "device"@, value) ==> match device_in(value) {
                Some(device) => device_at(members) == Some(Some(device)),
                None => device_at(members) is None && base_in(members) is None,
            }
            &&& named(members, "container"@, value) ==> match container_in(value) {
                Some(container) => container_at(members) == Some(Some(container)),
                None => container_at(members) is None && base_in(members) is None,
            }
            &&& named(members, "actor"@, value) ==> match actor_in(value) {
                Some(actor) => actor_at(members) == Some(Some(actor)),
                None => actor_at(members) is None && entity_event_in(Json::Object(members)) is None,
            }
            &&& named(members, "user"@, value) ==> match user_in(value) {
                Some(user) => user_at(members) == Some(Some(user)),
                None => user_at(members) is None && authentication_in(Json::Object(members))
                    is None,
            }
            &&& named(members, "src_endpoint"@, value) ==> match endpoint_in(value) {
                Some(endpoint) => origin_at(members) == Some(Some(endpoint)),
                None => origin_at(members) is None && authentication_in(Json::Object(members))
                    is None,
            }
        },
{
    lemma_found(members, "device"@);
    lemma_found(members, "container"@);
    lemma_found(members, "actor"@);
    lemma_found(members, "user"@);
    lemma_found(members, "src_endpoint"@);
}

/// A product, a device and a container need every one of their texts.
pub proof fn law_reading_products_devices_and_containers(
    members: Seq<(Seq<char>, Json)>,
    first: Seq<char>,
    second: Seq<char>,
    third: Seq<char>,
)
    ensures
        ({
            let product = product_in(Json::Object(members));
            &&& unnamed(members, "name"@) || unnamed(members, "vendor_name"@) || unnamed(
                members,
                "version"@,
            ) ==> product is None
            &&& has_text(members, "name"@, first) && has_text(members, "vendor_name"@, second)
                && has_text(members, "version"@, third) ==> product is Some && product->0.name
                == first && product->0.vendor_name == second && product->0.version == third
        }),
        ({
            let device = device_in(Json::Object(members));
            &&& unnamed(members, "hostname"@) ==> device is None
            &&& has_text(members, "hostname"@, first) ==> device is Some && device->0.hostname
                == first
        }),
        ({
            let container = container_in(Json::Object(members));
            &&& unnamed(members, "name"@) || unnamed(members, "image"@) ==> container is None
            &&& has_text(members, "name"@, first) && has_text(members, "image"@, second)
                ==> container is Some && container->0.name == first && container->0.image == second
        }),
{
    lemma_found(members, "name"@);
    lemma_found(members, "vendor_name"@);
    lemma_found(members, "version"@);
    lemma_found(members, "hostname"@);
    lemma_found(members, "image"@);
}

/// Metadata needs a version, a product and a list of profiles; the sandbox and
/// the log source are optional texts.
pub proof fn law_reading_metadata(
    members: Seq<(Seq<char>, Json)>,
    version: Seq<char>,
    text: Seq<char>,
    product: Json,
    profiles: Seq<Json>,
    at: int,
)
    ensures
        ({
            let metadata = metadata_in(Json::Object(members));
            &&& unnamed(members, "version"@) || has_nothing(members, "product"@) || has_nothing(
                members,
                "profiles"@,
            ) ==> metadata is None
            &&& metadata is Some && has_text(members, "version"@, version)
                ==> metadata->0.version == version
            &&& metadata is Some && named(members, "product"@, product) ==> product_in(product)
                == Some(metadata->0.product)
            &&& metadata is Some && named(members, "profiles"@, Json::Array(profiles)) ==> {
                &&& metadata->0.profiles.len() == profiles.len()
                &&& 0 <= at < profiles.len() ==> profiles[at] == Json::Text(
                    metadata->0.profiles[at],
                )
            }
            &&& metadata is Some && has_text(members, "uid"@, text) ==> metadata->0.uid == Some(
                text,
            )
            &&& metadata is Some && has_nothing(members, "uid"@) ==> metadata->0.uid is None
            &&& metadata is Some && has_text(members, "log_source"@, text)
                ==> metadata->0.log_source == Some(text)
            &&& metadata is Some && has_nothing(members, "log_source"@) ==> metadata->0.log_source
                is None
        }),
{
    lemma_found(members, "version"@);
    lemma_found(members, "product"@);
    lemma_found(members, "profiles"@);
    lemma_found(members, "uid"@);
    lemma_found(members, "log_source"@);
    if 0 <= at < profiles.len() && texts_in(Json::Array(profiles)) is Some {
        assert(profiles[at] is Text);
    }
}

} // verus!
