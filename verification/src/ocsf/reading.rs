//! Reading documents back into objects and events.
//!
//! A member that the schema does not know is ignored, an optional one may be
//! absent or null, and a required one must be there in its own kind. Users and
//! managed entities also read from an array that lists their fields in order, of
//! which optional ones may be left off the end.

use crate::json::{
    as_i64, copy_of, json_node, json_of, jsons_of, member, members_of, Json, JsonNode,
};
use crate::ocsf::builders::entity_of;
use crate::ocsf::document::{text_of, texts_of};
use crate::ocsf::enums::{AuthProtocolId, SeverityId, StatusId, UserTypeId};
use crate::ocsf::events::{
    actor_of, container_of, device_of, endpoint_of, user_of, AuthenticationEvent, BaseEventData,
    BaseView, ClassView, EntityManagementEvent, EventView,
};
use crate::ocsf::objects::{
    Actor, ActorView, Container, ContainerView, Device, DeviceView, Endpoint, EndpointView,
    ManagedEntity, ManagedEntityView, Metadata, MetadataView, Product, ProductView, User, UserView,
};
use crate::string_map::lookup;
use vstd::prelude::*;
use vstd::string::*;

verus! {

/// The members of an object document; none for any other.
pub open spec fn members_in(json: Json) -> Option<Seq<(Seq<char>, Json)>> {
    match json {
        Json::Object(members) => Some(members),
        _ => None,
    }
}

/// A required text.
pub open spec fn text_in(json: Option<Json>) -> Option<Seq<char>> {
    match json {
        Some(Json::Text(text)) => Some(text),
        _ => None,
    }
}

/// An optional text: nothing on the outside where it is of another kind, nothing
/// on the inside where it is absent or null.
pub open spec fn optional_text_in(json: Option<Json>) -> Option<Option<Seq<char>>> {
    match json {
        Some(Json::Text(text)) => Some(Some(text)),
        Some(Json::Null) => Some(None),
        None => Some(None),
        _ => None,
    }
}

/// An optional byte-sized integer.
pub open spec fn optional_u8_in(json: Option<Json>) -> Option<Option<u8>> {
    match json {
        Some(Json::Int(i)) => if 0 <= i <= 255 {
            Some(Some(i as u8))
        } else {
            None
        },
        Some(Json::Null) => Some(None),
        None => Some(None),
        _ => None,
    }
}

/// A required text member.
pub open spec fn text_at(members: Seq<(Seq<char>, Json)>, name: Seq<char>) -> Option<Seq<char>> {
    text_in(lookup(members, name))
}

/// An optional text member.
pub open spec fn optional_text_at(members: Seq<(Seq<char>, Json)>, name: Seq<char>) -> Option<
    Option<Seq<char>>,
> {
    optional_text_in(lookup(members, name))
}

/// The item of an array at a position, where it has one.
pub open spec fn item_in(items: Seq<Json>, at: int) -> Option<Json> {
    if 0 <= at < items.len() {
        Some(items[at])
    } else {
        None
    }
}

/// A required integer within bounds.
pub open spec fn int_at(
    members: Seq<(Seq<char>, Json)>,
    name: Seq<char>,
    low: int,
    high: int,
) -> Option<int> {
    match lookup(members, name) {
        Some(Json::Int(i)) => if low <= i <= high {
            Some(i)
        } else {
            None
        },
        _ => None,
    }
}

/// An optional byte-sized integer member.
pub open spec fn optional_u8_at(members: Seq<(Seq<char>, Json)>, name: Seq<char>) -> Option<
    Option<u8>,
> {
    optional_u8_in(lookup(members, name))
}

/// A member that is there and is not null.
pub open spec fn present(members: Seq<(Seq<char>, Json)>, name: Seq<char>) -> Option<Json> {
    match lookup(members, name) {
        Some(Json::Null) => None,
        other => other,
    }
}

/// The members of a value that is an object.
fn members_of_value<'a>(value: &'a serde_json::Value) -> (object: Option<
    &'a serde_json::Map<String, serde_json::Value>,
>)
    ensures
        match object {
            Some(map) => members_in(json_of(*value)) == Some(members_of(*map)),
            None => members_in(json_of(*value)) is None,
        },
{
    match json_node(value) {
        JsonNode::Object(map) => Some(map),
        _ => None,
    }
}

/// The document of an optional value that is borrowed.
spec fn json_of_ref(value: Option<&serde_json::Value>) -> Option<Json> {
    match value {
        Some(v) => Some(json_of(*v)),
        None => None,
    }
}

/// A required text.
fn text_from(value: Option<&serde_json::Value>) -> (text: Option<String>)
    ensures
        text_of(text) == text_in(json_of_ref(value)),
{
    match value {
        Some(value) => match json_node(value) {
            JsonNode::Text(text) => Some(text.clone()),
            _ => None,
        },
        None => None,
    }
}

/// A required text member.
fn read_text(object: &serde_json::Map<String, serde_json::Value>, name: &str) -> (text: Option<
    String,
>)
    ensures
        text_of(text) == text_at(members_of(*object), name@),
{
    text_from(member(object, name))
}

/// An optional text.
fn optional_text_from(value: Option<&serde_json::Value>) -> (text: Option<Option<String>>)
    ensures
        match text {
            Some(t) => optional_text_in(json_of_ref(value)) == Some(text_of(t)),
            None => optional_text_in(json_of_ref(value)) is None,
        },
{
    match value {
        Some(value) => match json_node(value) {
            JsonNode::Text(text) => Some(Some(text.clone())),
            JsonNode::Null => Some(None),
            _ => None,
        },
        None => Some(None),
    }
}

/// An optional text member.
fn read_optional_text(
    object: &serde_json::Map<String, serde_json::Value>,
    name: &str,
) -> (text: Option<Option<String>>)
    ensures
        match text {
            Some(t) => optional_text_at(members_of(*object), name@) == Some(text_of(t)),
            None => optional_text_at(members_of(*object), name@) is None,
        },
{
    optional_text_from(member(object, name))
}

/// A required integer within bounds.
fn read_int(
    object: &serde_json::Map<String, serde_json::Value>,
    name: &str,
    low: i64,
    high: i64,
) -> (number: Option<i64>)
    ensures
        match number {
            Some(i) => int_at(members_of(*object), name@, low as int, high as int) == Some(
                i as int,
            ),
            None => int_at(members_of(*object), name@, low as int, high as int) is None,
        },
{
    match member(object, name) {
        Some(value) => match as_i64(value) {
            Some(i) => if low <= i && i <= high {
                Some(i)
            } else {
                None
            },
            None => None,
        },
        None => None,
    }
}

/// An optional byte-sized integer.
fn optional_u8_from(value: Option<&serde_json::Value>) -> (number: Option<Option<u8>>)
    ensures
        number == optional_u8_in(json_of_ref(value)),
{
    match value {
        Some(value) => match json_node(value) {
            JsonNode::Null => Some(None),
            _ => match as_i64(value) {
                Some(i) => if 0 <= i && i <= 255 {
                    Some(Some(i as u8))
                } else {
                    None
                },
                None => None,
            },
        },
        None => Some(None),
    }
}

/// An optional byte-sized integer member.
fn read_optional_u8(
    object: &serde_json::Map<String, serde_json::Value>,
    name: &str,
) -> (number: Option<Option<u8>>)
    ensures
        number == optional_u8_at(members_of(*object), name@),
{
    optional_u8_from(member(object, name))
}

/// The item of an array at a position, where it has one.
fn item_of<'a>(items: &'a Vec<serde_json::Value>, at: usize) -> (value: Option<
    &'a serde_json::Value,
>)
    ensures
        json_of_ref(value) == item_in(jsons_of(items@), at as int),
{
    if at < items.len() {
        Some(&items[at])
    } else {
        None
    }
}

/// A member that is there and is not null.
fn read_present<'a>(
    object: &'a serde_json::Map<String, serde_json::Value>,
    name: &str,
) -> (value: Option<&'a serde_json::Value>)
    ensures
        match value {
            Some(v) => present(members_of(*object), name@) == Some(json_of(*v)),
            None => present(members_of(*object), name@) is None,
        },
{
    match member(object, name) {
        Some(value) => match json_node(value) {
            JsonNode::Null => None,
            _ => Some(value),
        },
        None => None,
    }
}

/// The fields of a user, required and optional ones, in the order of an array:
/// name, uid and type id. A type id outside the vocabulary reads as unknown.
pub open spec fn user_from_fields(
    name: Option<Json>,
    uid: Option<Json>,
    type_id: Option<Json>,
) -> Option<UserView> {
    match (text_in(name), optional_text_in(uid), optional_u8_in(type_id)) {
        (Some(name), Some(uid), Some(type_id)) => Some(
            UserView {
                name,
                uid,
                type_id: match type_id {
                    Some(id) => Some(UserTypeId::of_id(id)),
                    None => None,
                },
            },
        ),
        _ => None,
    }
}

/// The user that a document describes: an object with the fields, or an array of
/// them and no more.
pub open spec fn user_in(json: Json) -> Option<UserView> {
    match json {
        Json::Object(members) => user_from_fields(
            lookup(members, "name"@),
            lookup(members, "uid"@),
            lookup(members, "type_id"@),
        ),
        Json::Array(items) => if items.len() <= 3 {
            user_from_fields(item_in(items, 0), item_in(items, 1), item_in(items, 2))
        } else {
            None
        },
        _ => None,
    }
}

impl User {
    /// A user of the given fields.
    fn from_fields(
        name: Option<&serde_json::Value>,
        uid: Option<&serde_json::Value>,
        type_id: Option<&serde_json::Value>,
    ) -> (user: Option<User>)
        ensures
            user_of(user) == user_from_fields(
                json_of_ref(name),
                json_of_ref(uid),
                json_of_ref(type_id),
            ),
    {
        match (text_from(name), optional_text_from(uid), optional_u8_from(type_id)) {
            (Some(name), Some(uid), Some(type_id)) => Some(
                User {
                    name,
                    uid,
                    type_id: match type_id {
                        Some(id) => Some(UserTypeId::from_u8(id)),
                        None => None,
                    },
                },
            ),
            _ => None,
        }
    }

    /// Read a user from its document.
    #[must_use]
    pub fn from_json(value: &serde_json::Value) -> (user: Option<User>)
        ensures
            user_of(user) == user_in(json_of(*value)),
    {
        match json_node(value) {
            JsonNode::Object(object) => User::from_fields(
                member(object, "name"),
                member(object, "uid"),
                member(object, "type_id"),
            ),
            JsonNode::Array(items) => if items.len() <= 3 {
                User::from_fields(item_of(items, 0), item_of(items, 1), item_of(items, 2))
            } else {
                None
            },
            _ => None,
        }
    }
}

/// The fields of a resource, required and optional ones, in the order of an
/// array: type, uid and name.
pub open spec fn entity_from_fields(
    entity_type: Option<Json>,
    uid: Option<Json>,
    name: Option<Json>,
) -> Option<ManagedEntityView> {
    match (text_in(entity_type), optional_text_in(uid), optional_text_in(name)) {
        (Some(entity_type), Some(uid), Some(name)) => Some(
            ManagedEntityView { entity_type, uid, name },
        ),
        _ => None,
    }
}

/// The resource that a document describes: an object with the fields, or an array
/// of them and no more.
pub open spec fn entity_in(json: Json) -> Option<ManagedEntityView> {
    match json {
        Json::Object(members) => entity_from_fields(
            lookup(members, "type"@),
            lookup(members, "uid"@),
            lookup(members, "name"@),
        ),
        Json::Array(items) => if items.len() <= 3 {
            entity_from_fields(item_in(items, 0), item_in(items, 1), item_in(items, 2))
        } else {
            None
        },
        _ => None,
    }
}

impl ManagedEntity {
    /// A resource of the given fields.
    fn from_fields(
        entity_type: Option<&serde_json::Value>,
        uid: Option<&serde_json::Value>,
        name: Option<&serde_json::Value>,
    ) -> (entity: Option<ManagedEntity>)
        ensures
            entity_of(entity) == entity_from_fields(
                json_of_ref(entity_type),
                json_of_ref(uid),
                json_of_ref(name),
            ),
    {
        match (text_from(entity_type), optional_text_from(uid), optional_text_from(name)) {
            (Some(entity_type), Some(uid), Some(name)) => Some(
                ManagedEntity { entity_type, uid, name },
            ),
            _ => None,
        }
    }

    /// Read a resource from its document.
    #[must_use]
    pub fn from_json(value: &serde_json::Value) -> (entity: Option<ManagedEntity>)
        ensures
            entity_of(entity) == entity_in(json_of(*value)),
    {
        match json_node(value) {
            JsonNode::Object(object) => ManagedEntity::from_fields(
                member(object, "type"),
                member(object, "uid"),
                member(object, "name"),
            ),
            JsonNode::Array(items) => if items.len() <= 3 {
                ManagedEntity::from_fields(item_of(items, 0), item_of(items, 1), item_of(items, 2))
            } else {
                None
            },
            _ => None,
        }
    }
}

/// The actor that a document describes.
pub open spec fn actor_in(json: Json) -> Option<ActorView> {
    match members_in(json) {
        Some(members) => match present(members, "user"@) {
            Some(user) => match user_in(user) {
                Some(user) => Some(ActorView { user }),
                None => None,
            },
            None => None,
        },
        None => None,
    }
}

impl Actor {
    /// Read the actor from its document.
    #[must_use]
    pub fn from_json(value: &serde_json::Value) -> (actor: Option<Actor>)
        ensures
            actor_of(actor) == actor_in(json_of(*value)),
    {
        let object = match members_of_value(value) {
            Some(object) => object,
            None => return None,
        };
        match read_present(object, "user") {
            Some(user) => match User::from_json(user) {
                Some(user) => Some(Actor { user }),
                None => None,
            },
            None => None,
        }
    }
}

/// The endpoint that a document describes.
pub open spec fn endpoint_in(json: Json) -> Option<EndpointView> {
    match members_in(json) {
        Some(members) => match (text_at(members, "ip"@), int_at(members, "port"@, 0, 65_535)) {
            (Some(ip), Some(port)) => Some(EndpointView { ip, port: port as u16 }),
            _ => None,
        },
        None => None,
    }
}

impl Endpoint {
    /// Read the endpoint from its document.
    #[must_use]
    pub fn from_json(value: &serde_json::Value) -> (endpoint: Option<Endpoint>)
        ensures
            endpoint_of(endpoint) == endpoint_in(json_of(*value)),
    {
        let object = match members_of_value(value) {
            Some(object) => object,
            None => return None,
        };
        match (read_text(object, "ip"), read_int(object, "port", 0, 65_535)) {
            (Some(ip), Some(port)) => Some(Endpoint { ip, port: port as u16 }),
            _ => None,
        }
    }
}

/// The contents of an optional product.
pub open spec fn product_of(product: Option<Product>) -> Option<ProductView> {
    match product {
        Some(p) => Some(p@),
        None => None,
    }
}

/// The product that a document describes.
pub open spec fn product_in(json: Json) -> Option<ProductView> {
    match members_in(json) {
        Some(members) => match (text_at(members, "name"@), text_at(members, "vendor_name"@), text_at(members, "version"@)) {
            (Some(name), Some(vendor_name), Some(version)) => Some(ProductView { name, vendor_name, version }),
            _ => None,
        },
        None => None,
    }
}

impl Product {
    /// Read the product from its document.
    #[must_use]
    pub fn from_json(value: &serde_json::Value) -> (product: Option<Product>)
        ensures
            product_of(product) == product_in(json_of(*value)),
    {
        let object = match members_of_value(value) {
            Some(object) => object,
            None => return None,
        };
        match (read_text(object, "name"), read_text(object, "vendor_name"), read_text(object, "version")) {
            (Some(name), Some(vendor_name), Some(version)) => Some(Product { name, vendor_name, version }),
            _ => None,
        }
    }
}

/// The device that a document describes.
pub open spec fn device_in(json: Json) -> Option<DeviceView> {
    match members_in(json) {
        Some(members) => match text_at(members, "hostname"@) {
            Some(hostname) => Some(DeviceView { hostname }),
            None => None,
        },
        None => None,
    }
}

impl Device {
    /// Read the device from its document.
    #[must_use]
    pub fn from_json(value: &serde_json::Value) -> (device: Option<Device>)
        ensures
            device_of(device) == device_in(json_of(*value)),
    {
        let object = match members_of_value(value) {
            Some(object) => object,
            None => return None,
        };
        match read_text(object, "hostname") {
            Some(hostname) => Some(Device { hostname }),
            None => None,
        }
    }
}

/// The container that a document describes.
pub open spec fn container_in(json: Json) -> Option<ContainerView> {
    match members_in(json) {
        Some(members) => match (text_at(members, "name"@), text_at(members, "image"@)) {
            (Some(name), Some(image)) => Some(ContainerView { name, image }),
            _ => None,
        },
        None => None,
    }
}

impl Container {
    /// Read the container from its document.
    #[must_use]
    pub fn from_json(value: &serde_json::Value) -> (container: Option<Container>)
        ensures
            container_of(container) == container_in(json_of(*value)),
    {
        let object = match members_of_value(value) {
            Some(object) => object,
            None => return None,
        };
        match (read_text(object, "name"), read_text(object, "image")) {
            (Some(name), Some(image)) => Some(Container { name, image }),
            _ => None,
        }
    }
}

/// The texts that a document lists.
pub open spec fn texts_in(json: Json) -> Option<Seq<Seq<char>>> {
    match json {
        Json::Array(items) => if forall|i: int| 0 <= i < items.len() ==> (#[trigger] items[i]) is Text {
            Some(items.map_values(|item: Json| item->Text_0))
        } else {
            None
        },
        _ => None,
    }
}

/// Read a list of texts.
fn read_texts(value: &serde_json::Value) -> (texts: Option<Vec<String>>)
    ensures
        match texts {
            Some(t) => texts_in(json_of(*value)) == Some(texts_of(t@)),
            None => texts_in(json_of(*value)) is None,
        },
{
    match json_node(value) {
        JsonNode::Array(items) => {
            let ghost all = jsons_of(items@);
            let mut texts: Vec<String> = Vec::new();
            let mut i: usize = 0;
            while i < items.len()
                invariant
                    i <= items@.len(),
                    all == jsons_of(items@),
                    json_of(*value) == Json::Array(all),
                    texts@.len() == i,
                    forall|j: int| 0 <= j < i ==> #[trigger] all[j] == Json::Text(texts@[j]@),
                decreases items@.len() - i,
            {
                match json_node(&items[i]) {
                    JsonNode::Text(text) => {
                        texts.push(text.clone());
                    },
                    _ => {
                        proof {
                            assert(!(all[i as int] is Text));
                        }
                        return None;
                    },
                }
                i = i + 1;
            }
            proof {
                assert(all.map_values(|item: Json| item->Text_0) =~= texts_of(texts@));
            }
            Some(texts)
        },
        _ => None,
    }
}

/// The metadata that a document describes.
pub open spec fn metadata_in(json: Json) -> Option<MetadataView> {
    match members_in(json) {
        Some(members) => match (
            text_at(members, "version"@),
            present(members, "product"@),
            present(members, "profiles"@),
            optional_text_at(members, "uid"@),
            optional_text_at(members, "log_source"@),
        ) {
            (Some(version), Some(product), Some(profiles), Some(uid), Some(log_source)) => match (
                product_in(product),
                texts_in(profiles),
            ) {
                (Some(product), Some(profiles)) => Some(
                    MetadataView { version, product, profiles, uid, log_source },
                ),
                _ => None,
            },
            _ => None,
        },
        None => None,
    }
}

/// The contents of optional metadata.
pub open spec fn metadata_of(metadata: Option<Metadata>) -> Option<MetadataView> {
    match metadata {
        Some(m) => Some(m@),
        None => None,
    }
}

impl Metadata {
    /// Read the metadata from its document.
    #[must_use]
    pub fn from_json(value: &serde_json::Value) -> (metadata: Option<Metadata>)
        ensures
            metadata_of(metadata) == metadata_in(json_of(*value)),
    {
        let object = match members_of_value(value) {
            Some(object) => object,
            None => return None,
        };
        match (
            read_text(object, "version"),
            read_present(object, "product"),
            read_present(object, "profiles"),
            read_optional_text(object, "uid"),
            read_optional_text(object, "log_source"),
        ) {
            (Some(version), Some(product), Some(profiles), Some(uid), Some(log_source)) => match (
                Product::from_json(product),
                read_texts(profiles),
            ) {
                (Some(product), Some(profiles)) => Some(
                    Metadata { version, product, profiles, uid, log_source },
                ),
                _ => None,
            },
            _ => None,
        }
    }
}

/// The severity with an id.
pub open spec fn severity_with(id: int) -> Option<SeverityId> {
    if id == 0 {
        Some(SeverityId::Unknown)
    } else if id == 1 {
        Some(SeverityId::Informational)
    } else if id == 2 {
        Some(SeverityId::Low)
    } else if id == 3 {
        Some(SeverityId::Medium)
    } else if id == 4 {
        Some(SeverityId::High)
    } else if id == 5 {
        Some(SeverityId::Critical)
    } else if id == 6 {
        Some(SeverityId::Fatal)
    } else if id == 99 {
        Some(SeverityId::Other)
    } else {
        None
    }
}

fn severity_from(id: i64) -> (severity: Option<SeverityId>)
    ensures
        severity == severity_with(id as int),
{
    match id {
        0 => Some(SeverityId::Unknown),
        1 => Some(SeverityId::Informational),
        2 => Some(SeverityId::Low),
        3 => Some(SeverityId::Medium),
        4 => Some(SeverityId::High),
        5 => Some(SeverityId::Critical),
        6 => Some(SeverityId::Fatal),
        99 => Some(SeverityId::Other),
        _ => None,
    }
}

/// The status with an id.
pub open spec fn status_with(id: u8) -> Option<StatusId> {
    match id {
        0 => Some(StatusId::Unknown),
        1 => Some(StatusId::Success),
        2 => Some(StatusId::Failure),
        99 => Some(StatusId::Other),
        _ => None,
    }
}

fn status_from(id: u8) -> (status: Option<StatusId>)
    ensures
        status == status_with(id),
{
    match id {
        0 => Some(StatusId::Unknown),
        1 => Some(StatusId::Success),
        2 => Some(StatusId::Failure),
        99 => Some(StatusId::Other),
        _ => None,
    }
}

/// The protocol with an id.
pub open spec fn protocol_with(id: u8) -> Option<AuthProtocolId> {
    match id {
        0 => Some(AuthProtocolId::Unknown),
        4 => Some(AuthProtocolId::OpenId),
        99 => Some(AuthProtocolId::Other),
        _ => None,
    }
}

fn protocol_from(id: u8) -> (protocol: Option<AuthProtocolId>)
    ensures
        protocol == protocol_with(id),
{
    match id {
        0 => Some(AuthProtocolId::Unknown),
        4 => Some(AuthProtocolId::OpenId),
        99 => Some(AuthProtocolId::Other),
        _ => None,
    }
}

/// An optional status.
pub open spec fn status_at(members: Seq<(Seq<char>, Json)>) -> Option<Option<StatusId>> {
    match optional_u8_at(members, "status_id"@) {
        Some(Some(id)) => match status_with(id) {
            Some(status) => Some(Some(status)),
            None => None,
        },
        Some(None) => Some(None),
        None => None,
    }
}

fn read_status(object: &serde_json::Map<String, serde_json::Value>) -> (status: Option<
    Option<StatusId>,
>)
    ensures
        status == status_at(members_of(*object)),
{
    match read_optional_u8(object, "status_id") {
        Some(Some(id)) => match status_from(id) {
            Some(status) => Some(Some(status)),
            None => None,
        },
        Some(None) => Some(None),
        None => None,
    }
}

/// An optional protocol.
pub open spec fn protocol_at(members: Seq<(Seq<char>, Json)>) -> Option<Option<AuthProtocolId>> {
    match optional_u8_at(members, "auth_protocol_id"@) {
        Some(Some(id)) => match protocol_with(id) {
            Some(protocol) => Some(Some(protocol)),
            None => None,
        },
        Some(None) => Some(None),
        None => None,
    }
}

fn read_protocol(object: &serde_json::Map<String, serde_json::Value>) -> (protocol: Option<
    Option<AuthProtocolId>,
>)
    ensures
        protocol == protocol_at(members_of(*object)),
{
    match read_optional_u8(object, "auth_protocol_id") {
        Some(Some(id)) => match protocol_from(id) {
            Some(protocol) => Some(Some(protocol)),
            None => None,
        },
        Some(None) => Some(None),
        None => None,
    }
}

/// An optional device.
pub open spec fn device_at(members: Seq<(Seq<char>, Json)>) -> Option<Option<DeviceView>> {
    match present(members, "device"@) {
        Some(json) => match device_in(json) {
            Some(view) => Some(Some(view)),
            None => None,
        },
        None => Some(None),
    }
}

fn read_device(object: &serde_json::Map<String, serde_json::Value>) -> (read: Option<Option<Device>>)
    ensures
        match read {
            Some(r) => device_at(members_of(*object)) == Some(device_of(r)),
            None => device_at(members_of(*object)) is None,
        },
{
    match read_present(object, "device") {
        Some(value) => match Device::from_json(value) {
            Some(read) => Some(Some(read)),
            None => None,
        },
        None => Some(None),
    }
}

/// An optional container.
pub open spec fn container_at(members: Seq<(Seq<char>, Json)>) -> Option<Option<ContainerView>> {
    match present(members, "container"@) {
        Some(json) => match container_in(json) {
            Some(view) => Some(Some(view)),
            None => None,
        },
        None => Some(None),
    }
}

fn read_container(object: &serde_json::Map<String, serde_json::Value>) -> (read: Option<Option<Container>>)
    ensures
        match read {
            Some(r) => container_at(members_of(*object)) == Some(container_of(r)),
            None => container_at(members_of(*object)) is None,
        },
{
    match read_present(object, "container") {
        Some(value) => match Container::from_json(value) {
            Some(read) => Some(Some(read)),
            None => None,
        },
        None => Some(None),
    }
}

/// An optional actor.
pub open spec fn actor_at(members: Seq<(Seq<char>, Json)>) -> Option<Option<ActorView>> {
    match present(members, "actor"@) {
        Some(json) => match actor_in(json) {
            Some(view) => Some(Some(view)),
            None => None,
        },
        None => Some(None),
    }
}

fn read_actor(object: &serde_json::Map<String, serde_json::Value>) -> (read: Option<Option<Actor>>)
    ensures
        match read {
            Some(r) => actor_at(members_of(*object)) == Some(actor_of(r)),
            None => actor_at(members_of(*object)) is None,
        },
{
    match read_present(object, "actor") {
        Some(value) => match Actor::from_json(value) {
            Some(read) => Some(Some(read)),
            None => None,
        },
        None => Some(None),
    }
}

/// An optional user.
pub open spec fn user_at(members: Seq<(Seq<char>, Json)>) -> Option<Option<UserView>> {
    match present(members, "user"@) {
        Some(json) => match user_in(json) {
            Some(view) => Some(Some(view)),
            None => None,
        },
        None => Some(None),
    }
}

fn read_user(object: &serde_json::Map<String, serde_json::Value>) -> (read: Option<Option<User>>)
    ensures
        match read {
            Some(r) => user_at(members_of(*object)) == Some(user_of(r)),
            None => user_at(members_of(*object)) is None,
        },
{
    match read_present(object, "user") {
        Some(value) => match User::from_json(value) {
            Some(read) => Some(Some(read)),
            None => None,
        },
        None => Some(None),
    }
}

/// An optional origin.
pub open spec fn origin_at(members: Seq<(Seq<char>, Json)>) -> Option<Option<EndpointView>> {
    match present(members, "src_endpoint"@) {
        Some(json) => match endpoint_in(json) {
            Some(view) => Some(Some(view)),
            None => None,
        },
        None => Some(None),
    }
}

fn read_origin(object: &serde_json::Map<String, serde_json::Value>) -> (read: Option<Option<Endpoint>>)
    ensures
        match read {
            Some(r) => origin_at(members_of(*object)) == Some(endpoint_of(r)),
            None => origin_at(members_of(*object)) is None,
        },
{
    match read_present(object, "src_endpoint") {
        Some(value) => match Endpoint::from_json(value) {
            Some(read) => Some(Some(read)),
            None => None,
        },
        None => Some(None),
    }
}

/// Whether the members that name an event's class, activity and time are there.
pub open spec fn names_class(members: Seq<(Seq<char>, Json)>) -> bool {
    &&& int_at(members, "class_uid"@, 0, 4_294_967_295) is Some
    &&& text_at(members, "class_name"@) is Some
    &&& int_at(members, "category_uid"@, 0, 255) is Some
    &&& text_at(members, "category_name"@) is Some
    &&& int_at(members, "activity_id"@, 0, 255) is Some
    &&& text_at(members, "activity_name"@) is Some
    &&& int_at(members, "type_uid"@, i64::MIN as int, i64::MAX as int) is Some
    &&& text_at(members, "type_name"@) is Some
    &&& int_at(members, "time"@, i64::MIN as int, i64::MAX as int) is Some
}

/// The severity of an event.
pub open spec fn severity_at(members: Seq<(Seq<char>, Json)>) -> Option<SeverityId> {
    match int_at(members, "severity_id"@, 0, 255) {
        Some(id) => severity_with(id),
        None => None,
    }
}

/// The metadata of an event.
pub open spec fn metadata_at(members: Seq<(Seq<char>, Json)>) -> Option<MetadataView> {
    match present(members, "metadata"@) {
        Some(json) => metadata_in(json),
        None => None,
    }
}

/// Whether the members that rank an event and report its outcome and
/// surroundings are there.
pub open spec fn names_context(members: Seq<(Seq<char>, Json)>) -> bool {
    &&& severity_at(members) is Some
    &&& status_at(members) is Some
    &&& optional_text_at(members, "status_detail"@) is Some
    &&& optional_text_at(members, "message"@) is Some
    &&& metadata_at(members) is Some
    &&& device_at(members) is Some
    &&& container_at(members) is Some
}

/// The members common to every class.
pub open spec fn base_in(members: Seq<(Seq<char>, Json)>) -> Option<BaseView> {
    if names_class(members) && names_context(members) {
        Some(
            BaseView {
                class_uid: int_at(members, "class_uid"@, 0, 4_294_967_295)->0 as u32,
                class_name: text_at(members, "class_name"@)->0,
                category_uid: int_at(members, "category_uid"@, 0, 255)->0 as u8,
                category_name: text_at(members, "category_name"@)->0,
                activity_id: int_at(members, "activity_id"@, 0, 255)->0 as u8,
                activity_name: text_at(members, "activity_name"@)->0,
                type_uid: int_at(
                    members,
                    "type_uid"@,
                    i64::MIN as int,
                    i64::MAX as int,
                )->0 as i64,
                type_label: text_at(members, "type_name"@)->0,
                time: int_at(members, "time"@, i64::MIN as int, i64::MAX as int)->0 as i64,
                severity: severity_at(members)->0,
                status: status_at(members)->0,
                status_detail: optional_text_at(members, "status_detail"@)->0,
                message: optional_text_at(members, "message"@)->0,
                metadata: metadata_at(members)->0,
                device: device_at(members)->0,
                container: container_at(members)->0,
                unmapped: present(members, "unmapped"@),
            },
        )
    } else {
        None
    }
}

/// The contents of optional common members.
pub open spec fn base_of(base: Option<BaseEventData>) -> Option<BaseView> {
    match base {
        Some(b) => Some(b@),
        None => None,
    }
}

/// Read the members common to every class.
fn read_base(object: &serde_json::Map<String, serde_json::Value>) -> (base: Option<BaseEventData>)
    ensures
        base_of(base) == base_in(members_of(*object)),
{
    let (class_uid, class_name, category_uid, category_name) = match (
        read_int(object, "class_uid", 0, 4_294_967_295),
        read_text(object, "class_name"),
        read_int(object, "category_uid", 0, 255),
        read_text(object, "category_name"),
    ) {
        (Some(a), Some(b), Some(c), Some(d)) => (a as u32, b, c as u8, d),
        _ => return None,
    };
    let (activity_id, activity_name, type_uid, type_label, time) = match (
        read_int(object, "activity_id", 0, 255),
        read_text(object, "activity_name"),
        read_int(object, "type_uid", i64::MIN, i64::MAX),
        read_text(object, "type_name"),
        read_int(object, "time", i64::MIN, i64::MAX),
    ) {
        (Some(a), Some(b), Some(c), Some(d), Some(e)) => (a as u8, b, c, d, e),
        _ => return None,
    };
    let severity = match read_int(object, "severity_id", 0, 255) {
        Some(id) => match severity_from(id) {
            Some(severity) => severity,
            None => return None,
        },
        None => return None,
    };
    let metadata = match read_present(object, "metadata") {
        Some(value) => match Metadata::from_json(value) {
            Some(metadata) => metadata,
            None => return None,
        },
        None => return None,
    };
    let (status, status_detail, message, device, container) = match (
        read_status(object),
        read_optional_text(object, "status_detail"),
        read_optional_text(object, "message"),
        read_device(object),
        read_container(object),
    ) {
        (Some(a), Some(b), Some(c), Some(d), Some(e)) => (a, b, c, d, e),
        _ => return None,
    };
    let unmapped = match read_present(object, "unmapped") {
        Some(value) => Some(copy_of(value)),
        None => None,
    };
    Some(
        BaseEventData {
            class_uid,
            class_name,
            category_uid,
            category_name,
            activity_id,
            activity_name,
            type_uid,
            type_label,
            time,
            severity,
            status,
            status_detail,
            message,
            metadata,
            device,
            container,
            unmapped,
        },
    )
}

/// The Entity Management event that a document describes.
pub open spec fn entity_event_in(json: Json) -> Option<EventView> {
    match members_in(json) {
        Some(members) => match (
            base_in(members),
            present(members, "entity"@),
            actor_at(members),
        ) {
            (Some(base), Some(entity), Some(actor)) => match entity_in(entity) {
                Some(entity) => Some(
                    EventView { base, class: ClassView::EntityManagement { entity, actor } },
                ),
                None => None,
            },
            _ => None,
        },
        None => None,
    }
}

/// The Authentication event that a document describes.
pub open spec fn authentication_in(json: Json) -> Option<EventView> {
    match members_in(json) {
        Some(members) => match (
            base_in(members),
            user_at(members),
            protocol_at(members),
            origin_at(members),
        ) {
            (Some(base), Some(user), Some(auth_protocol), Some(src_endpoint)) => Some(
                EventView {
                    base,
                    class: ClassView::Authentication { user, auth_protocol, src_endpoint },
                },
            ),
            _ => None,
        },
        None => None,
    }
}

impl EntityManagementEvent {
    /// The contents of the event.
    pub open spec fn contents(self) -> EventView {
        EventView {
            base: self.base@,
            class: ClassView::EntityManagement {
                entity: self.entity@,
                actor: actor_of(self.actor),
            },
        }
    }

    /// Read an event from its document.
    #[must_use]
    pub fn from_json(value: &serde_json::Value) -> (event: Option<EntityManagementEvent>)
        ensures
            match event {
                Some(e) => entity_event_in(json_of(*value)) == Some(e.contents()),
                None => entity_event_in(json_of(*value)) is None,
            },
    {
        let object = match members_of_value(value) {
            Some(object) => object,
            None => return None,
        };
        match (read_base(object), read_present(object, "entity"), read_actor(object)) {
            (Some(base), Some(entity), Some(actor)) => match ManagedEntity::from_json(entity) {
                Some(entity) => Some(EntityManagementEvent { base, entity, actor }),
                None => None,
            },
            _ => None,
        }
    }
}

impl AuthenticationEvent {
    /// The contents of the event.
    pub open spec fn contents(self) -> EventView {
        EventView {
            base: self.base@,
            class: ClassView::Authentication {
                user: user_of(self.user),
                auth_protocol: self.auth_protocol,
                src_endpoint: endpoint_of(self.src_endpoint),
            },
        }
    }

    /// Read an event from its document.
    #[must_use]
    pub fn from_json(value: &serde_json::Value) -> (event: Option<AuthenticationEvent>)
        ensures
            match event {
                Some(e) => authentication_in(json_of(*value)) == Some(e.contents()),
                None => authentication_in(json_of(*value)) is None,
            },
    {
        let object = match members_of_value(value) {
            Some(object) => object,
            None => return None,
        };
        match (
            read_base(object),
            read_user(object),
            read_protocol(object),
            read_origin(object),
        ) {
            (Some(base), Some(user), Some(auth_protocol), Some(src_endpoint)) => Some(
                AuthenticationEvent { base, user, auth_protocol, src_endpoint },
            ),
            _ => None,
        }
    }
}

} // verus!
