//! JSON documents: the `serde_json` tree and what it holds.
//!
//! A `serde_json::Value` is opaque to the verifier. [`json_of`] names the
//! document a value holds and [`members_of`] the members of an object; every
//! `serde_json` function used by the library is specified over those two
//! names.

use crate::string_map::lookup;
use vstd::prelude::*;

verus! {

/// A JSON document.
///
/// An integer is held by its value and any other number by its compact JSON
/// text. The members of an object stand in iteration order.
pub enum Json {
    Null,
    Bool(bool),
    Int(int),
    Real(Seq<char>),
    Text(Seq<char>),
    Array(Seq<Json>),
    Object(Seq<(Seq<char>, Json)>),
}

/// A JSON tree, from `serde_json`.
#[verifier::external_type_specification]
#[verifier::external_body]
pub struct ExValue(serde_json::Value);

/// A JSON object, from `serde_json`.
#[verifier::external_type_specification]
#[verifier::external_body]
#[verifier::reject_recursive_types(K)]
#[verifier::reject_recursive_types(V)]
pub struct ExObject<K, V>(serde_json::Map<K, V>);

/// What `serde_json` reports when a document cannot be written.
#[verifier::external_type_specification]
#[verifier::external_body]
pub struct ExError(serde_json::Error);

/// The document that a value holds.
pub uninterp spec fn json_of(value: serde_json::Value) -> Json;

/// The members that an object holds, in iteration order.
pub uninterp spec fn members_of(object: serde_json::Map<String, serde_json::Value>) -> Seq<
    (Seq<char>, Json),
>;

/// The compact text of a document, as `serde_json::to_string` writes it.
pub uninterp spec fn compact_text(json: Json) -> Seq<char>;

/// The shortest decimal text of a number taken as a double, as
/// `ryu::Buffer::format` prints it.
pub uninterp spec fn ryu_text(number: Json) -> Seq<char>;

/// Whether `a` sorts before `b`, character by character.
pub open spec fn sorts_before(a: Seq<char>, b: Seq<char>) -> bool
    decreases a.len(),
{
    if b.len() == 0 {
        false
    } else if a.len() == 0 {
        true
    } else if a[0] != b[0] {
        a[0] < b[0]
    } else {
        sorts_before(a.drop_first(), b.drop_first())
    }
}

/// The members of an object after writing `value` under `name`: members stay
/// sorted by name, and a name occurs once.
pub open spec fn put(members: Seq<(Seq<char>, Json)>, name: Seq<char>, value: Json) -> Seq<
    (Seq<char>, Json),
>
    decreases members.len(),
{
    if members.len() == 0 {
        seq![(name, value)]
    } else if members[0].0 == name {
        seq![(name, value)] + members.drop_first()
    } else if sorts_before(name, members[0].0) {
        seq![(name, value)] + members
    } else {
        seq![members[0]] + put(members.drop_first(), name, value)
    }
}

/// How many arrays and objects `serde_json` enters inside one another when it
/// reads a text.
pub const MAX_NESTING: usize = 127;

/// Whether members stand in strictly ascending order of their names.
pub open spec fn ascending(members: Seq<(Seq<char>, Json)>) -> bool {
    forall|i: int, j: int|
        0 <= i < j < members.len() ==> sorts_before(
            (#[trigger] members[i]).0,
            (#[trigger] members[j]).0,
        )
}

/// Whether a document is one that a tree holds (integers lie within `i64` or
/// `u64`, members ascend by name), with at most `levels` arrays and objects inside
/// one another, and with no doubles unless they are allowed.
pub open spec fn readable(json: Json, levels: nat, doubles: bool) -> bool
    decreases json,
{
    match json {
        Json::Int(i) => i64::MIN <= i <= u64::MAX,
        Json::Real(_) => doubles,
        Json::Array(items) => levels > 0 && forall|i: int|
            0 <= i < items.len() ==> readable(#[trigger] items[i], (levels - 1) as nat, doubles),
        Json::Object(members) => levels > 0 && ascending(members) && forall|i: int|
            0 <= i < members.len() ==> readable(
                (#[trigger] members[i]).1,
                (levels - 1) as nat,
                doubles,
            ),
        _ => true,
    }
}

/// Whether two documents are the same but for the values of their doubles.
pub open spec fn same_but_doubles(a: Json, b: Json) -> bool
    decreases b,
{
    match (a, b) {
        (Json::Real(_), Json::Real(_)) => true,
        (Json::Array(these), Json::Array(those)) => {
            &&& these.len() == those.len()
            &&& forall|i: int|
                0 <= i < those.len() ==> same_but_doubles(these[i], #[trigger] those[i])
        },
        (Json::Object(these), Json::Object(those)) => {
            &&& these.len() == those.len()
            &&& forall|i: int|
                0 <= i < those.len() ==> these[i].0 == (#[trigger] those[i]).0 && same_but_doubles(
                    these[i].1,
                    those[i].1,
                )
        },
        _ => a == b,
    }
}

/// Whether a document is a number.
pub open spec fn is_number(json: Json) -> bool {
    json is Int || json is Real
}

/// The documents that the values of a list hold.
pub open spec fn jsons_of(values: Seq<serde_json::Value>) -> Seq<Json> {
    values.map_values(|value: serde_json::Value| json_of(value))
}

/// One level of a JSON tree.
pub enum JsonNode<'a> {
    Null,
    Bool(bool),
    Number,
    Text(&'a String),
    Array(&'a Vec<serde_json::Value>),
    Object(&'a serde_json::Map<String, serde_json::Value>),
}

/// Take one level of a tree apart: the variant of `serde_json::Value` and the
/// payload it carries.
///
/// Trusted: the node's variant and payload are the value's own, and a value is
/// a number exactly when its document is one. An integer lies within `i64` or
/// `u64`, and the members of an object ascend by name.
#[verifier::external_body]
pub(crate) fn json_node<'a>(value: &'a serde_json::Value) -> (node: JsonNode<'a>)
    ensures
        match node {
            JsonNode::Null => json_of(*value) is Null,
            JsonNode::Bool(flag) => json_of(*value) == Json::Bool(flag),
            JsonNode::Number => match json_of(*value) {
                Json::Int(i) => i64::MIN <= i <= u64::MAX,
                Json::Real(_) => true,
                _ => false,
            },
            JsonNode::Text(text) => json_of(*value) == Json::Text(text@),
            JsonNode::Array(items) => json_of(*value) == Json::Array(jsons_of(items@)),
            JsonNode::Object(object) => json_of(*value) == Json::Object(members_of(*object))
                && ascending(members_of(*object)),
        },
{
    match value {
        serde_json::Value::Null => JsonNode::Null,
        serde_json::Value::Bool(flag) => JsonNode::Bool(*flag),
        serde_json::Value::Number(_) => JsonNode::Number,
        serde_json::Value::String(text) => JsonNode::Text(text),
        serde_json::Value::Array(items) => JsonNode::Array(items),
        serde_json::Value::Object(object) => JsonNode::Object(object),
    }
}

/// The members of an object, from `serde_json::Map::iter`.
///
/// Trusted: the iterator yields every member once, in the order of
/// [`members_of`].
#[verifier::external_body]
pub(crate) fn members<'a>(object: &'a serde_json::Map<String, serde_json::Value>) -> (entries: Vec<
    (&'a String, &'a serde_json::Value),
>)
    ensures
        entries@.len() == members_of(*object).len(),
        forall|i: int|
            0 <= i < entries@.len() ==> (#[trigger] entries@[i]).0@ == members_of(*object)[i].0
                && json_of(*entries@[i].1) == members_of(*object)[i].1,
{
    object.iter().collect()
}

/// An empty object, from `serde_json::Map::new`.
///
/// Trusted: it has no members.
#[verifier::external_body]
pub(crate) fn empty_object() -> (object: serde_json::Map<String, serde_json::Value>)
    ensures
        members_of(object) == Seq::<(Seq<char>, Json)>::empty(),
{
    serde_json::Map::new()
}

/// Write a member with `serde_json::Map::insert`.
///
/// Trusted: the map is a B-tree, so an existing name is overwritten in place
/// and a new one takes its place in the order of names.
#[verifier::external_body]
pub(crate) fn put_member(
    object: &mut serde_json::Map<String, serde_json::Value>,
    name: String,
    value: serde_json::Value,
)
    ensures
        members_of(*final(object)) == put(members_of(*old(object)), name@, json_of(value)),
{
    object.insert(name, value);
}

/// Whether an object has no members, from `serde_json::Map::is_empty`.
///
/// Trusted: true exactly when the object holds no member.
#[verifier::external_body]
pub(crate) fn no_members(object: &serde_json::Map<String, serde_json::Value>) -> (empty: bool)
    ensures
        empty == (members_of(*object).len() == 0),
{
    object.is_empty()
}

/// The value under a name, from `serde_json::Map::get`.
///
/// Trusted: an object has at most one member of a name; its value comes back
/// where there is one, and nothing otherwise.
#[verifier::external_body]
pub(crate) fn member<'a>(
    object: &'a serde_json::Map<String, serde_json::Value>,
    name: &str,
) -> (value: Option<&'a serde_json::Value>)
    ensures
        match value {
            Some(v) => lookup(members_of(*object), name@) == Some(json_of(*v)),
            None => lookup(members_of(*object), name@) is None,
        },
{
    object.get(name)
}

/// A string document: `serde_json::Value::String`.
///
/// Trusted: the document is that text.
#[verifier::external_body]
pub(crate) fn text_value(text: String) -> (value: serde_json::Value)
    ensures
        json_of(value) == Json::Text(text@),
{
    serde_json::Value::String(text)
}

/// An integer document: `From<i64>` for `serde_json::Value`.
///
/// Trusted: the document is that integer.
#[verifier::external_body]
pub(crate) fn int_value(number: i64) -> (value: serde_json::Value)
    ensures
        json_of(value) == Json::Int(number as int),
{
    serde_json::Value::from(number)
}

/// A boolean document: `serde_json::Value::Bool`.
///
/// Trusted: the document is that flag.
#[verifier::external_body]
pub(crate) fn bool_value(flag: bool) -> (value: serde_json::Value)
    ensures
        json_of(value) == Json::Bool(flag),
{
    serde_json::Value::Bool(flag)
}

/// An array document: `serde_json::Value::Array`.
///
/// Trusted: its items are those given, in order.
#[verifier::external_body]
pub(crate) fn array_value(items: Vec<serde_json::Value>) -> (value: serde_json::Value)
    ensures
        json_of(value) == Json::Array(jsons_of(items@)),
{
    serde_json::Value::Array(items)
}

/// An object document: `serde_json::Value::Object`.
///
/// Trusted: its members are those of the object.
#[verifier::external_body]
pub(crate) fn object_value(object: serde_json::Map<String, serde_json::Value>) -> (value:
    serde_json::Value)
    ensures
        json_of(value) == Json::Object(members_of(object)),
{
    serde_json::Value::Object(object)
}

/// A copy of a tree, from `Clone` for `serde_json::Value`.
///
/// Trusted: the copy holds the same document.
#[verifier::external_body]
pub(crate) fn copy_of(value: &serde_json::Value) -> (copy: serde_json::Value)
    ensures
        json_of(copy) == json_of(*value),
{
    value.clone()
}

/// The integer a document is, from `serde_json::Value::as_i64`.
///
/// Trusted: an integer within `i64` comes back as itself; every other document
/// gives nothing.
#[verifier::external_body]
pub(crate) fn as_i64(value: &serde_json::Value) -> (number: Option<i64>)
    ensures
        number == match json_of(*value) {
            Json::Int(i) => if i64::MIN <= i <= i64::MAX {
                Some(i as i64)
            } else {
                None
            },
            _ => None,
        },
{
    value.as_i64()
}

/// The natural number a document is, from `serde_json::Value::as_u64`.
///
/// Trusted: an integer within `u64` comes back as itself; every other document
/// gives nothing.
#[verifier::external_body]
pub(crate) fn as_u64(value: &serde_json::Value) -> (number: Option<u64>)
    ensures
        number == match json_of(*value) {
            Json::Int(i) => if 0 <= i <= u64::MAX {
                Some(i as u64)
            } else {
                None
            },
            _ => None,
        },
{
    value.as_u64()
}

/// A number printed as a double: `serde_json::Value::as_f64`, then
/// `ryu::Buffer::format`.
///
/// Trusted: every number gives a text, which depends on the document alone,
/// and nothing else gives one.
#[verifier::external_body]
pub(crate) fn double_text(value: &serde_json::Value) -> (text: Option<String>)
    ensures
        text is Some <==> is_number(json_of(*value)),
        text matches Some(t) ==> t@ == ryu_text(json_of(*value)),
{
    value.as_f64().map(|number| ryu::Buffer::new().format(number).to_owned())
}

/// The compact text of a tree, from `serde_json::to_string`.
///
/// Trusted: writing a tree to memory cannot fail, and the text depends on the
/// document alone.
#[verifier::external_body]
pub(crate) fn write_compact(value: &serde_json::Value) -> (text: Result<String, serde_json::Error>)
    ensures
        text is Ok,
        text matches Ok(t) ==> t@ == compact_text(json_of(*value)),
{
    serde_json::to_string(value)
}

} // verus!
