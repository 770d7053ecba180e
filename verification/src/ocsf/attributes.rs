//! Attribute formatter: OCSF events as flat key/value pairs.
//!
//! A transport whose unit is a flat string map cannot carry a nested document.
//! Flattening turns a document into dotted keys, so that a consumer can match
//! `ocsf.dst_endpoint.port` instead of pattern-matching a rendered line.

use crate::json::{
    as_i64, as_u64, compact_text, double_text, json_node, json_of, jsons_of, members, members_of, ryu_text,
    same_but_doubles, Json, JsonNode, MAX_NESTING,
};
use crate::ocsf::document::json_of_option;
use crate::ocsf::enums::SeverityId;
use crate::ocsf::events::{EventView, OcsfEvent};
use crate::ocsf::raw_laws::{law_event_texts_are_readable, reads_back};
use crate::string_map::{lookup, upsert, FieldMap};
use crate::text::{decimal, decimal_text, prefix_of};
use crate::written::{
    faithful, law_readable_with_doubles, law_same_without_doubles, read_text, spelled_document,
};
use vstd::prelude::*;
use vstd::string::*;

verus! {

/// Namespace of every flattened key.
///
/// Keeps flattened event data from colliding with the `log.*` and `sandbox.id`
/// attributes of the record that carries it.
pub const KEY_PREFIX: &'static str = "ocsf";

/// Key of the event's `severity_id`, in flattened and in raw form.
pub const SEVERITY_ID_KEY: &'static str = "ocsf.severity_id";

/// Key of the complete event document in raw form.
pub const RAW_KEY: &'static str = "ocsf.raw";

/// Longest flattened value, in characters, that is kept whole.
pub const MAX_VALUE_LEN: usize = 256;

/// Marker appended to a value that was cut.
pub const TRUNCATION_SUFFIX: &'static str = "…";

/// `text`, cut to [`MAX_VALUE_LEN`] characters and marked when longer.
pub open spec fn truncated(text: Seq<char>) -> Seq<char> {
    if text.len() <= MAX_VALUE_LEN {
        text
    } else {
        text.take(MAX_VALUE_LEN as int) + TRUNCATION_SUFFIX@
    }
}

/// Whether a document is neither an array nor an object.
pub open spec fn is_scalar(json: Json) -> bool {
    !(json is Array) && !(json is Object)
}

/// The text of a scalar: strings without quotes, integers in decimal, other
/// numbers as doubles.
pub open spec fn scalar_text(json: Json) -> Seq<char> {
    match json {
        Json::Text(text) => text,
        Json::Bool(flag) => if flag {
            "true"@
        } else {
            "false"@
        },
        Json::Int(i) => decimal(i),
        Json::Real(_) => ryu_text(json),
        _ => compact_text(json),
    }
}

/// Whether every item is a scalar.
pub open spec fn all_scalar(items: Seq<Json>) -> bool {
    forall|i: int| 0 <= i < items.len() ==> is_scalar(#[trigger] items[i])
}

/// Whether any of the first `n` items is kept when they are joined: all but
/// nulls are.
pub open spec fn any_kept(items: Seq<Json>, n: nat) -> bool {
    exists|i: int| 0 <= i < n && !((#[trigger] items[i]) is Null)
}

/// The first `n` items joined with `,`: nulls are left out, and every other item
/// has its place.
pub open spec fn joined(items: Seq<Json>, n: nat) -> Seq<char>
    decreases n,
{
    if n == 0 {
        Seq::empty()
    } else {
        let before = joined(items, (n - 1) as nat);
        let item = items[n - 1];
        if item is Null {
            before
        } else if !any_kept(items, (n - 1) as nat) {
            scalar_text(item)
        } else {
            before + ","@ + scalar_text(item)
        }
    }
}

/// `path` extended by one dotted segment.
pub open spec fn child_path(path: Seq<char>, segment: Seq<char>) -> Seq<char> {
    path + "."@ + segment
}

/// The text of what is one value when flattened: a scalar, or an array of
/// scalars, of which all are joined that are not null. Nulls, arrays without
/// anything to join, and what is flattened further have none.
pub open spec fn leaf_text(json: Json) -> Option<Seq<char>> {
    match json {
        Json::Null => None,
        Json::Object(_) => None,
        Json::Array(items) => if all_scalar(items) && any_kept(items, items.len()) {
            Some(joined(items, items.len()))
        } else {
            None
        },
        _ => Some(scalar_text(json)),
    }
}

/// The key/value pairs of a document under `path`, in the order of the walk.
///
/// Nested objects join with `.`; an array of scalars is one value; any other
/// array is indexed; nulls and empty arrays leave nothing.
pub open spec fn leaves(path: Seq<char>, json: Json) -> Seq<(Seq<char>, Seq<char>)>
    decreases json,
{
    match json {
        Json::Null => Seq::empty(),
        Json::Object(members) => member_leaves(path, members, members.len()),
        Json::Array(items) => if all_scalar(items) {
            match leaf_text(json) {
                Some(text) => seq![(path, truncated(text))],
                None => Seq::empty(),
            }
        } else {
            item_leaves(path, items, items.len())
        },
        _ => seq![(path, truncated(scalar_text(json)))],
    }
}

/// The pairs of the first `n` members of an object under `path`.
pub open spec fn member_leaves(
    path: Seq<char>,
    members: Seq<(Seq<char>, Json)>,
    n: nat,
) -> Seq<(Seq<char>, Seq<char>)>
    decreases members, n,
    when n <= members.len()
{
    if n == 0 {
        Seq::empty()
    } else {
        member_leaves(path, members, (n - 1) as nat) + leaves(
            child_path(path, members[n - 1].0),
            members[n - 1].1,
        )
    }
}

/// The pairs of the first `n` items of an array under `path`.
pub open spec fn item_leaves(path: Seq<char>, items: Seq<Json>, n: nat) -> Seq<
    (Seq<char>, Seq<char>),
>
    decreases items, n,
    when n <= items.len()
{
    if n == 0 {
        Seq::empty()
    } else {
        item_leaves(path, items, (n - 1) as nat) + leaves(
            child_path(path, decimal(n - 1)),
            items[n - 1],
        )
    }
}

/// Fields after writing pairs, first to last.
pub open spec fn write_all(
    fields: Seq<(Seq<char>, Seq<char>)>,
    pairs: Seq<(Seq<char>, Seq<char>)>,
) -> Seq<(Seq<char>, Seq<char>)>
    decreases pairs.len(),
{
    if pairs.len() == 0 {
        fields
    } else {
        upsert(write_all(fields, pairs.drop_last()), pairs.last().0, pairs.last().1)
    }
}

/// Writing two lists in turn is writing their concatenation.
proof fn lemma_write_all_in_turn(
    fields: Seq<(Seq<char>, Seq<char>)>,
    first: Seq<(Seq<char>, Seq<char>)>,
    second: Seq<(Seq<char>, Seq<char>)>,
)
    ensures
        write_all(fields, first + second) == write_all(write_all(fields, first), second),
    decreases second.len(),
{
    if second.len() == 0 {
        assert(first + second =~= first);
    } else {
        lemma_write_all_in_turn(fields, first, second.drop_last());
        assert((first + second).drop_last() =~= first + second.drop_last());
    }
}

/// Writing one pair.
proof fn lemma_write_one(
    fields: Seq<(Seq<char>, Seq<char>)>,
    key: Seq<char>,
    value: Seq<char>,
)
    ensures
        write_all(fields, seq![(key, value)]) == upsert(fields, key, value),
{
    reveal_with_fuel(write_all, 2);
    assert(seq![(key, value)].drop_last() =~= Seq::<(Seq<char>, Seq<char>)>::empty());
}

/// Cut a value to [`MAX_VALUE_LEN`] characters, marking the cut.
///
/// The short value, by far the most common, is handed back untouched.
pub fn truncate(value: String) -> (kept: String)
    ensures
        kept@ == truncated(value@),
{
    if value.as_str().unicode_len() <= MAX_VALUE_LEN {
        return value;
    }
    let mut cut = prefix_of(value.as_str(), MAX_VALUE_LEN);
    cut.append(TRUNCATION_SUFFIX);
    cut
}

/// The text of a number, given the integer it is, signed or unsigned, if it is
/// one, and its text as a double: an integer goes by its digits.
#[must_use]
pub fn number_text(signed: Option<i64>, unsigned: Option<u64>, double: Option<String>) -> (text:
    String)
    ensures
        text@ == match (signed, unsigned, double) {
            (Some(i), _, _) => decimal(i as int),
            (None, Some(u), _) => decimal(u as int),
            (None, None, Some(d)) => d@,
            (None, None, None) => Seq::empty(),
        },
{
    match (signed, unsigned, double) {
        (Some(i), _, _) => decimal_text(i as i128),
        (None, Some(u), _) => decimal_text(u as i128),
        (None, None, Some(d)) => d,
        (None, None, None) => String::new(),
    }
}

/// Append the text of a scalar.
///
/// Nulls, arrays and objects are handled before this point.
fn push_scalar(out: &mut String, value: &serde_json::Value)
    requires
        is_scalar(json_of(*value)),
        !(json_of(*value) is Null),
    ensures
        final(out)@ == old(out)@ + scalar_text(json_of(*value)),
{
    match json_node(value) {
        JsonNode::Text(text) => out.append(text.as_str()),
        JsonNode::Bool(flag) => out.append(
            if flag {
                "true"
            } else {
                "false"
            },
        ),
        _ => {
            let signed = as_i64(value);
            let unsigned = as_u64(value);
            let double = if signed.is_none() && unsigned.is_none() {
                double_text(value)
            } else {
                None
            };
            out.append(number_text(signed, unsigned, double).as_str());
        },
    }
}

/// Whether a value is neither an array nor an object.
fn scalar(value: &serde_json::Value) -> (yes: bool)
    ensures
        yes == is_scalar(json_of(*value)),
{
    match json_node(value) {
        JsonNode::Array(_) => false,
        JsonNode::Object(_) => false,
        _ => true,
    }
}

/// Whether a value is null.
fn null(value: &serde_json::Value) -> (yes: bool)
    ensures
        yes == (json_of(*value) is Null),
{
    match json_node(value) {
        JsonNode::Null => true,
        _ => false,
    }
}

/// Whether every item is neither an array nor an object.
fn scalars_only(items: &Vec<serde_json::Value>) -> (yes: bool)
    ensures
        yes == all_scalar(jsons_of(items@)),
{
    let mut i: usize = 0;
    while i < items.len()
        invariant
            i <= items@.len(),
            forall|j: int| 0 <= j < i ==> is_scalar(#[trigger] jsons_of(items@)[j]),
        decreases items@.len() - i,
    {
        if !scalar(&items[i]) {
            proof {
                assert(!is_scalar(jsons_of(items@)[i as int]));
            }
            return false;
        }
        i = i + 1;
    }
    true
}

/// Join the scalars of an array with `,`, where any is left without nulls.
fn join(items: &Vec<serde_json::Value>) -> (text: Option<String>)
    requires
        all_scalar(jsons_of(items@)),
    ensures
        match text {
            Some(t) => leaf_text(Json::Array(jsons_of(items@))) == Some(t@),
            None => leaf_text(Json::Array(jsons_of(items@))) is None,
        },
{
    let mut text = String::new();
    let mut kept = false;
    let mut i: usize = 0;
    while i < items.len()
        invariant
            all_scalar(jsons_of(items@)),
            i <= items@.len(),
            text@ == joined(jsons_of(items@), i as nat),
            kept == any_kept(jsons_of(items@), i as nat),
            !kept ==> text@.len() == 0,
        decreases items@.len() - i,
    {
        proof {
            assert(jsons_of(items@)[i as int] == json_of(items@[i as int]));
        }
        if !null(&items[i]) {
            if kept {
                text.append(",");
            }
            push_scalar(&mut text, &items[i]);
            kept = true;
            proof {
                assert(text@ =~= joined(jsons_of(items@), (i + 1) as nat));
            }
        }
        i = i + 1;
    }
    if kept {
        Some(text)
    } else {
        None
    }
}

/// The path of a child.
fn extended(path: &String, segment: &str) -> (child: String)
    ensures
        child@ == child_path(path@, segment@),
{
    let mut child = path.clone();
    child.append(".");
    child.append(segment);
    child
}

/// Flatten a document into `out` under the key `path`.
pub fn flatten_value(path: &String, value: &serde_json::Value, out: &mut FieldMap)
    ensures
        final(out).ordered() == write_all(old(out).ordered(), leaves(path@, json_of(*value))),
    decreases json_of(*value), 1nat,
{
    let ghost before = out.ordered();
    match json_node(value) {
        JsonNode::Null => {},
        JsonNode::Object(object) => {
            let entries = members(object);
            let ghost all = members_of(*object);
            let mut i: usize = 0;
            while i < entries.len()
                invariant
                    json_of(*value) == Json::Object(all),
                    all == members_of(*object),
                    entries@.len() == all.len(),
                    forall|j: int|
                        0 <= j < entries@.len() ==> (#[trigger] entries@[j]).0@ == all[j].0
                            && json_of(*entries@[j].1) == all[j].1,
                    i <= entries@.len(),
                    out.ordered() == write_all(before, member_leaves(path@, all, i as nat)),
                decreases entries@.len() - i,
            {
                let child = extended(path, entries[i].0.as_str());
                proof {
                    assert(decreases_to!(json_of(*value) => json_of(*value)->Object_0));
                    assert(decreases_to!(all => all[i as int]));
                    assert(decreases_to!(all[i as int] => all[i as int].1));
                    lemma_write_all_in_turn(
                        before,
                        member_leaves(path@, all, i as nat),
                        leaves(child@, all[i as int].1),
                    );
                }
                flatten_value(&child, entries[i].1, out);
                i = i + 1;
            }
        },
        JsonNode::Array(items) => flatten_array(path, items, out),
        _ => {
            let mut rendered = String::new();
            push_scalar(&mut rendered, value);
            proof {
                assert(rendered@ =~= scalar_text(json_of(*value)));
                lemma_write_one(before, path@, truncated(rendered@));
            }
            out.insert(path.clone(), truncate(rendered));
        },
    }
}

/// Flatten an array, joining scalars and indexing everything else.
fn flatten_array(path: &String, items: &Vec<serde_json::Value>, out: &mut FieldMap)
    ensures
        final(out).ordered() == write_all(
            old(out).ordered(),
            leaves(path@, Json::Array(jsons_of(items@))),
        ),
    decreases Json::Array(jsons_of(items@)), 0nat,
{
    let ghost before = out.ordered();
    let ghost all = jsons_of(items@);
    if scalars_only(items) {
        if let Some(text) = join(items) {
            proof {
                lemma_write_one(before, path@, truncated(text@));
            }
            out.insert(path.clone(), truncate(text));
        }
        return;
    }
    let mut i: usize = 0;
    while i < items.len()
        invariant
            all == jsons_of(items@),
            i <= items@.len(),
            out.ordered() == write_all(before, item_leaves(path@, all, i as nat)),
        decreases items@.len() - i,
    {
        let child = extended(path, decimal_text(i as i128).as_str());
        proof {
            assert(all[i as int] == json_of(items@[i as int]));
            assert(decreases_to!(Json::Array(all) => Json::Array(all)->Array_0));
            assert(decreases_to!(all => all[i as int]));
            lemma_write_all_in_turn(
                before,
                item_leaves(path@, all, i as nat),
                leaves(child@, all[i as int]),
            );
        }
        flatten_value(&child, &items[i], out);
        i = i + 1;
    }
}

/// The fields of a flattened event.
pub open spec fn flattened(event: EventView) -> Seq<(Seq<char>, Seq<char>)> {
    write_all(Seq::empty(), leaves(KEY_PREFIX@, event.document()))
}

/// Flatten an OCSF event into dotted `ocsf.*` key/value pairs.
#[must_use]
pub fn flatten_event(event: &OcsfEvent) -> (fields: FieldMap)
    ensures
        fields.ordered() == flattened(event@),
{
    let value = event.to_json();
    let mut fields = FieldMap::new();
    flatten_value(&KEY_PREFIX.to_owned(), &value, &mut fields);
    fields
}

/// The raw push fields of an event: its document's text and its severity.
pub open spec fn raw(text: Seq<char>, severity: SeverityId) -> Seq<(Seq<char>, Seq<char>)> {
    seq![(RAW_KEY@, text), (SEVERITY_ID_KEY@, decimal(severity.id() as int))]
}

/// The raw push fields for a document's text; none where the document could
/// not be written.
#[must_use]
pub fn raw_fields(text: Option<String>, severity: SeverityId) -> (fields: FieldMap)
    ensures
        fields.ordered() == match text {
            Some(t) => raw(t@, severity),
            None => Seq::empty(),
        },
{
    let mut fields = FieldMap::new();
    if let Some(t) = text {
        fields.insert(RAW_KEY.to_owned(), t);
        fields.insert(
            SEVERITY_ID_KEY.to_owned(),
            decimal_text(severity.as_u8() as i128),
        );
        proof {
            lemma_keys_differ();
            reveal_with_fuel(upsert, 3);
            let first = seq![(RAW_KEY@, t@)];
            assert(first.drop_first() =~= Seq::<(Seq<char>, Seq<char>)>::empty());
            assert(fields.ordered() =~= raw(t@, severity));
        }
    }
    fields
}

/// Render an OCSF event as raw push fields: the complete document under
/// [`RAW_KEY`] plus [`SEVERITY_ID_KEY`], so that a reader can rank the record
/// without parsing the document.
///
/// The cheap, full-fidelity alternative to [`flatten_event`]: two entries, and
/// no value is truncated.
#[must_use]
pub fn raw_event_fields(event: &OcsfEvent) -> (fields: FieldMap)
    ensures
        fields.ordered() == raw(event@.text(), event@.base.severity),
        carries(fields.ordered(), event@),
{
    raw_fields(event.to_text(), event.base().severity)
}

/// Whether fields carry an event in raw form.
pub open spec fn carries(fields: Seq<(Seq<char>, Seq<char>)>, event: EventView) -> bool {
    lookup(fields, RAW_KEY@) == Some(event.text())
}

/// The document that raw push fields carry: what the text under [`RAW_KEY`]
/// spells.
pub open spec fn carried_document(fields: Seq<(Seq<char>, Seq<char>)>) -> Option<Json> {
    match lookup(fields, RAW_KEY@) {
        Some(text) => spelled_document(text),
        None => None,
    }
}

/// Read the document that raw push fields carry back into full structure.
///
/// Where the fields carry an event, that is the event's document: exactly, where
/// the event holds no doubles, and but for their values otherwise.
#[must_use]
pub fn raw_document(fields: &FieldMap) -> (document: Option<serde_json::Value>)
    ensures
        json_of_option(document) == carried_document(fields.ordered()),
        forall|event: EventView| #[trigger]
            carries(fields.ordered(), event) && reads_back(event, true) ==> (json_of_option(
                document,
            ) matches Some(read) && same_but_doubles(read, event.document())),
        forall|event: EventView| #[trigger]
            carries(fields.ordered(), event) && reads_back(event, false) ==> json_of_option(
                document,
            ) == Some(event.document()),
{
    let document = match fields.get(RAW_KEY) {
        Some(text) => match read_text(text.as_str()) {
            Ok(value) => Some(value),
            Err(_) => None,
        },
        None => None,
    };
    proof {
        let read = json_of_option(document);
        assert forall|event: EventView| #[trigger]
            carries(fields.ordered(), event) && reads_back(event, true) implies (read matches Some(
            found,
        ) && same_but_doubles(found, event.document())) by {
            law_event_texts_are_readable(event, true);
            assert(faithful(event.written().text(), read));
        }
        assert forall|event: EventView| #[trigger]
            carries(fields.ordered(), event) && reads_back(event, false) implies read == Some(
            event.document(),
        ) by {
            law_event_texts_are_readable(event, false);
            law_readable_with_doubles(event.written(), MAX_NESTING as nat);
            assert(faithful(event.written().text(), read));
            law_same_without_doubles(read->0, event.document(), MAX_NESTING as nat);
        }
    }
    document
}

/// The two raw keys differ.
proof fn lemma_keys_differ()
    ensures
        RAW_KEY@ != SEVERITY_ID_KEY@,
{
    reveal_strlit("ocsf.raw");
    reveal_strlit("ocsf.severity_id");
    assert(RAW_KEY@.len() == 8);
    assert(SEVERITY_ID_KEY@.len() == 16);
}

} // verus!
