//! What holds of every flattened or raw event.

use crate::json::Json;
use crate::ocsf::attributes::{
    all_scalar, child_path, flattened, item_leaves, joined, leaf_text, leaves, member_leaves, raw,
    scalar_text, truncated, write_all, KEY_PREFIX, MAX_VALUE_LEN, RAW_KEY, SEVERITY_ID_KEY, TRUNCATION_SUFFIX,
};
use crate::ocsf::document::{
    last_written, law_member_is_last_written, law_written_objects_ascend,
    lemma_last_written_in_turn, put_all,
};
use crate::ocsf::events::{BaseView, ClassView, EventView};
use crate::string_map::{
    keys_distinct, law_lookup_after_upsert, law_upsert_keeps_keys_distinct, lookup, upsert,
};
use crate::text::{begins_with, decimal, decimal_nat, law_decimal_u8_parses_back, spelled_u8};
use vstd::prelude::*;

verus! {

/// Cutting a value twice cuts it once.
pub proof fn law_truncation_is_idempotent(text: Seq<char>)
    ensures
        truncated(truncated(text)) == truncated(text),
{
    reveal_strlit("…");
    if text.len() > MAX_VALUE_LEN {
        let cut = text.take(MAX_VALUE_LEN as int) + TRUNCATION_SUFFIX@;
        assert(cut.take(MAX_VALUE_LEN as int) =~= text.take(MAX_VALUE_LEN as int));
    }
}

/// A kept value is at most one marker longer than the limit, and begins as it
/// did before the cut.
pub proof fn law_truncation_bounds_a_value(text: Seq<char>)
    ensures
        truncated(text).len() <= MAX_VALUE_LEN + 1,
        text.len() <= MAX_VALUE_LEN ==> truncated(text) == text,
        text.len() > MAX_VALUE_LEN ==> truncated(text).len() == MAX_VALUE_LEN + 1
            && truncated(text).take(MAX_VALUE_LEN as int) == text.take(MAX_VALUE_LEN as int)
            && truncated(text).last() == '…',
{
    reveal_strlit("…");
    if text.len() > MAX_VALUE_LEN {
        assert(truncated(text).take(MAX_VALUE_LEN as int) =~= text.take(MAX_VALUE_LEN as int));
    }
}

/// Whether a value is within the limit, or was cut at it and says so.
pub open spec fn within_limit(value: Seq<char>) -> bool {
    value.len() <= MAX_VALUE_LEN || value.len() == MAX_VALUE_LEN + 1 && value.last() == '…'
}

/// Whether a pair may stand below `path`: at it, or at a dotted extension.
pub open spec fn at_or_below(key: Seq<char>, path: Seq<char>) -> bool {
    key == path || begins_with(key, path + "."@)
}

proof fn lemma_below_child(key: Seq<char>, path: Seq<char>, segment: Seq<char>)
    requires
        at_or_below(key, child_path(path, segment)),
    ensures
        begins_with(key, path + "."@),
{
    reveal_strlit(".");
    let dotted = path + "."@;
    let child = child_path(path, segment);
    if key == child {
        assert(key.subrange(0, dotted.len() as int) =~= dotted);
    } else {
        let longer = child + "."@;
        assert(key.subrange(0, dotted.len() as int) =~= longer.subrange(0, dotted.len() as int));
        assert(longer.subrange(0, dotted.len() as int) =~= dotted);
    }
}

/// Every pair of a document stands at its path or below it, and holds a bounded
/// value.
pub proof fn law_leaves_stay_below_their_path(path: Seq<char>, json: Json)
    ensures
        forall|i: int|
            0 <= i < leaves(path, json).len() ==> at_or_below(
                (#[trigger] leaves(path, json)[i]).0,
                path,
            ) && within_limit(leaves(path, json)[i].1),
        json is Object ==> forall|i: int|
            0 <= i < leaves(path, json).len() ==> begins_with(
                (#[trigger] leaves(path, json)[i]).0,
                path + "."@,
            ),
    decreases json, 1nat,
{
    match json {
        Json::Null => {
            assert(leaves(path, json).len() == 0);
        },
        Json::Object(members) => {
            lemma_member_leaves_below(path, json, members.len());
            assert(leaves(path, json) == member_leaves(path, members, members.len()));
        },
        Json::Array(items) => {
            if all_scalar(items) {
                law_truncation_bounds_a_value(joined(items, items.len()));
                assert(leaves(path, json).len() <= 1);
            } else {
                lemma_item_leaves_below(path, json, items.len());
                assert(leaves(path, json) == item_leaves(path, items, items.len()));
            }
        },
        _ => {
            law_truncation_bounds_a_value(scalar_text(json));
            assert(leaves(path, json) == seq![(path, truncated(scalar_text(json)))]);
        },
    }
}

proof fn lemma_member_leaves_below(path: Seq<char>, json: Json, n: nat)
    requires
        json is Object,
        n <= json->Object_0.len(),
    ensures
        forall|i: int|
            0 <= i < member_leaves(path, json->Object_0, n).len() ==> begins_with(
                (#[trigger] member_leaves(path, json->Object_0, n)[i]).0,
                path + "."@,
            ) && within_limit(member_leaves(path, json->Object_0, n)[i].1),
    decreases json, 0nat, n,
{
    let members = json->Object_0;
    if n > 0 {
        let before = member_leaves(path, members, (n - 1) as nat);
        let child = child_path(path, members[n - 1].0);
        let added = leaves(child, members[n - 1].1);
        lemma_member_leaves_below(path, json, (n - 1) as nat);
        assert(decreases_to!(members[n - 1] => members[n - 1].1));
        law_leaves_stay_below_their_path(child, members[n - 1].1);
        let all = member_leaves(path, members, n);
        assert forall|i: int| 0 <= i < all.len() implies begins_with(
            (#[trigger] all[i]).0,
            path + "."@,
        ) && within_limit(all[i].1) by {
            if i < before.len() {
                assert(all[i] == before[i]);
            } else {
                assert(all[i] == added[i - before.len()]);
                lemma_below_child(all[i].0, path, members[n - 1].0);
            }
        }
    }
}

proof fn lemma_item_leaves_below(path: Seq<char>, json: Json, n: nat)
    requires
        json is Array,
        n <= json->Array_0.len(),
    ensures
        forall|i: int|
            0 <= i < item_leaves(path, json->Array_0, n).len() ==> begins_with(
                (#[trigger] item_leaves(path, json->Array_0, n)[i]).0,
                path + "."@,
            ) && within_limit(item_leaves(path, json->Array_0, n)[i].1),
    decreases json, 0nat, n,
{
    let items = json->Array_0;
    if n > 0 {
        let before = item_leaves(path, items, (n - 1) as nat);
        let child = child_path(path, decimal(n - 1));
        let added = leaves(child, items[n - 1]);
        lemma_item_leaves_below(path, json, (n - 1) as nat);
        law_leaves_stay_below_their_path(child, items[n - 1]);
        let all = item_leaves(path, items, n);
        assert forall|i: int| 0 <= i < all.len() implies begins_with(
            (#[trigger] all[i]).0,
            path + "."@,
        ) && within_limit(all[i].1) by {
            if i < before.len() {
                assert(all[i] == before[i]);
            } else {
                assert(all[i] == added[i - before.len()]);
                lemma_below_child(all[i].0, path, decimal(n - 1));
            }
        }
    }
}

/// Where every written pair has a property of its key and value, so has every
/// field.
proof fn lemma_fields_come_from_pairs(
    fields: Seq<(Seq<char>, Seq<char>)>,
    pairs: Seq<(Seq<char>, Seq<char>)>,
    good: spec_fn((Seq<char>, Seq<char>)) -> bool,
)
    requires
        forall|i: int| 0 <= i < fields.len() ==> good(#[trigger] fields[i]),
        forall|i: int| 0 <= i < pairs.len() ==> good(#[trigger] pairs[i]),
    ensures
        forall|i: int|
            0 <= i < write_all(fields, pairs).len() ==> good(
                #[trigger] write_all(fields, pairs)[i],
            ),
    decreases pairs.len(),
{
    if pairs.len() > 0 {
        lemma_fields_come_from_pairs(fields, pairs.drop_last(), good);
        lemma_upsert_keeps(
            write_all(fields, pairs.drop_last()),
            pairs.last().0,
            pairs.last().1,
            good,
        );
    }
}

proof fn lemma_upsert_keeps(
    fields: Seq<(Seq<char>, Seq<char>)>,
    key: Seq<char>,
    value: Seq<char>,
    good: spec_fn((Seq<char>, Seq<char>)) -> bool,
)
    requires
        forall|i: int| 0 <= i < fields.len() ==> good(#[trigger] fields[i]),
        good((key, value)),
    ensures
        forall|i: int|
            0 <= i < upsert(fields, key, value).len() ==> good(
                #[trigger] upsert(fields, key, value)[i],
            ),
    decreases fields.len(),
{
    if fields.len() > 0 {
        let rest = fields.drop_first();
        assert forall|i: int| 0 <= i < rest.len() implies good(#[trigger] rest[i]) by {
            assert(rest[i] == fields[i + 1]);
        }
        lemma_upsert_keeps(rest, key, value, good);
        let after = upsert(fields, key, value);
        assert forall|i: int| 0 <= i < after.len() implies good(#[trigger] after[i]) by {
            if i > 0 {
                if fields[0].0 == key {
                    assert(after[i] == rest[i - 1]);
                } else {
                    assert(after[i] == upsert(rest, key, value)[i - 1]);
                }
            } else if fields[0].0 != key {
                assert(after[0] == fields[0]);
            }
        }
    }
}

/// Every key of a flattened event begins with `ocsf.`, every value is bounded and
/// marked where it was cut, and no key occurs twice.
pub proof fn law_flattened_fields_are_namespaced_and_bounded(event: EventView)
    ensures
        forall|i: int|
            0 <= i < flattened(event).len() ==> begins_with(
                (#[trigger] flattened(event)[i]).0,
                KEY_PREFIX@ + "."@,
            ) && within_limit(flattened(event)[i].1),
        keys_distinct(flattened(event)),
{
    let pairs = leaves(KEY_PREFIX@, event.document());
    law_leaves_stay_below_their_path(KEY_PREFIX@, event.document());
    let good = |pair: (Seq<char>, Seq<char>)|
        begins_with(pair.0, KEY_PREFIX@ + "."@) && within_limit(pair.1);
    assert forall|i: int| 0 <= i < pairs.len() implies good(#[trigger] pairs[i]) by {
        assert(begins_with(pairs[i].0, KEY_PREFIX@ + "."@));
    }
    lemma_fields_come_from_pairs(Seq::empty(), pairs, good);
    assert forall|i: int| 0 <= i < flattened(event).len() implies begins_with(
        (#[trigger] flattened(event)[i]).0,
        KEY_PREFIX@ + "."@,
    ) && within_limit(flattened(event)[i].1) by {
        assert(good(flattened(event)[i]));
    }
    lemma_write_all_keeps_keys_distinct(Seq::empty(), pairs);
}

proof fn lemma_write_all_keeps_keys_distinct(
    fields: Seq<(Seq<char>, Seq<char>)>,
    pairs: Seq<(Seq<char>, Seq<char>)>,
)
    requires
        keys_distinct(fields),
    ensures
        keys_distinct(write_all(fields, pairs)),
    decreases pairs.len(),
{
    if pairs.len() > 0 {
        lemma_write_all_keeps_keys_distinct(fields, pairs.drop_last());
        law_upsert_keeps_keys_distinct(
            write_all(fields, pairs.drop_last()),
            pairs.last().0,
            pairs.last().1,
        );
    }
}

/// The value of the last pair under `key`.
pub open spec fn last_value(pairs: Seq<(Seq<char>, Seq<char>)>, key: Seq<char>) -> Option<
    Seq<char>,
>
    decreases pairs.len(),
{
    if pairs.len() == 0 {
        None
    } else if pairs.last().0 == key {
        Some(pairs.last().1)
    } else {
        last_value(pairs.drop_last(), key)
    }
}

/// A field holds the last value written under its key.
proof fn lemma_field_is_last_value(
    fields: Seq<(Seq<char>, Seq<char>)>,
    pairs: Seq<(Seq<char>, Seq<char>)>,
    key: Seq<char>,
)
    ensures
        lookup(write_all(fields, pairs), key) == match last_value(pairs, key) {
            Some(value) => Some(value),
            None => lookup(fields, key),
        },
    decreases pairs.len(),
{
    if pairs.len() > 0 {
        lemma_field_is_last_value(fields, pairs.drop_last(), key);
        law_lookup_after_upsert(
            write_all(fields, pairs.drop_last()),
            pairs.last().0,
            pairs.last().1,
            key,
        );
    }
}

proof fn lemma_last_value_in_turn(
    first: Seq<(Seq<char>, Seq<char>)>,
    second: Seq<(Seq<char>, Seq<char>)>,
    key: Seq<char>,
)
    ensures
        last_value(first + second, key) == match last_value(second, key) {
            Some(value) => Some(value),
            None => last_value(first, key),
        },
    decreases second.len(),
{
    if second.len() == 0 {
        assert(first + second =~= first);
    } else {
        lemma_last_value_in_turn(first, second.drop_last(), key);
        assert((first + second).drop_last() =~= first + second.drop_last());
    }
}

proof fn lemma_no_last_value(pairs: Seq<(Seq<char>, Seq<char>)>, key: Seq<char>)
    requires
        forall|i: int| 0 <= i < pairs.len() ==> (#[trigger] pairs[i]).0 != key,
    ensures
        last_value(pairs, key) is None,
    decreases pairs.len(),
{
    if pairs.len() > 0 {
        let rest = pairs.drop_last();
        assert forall|i: int| 0 <= i < rest.len() implies (#[trigger] rest[i]).0 != key by {
            assert(rest[i] == pairs[i]);
        }
        lemma_no_last_value(rest, key);
    }
}

/// Whether a segment holds no dot.
pub open spec fn dotless(segment: Seq<char>) -> bool {
    forall|i: int| 0 <= i < segment.len() ==> #[trigger] segment[i] != '.'
}

/// A member named `other` never writes the key of a dotless member `name`.
proof fn lemma_other_member_writes_elsewhere(
    path: Seq<char>,
    name: Seq<char>,
    other: Seq<char>,
    json: Json,
)
    requires
        dotless(name),
        other != name,
    ensures
        last_value(leaves(child_path(path, other), json), child_path(path, name)) is None,
{
    reveal_strlit(".");
    let key = child_path(path, name);
    let child = child_path(path, other);
    let pairs = leaves(child, json);
    law_leaves_stay_below_their_path(child, json);
    let base = (path.len() + 1) as int;
    assert(key.skip(base) =~= name);
    assert forall|i: int| 0 <= i < pairs.len() implies (#[trigger] pairs[i]).0 != key by {
        assert(at_or_below(pairs[i].0, child));
        if key == child {
            assert(child.skip(base) =~= other);
        }
        if begins_with(key, child + "."@) {
            let longer = child + "."@;
            let at = other.len() as int;
            assert(key.subrange(0, longer.len() as int)[base + at] == key[base + at]);
            assert(longer[base + at] == '.');
            assert(name[at] == key[base + at]);
        }
    }
    lemma_no_last_value(pairs, key);
}

/// A dotless scalar member of an object is found under its own key.
proof fn lemma_scalar_member_is_found(
    path: Seq<char>,
    members: Seq<(Seq<char>, Json)>,
    at: int,
    n: nat,
)
    requires
        n <= members.len(),
        0 <= at < members.len(),
        keys_distinct(members),
        dotless(members[at].0),
        members[at].1 is Int,
    ensures
        last_value(member_leaves(path, members, n), child_path(path, members[at].0)) == if at < n {
            Some(truncated(scalar_text(members[at].1)))
        } else {
            None
        },
    decreases n,
{
    if n > 0 {
        let key = child_path(path, members[at].0);
        let child = child_path(path, members[n - 1].0);
        lemma_scalar_member_is_found(path, members, at, (n - 1) as nat);
        lemma_last_value_in_turn(
            member_leaves(path, members, (n - 1) as nat),
            leaves(child, members[n - 1].1),
            key,
        );
        if n - 1 == at {
            assert(leaves(child, members[at].1) == seq![
                (child, truncated(scalar_text(members[at].1))),
            ]);
        } else {
            if at < n - 1 {
                assert(members[at].0 != members[n - 1].0);
            } else {
                assert(members[n - 1].0 != members[at].0);
            }
            lemma_other_member_writes_elsewhere(
                path,
                members[at].0,
                members[n - 1].0,
                members[n - 1].1,
            );
        }
    }
}

/// What a lookup finds stands somewhere in the list.
proof fn lemma_lookup_stands<T>(entries: Seq<(Seq<char>, T)>, key: Seq<char>) -> (at: int)
    requires
        lookup(entries, key) is Some,
    ensures
        0 <= at < entries.len(),
        entries[at].0 == key,
        Some(entries[at].1) == lookup(entries, key),
    decreases entries.len(),
{
    if entries[0].0 == key {
        0
    } else {
        let below = lemma_lookup_stands(entries.drop_first(), key);
        below + 1
    }
}

proof fn lemma_none_written(written: Seq<(Seq<char>, Json)>, name: Seq<char>)
    requires
        forall|i: int| 0 <= i < written.len() ==> (#[trigger] written[i]).0.len() != name.len(),
    ensures
        last_written(written, name) is None,
    decreases written.len(),
{
    if written.len() > 0 {
        let rest = written.drop_last();
        assert forall|i: int| 0 <= i < rest.len() implies (#[trigger] rest[i]).0.len()
            != name.len() by {
            assert(rest[i] == written[i]);
        }
        lemma_none_written(rest, name);
    }
}

/// The members particular to a class are named otherwise than the rank: every
/// name has another length.
proof fn lemma_class_members_are_no_rank(class: ClassView)
    ensures
        last_written(class.members(), "severity_id"@) is None,
{
    reveal_strlit("severity_id");
    reveal_strlit("entity");
    reveal_strlit("actor");
    reveal_strlit("user");
    reveal_strlit("auth_protocol_id");
    reveal_strlit("auth_protocol");
    reveal_strlit("src_endpoint");
    reveal_strlit("state_id");
    reveal_strlit("state");
    reveal_strlit("finding_info");
    reveal_strlit("evidences");
    reveal_strlit("is_alert");
    let members = class.members();
    assert(forall|i: int|
        0 <= i < members.len() ==> (#[trigger] members[i]).0.len() != "severity_id"@.len());
    lemma_none_written(members, "severity_id"@);
}

/// The members that report the outcome and the surroundings are named otherwise
/// than the rank: every name has another length.
proof fn lemma_context_members_are_no_rank(base: BaseView)
    ensures
        last_written(base.context_members(), "severity_id"@) is None,
{
    reveal_strlit("severity_id");
    reveal_strlit("status_id");
    reveal_strlit("status");
    reveal_strlit("status_detail");
    reveal_strlit("message");
    reveal_strlit("metadata");
    reveal_strlit("device");
    reveal_strlit("container");
    reveal_strlit("unmapped");
    let status = base.status_members();
    assert(forall|i: int|
        0 <= i < status.len() ==> (#[trigger] status[i]).0.len() != "severity_id"@.len());
    let members = base.context_members();
    assert(forall|i: int|
        0 <= i < members.len() ==> (#[trigger] members[i]).0.len() != "severity_id"@.len());
    lemma_none_written(members, "severity_id"@);
}

/// No member but the event's rank is named like it.
proof fn lemma_rank_is_written_once(event: EventView)
    ensures
        last_written(event.members(), "severity_id"@) == Some(
            Json::Int(event.base.severity.id() as int),
        ),
{
    let name = "severity_id"@;
    let base = event.base;
    let rank = base.severity_members();
    let context = base.context_members();
    assert(last_written(rank, name) == Some(Json::Int(base.severity.id() as int))) by {
        reveal_strlit("severity_id");
        reveal_strlit("severity");
        reveal_with_fuel(last_written, 3);
        let first = seq![(name, Json::Int(base.severity.id() as int))];
        assert(rank =~= first.push(("severity"@, Json::Text(base.severity.name()))));
        assert(rank.drop_last() =~= first);
        assert(rank.last().0.len() != name.len());
    }
    lemma_class_members_are_no_rank(event.class);
    lemma_context_members_are_no_rank(base);
    lemma_last_written_in_turn(base.class_members(), rank, name);
    lemma_last_written_in_turn(base.class_members() + rank, context, name);
    lemma_last_written_in_turn(base.members(), event.class.members(), name);
}

/// The severity key is the prefix and the member name joined by a dot.
proof fn lemma_severity_key()
    ensures
        SEVERITY_ID_KEY@ == child_path(KEY_PREFIX@, "severity_id"@),
        dotless("severity_id"@),
{
    reveal_strlit("ocsf.severity_id");
    reveal_strlit("ocsf");
    reveal_strlit(".");
    reveal_strlit("severity_id");
    assert(SEVERITY_ID_KEY@ =~= child_path(KEY_PREFIX@, "severity_id"@));
}

/// Flattening an event writes its severity id, in decimal, under
/// [`SEVERITY_ID_KEY`], whatever else the event carries.
pub proof fn law_flattened_event_carries_its_severity(event: EventView)
    ensures
        lookup(flattened(event), SEVERITY_ID_KEY@) == Some(
            decimal(event.base.severity.id() as int),
        ),
{
    let written = event.members();
    let members = put_all(Seq::empty(), written);
    let name = "severity_id"@;
    lemma_rank_is_written_once(event);
    law_member_is_last_written(written, name);
    law_written_objects_ascend(written);
    let at = lemma_lookup_stands(members, name);
    lemma_severity_key();
    lemma_scalar_member_is_found(KEY_PREFIX@, members, at, members.len());
    let pairs = leaves(KEY_PREFIX@, event.document());
    assert(pairs == member_leaves(KEY_PREFIX@, members, members.len()));
    lemma_field_is_last_value(Seq::empty(), pairs, SEVERITY_ID_KEY@);
    let id = event.base.severity.id() as int;
    reveal_with_fuel(decimal_nat, 3);
    assert(decimal(id).len() <= MAX_VALUE_LEN);
}

/// The part of a document that a walk leads to: one step for each level, by
/// position among the members of an object or the items of an array. Arrays of
/// scalars are not entered.
pub open spec fn node_at(json: Json, steps: Seq<int>) -> Option<Json>
    decreases steps.len(),
{
    if steps.len() == 0 {
        Some(json)
    } else {
        match json {
            Json::Object(members) => if 0 <= steps[0] < members.len() {
                node_at(members[steps[0]].1, steps.drop_first())
            } else {
                None
            },
            Json::Array(items) => if !all_scalar(items) && 0 <= steps[0] < items.len() {
                node_at(items[steps[0]], steps.drop_first())
            } else {
                None
            },
            _ => None,
        }
    }
}

/// The dotted path of a walk: `path`, extended by the name of each member and
/// the index of each item on the way.
pub open spec fn key_at(path: Seq<char>, json: Json, steps: Seq<int>) -> Seq<char>
    decreases steps.len(),
{
    if steps.len() == 0 {
        path
    } else {
        match json {
            Json::Object(members) => key_at(
                child_path(path, members[steps[0]].0),
                members[steps[0]].1,
                steps.drop_first(),
            ),
            Json::Array(items) => key_at(
                child_path(path, decimal(steps[0])),
                items[steps[0]],
                steps.drop_first(),
            ),
            _ => path,
        }
    }
}

/// Whether a walk leads to something that is one value when flattened.
pub open spec fn leads_to_leaf(json: Json, steps: Seq<int>) -> bool {
    node_at(json, steps) matches Some(node) && leaf_text(node) is Some
}

/// Whether a walk leads to a leaf, and the pair is its dotted path and its text.
pub open spec fn is_leaf_at(
    path: Seq<char>,
    json: Json,
    steps: Seq<int>,
    pair: (Seq<char>, Seq<char>),
) -> bool {
    &&& leads_to_leaf(json, steps)
    &&& pair == (key_at(path, json, steps), truncated(leaf_text(node_at(json, steps)->0)->0))
}

/// Whether a pair is the dotted path and the text of a leaf.
pub open spec fn is_leaf(path: Seq<char>, json: Json, pair: (Seq<char>, Seq<char>)) -> bool {
    exists|steps: Seq<int>| is_leaf_at(path, json, steps, pair)
}

proof fn lemma_member_leaves_hold(
    path: Seq<char>,
    members: Seq<(Seq<char>, Json)>,
    at: int,
    n: nat,
    pair: (Seq<char>, Seq<char>),
)
    requires
        0 <= at < n <= members.len(),
        leaves(child_path(path, members[at].0), members[at].1).contains(pair),
    ensures
        member_leaves(path, members, n).contains(pair),
    decreases n,
{
    let before = member_leaves(path, members, (n - 1) as nat);
    let added = leaves(child_path(path, members[n - 1].0), members[n - 1].1);
    let all = member_leaves(path, members, n);
    assert(all == before + added);
    if at == n - 1 {
        let i = choose|i: int| 0 <= i < added.len() && added[i] == pair;
        assert(all[before.len() + i] == pair);
    } else {
        lemma_member_leaves_hold(path, members, at, (n - 1) as nat, pair);
        let i = choose|i: int| 0 <= i < before.len() && before[i] == pair;
        assert(all[i] == pair);
    }
}

proof fn lemma_item_leaves_hold(
    path: Seq<char>,
    items: Seq<Json>,
    at: int,
    n: nat,
    pair: (Seq<char>, Seq<char>),
)
    requires
        0 <= at < n <= items.len(),
        leaves(child_path(path, decimal(at)), items[at]).contains(pair),
    ensures
        item_leaves(path, items, n).contains(pair),
    decreases n,
{
    let before = item_leaves(path, items, (n - 1) as nat);
    let added = leaves(child_path(path, decimal(n - 1)), items[n - 1]);
    let all = item_leaves(path, items, n);
    assert(all == before + added);
    if at == n - 1 {
        let i = choose|i: int| 0 <= i < added.len() && added[i] == pair;
        assert(all[before.len() + i] == pair);
    } else {
        lemma_item_leaves_hold(path, items, at, (n - 1) as nat, pair);
        let i = choose|i: int| 0 <= i < before.len() && before[i] == pair;
        assert(all[i] == pair);
    }
}

/// Every leaf of a document is among its pairs, under its dotted path.
pub proof fn law_every_leaf_is_written(path: Seq<char>, json: Json, steps: Seq<int>)
    requires
        leads_to_leaf(json, steps),
    ensures
        leaves(path, json).contains(
            (key_at(path, json, steps), truncated(leaf_text(node_at(json, steps)->0)->0)),
        ),
    decreases steps.len(),
{
    let pair = (key_at(path, json, steps), truncated(leaf_text(node_at(json, steps)->0)->0));
    if steps.len() == 0 {
        assert(leaves(path, json) =~= seq![pair]);
        assert(leaves(path, json)[0] == pair);
    } else {
        let rest = steps.drop_first();
        match json {
            Json::Object(members) => {
                let child = child_path(path, members[steps[0]].0);
                law_every_leaf_is_written(child, members[steps[0]].1, rest);
                lemma_member_leaves_hold(path, members, steps[0], members.len(), pair);
            },
            Json::Array(items) => {
                let child = child_path(path, decimal(steps[0]));
                law_every_leaf_is_written(child, items[steps[0]], rest);
                lemma_item_leaves_hold(path, items, steps[0], items.len(), pair);
            },
            _ => {},
        }
    }
}

/// A walk that starts with one more step.
proof fn lemma_walk_from_above(
    path: Seq<char>,
    json: Json,
    first: int,
    rest: Seq<int>,
    pair: (Seq<char>, Seq<char>),
)
    requires
        match json {
            Json::Object(members) => 0 <= first < members.len() && is_leaf_at(
                child_path(path, members[first].0),
                members[first].1,
                rest,
                pair,
            ),
            Json::Array(items) => !all_scalar(items) && 0 <= first < items.len() && is_leaf_at(
                child_path(path, decimal(first)),
                items[first],
                rest,
                pair,
            ),
            _ => false,
        },
    ensures
        is_leaf_at(path, json, seq![first] + rest, pair),
{
    let steps = seq![first] + rest;
    assert(steps.drop_first() =~= rest);
    assert(steps[0] == first);
}

/// Every pair of a document belongs to a leaf of it.
proof fn lemma_every_pair_is_a_leaf(path: Seq<char>, json: Json, i: int) -> (steps: Seq<int>)
    requires
        0 <= i < leaves(path, json).len(),
    ensures
        is_leaf_at(path, json, steps, leaves(path, json)[i]),
    decreases json, 1nat,
{
    match json {
        Json::Object(members) => {
            assert(leaves(path, json) == member_leaves(path, members, members.len()));
            lemma_every_member_pair_is_a_leaf(path, json, members.len(), i)
        },
        Json::Array(items) => if all_scalar(items) {
            Seq::empty()
        } else {
            assert(leaves(path, json) == item_leaves(path, items, items.len()));
            lemma_every_item_pair_is_a_leaf(path, json, items.len(), i)
        },
        _ => Seq::empty(),
    }
}

proof fn lemma_every_member_pair_is_a_leaf(path: Seq<char>, json: Json, n: nat, i: int) -> (steps:
    Seq<int>)
    requires
        json is Object,
        n <= json->Object_0.len(),
        0 <= i < member_leaves(path, json->Object_0, n).len(),
    ensures
        is_leaf_at(path, json, steps, member_leaves(path, json->Object_0, n)[i]),
    decreases json, 0nat, n,
{
    let members = json->Object_0;
    let before = member_leaves(path, members, (n - 1) as nat);
    let child = child_path(path, members[n - 1].0);
    let added = leaves(child, members[n - 1].1);
    assert(member_leaves(path, members, n) == before + added);
    if i < before.len() {
        lemma_every_member_pair_is_a_leaf(path, json, (n - 1) as nat, i)
    } else {
        assert(decreases_to!(members[n - 1] => members[n - 1].1));
        let rest = lemma_every_pair_is_a_leaf(child, members[n - 1].1, i - before.len());
        lemma_walk_from_above(path, json, n - 1, rest, added[i - before.len()]);
        seq![n - 1] + rest
    }
}

proof fn lemma_every_item_pair_is_a_leaf(path: Seq<char>, json: Json, n: nat, i: int) -> (steps:
    Seq<int>)
    requires
        json is Array,
        !all_scalar(json->Array_0),
        n <= json->Array_0.len(),
        0 <= i < item_leaves(path, json->Array_0, n).len(),
    ensures
        is_leaf_at(path, json, steps, item_leaves(path, json->Array_0, n)[i]),
    decreases json, 0nat, n,
{
    let items = json->Array_0;
    let before = item_leaves(path, items, (n - 1) as nat);
    let child = child_path(path, decimal(n - 1));
    let added = leaves(child, items[n - 1]);
    assert(item_leaves(path, items, n) == before + added);
    if i < before.len() {
        lemma_every_item_pair_is_a_leaf(path, json, (n - 1) as nat, i)
    } else {
        let rest = lemma_every_pair_is_a_leaf(child, items[n - 1], i - before.len());
        lemma_walk_from_above(path, json, n - 1, rest, added[i - before.len()]);
        seq![n - 1] + rest
    }
}

proof fn lemma_a_written_key_has_a_value(
    pairs: Seq<(Seq<char>, Seq<char>)>,
    pair: (Seq<char>, Seq<char>),
)
    requires
        pairs.contains(pair),
    ensures
        last_value(pairs, pair.0) is Some,
    decreases pairs.len(),
{
    if pairs.last().0 != pair.0 {
        let i = choose|i: int| 0 <= i < pairs.len() && pairs[i] == pair;
        assert(pairs.drop_last()[i] == pair);
        lemma_a_written_key_has_a_value(pairs.drop_last(), pair);
    }
}

/// The fields of a flattened event are its leaves: every field is the dotted path
/// and the text of one, so that nothing stands at a null, an empty array or an
/// object; and every leaf has its field.
pub proof fn law_flattened_fields_are_the_leaves(event: EventView)
    ensures
        forall|i: int|
            0 <= i < flattened(event).len() ==> is_leaf(
                KEY_PREFIX@,
                event.document(),
                #[trigger] flattened(event)[i],
            ),
        forall|steps: Seq<int>| #[trigger]
            leads_to_leaf(event.document(), steps) ==> lookup(
                flattened(event),
                key_at(KEY_PREFIX@, event.document(), steps),
            ) is Some,
{
    let document = event.document();
    let pairs = leaves(KEY_PREFIX@, document);
    let good = |pair: (Seq<char>, Seq<char>)| is_leaf(KEY_PREFIX@, document, pair);
    assert forall|i: int| 0 <= i < pairs.len() implies good(#[trigger] pairs[i]) by {
        let steps = lemma_every_pair_is_a_leaf(KEY_PREFIX@, document, i);
        assert(is_leaf_at(KEY_PREFIX@, document, steps, pairs[i]));
    }
    lemma_fields_come_from_pairs(Seq::empty(), pairs, good);
    assert forall|i: int| 0 <= i < flattened(event).len() implies is_leaf(
        KEY_PREFIX@,
        document,
        #[trigger] flattened(event)[i],
    ) by {
        assert(good(flattened(event)[i]));
    }
    assert forall|steps: Seq<int>| #[trigger] leads_to_leaf(document, steps) implies lookup(
        flattened(event),
        key_at(KEY_PREFIX@, document, steps),
    ) is Some by {
        let key = key_at(KEY_PREFIX@, document, steps);
        law_every_leaf_is_written(KEY_PREFIX@, document, steps);
        lemma_a_written_key_has_a_value(
            pairs,
            (key, truncated(leaf_text(node_at(document, steps)->0)->0)),
        );
        lemma_field_is_last_value(Seq::empty(), pairs, key);
    }
}

/// A leaf whose dotted path no other leaf shares is found under it, with its own
/// text.
pub proof fn law_a_leaf_is_found_under_its_path(event: EventView, steps: Seq<int>)
    requires
        leads_to_leaf(event.document(), steps),
        forall|other: Seq<int>| #[trigger]
            leads_to_leaf(event.document(), other) && key_at(
                KEY_PREFIX@,
                event.document(),
                other,
            ) == key_at(KEY_PREFIX@, event.document(), steps) ==> other == steps,
    ensures
        lookup(flattened(event), key_at(KEY_PREFIX@, event.document(), steps)) == Some(
            truncated(leaf_text(node_at(event.document(), steps)->0)->0),
        ),
{
    let document = event.document();
    let key = key_at(KEY_PREFIX@, document, steps);
    law_flattened_fields_are_the_leaves(event);
    let at = lemma_lookup_stands(flattened(event), key);
    let other = choose|other: Seq<int>|
        is_leaf_at(KEY_PREFIX@, document, other, flattened(event)[at]);
    assert(is_leaf_at(KEY_PREFIX@, document, other, flattened(event)[at]));
    assert(leads_to_leaf(document, other));
}

/// The flattened and the raw form of an event rank it alike, and the rank reads
/// back as the severity the emitter assigned.
pub proof fn law_raw_and_flattened_rank_alike(event: EventView, text: Seq<char>)
    ensures
        lookup(raw(text, event.base.severity), SEVERITY_ID_KEY@) == lookup(
            flattened(event),
            SEVERITY_ID_KEY@,
        ),
        lookup(flattened(event), SEVERITY_ID_KEY@) is Some,
        spelled_u8(lookup(flattened(event), SEVERITY_ID_KEY@)->0) == Some(
            event.base.severity.id(),
        ),
{
    law_flattened_event_carries_its_severity(event);
    law_decimal_u8_parses_back(event.base.severity.id());
    reveal_strlit("ocsf.raw");
    reveal_strlit("ocsf.severity_id");
    assert(RAW_KEY@.len() != SEVERITY_ID_KEY@.len());
    let fields = raw(text, event.base.severity);
    reveal_with_fuel(lookup, 3);
    assert(fields.drop_first()[0] == fields[1]);
}

} // verus!
