//! Writing a document member by member.
//!
//! A document's object is described by the list of members it was written
//! with, in writing order. Writing the list is [`put_all`].

use crate::json::{
    array_value, ascending, empty_object, int_value, json_of, jsons_of, members_of, object_value, put,
    put_member, sorts_before, text_value, Json,
};
use crate::phrases::unnamed;
use crate::string_map::{keys_distinct, lookup};
use vstd::prelude::*;

verus! {

/// The members of an object after writing `written`, first to last.
pub open spec fn put_all(
    members: Seq<(Seq<char>, Json)>,
    written: Seq<(Seq<char>, Json)>,
) -> Seq<(Seq<char>, Json)>
    decreases written.len(),
{
    if written.len() == 0 {
        members
    } else {
        put(put_all(members, written.drop_last()), written.last().0, written.last().1)
    }
}

/// The object written with the given members.
pub open spec fn object(written: Seq<(Seq<char>, Json)>) -> Json {
    Json::Object(put_all(Seq::empty(), written))
}

/// A text member.
pub open spec fn text_member(name: Seq<char>, text: Seq<char>) -> Seq<(Seq<char>, Json)> {
    seq![(name, Json::Text(text))]
}

/// An integer member.
pub open spec fn int_member(name: Seq<char>, number: int) -> Seq<(Seq<char>, Json)> {
    seq![(name, Json::Int(number))]
}

/// A text member, left out when there is no text.
pub open spec fn optional_text_member(name: Seq<char>, text: Option<Seq<char>>) -> Seq<
    (Seq<char>, Json),
> {
    match text {
        Some(t) => text_member(name, t),
        None => Seq::empty(),
    }
}

/// A member of any kind, left out when absent.
pub open spec fn optional_member(name: Seq<char>, json: Option<Json>) -> Seq<(Seq<char>, Json)> {
    match json {
        Some(j) => seq![(name, j)],
        None => Seq::empty(),
    }
}

/// The document of an optional value.
pub open spec fn json_of_option(value: Option<serde_json::Value>) -> Option<Json> {
    match value {
        Some(v) => Some(json_of(v)),
        None => None,
    }
}

/// The characters of an optional string.
pub open spec fn text_of(text: Option<String>) -> Option<Seq<char>> {
    match text {
        Some(t) => Some(t@),
        None => None,
    }
}

/// The characters of each string of a list.
pub open spec fn texts_of(texts: Seq<String>) -> Seq<Seq<char>> {
    texts.map_values(|text: String| text@)
}

/// A list of texts as a document.
pub open spec fn text_array(texts: Seq<Seq<char>>) -> Json {
    Json::Array(texts.map_values(|text: Seq<char>| Json::Text(text)))
}

/// Reading after a write gives the written member and leaves others alone.
proof fn lemma_lookup_after_put(
    members: Seq<(Seq<char>, Json)>,
    name: Seq<char>,
    value: Json,
    other: Seq<char>,
)
    ensures
        lookup(put(members, name, value), other) == if other == name {
            Some(value)
        } else {
            lookup(members, other)
        },
    decreases members.len(),
{
    if members.len() == 0 {
        reveal_with_fuel(lookup, 2);
        assert(seq![(name, value)].drop_first() =~= Seq::<(Seq<char>, Json)>::empty());
    } else if members[0].0 == name {
        assert((seq![(name, value)] + members.drop_first()).drop_first() =~= members.drop_first());
    } else if sorts_before(name, members[0].0) {
        assert((seq![(name, value)] + members).drop_first() =~= members);
    } else {
        let rest = put(members.drop_first(), name, value);
        lemma_lookup_after_put(members.drop_first(), name, value, other);
        assert((seq![members[0]] + rest).drop_first() =~= rest);
    }
}

/// The last member written under `name`.
pub open spec fn last_written(written: Seq<(Seq<char>, Json)>, name: Seq<char>) -> Option<Json>
    decreases written.len(),
{
    if written.len() == 0 {
        None
    } else if written.last().0 == name {
        Some(written.last().1)
    } else {
        last_written(written.drop_last(), name)
    }
}

/// Of several members written under one name, the last one counts.
pub proof fn law_the_last_of_a_name_is_written(written: Seq<(Seq<char>, Json)>, at: int)
    requires
        0 <= at < written.len(),
        forall|j: int| at < j < written.len() ==> (#[trigger] written[j]).0 != written[at].0,
    ensures
        last_written(written, written[at].0) == Some(written[at].1),
    decreases written.len(),
{
    if at < written.len() - 1 {
        let rest = written.drop_last();
        assert(written.last() == written[written.len() - 1]);
        assert forall|j: int| at < j < rest.len() implies (#[trigger] rest[j]).0
            != rest[at].0 by {
            assert(rest[j] == written[j]);
        }
        law_the_last_of_a_name_is_written(rest, at);
    }
}

/// What is never written is not there.
pub proof fn law_what_is_never_written_is_not_there(written: Seq<(Seq<char>, Json)>, name: Seq<char>)
    requires
        unnamed(written, name),
    ensures
        last_written(written, name) is None,
    decreases written.len(),
{
    if written.len() > 0 {
        let rest = written.drop_last();
        assert(written.last() == written[written.len() - 1]);
        assert forall|i: int| 0 <= i < rest.len() implies (#[trigger] rest[i]).0 != name by {
            assert(rest[i] == written[i]);
        }
        law_what_is_never_written_is_not_there(rest, name);
    }
}

/// An object's member is the last one written under its name.
pub proof fn law_member_is_last_written(written: Seq<(Seq<char>, Json)>, name: Seq<char>)
    ensures
        lookup(put_all(Seq::empty(), written), name) == last_written(written, name),
    decreases written.len(),
{
    if written.len() > 0 {
        law_member_is_last_written(written.drop_last(), name);
        lemma_lookup_after_put(
            put_all(Seq::empty(), written.drop_last()),
            written.last().0,
            written.last().1,
            name,
        );
    }
}

/// Lists read from the back: the second list hides the first.
pub proof fn lemma_last_written_in_turn(
    first: Seq<(Seq<char>, Json)>,
    second: Seq<(Seq<char>, Json)>,
    name: Seq<char>,
)
    ensures
        last_written(first + second, name) == match last_written(second, name) {
            Some(json) => Some(json),
            None => last_written(first, name),
        },
    decreases second.len(),
{
    if second.len() == 0 {
        assert(first + second =~= first);
    } else {
        lemma_last_written_in_turn(first, second.drop_last(), name);
        assert((first + second).drop_last() =~= first + second.drop_last());
    }
}

proof fn lemma_sorts_before_irreflexive(a: Seq<char>)
    ensures
        !sorts_before(a, a),
    decreases a.len(),
{
    if a.len() > 0 {
        lemma_sorts_before_irreflexive(a.drop_first());
    }
}

proof fn lemma_sorts_before_transitive(a: Seq<char>, b: Seq<char>, c: Seq<char>)
    requires
        sorts_before(a, b),
        sorts_before(b, c),
    ensures
        sorts_before(a, c),
    decreases a.len(),
{
    if a.len() > 0 && a[0] == b[0] && b[0] == c[0] {
        lemma_sorts_before_transitive(a.drop_first(), b.drop_first(), c.drop_first());
    }
}

proof fn lemma_sorts_before_total(a: Seq<char>, b: Seq<char>)
    ensures
        a == b || sorts_before(a, b) || sorts_before(b, a),
    decreases a.len(),
{
    if a.len() == 0 && b.len() == 0 {
        assert(a =~= b);
    } else if a.len() > 0 && b.len() > 0 && a[0] == b[0] {
        lemma_sorts_before_total(a.drop_first(), b.drop_first());
        if a.drop_first() == b.drop_first() {
            assert(a =~= seq![a[0]] + a.drop_first());
            assert(b =~= seq![b[0]] + b.drop_first());
        }
    }
}

/// Every member of an object after a write is the written one or was there.
proof fn lemma_put_members(
    members: Seq<(Seq<char>, Json)>,
    name: Seq<char>,
    value: Json,
    at: int,
)
    requires
        0 <= at < put(members, name, value).len(),
    ensures
        put(members, name, value)[at].0 == name || exists|i: int|
            0 <= i < members.len() && (#[trigger] members[i]).0 == put(
                members,
                name,
                value,
            )[at].0,
    decreases members.len(),
{
    if members.len() > 0 && members[0].0 != name && !sorts_before(name, members[0].0) {
        let rest = members.drop_first();
        let after = put(rest, name, value);
        if at == 0 {
            assert(members[0].0 == put(members, name, value)[0].0);
        } else {
            lemma_put_members(rest, name, value, at - 1);
            assert(put(members, name, value)[at] == after[at - 1]);
            if after[at - 1].0 != name {
                let i = choose|i: int|
                    0 <= i < rest.len() && (#[trigger] rest[i]).0 == after[at - 1].0;
                assert(members[i + 1] == rest[i]);
            }
        }
    } else if members.len() > 0 && at > 0 {
        if members[0].0 == name {
            assert(put(members, name, value)[at] == members[at]);
        } else {
            assert(put(members, name, value)[at] == members[at - 1]);
        }
    }
}

/// A write keeps members in ascending order.
proof fn lemma_put_ascending(members: Seq<(Seq<char>, Json)>, name: Seq<char>, value: Json)
    requires
        ascending(members),
    ensures
        ascending(put(members, name, value)),
    decreases members.len(),
{
    let after = put(members, name, value);
    if members.len() == 0 {
    } else if members[0].0 == name {
        assert forall|i: int, j: int| 0 <= i < j < after.len() implies sorts_before(
            (#[trigger] after[i]).0,
            (#[trigger] after[j]).0,
        ) by {
            assert(after[j] == members[j]);
            if i > 0 {
                assert(after[i] == members[i]);
            } else {
                assert(sorts_before(members[0].0, members[j].0));
            }
        }
    } else if sorts_before(name, members[0].0) {
        assert forall|i: int, j: int| 0 <= i < j < after.len() implies sorts_before(
            (#[trigger] after[i]).0,
            (#[trigger] after[j]).0,
        ) by {
            assert(after[j] == members[j - 1]);
            if i > 0 {
                assert(after[i] == members[i - 1]);
                assert(sorts_before(members[i - 1].0, members[j - 1].0));
            } else if j > 1 {
                assert(sorts_before(members[0].0, members[j - 1].0));
                lemma_sorts_before_transitive(name, members[0].0, members[j - 1].0);
            }
        }
    } else {
        let rest = members.drop_first();
        assert(ascending(rest)) by {
            assert forall|i: int, j: int| 0 <= i < j < rest.len() implies sorts_before(
                (#[trigger] rest[i]).0,
                (#[trigger] rest[j]).0,
            ) by {
                assert(rest[i] == members[i + 1]);
                assert(rest[j] == members[j + 1]);
            }
        }
        lemma_put_ascending(rest, name, value);
        let tail = put(rest, name, value);
        lemma_sorts_before_total(name, members[0].0);
        assert forall|i: int, j: int| 0 <= i < j < after.len() implies sorts_before(
            (#[trigger] after[i]).0,
            (#[trigger] after[j]).0,
        ) by {
            assert(after[j] == tail[j - 1]);
            if i > 0 {
                assert(after[i] == tail[i - 1]);
            } else {
                lemma_put_members(rest, name, value, j - 1);
                if tail[j - 1].0 != name {
                    let k = choose|k: int|
                        0 <= k < rest.len() && (#[trigger] rest[k]).0 == tail[j - 1].0;
                    assert(rest[k] == members[k + 1]);
                    assert(sorts_before(members[0].0, members[k + 1].0));
                }
            }
        }
    }
}

/// However it is written, an object's members ascend by name, so no name
/// occurs twice.
pub proof fn law_written_objects_ascend(written: Seq<(Seq<char>, Json)>)
    ensures
        ascending(put_all(Seq::empty(), written)),
        keys_distinct(put_all(Seq::empty(), written)),
    decreases written.len(),
{
    let members = put_all(Seq::empty(), written);
    if written.len() > 0 {
        law_written_objects_ascend(written.drop_last());
        lemma_put_ascending(
            put_all(Seq::empty(), written.drop_last()),
            written.last().0,
            written.last().1,
        );
    }
    assert forall|i: int, j: int| 0 <= i < j < members.len() implies (#[trigger] members[i]).0 != (
    #[trigger] members[j]).0 by {
        assert(sorts_before(members[i].0, members[j].0));
        lemma_sorts_before_irreflexive(members[i].0);
    }
}

/// What was written before a run of members, the run so far, and the next
/// members, taken in either order.
pub(crate) proof fn lemma_written_in_turn(
    before: Seq<(Seq<char>, Json)>,
    run: Seq<(Seq<char>, Json)>,
    next: Seq<(Seq<char>, Json)>,
)
    ensures
        before + (run + next) == (before + run) + next,
{
    assert(before + (run + next) =~= (before + run) + next);
}

/// An object being written.
pub(crate) struct Document {
    object: serde_json::Map<String, serde_json::Value>,
    written: Ghost<Seq<(Seq<char>, Json)>>,
}

impl Document {
    /// Whether the object holds exactly what was written.
    pub closed spec fn wf(self) -> bool {
        members_of(self.object) == put_all(Seq::empty(), self.written@)
    }

    /// The members written so far, in writing order.
    pub closed spec fn written(self) -> Seq<(Seq<char>, Json)> {
        self.written@
    }

    /// Nothing written yet.
    pub fn new() -> (document: Document)
        ensures
            document.wf(),
            document.written() == Seq::<(Seq<char>, Json)>::empty(),
    {
        Document { object: empty_object(), written: Ghost(Seq::empty()) }
    }

    /// Write a member.
    pub fn value(&mut self, name: &str, value: serde_json::Value)
        requires
            old(self).wf(),
        ensures
            final(self).wf(),
            final(self).written() == old(self).written() + seq![(name@, json_of(value))],
    {
        put_member(&mut self.object, name.to_owned(), value);
        proof {
            let after = self.written@ + seq![(name@, json_of(value))];
            assert(after.drop_last() =~= self.written@);
            self.written@ = after;
        }
    }

    /// Write a text member.
    pub fn text(&mut self, name: &str, text: &str)
        requires
            old(self).wf(),
        ensures
            final(self).wf(),
            final(self).written() == old(self).written() + text_member(name@, text@),
    {
        self.value(name, text_value(text.to_owned()));
    }

    /// Write an integer member.
    pub fn number(&mut self, name: &str, number: i64)
        requires
            old(self).wf(),
        ensures
            final(self).wf(),
            final(self).written() == old(self).written() + int_member(name@, number as int),
    {
        self.value(name, int_value(number));
    }

    /// Write a text member where there is a text.
    pub fn optional_text(&mut self, name: &str, text: &Option<String>)
        requires
            old(self).wf(),
        ensures
            final(self).wf(),
            final(self).written() == old(self).written() + optional_text_member(
                name@,
                text_of(*text),
            ),
    {
        if let Some(t) = text {
            self.text(name, t.as_str());
        } else {
            proof {
                assert(self.written() + Seq::<(Seq<char>, Json)>::empty() =~= self.written());
            }
        }
    }

    /// Write a member where there is a value.
    pub fn optional_value(&mut self, name: &str, value: Option<serde_json::Value>)
        requires
            old(self).wf(),
        ensures
            final(self).wf(),
            final(self).written() == old(self).written() + optional_member(
                name@,
                json_of_option(value),
            ),
    {
        if let Some(v) = value {
            self.value(name, v);
        } else {
            proof {
                assert(self.written() + Seq::<(Seq<char>, Json)>::empty() =~= self.written());
            }
        }
    }

    /// The finished document.
    pub fn finish(self) -> (value: serde_json::Value)
        requires
            self.wf(),
        ensures
            json_of(value) == object(self.written()),
    {
        object_value(self.object)
    }
}

/// A list of texts as an array document.
pub(crate) fn text_array_value(texts: &Vec<String>) -> (value: serde_json::Value)
    ensures
        json_of(value) == text_array(texts_of(texts@)),
{
    let mut items: Vec<serde_json::Value> = Vec::new();
    let mut i: usize = 0;
    while i < texts.len()
        invariant
            i <= texts@.len(),
            items@.len() == i,
            forall|j: int| 0 <= j < i ==> json_of(#[trigger] items@[j]) == Json::Text(texts@[j]@),
        decreases texts@.len() - i,
    {
        items.push(text_value(texts[i].clone()));
        i = i + 1;
    }
    proof {
        assert(jsons_of(items@) =~= texts_of(texts@).map_values(
            |text: Seq<char>| Json::Text(text),
        ));
    }
    array_value(items)
}

} // verus!
