//! JSON text in writing order.
//!
//! A `serde_json` tree keeps the members of an object in the order of their
//! names. Where members are to stand in the order they were written in, the
//! object is framed here, around texts that `serde_json` writes.

use crate::json::{
    compact_text, int_value, json_of, readable, same_but_doubles, text_value, write_compact, Json,
    MAX_NESTING,
};
use crate::ocsf::document::{int_member, object, optional_text_member, text_member, text_of};
use vstd::prelude::*;
use vstd::string::*;

verus! {

/// A document in writing order: a tree, or an object whose members stand in the
/// order they were written in.
pub enum Written {
    Tree(Json),
    Object(Seq<(Seq<char>, Written)>),
}

/// A member of a framed object: the name as a string, and the text of the value.
pub open spec fn pair_text(part: (Seq<char>, Seq<char>)) -> Seq<char> {
    compact_text(Json::Text(part.0)) + ":"@ + part.1
}

/// The members of a framed object, separated by `,`.
pub open spec fn listed(parts: Seq<(Seq<char>, Seq<char>)>) -> Seq<char>
    decreases parts.len(),
{
    if parts.len() == 0 {
        Seq::empty()
    } else if parts.len() == 1 {
        pair_text(parts[0])
    } else {
        listed(parts.drop_last()) + ","@ + pair_text(parts.last())
    }
}

/// The names and texts of the first `n` members.
pub open spec fn part_texts(members: Seq<(Seq<char>, Written)>, n: nat) -> Seq<
    (Seq<char>, Seq<char>),
>
    decreases members, n,
    when n <= members.len()
{
    if n == 0 {
        Seq::empty()
    } else {
        part_texts(members, (n - 1) as nat).push((members[n - 1].0, members[n - 1].1.text()))
    }
}

/// The names and documents of the first `n` members.
pub open spec fn part_documents(members: Seq<(Seq<char>, Written)>, n: nat) -> Seq<
    (Seq<char>, Json),
>
    decreases members, n,
    when n <= members.len()
{
    if n == 0 {
        Seq::empty()
    } else {
        part_documents(members, (n - 1) as nat).push(
            (members[n - 1].0, members[n - 1].1.document()),
        )
    }
}

/// The members of an object whose values are trees.
pub open spec fn trees(members: Seq<(Seq<char>, Json)>) -> Seq<(Seq<char>, Written)> {
    members.map_values(|member: (Seq<char>, Json)| (member.0, Written::Tree(member.1)))
}

impl Written {
    /// The compact text: a tree's own, or the members in writing order.
    pub open spec fn text(self) -> Seq<char>
        decreases self,
    {
        match self {
            Written::Tree(json) => compact_text(json),
            Written::Object(members) => "{"@ + listed(part_texts(members, members.len())) + "}"@,
        }
    }

    /// The document, in which members stand in the order of their names.
    pub open spec fn document(self) -> Json
        decreases self,
    {
        match self {
            Written::Tree(json) => json,
            Written::Object(members) => object(part_documents(members, members.len())),
        }
    }

    /// Whether a reader gets through the text: the trees are such as `serde_json`
    /// holds, and at most `levels` arrays and objects stand inside one another.
    pub open spec fn readable(self, levels: nat, doubles: bool) -> bool
        decreases self,
    {
        match self {
            Written::Tree(json) => readable(json, levels, doubles),
            Written::Object(members) => levels > 0 && forall|i: int|
                0 <= i < members.len() ==> (#[trigger] members[i]).1.readable(
                    (levels - 1) as nat,
                    doubles,
                ),
        }
    }
}

/// The document that a text spells, as `serde_json::from_str` reads it.
pub uninterp spec fn spelled_document(text: Seq<char>) -> Option<Json>;

/// The document that was read, if any was.
pub open spec fn outcome_of(document: Result<serde_json::Value, serde_json::Error>) -> Option<
    Json,
> {
    match document {
        Ok(value) => Some(json_of(value)),
        Err(_) => None,
    }
}

/// Whether reading a text gave back what was written, whatever that was, but for
/// the values of doubles.
pub open spec fn faithful(text: Seq<char>, read: Option<Json>) -> bool {
    forall|written: Written|
        text == #[trigger] written.text() && written.readable(MAX_NESTING as nat, true)
            ==> (read matches Some(document) && same_but_doubles(document, written.document()))
}

/// The tree that a text spells, from `serde_json::from_str`.
///
/// Trusted: whether there is one, and which document it holds, depends on the
/// text alone. The compact text of a document spells that document, in whatever
/// order members stand, as long as it is not nested deeper than a reader goes; but
/// a double may come back as another double, since the reader does not round
/// exactly. No finite double's text reads as infinite, so none is refused.
#[verifier::external_body]
pub(crate) fn read_text(text: &str) -> (document: Result<serde_json::Value, serde_json::Error>)
    ensures
        outcome_of(document) == spelled_document(text@),
        faithful(text@, outcome_of(document)),
{
    serde_json::from_str(text)
}

/// Trees written as members are the members of the document.
pub(crate) proof fn lemma_trees_are_the_document(members: Seq<(Seq<char>, Json)>, n: nat)
    requires
        n <= members.len(),
    ensures
        part_documents(trees(members), n) == members.take(n as int),
    decreases n,
{
    if n == 0 {
        assert(members.take(0) =~= Seq::empty());
    } else {
        lemma_trees_are_the_document(members, (n - 1) as nat);
        let tree = trees(members)[n - 1];
        assert(tree == (members[n - 1].0, Written::Tree(members[n - 1].1)));
        assert(tree.1.document() == members[n - 1].1);
        assert(members.take(n as int) =~= members.take(n - 1).push(members[n - 1]));
    }
}

/// The first members of a longer list have the documents they had.
proof fn lemma_earlier_documents_stay(
    members: Seq<(Seq<char>, Written)>,
    more: Seq<(Seq<char>, Written)>,
    n: nat,
)
    requires
        n <= members.len(),
    ensures
        part_documents(members + more, n) == part_documents(members, n),
    decreases n,
{
    if n > 0 {
        lemma_earlier_documents_stay(members, more, (n - 1) as nat);
    }
}

/// Members written in turn have the documents of both.
pub(crate) proof fn lemma_documents_in_turn(
    first: Seq<(Seq<char>, Written)>,
    second: Seq<(Seq<char>, Written)>,
    n: nat,
)
    requires
        n <= second.len(),
    ensures
        part_documents(first + second, first.len() + n) == part_documents(first, first.len())
            + part_documents(second, n),
    decreases n,
{
    let all = first + second;
    if n == 0 {
        lemma_earlier_documents_stay(first, second, first.len());
        assert(part_documents(first, first.len()) + Seq::<(Seq<char>, Json)>::empty()
            =~= part_documents(first, first.len()));
    } else {
        lemma_documents_in_turn(first, second, (n - 1) as nat);
        assert(all[first.len() + n - 1] == second[n - 1]);
        assert(part_documents(all, first.len() + n) =~= part_documents(first, first.len())
            + part_documents(second, n));
    }
}

/// A tree that is readable without doubles is readable where they are allowed.
proof fn lemma_tree_readable_with_doubles(json: Json, levels: nat)
    requires
        readable(json, levels, false),
    ensures
        readable(json, levels, true),
    decreases json,
{
    match json {
        Json::Array(items) => {
            assert forall|i: int| 0 <= i < items.len() implies readable(
                #[trigger] items[i],
                (levels - 1) as nat,
                true,
            ) by {
                lemma_tree_readable_with_doubles(items[i], (levels - 1) as nat);
            }
        },
        Json::Object(members) => {
            assert forall|i: int| 0 <= i < members.len() implies readable(
                (#[trigger] members[i]).1,
                (levels - 1) as nat,
                true,
            ) by {
                assert(decreases_to!(members[i] => members[i].1));
                lemma_tree_readable_with_doubles(members[i].1, (levels - 1) as nat);
            }
        },
        _ => {},
    }
}

/// What is readable without doubles is readable where they are allowed.
pub proof fn law_readable_with_doubles(written: Written, levels: nat)
    requires
        written.readable(levels, false),
    ensures
        written.readable(levels, true),
    decreases written,
{
    match written {
        Written::Tree(json) => lemma_tree_readable_with_doubles(json, levels),
        Written::Object(members) => {
            assert forall|i: int| 0 <= i < members.len() implies (
            #[trigger] members[i]).1.readable((levels - 1) as nat, true) by {
                assert(decreases_to!(members[i] => members[i].1));
                law_readable_with_doubles(members[i].1, (levels - 1) as nat);
            }
        },
    }
}

/// Without doubles, the same but for doubles is the same.
pub proof fn law_same_without_doubles(a: Json, b: Json, levels: nat)
    requires
        same_but_doubles(a, b),
        readable(b, levels, false),
    ensures
        a == b,
    decreases b,
{
    match (a, b) {
        (Json::Array(these), Json::Array(those)) => {
            assert forall|i: int| 0 <= i < those.len() implies these[i] == #[trigger] those[i] by {
                law_same_without_doubles(these[i], those[i], (levels - 1) as nat);
            }
            assert(these =~= those);
        },
        (Json::Object(these), Json::Object(those)) => {
            assert forall|i: int| 0 <= i < those.len() implies these[i] == #[trigger] those[i] by {
                assert(decreases_to!(those[i] => those[i].1));
                law_same_without_doubles(these[i].1, those[i].1, (levels - 1) as nat);
            }
            assert(these =~= those);
        },
        _ => {},
    }
}

/// The first members of a longer list have the texts they had.
proof fn lemma_earlier_texts_stay(
    members: Seq<(Seq<char>, Written)>,
    more: Seq<(Seq<char>, Written)>,
    n: nat,
)
    requires
        n <= members.len(),
    ensures
        part_texts(members + more, n) == part_texts(members, n),
        part_texts(members, n).len() == n,
    decreases n,
{
    if n > 0 {
        lemma_earlier_texts_stay(members, more, (n - 1) as nat);
    }
}

/// A framed object is its members in writing order, between braces and with
/// commas between them; each is its name as a string, a colon, and its value.
pub proof fn law_framed_objects_list_their_members(
    members: Seq<(Seq<char>, Written)>,
    name: Seq<char>,
    value: Written,
)
    ensures
        Written::Object(Seq::empty()).text() == "{"@ + Seq::<char>::empty() + "}"@,
        exists|list: Seq<char>|
            {
                &&& Written::Object(members).text() == #[trigger] ("{"@ + list + "}"@)
                &&& members.len() == 0 ==> Written::Object(members.push((name, value))).text()
                    == "{"@ + (compact_text(Json::Text(name)) + ":"@ + value.text()) + "}"@
                &&& members.len() > 0 ==> Written::Object(members.push((name, value))).text()
                    == "{"@ + (list + ","@ + (compact_text(Json::Text(name)) + ":"@
                    + value.text())) + "}"@
            },
{
    let none = Seq::<(Seq<char>, Written)>::empty();
    assert(part_texts(none, 0) =~= Seq::empty());
    let added = seq![(name, value)];
    let all = members.push((name, value));
    assert(all =~= members + added);
    lemma_earlier_texts_stay(members, added, members.len());
    lemma_earlier_texts_stay(all, added, all.len());
    let before = part_texts(members, members.len());
    let after = part_texts(all, all.len());
    assert(after == before.push((name, value.text())));
    assert(after.drop_last() =~= before);
    let list = listed(before);
    assert(Written::Object(members).text() == "{"@ + list + "}"@);
}

/// The members of an object being framed.
pub(crate) struct Parts {
    listed: String,
    written: Ghost<Seq<(Seq<char>, Written)>>,
}

impl Parts {
    /// Whether the text lists exactly what was written.
    pub closed spec fn wf(self) -> bool {
        self.listed@ == listed(part_texts(self.written@, self.written@.len()))
            && (self.listed@.len() == 0 <==> self.written@.len() == 0)
    }

    /// The members written so far, in writing order.
    pub closed spec fn written(self) -> Seq<(Seq<char>, Written)> {
        self.written@
    }

    /// Nothing written yet.
    pub fn new() -> (parts: Parts)
        ensures
            parts.wf(),
            parts.written() == Seq::<(Seq<char>, Written)>::empty(),
    {
        Parts { listed: String::new(), written: Ghost(Seq::empty()) }
    }

    /// Write a member whose value has the given text.
    pub fn part(&mut self, name: &str, text: &str, Ghost(written): Ghost<Written>)
        requires
            old(self).wf(),
            text@ == written.text(),
        ensures
            final(self).wf(),
            final(self).written() == old(self).written() + seq![(name@, written)],
    {
        let ghost before = self.written@;
        let ghost after = before + seq![(name@, written)];
        proof {
            lemma_earlier_texts_stay(before, seq![(name@, written)], before.len());
            let texts = part_texts(after, after.len());
            assert(texts == part_texts(before, before.len()).push((name@, written.text())));
            assert(texts.drop_last() =~= part_texts(before, before.len()));
            reveal_strlit(":");
            reveal_strlit(",");
        }
        if !self.listed.as_str().is_empty() {
            self.listed.append(",");
        }
        let spelled = compact(&text_value(name.to_owned()));
        self.listed.append(spelled.as_str());
        self.listed.append(":");
        self.listed.append(text);
        proof {
            self.written@ = after;
            assert(self.listed@ =~= listed(part_texts(after, after.len())));
        }
    }

    /// Write a member that is a tree.
    pub fn tree(&mut self, name: &str, value: &serde_json::Value)
        requires
            old(self).wf(),
        ensures
            final(self).wf(),
            final(self).written() == old(self).written() + trees(seq![(name@, json_of(*value))]),
    {
        let text = compact(value);
        self.part(name, text.as_str(), Ghost(Written::Tree(json_of(*value))));
        proof {
            assert(trees(seq![(name@, json_of(*value))]) =~= seq![
                (name@, Written::Tree(json_of(*value))),
            ]);
        }
    }

    /// Write a text member.
    pub fn text(&mut self, name: &str, text: &str)
        requires
            old(self).wf(),
        ensures
            final(self).wf(),
            final(self).written() == old(self).written() + trees(text_member(name@, text@)),
    {
        self.tree(name, &text_value(text.to_owned()));
    }

    /// Write an integer member.
    pub fn number(&mut self, name: &str, number: i64)
        requires
            old(self).wf(),
        ensures
            final(self).wf(),
            final(self).written() == old(self).written() + trees(int_member(name@, number as int)),
    {
        self.tree(name, &int_value(number));
    }

    /// Write a text member where there is a text.
    pub fn optional_text(&mut self, name: &str, text: &Option<String>)
        requires
            old(self).wf(),
        ensures
            final(self).wf(),
            final(self).written() == old(self).written() + trees(
                optional_text_member(name@, text_of(*text)),
            ),
    {
        if let Some(t) = text {
            self.text(name, t.as_str());
        } else {
            proof {
                assert(self.written() + trees(Seq::empty()) =~= self.written());
            }
        }
    }

    /// The finished object.
    pub fn finish(self) -> (text: String)
        requires
            self.wf(),
        ensures
            text@ == Written::Object(self.written()).text(),
    {
        "{".to_owned().concat(self.listed.as_str()).concat("}")
    }
}

/// The compact text of a tree. Writing to memory does not fail.
fn compact(value: &serde_json::Value) -> (text: String)
    ensures
        text@ == compact_text(json_of(*value)),
{
    match write_compact(value) {
        Ok(text) => text,
        Err(_) => String::new(),
    }
}

} // verus!
