//! A map keyed by text that remembers the order in which keys first arrived.

use crate::phrases::{lemma_named_at, named, unnamed};
use crate::text::same_text;
use vstd::prelude::*;

verus! {

/// What `key` maps to in a list of entries: the first match.
pub open spec fn lookup<T>(entries: Seq<(Seq<char>, T)>, key: Seq<char>) -> Option<T>
    decreases entries.len(),
{
    if entries.len() == 0 {
        None
    } else if entries[0].0 == key {
        Some(entries[0].1)
    } else {
        lookup(entries.drop_first(), key)
    }
}

/// The entries after writing `value` under `key`: in place where the key is
/// present, at the end where it is not.
pub open spec fn upsert<T>(entries: Seq<(Seq<char>, T)>, key: Seq<char>, value: T) -> Seq<
    (Seq<char>, T),
>
    decreases entries.len(),
{
    if entries.len() == 0 {
        seq![(key, value)]
    } else if entries[0].0 == key {
        seq![(key, value)] + entries.drop_first()
    } else {
        seq![entries[0]] + upsert(entries.drop_first(), key, value)
    }
}

/// The entries whose key is not `key`.
pub open spec fn without<T>(entries: Seq<(Seq<char>, T)>, key: Seq<char>) -> Seq<(Seq<char>, T)>
    decreases entries.len(),
{
    if entries.len() == 0 {
        entries
    } else if entries[0].0 == key {
        without(entries.drop_first(), key)
    } else {
        seq![entries[0]] + without(entries.drop_first(), key)
    }
}

/// Whether no two entries share a key.
pub open spec fn keys_distinct<T>(entries: Seq<(Seq<char>, T)>) -> bool {
    forall|i: int, j: int|
        0 <= i < j < entries.len() ==> (#[trigger] entries[i]).0 != (#[trigger] entries[j]).0
}

/// Reading after a write gives the written value under its key and leaves
/// every other key alone.
pub proof fn law_lookup_after_upsert<T>(
    entries: Seq<(Seq<char>, T)>,
    key: Seq<char>,
    value: T,
    other: Seq<char>,
)
    ensures
        lookup(upsert(entries, key, value), other) == if other == key {
            Some(value)
        } else {
            lookup(entries, other)
        },
    decreases entries.len(),
{
    if entries.len() == 0 {
        reveal_with_fuel(lookup, 2);
        assert(seq![(key, value)].drop_first() =~= Seq::<(Seq<char>, T)>::empty());
    } else if entries[0].0 == key {
        let after = seq![(key, value)] + entries.drop_first();
        assert(after.drop_first() =~= entries.drop_first());
    } else {
        law_lookup_after_upsert(entries.drop_first(), key, value, other);
        let after = seq![entries[0]] + upsert(entries.drop_first(), key, value);
        assert(after.drop_first() =~= upsert(entries.drop_first(), key, value));
    }
}

/// A removed key reads as absent, and every other key is left alone.
pub proof fn law_lookup_after_without<T>(
    entries: Seq<(Seq<char>, T)>,
    key: Seq<char>,
    other: Seq<char>,
)
    ensures
        lookup(without(entries, key), other) == if other == key {
            None
        } else {
            lookup(entries, other)
        },
    decreases entries.len(),
{
    if entries.len() > 0 {
        law_lookup_after_without(entries.drop_first(), key, other);
        if entries[0].0 != key {
            let after = seq![entries[0]] + without(entries.drop_first(), key);
            assert(after.drop_first() =~= without(entries.drop_first(), key));
        }
    }
}

/// A key that no entry carries reads as absent, and the other way round.
pub proof fn lemma_lookup_none<T>(entries: Seq<(Seq<char>, T)>, key: Seq<char>)
    ensures
        lookup(entries, key) is None <==> forall|i: int|
            0 <= i < entries.len() ==> (#[trigger] entries[i]).0 != key,
    decreases entries.len(),
{
    if entries.len() > 0 {
        let rest = entries.drop_first();
        lemma_lookup_none(rest, key);
        assert(forall|i: int| 0 <= i < rest.len() ==> #[trigger] rest[i] == entries[i + 1]);
        assert(forall|i: int| 1 <= i < entries.len() ==> #[trigger] entries[i] == rest[i - 1]);
    }
}

/// A lookup finds the value of the first entry under a key, and nothing where no
/// entry has it.
pub proof fn law_lookup_is_the_first_match<T>(
    entries: Seq<(Seq<char>, T)>,
    key: Seq<char>,
    value: T,
)
    ensures
        lookup(entries, key) == Some(value) <==> named(entries, key, value),
        lookup(entries, key) is None <==> unnamed(entries, key),
    decreases entries.len(),
{
    lemma_lookup_none(entries, key);
    if entries.len() > 0 {
        let rest = entries.drop_first();
        law_lookup_is_the_first_match(rest, key, value);
        assert(forall|i: int| 0 <= i < rest.len() ==> #[trigger] rest[i] == entries[i + 1]);
        if entries[0].0 == key {
            if entries[0].1 == value {
                lemma_named_at(entries, key, value, 0);
            }
        } else {
            if named(rest, key, value) {
                let i = choose|i: int|
                    {
                        &&& 0 <= i < rest.len()
                        &&& #[trigger] rest[i] == (key, value)
                        &&& forall|j: int| 0 <= j < i ==> (#[trigger] rest[j]).0 != key
                    };
                assert forall|j: int| 0 <= j < i + 1 implies (#[trigger] entries[j]).0 != key by {
                    if j > 0 {
                        assert(rest[j - 1] == entries[j]);
                    }
                }
                lemma_named_at(entries, key, value, i + 1);
            }
            if named(entries, key, value) {
                let i = choose|i: int|
                    {
                        &&& 0 <= i < entries.len()
                        &&& #[trigger] entries[i] == (key, value)
                        &&& forall|j: int| 0 <= j < i ==> (#[trigger] entries[j]).0 != key
                    };
                assert(rest[i - 1] == entries[i]);
                lemma_named_at(rest, key, value, i - 1);
            }
        }
    }
}

/// The first entry under `key` is what a lookup finds and what a write
/// replaces.
proof fn lemma_first_match<T>(entries: Seq<(Seq<char>, T)>, key: Seq<char>, value: T, at: int)
    requires
        0 <= at < entries.len(),
        entries[at].0 == key,
        forall|j: int| 0 <= j < at ==> (#[trigger] entries[j]).0 != key,
    ensures
        lookup(entries, key) == Some(entries[at].1),
        upsert(entries, key, value) == entries.update(at, (key, value)),
        without(entries, key) == without(entries.remove(at), key),
    decreases entries.len(),
{
    let rest = entries.drop_first();
    if at == 0 {
        assert(seq![(key, value)] + rest =~= entries.update(0, (key, value)));
        assert(entries.remove(0) =~= rest);
    } else {
        assert forall|j: int| 0 <= j < at - 1 implies (#[trigger] rest[j]).0 != key by {
            assert(rest[j] == entries[j + 1]);
        }
        lemma_first_match(rest, key, value, at - 1);
        assert(seq![entries[0]] + rest.update(at - 1, (key, value)) =~= entries.update(
            at,
            (key, value),
        ));
        assert(entries.remove(at).drop_first() =~= rest.remove(at - 1));
    }
}

/// Writing under an absent key appends, and removing one changes nothing.
proof fn lemma_no_match<T>(entries: Seq<(Seq<char>, T)>, key: Seq<char>, value: T)
    requires
        forall|j: int| 0 <= j < entries.len() ==> (#[trigger] entries[j]).0 != key,
    ensures
        lookup(entries, key) is None,
        upsert(entries, key, value) == entries.push((key, value)),
        without(entries, key) == entries,
    decreases entries.len(),
{
    if entries.len() == 0 {
        assert(seq![(key, value)] =~= entries.push((key, value)));
    } else {
        let rest = entries.drop_first();
        assert forall|j: int| 0 <= j < rest.len() implies (#[trigger] rest[j]).0 != key by {
            assert(rest[j] == entries[j + 1]);
        }
        lemma_no_match(rest, key, value);
        assert(seq![entries[0]] + rest.push((key, value)) =~= entries.push((key, value)));
        assert(seq![entries[0]] + rest =~= entries);
    }
}

/// Writing keeps keys distinct.
pub proof fn law_upsert_keeps_keys_distinct<T>(
    entries: Seq<(Seq<char>, T)>,
    key: Seq<char>,
    value: T,
)
    requires
        keys_distinct(entries),
    ensures
        keys_distinct(upsert(entries, key, value)),
{
    if exists|i: int| 0 <= i < entries.len() && (#[trigger] entries[i]).0 == key {
        let at = choose|i: int| 0 <= i < entries.len() && (#[trigger] entries[i]).0 == key;
        lemma_first_match(entries, key, value, at);
    } else {
        lemma_no_match(entries, key, value);
    }
}

/// Removing keeps keys distinct, and only what was there remains.
pub proof fn law_without_keeps_keys_distinct<T>(entries: Seq<(Seq<char>, T)>, key: Seq<char>)
    requires
        keys_distinct(entries),
    ensures
        keys_distinct(without(entries, key)),
        forall|i: int| 0 <= i < without(entries, key).len() ==> entries.contains(
            #[trigger] without(entries, key)[i],
        ),
    decreases entries.len(),
{
    if entries.len() > 0 {
        let rest = entries.drop_first();
        assert forall|i: int, j: int| 0 <= i < j < rest.len() implies (#[trigger] rest[i]).0 != (
        #[trigger] rest[j]).0 by {
            assert(rest[i] == entries[i + 1] && rest[j] == entries[j + 1]);
        }
        law_without_keeps_keys_distinct(rest, key);
        let kept = without(rest, key);
        assert forall|i: int| #![trigger kept[i]] 0 <= i < kept.len() implies exists|j: int|
            1 <= j < entries.len() && #[trigger] entries[j] == kept[i] by {
            let j = choose|j: int| 0 <= j < rest.len() && rest[j] == kept[i];
            assert(entries[j + 1] == kept[i]);
        }
        if entries[0].0 != key {
            let after = seq![entries[0]] + kept;
            assert forall|i: int| 0 <= i < after.len() implies entries.contains(
                #[trigger] after[i],
            ) by {
                if i == 0 {
                    assert(entries[0] == after[0]);
                }
            }
        }
    }
}

/// A map from text to `V`, iterated in the order in which keys first arrived.
#[derive(Debug)]
pub struct StringMap<V> {
    entries: Vec<(String, V)>,
}

impl<V: View> StringMap<V> {
    /// The entries in order.
    pub closed spec fn ordered(&self) -> Seq<(Seq<char>, V::V)> {
        self.entries@.map_values(|entry: (String, V)| (entry.0@, entry.1@))
    }

    /// No key occurs twice.
    pub open spec fn wf(&self) -> bool {
        keys_distinct(self.ordered())
    }

    /// An empty map.
    pub fn new() -> (map: Self)
        ensures
            map.wf(),
            map.ordered() == Seq::<(Seq<char>, V::V)>::empty(),
    {
        let map = StringMap { entries: Vec::new() };
        proof {
            assert(map.ordered() =~= Seq::<(Seq<char>, V::V)>::empty());
        }
        map
    }

    /// How many entries there are.
    pub fn len(&self) -> (len: usize)
        ensures
            len == self.ordered().len(),
    {
        self.entries.len()
    }

    /// Whether there is no entry.
    pub fn is_empty(&self) -> (empty: bool)
        ensures
            empty == (self.ordered().len() == 0),
    {
        self.entries.len() == 0
    }

    /// The key of the entry at `index`.
    pub fn key_at(&self, index: usize) -> (key: &String)
        requires
            index < self.ordered().len(),
        ensures
            key@ == self.ordered()[index as int].0,
    {
        &self.entries[index].0
    }

    /// The value of the entry at `index`.
    pub fn value_at(&self, index: usize) -> (value: &V)
        requires
            index < self.ordered().len(),
        ensures
            value@ == self.ordered()[index as int].1,
    {
        &self.entries[index].1
    }

    /// Where the first entry under `key` stands.
    fn position(&self, key: &str) -> (at: Option<usize>)
        ensures
            match at {
                Some(i) => {
                    &&& i < self.ordered().len()
                    &&& self.ordered()[i as int].0 == key@
                    &&& forall|j: int| 0 <= j < i ==> (#[trigger] self.ordered()[j]).0 != key@
                },
                None => forall|j: int|
                    0 <= j < self.ordered().len() ==> (#[trigger] self.ordered()[j]).0 != key@,
            },
    {
        let mut i: usize = 0;
        while i < self.entries.len()
            invariant
                i <= self.entries@.len(),
                forall|j: int| 0 <= j < i ==> (#[trigger] self.ordered()[j]).0 != key@,
            decreases self.entries@.len() - i,
        {
            if same_text(self.entries[i].0.as_str(), key) {
                return Some(i);
            }
            i = i + 1;
        }
        None
    }

    /// The value under `key`.
    pub fn get(&self, key: &str) -> (value: Option<&V>)
        ensures
            match value {
                Some(v) => lookup(self.ordered(), key@) == Some(v@),
                None => lookup(self.ordered(), key@) is None,
            },
    {
        match self.position(key) {
            Some(i) => {
                let value = &self.entries[i].1;
                proof {
                    lemma_first_match(self.ordered(), key@, value@, i as int);
                }
                Some(value)
            },
            None => {
                proof {
                    lemma_lookup_none(self.ordered(), key@);
                }
                None
            },
        }
    }

    /// Write `value` under `key`.
    pub fn insert(&mut self, key: String, value: V)
        ensures
            final(self).ordered() == upsert(old(self).ordered(), key@, value@),
            old(self).wf() ==> final(self).wf(),
    {
        let ghost before = self.ordered();
        proof {
            if self.wf() {
                law_upsert_keeps_keys_distinct(before, key@, value@);
            }
        }
        match self.position(key.as_str()) {
            Some(i) => {
                proof {
                    lemma_first_match(before, key@, value@, i as int);
                }
                self.entries.set(i, (key, value));
                proof {
                    assert(self.ordered() =~= before.update(i as int, (key@, value@)));
                }
            },
            None => {
                proof {
                    lemma_no_match(before, key@, value@);
                }
                self.entries.push((key, value));
                proof {
                    assert(self.ordered() =~= before.push((key@, value@)));
                }
            },
        }
    }

    /// Remove `key`, handing back what it mapped to.
    pub fn remove(&mut self, key: &str) -> (removed: Option<V>)
        ensures
            final(self).ordered() == without(old(self).ordered(), key@),
            old(self).wf() ==> final(self).wf(),
            match removed {
                Some(v) => lookup(old(self).ordered(), key@) == Some(v@),
                None => lookup(old(self).ordered(), key@) is None,
            },
    {
        let ghost before = self.ordered();
        proof {
            if self.wf() {
                law_without_keeps_keys_distinct(before, key@);
            }
        }
        match self.position(key) {
            None => {
                proof {
                    if before.len() > 0 {
                        lemma_no_match(before, key@, before[0].1);
                    }
                }
                None
            },
            Some(first) => {
                proof {
                    lemma_first_match(before, key@, before[first as int].1, first as int);
                }
                let (_, value) = self.entries.remove(first);
                proof {
                    assert(self.ordered() =~= before.remove(first as int));
                }
                let mut at = self.position(key);
                while at.is_some()
                    invariant
                        without(self.ordered(), key@) == without(before, key@),
                        match at {
                            Some(i) => {
                                &&& i < self.ordered().len()
                                &&& self.ordered()[i as int].0 == key@
                                &&& forall|j: int|
                                    0 <= j < i ==> (#[trigger] self.ordered()[j]).0 != key@
                            },
                            None => forall|j: int|
                                0 <= j < self.ordered().len() ==> (#[trigger] self.ordered()[j]).0
                                    != key@,
                        },
                    decreases self.ordered().len(),
                {
                    let i = at.unwrap();
                    let ghost current = self.ordered();
                    proof {
                        lemma_first_match(current, key@, current[i as int].1, i as int);
                    }
                    let _ = self.entries.remove(i);
                    proof {
                        assert(self.ordered() =~= current.remove(i as int));
                    }
                    at = self.position(key);
                }
                proof {
                    if self.ordered().len() > 0 {
                        lemma_no_match(self.ordered(), key@, self.ordered()[0].1);
                    }
                }
                Some(value)
            },
        }
    }
}

/// Named text values, such as the structured fields of a log line.
pub type FieldMap = StringMap<String>;

impl Clone for StringMap<String> {
    fn clone(&self) -> (copy: Self)
        ensures
            copy.ordered() == self.ordered(),
    {
        let mut entries: Vec<(String, String)> = Vec::new();
        let mut i: usize = 0;
        while i < self.entries.len()
            invariant
                i <= self.entries@.len(),
                entries@.len() == i,
                forall|j: int|
                    0 <= j < i ==> (#[trigger] entries@[j]).0@ == self.entries@[j].0@
                        && entries@[j].1@ == self.entries@[j].1@,
            decreases self.entries@.len() - i,
        {
            entries.push((self.entries[i].0.clone(), self.entries[i].1.clone()));
            i = i + 1;
        }
        let copy = StringMap { entries };
        proof {
            assert(copy.ordered() =~= self.ordered());
        }
        copy
    }
}

} // verus!
