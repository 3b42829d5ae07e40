//! A small string-to-string map that keeps its entries in insertion order.

use vstd::prelude::*;
use crate::text::str_eq;

verus! {

/// Whether no key occurs twice among `entries`.
pub open spec fn keys_distinct(entries: Seq<(String, String)>) -> bool {
    forall|i: int, j: int|
        0 <= i < j < entries.len() ==> (#[trigger] entries[i]).0@ != (#[trigger] entries[j]).0@
}

/// Whether some entry of `entries` has the key `key`.
pub open spec fn has_key(entries: Seq<(String, String)>, key: Seq<char>) -> bool {
    exists|i: int| 0 <= i < entries.len() && (#[trigger] entries[i]).0@ == key
}

/// The position of an entry with the key `key`.
pub open spec fn key_index(entries: Seq<(String, String)>, key: Seq<char>) -> int {
    choose|i: int| 0 <= i < entries.len() && (#[trigger] entries[i]).0@ == key
}

/// The map that a list of entries with distinct keys stands for.
pub open spec fn entries_map(entries: Seq<(String, String)>) -> Map<Seq<char>, Seq<char>> {
    Map::new(
        |k: Seq<char>| has_key(entries, k),
        |k: Seq<char>| entries[key_index(entries, k)].1@,
    )
}

/// The texts of a list of pairs.
pub open spec fn pair_texts(pairs: Seq<(String, String)>) -> Seq<(Seq<char>, Seq<char>)> {
    pairs.map_values(|p: (String, String)| (p.0@, p.1@))
}

/// The texts of the entries after `value` is stored under `key`: the
/// entry that has the key is replaced in its place; without one, the new
/// entry comes last.
pub open spec fn texts_with(
    texts: Seq<(Seq<char>, Seq<char>)>,
    key: Seq<char>,
    value: Seq<char>,
) -> Seq<(Seq<char>, Seq<char>)> {
    if exists|i: int| 0 <= i < texts.len() && (#[trigger] texts[i]).0 == key {
        Seq::new(
            texts.len(),
            |i: int|
                if texts[i].0 == key {
                    (key, value)
                } else {
                    texts[i]
                },
        )
    } else {
        texts.push((key, value))
    }
}

/// A map from tag keys to tag values. Each key occurs once; entries stay in
/// the order in which their keys were first inserted.
#[derive(Debug)]
pub struct TagMap {
    entries: Vec<(String, String)>,
}

impl View for TagMap {
    type V = Map<Seq<char>, Seq<char>>;

    closed spec fn view(&self) -> Map<Seq<char>, Seq<char>> {
        entries_map(self.entries@)
    }
}

impl TagMap {
    #[verifier::type_invariant]
    spec fn distinct(self) -> bool {
        keys_distinct(self.entries@)
    }

    /// The entries in insertion order.
    pub closed spec fn entries_view(&self) -> Seq<(String, String)> {
        self.entries@
    }

    /// An empty map.
    pub fn new() -> (r: Self)
        ensures
            r@ == Map::<Seq<char>, Seq<char>>::empty(),
            r.entries_view().len() == 0,
    {
        let r = TagMap { entries: Vec::new() };
        assert(r@ =~= Map::<Seq<char>, Seq<char>>::empty());
        r
    }

    /// The position of `key` among the entries, if it is present.
    fn position(&self, key: &str) -> (r: Option<usize>)
        ensures
            match r {
                Some(i) => i < self.entries@.len() && self.entries@[i as int].0@ == key@,
                None => !has_key(self.entries@, key@),
            },
    {
        let mut i: usize = 0;
        while i < self.entries.len()
            invariant
                i <= self.entries@.len(),
                forall|j: int| 0 <= j < i ==> (#[trigger] self.entries@[j]).0@ != key@,
            decreases self.entries@.len() - i,
        {
            if str_eq(self.entries[i].0.as_str(), key) {
                return Some(i);
            }
            i += 1;
        }
        None
    }

    /// The value stored under `key`.
    pub fn get(&self, key: &str) -> (r: Option<&String>)
        ensures
            r is Some == self@.contains_key(key@),
            r matches Some(v) ==> v@ == self@[key@],
    {
        proof {
            use_type_invariant(self);
        }
        match self.position(key) {
            Some(i) => {
                proof {
                    lemma_key_index(self.entries@, i as int);
                }
                Some(&self.entries[i].1)
            },
            None => None,
        }
    }

    /// Whether `key` has a value.
    pub fn contains_key(&self, key: &str) -> (r: bool)
        ensures
            r == self@.contains_key(key@),
    {
        self.position(key).is_some()
    }

    /// Whether `key` is present and its value is exactly `value`.
    pub fn has(&self, key: &str, value: &str) -> (r: bool)
        ensures
            r == (self@.contains_key(key@) && self@[key@] == value@),
    {
        match self.get(key) {
            Some(v) => str_eq(v.as_str(), value),
            None => false,
        }
    }

    /// Stores `value` under `key` and returns the value it replaces.
    pub fn insert(&mut self, key: String, value: String) -> (r: Option<String>)
        ensures
            final(self)@ == old(self)@.insert(key@, value@),
            r is Some == old(self)@.contains_key(key@),
            r matches Some(v) ==> v@ == old(self)@[key@],
            pair_texts(final(self).entries_view()) == texts_with(
                pair_texts(old(self).entries_view()),
                key@,
                value@,
            ),
    {
        proof {
            use_type_invariant(&*self);
        }
        let ghost before = self.entries@;
        let ghost key_text = key@;
        let ghost value_text = value@;
        let found = self.position(key.as_str());
        let mut entries: Vec<(String, String)> = Vec::new();
        core::mem::swap(&mut self.entries, &mut entries);
        match found {
            Some(i) => {
                let previous = entries[i].1.clone();
                proof {
                    lemma_key_index(before, i as int);
                    lemma_replace(before, i as int, (key, value));
                }
                entries.set(i, (key, value));
                proof {
                    let texts = pair_texts(before);
                    assert(texts[i as int].0 == key_text);
                    assert forall|j: int| 0 <= j < before.len() implies #[trigger] pair_texts(
                        entries@,
                    )[j] == texts_with(texts, key_text, value_text)[j] by {
                        if j != i {
                            assert(before[j].0@ != before[i as int].0@);
                        }
                    }
                    assert(pair_texts(entries@) =~= texts_with(texts, key_text, value_text));
                }
                core::mem::swap(&mut self.entries, &mut entries);
                Some(previous)
            },
            None => {
                proof {
                    lemma_append(before, (key, value));
                }
                entries.push((key, value));
                proof {
                    let texts = pair_texts(before);
                    assert(!(exists|i: int|
                        0 <= i < texts.len() && (#[trigger] texts[i]).0 == key_text)) by {
                        if exists|i: int| 0 <= i < texts.len() && (#[trigger] texts[i]).0 == key_text {
                            let i = choose|i: int|
                                0 <= i < texts.len() && (#[trigger] texts[i]).0 == key_text;
                            assert(before[i].0@ == key_text);
                        }
                    }
                    assert(pair_texts(entries@) =~= texts.push((key_text, value_text)));
                }
                core::mem::swap(&mut self.entries, &mut entries);
                None
            },
        }
    }

    /// The number of keys.
    pub fn len(&self) -> (r: usize)
        ensures
            r == self.entries_view().len(),
            self@.dom().finite(),
            r == self@.dom().len(),
    {
        proof {
            use_type_invariant(self);
            lemma_cardinality(self.entries@);
        }
        self.entries.len()
    }

    /// Whether the map has no key.
    pub fn is_empty(&self) -> (r: bool)
        ensures
            r == (self@ == Map::<Seq<char>, Seq<char>>::empty()),
    {
        let r = self.entries.len() == 0;
        proof {
            if r {
                assert(self@ =~= Map::<Seq<char>, Seq<char>>::empty());
            } else {
                assert(self.entries@[0].0@ == self.entries@[0].0@);
                assert(has_key(self.entries@, self.entries@[0].0@));
                assert(self@.contains_key(self.entries@[0].0@));
            }
        }
        r
    }

    /// Removes every entry.
    pub fn clear(&mut self)
        ensures
            final(self)@ == Map::<Seq<char>, Seq<char>>::empty(),
            final(self).entries_view().len() == 0,
    {
        self.entries = Vec::new();
        assert(self@ =~= Map::<Seq<char>, Seq<char>>::empty());
    }

    /// The key of the entry at `index`.
    pub fn key_at(&self, index: usize) -> (r: &String)
        requires
            index < self.entries_view().len(),
        ensures
            r@ == self.entries_view()[index as int].0@,
            self@.contains_key(r@),
    {
        assert(has_key(self.entries@, self.entries@[index as int].0@));
        &self.entries[index].0
    }

    /// The value of the entry at `index`.
    pub fn value_at(&self, index: usize) -> (r: &String)
        requires
            index < self.entries_view().len(),
        ensures
            r@ == self.entries_view()[index as int].1@,
            r@ == self@[self.entries_view()[index as int].0@],
    {
        proof {
            use_type_invariant(self);
            lemma_key_index(self.entries@, index as int);
        }
        &self.entries[index].1
    }
}

/// In a list with distinct keys, the position of a key is the position
/// of the entry that has it.
pub proof fn lemma_key_index(entries: Seq<(String, String)>, i: int)
    requires
        keys_distinct(entries),
        0 <= i < entries.len(),
    ensures
        has_key(entries, entries[i].0@),
        key_index(entries, entries[i].0@) == i,
        entries_map(entries)[entries[i].0@] == entries[i].1@,
{
    let j = key_index(entries, entries[i].0@);
    assert(entries[i].0@ == entries[i].0@);
    if i < j {
        assert(entries[i].0@ != entries[j].0@);
    } else if j < i {
        assert(entries[j].0@ != entries[i].0@);
    }
}

/// Replacing the entry at `i` by one of the same key binds the key to
/// the new value and leaves the other keys alone.
pub proof fn lemma_replace(entries: Seq<(String, String)>, i: int, entry: (String, String))
    requires
        keys_distinct(entries),
        0 <= i < entries.len(),
        entries[i].0@ == entry.0@,
    ensures
        keys_distinct(entries.update(i, entry)),
        entries_map(entries.update(i, entry)) == entries_map(entries).insert(entry.0@, entry.1@),
{
    let after = entries.update(i, entry);
    assert forall|a: int, b: int| 0 <= a < b < after.len() implies (#[trigger] after[a]).0@ != (
    #[trigger] after[b]).0@ by {
        assert(entries[a].0@ != entries[b].0@);
    }
    assert forall|k: Seq<char>| has_key(after, k) == has_key(entries, k) by {
        if has_key(entries, k) {
            assert(after[key_index(entries, k)].0@ == k);
        }
        if has_key(after, k) {
            assert(entries[key_index(after, k)].0@ == k);
        }
    }
    assert forall|k: Seq<char>| has_key(after, k) implies #[trigger] entries_map(after)[k]
        == entries_map(entries).insert(entry.0@, entry.1@)[k] by {
        let j = key_index(after, k);
        lemma_key_index(after, j);
        assert(entries[j].0@ == k);
        lemma_key_index(entries, j);
    }
    assert(entries_map(after) =~= entries_map(entries).insert(entry.0@, entry.1@));
}

/// Appending an entry with a new key binds the key to its value and
/// leaves the other keys alone.
pub proof fn lemma_append(entries: Seq<(String, String)>, entry: (String, String))
    requires
        keys_distinct(entries),
        !has_key(entries, entry.0@),
    ensures
        keys_distinct(entries.push(entry)),
        entries_map(entries.push(entry)) == entries_map(entries).insert(entry.0@, entry.1@),
{
    let after = entries.push(entry);
    let n = entries.len() as int;
    assert forall|a: int, b: int| 0 <= a < b < after.len() implies (#[trigger] after[a]).0@ != (
    #[trigger] after[b]).0@ by {
        if b < n {
            assert(entries[a].0@ != entries[b].0@);
        } else {
            assert(entries[a].0@ != entry.0@);
        }
    }
    assert(after[n].0@ == entry.0@);
    assert forall|k: Seq<char>| has_key(after, k) == (has_key(entries, k) || k == entry.0@) by {
        if has_key(entries, k) {
            assert(after[key_index(entries, k)].0@ == k);
        }
        if has_key(after, k) {
            let j = key_index(after, k);
            if j < n {
                assert(entries[j].0@ == k);
            }
        }
    }
    assert forall|k: Seq<char>| has_key(after, k) implies #[trigger] entries_map(after)[k]
        == entries_map(entries).insert(entry.0@, entry.1@)[k] by {
        let j = key_index(after, k);
        lemma_key_index(after, j);
        if j < n {
            assert(entries[j].0@ == k);
            lemma_key_index(entries, j);
        }
    }
    assert(entries_map(after) =~= entries_map(entries).insert(entry.0@, entry.1@));
}

/// A list with distinct keys stands for a map with as many keys as it
/// has entries.
pub proof fn lemma_cardinality(entries: Seq<(String, String)>)
    requires
        keys_distinct(entries),
    ensures
        entries_map(entries).dom().finite(),
        entries_map(entries).dom().len() == entries.len(),
    decreases entries.len(),
{
    if entries.len() == 0 {
        assert(entries_map(entries).dom() =~= Set::<Seq<char>>::empty());
    } else {
        let rest = entries.drop_last();
        let last = entries.last();
        assert(keys_distinct(rest)) by {
            assert forall|a: int, b: int| 0 <= a < b < rest.len() implies (#[trigger] rest[a]).0@
                != (#[trigger] rest[b]).0@ by {
                assert(entries[a].0@ != entries[b].0@);
            }
        }
        assert(!has_key(rest, last.0@)) by {
            if has_key(rest, last.0@) {
                let j = key_index(rest, last.0@);
                assert(entries[j].0@ != entries[entries.len() - 1].0@);
            }
        }
        lemma_cardinality(rest);
        lemma_append(rest, last);
        assert(rest.push(last) =~= entries);
        assert(entries_map(entries).dom() =~= entries_map(rest).dom().insert(last.0@));
    }
}

impl Clone for TagMap {
    fn clone(&self) -> (r: Self)
        ensures
            r@ == self@,
            r.entries_view() == self.entries_view(),
    {
        proof {
            use_type_invariant(self);
        }
        let mut entries: Vec<(String, String)> = Vec::new();
        let mut i: usize = 0;
        while i < self.entries.len()
            invariant
                i <= self.entries@.len(),
                entries@.len() == i,
                forall|j: int| 0 <= j < i ==> entries@[j] == self.entries@[j],
            decreases self.entries@.len() - i,
        {
            entries.push((self.entries[i].0.clone(), self.entries[i].1.clone()));
            i += 1;
        }
        assert(entries@ =~= self.entries@);
        TagMap { entries }
    }
}

} // verus!
