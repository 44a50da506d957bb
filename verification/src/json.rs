//! JSON values, and the attribute map of a Zarr node: a JSON object that
//! keeps its keys in the order in which they were first inserted.
//!
//! The library reads inside the values that it is given: the list of
//! conventions, the records in it, the fields of an object that is written
//! key by key. It therefore holds JSON as a type of its own, whose contents
//! are open to it, with numbers that are no integers kept by the bits of
//! their `f64`. An object is a list of entries with the invariant that no
//! key occurs twice and that a key keeps the place of its first insertion.

use vstd::prelude::*;

verus! {

/// A JSON number. Integers are held as such; any other number by the bits of
/// its `f64`.
#[derive(Clone, Copy, Debug, PartialEq, Eq, Structural)]
pub enum Number {
    PosInt(u64),
    NegInt(i64),
    Float(u64),
}

/// A JSON value.
#[derive(Debug, PartialEq, Eq)]
pub enum Json {
    Null,
    Bool(bool),
    Number(Number),
    String(String),
    Array(Vec<Json>),
    Object(Attributes),
}

/// A JSON object: keys with their values, no key twice, in the order in which
/// the keys were first inserted. Two objects are equal where they hold the
/// same entries in the same order.
#[derive(Debug, PartialEq, Eq)]
pub struct Attributes {
    entries: Vec<(String, Json)>,
}

/// What a [`Json`] value holds.
pub enum JsonView {
    Null,
    Bool(bool),
    Number(Number),
    String(Seq<char>),
    Array(Seq<JsonView>),
    Object(Seq<(Seq<char>, JsonView)>),
}

/// The entries of an object, in order.
pub type Entries = Seq<(Seq<char>, JsonView)>;

/// No key occurs twice.
pub open spec fn distinct_keys(entries: Entries) -> bool {
    forall|i: int, j: int|
        0 <= i < entries.len() && 0 <= j < entries.len() && i != j ==> #[trigger] entries[i].0
            != #[trigger] entries[j].0
}

/// Whether some entry has the key.
pub open spec fn has_key(entries: Entries, key: Seq<char>) -> bool {
    exists|i: int| 0 <= i < entries.len() && #[trigger] entries[i].0 == key
}

/// The place of an entry with the key, where there is one.
pub open spec fn key_index(entries: Entries, key: Seq<char>) -> int {
    choose|i: int| 0 <= i < entries.len() && #[trigger] entries[i].0 == key
}

/// The value under the key.
pub open spec fn lookup(entries: Entries, key: Seq<char>) -> Option<JsonView> {
    if has_key(entries, key) {
        Some(entries[key_index(entries, key)].1)
    } else {
        None
    }
}

/// The entries after `value` is stored under `key`: an entry that has the key
/// keeps its place and takes the value; otherwise a new entry comes last.
pub open spec fn put(entries: Entries, key: Seq<char>, value: JsonView) -> Entries {
    if has_key(entries, key) {
        entries.update(key_index(entries, key), (key, value))
    } else {
        entries.push((key, value))
    }
}

/// Where no key occurs twice, an entry is what is found under its key.
pub proof fn lemma_entry_is_found(entries: Entries, i: int)
    requires
        distinct_keys(entries),
        0 <= i < entries.len(),
    ensures
        has_key(entries, entries[i].0),
        key_index(entries, entries[i].0) == i,
        lookup(entries, entries[i].0) == Some(entries[i].1),
{
    let key = entries[i].0;
    assert(0 <= i < entries.len() && entries[i].0 == key);
    let k = key_index(entries, key);
    if k != i {
        assert(entries[k].0 != entries[i].0);
    }
}

/// Storing a value keeps the keys distinct, puts the value under its key and
/// leaves what is found under any other key.
pub proof fn lemma_put(entries: Entries, key: Seq<char>, value: JsonView, other: Seq<char>)
    requires
        distinct_keys(entries),
    ensures
        distinct_keys(put(entries, key, value)),
        lookup(put(entries, key, value), other) == if other == key {
            Some(value)
        } else {
            lookup(entries, other)
        },
{
    let after = put(entries, key, value);
    if has_key(entries, key) {
        let i = key_index(entries, key);
        assert(after.len() == entries.len());
        assert forall|j: int| 0 <= j < after.len() implies (#[trigger] after[j]).0 == entries[j].0 by {}
        assert(distinct_keys(after)) by {
            assert forall|a: int, b: int|
                0 <= a < after.len() && 0 <= b < after.len() && a != b implies #[trigger] after[a].0
                != #[trigger] after[b].0 by {
                assert(entries[a].0 != entries[b].0);
            }
        }
        if other == key {
            assert(after[i] == (key, value));
            lemma_entry_is_found(after, i);
        } else if has_key(entries, other) {
            let j = key_index(entries, other);
            assert(after[j] == entries[j]);
            lemma_entry_is_found(entries, j);
            lemma_entry_is_found(after, j);
        } else {
            if has_key(after, other) {
                let j = key_index(after, other);
                assert(entries[j].0 == other);
            }
        }
    } else {
        let n = entries.len() as int;
        assert(after[n] == (key, value));
        assert(distinct_keys(after)) by {
            assert forall|a: int, b: int|
                0 <= a < after.len() && 0 <= b < after.len() && a != b implies #[trigger] after[a].0
                != #[trigger] after[b].0 by {
                if a < n && b < n {
                    assert(entries[a].0 != entries[b].0);
                } else if a < n {
                    assert(entries[a].0 != key);
                } else {
                    assert(entries[b].0 != key);
                }
            }
        }
        if other == key {
            lemma_entry_is_found(after, n);
        } else if has_key(entries, other) {
            let j = key_index(entries, other);
            assert(after[j] == entries[j]);
            lemma_entry_is_found(entries, j);
            lemma_entry_is_found(after, j);
        } else {
            if has_key(after, other) {
                let j = key_index(after, other);
                assert(j < n);
                assert(entries[j].0 == other);
            }
        }
    }
}

/// The entries without the one that has the key.
pub open spec fn removed(entries: Entries, key: Seq<char>) -> Entries {
    if has_key(entries, key) {
        entries.remove(key_index(entries, key))
    } else {
        entries
    }
}

/// Removing a key keeps the keys distinct, leaves nothing under the key and
/// leaves what is found under any other key.
pub proof fn lemma_removed(entries: Entries, key: Seq<char>, other: Seq<char>)
    requires
        distinct_keys(entries),
    ensures
        distinct_keys(removed(entries, key)),
        lookup(removed(entries, key), other) == if other == key {
            None
        } else {
            lookup(entries, other)
        },
{
    let after = removed(entries, key);
    if has_key(entries, key) {
        let k = key_index(entries, key);
        assert forall|a: int, b: int|
            0 <= a < after.len() && 0 <= b < after.len() && a != b implies #[trigger] after[a].0
            != #[trigger] after[b].0 by {
            let a0 = if a < k { a } else { a + 1 };
            let b0 = if b < k { b } else { b + 1 };
            assert(entries[a0].0 != entries[b0].0);
        }
        if has_key(after, other) {
            let j = key_index(after, other);
            let j0 = if j < k { j } else { j + 1 };
            assert(entries[j0].0 == other);
            assert(entries[j0].0 != entries[k].0);
            lemma_entry_is_found(entries, j0);
            lemma_entry_is_found(after, j);
        } else if other != key && has_key(entries, other) {
            let j0 = key_index(entries, other);
            let j = if j0 < k { j0 } else { j0 - 1 };
            assert(after[j].0 == other);
        }
    }
}

impl Json {
    /// What the value holds.
    pub open spec fn view(&self) -> JsonView
        decreases self,
    {
        match self {
            Json::Null => JsonView::Null,
            Json::Bool(b) => JsonView::Bool(*b),
            Json::Number(n) => JsonView::Number(*n),
            Json::String(s) => JsonView::String(s@),
            Json::Array(items) => JsonView::Array(
                Seq::new(
                    items@.len(),
                    |i: int|
                        if 0 <= i < items@.len() {
                            items@[i].view()
                        } else {
                            JsonView::Null
                        },
                ),
            ),
            Json::Object(attributes) => JsonView::Object(attributes.view()),
        }
    }
}

/// What a list of entries holds.
pub open spec fn entries_view(entries: Seq<(String, Json)>) -> Entries
    decreases entries,
{
    Seq::new(
        entries.len(),
        |i: int|
            if 0 <= i < entries.len() {
                (entries[i].0@, entries[i].1.view())
            } else {
                (Seq::empty(), JsonView::Null)
            },
    )
}

impl Clone for Json {
    fn clone(&self) -> (r: Json)
        ensures
            r@ == self@,
        decreases self,
    {
        match self {
            Json::Null => Json::Null,
            Json::Bool(b) => Json::Bool(*b),
            Json::Number(n) => Json::Number(*n),
            Json::String(s) => Json::String(s.clone()),
            Json::Array(items) => {
                let mut copy: Vec<Json> = Vec::new();
                let mut i: usize = 0;
                while i < items.len()
                    invariant
                        0 <= i <= items@.len(),
                        copy@.len() == i,
                        self is Array,
                        self->Array_0 == *items,
                        forall|j: int| 0 <= j < i ==> copy@[j]@ == items@[j]@,
                    decreases items@.len() - i,
                {
                    proof {
                        vstd::std_specs::vec::axiom_vec_index_decreases(*items, i as int);
                    }
                    copy.push(items[i].clone());
                    i += 1;
                }
                let r = Json::Array(copy);
                assert(r@ =~= self@) by {
                    assert(r@->Array_0 =~= self@->Array_0);
                }
                r
            },
            Json::Object(attributes) => Json::Object(attributes.clone()),
        }
    }
}

impl Clone for Attributes {
    fn clone(&self) -> (r: Attributes)
        ensures
            r@ == self@,
        decreases self,
    {
        proof {
            use_type_invariant(self);
        }
        let mut copy: Vec<(String, Json)> = Vec::new();
        let mut i: usize = 0;
        while i < self.entries.len()
            invariant
                0 <= i <= self.entries@.len(),
                copy@.len() == i,
                forall|j: int|
                    0 <= j < i ==> copy@[j].0@ == self.entries@[j].0@ && copy@[j].1@
                        == self.entries@[j].1@,
            decreases self.entries@.len() - i,
        {
            copy.push((self.entries[i].0.clone(), self.entries[i].1.clone()));
            i += 1;
        }
        assert(entries_view(copy@) =~= entries_view(self.entries@));
        Attributes { entries: copy }
    }
}

impl Attributes {
    /// The entries, in the order in which their keys were first inserted.
    pub closed spec fn view(&self) -> Entries
        decreases self,
    {
        entries_view(self.entries@)
    }

    #[verifier::type_invariant]
    spec fn keys_differ(self) -> bool {
        distinct_keys(entries_view(self.entries@))
    }

    /// An object without entries.
    pub fn new() -> (r: Attributes)
        ensures
            r@ == Entries::empty(),
    {
        let r = Attributes { entries: Vec::new() };
        assert(r@ =~= Entries::empty());
        r
    }

    /// The value under `key`.
    pub fn get(&self, key: &str) -> (r: Option<&Json>)
        ensures
            distinct_keys(self@),
            match r {
                Some(v) => lookup(self@, key@) == Some(v@),
                None => lookup(self@, key@) is None,
            },
    {
        proof {
            use_type_invariant(self);
        }
        let wanted = key.to_owned();
        let mut i: usize = 0;
        while i < self.entries.len()
            invariant
                0 <= i <= self.entries@.len(),
                wanted@ == key@,
                distinct_keys(self@),
                forall|j: int| 0 <= j < i ==> self@[j].0 != key@,
            decreases self.entries@.len() - i,
        {
            if self.entries[i].0 == wanted {
                assert(self@[i as int].0 == key@);
                return Some(&self.entries[i].1);
            }
            i += 1;
        }
        None
    }

    /// Stores `value` under `key` and returns the value that was there. An
    /// entry that has the key keeps its place; a new entry comes last.
    pub fn insert(&mut self, key: String, value: Json) -> (previous: Option<Json>)
        ensures
            distinct_keys(old(self)@),
            distinct_keys(final(self)@),
            final(self)@ == put(old(self)@, key@, value@),
            match previous {
                Some(v) => lookup(old(self)@, key@) == Some(v@),
                None => lookup(old(self)@, key@) is None,
            },
    {
        proof {
            use_type_invariant(&*self);
        }
        let ghost before = self@;
        let mut entries: Vec<(String, Json)> = Vec::new();
        std::mem::swap(&mut self.entries, &mut entries);
        let mut i: usize = 0;
        while i < entries.len()
            invariant
                0 <= i <= entries@.len(),
                entries_view(entries@) == before,
                before == old(self)@,
                distinct_keys(before),
                self.entries@.len() == 0,
                forall|j: int| 0 <= j < i ==> before[j].0 != key@,
            decreases entries@.len() - i,
        {
            if entries[i].0 == key {
                assert(before[i as int].0 == key@);
                assert(key_index(before, key@) == i);
                let old_entry = entries.remove(i);
                assert(old_entry.1@ == before[i as int].1);
                entries.insert(i, (key, value));
                assert(entries_view(entries@) =~= put(before, key@, value@));
                assert(distinct_keys(entries_view(entries@)));
                std::mem::swap(&mut self.entries, &mut entries);
                return Some(old_entry.1);
            }
            i += 1;
        }
        entries.push((key, value));
        assert(entries_view(entries@) =~= put(before, key@, value@));
        assert(distinct_keys(entries_view(entries@)));
        std::mem::swap(&mut self.entries, &mut entries);
        None
    }

    /// The entry at place `i`, counted from 0 in insertion order.
    pub fn entry(&self, i: usize) -> (r: Option<(&str, &Json)>)
        ensures
            r is Some <==> i < self@.len(),
            r matches Some((k, v)) ==> self@[i as int] == (k@, v@),
    {
        if i < self.entries.len() {
            Some((self.entries[i].0.as_str(), &self.entries[i].1))
        } else {
            None
        }
    }

    /// Whether `key` has a value.
    pub fn contains_key(&self, key: &str) -> (r: bool)
        ensures
            r == has_key(self@, key@),
    {
        self.get(key).is_some()
    }

    /// A copy without the entry that has `key`.
    pub fn without(&self, key: &str) -> (r: Attributes)
        ensures
            distinct_keys(self@),
            r@ == removed(self@, key@),
    {
        proof {
            use_type_invariant(self);
        }
        let wanted = key.to_owned();
        let mut copy: Vec<(String, Json)> = Vec::new();
        let mut found: Option<usize> = None;
        let mut i: usize = 0;
        while i < self.entries.len()
            invariant
                0 <= i <= self.entries@.len(),
                wanted@ == key@,
                distinct_keys(self@),
                match found {
                    Some(k) => k < i && self@[k as int].0 == key@ && entries_view(copy@)
                        == self@.take(i as int).remove(k as int),
                    None => entries_view(copy@) == self@.take(i as int) && forall|j: int|
                        0 <= j < i ==> self@[j].0 != key@,
                },
            decreases self.entries@.len() - i,
        {
            let ghost before = entries_view(copy@);
            if found.is_none() && self.entries[i].0 == wanted {
                found = Some(i);
                assert(self@.take(i + 1).remove(i as int) =~= self@.take(i as int));
            } else {
                copy.push((self.entries[i].0.clone(), self.entries[i].1.clone()));
                assert(entries_view(copy@) =~= before.push(self@[i as int]));
                match found {
                    Some(k) => {
                        assert(self@.take(i + 1).remove(k as int) =~= self@.take(i as int).remove(
                            k as int,
                        ).push(self@[i as int]));
                    },
                    None => {
                        assert(self@.take(i + 1) =~= self@.take(i as int).push(self@[i as int]));
                    },
                }
            }
            i += 1;
        }
        proof {
            assert(self@.take(i as int) =~= self@);
            match found {
                Some(k) => {
                    lemma_entry_is_found(self@, k as int);
                    let rest = self@.remove(k as int);
                    assert forall|a: int, b: int|
                        0 <= a < rest.len() && 0 <= b < rest.len() && a != b implies #[trigger] rest[a].0
                        != #[trigger] rest[b].0 by {
                        let a0 = if a < k { a } else { a + 1 };
                        let b0 = if b < k { b } else { b + 1 };
                        assert(self@[a0].0 != self@[b0].0);
                    }
                },
                None => {},
            }
        }
        Attributes { entries: copy }
    }

    /// The number of entries.
    pub fn len(&self) -> (n: usize)
        ensures
            n == self@.len(),
            distinct_keys(self@),
    {
        proof {
            use_type_invariant(self);
        }
        self.entries.len()
    }
}

} // verus!
