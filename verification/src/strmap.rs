//! A small map keyed by strings, kept as a list of entries in insertion order.
//!
//! The keys of a map are pairwise distinct; that is the type's invariant. A map is
//! read through two sequences, its keys and its values in entry order, and
//! through `lookup`, which says what a key is bound to.

use vstd::prelude::*;
use crate::text::str_eq;
use crate::views::clone_keeps_view;

verus! {

/// A map from strings to values of `V`. Two maps are equal, to `==`, when they
/// hold equal entries in the same order.
#[derive(Debug, PartialEq, Eq)]
pub struct StringMap<V> {
    entries: Vec<(String, V)>,
}

impl<V> StringMap<V> {
    /// The keys, as character sequences, in entry order.
    pub closed spec fn key_seq(&self) -> Seq<Seq<char>> {
        Seq::new(self.entries@.len(), |i: int| self.entries@[i].0@)
    }

    /// The values in entry order: `value_seq()[i]` belongs to `key_seq()[i]`.
    pub closed spec fn value_seq(&self) -> Seq<V> {
        Seq::new(self.entries@.len(), |i: int| self.entries@[i].1)
    }

    /// Whether the keys are pairwise distinct. Every map that executable code
    /// holds is well formed.
    #[verifier::type_invariant]
    pub open spec fn well_formed(&self) -> bool {
        self.key_seq().no_duplicates()
    }

    /// What `key` is bound to, if anything.
    pub open spec fn lookup(&self, key: Seq<char>) -> Option<V> {
        if self.key_seq().contains(key) {
            Some(self.value_seq()[self.key_seq().index_of(key)])
        } else {
            None
        }
    }

    /// Keys and values have the same length, whatever the map.
    pub proof fn lemma_lengths(&self)
        ensures
            self.key_seq().len() == self.value_seq().len(),
    {
    }

    /// In a well-formed map a key stands at one index only, so `lookup` finds the
    /// value at that index.
    pub proof fn lemma_lookup_at(&self, i: int)
        requires
            self.well_formed(),
            0 <= i < self.key_seq().len(),
        ensures
            self.key_seq().contains(self.key_seq()[i]),
            self.key_seq().index_of(self.key_seq()[i]) == i,
            self.lookup(self.key_seq()[i]) == Some(self.value_seq()[i]),
    {
        let keys = self.key_seq();
        assert(keys.contains(keys[i]));
        let j = keys.index_of(keys[i]);
        assert(0 <= j < keys.len() && keys[j] == keys[i]);
    }

    /// A map without entries.
    pub fn new() -> (map: Self)
        ensures
            map.key_seq() == Seq::<Seq<char>>::empty(),
            map.value_seq() == Seq::<V>::empty(),
            map.well_formed(),
    {
        StringMap { entries: Vec::new() }
    }

    /// The number of entries.
    pub fn len(&self) -> (n: usize)
        ensures
            n == self.key_seq().len(),
            self.well_formed(),
    {
        proof {
            use_type_invariant(self);
        }
        self.entries.len()
    }

    /// The key of the entry at `index`.
    pub fn key(&self, index: usize) -> (key: &String)
        requires
            index < self.key_seq().len(),
        ensures
            key@ == self.key_seq()[index as int],
    {
        &self.entries[index].0
    }

    /// The value of the entry at `index`.
    pub fn value(&self, index: usize) -> (value: &V)
        requires
            index < self.key_seq().len(),
        ensures
            *value == self.value_seq()[index as int],
    {
        &self.entries[index].1
    }

    /// The index of the entry whose key is `key`.
    pub fn find(&self, key: &str) -> (found: Option<usize>)
        ensures
            self.well_formed(),
            match found {
                Some(i) => i < self.key_seq().len() && self.key_seq()[i as int] == key@
                    && self.key_seq().index_of(key@) == i,
                None => !self.key_seq().contains(key@),
            },
    {
        proof {
            use_type_invariant(self);
        }
        let mut i: usize = 0;
        while i < self.entries.len()
            invariant
                i <= self.entries@.len(),
                self.well_formed(),
                forall|j: int| 0 <= j < i ==> self.key_seq()[j] != key@,
            decreases self.entries@.len() - i,
        {
            if str_eq(self.entries[i].0.as_str(), key) {
                return Some(i);
            }
            i += 1;
        }
        None
    }

    /// Whether `key` is bound.
    pub fn contains_key(&self, key: &str) -> (present: bool)
        ensures
            present == self.key_seq().contains(key@),
            present == self.lookup(key@).is_some(),
    {
        self.find(key).is_some()
    }

    /// The value that `key` is bound to.
    pub fn get(&self, key: &str) -> (value: Option<&V>)
        ensures
            match value {
                Some(v) => self.lookup(key@) == Some(*v),
                None => self.lookup(key@).is_none(),
            },
    {
        match self.find(key) {
            Some(i) => Some(&self.entries[i].1),
            None => None,
        }
    }

    /// Binds `key` to `value`. A key that is already bound keeps its place and
    /// gets the new value; a new key goes to the end.
    pub fn insert(&mut self, key: String, value: V)
        ensures
            final(self).well_formed(),
            old(self).key_seq().contains(key@) ==> {
                &&& final(self).key_seq() == old(self).key_seq()
                &&& final(self).value_seq() == old(self).value_seq().update(
                    old(self).key_seq().index_of(key@),
                    value,
                )
            },
            !old(self).key_seq().contains(key@) ==> {
                &&& final(self).key_seq() == old(self).key_seq().push(key@)
                &&& final(self).value_seq() == old(self).value_seq().push(value)
            },
            final(self).lookup(key@) == Some(value),
            forall|other: Seq<char>|
                other != key@ ==> #[trigger] final(self).lookup(other) == old(self).lookup(other),
    {
        let ghost before = *self;
        let found = self.find(&key);
        let mut entries: Vec<(String, V)> = Vec::new();
        core::mem::swap(&mut self.entries, &mut entries);
        let ghost after_keys;
        let ghost after_values;
        match found {
            Some(i) => {
                entries[i] = (key, value);
                proof {
                    after_keys = before.key_seq();
                    after_values = before.value_seq().update(i as int, value);
                }
            },
            None => {
                entries.push((key, value));
                proof {
                    after_keys = before.key_seq().push(key@);
                    after_values = before.value_seq().push(value);
                }
            },
        }
        proof {
            assert(Seq::new(entries@.len(), |i: int| entries@[i].0@) =~= after_keys);
            assert(Seq::new(entries@.len(), |i: int| entries@[i].1) =~= after_values);
            lemma_keys_after_insert(before.key_seq(), key@);
        }
        core::mem::swap(&mut self.entries, &mut entries);
        proof {
            lemma_lookup_after_insert(before, *self, key@, value);
        }
    }
}

/// Keys stay pairwise distinct when a key that is not among them is added.
proof fn lemma_keys_after_insert(keys: Seq<Seq<char>>, key: Seq<char>)
    requires
        keys.no_duplicates(),
    ensures
        !keys.contains(key) ==> keys.push(key).no_duplicates(),
{
    if !keys.contains(key) {
        let n = keys.len() as int;
        let grown = keys.push(key);
        assert forall|a: int, b: int|
            0 <= a < grown.len() && 0 <= b < grown.len() && a != b implies grown[a]
            != grown[b] by {
            if a < n && b < n {
                assert(keys[a] != keys[b]);
            } else if a < n {
                assert(keys.contains(keys[a]));
            } else {
                assert(keys.contains(keys[b]));
            }
        }
    }
}

/// What `lookup` gives after an insertion, from what it gave before.
proof fn lemma_lookup_after_insert<V>(
    before: StringMap<V>,
    after: StringMap<V>,
    key: Seq<char>,
    value: V,
)
    requires
        before.well_formed(),
        before.key_seq().contains(key) ==> {
            &&& after.key_seq() == before.key_seq()
            &&& after.value_seq() == before.value_seq().update(
                before.key_seq().index_of(key),
                value,
            )
        },
        !before.key_seq().contains(key) ==> {
            &&& after.key_seq() == before.key_seq().push(key)
            &&& after.value_seq() == before.value_seq().push(value)
        },
    ensures
        after.well_formed(),
        after.lookup(key) == Some(value),
        forall|other: Seq<char>|
            other != key ==> #[trigger] after.lookup(other) == before.lookup(other),
{
    let old_keys = before.key_seq();
    let new_keys = after.key_seq();
    before.lemma_lengths();
    after.lemma_lengths();
    if old_keys.contains(key) {
        let i = old_keys.index_of(key);
        after.lemma_lookup_at(i);
        assert forall|other: Seq<char>| other != key implies #[trigger] after.lookup(other)
            == before.lookup(other) by {
            if old_keys.contains(other) {
                let j = old_keys.index_of(other);
                assert(j != i);
            }
        }
    } else {
        let n = old_keys.len() as int;
        assert(new_keys[n] == key);
        lemma_keys_after_insert(old_keys, key);
        after.lemma_lookup_at(n);
        assert forall|other: Seq<char>| other != key implies #[trigger] after.lookup(other)
            == before.lookup(other) by {
            if old_keys.contains(other) {
                let j = old_keys.index_of(other);
                assert(new_keys[j] == other);
                after.lemma_lookup_at(j);
            } else {
                if new_keys.contains(other) {
                    let j = new_keys.index_of(other);
                    assert(j < n);
                    assert(old_keys[j] == other);
                }
            }
        }
    }
}

impl<V: View> View for StringMap<V> {
    type V = Map<Seq<char>, V::V>;

    /// The map from each key to the view of its value.
    open spec fn view(&self) -> Map<Seq<char>, V::V> {
        Map::new(
            |key: Seq<char>| self.key_seq().contains(key),
            |key: Seq<char>| self.value_seq()[self.key_seq().index_of(key)]@,
        )
    }
}

/// The view of a well-formed map is a finite map with one binding for each
/// entry: its keys are the keys of the entries, and each is bound to the view of
/// what `lookup` finds.
pub proof fn lemma_view_of_entries<V: View>(map: StringMap<V>)
    requires
        map.well_formed(),
    ensures
        map.key_seq().no_duplicates(),
        map@.dom() == map.key_seq().to_set(),
        map@.dom().finite(),
        map@.len() == map.key_seq().len(),
        forall|key: Seq<char>|
            #[trigger] map@.contains_key(key) ==> map.lookup(key) is Some && map@[key]
                == map.lookup(key)->0@,
{
    vstd::seq_lib::seq_to_set_is_finite(map.key_seq());
    map.key_seq().unique_seq_to_set();
    assert(map@.dom() =~= map.key_seq().to_set());
}

/// Two maps with the same keys in the same order, whose values agree in their
/// views entry by entry, have the same view.
pub proof fn lemma_same_entries_same_view<V: View, W: View<V = V::V>>(
    left: StringMap<V>,
    right: StringMap<W>,
)
    requires
        left.key_seq() == right.key_seq(),
        forall|i: int|
            0 <= i < left.key_seq().len() ==> (#[trigger] left.value_seq()[i])@
                == right.value_seq()[i]@,
    ensures
        left@ == right@,
{
    left.lemma_lengths();
    right.lemma_lengths();
    assert forall|key: Seq<char>| left.key_seq().contains(key) implies
        left.value_seq()[left.key_seq().index_of(key)]@
        == right.value_seq()[right.key_seq().index_of(key)]@ by {
        let i = left.key_seq().index_of(key);
        assert(0 <= i < left.key_seq().len());
        assert(left.value_seq()[i]@ == right.value_seq()[i]@);
    }
    assert(left@ =~= right@);
}

impl<V: View> StringMap<V> {
    /// A copy of the map: the same keys in the same order, each value cloned.
    pub fn duplicate(&self) -> (copy: Self) where V: Clone
        requires
            clone_keeps_view::<V>(),
        ensures
            copy.key_seq() == self.key_seq(),
            copy@ == self@,
    {
        let mut entries: Vec<(String, V)> = Vec::new();
        let mut i: usize = 0;
        while i < self.entries.len()
            invariant
                i <= self.entries@.len(),
                entries@.len() == i,
                clone_keeps_view::<V>(),
                forall|j: int|
                    0 <= j < i ==> (#[trigger] entries@[j]).0@ == self.entries@[j].0@
                        && entries@[j].1@ == self.entries@[j].1@,
            decreases self.entries@.len() - i,
        {
            let key = self.entries[i].0.clone();
            let value = self.entries[i].1.clone();
            entries.push((key, value));
            i += 1;
        }
        proof {
            use_type_invariant(self);
            assert(Seq::new(entries@.len(), |j: int| entries@[j].0@) =~= self.key_seq());
        }
        StringMap { entries }
    }

    /// The map with the same keys whose values are those of `self` after
    /// `convert`. Where `convert` keeps the view of what it is given, the result has
    /// the view of `self`.
    pub fn convert<W: View<V = V::V>, F: Fn(&V) -> W>(&self, convert: F) -> (out: StringMap<W>)
        requires
            forall|value: V| call_requires(convert, (&value,)),
            forall|value: V, made: W| call_ensures(convert, (&value,), made) ==> made@ == value@,
        ensures
            out.key_seq() == self.key_seq(),
            out@ == self@,
    {
        let mut entries: Vec<(String, W)> = Vec::new();
        let mut i: usize = 0;
        while i < self.entries.len()
            invariant
                i <= self.entries@.len(),
                entries@.len() == i,
                forall|value: V| call_requires(convert, (&value,)),
                forall|value: V, made: W|
                    call_ensures(convert, (&value,), made) ==> made@ == value@,
                forall|j: int|
                    0 <= j < i ==> (#[trigger] entries@[j]).0@ == self.entries@[j].0@
                        && entries@[j].1@ == self.entries@[j].1@,
            decreases self.entries@.len() - i,
        {
            let key = self.entries[i].0.clone();
            let value = convert(&self.entries[i].1);
            entries.push((key, value));
            i += 1;
        }
        proof {
            use_type_invariant(self);
            assert(Seq::new(entries@.len(), |j: int| entries@[j].0@) =~= self.key_seq());
        }
        StringMap { entries }
    }
}

} // verus!
