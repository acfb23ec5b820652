//! A small map keyed by strings, kept as a list of entries with distinct keys.

use crate::text::str_eq;
use vstd::prelude::*;
use vstd::std_specs::cmp::PartialEqSpec;

verus! {

/// A finite map from strings to values of type `V`.
///
/// Its view is the mathematical map from the characters of each key to the
/// value stored under it. The entries keep the order in which their keys
/// first arrived; [`StringMap::key_at`] and [`StringMap::value_at`] walk them.
/// Two maps are equal when they hold equal values under the same keys, in
/// whatever order.
#[derive(Debug)]
pub struct StringMap<V> {
    entries: Vec<(String, V)>,
}

/// No two entries have the same key.
spec fn distinct_keys<V>(entries: Seq<(String, V)>) -> bool {
    forall|i: int, j: int|
        0 <= i < j < entries.len() ==> (#[trigger] entries[i]).0@ != (#[trigger] entries[j]).0@
}

/// An index at which `key` stands in `entries`, if there is one.
spec fn position_of<V>(entries: Seq<(String, V)>, key: Seq<char>) -> int {
    choose|i: int| 0 <= i < entries.len() && (#[trigger] entries[i]).0@ == key
}

/// The map that a list of entries stands for.
spec fn entries_map<V>(entries: Seq<(String, V)>) -> Map<Seq<char>, V> {
    Map::new(
        |key: Seq<char>| exists|i: int| 0 <= i < entries.len() && (#[trigger] entries[i]).0@ == key,
        |key: Seq<char>| entries[position_of(entries, key)].1,
    )
}

/// With distinct keys, the map holds each entry's value under its key.
proof fn lemma_entry_in_map<V>(entries: Seq<(String, V)>, i: int)
    requires
        distinct_keys(entries),
        0 <= i < entries.len(),
    ensures
        entries_map(entries).contains_key(entries[i].0@),
        entries_map(entries)[entries[i].0@] == entries[i].1,
{
    let at = position_of(entries, entries[i].0@);
    assert(at == i) by {
        assert(entries[at].0@ == entries[i].0@);
    }
}

impl<V> View for StringMap<V> {
    type V = Map<Seq<char>, V>;

    closed spec fn view(&self) -> Map<Seq<char>, V> {
        entries_map(self.entries@)
    }
}

impl<V> StringMap<V> {
    #[verifier::type_invariant]
    spec fn keys_are_distinct(self) -> bool {
        distinct_keys(self.entries@)
    }

    /// The number of entries.
    pub closed spec fn spec_len(&self) -> nat {
        self.entries@.len()
    }

    /// The key of the entry at position `i`.
    pub closed spec fn spec_key(&self, i: int) -> Seq<char> {
        self.entries@[i].0@
    }

    /// The value of the entry at position `i`.
    pub closed spec fn spec_value(&self, i: int) -> V {
        self.entries@[i].1
    }

    /// The entries are exactly the pairs of the map, each once.
    pub open spec fn entries_match_view(&self) -> bool {
        &&& forall|i: int|
            0 <= i < self.spec_len() ==> self@.contains_key(#[trigger] self.spec_key(i))
                && self@[self.spec_key(i)] == self.spec_value(i)
        &&& forall|key: Seq<char>| #[trigger]
            self@.contains_key(key) ==> exists|i: int|
                0 <= i < self.spec_len() && #[trigger] self.spec_key(i) == key
        &&& forall|i: int, j: int|
            0 <= i < j < self.spec_len() ==> #[trigger] self.spec_key(i) != #[trigger] self.spec_key(j)
    }

    proof fn lemma_entries_match_view(&self)
        requires
            distinct_keys(self.entries@),
        ensures
            self.entries_match_view(),
    {
        let entries = self.entries@;
        assert forall|key: Seq<char>| #[trigger] self@.contains_key(key) implies exists|i: int|
            0 <= i < self.spec_len() && #[trigger] self.spec_key(i) == key by {
            let i = position_of(entries, key);
            assert(self.spec_key(i) == key);
        }
    }

    /// The empty map.
    pub fn new() -> (out: Self)
        ensures
            out@ == Map::<Seq<char>, V>::empty(),
            out.spec_len() == 0,
    {
        StringMap { entries: Vec::new() }
    }

    /// The number of entries.
    pub fn len(&self) -> (n: usize)
        ensures
            n == self.spec_len(),
            self.entries_match_view(),
    {
        proof {
            use_type_invariant(self);
            self.lemma_entries_match_view();
        }
        self.entries.len()
    }

    /// Whether the map has no entry.
    pub fn is_empty(&self) -> (b: bool)
        ensures
            b == (self.spec_len() == 0),
            b == (self@ == Map::<Seq<char>, V>::empty()),
    {
        proof {
            use_type_invariant(self);
            self.lemma_entries_match_view();
            if self.entries@.len() == 0 {
                assert(self@ =~= Map::<Seq<char>, V>::empty());
            } else {
                assert(self@.contains_key(self.spec_key(0)));
            }
        }
        self.entries.len() == 0
    }

    /// The key of the entry at position `i`.
    pub fn key_at(&self, i: usize) -> (key: &String)
        requires
            i < self.spec_len(),
        ensures
            key@ == self.spec_key(i as int),
    {
        &self.entries[i].0
    }

    /// The value of the entry at position `i`.
    pub fn value_at(&self, i: usize) -> (value: &V)
        requires
            i < self.spec_len(),
        ensures
            *value == self.spec_value(i as int),
    {
        &self.entries[i].1
    }

    /// The position of the entry with key `key`, if there is one.
    fn find_index(&self, key: &str) -> (found: Option<usize>)
        ensures
            match found {
                Some(i) => i < self.entries@.len() && self.entries@[i as int].0@ == key@,
                None => forall|j: int|
                    0 <= j < self.entries@.len() ==> (#[trigger] self.entries@[j]).0@ != key@,
            },
    {
        let mut i: usize = 0;
        while i < self.entries.len()
            invariant
                i <= self.entries@.len(),
                forall|j: int| 0 <= j < i ==> (#[trigger] self.entries@[j]).0@ != key@,
            decreases self.entries@.len() - i,
        {
            if str_eq(self.entries[i].0.as_str(), key) {
                return Some(i);
            }
            i += 1;
        }
        None
    }

    /// Whether the map has an entry under `key`.
    pub fn contains_key(&self, key: &str) -> (b: bool)
        ensures
            b == self@.contains_key(key@),
    {
        self.find_index(key).is_some()
    }

    /// The value stored under `key`, if there is one.
    pub fn get(&self, key: &str) -> (found: Option<&V>)
        ensures
            match found {
                Some(value) => self@.contains_key(key@) && *value == self@[key@],
                None => !self@.contains_key(key@),
            },
    {
        match self.find_index(key) {
            Some(i) => {
                proof {
                    use_type_invariant(self);
                    lemma_entry_in_map(self.entries@, i as int);
                }
                Some(&self.entries[i].1)
            },
            None => None,
        }
    }

    /// Stores `value` under `key` and returns what stood there before.
    pub fn insert(&mut self, key: String, value: V) -> (previous: Option<V>)
        ensures
            final(self)@ == old(self)@.insert(key@, value),
            match previous {
                Some(before) => old(self)@.contains_key(key@) && before == old(self)@[key@],
                None => !old(self)@.contains_key(key@),
            },
    {
        proof {
            use_type_invariant(&*self);
        }
        let ghost before = self.entries@;
        let found = self.find_index(key.as_str());
        let mut entries: Vec<(String, V)> = Vec::new();
        std::mem::swap(&mut self.entries, &mut entries);
        match found {
            Some(i) => {
                proof {
                    lemma_entry_in_map(before, i as int);
                }
                let (_, previous) = entries.remove(i);
                entries.insert(i, (key, value));
                proof {
                    let now = entries@;
                    assert forall|k: Seq<char>| #[trigger]
                        entries_map(now).contains_key(k) == old(self)@.insert(
                            key@,
                            value,
                        ).contains_key(k) by {
                        if entries_map(before).contains_key(k) {
                            assert(now[position_of(before, k)].0@ == k);
                        }
                    }
                }
                self.entries = entries;
                Some(previous)
            },
            None => {
                entries.push((key, value));
                proof {
                    let now = entries@;
                    let last = now.len() - 1;
                    assert forall|k: Seq<char>| #[trigger]
                        entries_map(now).contains_key(k) == old(self)@.insert(
                            key@,
                            value,
                        ).contains_key(k) by {
                        if entries_map(now).contains_key(k) {
                            assert(now[position_of(now, k)].0@ == k);
                        }
                        if entries_map(before).contains_key(k) {
                            assert(now[position_of(before, k)].0@ == k);
                        }
                        if k == key@ {
                            assert(now[last].0@ == k);
                        }
                    }
                }
                self.entries = entries;
                None
            },
        }
    }

    /// Takes the entry under `key` out and returns its value.
    pub fn remove(&mut self, key: &str) -> (previous: Option<V>)
        ensures
            final(self)@ == old(self)@.remove(key@),
            match previous {
                Some(before) => old(self)@.contains_key(key@) && before == old(self)@[key@],
                None => !old(self)@.contains_key(key@),
            },
    {
        proof {
            use_type_invariant(&*self);
        }
        let ghost before = self.entries@;
        let found = self.find_index(key);
        match found {
            Some(i) => {
                proof {
                    lemma_entry_in_map(before, i as int);
                }
                let mut entries: Vec<(String, V)> = Vec::new();
                std::mem::swap(&mut self.entries, &mut entries);
                let (_, previous) = entries.remove(i);
                proof {
                    let now = entries@;
                    assert forall|k: Seq<char>| #[trigger]
                        entries_map(now).contains_key(k) == old(self)@.remove(key@).contains_key(
                            k,
                        ) by {
                        if entries_map(now).contains_key(k) {
                            assert(now[position_of(now, k)].0@ == k);
                        }
                        if entries_map(before).contains_key(k) && k != key@ {
                            let a0 = position_of(before, k);
                            let a = if a0 < i { a0 } else { a0 - 1 };
                            assert(now[a] == before[a0]);
                        }
                    }
                }
                self.entries = entries;
                Some(previous)
            },
            None => None,
        }
    }
}

impl<V: Clone> Clone for StringMap<V> {
    /// A copy with the same keys in the same order, each value a clone of the
    /// one it stands for.
    fn clone(&self) -> (out: Self)
        ensures
            out.spec_len() == self.spec_len(),
            forall|i: int|
                0 <= i < self.spec_len() ==> #[trigger] out.spec_key(i) == self.spec_key(i)
                    && cloned::<V>(self.spec_value(i), out.spec_value(i)),
            out@.dom() == self@.dom(),
            forall|key: Seq<char>| #[trigger]
                self@.contains_key(key) ==> cloned::<V>(self@[key], out@[key]),
    {
        proof {
            use_type_invariant(self);
        }
        let mut entries: Vec<(String, V)> = Vec::new();
        let mut i: usize = 0;
        while i < self.entries.len()
            invariant
                i <= self.entries@.len(),
                entries@.len() == i,
                forall|j: int|
                    0 <= j < i ==> (#[trigger] entries@[j]).0@ == self.entries@[j].0@ && cloned::<V>(
                        self.entries@[j].1,
                        entries@[j].1,
                    ),
            decreases self.entries@.len() - i,
        {
            let key = self.entries[i].0.clone();
            let value = self.entries[i].1.clone();
            entries.push((key, value));
            i += 1;
        }
        proof {
            let before = self.entries@;
            let now = entries@;
            assert forall|key: Seq<char>|
                entries_map(now).contains_key(key) == entries_map(before).contains_key(key) by {
                if entries_map(before).contains_key(key) {
                    assert(now[position_of(before, key)].0@ == key);
                }
            }
        }
        StringMap { entries }
    }
}

impl<V> StringMap<V> {
    /// Whether every entry of `self` has an equal value under the same key in
    /// `other`.
    fn is_part_of(&self, other: &Self) -> (part: bool) where V: PartialEq
        ensures
            V::obeys_eq_spec() ==> part == (forall|key: Seq<char>| #[trigger]
                self@.contains_key(key) ==> other@.contains_key(key) && self@[key].eq_spec(
                    &other@[key],
                )),
    {
        proof {
            use_type_invariant(self);
            use_type_invariant(other);
            self.lemma_entries_match_view();
        }
        let mut i: usize = 0;
        while i < self.entries.len()
            invariant
                i <= self.entries@.len(),
                distinct_keys(self.entries@),
                distinct_keys(other.entries@),
                self.entries_match_view(),
                V::obeys_eq_spec() ==> forall|j: int|
                    0 <= j < i ==> other@.contains_key(#[trigger] self.spec_key(j))
                        && self.spec_value(j).eq_spec(&other@[self.spec_key(j)]),
            decreases self.entries@.len() - i,
        {
            match other.find_index(self.entries[i].0.as_str()) {
                Some(at) => {
                    proof {
                        lemma_entry_in_map(other.entries@, at as int);
                    }
                    if !(self.entries[i].1 == other.entries[at].1) {
                        assert(self@.contains_key(self.spec_key(i as int)));
                        return false;
                    }
                },
                None => {
                    assert(self@.contains_key(self.spec_key(i as int)));
                    return false;
                },
            }
            i += 1;
        }
        true
    }
}

impl<V: PartialEq + PartialEqSpec> StringMap<V> {
    /// Whether `self` and `other` hold equal values under the same keys.
    fn same_entries(&self, other: &Self) -> (same: bool)
        ensures
            V::obeys_eq_spec() && values_compare_both_ways::<V>() ==> same == (self@.dom()
                == other@.dom() && forall|key: Seq<char>| #[trigger]
                self@.contains_key(key) ==> self@[key].eq_spec(&other@[key])),
    {
        let forth = self.is_part_of(other);
        let back = other.is_part_of(self);
        proof {
            if V::obeys_eq_spec() && values_compare_both_ways::<V>() {
                if forth && back {
                    assert(self@.dom() =~= other@.dom());
                }
            }
        }
        forth && back
    }
}

impl<V: PartialEq + PartialEqSpec> PartialEq for StringMap<V> {
    fn eq(&self, other: &Self) -> (same: bool) {
        self.same_entries(other)
    }
}

impl<V: PartialEq + PartialEqSpec> vstd::std_specs::cmp::PartialEqSpecImpl for StringMap<V> {
    open spec fn obeys_eq_spec() -> bool {
        V::obeys_eq_spec() && values_compare_both_ways::<V>()
    }

    open spec fn eq_spec(&self, other: &Self) -> bool {
        &&& self@.dom() == other@.dom()
        &&& forall|key: Seq<char>| #[trigger]
            self@.contains_key(key) ==> self@[key].eq_spec(&other@[key])
    }
}

/// Equality on `V` does not depend on the side on which a value stands.
pub open spec fn values_compare_both_ways<V: PartialEqSpec>() -> bool {
    forall|a: V, b: V| #[trigger] a.eq_spec(&b) == b.eq_spec(&a)
}

} // verus!
