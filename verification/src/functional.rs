//! Helpers that work on any list: mapping, filtering, folding, finding and
//! grouping. Each contract is stated over what the given function ensures.

use std::collections::HashMap;
use std::hash::Hash;
use vstd::prelude::*;
use vstd::std_specs::hash::*;

verus! {

broadcast use group_hash_axioms;

/// The items of `items` at whose position `keep` is true, in order.
pub open spec fn kept<T>(items: Seq<T>, keep: Seq<bool>) -> Seq<T>
    decreases items.len(),
{
    if items.len() == 0 || keep.len() != items.len() {
        Seq::empty()
    } else if keep.last() {
        kept(items.drop_last(), keep.drop_last()).push(items.last())
    } else {
        kept(items.drop_last(), keep.drop_last())
    }
}

/// The items of `items` at whose position `keys` holds `key`, in order.
pub open spec fn members_of<T, K>(items: Seq<T>, keys: Seq<K>, key: K) -> Seq<T>
    decreases items.len(),
{
    if items.len() == 0 || keys.len() != items.len() {
        Seq::empty()
    } else if keys.last() == key {
        members_of(items.drop_last(), keys.drop_last(), key).push(items.last())
    } else {
        members_of(items.drop_last(), keys.drop_last(), key)
    }
}

/// `answers` holds, for each item, an answer that `f` may give for it.
pub open spec fn answers_of<T, F: Fn(&T) -> bool>(f: F, items: Seq<T>, answers: Seq<bool>) -> bool {
    &&& answers.len() == items.len()
    &&& forall|i: int| 0 <= i < items.len() ==> call_ensures(f, (&items[i],), #[trigger] answers[i])
}

/// `steps` is a run of the fold of `f` over `items` from `initial`: it begins
/// with `initial`, and each further value is what `f` may make of the value
/// before it and the next item.
pub open spec fn fold_run<T, F: Fn(T, T) -> T>(
    f: F,
    items: Seq<T>,
    initial: T,
    steps: Seq<T>,
) -> bool {
    &&& steps.len() == items.len() + 1
    &&& steps[0] == initial
    &&& forall|i: int|
        0 <= i < items.len() ==> call_ensures(f, (steps[i], items[i]), #[trigger] steps[i + 1])
}

/// `keys` holds, for each item, a key that `key_fn` may give for it, and
/// `groups` holds under each of these keys the items that have it, in order.
pub open spec fn grouping_of<T, K, F: Fn(&T) -> K>(
    key_fn: F,
    items: Seq<T>,
    keys: Seq<K>,
    groups: Map<K, Vec<T>>,
) -> bool {
    &&& keys.len() == items.len()
    &&& forall|i: int|
        0 <= i < items.len() ==> call_ensures(key_fn, (&items[i],), #[trigger] keys[i])
    &&& forall|key: K| #[trigger] groups.contains_key(key) <==> keys.contains(key)
    &&& forall|key: K| #[trigger]
        groups.contains_key(key) ==> groups[key]@ == members_of(items, keys, key)
}

/// Applies `f` to each item, in order.
pub fn map<T, U, F>(items: Vec<T>, f: F) -> (out: Vec<U>) where F: Fn(T) -> U
    requires
        forall|i: int| 0 <= i < items@.len() ==> call_requires(f, (#[trigger] items@[i],)),
    ensures
        out@.len() == items@.len(),
        forall|i: int| 0 <= i < items@.len() ==> call_ensures(f, (items@[i],), #[trigger] out@[i]),
{
    let ghost given = items@;
    let mut out: Vec<U> = Vec::new();
    for item in it: items
        invariant
            it.seq() == given,
            forall|i: int| 0 <= i < given.len() ==> call_requires(f, (#[trigger] given[i],)),
            out@.len() == it.index(),
            forall|i: int| 0 <= i < it.index() ==> call_ensures(f, (given[i],), #[trigger] out@[i]),
    {
        out.push(f(item));
    }
    out
}

/// Keeps the items for which `f` answers true, in order.
pub fn filter<T, F>(items: Vec<T>, f: F) -> (out: Vec<T>) where F: Fn(&T) -> bool
    requires
        forall|i: int| 0 <= i < items@.len() ==> call_requires(f, (&#[trigger] items@[i],)),
    ensures
        exists|answers: Seq<bool>| #[trigger]
            answers_of(f, items@, answers) && out@ == kept(items@, answers),
{
    let ghost given = items@;
    let ghost mut answers: Seq<bool> = Seq::empty();
    let mut out: Vec<T> = Vec::new();
    for item in it: items
        invariant
            it.seq() == given,
            forall|i: int| 0 <= i < given.len() ==> call_requires(f, (&#[trigger] given[i],)),
            answers_of(f, given.take(it.index()), answers),
            out@ == kept(given.take(it.index()), answers),
    {
        let keep = f(&item);
        proof {
            let longer = given.take(it.index() + 1);
            assert(longer.drop_last() =~= given.take(it.index()));
            assert(answers.push(keep).drop_last() =~= answers);
            answers = answers.push(keep);
        }
        if keep {
            out.push(item);
        }
    }
    proof {
        assert(given.take(given.len() as int) =~= given);
    }
    out
}

/// Folds `items` from the left: starts with `initial` and puts each item in
/// turn into the value so far. An empty list yields `initial`. `f` must
/// accept every value that the fold can reach together with the next item.
pub fn reduce<T, F>(items: Vec<T>, initial: T, f: F) -> (out: T) where F: Fn(T, T) -> T
    requires
        forall|i: int, steps: Seq<T>|
            0 <= i < items@.len() && #[trigger] fold_run(f, items@.take(i), initial, steps)
                ==> call_requires(f, (steps.last(), items@[i])),
    ensures
        exists|steps: Seq<T>| #[trigger] fold_run(f, items@, initial, steps) && out == steps.last(),
        items@.len() == 0 ==> out == initial,
{
    let ghost given = items@;
    let ghost mut steps: Seq<T> = seq![initial];
    let mut out = initial;
    for item in it: items
        invariant
            it.seq() == given,
            forall|i: int, steps: Seq<T>|
                0 <= i < given.len() && #[trigger] fold_run(f, given.take(i), initial, steps)
                    ==> call_requires(f, (steps.last(), given[i])),
            fold_run(f, given.take(it.index()), initial, steps),
            out == steps.last(),
            it.index() == 0 ==> out == initial,
    {
        let next = f(out, item);
        proof {
            steps = steps.push(next);
        }
        out = next;
    }
    proof {
        assert(given.take(given.len() as int) =~= given);
    }
    out
}

/// The first item for which `f` answers true, if there is one.
pub fn find<T, F>(items: &[T], f: F) -> (found: Option<&T>) where F: Fn(&T) -> bool
    requires
        forall|i: int| 0 <= i < items@.len() ==> call_requires(f, (&#[trigger] items@[i],)),
    ensures
        match found {
            Some(item) => exists|at: int|
                0 <= at < items@.len() && *item == #[trigger] items@[at] && call_ensures(
                    f,
                    (&items@[at],),
                    true,
                ) && forall|i: int| 0 <= i < at ==> call_ensures(f, (&#[trigger] items@[i],), false),
            None => forall|i: int|
                0 <= i < items@.len() ==> call_ensures(f, (&#[trigger] items@[i],), false),
        },
{
    let mut at: usize = 0;
    while at < items.len()
        invariant
            at <= items@.len(),
            forall|i: int| 0 <= i < items@.len() ==> call_requires(f, (&#[trigger] items@[i],)),
            forall|i: int| 0 <= i < at ==> call_ensures(f, (&#[trigger] items@[i],), false),
        decreases items@.len() - at,
    {
        if f(&items[at]) {
            return Some(&items[at]);
        }
        at += 1;
    }
    None
}

/// Sorts `items` into groups by the key that `key_fn` gives each. Within a
/// group the items keep the order in which they came.
pub fn group_by<T, K, F>(items: Vec<T>, key_fn: F) -> (groups: HashMap<K, Vec<T>>) where
    K: Hash + Eq,
    F: Fn(&T) -> K,

    requires
        forall|i: int| 0 <= i < items@.len() ==> call_requires(key_fn, (&#[trigger] items@[i],)),
    ensures
        obeys_key_model::<K>() ==> exists|keys: Seq<K>| #[trigger]
            grouping_of(key_fn, items@, keys, groups@),
{
    let ghost given = items@;
    let ghost mut keys: Seq<K> = Seq::empty();
    let mut groups: HashMap<K, Vec<T>> = HashMap::new();
    for item in it: items
        invariant
            it.seq() == given,
            forall|i: int| 0 <= i < given.len() ==> call_requires(key_fn, (&#[trigger] given[i],)),
            obeys_key_model::<K>() ==> grouping_of(key_fn, given.take(it.index()), keys, groups@),
    {
        let key = key_fn(&item);
        let ghost before = groups@;
        let ghost earlier = keys;
        let ghost shorter = given.take(it.index());
        let ghost longer = given.take(it.index() + 1);
        let mut members = match groups.remove(&key) {
            Some(members) => members,
            None => Vec::new(),
        };
        members.push(item);
        groups.insert(key, members);
        proof {
            keys = keys.push(key);
            if obeys_key_model::<K>() {
                assert(longer.drop_last() =~= shorter);
                assert(keys.drop_last() =~= earlier);
                assert forall|other: K| #[trigger] groups@.contains_key(other) implies groups@[other]@
                    == members_of(longer, keys, other) by {
                    if other == key {
                        if !before.contains_key(key) {
                            lemma_no_members(shorter, earlier, key);
                        }
                    }
                }
            }
        }
    }
    proof {
        assert(given.take(given.len() as int) =~= given);
    }
    groups
}

/// A key that stands at no position has no members.
pub proof fn lemma_no_members<T, K>(items: Seq<T>, keys: Seq<K>, key: K)
    requires
        !keys.contains(key),
    ensures
        members_of(items, keys, key) == Seq::<T>::empty(),
    decreases items.len(),
{
    if items.len() != 0 && keys.len() == items.len() {
        lemma_no_members(items.drop_last(), keys.drop_last(), key);
    }
}

} // verus!
