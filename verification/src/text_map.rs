//! A map from text keys to values that keeps its entries in the order of
//! their keys, so that listing and writing them is always done in one order.

use crate::text::{
    lemma_text_lt_irreflexive, lemma_text_lt_total, lemma_text_lt_transitive, rank, text_lt, Rank,
};
use vstd::prelude::*;

verus! {

/// Entries in ascending order of their keys; no key occurs twice.
pub open spec fn ascending<T>(items: Seq<(Seq<char>, T)>) -> bool {
    forall|i: int, j: int|
        0 <= i < j < items.len() ==> text_lt(#[trigger] items[i].0, #[trigger] items[j].0)
}

/// The value stored under a key, if there is one.
pub open spec fn lookup<T>(items: Seq<(Seq<char>, T)>, key: Seq<char>) -> Option<T>
    decreases items.len(),
{
    if items.len() == 0 {
        None
    } else if items[0].0 == key {
        Some(items[0].1)
    } else {
        lookup(items.drop_first(), key)
    }
}

/// The entries after `key` was set to `value`: replaced where the key was
/// present, otherwise put in at its place in the order.
pub open spec fn put<T>(items: Seq<(Seq<char>, T)>, key: Seq<char>, value: T) -> Seq<
    (Seq<char>, T),
>
    decreases items.len(),
{
    if items.len() == 0 {
        seq![(key, value)]
    } else if items[0].0 == key {
        seq![(key, value)] + items.drop_first()
    } else if text_lt(key, items[0].0) {
        seq![(key, value)] + items
    } else {
        seq![items[0]] + put(items.drop_first(), key, value)
    }
}

/// The entries after `key` was taken out.
pub open spec fn without<T>(items: Seq<(Seq<char>, T)>, key: Seq<char>) -> Seq<(Seq<char>, T)>
    decreases items.len(),
{
    if items.len() == 0 {
        items
    } else if items[0].0 == key {
        items.drop_first()
    } else {
        seq![items[0]] + without(items.drop_first(), key)
    }
}

/// The entries as a map from key to value.
pub open spec fn as_map<T>(items: Seq<(Seq<char>, T)>) -> Map<Seq<char>, T> {
    Map::new(|k: Seq<char>| lookup(items, k) is Some, |k: Seq<char>| lookup(items, k)->0)
}

/// The first entry with a key is the one that is found.
pub proof fn lemma_lookup_first<T>(items: Seq<(Seq<char>, T)>, key: Seq<char>, at: int)
    requires
        0 <= at < items.len(),
        items[at].0 == key,
        forall|i: int| 0 <= i < at ==> (#[trigger] items[i]).0 != key,
    ensures
        lookup(items, key) == Some(items[at].1),
    decreases at,
{
    if at > 0 {
        let rest = items.drop_first();
        assert(items[0].0 != key);
        assert forall|i: int| 0 <= i < at - 1 implies (#[trigger] rest[i]).0 != key by {
            assert(rest[i] == items[i + 1]);
        }
        assert(rest[at - 1] == items[at]);
        lemma_lookup_first(rest, key, at - 1);
    }
}

/// A key that no entry has is not found.
pub proof fn lemma_lookup_absent<T>(items: Seq<(Seq<char>, T)>, key: Seq<char>)
    requires
        forall|i: int| 0 <= i < items.len() ==> (#[trigger] items[i]).0 != key,
    ensures
        lookup(items, key) is None,
    decreases items.len(),
{
    if items.len() > 0 {
        let rest = items.drop_first();
        assert(items[0].0 != key);
        assert forall|i: int| 0 <= i < rest.len() implies (#[trigger] rest[i]).0 != key by {
            assert(rest[i] == items[i + 1]);
        }
        lemma_lookup_absent(rest, key);
    }
}

/// Every key of the entries comes after `floor`.
pub open spec fn above<T>(floor: Seq<char>, items: Seq<(Seq<char>, T)>) -> bool {
    forall|i: int| 0 <= i < items.len() ==> text_lt(floor, (#[trigger] items[i]).0)
}

proof fn lemma_rest<T>(items: Seq<(Seq<char>, T)>)
    requires
        ascending(items),
        items.len() > 0,
    ensures
        ascending(items.drop_first()),
        above(items[0].0, items.drop_first()),
{
    let rest = items.drop_first();
    assert forall|a: int, b: int| 0 <= a < b < rest.len() implies text_lt(
        #[trigger] rest[a].0,
        #[trigger] rest[b].0,
    ) by {
        assert(rest[a] == items[a + 1]);
        assert(rest[b] == items[b + 1]);
    }
    assert forall|i: int| 0 <= i < rest.len() implies text_lt(
        items[0].0,
        (#[trigger] rest[i]).0,
    ) by {
        assert(rest[i] == items[i + 1]);
    }
}

proof fn lemma_cons<T>(head: (Seq<char>, T), tail: Seq<(Seq<char>, T)>)
    requires
        ascending(tail),
        above(head.0, tail),
    ensures
        ascending(seq![head] + tail),
{
    let all = seq![head] + tail;
    assert forall|a: int, b: int| 0 <= a < b < all.len() implies text_lt(
        #[trigger] all[a].0,
        #[trigger] all[b].0,
    ) by {
        assert(all[b] == tail[b - 1]);
        if a > 0 {
            assert(all[a] == tail[a - 1]);
        }
    }
}

proof fn lemma_cons_above<T>(floor: Seq<char>, head: (Seq<char>, T), tail: Seq<(Seq<char>, T)>)
    requires
        text_lt(floor, head.0),
        above(floor, tail),
    ensures
        above(floor, seq![head] + tail),
{
    let all = seq![head] + tail;
    assert forall|i: int| 0 <= i < all.len() implies text_lt(floor, (#[trigger] all[i]).0) by {
        if i > 0 {
            assert(all[i] == tail[i - 1]);
        }
    }
}

proof fn lemma_rest_above<T>(floor: Seq<char>, items: Seq<(Seq<char>, T)>)
    requires
        above(floor, items),
        items.len() > 0,
    ensures
        text_lt(floor, items[0].0),
        above(floor, items.drop_first()),
{
    let rest = items.drop_first();
    assert forall|i: int| 0 <= i < rest.len() implies text_lt(floor, (#[trigger] rest[i]).0) by {
        assert(rest[i] == items[i + 1]);
    }
}

/// A key below every key of the entries is not among them.
pub proof fn lemma_above_absent<T>(floor: Seq<char>, items: Seq<(Seq<char>, T)>)
    requires
        above(floor, items),
    ensures
        lookup(items, floor) is None,
    decreases items.len(),
{
    if items.len() > 0 {
        lemma_rest_above(floor, items);
        lemma_text_lt_irreflexive(floor);
        lemma_above_absent(floor, items.drop_first());
    }
}

proof fn lemma_put_above<T>(
    floor: Seq<char>,
    items: Seq<(Seq<char>, T)>,
    key: Seq<char>,
    value: T,
)
    requires
        above(floor, items),
        text_lt(floor, key),
    ensures
        above(floor, put(items, key, value)),
    decreases items.len(),
{
    if items.len() == 0 {
    } else {
        let rest = items.drop_first();
        lemma_rest_above(floor, items);
        if items[0].0 == key {
            lemma_cons_above(floor, (key, value), rest);
        } else if text_lt(key, items[0].0) {
            lemma_cons_above(floor, (key, value), items);
        } else {
            lemma_put_above(floor, rest, key, value);
            lemma_cons_above(floor, items[0], put(rest, key, value));
        }
    }
}

proof fn lemma_without_above<T>(floor: Seq<char>, items: Seq<(Seq<char>, T)>, key: Seq<char>)
    requires
        above(floor, items),
    ensures
        above(floor, without(items, key)),
    decreases items.len(),
{
    if items.len() > 0 {
        let rest = items.drop_first();
        lemma_rest_above(floor, items);
        if items[0].0 != key {
            lemma_without_above(floor, rest, key);
            lemma_cons_above(floor, items[0], without(rest, key));
        }
    }
}

/// Setting a key keeps the entries in ascending order.
pub proof fn lemma_put_ascending<T>(items: Seq<(Seq<char>, T)>, key: Seq<char>, value: T)
    requires
        ascending(items),
    ensures
        ascending(put(items, key, value)),
    decreases items.len(),
{
    if items.len() == 0 {
    } else {
        let rest = items.drop_first();
        lemma_rest(items);
        if items[0].0 == key {
            lemma_cons((key, value), rest);
        } else if text_lt(key, items[0].0) {
            assert(above(key, items)) by {
                assert forall|i: int| 0 <= i < items.len() implies text_lt(
                    key,
                    (#[trigger] items[i]).0,
                ) by {
                    if i > 0 {
                        lemma_text_lt_transitive(key, items[0].0, items[i].0);
                    }
                }
            }
            lemma_cons((key, value), items);
        } else {
            lemma_put_ascending(rest, key, value);
            lemma_text_lt_total(key, items[0].0);
            lemma_put_above(items[0].0, rest, key, value);
            lemma_cons(items[0], put(rest, key, value));
        }
    }
}

/// After a key was set, it holds the new value and every other key holds
/// what it held before.
pub proof fn lemma_lookup_put<T>(
    items: Seq<(Seq<char>, T)>,
    key: Seq<char>,
    value: T,
    other: Seq<char>,
)
    ensures
        lookup(put(items, key, value), other) == (if other == key {
            Some(value)
        } else {
            lookup(items, other)
        }),
    decreases items.len(),
{
    let out = put(items, key, value);
    if items.len() == 0 {
        assert(out.drop_first() =~= items);
    } else {
        let rest = items.drop_first();
        if items[0].0 == key {
            assert(out.drop_first() =~= rest);
        } else if text_lt(key, items[0].0) {
            assert(out.drop_first() =~= items);
        } else {
            lemma_lookup_put(rest, key, value, other);
            assert(out.drop_first() =~= put(rest, key, value));
        }
    }
}

/// Taking a key out keeps the entries in ascending order.
pub proof fn lemma_without_ascending<T>(items: Seq<(Seq<char>, T)>, key: Seq<char>)
    requires
        ascending(items),
    ensures
        ascending(without(items, key)),
    decreases items.len(),
{
    if items.len() > 0 {
        let rest = items.drop_first();
        lemma_rest(items);
        if items[0].0 != key {
            lemma_without_ascending(rest, key);
            lemma_without_above(items[0].0, rest, key);
            lemma_cons(items[0], without(rest, key));
        }
    }
}

/// After a key was taken out, nothing is stored under it and every other
/// key holds what it held before.
pub proof fn lemma_lookup_without<T>(items: Seq<(Seq<char>, T)>, key: Seq<char>, other: Seq<char>)
    requires
        ascending(items),
    ensures
        lookup(without(items, key), other) == (if other == key {
            None
        } else {
            lookup(items, other)
        }),
    decreases items.len(),
{
    let out = without(items, key);
    if items.len() > 0 {
        let rest = items.drop_first();
        lemma_rest(items);
        if items[0].0 == key {
            lemma_above_absent(key, rest);
        } else {
            lemma_lookup_without(rest, key, other);
            assert(out.drop_first() =~= without(rest, key));
        }
    }
}

/// On maps, setting a key is `insert` and taking it out is `remove`.
pub proof fn lemma_as_map<T>(items: Seq<(Seq<char>, T)>, key: Seq<char>, value: T)
    requires
        ascending(items),
    ensures
        as_map(put(items, key, value)) == as_map(items).insert(key, value),
        as_map(without(items, key)) == as_map(items).remove(key),
{
    assert forall|k: Seq<char>| #[trigger]
        lookup(put(items, key, value), k) == (if k == key {
            Some(value)
        } else {
            lookup(items, k)
        }) by {
        lemma_lookup_put(items, key, value, k);
    }
    assert forall|k: Seq<char>| #[trigger]
        lookup(without(items, key), k) == (if k == key {
            None
        } else {
            lookup(items, k)
        }) by {
        lemma_lookup_without(items, key, k);
    }
    assert(as_map(put(items, key, value)) =~= as_map(items).insert(key, value));
    assert(as_map(without(items, key)) =~= as_map(items).remove(key));
}

/// A key that comes after every key present is put at the end.
pub proof fn lemma_put_last<T>(items: Seq<(Seq<char>, T)>, key: Seq<char>, value: T)
    requires
        forall|i: int| 0 <= i < items.len() ==> text_lt((#[trigger] items[i]).0, key),
    ensures
        put(items, key, value) == items.push((key, value)),
    decreases items.len(),
{
    if items.len() == 0 {
        assert(put(items, key, value) =~= items.push((key, value)));
    } else {
        let rest = items.drop_first();
        lemma_text_lt_irreflexive(key);
        assert(text_lt(items[0].0, key));
        if text_lt(key, items[0].0) {
            lemma_text_lt_transitive(key, items[0].0, key);
        }
        assert forall|i: int| 0 <= i < rest.len() implies text_lt((#[trigger] rest[i]).0, key) by {
            assert(rest[i] == items[i + 1]);
        }
        lemma_put_last(rest, key, value);
        assert(put(items, key, value) =~= items.push((key, value)));
    }
}

#[derive(Debug, PartialEq, Eq)]
struct Entry<V> {
    key: String,
    value: V,
}

/// A map from text keys to values, kept in ascending order of the keys.
#[derive(Debug, PartialEq, Eq)]
pub struct TextMap<V: View> {
    entries: Vec<Entry<V>>,
}

impl<V: View> TextMap<V> {
    /// The entries in the order in which they are kept, each value by its view.
    pub closed spec fn items(&self) -> Seq<(Seq<char>, V::V)> {
        Seq::new(self.entries@.len(), |i: int| (self.entries@[i].key@, self.entries@[i].value@))
    }

    /// The values in the order of their keys.
    pub closed spec fn values(&self) -> Seq<V> {
        Seq::new(self.entries@.len(), |i: int| self.entries@[i].value)
    }

    /// Each entry holds the view of the value at its position.
    pub proof fn lemma_values(self)
        ensures
            self.values().len() == self.items().len(),
            forall|i: int|
                0 <= i < self.items().len() ==> (#[trigger] self.items()[i]).1
                    == self.values()[i]@,
    {
    }

    #[verifier::type_invariant]
    spec fn kept_ascending(&self) -> bool {
        ascending(self.items())
    }

    /// The map from each key to the view of its value.
    pub open spec fn view(&self) -> Map<Seq<char>, V::V> {
        as_map(self.items())
    }

    /// A map without entries.
    pub fn new() -> (m: Self)
        ensures
            m.items() == Seq::<(Seq<char>, V::V)>::empty(),
            ascending(m.items()),
    {
        let m = TextMap { entries: Vec::new() };
        assert(m.items() =~= Seq::<(Seq<char>, V::V)>::empty());
        m
    }

    /// The number of entries. The entries are in ascending order of their
    /// keys at any time, which is stated here for those who walk them.
    pub fn len(&self) -> (n: usize)
        ensures
            n == self.items().len(),
            ascending(self.items()),
    {
        proof {
            use_type_invariant(self);
        }
        self.entries.len()
    }

    pub fn is_empty(&self) -> (empty: bool)
        ensures
            empty == (self.items().len() == 0),
    {
        self.entries.len() == 0
    }

    /// The entry at a position in key order, if the position exists.
    pub fn entry(&self, index: usize) -> (e: Option<(&str, &V)>)
        ensures
            ascending(self.items()),
            match e {
                Some((k, v)) => index < self.items().len() && self.items()[index as int] == (
                    k@,
                    v@,
                ),
                None => index >= self.items().len(),
            },
    {
        proof {
            use_type_invariant(self);
        }
        if index < self.entries.len() {
            let e = &self.entries[index];
            Some((e.key.as_str(), &e.value))
        } else {
            None
        }
    }

    /// The position of a key, or the position at which it would be put.
    fn position(&self, key: &str) -> (at: (usize, bool))
        ensures
            at.0 <= self.items().len(),
            forall|i: int| 0 <= i < at.0 ==> text_lt((#[trigger] self.items()[i]).0, key@),
            at.1 ==> at.0 < self.items().len() && self.items()[at.0 as int].0 == key@,
            !at.1 ==> forall|i: int|
                at.0 <= i < self.items().len() ==> text_lt(key@, (#[trigger] self.items()[i]).0),
    {
        proof {
            use_type_invariant(self);
        }
        let mut i: usize = 0;
        while i < self.entries.len()
            invariant
                i <= self.entries@.len(),
                self.entries@.len() == self.items().len(),
                ascending(self.items()),
                forall|k: int| 0 <= k < i ==> text_lt((#[trigger] self.items()[k]).0, key@),
            decreases self.entries@.len() - i,
        {
            let r = rank(self.entries[i].key.as_str(), key);
            proof {
                assert(self.items()[i as int].0 == self.entries@[i as int].key@);
            }
            match r {
                Rank::Before => {},
                Rank::Same => {
                    return (i, true);
                },
                Rank::After => {
                    proof {
                        lemma_text_lt_total(self.items()[i as int].0, key@);
                        assert forall|k: int| i <= k < self.items().len() implies text_lt(
                            key@,
                            (#[trigger] self.items()[k]).0,
                        ) by {
                            if k > i {
                                lemma_text_lt_transitive(
                                    key@,
                                    self.items()[i as int].0,
                                    self.items()[k].0,
                                );
                            }
                        }
                    }
                    return (i, false);
                },
            }
            i += 1;
        }
        (i, false)
    }

    pub fn contains_key(&self, key: &str) -> (found: bool)
        ensures
            found == self@.contains_key(key@),
            found == (lookup(self.items(), key@) is Some),
    {
        let (at, found) = self.position(key);
        proof {
            use_type_invariant(self);
            self.lemma_position_lookup(key@, at as int, found);
        }
        found
    }

    /// The value stored under a key.
    pub fn get(&self, key: &str) -> (value: Option<&V>)
        ensures
            match value {
                Some(v) => lookup(self.items(), key@) == Some(v@) && self@.contains_key(key@)
                    && self@[key@] == v@,
                None => lookup(self.items(), key@) is None && !self@.contains_key(key@),
            },
    {
        let (at, found) = self.position(key);
        proof {
            use_type_invariant(self);
            self.lemma_position_lookup(key@, at as int, found);
        }
        if found {
            Some(&self.entries[at].value)
        } else {
            None
        }
    }

    proof fn lemma_position_lookup(&self, key: Seq<char>, at: int, found: bool)
        requires
            ascending(self.items()),
            0 <= at <= self.items().len(),
            forall|i: int| 0 <= i < at ==> text_lt((#[trigger] self.items()[i]).0, key),
            found ==> at < self.items().len() && self.items()[at].0 == key,
            !found ==> forall|i: int|
                at <= i < self.items().len() ==> text_lt(key, (#[trigger] self.items()[i]).0),
        ensures
            found ==> lookup(self.items(), key) == Some(self.items()[at].1),
            !found ==> lookup(self.items(), key) is None,
    {
        lemma_lookup_at(self.items(), key, at, found);
    }

    /// Stores `value` under `key` and hands back what was stored there before.
    pub fn insert(&mut self, key: String, value: V) -> (previous: Option<V>)
        ensures
            final(self).items() == put(old(self).items(), key@, value@),
            final(self)@ == old(self)@.insert(key@, value@),
            ascending(final(self).items()),
            match previous {
                Some(v) => lookup(old(self).items(), key@) == Some(v@),
                None => lookup(old(self).items(), key@) is None,
            },
    {
        let (at, found) = self.position(key.as_str());
        let ghost before = self.items();
        proof {
            use_type_invariant(&*self);
            self.lemma_position_lookup(key@, at as int, found);
            lemma_put_at(before, key@, value@, at as int, found);
            lemma_put_ascending(before, key@, value@);
            lemma_as_map(before, key@, value@);
        }
        let mut entries: Vec<Entry<V>> = Vec::new();
        std::mem::swap(&mut entries, &mut self.entries);
        let previous = if found {
            let old_entry = entries.remove(at);
            Some(old_entry.value)
        } else {
            None
        };
        entries.insert(at, Entry { key, value });
        proof {
            let after = Seq::new(entries@.len(), |i: int| (entries@[i].key@, entries@[i].value@));
            assert(after =~= put(before, key@, value@));
        }
        self.entries = entries;
        proof {
            assert(self.items() =~= put(before, key@, value@));
        }
        previous
    }

    /// Takes the entry of `key` out and hands back its value.
    pub fn remove(&mut self, key: &str) -> (previous: Option<V>)
        ensures
            final(self).items() == without(old(self).items(), key@),
            final(self)@ == old(self)@.remove(key@),
            ascending(final(self).items()),
            match previous {
                Some(v) => lookup(old(self).items(), key@) == Some(v@),
                None => lookup(old(self).items(), key@) is None,
            },
    {
        let (at, found) = self.position(key);
        let ghost before = self.items();
        proof {
            use_type_invariant(&*self);
            self.lemma_position_lookup(key@, at as int, found);
            lemma_without_at(before, key@, at as int, found);
            lemma_without_ascending(before, key@);
            lemma_as_map(before, key@, arbitrary());
        }
        if found {
            let mut entries: Vec<Entry<V>> = Vec::new();
            std::mem::swap(&mut entries, &mut self.entries);
            let old_entry = entries.remove(at);
            proof {
                let after = Seq::new(
                    entries@.len(),
                    |i: int| (entries@[i].key@, entries@[i].value@),
                );
                assert(after =~= without(before, key@));
            }
            self.entries = entries;
            proof {
                assert(self.items() =~= without(before, key@));
            }
            Some(old_entry.value)
        } else {
            None
        }
    }
}

/// Where the key stands decides what is found under it.
proof fn lemma_lookup_at<T>(items: Seq<(Seq<char>, T)>, key: Seq<char>, at: int, found: bool)
    requires
        0 <= at <= items.len(),
        forall|i: int| 0 <= i < at ==> text_lt((#[trigger] items[i]).0, key),
        found ==> at < items.len() && items[at].0 == key,
        !found ==> forall|i: int| at <= i < items.len() ==> text_lt(key, (#[trigger] items[i]).0),
    ensures
        found ==> lookup(items, key) == Some(items[at].1),
        !found ==> lookup(items, key) is None,
    decreases items.len(),
{
    lemma_text_lt_irreflexive(key);
    if items.len() == 0 {
    } else if at == 0 {
        if !found {
            assert(above(key, items));
            lemma_above_absent(key, items);
        }
    } else {
        let rest = items.drop_first();
        assert(text_lt(items[0].0, key));
        assert forall|i: int| 0 <= i < at - 1 implies text_lt((#[trigger] rest[i]).0, key) by {
            assert(rest[i] == items[i + 1]);
        }
        if found {
            assert(rest[at - 1] == items[at]);
        } else {
            assert forall|i: int| at - 1 <= i < rest.len() implies text_lt(
                key,
                (#[trigger] rest[i]).0,
            ) by {
                assert(rest[i] == items[i + 1]);
            }
        }
        lemma_lookup_at(rest, key, at - 1, found);
    }
}

/// Where the key stands decides what setting it does.
proof fn lemma_put_at<T>(items: Seq<(Seq<char>, T)>, key: Seq<char>, value: T, at: int, found: bool)
    requires
        0 <= at <= items.len(),
        forall|i: int| 0 <= i < at ==> text_lt((#[trigger] items[i]).0, key),
        found ==> at < items.len() && items[at].0 == key,
        !found ==> forall|i: int| at <= i < items.len() ==> text_lt(key, (#[trigger] items[i]).0),
    ensures
        found ==> put(items, key, value) == items.update(at, (key, value)),
        !found ==> put(items, key, value) == items.insert(at, (key, value)),
    decreases items.len(),
{
    lemma_text_lt_irreflexive(key);
    if items.len() == 0 {
        assert(put(items, key, value) =~= items.insert(at, (key, value)));
    } else if at == 0 {
        if found {
            assert(put(items, key, value) =~= items.update(at, (key, value)));
        } else {
            assert(text_lt(key, items[0].0));
            assert(put(items, key, value) =~= items.insert(at, (key, value)));
        }
    } else {
        let rest = items.drop_first();
        assert(text_lt(items[0].0, key));
        if text_lt(key, items[0].0) {
            lemma_text_lt_transitive(key, items[0].0, key);
        }
        assert forall|i: int| 0 <= i < at - 1 implies text_lt((#[trigger] rest[i]).0, key) by {
            assert(rest[i] == items[i + 1]);
        }
        if found {
            assert(rest[at - 1] == items[at]);
        } else {
            assert forall|i: int| at - 1 <= i < rest.len() implies text_lt(
                key,
                (#[trigger] rest[i]).0,
            ) by {
                assert(rest[i] == items[i + 1]);
            }
        }
        lemma_put_at(rest, key, value, at - 1, found);
        if found {
            assert(put(items, key, value) =~= items.update(at, (key, value)));
        } else {
            assert(put(items, key, value) =~= items.insert(at, (key, value)));
        }
    }
}

/// Where the key stands decides what taking it out does.
proof fn lemma_without_at<T>(items: Seq<(Seq<char>, T)>, key: Seq<char>, at: int, found: bool)
    requires
        0 <= at <= items.len(),
        forall|i: int| 0 <= i < at ==> text_lt((#[trigger] items[i]).0, key),
        found ==> at < items.len() && items[at].0 == key,
        !found ==> forall|i: int| at <= i < items.len() ==> text_lt(key, (#[trigger] items[i]).0),
    ensures
        found ==> without(items, key) == items.remove(at),
        !found ==> without(items, key) == items,
    decreases items.len(),
{
    lemma_text_lt_irreflexive(key);
    if items.len() == 0 {
    } else if at == 0 {
        if found {
            assert(without(items, key) =~= items.remove(at));
        } else {
            assert(text_lt(key, items[0].0));
            let rest = items.drop_first();
            assert forall|i: int| 0 <= i < rest.len() implies text_lt(
                key,
                (#[trigger] rest[i]).0,
            ) by {
                assert(rest[i] == items[i + 1]);
            }
            lemma_without_at(rest, key, 0, false);
            assert(without(items, key) =~= items);
        }
    } else {
        let rest = items.drop_first();
        assert(text_lt(items[0].0, key));
        assert forall|i: int| 0 <= i < at - 1 implies text_lt((#[trigger] rest[i]).0, key) by {
            assert(rest[i] == items[i + 1]);
        }
        if found {
            assert(rest[at - 1] == items[at]);
        } else {
            assert forall|i: int| at - 1 <= i < rest.len() implies text_lt(
                key,
                (#[trigger] rest[i]).0,
            ) by {
                assert(rest[i] == items[i + 1]);
            }
        }
        lemma_without_at(rest, key, at - 1, found);
        if found {
            assert(without(items, key) =~= items.remove(at));
        } else {
            assert(without(items, key) =~= items);
        }
    }
}

impl<V: View + Clone> Clone for TextMap<V> {
    /// A map with the same keys in which each value is a clone of the value
    /// at its position.
    fn clone(&self) -> (copy: Self)
        ensures
            copy.items().len() == self.items().len(),
            forall|i: int|
                0 <= i < self.items().len() ==> (#[trigger] copy.items()[i]).0
                    == self.items()[i].0,
            forall|i: int|
                0 <= i < self.items().len() ==> cloned::<V>(
                    #[trigger] self.values()[i],
                    copy.values()[i],
                ),
    {
        proof {
            use_type_invariant(self);
        }
        let mut entries: Vec<Entry<V>> = Vec::new();
        let mut i: usize = 0;
        while i < self.entries.len()
            invariant
                i <= self.entries@.len(),
                entries@.len() == i,
                forall|k: int| 0 <= k < i ==> (#[trigger] entries@[k]).key@ == self.entries@[k].key@,
                forall|k: int|
                    0 <= k < i ==> cloned::<V>(
                        self.entries@[k].value,
                        (#[trigger] entries@[k]).value,
                    ),
            decreases self.entries@.len() - i,
        {
            let e = &self.entries[i];
            entries.push(Entry { key: e.key.clone(), value: e.value.clone() });
            i += 1;
        }
        proof {
            let theirs = Seq::new(entries@.len(), |k: int| (entries@[k].key@, entries@[k].value@));
            assert forall|a: int, b: int| 0 <= a < b < theirs.len() implies text_lt(
                #[trigger] theirs[a].0,
                #[trigger] theirs[b].0,
            ) by {
                assert(theirs[a].0 == self.items()[a].0);
                assert(theirs[b].0 == self.items()[b].0);
            }
        }
        TextMap { entries }
    }
}

} // verus!
