//! Small ordered tables: the station's calls, circuits and subscribers.
//!
//! A table is a list of entries in which no key stands twice. Its model is the
//! sequence of its entries, read through `lookup`, `put`, `del` and `contains`.
use vstd::prelude::*;

verus! {

/// What can key a table: a plain value with decidable equality.
pub trait Key: Copy {
    /// Whether two keys are the same.
    fn same(&self, other: &Self) -> (r: bool)
        ensures
            r == (*self == *other),
    ;
}

impl Key for u8 {
    fn same(&self, other: &Self) -> (r: bool) {
        *self == *other
    }
}

impl Key for u16 {
    fn same(&self, other: &Self) -> (r: bool) {
        *self == *other
    }
}

impl Key for u32 {
    fn same(&self, other: &Self) -> (r: bool) {
        *self == *other
    }
}

impl Key for u64 {
    fn same(&self, other: &Self) -> (r: bool) {
        *self == *other
    }
}

/// The value of the entry with key `key`.
pub open spec fn lookup<K, V>(entries: Seq<(K, V)>, key: K) -> Option<V>
    decreases entries.len(),
{
    if entries.len() == 0 {
        None
    } else if entries.last().0 == key {
        Some(entries.last().1)
    } else {
        lookup(entries.drop_last(), key)
    }
}

/// Whether an entry has key `key`.
pub open spec fn contains<K, V>(entries: Seq<(K, V)>, key: K) -> bool {
    lookup(entries, key) is Some
}

/// The entries whose key is not `key`.
pub open spec fn del<K, V>(entries: Seq<(K, V)>, key: K) -> Seq<(K, V)> {
    entries.filter(|entry: (K, V)| entry.0 != key)
}

/// The entries with `key` holding `value`: in the place of the entry that held
/// another value, or at the end.
pub open spec fn put<K, V>(entries: Seq<(K, V)>, key: K, value: V) -> Seq<(K, V)> {
    if contains(entries, key) {
        entries.map_values(
            |entry: (K, V)|
                if entry.0 == key {
                    (key, value)
                } else {
                    entry
                },
        )
    } else {
        entries.push((key, value))
    }
}

/// The keys in the order in which the entries stand.
pub open spec fn keys<K, V>(entries: Seq<(K, V)>) -> Seq<K> {
    entries.map_values(|entry: (K, V)| entry.0)
}

/// No key stands twice.
pub open spec fn distinct<K, V>(entries: Seq<(K, V)>) -> bool {
    forall|i: int, j: int|
        0 <= i < entries.len() && 0 <= j < entries.len() && i != j ==> (#[trigger] entries[i]).0
            != (#[trigger] entries[j]).0
}

/// An ordered table.
#[derive(Debug)]
pub struct Table<K, V> {
    entries: Vec<(K, V)>,
}

impl<K, V> View for Table<K, V> {
    type V = Seq<(K, V)>;

    closed spec fn view(&self) -> Seq<(K, V)> {
        self.entries@
    }
}

impl<K: Key, V: Copy> Table<K, V> {
    /// The empty table.
    pub fn new() -> (table: Self)
        ensures
            table@ == Seq::<(K, V)>::empty(),
    {
        Table { entries: Vec::new() }
    }

    /// The number of entries.
    pub fn len(&self) -> (n: usize)
        ensures
            n == self@.len(),
    {
        self.entries.len()
    }

    /// The entry at `index`.
    pub fn entry(&self, index: usize) -> (entry: (K, V))
        requires
            index < self@.len(),
        ensures
            entry == self@[index as int],
    {
        self.entries[index]
    }

    /// The value of the entry with key `key`.
    pub fn get(&self, key: K) -> (value: Option<V>)
        ensures
            value == lookup(self@, key),
    {
        let mut n: usize = self.entries.len();
        assert(self@.take(n as int) =~= self@);
        while n > 0
            invariant
                n <= self@.len(),
                lookup(self@, key) == lookup(self@.take(n as int), key),
            decreases n,
        {
            let (candidate, value) = self.entries[n - 1];
            proof {
                assert(self@.take(n as int).drop_last() =~= self@.take(n - 1));
                assert(self@.take(n as int).last() == self@[n - 1]);
            }
            if candidate.same(&key) {
                return Some(value);
            }
            n = n - 1;
        }
        None
    }

    /// Whether an entry has key `key`.
    pub fn contains_key(&self, key: K) -> (r: bool)
        ensures
            r == contains(self@, key),
    {
        self.get(key).is_some()
    }

    /// Gives `key` the value `value`.
    pub fn insert(&mut self, key: K, value: V)
        ensures
            final(self)@ == put(old(self)@, key, value),
    {
        let ghost before = self@;
        if !self.contains_key(key) {
            self.entries.push((key, value));
            return;
        }
        let mut i: usize = 0;
        while i < self.entries.len()
            invariant
                i <= self@.len(),
                self@.len() == before.len(),
                forall|j: int| 0 <= j < i ==> self@[j] == put(before, key, value)[j],
                forall|j: int| i <= j < before.len() ==> self@[j] == before[j],
                contains(before, key),
            decreases self@.len() - i,
        {
            let (candidate, _) = self.entries[i];
            if candidate.same(&key) {
                self.entries.set(i, (key, value));
            }
            i = i + 1;
        }
        assert(self@ =~= put(before, key, value));
    }

    /// Drops the entry with key `key` and returns its value.
    pub fn remove(&mut self, key: K) -> (value: Option<V>)
        ensures
            value == lookup(old(self)@, key),
            final(self)@ == del(old(self)@, key),
    {
        let value = self.get(key);
        let ghost before = self@;
        let ghost keep = |entry: (K, V)| entry.0 != key;
        let mut kept: Vec<(K, V)> = Vec::new();
        let mut i: usize = 0;
        proof {
            reveal(Seq::filter);
            assert(before.take(0) =~= Seq::empty());
        }
        while i < self.entries.len()
            invariant
                i <= self@.len(),
                self@ == before,
                keep == (|entry: (K, V)| entry.0 != key),
                kept@ == before.take(i as int).filter(keep),
            decreases self@.len() - i,
        {
            let (candidate, held) = self.entries[i];
            proof {
                reveal(Seq::filter);
                assert(before.take(i + 1).drop_last() =~= before.take(i as int));
                assert(before.take(i + 1).last() == before[i as int]);
            }
            if !candidate.same(&key) {
                kept.push((candidate, held));
            }
            i = i + 1;
        }
        assert(before.take(before.len() as int) =~= before);
        self.entries = kept;
        value
    }

    /// The table with these entries.
    pub fn from_entries(entries: Vec<(K, V)>) -> (table: Table<K, V>)
        ensures
            table@ == entries@,
    {
        Table { entries }
    }

    /// The keys in the order in which the entries stand.
    pub fn key_list(&self) -> (list: Vec<K>)
        ensures
            list@ == keys(self@),
    {
        let mut list: Vec<K> = Vec::new();
        let mut i: usize = 0;
        while i < self.entries.len()
            invariant
                i <= self@.len(),
                list@ == keys(self@.take(i as int)),
            decreases self@.len() - i,
        {
            let (key, _) = self.entries[i];
            proof {
                assert(keys(self@.take(i + 1)) =~= keys(self@.take(i as int)).push(
                    self@[i as int].0,
                ));
            }
            list.push(key);
            i = i + 1;
        }
        assert(self@.take(self@.len() as int) =~= self@);
        list
    }

    /// Drops every entry.
    pub fn clear(&mut self)
        ensures
            final(self)@ == Seq::<(K, V)>::empty(),
    {
        self.entries = Vec::new();
    }
}

/// What a table holds under a key after another value was put into it.
pub proof fn law_lookup_after_put<K, V>(entries: Seq<(K, V)>, key: K, value: V, other: K)
    ensures
        lookup(put(entries, key, value), other) == if other == key {
            Some(value)
        } else {
            lookup(entries, other)
        },
{
    if contains(entries, key) {
        lemma_lookup_after_replace(entries, key, value, other);
    } else {
        assert(entries.push((key, value)).drop_last() =~= entries);
    }
}

proof fn lemma_lookup_after_replace<K, V>(entries: Seq<(K, V)>, key: K, value: V, other: K)
    ensures
        lookup(
            entries.map_values(
                |entry: (K, V)|
                    if entry.0 == key {
                        (key, value)
                    } else {
                        entry
                    },
            ),
            other,
        ) == if other == key && contains(entries, key) {
            Some(value)
        } else {
            lookup(entries, other)
        },
    decreases entries.len(),
{
    let replace = |entry: (K, V)|
        if entry.0 == key {
            (key, value)
        } else {
            entry
        };
    if entries.len() > 0 {
        lemma_lookup_after_replace(entries.drop_last(), key, value, other);
        assert(entries.map_values(replace).drop_last() =~= entries.drop_last().map_values(replace));
        assert(entries.map_values(replace).last() == replace(entries.last()));
    }
}

/// What a table holds under a key after an entry was dropped.
pub proof fn law_lookup_after_del<K, V>(entries: Seq<(K, V)>, key: K, other: K)
    ensures
        lookup(del(entries, key), other) == if other == key {
            None
        } else {
            lookup(entries, other)
        },
    decreases entries.len(),
{
    reveal(Seq::filter);
    if entries.len() > 0 {
        let keep = |entry: (K, V)| entry.0 != key;
        law_lookup_after_del(entries.drop_last(), key, other);
        if keep(entries.last()) {
            let rest = entries.drop_last().filter(keep);
            assert(rest.push(entries.last()).drop_last() =~= rest);
        }
    }
}

/// A key is found exactly where an entry has it.
pub proof fn lemma_contains<K, V>(entries: Seq<(K, V)>, key: K)
    ensures
        contains(entries, key) <==> exists|i: int|
            0 <= i < entries.len() && (#[trigger] entries[i]).0 == key,
    decreases entries.len(),
{
    if entries.len() > 0 {
        lemma_contains(entries.drop_last(), key);
        if contains(entries, key) {
            if entries.last().0 == key {
                assert(entries[entries.len() - 1].0 == key);
            } else {
                let i = choose|i: int|
                    0 <= i < entries.drop_last().len() && (#[trigger] entries.drop_last()[i]).0
                        == key;
                assert(entries[i].0 == key);
            }
        } else {
            assert forall|i: int| 0 <= i < entries.len() implies (#[trigger] entries[i]).0
                != key by {
                if i < entries.len() - 1 {
                    assert(entries.drop_last()[i].0 != key);
                }
            }
        }
    }
}

/// Where no key stands twice, each entry is what its key is looked up to.
pub proof fn lemma_lookup_of_entry<K, V>(entries: Seq<(K, V)>, index: int)
    requires
        distinct(entries),
        0 <= index < entries.len(),
    ensures
        lookup(entries, entries[index].0) == Some(entries[index].1),
    decreases entries.len(),
{
    if index < entries.len() - 1 {
        let rest = entries.drop_last();
        assert(distinct(rest)) by {
            assert forall|i: int, j: int|
                0 <= i < rest.len() && 0 <= j < rest.len() && i != j implies (#[trigger] rest[i]).0
                != (#[trigger] rest[j]).0 by {
                assert(rest[i] == entries[i] && rest[j] == entries[j]);
            }
        }
        lemma_lookup_of_entry(rest, index);
        assert(entries[index].0 != entries[entries.len() - 1].0);
    }
}

/// What a table holds under a key stands in one of its entries.
pub proof fn lemma_entry_of_lookup<K, V>(entries: Seq<(K, V)>, key: K) -> (index: int)
    requires
        contains(entries, key),
    ensures
        0 <= index < entries.len(),
        entries[index].0 == key,
        lookup(entries, key) == Some(entries[index].1),
    decreases entries.len(),
{
    if entries.last().0 == key {
        entries.len() - 1
    } else {
        lemma_entry_of_lookup(entries.drop_last(), key)
    }
}

/// Putting a value into a table leaves no key standing twice.
pub proof fn law_put_keeps_distinct<K, V>(entries: Seq<(K, V)>, key: K, value: V)
    requires
        distinct(entries),
    ensures
        distinct(put(entries, key, value)),
{
    lemma_contains(entries, key);
    let after = put(entries, key, value);
    assert forall|i: int, j: int|
        0 <= i < after.len() && 0 <= j < after.len() && i != j implies (#[trigger] after[i]).0 != (
    #[trigger] after[j]).0 by {
        if contains(entries, key) {
            assert(entries[i].0 != entries[j].0);
        } else if i < entries.len() && j < entries.len() {
            assert(entries[i].0 != entries[j].0);
        } else if i < entries.len() {
            assert(entries[i].0 != key);
        } else {
            assert(entries[j].0 != key);
        }
    }
}

/// Dropping an entry leaves no key standing twice.
pub proof fn law_del_keeps_distinct<K, V>(entries: Seq<(K, V)>, key: K)
    requires
        distinct(entries),
    ensures
        distinct(del(entries, key)),
    decreases entries.len(),
{
    reveal(Seq::filter);
    if entries.len() > 0 {
        let rest = entries.drop_last();
        let keep = |entry: (K, V)| entry.0 != key;
        assert forall|i: int, j: int|
            0 <= i < rest.len() && 0 <= j < rest.len() && i != j implies (#[trigger] rest[i]).0 != (
        #[trigger] rest[j]).0 by {
            assert(rest[i] == entries[i] && rest[j] == entries[j]);
        }
        law_del_keeps_distinct(rest, key);
        let last = entries.last();
        if keep(last) {
            lemma_contains(rest, last.0);
            assert(!contains(rest, last.0)) by {
                assert forall|i: int| 0 <= i < rest.len() implies (#[trigger] rest[i]).0
                    != last.0 by {
                    assert(entries[i].0 != entries[entries.len() - 1].0);
                }
            }
            law_lookup_after_del(rest, key, last.0);
            lemma_contains(del(rest, key), last.0);
            let after = del(rest, key).push(last);
            assert forall|i: int, j: int|
                0 <= i < after.len() && 0 <= j < after.len() && i != j implies (
            #[trigger] after[i]).0 != (#[trigger] after[j]).0 by {
                if i < del(rest, key).len() && j < del(rest, key).len() {
                    assert(del(rest, key)[i].0 != del(rest, key)[j].0);
                } else if i < del(rest, key).len() {
                    assert(del(rest, key)[i].0 != last.0);
                } else {
                    assert(del(rest, key)[j].0 != last.0);
                }
            }
        }
    }
}
/// What a table holds under a key after the entries with other keys than those
/// wanted were dropped.
pub proof fn law_lookup_after_key_filter<K, V>(
    entries: Seq<(K, V)>,
    keep: spec_fn((K, V)) -> bool,
    key: K,
)
    requires
        forall|a: (K, V), b: (K, V)| a.0 == b.0 ==> #[trigger] keep(a) == #[trigger] keep(b),
    ensures
        lookup(entries.filter(keep), key) == match lookup(entries, key) {
            Some(value) if keep((key, value)) => Some(value),
            _ => None,
        },
    decreases entries.len(),
{
    reveal(Seq::filter);
    if entries.len() > 0 {
        let rest = entries.drop_last();
        law_lookup_after_key_filter(rest, keep, key);
        if keep(entries.last()) {
            assert(rest.filter(keep).push(entries.last()).drop_last() =~= rest.filter(keep));
        } else if entries.last().0 == key {
            lemma_lookup_value(rest, key);
            assert(keep((key, entries.last().1)) == keep(entries.last()));
            if let Some(value) = lookup(rest, key) {
                assert(keep((key, value)) == keep(entries.last()));
            }
        }
    }
}

proof fn lemma_lookup_value<K, V>(entries: Seq<(K, V)>, key: K)
    ensures
        lookup(entries, key) is Some ==> entries.contains((key, lookup(entries, key)->0)),
    decreases entries.len(),
{
    if entries.len() > 0 {
        if entries.last().0 == key {
            assert(entries[entries.len() - 1] == (key, entries.last().1));
        } else {
            lemma_lookup_value(entries.drop_last(), key);
            if lookup(entries, key) is Some {
                let at = choose|i: int|
                    0 <= i < entries.drop_last().len() && entries.drop_last()[i] == (
                        key,
                        lookup(entries, key)->0,
                    );
                assert(entries[at] == (key, lookup(entries, key)->0));
            }
        }
    }
}

/// What a table in which no key stands twice holds under a key after some
/// entries were dropped.
pub proof fn law_lookup_after_filter<K, V>(
    entries: Seq<(K, V)>,
    keep: spec_fn((K, V)) -> bool,
    key: K,
)
    requires
        distinct(entries),
    ensures
        lookup(entries.filter(keep), key) == match lookup(entries, key) {
            Some(value) if keep((key, value)) => Some(value),
            _ => None,
        },
        distinct(entries.filter(keep)),
    decreases entries.len(),
{
    reveal(Seq::filter);
    if entries.len() > 0 {
        let rest = entries.drop_last();
        assert(distinct(rest)) by {
            assert forall|i: int, j: int|
                0 <= i < rest.len() && 0 <= j < rest.len() && i != j implies (#[trigger] rest[i]).0
                != (#[trigger] rest[j]).0 by {
                assert(entries[i].0 != entries[j].0);
            }
        }
        law_lookup_after_filter(rest, keep, key);
        let last = entries.last();
        assert(lookup(rest, last.0) is None) by {
            lemma_contains(rest, last.0);
            assert forall|i: int| 0 <= i < rest.len() implies (#[trigger] rest[i]).0 != last.0 by {
                assert(entries[i].0 != entries[entries.len() - 1].0);
            }
        }
        if keep(last) {
            let kept = rest.filter(keep);
            assert(kept.push(last).drop_last() =~= kept);
            law_lookup_after_filter(rest, keep, last.0);
            lemma_contains(kept, last.0);
            let after = kept.push(last);
            assert forall|i: int, j: int|
                0 <= i < after.len() && 0 <= j < after.len() && i != j implies (
            #[trigger] after[i]).0 != (#[trigger] after[j]).0 by {
                if i < kept.len() {
                    assert(after[i] == kept[i]);
                }
                if j < kept.len() {
                    assert(after[j] == kept[j]);
                }
            }
        }
    }
}

/// What a table holds under a key after every value was replaced by the same.
pub proof fn law_lookup_after_fill<K, V>(entries: Seq<(K, V)>, value: V, key: K)
    ensures
        lookup(entries.map_values(|entry: (K, V)| (entry.0, value)), key) == if contains(
            entries,
            key,
        ) {
            Some(value)
        } else {
            None
        },
        distinct(entries) ==> distinct(entries.map_values(|entry: (K, V)| (entry.0, value))),
    decreases entries.len(),
{
    let filled = entries.map_values(|entry: (K, V)| (entry.0, value));
    if entries.len() > 0 {
        law_lookup_after_fill(entries.drop_last(), value, key);
        assert(filled.drop_last() =~= entries.drop_last().map_values(
            |entry: (K, V)| (entry.0, value),
        ));
    }
    if distinct(entries) {
        assert forall|i: int, j: int|
            0 <= i < filled.len() && 0 <= j < filled.len() && i != j implies (
        #[trigger] filled[i]).0 != (#[trigger] filled[j]).0 by {
            assert(entries[i].0 != entries[j].0);
        }
    }
}

impl<K: Key, V: Copy> Table<K, V> {
    /// The value of the entry with key `key`, for changing it.
    pub fn value_mut(&mut self, key: K) -> (value: &mut V)
        requires
            distinct(old(self)@),
            contains(old(self)@, key),
        ensures
            Some(*value) == lookup(old(self)@, key),
            final(self)@ == put(old(self)@, key, *final(value)),
            distinct(final(self)@),
    {
        let ghost before = self@;
        let mut i: usize = 0;
        while i < self.entries.len() && !self.entries[i].0.same(&key)
            invariant
                i <= self@.len(),
                self@ == before,
                forall|j: int| 0 <= j < i ==> (#[trigger] before[j]).0 != key,
            decreases self@.len() - i,
        {
            i = i + 1;
        }
        proof {
            lemma_contains(before, key);
            assert(i < before.len());
            lemma_lookup_of_entry(before, i as int);
            assert forall|value: V| #[trigger]
                before.update(i as int, (key, value)) == put(before, key, value) && distinct(
                    put(before, key, value),
                ) by {
                assert(before.update(i as int, (key, value)) =~= put(before, key, value));
                law_put_keeps_distinct(before, key, value);
            }
        }
        &mut self.entries[i].1
    }
}

/// Dropping a key that does not stand in a table changes nothing.
pub proof fn lemma_del_absent<K, V>(entries: Seq<(K, V)>, key: K)
    requires
        !contains(entries, key),
    ensures
        del(entries, key) == entries,
    decreases entries.len(),
{
    reveal(Seq::filter);
    if entries.len() > 0 {
        lemma_del_absent(entries.drop_last(), key);
        assert(entries.drop_last().push(entries.last()) =~= entries);
    }
}

/// Where no key stands twice, dropping a key removes its one entry.
pub proof fn lemma_del_is_remove<K, V>(entries: Seq<(K, V)>, index: int)
    requires
        distinct(entries),
        0 <= index < entries.len(),
    ensures
        del(entries, entries[index].0) == entries.remove(index),
    decreases entries.len(),
{
    reveal(Seq::filter);
    let key = entries[index].0;
    let rest = entries.drop_last();
    assert(distinct(rest)) by {
        assert forall|i: int, j: int|
            0 <= i < rest.len() && 0 <= j < rest.len() && i != j implies (#[trigger] rest[i]).0 != (
        #[trigger] rest[j]).0 by {
            assert(entries[i].0 != entries[j].0);
        }
    }
    if index < entries.len() - 1 {
        lemma_del_is_remove(rest, index);
        assert(entries[index].0 != entries[entries.len() - 1].0);
        assert(rest.remove(index).push(entries.last()) =~= entries.remove(index));
    } else {
        assert(!contains(rest, key)) by {
            lemma_contains(rest, key);
            assert forall|i: int| 0 <= i < rest.len() implies (#[trigger] rest[i]).0 != key by {
                assert(entries[i].0 != entries[index].0);
            }
        }
        lemma_del_absent(rest, key);
        assert(entries.remove(index) =~= rest);
    }
}

/// Dropping a key that does not stand in a table changes nothing.
pub proof fn lemma_del_absent_if<K, V>(entries: Seq<(K, V)>, key: K)
    ensures
        !contains(entries, key) ==> del(entries, key) == entries,
{
    if !contains(entries, key) {
        lemma_del_absent(entries, key);
    }
}

} // verus!
