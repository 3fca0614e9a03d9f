//! Requests that wait for an answer, by what they are known by.
use crate::table::Key;
use vstd::prelude::*;

verus! {

/// Waiting requests in the order in which they were made.
#[derive(Debug)]
pub struct Store<K, V> {
    entries: Vec<(K, V)>,
}

/// The model of the entries: each request by its view.
pub open spec fn entry_views<K, V: View>(entries: Seq<(K, V)>) -> Seq<(K, V::V)> {
    entries.map_values(|entry: (K, V)| (entry.0, entry.1@))
}

impl<K, V: View> View for Store<K, V> {
    type V = Seq<(K, V::V)>;

    closed spec fn view(&self) -> Seq<(K, V::V)> {
        entry_views(self.entries@)
    }
}

impl<K: Key, V: View> Store<K, V> {
    /// No request waits.
    pub fn new() -> (store: Self)
        ensures
            store@ == Seq::<(K, V::V)>::empty(),
    {
        let store = Store { entries: Vec::new() };
        assert(store@ =~= Seq::<(K, V::V)>::empty());
        store
    }

    /// The number of requests.
    pub fn len(&self) -> (n: usize)
        ensures
            n == self@.len(),
    {
        self.entries.len()
    }

    /// The key of the request at `index`.
    pub fn key(&self, index: usize) -> (key: K)
        requires
            index < self@.len(),
        ensures
            key == self@[index as int].0,
    {
        self.entries[index].0
    }

    /// The request at `index`.
    pub fn value(&self, index: usize) -> (value: &V)
        requires
            index < self@.len(),
        ensures
            value@ == self@[index as int].1,
    {
        &self.entries[index].1
    }

    /// The place of a key.
    pub fn find(&self, key: K) -> (index: Option<usize>)
        ensures
            match index {
                Some(i) => i < self@.len() && self@[i as int].0 == key && crate::table::lookup(
                    self@,
                    key,
                ) == Some(self@[i as int].1),
                None => !crate::table::contains(self@, key),
            },
    {
        let mut n: usize = self.entries.len();
        assert(self@.take(n as int) =~= self@);
        while n > 0
            invariant
                n <= self@.len(),
                crate::table::lookup(self@, key) == crate::table::lookup(
                    self@.take(n as int),
                    key,
                ),
            decreases n,
        {
            proof {
                assert(self@.take(n as int).drop_last() =~= self@.take(n - 1));
                assert(self@.take(n as int).last() == self@[n - 1]);
            }
            if self.entries[n - 1].0.same(&key) {
                return Some(n - 1);
            }
            n = n - 1;
        }
        None
    }

    /// Whether a request with the key waits.
    pub fn contains(&self, key: K) -> (r: bool)
        ensures
            r == crate::table::contains(self@, key),
    {
        self.find(key).is_some()
    }

    /// Adds a request. It takes the place of one with the same number.
    pub fn insert(&mut self, key: K, value: V)
        requires
            crate::table::distinct(old(self)@),
        ensures
            final(self)@ == crate::table::put(old(self)@, key, value@),
            crate::table::distinct(final(self)@),
    {
        let ghost before = self@;
        let ghost added = value@;
        proof {
            crate::table::law_put_keeps_distinct(before, key, value@);
        }
        match self.find(key) {
            Some(i) => {
                self.entries.set(i, (key, value));
                proof {
                    assert(self@ =~= before.update(i as int, (key, added)));
                    assert(before.update(i as int, (key, added)) =~= crate::table::put(
                        before,
                        key,
                        added,
                    ));
                }
            },
            None => {
                self.entries.push((key, value));
                assert(self@ =~= before.push((key, added)));
            },
        }
    }

    /// Takes the request with the key out.
    pub fn remove(&mut self, key: K) -> (value: Option<V>)
        requires
            crate::table::distinct(old(self)@),
        ensures
            match value {
                Some(v) => crate::table::lookup(old(self)@, key) == Some(v@),
                None => !crate::table::contains(old(self)@, key),
            },
            final(self)@ == crate::table::del(old(self)@, key),
            crate::table::distinct(final(self)@),
    {
        let ghost before = self@;
        proof {
            crate::table::law_del_keeps_distinct(before, key);
        }
        match self.find(key) {
            Some(i) => {
                let (_, value) = self.entries.remove(i);
                proof {
                    assert(self@ =~= before.remove(i as int));
                    crate::table::lemma_del_is_remove(before, i as int);
                }
                Some(value)
            },
            None => {
                proof {
                    crate::table::lemma_del_absent(before, key);
                }
                None
            },
        }
    }
}

} // verus!
