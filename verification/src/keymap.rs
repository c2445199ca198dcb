//! A small map over any key that can be compared, kept as a list of entries.

use vstd::prelude::*;
use crate::strmap::{lemma_index_of_unique, lemma_without_index, without_index};
use crate::text::opt_view;

verus! {

/// A key of a `KeyMap`: a value with a mathematical text and a comparison
/// that decides whether two keys have the same text.
pub trait Key: Sized {
    /// What the key is, as mathematics.
    type Text;

    /// The text of the key.
    spec fn text(&self) -> Self::Text;

    /// Whether the two keys have the same text.
    fn same(&self, other: &Self) -> (b: bool)
        ensures
            b == (self.text() == other.text()),
    ;
}

impl Key for u16 {
    type Text = u16;

    open spec fn text(&self) -> u16 {
        *self
    }

    fn same(&self, other: &Self) -> (b: bool) {
        *self == *other
    }
}

/// The key texts of a sequence of entries, in order.
pub open spec fn key_texts<K: Key, V>(e: Seq<(K, V)>) -> Seq<K::Text> {
    Seq::new(e.len(), |i: int| e[i].0.text())
}

/// A map from keys to values. Its view is the mathematical map from the text
/// of each key to the view of its value.
pub struct KeyMap<K: Key, V: View> {
    entries: Vec<(K, V)>,
}

impl<K: Key, V: View> View for KeyMap<K, V> {
    type V = Map<K::Text, V::V>;

    closed spec fn view(&self) -> Map<K::Text, V::V> {
        Map::new(
            |k: K::Text| key_texts(self.entries@).contains(k),
            |k: K::Text| self.entries@[key_texts(self.entries@).index_of(k)].1@,
        )
    }
}

impl<K: Key, V: View> KeyMap<K, V> {
    #[verifier::type_invariant]
    closed spec fn well_formed(self) -> bool {
        key_texts(self.entries@).no_duplicates()
    }

    /// The empty map.
    pub fn new() -> (m: Self)
        ensures
            m@ == Map::<K::Text, V::V>::empty(),
    {
        let m = KeyMap { entries: Vec::new() };
        assert(m@ =~= Map::<K::Text, V::V>::empty());
        m
    }

    fn position(&self, key: &K) -> (r: Option<usize>)
        ensures
            match r {
                Some(i) => i < self.entries@.len() && self.entries@[i as int].0.text() == key.text()
                    && key_texts(self.entries@).contains(key.text()) && key_texts(
                    self.entries@,
                ).index_of(key.text()) == i,
                None => !key_texts(self.entries@).contains(key.text()),
            },
    {
        proof {
            use_type_invariant(self);
        }
        let mut i: usize = 0;
        while i < self.entries.len()
            invariant
                i <= self.entries.len(),
                key_texts(self.entries@).no_duplicates(),
                forall|k: int| 0 <= k < i ==> key_texts(self.entries@)[k] != key.text(),
            decreases self.entries.len() - i,
        {
            if self.entries[i].0.same(key) {
                proof {
                    assert(key_texts(self.entries@)[i as int] == key.text());
                    lemma_index_of_unique(key_texts(self.entries@), i as int);
                }
                return Some(i);
            }
            i += 1;
        }
        None
    }

    /// Whether the map has an entry for `key`.
    pub fn contains_key(&self, key: &K) -> (b: bool)
        ensures
            b == self@.contains_key(key.text()),
    {
        self.position(key).is_some()
    }

    /// The value stored for `key`, if any.
    pub fn get(&self, key: &K) -> (r: Option<&V>)
        ensures
            match r {
                Some(v) => self@.contains_key(key.text()) && v@ == self@[key.text()],
                None => !self@.contains_key(key.text()),
            },
    {
        match self.position(key) {
            Some(i) => Some(&self.entries[i].1),
            None => None,
        }
    }

    /// Stores `value` for `key`, replacing and returning what was there.
    pub fn insert(&mut self, key: K, value: V) -> (previous: Option<V>)
        ensures
            final(self)@ == old(self)@.insert(key.text(), value@),
            opt_view(previous) == (if old(self)@.contains_key(key.text()) {
                Some(old(self)@[key.text()])
            } else {
                None
            }),
    {
        proof {
            use_type_invariant(&*self);
        }
        let found = self.position(&key);
        let mut entries = Vec::new();
        core::mem::swap(&mut entries, &mut self.entries);
        let ghost e0 = entries@;
        let ghost keys0 = key_texts(e0);
        let ghost before = old(self)@;
        let previous = match found {
            Some(i) => {
                entries.push((key, value));
                let prev = entries.swap_remove(i);
                assert(key_texts(entries@) =~= keys0);
                Some(prev.1)
            },
            None => {
                entries.push((key, value));
                assert(key_texts(entries@) =~= keys0.push(key.text()));
                None
            },
        };
        proof {
            let e1 = entries@;
            let keys1 = key_texts(e1);
            assert forall|k: K::Text| keys1.contains(k) <==> (k == key.text() || keys0.contains(
                k,
            )) by {
                if keys0.contains(k) {
                    let j = keys0.index_of(k);
                    assert(keys0[j] == k);
                    assert(keys1[j] == k);
                }
                if keys1.contains(k) && k != key.text() {
                    let j = keys1.index_of(k);
                    assert(keys1[j] == k);
                    assert(keys0[j] == k);
                }
                if k == key.text() && found is None {
                    assert(keys1[keys0.len() as int] == k);
                }
            }
            assert forall|k: K::Text| keys1.contains(k) implies e1[keys1.index_of(k)].1@ == (
            if k == key.text() {
                value@
            } else {
                e0[keys0.index_of(k)].1@
            }) by {
                let j = keys1.index_of(k);
                assert(keys1[j] == k);
                if k != key.text() {
                    assert(keys0[j] == k);
                    lemma_index_of_unique(keys0, j);
                } else if found is None {
                    lemma_index_of_unique(keys1, keys0.len() as int);
                }
            }
        }
        self.entries = entries;
        assert(self@ =~= before.insert(key.text(), value@));
        previous
    }

    /// Removes the entry for `key` and returns its value, if there was one.
    pub fn remove(&mut self, key: &K) -> (previous: Option<V>)
        ensures
            final(self)@ == old(self)@.remove(key.text()),
            opt_view(previous) == (if old(self)@.contains_key(key.text()) {
                Some(old(self)@[key.text()])
            } else {
                None
            }),
    {
        proof {
            use_type_invariant(&*self);
        }
        let ghost before = old(self)@;
        match self.position(key) {
            None => {
                assert(self@ =~= before.remove(key.text()));
                None
            },
            Some(i) => {
                let mut entries = Vec::new();
                core::mem::swap(&mut entries, &mut self.entries);
                let ghost e0 = entries@;
                let ghost keys0 = key_texts(e0);
                let prev = entries.remove(i);
                proof {
                    let e1 = entries@;
                    let keys1 = key_texts(e1);
                    assert(keys1 =~= without_index(keys0, i as int));
                    lemma_without_index(keys0, i as int);
                    assert forall|k: K::Text| keys1.contains(k) implies e1[keys1.index_of(
                        k,
                    )].1@ == e0[keys0.index_of(k)].1@ by {
                        let j = keys1.index_of(k);
                        assert(keys1[j] == k);
                        let j0 = if j < i {
                            j
                        } else {
                            j + 1
                        };
                        assert(keys0[j0] == k);
                        lemma_index_of_unique(keys0, j0);
                    }
                }
                self.entries = entries;
                assert(self@ =~= before.remove(key.text()));
                Some(prev.1)
            },
        }
    }

    /// How many entries the map holds.
    pub fn len(&self) -> (n: usize)
        ensures
            self@.dom().finite(),
            n == self@.dom().len(),
    {
        proof {
            use_type_invariant(self);
            let ks = key_texts(self.entries@);
            ks.unique_seq_to_set();
            assert(self@.dom() =~= ks.to_set());
        }
        self.entries.len()
    }

    /// Takes the map apart into its entries, each key once.
    pub fn into_entries(self) -> (entries: Vec<(K, V)>)
        ensures
            key_texts(entries@).no_duplicates(),
            forall|i: int|
                0 <= i < entries@.len() ==> self@.contains_key(#[trigger] entries@[i].0.text())
                    && self@[entries@[i].0.text()] == entries@[i].1@,
            forall|k: K::Text| self@.contains_key(k) ==> key_texts(entries@).contains(k),
    {
        proof {
            use_type_invariant(&self);
            let ks = key_texts(self.entries@);
            assert forall|i: int| 0 <= i < ks.len() implies self@.contains_key(
                #[trigger] self.entries@[i].0.text(),
            ) && self@[self.entries@[i].0.text()] == self.entries@[i].1@ by {
                assert(ks[i] == self.entries@[i].0.text());
                lemma_index_of_unique(ks, i);
            }
        }
        self.entries
    }
}

} // verus!
