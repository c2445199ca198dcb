//! Small collections keyed by strings: an insertion-ordered set and a map.
//!
//! Both compare keys by their text. The set keeps the order in which names
//! were first inserted, so that walking it is deterministic.

use vstd::prelude::*;
use crate::text::{opt_view, str_equal, texts};

verus! {

/// `s` without its entry at `i`.
pub open spec fn without_index<A>(s: Seq<A>, i: int) -> Seq<A> {
    s.subrange(0, i) + s.subrange(i + 1, s.len() as int)
}

/// `s` without `name`, where `name` occurs at most once.
pub open spec fn without_name(s: Seq<Seq<char>>, name: Seq<char>) -> Seq<Seq<char>> {
    if s.contains(name) {
        without_index(s, s.index_of(name))
    } else {
        s
    }
}

/// `s` with `name` added at the end unless it is already there.
pub open spec fn with_name(s: Seq<Seq<char>>, name: Seq<char>) -> Seq<Seq<char>> {
    if s.contains(name) {
        s
    } else {
        s.push(name)
    }
}

/// What `with_name` holds: what was there, and the name.
pub proof fn lemma_with_name(s: Seq<Seq<char>>, name: Seq<char>)
    ensures
        forall|x: Seq<char>| #[trigger]
            with_name(s, name).contains(x) <==> (s.contains(x) || x == name),
        s.no_duplicates() ==> with_name(s, name).no_duplicates(),
        with_name(with_name(s, name), name) == with_name(s, name),
{
    let r = with_name(s, name);
    if !s.contains(name) {
        assert(r[s.len() as int] == name);
        assert forall|x: Seq<char>| r.contains(x) implies (s.contains(x) || x == name) by {
            let j = choose|j: int| 0 <= j < r.len() && r[j] == x;
            if j < s.len() {
                assert(s[j] == x);
            }
        }
        assert forall|x: Seq<char>| s.contains(x) implies r.contains(x) by {
            let j = choose|j: int| 0 <= j < s.len() && s[j] == x;
            assert(r[j] == x);
        }
    }
}

/// Removing an entry keeps a duplicate-free sequence duplicate-free and
/// removes exactly that name.
pub proof fn lemma_without_index<A>(s: Seq<A>, i: int)
    requires
        0 <= i < s.len(),
        s.no_duplicates(),
    ensures
        without_index(s, i).no_duplicates(),
        without_index(s, i).len() == s.len() - 1,
        !without_index(s, i).contains(s[i]),
        forall|a: A| a != s[i] ==> (without_index(s, i).contains(a) <==> s.contains(a)),
{
    let r = without_index(s, i);
    assert forall|j: int| 0 <= j < r.len() implies r[j] == (if j < i {
        s[j]
    } else {
        s[j + 1]
    }) by {}
    assert forall|a: A| a != s[i] implies (r.contains(a) <==> s.contains(a)) by {
        if s.contains(a) {
            let j = choose|j: int| 0 <= j < s.len() && s[j] == a;
            if j < i {
                assert(r[j] == a);
            } else {
                assert(r[j - 1] == a);
            }
        }
        if r.contains(a) {
            let j = choose|j: int| 0 <= j < r.len() && r[j] == a;
            if j < i {
                assert(s[j] == a);
            } else {
                assert(s[j + 1] == a);
            }
        }
    }
    if r.contains(s[i]) {
        let j = choose|j: int| 0 <= j < r.len() && r[j] == s[i];
        assert(false);
    }
}

/// An insertion-ordered set of strings. Its view is the sequence of the
/// names it holds, each once, oldest first.
pub struct StrSet {
    items: Vec<String>,
}

impl View for StrSet {
    type V = Seq<Seq<char>>;

    closed spec fn view(&self) -> Seq<Seq<char>> {
        texts(self.items@)
    }
}

impl StrSet {
    /// No name occurs twice.
    #[verifier::type_invariant]
    pub open spec fn well_formed(self) -> bool {
        self@.no_duplicates()
    }

    /// The empty set.
    pub fn new() -> (s: Self)
        ensures
            s@ == Seq::<Seq<char>>::empty(),
    {
        let s = StrSet { items: Vec::new() };
        assert(texts(s.items@) =~= Seq::<Seq<char>>::empty());
        s
    }

    /// How many names the set holds.
    pub fn len(&self) -> (n: usize)
        ensures
            n == self@.len(),
    {
        self.items.len()
    }

    /// Whether the set holds no name.
    pub fn is_empty(&self) -> (b: bool)
        ensures
            b == (self@.len() == 0),
    {
        self.items.len() == 0
    }

    /// The name at position `i`, oldest first.
    pub fn get(&self, i: usize) -> (name: &String)
        requires
            i < self@.len(),
        ensures
            name@ == self@[i as int],
    {
        &self.items[i]
    }

    /// The position of `name`, if the set holds it.
    pub fn position(&self, name: &str) -> (r: Option<usize>)
        ensures
            match r {
                Some(i) => i < self@.len() && self@[i as int] == name@,
                None => !self@.contains(name@),
            },
    {
        let mut i: usize = 0;
        while i < self.items.len()
            invariant
                i <= self.items.len(),
                forall|k: int| 0 <= k < i ==> texts(self.items@)[k] != name@,
            decreases self.items.len() - i,
        {
            if str_equal(self.items[i].as_str(), name) {
                return Some(i);
            }
            i += 1;
        }
        None
    }

    /// Whether the set holds `name`.
    pub fn contains(&self, name: &str) -> (b: bool)
        ensures
            b == self@.contains(name@),
    {
        self.position(name).is_some()
    }

    /// Adds `name` unless it is already there; says whether it was added.
    pub fn insert(&mut self, name: String) -> (added: bool)
        ensures
            added == !old(self)@.contains(name@),
            final(self)@ == with_name(old(self)@, name@),
    {
        proof {
            use_type_invariant(&*self);
        }
        if self.contains(name.as_str()) {
            false
        } else {
            let mut items = Vec::new();
            core::mem::swap(&mut items, &mut self.items);
            let ghost before = texts(items@);
            items.push(name);
            assert(texts(items@) =~= before.push(name@));
            self.items = items;
            true
        }
    }

    /// Removes `name` if it is there; says whether it was.
    pub fn remove(&mut self, name: &str) -> (removed: bool)
        ensures
            removed == old(self)@.contains(name@),
            final(self)@ == without_name(old(self)@, name@),
    {
        proof {
            use_type_invariant(&*self);
        }
        match self.position(name) {
            None => false,
            Some(i) => {
                let mut items = Vec::new();
                core::mem::swap(&mut items, &mut self.items);
                let ghost before = texts(items@);
                items.remove(i);
                proof {
                    assert(before[before.index_of(name@)] == name@);
                    assert(texts(items@) =~= without_index(before, i as int));
                    lemma_without_index(before, i as int);
                }
                self.items = items;
                true
            },
        }
    }

    /// Removes every name.
    pub fn clear(&mut self)
        ensures
            final(self)@ == Seq::<Seq<char>>::empty(),
    {
        self.items = Vec::new();
        assert(texts(self.items@) =~= Seq::<Seq<char>>::empty());
    }

    /// The names as owned strings, oldest first.
    pub fn to_vec(&self) -> (v: Vec<String>)
        ensures
            texts(v@) == self@,
    {
        let mut v: Vec<String> = Vec::new();
        let mut i: usize = 0;
        while i < self.items.len()
            invariant
                i <= self.items.len(),
                v@.len() == i,
                forall|k: int| 0 <= k < i ==> v@[k]@ == self.items@[k]@,
            decreases self.items.len() - i,
        {
            v.push(self.items[i].clone());
            i += 1;
        }
        assert(texts(v@) =~= texts(self.items@));
        v
    }
}

/// The key texts of a sequence of entries, in order.
pub open spec fn entry_keys<V>(e: Seq<(String, V)>) -> Seq<Seq<char>> {
    Seq::new(e.len(), |i: int| e[i].0@)
}

/// In a duplicate-free sequence, `index_of` finds the one place of an entry.
pub proof fn lemma_index_of_unique<A>(s: Seq<A>, i: int)
    requires
        s.no_duplicates(),
        0 <= i < s.len(),
    ensures
        s.index_of(s[i]) == i,
{
    let j = s.index_of(s[i]);
    assert(0 <= j < s.len() && s[j] == s[i]);
}

/// A map from strings to values. Its view is the mathematical map from the
/// text of each key to the view of its value.
pub struct StrMap<V: View> {
    entries: Vec<(String, V)>,
}

impl<V: View> View for StrMap<V> {
    type V = Map<Seq<char>, V::V>;

    closed spec fn view(&self) -> Map<Seq<char>, V::V> {
        Map::new(
            |k: Seq<char>| entry_keys(self.entries@).contains(k),
            |k: Seq<char>| self.entries@[entry_keys(self.entries@).index_of(k)].1@,
        )
    }
}

impl<V: View> StrMap<V> {
    #[verifier::type_invariant]
    closed spec fn well_formed(self) -> bool {
        entry_keys(self.entries@).no_duplicates()
    }

    /// The empty map.
    pub fn new() -> (m: Self)
        ensures
            m@ == Map::<Seq<char>, V::V>::empty(),
    {
        let m = StrMap { entries: Vec::new() };
        assert(m@ =~= Map::<Seq<char>, V::V>::empty());
        m
    }

    fn position(&self, key: &str) -> (r: Option<usize>)
        ensures
            match r {
                Some(i) => i < self.entries@.len() && self.entries@[i as int].0@ == key@
                    && entry_keys(self.entries@).contains(key@) && entry_keys(
                    self.entries@,
                ).index_of(key@) == i,
                None => !entry_keys(self.entries@).contains(key@),
            },
    {
        proof {
            use_type_invariant(self);
        }
        let mut i: usize = 0;
        while i < self.entries.len()
            invariant
                i <= self.entries.len(),
                entry_keys(self.entries@).no_duplicates(),
                forall|k: int| 0 <= k < i ==> entry_keys(self.entries@)[k] != key@,
            decreases self.entries.len() - i,
        {
            if str_equal(self.entries[i].0.as_str(), key) {
                proof {
                    assert(entry_keys(self.entries@)[i as int] == key@);
                    lemma_index_of_unique(entry_keys(self.entries@), i as int);
                }
                return Some(i);
            }
            i += 1;
        }
        None
    }

    /// Whether the map has an entry for `key`.
    pub fn contains_key(&self, key: &str) -> (b: bool)
        ensures
            b == self@.contains_key(key@),
    {
        self.position(key).is_some()
    }

    /// The value stored for `key`, if any.
    pub fn get(&self, key: &str) -> (r: Option<&V>)
        ensures
            match r {
                Some(v) => self@.contains_key(key@) && v@ == self@[key@],
                None => !self@.contains_key(key@),
            },
    {
        match self.position(key) {
            Some(i) => Some(&self.entries[i].1),
            None => None,
        }
    }

    /// Stores `value` for `key`, replacing and returning what was there.
    pub fn insert(&mut self, key: String, value: V) -> (previous: Option<V>)
        ensures
            final(self)@ == old(self)@.insert(key@, value@),
            opt_view(previous) == (if old(self)@.contains_key(key@) {
                Some(old(self)@[key@])
            } else {
                None
            }),
    {
        proof {
            use_type_invariant(&*self);
        }
        let found = self.position(key.as_str());
        let mut entries = Vec::new();
        core::mem::swap(&mut entries, &mut self.entries);
        let ghost e0 = entries@;
        let ghost keys0 = entry_keys(e0);
        let ghost before = old(self)@;
        let previous = match found {
            Some(i) => {
                entries.push((key, value));
                let prev = entries.swap_remove(i);
                assert(entry_keys(entries@) =~= keys0);
                Some(prev.1)
            },
            None => {
                entries.push((key, value));
                assert(entry_keys(entries@) =~= keys0.push(key@));
                None
            },
        };
        proof {
            let e1 = entries@;
            let keys1 = entry_keys(e1);
            assert forall|k: Seq<char>| keys1.contains(k) <==> (k == key@ || keys0.contains(
                k,
            )) by {
                if keys0.contains(k) {
                    let j = keys0.index_of(k);
                    assert(keys0[j] == k);
                    assert(keys1[j] == k);
                }
                if keys1.contains(k) && k != key@ {
                    let j = keys1.index_of(k);
                    assert(keys1[j] == k);
                    assert(keys0[j] == k);
                }
                if k == key@ && found is None {
                    assert(keys1[keys0.len() as int] == k);
                }
            }
            assert forall|k: Seq<char>| keys1.contains(k) implies e1[keys1.index_of(k)].1@ == (
            if k == key@ {
                value@
            } else {
                e0[keys0.index_of(k)].1@
            }) by {
                let j = keys1.index_of(k);
                assert(keys1[j] == k);
                if k != key@ {
                    assert(keys0[j] == k);
                    lemma_index_of_unique(keys0, j);
                } else if found is None {
                    lemma_index_of_unique(keys1, keys0.len() as int);
                }
            }
        }
        self.entries = entries;
        assert(self@ =~= before.insert(key@, value@));
        previous
    }

    /// Removes the entry for `key` and returns its value, if there was one.
    pub fn remove(&mut self, key: &str) -> (previous: Option<V>)
        ensures
            final(self)@ == old(self)@.remove(key@),
            opt_view(previous) == (if old(self)@.contains_key(key@) {
                Some(old(self)@[key@])
            } else {
                None
            }),
    {
        proof {
            use_type_invariant(&*self);
        }
        let ghost before = old(self)@;
        match self.position(key) {
            None => {
                assert(self@ =~= before.remove(key@));
                None
            },
            Some(i) => {
                let mut entries = Vec::new();
                core::mem::swap(&mut entries, &mut self.entries);
                let ghost e0 = entries@;
                let ghost keys0 = entry_keys(e0);
                let prev = entries.remove(i);
                proof {
                    let e1 = entries@;
                    let keys1 = entry_keys(e1);
                    assert(keys1 =~= without_index(keys0, i as int));
                    lemma_without_index(keys0, i as int);
                    assert forall|k: Seq<char>| keys1.contains(k) implies e1[keys1.index_of(
                        k,
                    )].1 == e0[keys0.index_of(k)].1 by {
                        let j = keys1.index_of(k);
                        assert(keys1[j] == k);
                        let j0 = if j < i {
                            j
                        } else {
                            j + 1
                        };
                        assert(keys0[j0] == k);
                        lemma_index_of_unique(keys0, j0);
                    }
                }
                self.entries = entries;
                assert(self@ =~= before.remove(key@));
                Some(prev.1)
            },
        }
    }

    /// How many entries the map holds.
    pub fn len(&self) -> (n: usize)
        ensures
            self@.dom().finite(),
            n == self@.dom().len(),
    {
        proof {
            use_type_invariant(self);
            let ks = entry_keys(self.entries@);
            ks.unique_seq_to_set();
            assert(self@.dom() =~= ks.to_set());
        }
        self.entries.len()
    }

    /// The keys of the map, each once.
    pub fn keys(&self) -> (v: Vec<String>)
        ensures
            texts(v@).no_duplicates(),
            forall|k: Seq<char>| texts(v@).contains(k) <==> self@.contains_key(k),
    {
        proof {
            use_type_invariant(self);
        }
        let mut v: Vec<String> = Vec::new();
        let mut i: usize = 0;
        while i < self.entries.len()
            invariant
                i <= self.entries.len(),
                v@.len() == i,
                forall|k: int| 0 <= k < i ==> v@[k]@ == self.entries@[k].0@,
            decreases self.entries.len() - i,
        {
            v.push(self.entries[i].0.clone());
            i += 1;
        }
        assert(texts(v@) =~= entry_keys(self.entries@));
        v
    }
}

} // verus!
