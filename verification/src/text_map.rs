//! A small map from texts to values that keeps its keys in the order in
//! which they were first inserted.

use vstd::prelude::*;

verus! {

/// A map keyed by text. No key occurs twice; keys stay in the order in which
/// they were first inserted.
pub struct TextMap<T> {
    entries: Vec<(String, T)>,
}

impl<T> View for TextMap<T> {
    type V = Map<Seq<char>, T>;

    /// The map as a mathematical map from key text to value.
    open spec fn view(&self) -> Map<Seq<char>, T> {
        Map::new(
            |k: Seq<char>| self.keys().contains(k),
            |k: Seq<char>| self.values()[self.keys().index_of(k)],
        )
    }
}

/// In a list without repetition, the index of an item is where it stands.
pub proof fn lemma_index_of<A>(s: Seq<A>, i: int)
    requires
        s.no_duplicates(),
        0 <= i < s.len(),
    ensures
        s.contains(s[i]),
        s.index_of(s[i]) == i,
{
    assert(s.contains(s[i]));
    let k = s.index_of(s[i]);
    assert(s[k] == s[i]);
}

impl<T> TextMap<T> {
    /// Whether the map is well formed: no key occurs twice.
    pub closed spec fn wf(&self) -> bool {
        self.keys().no_duplicates()
    }

    /// The keys, in the order in which they were first inserted.
    pub closed spec fn keys(&self) -> Seq<Seq<char>> {
        Seq::new(self.entries.len() as nat, |i: int| self.entries[i].0@)
    }

    /// The values, in the order of their keys.
    pub closed spec fn values(&self) -> Seq<T> {
        Seq::new(self.entries.len() as nat, |i: int| self.entries[i].1)
    }

    /// A well-formed map has as many values as keys, no key twice, and a
    /// finite domain made of its keys.
    pub proof fn lemma_shape(&self)
        requires
            self.wf(),
        ensures
            self.keys().no_duplicates(),
            self.keys().len() == self.values().len(),
            self@.dom().finite(),
            self@.dom().len() == self.keys().len(),
            forall|i: int|
                0 <= i < self.keys().len() ==> self@.contains_key(#[trigger] self.keys()[i]) && self@[self.keys()[i]]
                    == self.values()[i],
    {
        let keys = self.keys();
        assert(self@.dom() =~= keys.to_set());
        keys.unique_seq_to_set();
        assert forall|i: int| 0 <= i < keys.len() implies self@.contains_key(#[trigger] keys[i])
            && self@[keys[i]] == self.values()[i] by {
            lemma_index_of(keys, i);
        }
    }

    /// An empty map.
    pub fn new() -> (r: TextMap<T>)
        ensures
            r.wf(),
            r.keys() == Seq::<Seq<char>>::empty(),
            r.values() == Seq::<T>::empty(),
            r@ == Map::<Seq<char>, T>::empty(),
    {
        let r = TextMap { entries: Vec::new() };
        assert(r.keys() =~= Seq::<Seq<char>>::empty());
        assert(r.values() =~= Seq::<T>::empty());
        assert(r@ =~= Map::<Seq<char>, T>::empty());
        r
    }

    /// The number of entries.
    pub fn len(&self) -> (r: usize)
        requires
            self.wf(),
        ensures
            r == self.keys().len(),
            r == self@.dom().len(),
    {
        proof {
            self.lemma_shape();
        }
        self.entries.len()
    }

    /// Whether the map has no entry.
    pub fn is_empty(&self) -> (r: bool)
        requires
            self.wf(),
        ensures
            r == (self.keys().len() == 0),
            r == (self@ == Map::<Seq<char>, T>::empty()),
    {
        proof {
            if self.keys().len() == 0 {
                assert(self@ =~= Map::<Seq<char>, T>::empty());
            } else {
                assert(self.keys().contains(self.keys()[0]));
                assert(self@.contains_key(self.keys()[0]));
            }
        }
        self.entries.len() == 0
    }

    fn position(&self, key: &str) -> (r: Option<usize>)
        requires
            self.wf(),
        ensures
            match r {
                Some(i) => i < self.keys().len() && self.keys()[i as int] == key@
                    && self.keys().index_of(key@) == i && self.keys().contains(key@),
                None => !self.keys().contains(key@),
            },
    {
        let mut i: usize = 0;
        while i < self.entries.len()
            invariant
                self.wf(),
                i <= self.entries.len(),
                forall|j: int| 0 <= j < i ==> self.keys()[j] != key@,
            decreases self.entries.len() - i,
        {
            if self.entries[i].0.as_str().eq(key) {
                proof {
                    lemma_index_of(self.keys(), i as int);
                }
                return Some(i);
            }
            i += 1;
        }
        None
    }

    /// Whether the map holds a value under a key.
    pub fn contains_key(&self, key: &str) -> (r: bool)
        requires
            self.wf(),
        ensures
            r == self@.contains_key(key@),
    {
        self.position(key).is_some()
    }

    /// The value under a key, if there is one.
    pub fn get(&self, key: &str) -> (r: Option<&T>)
        requires
            self.wf(),
        ensures
            match r {
                Some(v) => self@.contains_key(key@) && *v == self@[key@],
                None => !self@.contains_key(key@),
            },
    {
        match self.position(key) {
            Some(i) => Some(&self.entries[i].1),
            None => None,
        }
    }

    /// The key of the entry at a position in insertion order.
    pub fn key_at(&self, i: usize) -> (r: &String)
        requires
            self.wf(),
            i < self.keys().len(),
        ensures
            r@ == self.keys()[i as int],
    {
        &self.entries[i].0
    }

    /// The value of the entry at a position in insertion order.
    pub fn value_at(&self, i: usize) -> (r: &T)
        requires
            self.wf(),
            i < self.keys().len(),
        ensures
            *r == self.values()[i as int],
            self@.contains_key(self.keys()[i as int]),
            *r == self@[self.keys()[i as int]],
    {
        proof {
            lemma_index_of(self.keys(), i as int);
        }
        &self.entries[i].1
    }

    /// Puts a value under a key, replacing what was there. A new key goes to
    /// the end of the order; a key already present keeps its place.
    pub fn insert(&mut self, key: String, value: T)
        requires
            old(self).wf(),
        ensures
            final(self).wf(),
            final(self)@ == old(self)@.insert(key@, value),
            old(self)@.contains_key(key@) ==> final(self).keys() == old(self).keys(),
            !old(self)@.contains_key(key@) ==> final(self).keys() == old(self).keys().push(key@),
    {
        let found = self.position(key.as_str());
        let ghost before = *self;
        match found {
            Some(i) => {
                self.entries[i].1 = value;
                assert(self.keys() =~= before.keys());
                assert(self.values() =~= before.values().update(i as int, value));
                assert forall|k: Seq<char>| self.keys().contains(k) && k != key@ implies self.keys().index_of(
                    k,
                ) != i by {
                    let a = self.keys().index_of(k);
                    assert(self.keys()[a] == k);
                }
            },
            None => {
                self.entries.push((key, value));
                let ghost n = before.keys().len() as int;
                assert(self.keys() =~= before.keys().push(key@));
                assert(self.values() =~= before.values().push(value));
                assert(self.keys().no_duplicates()) by {
                    assert forall|a: int, b: int|
                        0 <= a < self.keys().len() && 0 <= b < self.keys().len() && a != b implies self.keys()[a]
                        != self.keys()[b] by {
                        if a < n {
                            assert(before.keys().contains(before.keys()[a]));
                        }
                        if b < n {
                            assert(before.keys().contains(before.keys()[b]));
                        }
                    }
                }
                assert forall|k: Seq<char>| before.keys().contains(k) implies self.keys().index_of(k)
                    == before.keys().index_of(k) by {
                    let a = before.keys().index_of(k);
                    assert(self.keys()[a] == k);
                    lemma_index_of(self.keys(), a);
                }
                proof {
                    lemma_index_of(self.keys(), n);
                }
            },
        }
        assert(self@ =~= before@.insert(key@, value)) by {
            assert forall|k: Seq<char>| self.keys().contains(k) <==> (before.keys().contains(k) || k
                == key@) by {
                if self.keys().contains(k) {
                    let a = self.keys().index_of(k);
                    assert(self.keys()[a] == k);
                    if a < before.keys().len() {
                        assert(before.keys()[a] == k);
                    }
                }
                if before.keys().contains(k) {
                    let a = before.keys().index_of(k);
                    assert(self.keys()[a] == k);
                }
            }
        }
    }

    /// Takes the entry under a key out of the map, if there is one. The other
    /// keys keep their order.
    pub fn remove(&mut self, key: &str) -> (r: Option<T>)
        requires
            old(self).wf(),
        ensures
            final(self).wf(),
            final(self)@ == old(self)@.remove(key@),
            match r {
                Some(v) => old(self)@.contains_key(key@) && v == old(self)@[key@],
                None => !old(self)@.contains_key(key@),
            },
            old(self)@.contains_key(key@) ==> final(self).keys() == old(self).keys().remove(
                old(self).keys().index_of(key@),
            ),
            !old(self)@.contains_key(key@) ==> final(self).keys() == old(self).keys(),
    {
        let found = self.position(key);
        let ghost before = *self;
        match found {
            Some(i) => {
                let entry = self.entries.remove(i);
                assert(self.keys() =~= before.keys().remove(i as int));
                assert(self.values() =~= before.values().remove(i as int));
                proof {
                    assert forall|a: int| 0 <= a < self.keys().len() implies #[trigger] self.keys()[a]
                        == before.keys()[if a < i { a } else { a + 1 }] by {}
                    assert(self.keys().no_duplicates());
                    assert forall|k: Seq<char>| self.keys().contains(k) implies before.keys().contains(k) && k != key@
                        && self.values()[self.keys().index_of(k)] == before.values()[before.keys().index_of(
                        k,
                    )] by {
                        let a = self.keys().index_of(k);
                        assert(self.keys()[a] == k);
                        let b = if a < i { a } else { a + 1 };
                        assert(before.keys()[b] == k);
                        lemma_index_of(before.keys(), b);
                    }
                    assert forall|k: Seq<char>| before.keys().contains(k) && k != key@ implies self.keys().contains(
                        k,
                    ) by {
                        let c = before.keys().index_of(k);
                        assert(before.keys()[c] == k);
                        let a = if c < i { c } else { c - 1 };
                        assert(self.keys()[a] == k);
                    }
                    assert(self@ =~= before@.remove(key@));
                }
                Some(entry.1)
            },
            None => {
                proof {
                    assert(self@ =~= before@.remove(key@));
                }
                None
            },
        }
    }

    /// Removes every entry.
    pub fn clear(&mut self)
        ensures
            final(self).wf(),
            final(self)@ == Map::<Seq<char>, T>::empty(),
            final(self).keys() == Seq::<Seq<char>>::empty(),
    {
        self.entries = Vec::new();
        assert(self.keys() =~= Seq::<Seq<char>>::empty());
        assert(self@ =~= Map::<Seq<char>, T>::empty());
    }
}

} // verus!
