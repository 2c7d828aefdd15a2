//! A map from texts to values, kept as a list in the order in which the texts
//! came.

use crate::text::same_text;
use vstd::prelude::*;

verus! {

/// A map from texts to values: each text stands in the list once.
#[derive(Debug, Clone)]
pub struct KeyedList<T> {
    entries: Vec<(String, T)>,
}

/// Where `key` stands in `keys`.
pub open spec fn key_index(keys: Seq<Seq<char>>, key: Seq<char>) -> int {
    choose|i: int| 0 <= i < keys.len() && keys[i] == key
}

impl<T> View for KeyedList<T> {
    type V = Map<Seq<char>, T>;

    closed spec fn view(&self) -> Map<Seq<char>, T> {
        Map::new(
            |key: Seq<char>| self.keys().contains(key),
            |key: Seq<char>| self.entries@[key_index(self.keys(), key)].1,
        )
    }
}

impl<T> KeyedList<T> {
    /// The texts in order.
    pub closed spec fn keys(self) -> Seq<Seq<char>> {
        self.entries@.map_values(|entry: (String, T)| entry.0@)
    }

    /// Whether each text stands in the list once.
    pub open spec fn well_formed(self) -> bool {
        self.keys().no_duplicates()
    }

    /// The list has the texts of the map, and as many.
    pub proof fn lemma_keys(self)
        requires
            self.well_formed(),
        ensures
            forall|i: int|
                0 <= i < self.keys().len() ==> self@.dom().contains(#[trigger] self.keys()[i]),
            forall|key: Seq<char>| self@.dom().contains(key) ==> self.keys().contains(key),
            self@.dom() == self.keys().to_set(),
            self@.dom().finite(),
            self@.dom().len() == self.keys().len(),
    {
        assert(self@.dom() =~= self.keys().to_set());
        self.keys().unique_seq_to_set();
    }

    /// In a list without repetitions a text stands where it was seen.
    proof fn lemma_entry(self, i: int)
        requires
            self.well_formed(),
            0 <= i < self.entries@.len(),
        ensures
            self@.dom().contains(self.keys()[i]),
            self@[self.keys()[i]] == self.entries@[i].1,
    {
        let key = self.keys()[i];
        assert(self.keys().contains(key));
        let k = key_index(self.keys(), key);
        assert(0 <= k < self.keys().len() && self.keys()[k] == key);
    }

    /// Another value in one place changes the map there and nowhere else.
    proof fn lemma_replaced(before: Self, after: Self, i: int, value: T)
        requires
            before.well_formed(),
            0 <= i < before.entries@.len(),
            after.entries@ == before.entries@.update(i, (before.entries@[i].0, value)),
        ensures
            after.well_formed(),
            after.keys() == before.keys(),
            after@ == before@.insert(before.keys()[i], value),
    {
        let key = before.keys()[i];
        assert(after.keys() =~= before.keys());
        before.lemma_entry(i);
        assert forall|k: Seq<char>| after@.dom().contains(k) implies #[trigger] after@[k]
            == before@.insert(key, value)[k] by {
            let at = key_index(after.keys(), k);
            after.lemma_entry(at);
            before.lemma_entry(at);
        }
        assert(after@ =~= before@.insert(key, value));
    }

    /// The empty map.
    pub fn new() -> (r: Self)
        ensures
            r.well_formed(),
            r@ == Map::<Seq<char>, T>::empty(),
            r.keys().len() == 0,
    {
        let r = KeyedList { entries: Vec::new() };
        assert(r@ =~= Map::<Seq<char>, T>::empty());
        r
    }

    /// The number of texts.
    pub fn len(&self) -> (n: usize)
        ensures
            n == self.keys().len(),
    {
        self.entries.len()
    }

    /// Whether there is no text.
    pub fn is_empty(&self) -> (r: bool)
        ensures
            r == (self@ == Map::<Seq<char>, T>::empty()),
    {
        proof {
            if self.entries@.len() == 0 {
                assert(self@ =~= Map::<Seq<char>, T>::empty());
            } else {
                assert(self.keys()[0] == self.entries@[0].0@);
                assert(self.keys().contains(self.keys()[0]));
                assert(self@.dom().contains(self.keys()[0]));
            }
        }
        self.entries.len() == 0
    }

    /// The text in place `i`.
    pub fn key_at(&self, i: usize) -> (r: &String)
        requires
            i < self.keys().len(),
        ensures
            r@ == self.keys()[i as int],
    {
        &self.entries[i].0
    }

    /// The value of the text in place `i`.
    pub fn value_at(&self, i: usize) -> (r: &T)
        requires
            self.well_formed(),
            i < self.keys().len(),
        ensures
            *r == self@[self.keys()[i as int]],
    {
        proof {
            self.lemma_entry(i as int);
        }
        &self.entries[i].1
    }

    /// Where `key` stands.
    fn position(&self, key: &str) -> (r: Option<usize>)
        ensures
            match r {
                Some(i) => i < self.entries.len() && self.keys()[i as int] == key@,
                None => !self.keys().contains(key@),
            },
    {
        let mut i: usize = 0;
        while i < self.entries.len()
            invariant
                i <= self.entries.len(),
                forall|j: int| 0 <= j < i ==> self.keys()[j] != key@,
            decreases self.entries.len() - i,
        {
            if same_text(&self.entries[i].0, key) {
                return Some(i);
            }
            i += 1;
        }
        None
    }

    /// Whether `key` has a value.
    pub fn has(&self, key: &str) -> (r: bool)
        ensures
            r == self@.dom().contains(key@),
    {
        let place = self.position(key);
        match place {
            Some(i) => {
                assert(self.keys().contains(self.keys()[i as int]));
                true
            },
            None => false,
        }
    }

    /// The value of `key`.
    pub fn get(&self, key: &str) -> (r: Option<&T>)
        requires
            self.well_formed(),
        ensures
            r == (if self@.dom().contains(key@) {
                Some(&self@[key@])
            } else {
                None::<&T>
            }),
    {
        match self.position(key) {
            Some(i) => {
                proof {
                    self.lemma_entry(i as int);
                }
                Some(&self.entries[i].1)
            },
            None => None,
        }
    }

    /// The value of `key`, to be changed.
    pub fn get_mut(&mut self, key: &str) -> (r: Option<&mut T>)
        requires
            old(self).well_formed(),
        ensures
            final(self).well_formed(),
            final(self).keys() == old(self).keys(),
            match r {
                Some(value) => old(self)@.dom().contains(key@) && *value == old(self)@[key@]
                    && final(self)@ == old(self)@.insert(key@, *final(value)),
                None => !old(self)@.dom().contains(key@) && final(self)@ == old(self)@,
            },
    {
        match self.position(key) {
            Some(i) => {
                proof {
                    self.lemma_entry(i as int);
                }
                proof {
                    let before = *self;
                    let at = i as int;
                    let name = before.entries@[at].0;
                    assert forall|after: Self|
                        #![trigger after.keys()]
                        #![trigger after.well_formed()]
                        #![trigger after.view()]
                        after.entries@ == before.entries@.update(
                            at,
                            (name, after.entries@[at].1),
                        ) implies after.well_formed() && after.keys() == before.keys() && after@
                        == before@.insert(key@, after.entries@[at].1) by {
                        Self::lemma_replaced(before, after, at, after.entries@[at].1);
                    }
                }
                Some(&mut self.entries[i].1)
            },
            None => None,
        }
    }

    /// Gives `key` the value `value`, in the place where it stands, or else at
    /// the end.
    pub fn insert(&mut self, key: String, value: T)
        requires
            old(self).well_formed(),
        ensures
            final(self).well_formed(),
            final(self)@ == old(self)@.insert(key@, value),
            final(self).keys() == (if old(self)@.dom().contains(key@) {
                old(self).keys()
            } else {
                old(self).keys().push(key@)
            }),
    {
        match self.position(&key) {
            Some(i) => {
                proof {
                    self.lemma_entry(i as int);
                }
                self.entries[i].1 = value;
                proof {
                    Self::lemma_replaced(*old(self), *self, i as int, value);
                }
            },
            None => {
                let ghost name = key@;
                self.entries.push((key, value));
                proof {
                    assert(self.keys() =~= old(self).keys().push(name));
                    assert(self.keys().contains(name)) by {
                        assert(self.keys()[old(self).keys().len() as int] == name);
                    }
                    assert forall|k: Seq<char>|
                        #![auto]
                        self@.dom().contains(k) == old(self)@.insert(name, value).dom().contains(
                            k,
                        ) by {
                        if old(self).keys().contains(k) {
                            let at = old(self).keys().index_of(k);
                            assert(self.keys()[at] == k);
                        }
                    }
                    assert forall|k: Seq<char>| self@.dom().contains(k) implies #[trigger] self@[k]
                        == old(self)@.insert(name, value)[k] by {
                        let at = key_index(self.keys(), k);
                        assert(0 <= at < self.keys().len() && self.keys()[at] == k);
                        self.lemma_entry(at);
                        if at < old(self).keys().len() {
                            old(self).lemma_entry(at);
                        }
                    }
                    assert(self@ =~= old(self)@.insert(name, value));
                }
            },
        }
    }

    /// Takes `key` and its value out.
    pub fn remove(&mut self, key: &str) -> (r: Option<T>)
        requires
            old(self).well_formed(),
        ensures
            final(self).well_formed(),
            final(self)@ == old(self)@.remove(key@),
            r == (if old(self)@.dom().contains(key@) {
                Some(old(self)@[key@])
            } else {
                None::<T>
            }),
    {
        match self.position(key) {
            Some(i) => {
                proof {
                    self.lemma_entry(i as int);
                }
                let entry = self.entries.remove(i);
                proof {
                    assert(self.keys() =~= old(self).keys().remove(i as int));
                    assert forall|k: Seq<char>|
                        #![auto]
                        self@.dom().contains(k) == old(self)@.remove(key@).dom().contains(k) by {
                        if self.keys().contains(k) {
                            let at = self.keys().index_of(k);
                            assert(old(self).keys()[if at < i {
                                at
                            } else {
                                at + 1
                            }] == k);
                        }
                        if old(self).keys().contains(k) && k != key@ {
                            let at = old(self).keys().index_of(k);
                            assert(self.keys()[if at < i {
                                at
                            } else {
                                at - 1
                            }] == k);
                        }
                    }
                    assert forall|k: Seq<char>| self@.dom().contains(k) implies #[trigger] self@[k]
                        == old(self)@.remove(key@)[k] by {
                        let at = key_index(self.keys(), k);
                        assert(0 <= at < self.keys().len() && self.keys()[at] == k);
                        self.lemma_entry(at);
                        old(self).lemma_entry(
                            if at < i {
                                at
                            } else {
                                at + 1
                            },
                        );
                    }
                    assert(self@ =~= old(self)@.remove(key@));
                }
                Some(entry.1)
            },
            None => {
                assert(self@ =~= old(self)@.remove(key@));
                None
            },
        }
    }
}

// ==================== Laws ====================

impl<T> KeyedList<T> {
    /// The map has every text of the list, with the value that stands beside it,
    /// and no other.
    pub proof fn law_map_has_every_entry(self, key: Seq<char>)
        requires
            self.well_formed(),
        ensures
            self@.dom().contains(key) <==> exists|i: int|
                0 <= i < self.keys().len() && #[trigger] self.keys()[i] == key,
            self@.dom().len() == self.keys().len(),
    {
        self.lemma_keys();
        if self@.dom().contains(key) {
            let i = self.keys().index_of(key);
            assert(self.keys()[i] == key);
        }
    }

    /// A text of the list has the value that stands beside it.
    proof fn law_value_stands_beside_its_text(self, i: int)
        requires
            self.well_formed(),
            0 <= i < self.entries@.len(),
        ensures
            self.keys().len() == self.entries@.len(),
            self.keys()[i] == self.entries@[i].0@,
            self@[self.entries@[i].0@] == self.entries@[i].1,
    {
        self.lemma_entry(i);
    }
}

} // verus!
