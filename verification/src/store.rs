//! An in-memory table of records, each found by a text key that no two
//! records share.
use vstd::prelude::*;
use crate::text::same_text;

verus! {

/// A record that a text key identifies.
pub trait Keyed: Sized {
    type Model;

    spec fn key(&self) -> Seq<char>;

    spec fn model(&self) -> Self::Model;

    fn key_str(&self) -> (r: &str)
        ensures
            r@ == self.key(),
    ;

    fn duplicate(&self) -> (r: Self)
        ensures
            r.key() == self.key(),
            r.model() == self.model(),
    ;
}

/// Records in the order they were first stored.
pub struct Store<T> {
    entries: Vec<T>,
}

impl<T: Keyed> Store<T> {
    /// The keys in storing order.
    pub closed spec fn keys(&self) -> Seq<Seq<char>> {
        self.entries@.map_values(|e: T| e.key())
    }

    /// The record stored under each key.
    pub closed spec fn view(&self) -> Map<Seq<char>, T::Model> {
        Map::new(
            |k: Seq<char>| self.keys().contains(k),
            |k: Seq<char>| self.entries@[self.keys().index_of(k)].model(),
        )
    }

    /// No key is stored twice.
    pub closed spec fn wf(&self) -> bool {
        self.keys().no_duplicates()
    }

    /// The keys are distinct, they are the stored keys, and there are
    /// finitely many.
    pub proof fn lemma_keys(&self)
        requires
            self.wf(),
        ensures
            self.keys().no_duplicates(),
            forall|k: Seq<char>| #[trigger] self.view().contains_key(k) <==> self.keys().contains(k),
            self.view().dom().finite(),
    {
        assert(self.view().dom() =~= self.keys().to_set());
        self.keys().lemma_cardinality_of_set();
    }

    pub fn new() -> (r: Self)
        ensures
            r.wf(),
            r.view() == Map::<Seq<char>, T::Model>::empty(),
            r.keys() == Seq::<Seq<char>>::empty(),
    {
        let r = Store { entries: Vec::new() };
        proof {
            assert(r.keys() =~= Seq::<Seq<char>>::empty());
            assert(r.view() =~= Map::<Seq<char>, T::Model>::empty());
        }
        r
    }

    pub fn len(&self) -> (r: usize)
        ensures
            r == self.keys().len(),
    {
        self.entries.len()
    }

    /// The record at a position of the storing order.
    pub fn get_at(&self, i: usize) -> (r: &T)
        requires
            self.wf(),
            i < self.keys().len(),
        ensures
            r.key() == self.keys()[i as int],
            self.view().contains_key(r.key()),
            self.view()[r.key()] == r.model(),
    {
        proof {
            self.lemma_index_of(i as int);
        }
        &self.entries[i]
    }

    proof fn lemma_index_of(&self, i: int)
        requires
            self.wf(),
            0 <= i < self.keys().len(),
        ensures
            self.keys().contains(self.keys()[i]),
            self.keys().index_of(self.keys()[i]) == i,
    {
        let k = self.keys()[i];
        assert(self.keys().contains(k));
        let j = self.keys().index_of(k);
        self.keys().index_of_first_ensures(k);
        if j != i {
            assert(self.keys()[j] == k);
        }
    }

    /// The position of the record with `key`.
    pub fn position(&self, key: &str) -> (r: Option<usize>)
        requires
            self.wf(),
        ensures
            match r {
                Some(i) => i < self.keys().len() && self.keys()[i as int] == key@,
                None => !self.keys().contains(key@),
            },
    {
        let mut i: usize = 0;
        while i < self.entries.len()
            invariant
                i <= self.entries@.len(),
                forall|j: int| 0 <= j < i ==> self.keys()[j] != key@,
            decreases self.entries@.len() - i,
        {
            if same_text(self.entries[i].key_str(), key) {
                return Some(i);
            }
            i = i + 1;
        }
        None
    }

    /// A copy of the record with `key`.
    pub fn get(&self, key: &str) -> (r: Option<T>)
        requires
            self.wf(),
        ensures
            match r {
                Some(e) => self.view().contains_key(key@) && e.key() == key@ && e.model()
                    == self.view()[key@],
                None => !self.view().contains_key(key@),
            },
    {
        match self.position(key) {
            Some(i) => {
                let e = self.get_at(i);
                Some(e.duplicate())
            },
            None => None,
        }
    }

    /// Stores a record under its key, replacing the one stored there.
    pub fn insert(&mut self, value: T)
        requires
            old(self).wf(),
        ensures
            final(self).wf(),
            final(self).view() == old(self).view().insert(value.key(), value.model()),
            old(self).keys().contains(value.key()) ==> final(self).keys() == old(self).keys(),
            !old(self).keys().contains(value.key()) ==> final(self).keys() == old(self).keys().push(
                value.key(),
            ),
    {
        let ghost key = value.key();
        let ghost model = value.model();
        let ghost old_keys = self.keys();
        match self.position(value.key_str()) {
            Some(i) => {
                proof {
                    self.lemma_index_of(i as int);
                }
                self.entries.set(i, value);
                proof {
                    assert(self.keys() =~= old_keys);
                    assert forall|k: Seq<char>| #[trigger]
                        self.view().contains_key(k) implies self.view()[k] == old(self).view().insert(key, model)[k] by {
                        let j = self.keys().index_of(k);
                        self.keys().index_of_first_ensures(k);
                        self.lemma_index_of(j);
                        if k != key {
                            old(self).lemma_index_of(j);
                        }
                    }
                    assert(self.view() =~= old(self).view().insert(key, model));
                }
            },
            None => {
                self.entries.push(value);
                proof {
                    assert(self.keys() =~= old_keys.push(key));
                    assert forall|a: int, b: int|
                        0 <= a < self.keys().len() && 0 <= b < self.keys().len() && a != b implies self.keys()[a]
                        != self.keys()[b] by {
                        if a == old_keys.len() as int {
                            assert(old_keys.contains(self.keys()[b]) || b == a);
                        } else if b == old_keys.len() as int {
                            assert(old_keys.contains(self.keys()[a]));
                        }
                    }
                    assert forall|k: Seq<char>| #[trigger]
                        self.view().contains_key(k) implies self.view()[k] == old(self).view().insert(key, model)[k] by {
                        let j = self.keys().index_of(k);
                        self.keys().index_of_first_ensures(k);
                        self.lemma_index_of(j);
                        if k != key {
                            old(self).lemma_index_of(j);
                        }
                    }
                    assert forall|k: Seq<char>|
                        self.view().contains_key(k) <==> old(self).view().insert(
                            key,
                            model,
                        ).contains_key(k) by {
                        if old_keys.contains(k) {
                            let j = choose|j: int| 0 <= j < old_keys.len() && old_keys[j] == k;
                            assert(self.keys()[j] == k);
                        }
                        if k == key {
                            assert(self.keys()[old_keys.len() as int] == k);
                        }
                        if self.keys().contains(k) && k != key {
                            let j = choose|j: int| 0 <= j < self.keys().len() && self.keys()[j] == k;
                            assert(old_keys[j] == k);
                        }
                    }
                    assert(self.view() =~= old(self).view().insert(key, model));
                }
            },
        }
    }

    /// Drops the record with `key`, if there is one.
    pub fn remove(&mut self, key: &str)
        requires
            old(self).wf(),
        ensures
            final(self).wf(),
            final(self).view() == old(self).view().remove(key@),
            match old(self).keys().index_of_first(key@) {
                Some(i) => final(self).keys() == old(self).keys().remove(i),
                None => final(self).keys() == old(self).keys(),
            },
    {
        let ghost old_keys = self.keys();
        proof {
            old_keys.index_of_first_ensures(key@);
        }
        match self.position(key) {
            None => {
                proof {
                    assert(self.view() =~= old(self).view().remove(key@));
                }
            },
            Some(i) => {
                proof {
                    self.lemma_index_of(i as int);
                    assert(old_keys.index_of_first(key@) == Some(i as int));
                }
                let _gone = self.entries.remove(i);
                proof {
                    assert(self.keys() =~= old_keys.remove(i as int));
                    assert forall|a: int, b: int|
                        0 <= a < self.keys().len() && 0 <= b < self.keys().len() && a != b implies self.keys()[a]
                        != self.keys()[b] by {
                        let a0 = if a < i {
                            a
                        } else {
                            a + 1
                        };
                        let b0 = if b < i {
                            b
                        } else {
                            b + 1
                        };
                        assert(self.keys()[a] == old_keys[a0]);
                        assert(self.keys()[b] == old_keys[b0]);
                    }
                    assert forall|k: Seq<char>|
                        self.view().contains_key(k) <==> old(self).view().remove(key@).contains_key(
                            k,
                        ) by {
                        if self.keys().contains(k) {
                            let j = choose|j: int| 0 <= j < self.keys().len() && self.keys()[j] == k;
                            let j0 = if j < i {
                                j
                            } else {
                                j + 1
                            };
                            assert(old_keys[j0] == k);
                            assert(j0 != i);
                        }
                        if old_keys.contains(k) && k != key@ {
                            let j = choose|j: int| 0 <= j < old_keys.len() && old_keys[j] == k;
                            assert(j != i);
                            let j1 = if j < i {
                                j
                            } else {
                                j - 1
                            };
                            assert(self.keys()[j1] == k);
                        }
                    }
                    assert forall|k: Seq<char>| #[trigger]
                        self.view().contains_key(k) implies self.view()[k] == old(self).view().remove(key@)[k] by {
                        let j = self.keys().index_of(k);
                        self.keys().index_of_first_ensures(k);
                        self.lemma_index_of(j);
                        let j0 = if j < i {
                            j
                        } else {
                            j + 1
                        };
                        assert(self.entries@[j] == old(self).entries@[j0]);
                        old(self).lemma_index_of(j0);
                    }
                    assert(self.view() =~= old(self).view().remove(key@));
                }
            },
        }
    }
}

} // verus!
