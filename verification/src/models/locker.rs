//! Lockers: the items a player stores, one entry per classname.
use vstd::prelude::*;
use crate::shared::error::LockerError;
use crate::text::{blank, is_blank, same_text};

verus! {

/// An item kind and how many of it are stored.
#[derive(Debug, PartialEq, Eq)]
pub struct LockerItem {
    pub category: String,
    pub classname: String,
    pub amount: u32,
}

pub struct LockerItemModel {
    pub category: Seq<char>,
    pub classname: Seq<char>,
    pub amount: u32,
}

impl View for LockerItem {
    type V = LockerItemModel;

    open spec fn view(&self) -> LockerItemModel {
        LockerItemModel { category: self.category@, classname: self.classname@, amount: self.amount }
    }
}

/// Why an item is not valid, if it is not: a blank category, a blank
/// classname or a zero amount, checked in that order.
pub open spec fn item_error(item: LockerItemModel) -> Option<LockerError> {
    if blank(item.category) {
        Some(LockerError::InvalidCategory)
    } else if blank(item.classname) {
        Some(LockerError::InvalidClassname)
    } else if item.amount == 0 {
        Some(LockerError::InvalidAmount)
    } else {
        None
    }
}

impl Clone for LockerItem {
    fn clone(&self) -> (r: Self)
        ensures
            r@ == self@,
    {
        LockerItem {
            category: self.category.clone(),
            classname: self.classname.clone(),
            amount: self.amount,
        }
    }
}

impl LockerItem {
    pub fn new(category: &str, classname: &str, amount: u32) -> (r: Result<Self, LockerError>)
        ensures
            match item_error(LockerItemModel { category: category@, classname: classname@, amount }) {
                Some(e) => r == Err::<LockerItem, LockerError>(e),
                None => r matches Ok(item) && item@ == (LockerItemModel {
                    category: category@,
                    classname: classname@,
                    amount,
                }),
            },
    {
        let item = LockerItem { category: category.to_owned(), classname: classname.to_owned(), amount };
        match item.validate() {
            Ok(()) => Ok(item),
            Err(e) => Err(e),
        }
    }

    pub fn validate(&self) -> (r: Result<(), LockerError>)
        ensures
            match item_error(self@) {
                Some(e) => r == Err::<(), LockerError>(e),
                None => r is Ok,
            },
    {
        if is_blank(self.category.as_str()) {
            return Err(LockerError::InvalidCategory);
        }
        if is_blank(self.classname.as_str()) {
            return Err(LockerError::InvalidClassname);
        }
        if self.amount == 0 {
            return Err(LockerError::InvalidAmount);
        }
        Ok(())
    }
}

/// The stored items, one entry per classname key.
#[derive(Debug, PartialEq, Eq)]
pub struct Locker {
    pub items: Vec<(String, LockerItem)>,
}

/// The entries as texts and item views.
pub open spec fn entry_models(items: Seq<(String, LockerItem)>) -> Seq<(Seq<char>, LockerItemModel)> {
    items.map_values(|e: (String, LockerItem)| (e.0@, e.1@))
}

/// Whether the entry at `i` is the one for key `k`.
pub open spec fn entry_at(entries: Seq<(String, LockerItem)>, k: Seq<char>, i: int) -> bool {
    0 <= i < entries.len() && entries[i].0@ == k
}

/// Whether the entry at `i` of the entry views is the one for key `k`.
pub open spec fn model_at(entries: Seq<(Seq<char>, LockerItemModel)>, k: Seq<char>, i: int) -> bool {
    0 <= i < entries.len() && entries[i].0 == k
}

/// The item stored under each key of a list of entry views.
pub open spec fn entries_map(entries: Seq<(Seq<char>, LockerItemModel)>) -> Map<
    Seq<char>,
    LockerItemModel,
> {
    Map::new(
        |k: Seq<char>| exists|i: int| model_at(entries, k, i),
        |k: Seq<char>| entries[choose|i: int| model_at(entries, k, i)].1,
    )
}

/// Replacing the item of an entry keeps the keys distinct and stores the
/// new item under that entry's key.
proof fn lemma_replace_entry(items: Seq<(String, LockerItem)>, i: int, v: LockerItem)
    requires
        0 <= i < items.len(),
        forall|a: int, b: int| 0 <= a < b < items.len() ==> items[a].0@ != items[b].0@,
    ensures
        ({
            let changed = items.update(i, (items[i].0, v));
            &&& forall|a: int, b: int|
                0 <= a < b < changed.len() ==> changed[a].0@ != changed[b].0@
            &&& entries_map(entry_models(changed)) == entries_map(entry_models(items)).insert(
                items[i].0@,
                v@,
            )
        }),
{
    let changed = items.update(i, (items[i].0, v));
    let before = entry_models(items);
    let after = entry_models(changed);
    let key = items[i].0@;
    assert forall|a: int, b: int| 0 <= a < b < changed.len() implies changed[a].0@ != changed[b].0@ by {
        assert(changed[a].0 == items[a].0 && changed[b].0 == items[b].0);
    }
    assert forall|k: Seq<char>|
        entries_map(after).contains_key(k) <==> entries_map(before).insert(key, v@).contains_key(k) by {
        if exists|j: int| model_at(before, k, j) {
            let j = choose|j: int| model_at(before, k, j);
            assert(model_at(after, k, j));
        }
        if exists|j: int| model_at(after, k, j) {
            let j = choose|j: int| model_at(after, k, j);
            assert(model_at(before, k, j));
        }
        if k == key {
            assert(model_at(after, k, i));
        }
    }
    assert forall|k: Seq<char>| #[trigger]
        entries_map(after).contains_key(k) implies entries_map(after)[k] == entries_map(before).insert(key, v@)[k] by {
        let j = choose|j: int| model_at(after, k, j);
        if k == key {
            if j != i {
                assert(after[j].0 == items[j].0@);
                if j < i {
                    assert(items[j].0@ != items[i].0@);
                } else {
                    assert(items[i].0@ != items[j].0@);
                }
            }
        } else {
            assert(model_at(before, k, j));
            let c = choose|c: int| model_at(before, k, c);
            if c != j {
                if c < j {
                    assert(items[c].0@ != items[j].0@);
                } else {
                    assert(items[j].0@ != items[c].0@);
                }
            }
        }
    }
    assert(entries_map(after) =~= entries_map(before).insert(key, v@));
}

impl View for Locker {
    type V = Map<Seq<char>, LockerItemModel>;

    /// The item stored under each key.
    open spec fn view(&self) -> Map<Seq<char>, LockerItemModel> {
        entries_map(entry_models(self.items@))
    }
}

impl Locker {
    /// Each key occurs in one entry only.
    pub open spec fn wf(&self) -> bool {
        forall|i: int, j: int|
            0 <= i < j < self.items@.len() ==> self.items@[i].0@ != self.items@[j].0@
    }

    /// The entries as texts and item views.
    pub open spec fn entries(&self) -> Seq<(Seq<char>, LockerItemModel)> {
        entry_models(self.items@)
    }

    /// Whether every stored item is valid.
    pub open spec fn all_valid(&self) -> bool {
        forall|k: Seq<char>| #[trigger] self@.contains_key(k) ==> item_error(self@[k]) is None
    }

    proof fn lemma_view_at(&self, i: int)
        requires
            self.wf(),
            0 <= i < self.items@.len(),
        ensures
            self@.contains_key(self.items@[i].0@),
            self@[self.items@[i].0@] == self.items@[i].1@,
    {
        let k = self.items@[i].0@;
        assert(model_at(self.entries(), k, i));
        let c = choose|c: int| model_at(self.entries(), k, c);
        if c != i {
            if c < i {
                assert(self.items@[c].0@ != self.items@[i].0@);
            } else {
                assert(self.items@[i].0@ != self.items@[c].0@);
            }
        }
    }

    /// The position of the entry for `key`.
    fn find(&self, key: &str) -> (r: Option<usize>)
        requires
            self.wf(),
        ensures
            match r {
                Some(i) => i < self.items@.len() && self.items@[i as int].0@ == key@,
                None => !self@.contains_key(key@),
            },
    {
        let mut i: usize = 0;
        while i < self.items.len()
            invariant
                i <= self.items@.len(),
                forall|j: int| 0 <= j < i ==> self.items@[j].0@ != key@,
            decreases self.items@.len() - i,
        {
            if same_text(self.items[i].0.as_str(), key) {
                return Some(i);
            }
            i = i + 1;
        }
        None
    }

    pub fn new() -> (r: Locker)
        ensures
            r.wf(),
            r@ == Map::<Seq<char>, LockerItemModel>::empty(),
            r.entries() == Seq::<(Seq<char>, LockerItemModel)>::empty(),
    {
        let r = Locker { items: Vec::new() };
        proof {
            assert(r.entries() =~= Seq::<(Seq<char>, LockerItemModel)>::empty());
            assert(r@ =~= Map::<Seq<char>, LockerItemModel>::empty());
        }
        r
    }

    /// Stores a valid item under its classname, replacing what was there.
    pub fn add_item(&mut self, item: LockerItem) -> (r: Result<(), LockerError>)
        requires
            old(self).wf(),
        ensures
            final(self).wf(),
            match item_error(item@) {
                Some(e) => r == Err::<(), LockerError>(e) && final(self)@ == old(self)@,
                None => r is Ok && final(self)@ == old(self)@.insert(item.classname@, item@),
            },
    {
        match item.validate() {
            Err(e) => return Err(e),
            Ok(()) => {},
        }
        let ghost key = item.classname@;
        let ghost value = item@;
        match self.find(item.classname.as_str()) {
            Some(i) => {
                let k = self.items[i].0.clone();
                self.items.set(i, (k, item));
                proof {
                    assert forall|a: int, b: int|
                        0 <= a < b < self.items@.len() implies self.items@[a].0@
                        != self.items@[b].0@ by {
                        assert(old(self).items@[a].0@ != old(self).items@[b].0@);
                    }
                    assert forall|k2: Seq<char>|
                        self@.contains_key(k2) <==> old(self)@.insert(key, value).contains_key(
                            k2,
                        ) by {
                        if self@.contains_key(k2) {
                            let c = choose|c: int| model_at(self.entries(), k2, c);
                            assert(model_at(old(self).entries(), k2, c));
                        }
                        if old(self)@.contains_key(k2) {
                            let c = choose|c: int| model_at(old(self).entries(), k2, c);
                            assert(model_at(self.entries(), k2, c));
                        }
                        if k2 == key {
                            assert(model_at(self.entries(), k2, i as int));
                        }
                    }
                    assert forall|k2: Seq<char>| #[trigger]
                        self@.contains_key(k2) implies self@[k2] == old(self)@.insert(
                            key,
                            value,
                        )[k2] by {
                        let c = choose|c: int| model_at(self.entries(), k2, c);
                        self.lemma_view_at(c);
                        if k2 != key {
                            old(self).lemma_view_at(c);
                        }
                    }
                    assert(self@ =~= old(self)@.insert(key, value));
                }
            },
            None => {
                let k = item.classname.clone();
                self.items.push((k, item));
                proof {
                    let n = old(self).items@.len();
                    assert forall|a: int, b: int|
                        0 <= a < b < self.items@.len() implies self.items@[a].0@
                        != self.items@[b].0@ by {
                        if b == n {
                            assert(model_at(old(self).entries(), self.items@[a].0@, a));
                        } else {
                            assert(old(self).items@[a].0@ != old(self).items@[b].0@);
                        }
                    }
                    assert forall|k2: Seq<char>|
                        self@.contains_key(k2) <==> old(self)@.insert(key, value).contains_key(
                            k2,
                        ) by {
                        if self@.contains_key(k2) {
                            let c = choose|c: int| model_at(self.entries(), k2, c);
                            if c < n {
                                assert(model_at(old(self).entries(), k2, c));
                            }
                        }
                        if old(self)@.contains_key(k2) {
                            let c = choose|c: int| model_at(old(self).entries(), k2, c);
                            assert(model_at(self.entries(), k2, c));
                        }
                        if k2 == key {
                            assert(model_at(self.entries(), k2, n as int));
                        }
                    }
                    assert forall|k2: Seq<char>| #[trigger]
                        self@.contains_key(k2) implies self@[k2] == old(self)@.insert(
                            key,
                            value,
                        )[k2] by {
                        let c = choose|c: int| model_at(self.entries(), k2, c);
                        self.lemma_view_at(c);
                        if c < n {
                            assert(model_at(old(self).entries(), k2, c));
                            old(self).lemma_view_at(c);
                        }
                    }
                    assert(self@ =~= old(self)@.insert(key, value));
                }
            },
        }
        Ok(())
    }

    /// Takes out the item stored under `classname`.
    pub fn remove_item(&mut self, classname: &str) -> (r: Option<LockerItem>)
        requires
            old(self).wf(),
        ensures
            final(self).wf(),
            final(self)@ == old(self)@.remove(classname@),
            match r {
                Some(item) => old(self)@.contains_key(classname@) && item@ == old(self)@[classname@],
                None => !old(self)@.contains_key(classname@),
            },
    {
        match self.find(classname) {
            None => {
                proof {
                    assert(self@ =~= old(self)@.remove(classname@));
                }
                None
            },
            Some(i) => {
                proof {
                    old(self).lemma_view_at(i as int);
                }
                let entry = self.items.remove(i);
                proof {
                    let n = old(self).items@.len();
                    assert forall|a: int, b: int|
                        0 <= a < b < self.items@.len() implies self.items@[a].0@
                        != self.items@[b].0@ by {
                        let a0 = if a < i {
                            a
                        } else {
                            a + 1
                        };
                        let b0 = if b < i {
                            b
                        } else {
                            b + 1
                        };
                        assert(self.items@[a] == old(self).items@[a0]);
                        assert(self.items@[b] == old(self).items@[b0]);
                        assert(old(self).items@[a0].0@ != old(self).items@[b0].0@);
                    }
                    assert forall|k2: Seq<char>|
                        self@.contains_key(k2) <==> old(self)@.remove(classname@).contains_key(
                            k2,
                        ) by {
                        if self@.contains_key(k2) {
                            let c = choose|c: int| model_at(self.entries(), k2, c);
                            let c0 = if c < i {
                                c
                            } else {
                                c + 1
                            };
                            assert(self.items@[c] == old(self).items@[c0]);
                            assert(model_at(old(self).entries(), k2, c0));
                            assert(old(self).items@[c0].0@ != old(self).items@[i as int].0@);
                        }
                        if old(self)@.contains_key(k2) && k2 != classname@ {
                            let c = choose|c: int| model_at(old(self).entries(), k2, c);
                            assert(c != i);
                            let c1 = if c < i {
                                c
                            } else {
                                c - 1
                            };
                            assert(self.items@[c1] == old(self).items@[c]);
                            assert(model_at(self.entries(), k2, c1));
                        }
                    }
                    assert forall|k2: Seq<char>| #[trigger]
                        self@.contains_key(k2) implies self@[k2] == old(self)@.remove(
                            classname@,
                        )[k2] by {
                        let c = choose|c: int| model_at(self.entries(), k2, c);
                        self.lemma_view_at(c);
                        let c0 = if c < i {
                            c
                        } else {
                            c + 1
                        };
                        assert(self.items@[c] == old(self).items@[c0]);
                        old(self).lemma_view_at(c0);
                    }
                    assert(self@ =~= old(self)@.remove(classname@));
                }
                Some(entry.1)
            },
        }
    }

    /// The item stored under `classname`.
    pub fn get_item(&self, classname: &str) -> (r: Option<&LockerItem>)
        requires
            self.wf(),
        ensures
            match r {
                Some(item) => self@.contains_key(classname@) && item@ == self@[classname@],
                None => !self@.contains_key(classname@),
            },
    {
        match self.find(classname) {
            None => None,
            Some(i) => {
                proof {
                    self.lemma_view_at(i as int);
                }
                Some(&self.items[i].1)
            },
        }
    }

    /// The item stored under `classname`, to change in place.
    pub fn get_item_mut(&mut self, classname: &str) -> (r: Option<&mut LockerItem>)
        requires
            old(self).wf(),
        ensures
            match r {
                Some(item) => old(self)@.contains_key(classname@) && (*item)@ == old(self)@[classname@]
                    && final(self).wf() && final(self)@ == old(self)@.insert(classname@, (*final(item))@),
                None => !old(self)@.contains_key(classname@) && *final(self) == *old(self),
            },
    {
        match self.find(classname) {
            None => None,
            Some(i) => {
                proof {
                    self.lemma_view_at(i as int);
                }
                let ghost before = self.items@;
                let item = &mut self.items[i].1;
                proof {
                    lemma_replace_entry(before, i as int, *final(item));
                }
                Some(item)
            },
        }
    }

    /// Checks every stored item; fails with the error of an invalid one.
    pub fn validate(&self) -> (r: Result<(), LockerError>)
        requires
            self.wf(),
        ensures
            r is Ok <==> self.all_valid(),
            r matches Err(e) ==> exists|k: Seq<char>|
                #[trigger] self@.contains_key(k) && item_error(self@[k]) == Some(e),
    {
        let mut i: usize = 0;
        while i < self.items.len()
            invariant
                self.wf(),
                i <= self.items@.len(),
                forall|j: int| 0 <= j < i ==> item_error(#[trigger] self.items@[j].1@) is None,
            decreases self.items@.len() - i,
        {
            match self.items[i].1.validate() {
                Err(e) => {
                    proof {
                        self.lemma_view_at(i as int);
                        assert(self@.contains_key(self.items@[i as int].0@));
                    }
                    return Err(e);
                },
                Ok(()) => {},
            }
            i = i + 1;
        }
        proof {
            assert forall|k: Seq<char>| #[trigger] self@.contains_key(k) implies item_error(
                self@[k],
            ) is None by {
                let c = choose|c: int| model_at(self.entries(), k, c);
                self.lemma_view_at(c);
            }
        }
        Ok(())
    }
}

impl Clone for Locker {
    fn clone(&self) -> (r: Self)
        ensures
            r@ == self@,
            r.entries() == self.entries(),
            self.wf() ==> r.wf(),
    {
        let mut items: Vec<(String, LockerItem)> = Vec::new();
        let mut i: usize = 0;
        while i < self.items.len()
            invariant
                i <= self.items@.len(),
                items@.len() == i,
                forall|j: int|
                    0 <= j < i ==> #[trigger] items@[j].0@ == self.items@[j].0@ && items@[j].1@
                        == self.items@[j].1@,
            decreases self.items@.len() - i,
        {
            items.push((self.items[i].0.clone(), self.items[i].1.clone()));
            i = i + 1;
        }
        let r = Locker { items };
        proof {
            assert(r.entries() =~= self.entries());
            if self.wf() {
                assert forall|a: int, b: int|
                    0 <= a < b < r.items@.len() implies r.items@[a].0@ != r.items@[b].0@ by {
                    assert(self.items@[a].0@ != self.items@[b].0@);
                }
            }
        }
        r
    }
}

impl Default for Locker {
    fn default() -> (r: Self)
        ensures
            r.wf(),
            r@ == Map::<Seq<char>, LockerItemModel>::empty(),
    {
        Locker::new()
    }
}

/// The locker of one player.
#[derive(Debug, PartialEq, Eq)]
pub struct PlayerLocker {
    pub uid: String,
    pub locker: Locker,
}

pub struct PlayerLockerModel {
    pub uid: Seq<char>,
    pub entries: Seq<(Seq<char>, LockerItemModel)>,
}

impl View for PlayerLocker {
    type V = PlayerLockerModel;

    open spec fn view(&self) -> PlayerLockerModel {
        PlayerLockerModel { uid: self.uid@, entries: self.locker.entries() }
    }
}

impl PlayerLocker {
    pub fn new(uid: &str) -> (r: Self)
        ensures
            r@ == (PlayerLockerModel { uid: uid@, entries: Seq::empty() }),
            r.locker.wf(),
            r.locker@ == Map::<Seq<char>, LockerItemModel>::empty(),
    {
        let r = PlayerLocker { uid: uid.to_owned(), locker: Locker::new() };
        proof {
            assert(r.locker.entries() =~= Seq::<(Seq<char>, LockerItemModel)>::empty());
        }
        r
    }
}

impl Clone for PlayerLocker {
    fn clone(&self) -> (r: Self)
        ensures
            r@ == self@,
            self.locker.wf() ==> r.locker.wf(),
    {
        PlayerLocker { uid: self.uid.clone(), locker: self.locker.clone() }
    }
}

} // verus!
