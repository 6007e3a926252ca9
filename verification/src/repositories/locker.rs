//! Where players' lockers are kept.
use vstd::prelude::*;
use crate::models::locker::{entries_map, item_error, LockerItemModel, PlayerLocker, PlayerLockerModel};
use crate::shared::error::LockerError;
use crate::store::{Keyed, Store};

verus! {

impl Keyed for PlayerLocker {
    type Model = PlayerLockerModel;

    open spec fn key(&self) -> Seq<char> {
        self.uid@
    }

    open spec fn model(&self) -> PlayerLockerModel {
        self@
    }

    fn key_str(&self) -> (r: &str) {
        self.uid.as_str()
    }

    fn duplicate(&self) -> (r: Self) {
        self.clone()
    }
}

/// Whether every item of a locker is valid.
pub open spec fn entries_valid(entries: Seq<(Seq<char>, LockerItemModel)>) -> bool {
    forall|k: Seq<char>| #[trigger]
        entries_map(entries).contains_key(k) ==> item_error(entries_map(entries)[k]) is None
}

/// Lockers by player uid. Reads never fail and hand out copies; a locker
/// is stored only when all its items are valid.
pub trait LockerRepository {
    spec fn lockers(&self) -> Map<Seq<char>, PlayerLockerModel>;

    spec fn inv(&self) -> bool;

    proof fn lemma_consistent(&self)
        requires
            self.inv(),
        ensures
            forall|k: Seq<char>| #[trigger] self.lockers().contains_key(k) ==> self.lockers()[k].uid
                == k,
    ;

    fn find_by_uid(&self, uid: &str) -> (r: Result<Option<PlayerLocker>, LockerError>)
        requires
            self.inv(),
        ensures
            match r {
                Ok(Some(l)) => self.lockers().contains_key(uid@) && l@ == self.lockers()[uid@]
                    && l.locker.wf(),
                Ok(None) => !self.lockers().contains_key(uid@),
                Err(_) => false,
            },
    ;

    fn save(&mut self, locker: PlayerLocker) -> (r: Result<PlayerLocker, LockerError>)
        requires
            old(self).inv(),
            locker.locker.wf(),
        ensures
            final(self).inv(),
            entries_valid(locker@.entries) ==> (r matches Ok(l) && l@ == locker@ && l.locker.wf()
                && final(self).lockers() == old(self).lockers().insert(locker@.uid, locker@)),
            !entries_valid(locker@.entries) ==> (r matches Err(e) && (exists|k: Seq<char>|
                #[trigger] entries_map(locker@.entries).contains_key(k) && item_error(
                    entries_map(locker@.entries)[k],
                ) == Some(e)) && final(self).lockers() == old(self).lockers()),
    ;

    fn delete(&mut self, uid: &str) -> (r: Result<(), LockerError>)
        requires
            old(self).inv(),
        ensures
            final(self).inv(),
            r is Ok,
            final(self).lockers() == old(self).lockers().remove(uid@),
    ;
}

/// Lockers kept in memory.
pub struct InMemoryLockerRepository {
    lockers: Store<PlayerLocker>,
}

impl InMemoryLockerRepository {
    pub fn new() -> (r: Self)
        ensures
            r.inv(),
            r.lockers() == Map::<Seq<char>, PlayerLockerModel>::empty(),
    {
        InMemoryLockerRepository { lockers: Store::new() }
    }
}

/// Whether the entries of a stored locker have no key twice.
pub open spec fn entries_wf(entries: Seq<(Seq<char>, LockerItemModel)>) -> bool {
    forall|i: int, j: int| 0 <= i < j < entries.len() ==> entries[i].0 != entries[j].0
}

impl LockerRepository for InMemoryLockerRepository {
    closed spec fn lockers(&self) -> Map<Seq<char>, PlayerLockerModel> {
        self.lockers.view()
    }

    closed spec fn inv(&self) -> bool {
        &&& self.lockers.wf()
        &&& forall|k: Seq<char>| #[trigger]
            self.lockers.view().contains_key(k) ==> self.lockers.view()[k].uid == k
                && entries_wf(self.lockers.view()[k].entries)
    }

    proof fn lemma_consistent(&self) {
    }

    fn find_by_uid(&self, uid: &str) -> (r: Result<Option<PlayerLocker>, LockerError>) {
        let found = self.lockers.get(uid);
        proof {
            if let Some(l) = &found {
                assert(entries_wf(l@.entries));
                assert forall|i: int, j: int|
                    0 <= i < j < l.locker.items@.len() implies l.locker.items@[i].0@
                    != l.locker.items@[j].0@ by {
                    assert(l@.entries[i].0 == l.locker.items@[i].0@);
                    assert(l@.entries[j].0 == l.locker.items@[j].0@);
                }
            }
        }
        Ok(found)
    }

    fn save(&mut self, locker: PlayerLocker) -> (r: Result<PlayerLocker, LockerError>) {
        match locker.locker.validate() {
            Err(e) => return Err(e),
            Ok(()) => {},
        }
        let copy = locker.clone();
        proof {
            assert forall|i: int, j: int|
                0 <= i < j < locker@.entries.len() implies locker@.entries[i].0
                != locker@.entries[j].0 by {
                assert(locker@.entries[i].0 == locker.locker.items@[i].0@);
                assert(locker@.entries[j].0 == locker.locker.items@[j].0@);
            }
        }
        self.lockers.insert(locker);
        Ok(copy)
    }

    fn delete(&mut self, uid: &str) -> (r: Result<(), LockerError>) {
        self.lockers.remove(uid);
        Ok(())
    }
}

} // verus!
