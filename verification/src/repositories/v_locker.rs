//! Where players' virtual lockers are kept.
use vstd::prelude::*;
use crate::models::v_locker::{PlayerVLocker, PlayerVLockerModel};
use crate::shared::error::VLockerError;
use crate::store::{Keyed, Store};

verus! {

impl Keyed for PlayerVLocker {
    type Model = PlayerVLockerModel;

    open spec fn key(&self) -> Seq<char> {
        self.uid@
    }

    open spec fn model(&self) -> PlayerVLockerModel {
        self@
    }

    fn key_str(&self) -> (r: &str) {
        self.uid.as_str()
    }

    fn duplicate(&self) -> (r: Self) {
        self.clone()
    }
}

/// Virtual lockers by player uid. Reads never fail and hand out copies.
pub trait VLockerRepository {
    spec fn lockers(&self) -> Map<Seq<char>, PlayerVLockerModel>;

    spec fn inv(&self) -> bool;

    proof fn lemma_consistent(&self)
        requires
            self.inv(),
        ensures
            forall|k: Seq<char>| #[trigger] self.lockers().contains_key(k) ==> self.lockers()[k].uid
                == k,
    ;

    fn find_by_uid(&self, uid: &str) -> (r: Result<Option<PlayerVLocker>, VLockerError>)
        requires
            self.inv(),
        ensures
            match r {
                Ok(Some(g)) => self.lockers().contains_key(uid@) && g@ == self.lockers()[uid@],
                Ok(None) => !self.lockers().contains_key(uid@),
                Err(_) => false,
            },
    ;

    fn save(&mut self, record: PlayerVLocker) -> (r: Result<PlayerVLocker, VLockerError>)
        requires
            old(self).inv(),
        ensures
            final(self).inv(),
            r matches Ok(g) && g@ == record@,
            final(self).lockers() == old(self).lockers().insert(record@.uid, record@),
    ;

    fn delete(&mut self, uid: &str) -> (r: Result<(), VLockerError>)
        requires
            old(self).inv(),
        ensures
            final(self).inv(),
            r is Ok,
            final(self).lockers() == old(self).lockers().remove(uid@),
    ;
}

/// Virtual lockers kept in memory.
pub struct InMemoryVLockerRepository {
    lockers: Store<PlayerVLocker>,
}

impl InMemoryVLockerRepository {
    pub fn new() -> (r: Self)
        ensures
            r.inv(),
            r.lockers() == Map::<Seq<char>, PlayerVLockerModel>::empty(),
    {
        InMemoryVLockerRepository { lockers: Store::new() }
    }
}

impl VLockerRepository for InMemoryVLockerRepository {
    closed spec fn lockers(&self) -> Map<Seq<char>, PlayerVLockerModel> {
        self.lockers.view()
    }

    closed spec fn inv(&self) -> bool {
        &&& self.lockers.wf()
        &&& forall|k: Seq<char>| #[trigger]
            self.lockers.view().contains_key(k) ==> self.lockers.view()[k].uid == k
    }

    proof fn lemma_consistent(&self) {
    }

    fn find_by_uid(&self, uid: &str) -> (r: Result<Option<PlayerVLocker>, VLockerError>) {
        Ok(self.lockers.get(uid))
    }

    fn save(&mut self, record: PlayerVLocker) -> (r: Result<PlayerVLocker, VLockerError>) {
        let copy = record.clone();
        self.lockers.insert(record);
        Ok(copy)
    }

    fn delete(&mut self, uid: &str) -> (r: Result<(), VLockerError>) {
        self.lockers.remove(uid);
        Ok(())
    }
}

} // verus!
