//! Where players' virtual garages are kept.
use vstd::prelude::*;
use crate::models::v_garage::{PlayerVGarage, PlayerVGarageModel};
use crate::shared::error::VGarageError;
use crate::store::{Keyed, Store};

verus! {

impl Keyed for PlayerVGarage {
    type Model = PlayerVGarageModel;

    open spec fn key(&self) -> Seq<char> {
        self.uid@
    }

    open spec fn model(&self) -> PlayerVGarageModel {
        self@
    }

    fn key_str(&self) -> (r: &str) {
        self.uid.as_str()
    }

    fn duplicate(&self) -> (r: Self) {
        self.clone()
    }
}

/// Virtual garages by player uid. Reads never fail and hand out copies.
pub trait VGarageRepository {
    spec fn garages(&self) -> Map<Seq<char>, PlayerVGarageModel>;

    spec fn inv(&self) -> bool;

    proof fn lemma_consistent(&self)
        requires
            self.inv(),
        ensures
            forall|k: Seq<char>| #[trigger] self.garages().contains_key(k) ==> self.garages()[k].uid
                == k,
    ;

    fn find_by_uid(&self, uid: &str) -> (r: Result<Option<PlayerVGarage>, VGarageError>)
        requires
            self.inv(),
        ensures
            match r {
                Ok(Some(g)) => self.garages().contains_key(uid@) && g@ == self.garages()[uid@],
                Ok(None) => !self.garages().contains_key(uid@),
                Err(_) => false,
            },
    ;

    fn save(&mut self, record: PlayerVGarage) -> (r: Result<PlayerVGarage, VGarageError>)
        requires
            old(self).inv(),
        ensures
            final(self).inv(),
            r matches Ok(g) && g@ == record@,
            final(self).garages() == old(self).garages().insert(record@.uid, record@),
    ;

    fn delete(&mut self, uid: &str) -> (r: Result<(), VGarageError>)
        requires
            old(self).inv(),
        ensures
            final(self).inv(),
            r is Ok,
            final(self).garages() == old(self).garages().remove(uid@),
    ;
}

/// Virtual garages kept in memory.
pub struct InMemoryVGarageRepository {
    garages: Store<PlayerVGarage>,
}

impl InMemoryVGarageRepository {
    pub fn new() -> (r: Self)
        ensures
            r.inv(),
            r.garages() == Map::<Seq<char>, PlayerVGarageModel>::empty(),
    {
        InMemoryVGarageRepository { garages: Store::new() }
    }
}

impl VGarageRepository for InMemoryVGarageRepository {
    closed spec fn garages(&self) -> Map<Seq<char>, PlayerVGarageModel> {
        self.garages.view()
    }

    closed spec fn inv(&self) -> bool {
        &&& self.garages.wf()
        &&& forall|k: Seq<char>| #[trigger]
            self.garages.view().contains_key(k) ==> self.garages.view()[k].uid == k
    }

    proof fn lemma_consistent(&self) {
    }

    fn find_by_uid(&self, uid: &str) -> (r: Result<Option<PlayerVGarage>, VGarageError>) {
        Ok(self.garages.get(uid))
    }

    fn save(&mut self, record: PlayerVGarage) -> (r: Result<PlayerVGarage, VGarageError>) {
        let copy = record.clone();
        self.garages.insert(record);
        Ok(copy)
    }

    fn delete(&mut self, uid: &str) -> (r: Result<(), VGarageError>) {
        self.garages.remove(uid);
        Ok(())
    }
}

} // verus!
