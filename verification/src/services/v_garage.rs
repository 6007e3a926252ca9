//! Players' virtual garages: created with starting unlocks, which are merged into
//! existing ones.
use vstd::prelude::*;
use crate::models::v_garage::{PlayerVGarage, PlayerVGarageModel, VGarage};
use crate::repositories::v_garage::VGarageRepository;
use crate::shared::error::VGarageError;
use crate::text::{blank, is_blank};

verus! {

pub struct VGarageService<R> {
    pub repository: R,
}

impl<R: VGarageRepository> VGarageService<R> {
    pub open spec fn garages(&self) -> Map<Seq<char>, PlayerVGarageModel> {
        self.repository.garages()
    }

    pub fn new(repository: R) -> (r: Self)
        ensures
            r.repository == repository,
    {
        VGarageService { repository }
    }

    /// Stores the player's unlocks with `starting_unlocks` merged in; a
    /// player seen for the first time gets exactly the starting unlocks.
    pub fn create_actor_garage(&mut self, uid: &str, starting_unlocks: &VGarage) -> (r: Result<
        PlayerVGarage,
        VGarageError,
    >)
        requires
            old(self).repository.inv(),
        ensures
            final(self).repository.inv(),
            blank(uid@) ==> (r matches Err(e) && e == VGarageError::InvalidUid) && final(self).garages()
                == old(self).garages(),
            !blank(uid@) && old(self).garages().contains_key(uid@) ==> (r matches Ok(g) && g@
                == (PlayerVGarageModel {
                uid: uid@,
                unlocks: old(self).garages()[uid@].unlocks.merge(starting_unlocks@),
            }) && final(self).garages() == old(self).garages().insert(uid@, g@)),
            !blank(uid@) && !old(self).garages().contains_key(uid@) ==> (r matches Ok(g) && g@
                == (PlayerVGarageModel { uid: uid@, unlocks: starting_unlocks@ }) && final(self).garages()
                == old(self).garages().insert(uid@, g@)),
    {
        validate_uid(uid)?;
        proof {
            self.repository.lemma_consistent();
        }
        if let Some(mut record) = self.repository.find_by_uid(uid)? {
            record.unlocks.merge(starting_unlocks);
            return self.repository.save(record);
        }
        self.repository.save(PlayerVGarage::new(uid, starting_unlocks.clone()))
    }

    pub fn get(&self, uid: &str) -> (r: Result<Option<PlayerVGarage>, VGarageError>)
        requires
            self.repository.inv(),
        ensures
            blank(uid@) ==> (r matches Err(e) && e == VGarageError::InvalidUid),
            !blank(uid@) ==> match r {
                Ok(Some(g)) => self.garages().contains_key(uid@) && g@ == self.garages()[uid@],
                Ok(None) => !self.garages().contains_key(uid@),
                Err(_) => false,
            },
    {
        validate_uid(uid)?;
        self.repository.find_by_uid(uid)
    }

    pub fn save(&mut self, record: PlayerVGarage) -> (r: Result<PlayerVGarage, VGarageError>)
        requires
            old(self).repository.inv(),
        ensures
            final(self).repository.inv(),
            blank(record@.uid) ==> (r matches Err(e) && e == VGarageError::InvalidUid) && final(self).garages() == old(self).garages(),
            !blank(record@.uid) ==> (r matches Ok(g) && g@ == record@ && final(self).garages()
                == old(self).garages().insert(record@.uid, record@)),
    {
        validate_uid(record.uid.as_str())?;
        self.repository.save(record)
    }

    pub fn delete(&mut self, uid: &str) -> (r: Result<(), VGarageError>)
        requires
            old(self).repository.inv(),
        ensures
            final(self).repository.inv(),
            blank(uid@) ==> (r matches Err(e) && e == VGarageError::InvalidUid) && final(self).garages()
                == old(self).garages(),
            !blank(uid@) ==> r is Ok && final(self).garages() == old(self).garages().remove(uid@),
    {
        validate_uid(uid)?;
        self.repository.delete(uid)
    }
}

fn validate_uid(uid: &str) -> (r: Result<(), VGarageError>)
    ensures
        blank(uid@) ==> (r matches Err(e) && e == VGarageError::InvalidUid),
        !blank(uid@) ==> r is Ok,
{
    if is_blank(uid) {
        return Err(VGarageError::InvalidUid);
    }
    Ok(())
}

} // verus!
