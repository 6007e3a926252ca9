//! Players' virtual lockers: created with starting unlocks, which are merged into
//! existing ones.
use vstd::prelude::*;
use crate::models::v_locker::{PlayerVLocker, PlayerVLockerModel, VLocker};
use crate::repositories::v_locker::VLockerRepository;
use crate::shared::error::VLockerError;
use crate::text::{blank, is_blank};

verus! {

pub struct VLockerService<R> {
    pub repository: R,
}

impl<R: VLockerRepository> VLockerService<R> {
    pub open spec fn lockers(&self) -> Map<Seq<char>, PlayerVLockerModel> {
        self.repository.lockers()
    }

    pub fn new(repository: R) -> (r: Self)
        ensures
            r.repository == repository,
    {
        VLockerService { repository }
    }

    /// Stores the player's unlocks with `starting_unlocks` merged in; a
    /// player seen for the first time gets exactly the starting unlocks.
    pub fn create_actor_locker(&mut self, uid: &str, starting_unlocks: &VLocker) -> (r: Result<
        PlayerVLocker,
        VLockerError,
    >)
        requires
            old(self).repository.inv(),
        ensures
            final(self).repository.inv(),
            blank(uid@) ==> (r matches Err(e) && e == VLockerError::InvalidUid) && final(self).lockers()
                == old(self).lockers(),
            !blank(uid@) && old(self).lockers().contains_key(uid@) ==> (r matches Ok(g) && g@
                == (PlayerVLockerModel {
                uid: uid@,
                unlocks: old(self).lockers()[uid@].unlocks.merge(starting_unlocks@),
            }) && final(self).lockers() == old(self).lockers().insert(uid@, g@)),
            !blank(uid@) && !old(self).lockers().contains_key(uid@) ==> (r matches Ok(g) && g@
                == (PlayerVLockerModel { uid: uid@, unlocks: starting_unlocks@ }) && final(self).lockers()
                == old(self).lockers().insert(uid@, g@)),
    {
        validate_uid(uid)?;
        proof {
            self.repository.lemma_consistent();
        }
        if let Some(mut record) = self.repository.find_by_uid(uid)? {
            record.unlocks.merge(starting_unlocks);
            return self.repository.save(record);
        }
        self.repository.save(PlayerVLocker::new(uid, starting_unlocks.clone()))
    }

    pub fn get(&self, uid: &str) -> (r: Result<Option<PlayerVLocker>, VLockerError>)
        requires
            self.repository.inv(),
        ensures
            blank(uid@) ==> (r matches Err(e) && e == VLockerError::InvalidUid),
            !blank(uid@) ==> match r {
                Ok(Some(g)) => self.lockers().contains_key(uid@) && g@ == self.lockers()[uid@],
                Ok(None) => !self.lockers().contains_key(uid@),
                Err(_) => false,
            },
    {
        validate_uid(uid)?;
        self.repository.find_by_uid(uid)
    }

    pub fn save(&mut self, record: PlayerVLocker) -> (r: Result<PlayerVLocker, VLockerError>)
        requires
            old(self).repository.inv(),
        ensures
            final(self).repository.inv(),
            blank(record@.uid) ==> (r matches Err(e) && e == VLockerError::InvalidUid) && final(self).lockers() == old(self).lockers(),
            !blank(record@.uid) ==> (r matches Ok(g) && g@ == record@ && final(self).lockers()
                == old(self).lockers().insert(record@.uid, record@)),
    {
        validate_uid(record.uid.as_str())?;
        self.repository.save(record)
    }

    pub fn delete(&mut self, uid: &str) -> (r: Result<(), VLockerError>)
        requires
            old(self).repository.inv(),
        ensures
            final(self).repository.inv(),
            blank(uid@) ==> (r matches Err(e) && e == VLockerError::InvalidUid) && final(self).lockers()
                == old(self).lockers(),
            !blank(uid@) ==> r is Ok && final(self).lockers() == old(self).lockers().remove(uid@),
    {
        validate_uid(uid)?;
        self.repository.delete(uid)
    }
}

fn validate_uid(uid: &str) -> (r: Result<(), VLockerError>)
    ensures
        blank(uid@) ==> (r matches Err(e) && e == VLockerError::InvalidUid),
        !blank(uid@) ==> r is Ok,
{
    if is_blank(uid) {
        return Err(VLockerError::InvalidUid);
    }
    Ok(())
}

} // verus!
