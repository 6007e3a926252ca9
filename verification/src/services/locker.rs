//! Players' lockers: created on first sight, stored, removed.
use vstd::prelude::*;
use crate::models::locker::{entries_map, item_error, LockerItemModel, PlayerLocker, PlayerLockerModel};
use crate::repositories::locker::{entries_valid, LockerRepository};
use crate::shared::error::LockerError;
use crate::text::{blank, is_blank};

verus! {

pub struct LockerService<R> {
    pub repository: R,
}

impl<R: LockerRepository> LockerService<R> {
    pub open spec fn lockers(&self) -> Map<Seq<char>, PlayerLockerModel> {
        self.repository.lockers()
    }

    pub fn new(repository: R) -> (r: Self)
        ensures
            r.repository == repository,
    {
        LockerService { repository }
    }

    /// The player's locker, made empty and stored when it is not there yet.
    pub fn create_actor_locker(&mut self, uid: &str) -> (r: Result<PlayerLocker, LockerError>)
        requires
            old(self).repository.inv(),
        ensures
            final(self).repository.inv(),
            blank(uid@) ==> (r matches Err(e) && e == LockerError::InvalidUid) && final(self).lockers()
                == old(self).lockers(),
            !blank(uid@) && old(self).lockers().contains_key(uid@) ==> (r matches Ok(l) && l@ == old(self).lockers()[uid@]) && final(self).lockers() == old(self).lockers(),
            !blank(uid@) && !old(self).lockers().contains_key(uid@) ==> (r matches Ok(l) && l@
                == PlayerLockerModel { uid: uid@, entries: Seq::empty() } && final(self).lockers()
                == old(self).lockers().insert(uid@, l@)),
    {
        validate_uid(uid)?;
        if let Some(locker) = self.repository.find_by_uid(uid)? {
            return Ok(locker);
        }
        let fresh = PlayerLocker::new(uid);
        proof {
            assert(entries_map(fresh@.entries) =~= Map::<Seq<char>, LockerItemModel>::empty());
        }
        self.repository.save(fresh)
    }

    /// The player's locker.
    pub fn get(&self, uid: &str) -> (r: Result<Option<PlayerLocker>, LockerError>)
        requires
            self.repository.inv(),
        ensures
            blank(uid@) ==> (r matches Err(e) && e == LockerError::InvalidUid),
            !blank(uid@) ==> match r {
                Ok(Some(l)) => self.lockers().contains_key(uid@) && l@ == self.lockers()[uid@],
                Ok(None) => !self.lockers().contains_key(uid@),
                Err(_) => false,
            },
    {
        validate_uid(uid)?;
        self.repository.find_by_uid(uid)
    }

    /// Stores a locker whose items are all valid.
    pub fn save(&mut self, locker: PlayerLocker) -> (r: Result<PlayerLocker, LockerError>)
        requires
            old(self).repository.inv(),
            locker.locker.wf(),
        ensures
            final(self).repository.inv(),
            blank(locker@.uid) ==> (r matches Err(e) && e == LockerError::InvalidUid) && final(self).lockers() == old(self).lockers(),
            !blank(locker@.uid) && entries_valid(locker@.entries) ==> (r matches Ok(l) && l@
                == locker@ && final(self).lockers() == old(self).lockers().insert(
                locker@.uid,
                locker@,
            )),
            !blank(locker@.uid) && !entries_valid(locker@.entries) ==> (r matches Err(e) && (exists|
                k: Seq<char>,
            |
                #[trigger] entries_map(locker@.entries).contains_key(k) && item_error(
                    entries_map(locker@.entries)[k],
                ) == Some(e)) && final(self).lockers() == old(self).lockers()),
    {
        validate_uid(locker.uid.as_str())?;
        self.repository.save(locker)
    }

    /// Removes the player's locker.
    pub fn delete(&mut self, uid: &str) -> (r: Result<(), LockerError>)
        requires
            old(self).repository.inv(),
        ensures
            final(self).repository.inv(),
            blank(uid@) ==> (r matches Err(e) && e == LockerError::InvalidUid) && final(self).lockers()
                == old(self).lockers(),
            !blank(uid@) ==> r is Ok && final(self).lockers() == old(self).lockers().remove(uid@),
    {
        validate_uid(uid)?;
        self.repository.delete(uid)
    }

    /// A player left; nothing is stored, the uid is only checked.
    pub fn disconnect(&self, uid: &str) -> (r: Result<(), LockerError>)
        ensures
            blank(uid@) ==> (r matches Err(e) && e == LockerError::InvalidUid),
            !blank(uid@) ==> r is Ok,
    {
        validate_uid(uid)?;
        Ok(())
    }
}

fn validate_uid(uid: &str) -> (r: Result<(), LockerError>)
    ensures
        blank(uid@) ==> (r matches Err(e) && e == LockerError::InvalidUid),
        !blank(uid@) ==> r is Ok,
{
    if is_blank(uid) {
        return Err(LockerError::InvalidUid);
    }
    Ok(())
}

} // verus!
