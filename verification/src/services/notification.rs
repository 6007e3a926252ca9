//! Players reading their notifications.
use vstd::prelude::*;
use crate::ids::{parse_uuid, parsed_uuid};
use crate::models::notification::{Notification, NotificationModel};
use crate::repositories::notification::{lists, marked_read, models, of_player, NotificationRepository};
use crate::shared::error::NotificationError;
use crate::text::{blank, is_blank};

verus! {

fn validate_uid(uid: &str) -> (r: Result<(), NotificationError>)
    ensures
        r == (if blank(uid@) {
            Err(NotificationError::InvalidUid)
        } else {
            Ok(())
        }),
{
    if is_blank(uid) {
        return Err(NotificationError::InvalidUid);
    }
    Ok(())
}

/// The id a text names, as a UUID's 128-bit number.
fn parse_id(id: &str) -> (r: Result<u128, NotificationError>)
    ensures
        match parsed_uuid(id@) {
            Some(n) => r == Ok::<u128, NotificationError>(n),
            None => r == Err::<u128, NotificationError>(NotificationError::InvalidId),
        },
{
    match parse_uuid(id) {
        Some(n) => Ok(n),
        None => Err(NotificationError::InvalidId),
    }
}

pub struct NotificationService<R> {
    repository: R,
}

impl<R: NotificationRepository> NotificationService<R> {
    /// The notifications stored, by id.
    pub closed spec fn notifications(&self) -> Map<u128, NotificationModel> {
        self.repository.notifications()
    }

    pub closed spec fn inv(&self) -> bool {
        self.repository.inv()
    }

    pub fn new(repository: R) -> (r: Self)
        ensures
            r.notifications() == repository.notifications(),
            r.inv() == repository.inv(),
    {
        NotificationService { repository }
    }

    /// All of the player's notifications, newest first.
    pub fn list(&self, uid: &str) -> (r: Result<Vec<Notification>, NotificationError>)
        requires
            self.inv(),
        ensures
            blank(uid@) ==> r == Err::<Vec<Notification>, NotificationError>(
                NotificationError::InvalidUid,
            ),
            !blank(uid@) ==> (r matches Ok(v) && lists(
                self.notifications(),
                models(v@),
                |n: NotificationModel| of_player(n, uid@, false),
            )),
    {
        validate_uid(uid)?;
        self.repository.list_by_uid(uid)
    }

    /// The player's unread notifications, newest first.
    pub fn unread(&self, uid: &str) -> (r: Result<Vec<Notification>, NotificationError>)
        requires
            self.inv(),
        ensures
            blank(uid@) ==> r == Err::<Vec<Notification>, NotificationError>(
                NotificationError::InvalidUid,
            ),
            !blank(uid@) ==> (r matches Ok(v) && lists(
                self.notifications(),
                models(v@),
                |n: NotificationModel| of_player(n, uid@, true),
            )),
    {
        validate_uid(uid)?;
        self.repository.list_unread_by_uid(uid)
    }

    /// Marks the player's notification read; `id` is its UUID as text.
    pub fn mark_read(&mut self, uid: &str, id: &str) -> (r: Result<Notification, NotificationError>)
        requires
            old(self).inv(),
        ensures
            final(self).inv(),
            blank(uid@) ==> r == Err::<Notification, NotificationError>(
                NotificationError::InvalidUid,
            ) && final(self).notifications() == old(self).notifications(),
            !blank(uid@) ==> match parsed_uuid(id@) {
                None => r == Err::<Notification, NotificationError>(NotificationError::InvalidId)
                    && final(self).notifications() == old(self).notifications(),
                Some(n) => {
                    let before = old(self).notifications();
                    if before.contains_key(n) && before[n].uid == uid@ {
                        r matches Ok(m) && m@.read_at is Some && (before[n].read_at is Some ==> m@
                            == before[n]) && m@ == (NotificationModel {
                            read_at: m@.read_at,
                            ..before[n]
                        }) && final(self).notifications() == before.insert(n, m@)
                    } else {
                        r == Err::<Notification, NotificationError>(NotificationError::NotFound)
                            && final(self).notifications() == before
                    }
                },
            },
    {
        validate_uid(uid)?;
        let id = parse_id(id)?;
        self.repository.mark_read(uid, id)
    }

    /// Marks all of the player's unread notifications read and lists them.
    pub fn mark_all_read(&mut self, uid: &str) -> (r: Result<Vec<Notification>, NotificationError>)
        requires
            old(self).inv(),
        ensures
            final(self).inv(),
            blank(uid@) ==> r == Err::<Vec<Notification>, NotificationError>(
                NotificationError::InvalidUid,
            ) && final(self).notifications() == old(self).notifications(),
            !blank(uid@) ==> {
                let before = old(self).notifications();
                let after = final(self).notifications();
                &&& marked_read(before, after, uid@)
                &&& r matches Ok(v) && lists(
                    after,
                    models(v@),
                    |n: NotificationModel|
                        before.contains_key(n.id) && of_player(before[n.id], uid@, true),
                )
            },
    {
        validate_uid(uid)?;
        self.repository.mark_all_read(uid)
    }
}

} // verus!
