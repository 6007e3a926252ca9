//! Notifications to players, and audit records of what was done.
use vstd::prelude::*;
use crate::ids::{new_uuid_number, now_millis, uuid_number};

verus! {

/// A message to a player.
#[derive(Debug, Clone, PartialEq, Eq)]
pub struct Notification {
    /// A random UUID, as its 128-bit number.
    pub id: u128,
    pub uid: String,
    pub kind: NotificationKind,
    pub title: String,
    pub body: String,
    /// Milliseconds since the Unix epoch.
    pub created_at: i64,
    /// When the player read it, in milliseconds since the Unix epoch.
    pub read_at: Option<i64>,
}

pub struct NotificationModel {
    pub id: u128,
    pub uid: Seq<char>,
    pub kind: NotificationKind,
    pub title: Seq<char>,
    pub body: Seq<char>,
    pub created_at: int,
    pub read_at: Option<int>,
}

impl View for Notification {
    type V = NotificationModel;

    open spec fn view(&self) -> NotificationModel {
        NotificationModel {
            id: self.id,
            uid: self.uid@,
            kind: self.kind,
            title: self.title@,
            body: self.body@,
            created_at: self.created_at as int,
            read_at: match self.read_at {
                Some(t) => Some(t as int),
                None => None,
            },
        }
    }
}

impl Notification {
    /// An unread notification, created now, with a fresh id.
    pub fn new(uid: &str, kind: NotificationKind, title: &str, body: &str) -> (r: Self)
        ensures
            r@.uid == uid@,
            r@.kind == kind,
            r@.title == title@,
            r@.body == body@,
            r@.read_at is None,
            uuid_number(r@.id),
    {
        Notification {
            id: new_uuid_number(),
            uid: String::from_str(uid),
            kind,
            title: String::from_str(title),
            body: String::from_str(body),
            created_at: now_millis(),
            read_at: None,
        }
    }

    /// A copy with the same view.
    pub fn duplicate(&self) -> (r: Self)
        ensures
            r@ == self@,
    {
        Notification {
            id: self.id,
            uid: self.uid.clone(),
            kind: self.kind,
            title: self.title.clone(),
            body: self.body.clone(),
            created_at: self.created_at,
            read_at: self.read_at,
        }
    }
}

#[derive(Debug, Clone, Copy, PartialEq, Eq, Structural)]
pub enum NotificationKind {
    OrganizationDisbanded,
    OrganizationInvite,
    OrganizationJoined,
    OrganizationKicked,
    OrganizationLeft,
    OrganizationPayday,
}

#[derive(Debug, Clone, Copy, PartialEq, Eq, Structural)]
pub enum AuditAction {
    LockerTransferCommitted,
    OrganizationCreated,
    OrganizationDisbanded,
    OrganizationInviteCreated,
    OrganizationInviteAccepted,
    OrganizationInviteDeclined,
    OrganizationMemberKicked,
    OrganizationMemberLeft,
    OrganizationPaydayIssued,
}

/// A record of something a player did.
#[derive(Debug, Clone, PartialEq, Eq)]
pub struct AuditRecord {
    /// A random UUID, as its 128-bit number.
    pub id: u128,
    pub actor_uid: String,
    pub action: AuditAction,
    pub subject_id: String,
    pub message: String,
    /// Milliseconds since the Unix epoch.
    pub created_at: i64,
}

impl AuditRecord {
    /// A record made now, with a fresh id.
    pub fn new(actor_uid: &str, action: AuditAction, subject_id: &str, message: &str) -> (r: Self)
        ensures
            r.actor_uid@ == actor_uid@,
            r.action == action,
            r.subject_id@ == subject_id@,
            r.message@ == message@,
            uuid_number(r.id),
    {
        AuditRecord {
            id: new_uuid_number(),
            actor_uid: String::from_str(actor_uid),
            action,
            subject_id: String::from_str(subject_id),
            message: String::from_str(message),
            created_at: now_millis(),
        }
    }
}

} // verus!
