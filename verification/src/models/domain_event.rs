//! Everything that happens in the game world that others may react to.
use vstd::prelude::*;
use crate::models::actor_event::{ActorCreated, ActorDisconnected};
use crate::models::locker_event::LockerTransferCommitted;
use crate::models::organization_event::{
    OrganizationCreated, OrganizationDisbanded, OrganizationInviteAccepted,
    OrganizationInviteCreated, OrganizationInviteDeclined, OrganizationMemberKicked,
    OrganizationMemberLeft, OrganizationPaydayIssued,
};

verus! {

#[derive(Debug, Clone, PartialEq)]
pub enum DomainEvent {
    ActorCreated(ActorCreated),
    ActorDisconnected(ActorDisconnected),
    LockerTransferCommitted(LockerTransferCommitted),
    OrganizationCreated(OrganizationCreated),
    OrganizationDisbanded(OrganizationDisbanded),
    OrganizationInviteCreated(OrganizationInviteCreated),
    OrganizationInviteAccepted(OrganizationInviteAccepted),
    OrganizationInviteDeclined(OrganizationInviteDeclined),
    OrganizationMemberLeft(OrganizationMemberLeft),
    OrganizationMemberKicked(OrganizationMemberKicked),
    OrganizationPaydayIssued(OrganizationPaydayIssued),
}

/// The name each kind of event is known by.
pub open spec fn event_name(e: DomainEvent) -> Seq<char> {
    match e {
        DomainEvent::ActorCreated(_) => "actor.created"@,
        DomainEvent::ActorDisconnected(_) => "actor.disconnected"@,
        DomainEvent::LockerTransferCommitted(_) => "locker.transfer_committed"@,
        DomainEvent::OrganizationCreated(_) => "organization.created"@,
        DomainEvent::OrganizationDisbanded(_) => "organization.disbanded"@,
        DomainEvent::OrganizationInviteCreated(_) => "organization.invite_created"@,
        DomainEvent::OrganizationInviteAccepted(_) => "organization.invite_accepted"@,
        DomainEvent::OrganizationInviteDeclined(_) => "organization.invite_declined"@,
        DomainEvent::OrganizationMemberLeft(_) => "organization.member_left"@,
        DomainEvent::OrganizationMemberKicked(_) => "organization.member_kicked"@,
        DomainEvent::OrganizationPaydayIssued(_) => "organization.payday_issued"@,
    }
}

impl DomainEvent {
    pub fn name(&self) -> (r: &'static str)
        ensures
            r@ == event_name(*self),
    {
        match self {
            DomainEvent::ActorCreated(_) => "actor.created",
            DomainEvent::ActorDisconnected(_) => "actor.disconnected",
            DomainEvent::LockerTransferCommitted(_) => "locker.transfer_committed",
            DomainEvent::OrganizationCreated(_) => "organization.created",
            DomainEvent::OrganizationDisbanded(_) => "organization.disbanded",
            DomainEvent::OrganizationInviteCreated(_) => "organization.invite_created",
            DomainEvent::OrganizationInviteAccepted(_) => "organization.invite_accepted",
            DomainEvent::OrganizationInviteDeclined(_) => "organization.invite_declined",
            DomainEvent::OrganizationMemberLeft(_) => "organization.member_left",
            DomainEvent::OrganizationMemberKicked(_) => "organization.member_kicked",
            DomainEvent::OrganizationPaydayIssued(_) => "organization.payday_issued",
        }
    }
}

} // verus!
