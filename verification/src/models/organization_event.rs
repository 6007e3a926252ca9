//! Events about organizations.
use vstd::prelude::*;
use crate::models::money::MoneyAmount;
use crate::models::organization::{OrganizationInvite, OrganizationView};

verus! {

/// An organization was founded.
#[derive(Debug, Clone, PartialEq, Eq)]
pub struct OrganizationCreated {
    pub organization: OrganizationView,
    pub actor_uid: String,
}

impl OrganizationCreated {
    pub fn new(organization: OrganizationView, actor_uid: &str) -> (r: Self)
        ensures
            r.organization == organization,
            r.actor_uid@ == actor_uid@,
    {
        OrganizationCreated { organization, actor_uid: actor_uid.to_owned() }
    }
}

/// An organization was disbanded and its members moved.
#[derive(Debug, Clone, PartialEq, Eq)]
pub struct OrganizationDisbanded {
    pub organization: OrganizationView,
    pub actor_uid: String,
    pub reassigned_uids: Vec<String>,
}

impl OrganizationDisbanded {
    pub fn new(organization: OrganizationView, actor_uid: &str, reassigned_uids: Vec<String>) -> (r: Self)
        ensures
            r.organization == organization,
            r.actor_uid@ == actor_uid@,
            r.reassigned_uids == reassigned_uids,
    {
        OrganizationDisbanded { organization, actor_uid: actor_uid.to_owned(), reassigned_uids }
    }
}

/// An invite was made.
#[derive(Debug, Clone, PartialEq, Eq)]
pub struct OrganizationInviteCreated {
    pub invite: OrganizationInvite,
}

impl OrganizationInviteCreated {
    pub fn new(invite: OrganizationInvite) -> (r: Self)
        ensures
            r.invite == invite,
    {
        OrganizationInviteCreated { invite }
    }
}

/// An invite was accepted.
#[derive(Debug, Clone, PartialEq, Eq)]
pub struct OrganizationInviteAccepted {
    pub invite: OrganizationInvite,
}

impl OrganizationInviteAccepted {
    pub fn new(invite: OrganizationInvite) -> (r: Self)
        ensures
            r.invite == invite,
    {
        OrganizationInviteAccepted { invite }
    }
}

/// An invite was declined.
#[derive(Debug, Clone, PartialEq, Eq)]
pub struct OrganizationInviteDeclined {
    pub invite: OrganizationInvite,
}

impl OrganizationInviteDeclined {
    pub fn new(invite: OrganizationInvite) -> (r: Self)
        ensures
            r.invite == invite,
    {
        OrganizationInviteDeclined { invite }
    }
}

/// A member left for the default organization.
#[derive(Debug, Clone, PartialEq, Eq)]
pub struct OrganizationMemberLeft {
    pub organization: OrganizationView,
    pub default_organization: OrganizationView,
    pub uid: String,
}

impl OrganizationMemberLeft {
    pub fn new(organization: OrganizationView, default_organization: OrganizationView, uid: &str) -> (r: Self)
        ensures
            r.organization == organization,
            r.default_organization == default_organization,
            r.uid@ == uid@,
    {
        OrganizationMemberLeft { organization, default_organization, uid: uid.to_owned() }
    }
}

/// A member was moved to the default organization by the CEO.
#[derive(Debug, Clone, PartialEq, Eq)]
pub struct OrganizationMemberKicked {
    pub organization: OrganizationView,
    pub default_organization: OrganizationView,
    pub actor_uid: String,
    pub kicked_uid: String,
}

impl OrganizationMemberKicked {
    pub fn new(organization: OrganizationView, default_organization: OrganizationView, actor_uid: &str, kicked_uid: &str) -> (r: Self)
        ensures
            r.organization == organization,
            r.default_organization == default_organization,
            r.actor_uid@ == actor_uid@,
            r.kicked_uid@ == kicked_uid@,
    {
        OrganizationMemberKicked { organization, default_organization, actor_uid: actor_uid.to_owned(), kicked_uid: kicked_uid.to_owned() }
    }
}

/// A payday was paid out.
#[derive(Debug, Clone, PartialEq, Eq)]
pub struct OrganizationPaydayIssued {
    pub organization: OrganizationView,
    pub issuer_uid: String,
    pub amount: MoneyAmount,
    pub recipients: Vec<String>,
}

impl OrganizationPaydayIssued {
    pub fn new(organization: OrganizationView, issuer_uid: &str, amount: MoneyAmount, recipients: Vec<String>) -> (r: Self)
        ensures
            r.organization == organization,
            r.issuer_uid@ == issuer_uid@,
            r.amount == amount,
            r.recipients == recipients,
    {
        OrganizationPaydayIssued { organization, issuer_uid: issuer_uid.to_owned(), amount, recipients }
    }
}

} // verus!
