//! Organizations: founding, invites, membership moves, permissions and
//! paydays.
use vstd::prelude::*;
use crate::ids::uuid_text;
use crate::models::money::{amount_read, money_text, starting_money, Money};
use crate::models::organization::{
    admin_action, MemberModel, member_models, OrganizationMember, InviteModel, Organization, OrganizationAction, OrganizationDisband,
    OrganizationInvite, OrganizationInviteStatus, OrganizationKind, OrganizationMemberTransfer,
    OrganizationModel, OrganizationPayday, OrganizationPaydayPlan, OrganizationView,
};
use crate::models::v_garage::{VGarage, VGarageModel};
use crate::models::v_locker::{VLocker, VLockerModel};
use crate::repositories::organization::{pending_for, OrganizationRepository};
use crate::shared::error::OrganizationError;
use crate::models::names::{contains_name, names};
use crate::text::{blank, is_blank, same_text};

verus! {

pub type Orgs = Map<Seq<char>, OrganizationModel>;

/// The organization `id`, if the id is well formed and stored.
pub open spec fn check_org(orgs: Orgs, id: Seq<char>) -> Result<OrganizationModel, OrganizationError> {
    if blank(id) {
        Err(OrganizationError::InvalidId)
    } else if !orgs.contains_key(id) {
        Err(OrganizationError::NotFound)
    } else {
        Ok(orgs[id])
    }
}

/// The organization `id`, if `uid` is one of its members.
pub open spec fn check_member(orgs: Orgs, uid: Seq<char>, id: Seq<char>) -> Result<
    OrganizationModel,
    OrganizationError,
> {
    match check_org(orgs, id) {
        Err(e) => Err(e),
        Ok(o) => if blank(uid) {
            Err(OrganizationError::InvalidUid)
        } else if !o.has_member(uid) {
            Err(OrganizationError::NotMember)
        } else {
            Ok(o)
        },
    }
}

/// The organization `id`, if `uid` is its CEO.
pub open spec fn check_ceo(orgs: Orgs, uid: Seq<char>, id: Seq<char>) -> Result<
    OrganizationModel,
    OrganizationError,
> {
    match check_member(orgs, uid, id) {
        Err(e) => Err(e),
        Ok(o) => if !o.is_ceo(uid) {
            Err(OrganizationError::NotCeo)
        } else {
            Ok(o)
        },
    }
}

/// The organization `id`, if its CEO `uid` may take `action` there: the
/// default organization allows no admin action.
pub open spec fn check_action(
    orgs: Orgs,
    uid: Seq<char>,
    id: Seq<char>,
    action: OrganizationAction,
) -> Result<OrganizationModel, OrganizationError> {
    match check_ceo(orgs, uid, id) {
        Err(e) => Err(e),
        Ok(o) => if o.kind == OrganizationKind::Default && admin_action(action) {
            Err(OrganizationError::RestrictedDefaultOrgAction)
        } else {
            Ok(o)
        },
    }
}

/// As `check_action`, except that in the default organization, which has
/// no CEO member, whoever holds the CEO slot may take non-admin actions.
pub open spec fn check_action_slot(
    orgs: Orgs,
    uid: Seq<char>,
    id: Seq<char>,
    action: OrganizationAction,
    in_default_ceo_slot: bool,
) -> Result<OrganizationModel, OrganizationError> {
    match check_org(orgs, id) {
        Err(e) => Err(e),
        Ok(o) => if blank(uid) {
            Err(OrganizationError::InvalidUid)
        } else if o.kind != OrganizationKind::Default {
            check_action(orgs, uid, id, action)
        } else if !in_default_ceo_slot {
            Err(OrganizationError::NotCeo)
        } else if admin_action(action) {
            Err(OrganizationError::RestrictedDefaultOrgAction)
        } else {
            Ok(o)
        },
    }
}

/// The view of an organization result.
pub open spec fn org_result(r: Result<Organization, OrganizationError>) -> Result<
    OrganizationModel,
    OrganizationError,
> {
    match r {
        Ok(o) => Ok(o@),
        Err(e) => Err(e),
    }
}

pub type Invites = Map<Seq<char>, InviteModel>;

/// The default organization as stored, or a fresh one when none is.
pub open spec fn stored_default(orgs: Orgs) -> OrganizationModel {
    if orgs.contains_key("default"@) {
        orgs["default"@]
    } else {
        OrganizationModel::default_with(0, VGarageModel::empty(), VLockerModel::empty())
    }
}

/// Takes `uid` out of the organization that lists it (`current`, as the
/// repository reports it) before the player joins another: a player
/// organization's CEO cannot be taken out.
pub open spec fn transfer_out(orgs: Orgs, current: Option<Seq<char>>, uid: Seq<char>) -> Result<
    Orgs,
    OrganizationError,
> {
    match current {
        None => Ok(orgs),
        Some(cid) => {
            let c = orgs[cid];
            if c.is_ceo(uid) && c.kind == OrganizationKind::Player {
                Err(OrganizationError::LastCeoCannotLeave)
            } else {
                Ok(orgs.insert(c.id, c.without_member(uid)))
            }
        },
    }
}

/// Puts `uid` into the default organization.
pub open spec fn join_default(orgs: Orgs, uid: Seq<char>) -> (Orgs, OrganizationModel) {
    let d = stored_default(orgs).with_member(uid);
    (orgs.insert(d.id, d), d)
}

/// What leaving gives: the organization without the member, the default
/// organization with it, and the organizations afterwards.
pub open spec fn leave_outcome(orgs: Orgs, organization_id: Seq<char>, uid: Seq<char>) -> Result<
    (OrganizationModel, OrganizationModel, Orgs),
    OrganizationError,
> {
    match check_member(orgs, uid, organization_id) {
        Err(e) => Err(e),
        Ok(o) => if o.kind == OrganizationKind::Default {
            Err(OrganizationError::CannotLeaveDefaultOrg)
        } else if o.is_ceo(uid) {
            Err(OrganizationError::LastCeoCannotLeave)
        } else {
            let left = o.without_member(uid);
            let joined = join_default(orgs.insert(left.id, left), uid);
            Ok((left, joined.1, joined.0))
        },
    }
}

/// What kicking gives, as for leaving.
pub open spec fn kick_outcome(
    orgs: Orgs,
    organization_id: Seq<char>,
    actor_uid: Seq<char>,
    kicked_uid: Seq<char>,
) -> Result<(OrganizationModel, OrganizationModel, Orgs), OrganizationError> {
    match check_org(orgs, organization_id) {
        Err(e) => Err(e),
        Ok(o) => if o.kind == OrganizationKind::Default {
            Err(OrganizationError::RestrictedDefaultOrgAction)
        } else {
            match check_action(orgs, actor_uid, organization_id, OrganizationAction::RemoveMember) {
                Err(e) => Err(e),
                Ok(o) => if blank(kicked_uid) {
                    Err(OrganizationError::InvalidUid)
                } else if !o.has_member(kicked_uid) {
                    Err(OrganizationError::NotMember)
                } else if o.is_ceo(kicked_uid) {
                    Err(OrganizationError::LastCeoCannotLeave)
                } else {
                    let left = o.without_member(kicked_uid);
                    let joined = join_default(orgs.insert(left.id, left), kicked_uid);
                    Ok((left, joined.1, joined.0))
                },
            }
        },
    }
}

/// The default organization after each of `members` joined it, in order.
pub open spec fn with_members(d: OrganizationModel, members: Seq<MemberModel>) -> OrganizationModel
    decreases members.len(),
{
    if members.len() == 0 {
        d
    } else {
        with_members(d, members.drop_last()).with_member(members.last().uid)
    }
}

/// The uids of `members` in order of first appearance, each once.
pub open spec fn distinct_uids(members: Seq<MemberModel>) -> Seq<Seq<char>>
    decreases members.len(),
{
    if members.len() == 0 {
        Seq::empty()
    } else {
        let rest = distinct_uids(members.drop_last());
        if rest.contains(members.last().uid) {
            rest
        } else {
            rest.push(members.last().uid)
        }
    }
}

/// The members other than `issuer` that a payday goes to, in order of
/// first appearance, each once.
pub open spec fn payday_recipients(members: Seq<MemberModel>, issuer: Seq<char>) -> Seq<Seq<char>>
    decreases members.len(),
{
    if members.len() == 0 {
        Seq::empty()
    } else {
        let rest = payday_recipients(members.drop_last(), issuer);
        let u = members.last().uid;
        if u != issuer && !rest.contains(u) {
            rest.push(u)
        } else {
            rest
        }
    }
}

/// Whether some member has a blank uid.
pub open spec fn any_blank_uid(members: Seq<MemberModel>) -> bool {
    exists|i: int| 0 <= i < members.len() && blank(#[trigger] members[i].uid)
}

/// Whether some member other than `issuer` has a blank uid.
pub open spec fn any_blank_recipient(members: Seq<MemberModel>, issuer: Seq<char>) -> bool {
    exists|i: int|
        0 <= i < members.len() && #[trigger] members[i].uid != issuer && blank(members[i].uid)
}

/// What disbanding gives: the disbanded organization, the default
/// organization with its members, the uids moved, and the organizations
/// afterwards.
pub open spec fn disband_outcome(orgs: Orgs, organization_id: Seq<char>, ceo_uid: Seq<char>) -> Result<
    (OrganizationModel, OrganizationModel, Seq<Seq<char>>, Orgs),
    OrganizationError,
> {
    match check_action(orgs, ceo_uid, organization_id, OrganizationAction::Disband) {
        Err(e) => Err(e),
        Ok(o) => if o.kind != OrganizationKind::Player {
            Err(OrganizationError::RestrictedDefaultOrgAction)
        } else if any_blank_uid(o.members) {
            Err(OrganizationError::InvalidUid)
        } else {
            let d = with_members(stored_default(orgs), o.members);
            Ok((o, d, distinct_uids(o.members), orgs.insert(d.id, d).remove(o.id)))
        },
    }
}

/// What a payday works out to: the organization with its bank charged, the
/// amount each recipient gets, and the recipients. `amount` is what the
/// amount's text read as, none where it is no amount.
pub open spec fn payday_outcome(
    orgs: Orgs,
    uid: Seq<char>,
    organization_id: Seq<char>,
    amount: Option<int>,
    in_default_ceo_slot: bool,
) -> Result<(OrganizationModel, int, Seq<Seq<char>>), OrganizationError> {
    match check_action_slot(
        orgs,
        uid,
        organization_id,
        OrganizationAction::IssuePayday,
        in_default_ceo_slot,
    ) {
        Err(e) => Err(e),
        Ok(o) => match starting_money(amount) {
            None => Err(OrganizationError::InvalidAmount),
            Some(a) => if a <= 0 {
                Err(OrganizationError::InvalidAmount)
            } else if any_blank_recipient(o.members, uid) {
                Err(OrganizationError::InvalidUid)
            } else {
                let recipients = payday_recipients(o.members, uid);
                let total = a * recipients.len();
                if recipients.len() == 0 {
                    Err(OrganizationError::EmptyPayday)
                } else if o.bank < total {
                    Err(OrganizationError::InsufficientFunds)
                } else {
                    Ok((OrganizationModel { bank: o.bank - total, ..o }, a, recipients))
                }
            },
        },
    }
}

pub struct OrganizationService<R> {
    pub repository: R,
}

impl<R: OrganizationRepository> OrganizationService<R> {
    pub open spec fn orgs(&self) -> Orgs {
        self.repository.organizations()
    }

    pub open spec fn invites(&self) -> Map<Seq<char>, InviteModel> {
        self.repository.invites()
    }

    pub fn new(repository: R) -> (r: Self)
        ensures
            r.repository == repository,
    {
        OrganizationService { repository }
    }

    fn require_org(&self, organization_id: &str) -> (r: Result<Organization, OrganizationError>)
        requires
            self.repository.inv(),
        ensures
            org_result(r) == check_org(self.orgs(), organization_id@),
    {
        validate_org_id(organization_id)?;
        match self.repository.find_by_id(organization_id)? {
            Some(o) => Ok(o),
            None => Err(OrganizationError::NotFound),
        }
    }

    /// The organization, if `uid` is one of its members.
    pub fn require_member(&self, uid: &str, organization_id: &str) -> (r: Result<
        Organization,
        OrganizationError,
    >)
        requires
            self.repository.inv(),
        ensures
            org_result(r) == check_member(self.orgs(), uid@, organization_id@),
    {
        let organization = self.require_org(organization_id)?;
        validate_uid(uid)?;
        if !organization.has_member(uid) {
            return Err(OrganizationError::NotMember);
        }
        Ok(organization)
    }

    /// The organization, if `uid` is its CEO.
    pub fn require_ceo(&self, uid: &str, organization_id: &str) -> (r: Result<
        Organization,
        OrganizationError,
    >)
        requires
            self.repository.inv(),
        ensures
            org_result(r) == check_ceo(self.orgs(), uid@, organization_id@),
    {
        let organization = self.require_member(uid, organization_id)?;
        if !organization.is_ceo(uid) {
            return Err(OrganizationError::NotCeo);
        }
        Ok(organization)
    }

    /// The organization, if its CEO `uid` may take `action` there.
    pub fn require_action_allowed(
        &self,
        uid: &str,
        organization_id: &str,
        action: OrganizationAction,
    ) -> (r: Result<Organization, OrganizationError>)
        requires
            self.repository.inv(),
        ensures
            org_result(r) == check_action(self.orgs(), uid@, organization_id@, action),
    {
        let organization = self.require_ceo(uid, organization_id)?;
        if organization.kind == OrganizationKind::Default && action.requires_admin_policy() {
            return Err(OrganizationError::RestrictedDefaultOrgAction);
        }
        Ok(organization)
    }

    /// As `require_action_allowed`, with the default organization's CEO
    /// slot standing in for a CEO member there.
    pub fn require_action_allowed_with_default_ceo_slot(
        &self,
        uid: &str,
        organization_id: &str,
        action: OrganizationAction,
        in_default_ceo_slot: bool,
    ) -> (r: Result<Organization, OrganizationError>)
        requires
            self.repository.inv(),
        ensures
            org_result(r) == check_action_slot(
                self.orgs(),
                uid@,
                organization_id@,
                action,
                in_default_ceo_slot,
            ),
    {
        let organization = self.require_org(organization_id)?;
        validate_uid(uid)?;
        if organization.kind != OrganizationKind::Default {
            return self.require_action_allowed(uid, organization_id, action);
        }
        if !in_default_ceo_slot {
            return Err(OrganizationError::NotCeo);
        }
        if action.requires_admin_policy() {
            return Err(OrganizationError::RestrictedDefaultOrgAction);
        }
        Ok(organization)
    }

    pub fn require_spend_allowed(&self, uid: &str, organization_id: &str) -> (r: Result<
        Organization,
        OrganizationError,
    >)
        requires
            self.repository.inv(),
        ensures
            org_result(r) == check_action(
                self.orgs(),
                uid@,
                organization_id@,
                OrganizationAction::SpendFunds,
            ),
    {
        self.require_action_allowed(uid, organization_id, OrganizationAction::SpendFunds)
    }

    pub fn require_buy_unlock_allowed(&self, uid: &str, organization_id: &str) -> (r: Result<
        Organization,
        OrganizationError,
    >)
        requires
            self.repository.inv(),
        ensures
            org_result(r) == check_action(
                self.orgs(),
                uid@,
                organization_id@,
                OrganizationAction::BuyOrgUnlock,
            ),
    {
        self.require_action_allowed(uid, organization_id, OrganizationAction::BuyOrgUnlock)
    }

    pub fn require_spend_allowed_with_default_ceo_slot(
        &self,
        uid: &str,
        organization_id: &str,
        in_default_ceo_slot: bool,
    ) -> (r: Result<Organization, OrganizationError>)
        requires
            self.repository.inv(),
        ensures
            org_result(r) == check_action_slot(
                self.orgs(),
                uid@,
                organization_id@,
                OrganizationAction::SpendFunds,
                in_default_ceo_slot,
            ),
    {
        self.require_action_allowed_with_default_ceo_slot(
            uid,
            organization_id,
            OrganizationAction::SpendFunds,
            in_default_ceo_slot,
        )
    }

    pub fn require_buy_unlock_allowed_with_default_ceo_slot(
        &self,
        uid: &str,
        organization_id: &str,
        in_default_ceo_slot: bool,
    ) -> (r: Result<Organization, OrganizationError>)
        requires
            self.repository.inv(),
        ensures
            org_result(r) == check_action_slot(
                self.orgs(),
                uid@,
                organization_id@,
                OrganizationAction::BuyOrgUnlock,
                in_default_ceo_slot,
            ),
    {
        self.require_action_allowed_with_default_ceo_slot(
            uid,
            organization_id,
            OrganizationAction::BuyOrgUnlock,
            in_default_ceo_slot,
        )
    }

    /// The organization `id`.
    pub fn get(&self, id: &str) -> (r: Result<Option<Organization>, OrganizationError>)
        requires
            self.repository.inv(),
        ensures
            blank(id@) ==> r == Err::<Option<Organization>, OrganizationError>(
                OrganizationError::InvalidId,
            ),
            !blank(id@) ==> match r {
                Ok(Some(o)) => self.orgs().contains_key(id@) && o@ == self.orgs()[id@],
                Ok(None) => !self.orgs().contains_key(id@),
                Err(_) => false,
            },
    {
        validate_org_id(id)?;
        self.repository.find_by_id(id)
    }

    /// The organization that lists `uid`, as the repository reports it.
    pub fn get_by_member_uid(&self, uid: &str) -> (r: Result<Option<Organization>, OrganizationError>)
        requires
            self.repository.inv(),
        ensures
            blank(uid@) ==> r == Err::<Option<Organization>, OrganizationError>(
                OrganizationError::InvalidUid,
            ),
            !blank(uid@) ==> match r {
                Ok(Some(o)) => self.repository.member_org(uid@) == Some(o@.id) && o@
                    == self.orgs()[o@.id] && o@.has_member(uid@),
                Ok(None) => forall|k: Seq<char>| #[trigger]
                    self.orgs().contains_key(k) ==> !self.orgs()[k].has_member(uid@),
                Err(_) => false,
            },
    {
        validate_uid(uid)?;
        let r = self.repository.find_by_member_uid(uid);
        proof {
            self.repository.lemma_consistent();
            assert(self.repository.member_org(uid@) matches Some(id) ==> self.orgs()[id].has_member(uid@));
            if r matches Ok(None) {
                assert forall|k: Seq<char>| #[trigger]
                    self.orgs().contains_key(k) implies !self.orgs()[k].has_member(uid@) by {
                    assert(self.repository.member_org(uid@) is None);
                }
            }
        }
        r
    }
}

impl<R: OrganizationRepository> OrganizationService<R> {
    /// Whether the repository kept its invariant and left the invites as
    /// they were.
    pub open spec fn orgs_only(&self, old: &Self) -> bool {
        &&& self.repository.inv()
        &&& self.invites() == old.invites()
    }

    fn remove_from_current_org_for_transfer(&mut self, uid: &str) -> (r: Result<(), OrganizationError>)
        requires
            old(self).repository.inv(),
        ensures
            final(self).orgs_only(old(self)),
            match transfer_out(old(self).orgs(), old(self).repository.member_org(uid@), uid@) {
                Err(e) => r == Err::<(), OrganizationError>(e) && final(self).orgs() == old(self).orgs(),
                Ok(m) => r is Ok && final(self).orgs() == m,
            },
    {
        let current = self.repository.find_by_member_uid(uid)?;
        match current {
            None => Ok(()),
            Some(mut organization) => {
                if organization.is_ceo(uid) && organization.kind == OrganizationKind::Player {
                    return Err(OrganizationError::LastCeoCannotLeave);
                }
                organization.remove_member(uid);
                self.repository.save(organization)?;
                Ok(())
            },
        }
    }

    fn add_to_default_org(&mut self, uid: &str) -> (r: Result<Organization, OrganizationError>)
        requires
            old(self).repository.inv(),
        ensures
            final(self).orgs_only(old(self)),
            blank(uid@) ==> org_result(r) == Err::<OrganizationModel, OrganizationError>(
                OrganizationError::InvalidUid,
            ) && final(self).orgs() == old(self).orgs(),
            !blank(uid@) ==> (r matches Ok(o) && o@ == join_default(old(self).orgs(), uid@).1
                && final(self).orgs() == join_default(old(self).orgs(), uid@).0),
    {
        validate_uid(uid)?;
        let mut default_organization = match self.repository.find_by_id("default")? {
            Some(o) => o,
            None => Organization::default_org(),
        };
        default_organization.add_member(uid);
        self.repository.save(default_organization)
    }

    /// The default organization with no starting bank and no unlocks,
    /// unless it exists already.
    pub fn create_default_org(&mut self) -> (r: Result<Organization, OrganizationError>)
        requires
            old(self).repository.inv(),
        ensures
            final(self).orgs_only(old(self)),
            old(self).orgs().contains_key("default"@) ==> (r matches Ok(o) && o@ == old(self).orgs()["default"@] && final(self).orgs() == old(self).orgs()),
            !old(self).orgs().contains_key("default"@) ==> (r matches Ok(o) && o@
                == OrganizationModel::default_with(0, VGarageModel::empty(), VLockerModel::empty())
                && final(self).orgs() == old(self).orgs().insert("default"@, o@)),
    {
        self.create_default_org_with_starting(
            Some(Money::zero()),
            &VGarage::default(),
            &VLocker::default(),
        )
    }

    /// The default organization with the given starting bank and unlocks,
    /// unless it exists already, in which case it is returned unchanged.
    /// The bank is the amount its text read as; none stands for a text that
    /// is no amount, refused like a negative one.
    pub fn create_default_org_with_starting(
        &mut self,
        starting_bank: Option<Money>,
        virtual_garage: &VGarage,
        virtual_locker: &VLocker,
    ) -> (r: Result<Organization, OrganizationError>)
        requires
            old(self).repository.inv(),
        ensures
            final(self).orgs_only(old(self)),
            old(self).orgs().contains_key("default"@) ==> (r matches Ok(o) && o@ == old(self).orgs()["default"@] && final(self).orgs() == old(self).orgs()),
            !old(self).orgs().contains_key("default"@) ==> match starting_money(amount_read(starting_bank)) {
                None => r == Err::<Organization, OrganizationError>(
                    OrganizationError::InvalidAmount,
                ) && final(self).orgs() == old(self).orgs(),
                Some(bank) => r matches Ok(o) && o@ == OrganizationModel::default_with(
                    bank,
                    virtual_garage@,
                    virtual_locker@,
                ) && final(self).orgs() == old(self).orgs().insert("default"@, o@),
            },
    {
        if let Some(organization) = self.repository.find_by_id("default")? {
            return Ok(organization);
        }
        let bank = check_starting_money(starting_bank)?;
        self.repository.save(
            Organization::default_org_with_starting(
                bank,
                virtual_garage.clone(),
                virtual_locker.clone(),
            ),
        )
    }

    /// A player organization with `ceo_uid` as CEO, who leaves the
    /// organization it was in.
    pub fn create_player_org(&mut self, id: &str, name: &str, ceo_uid: &str) -> (r: Result<
        Organization,
        OrganizationError,
    >)
        requires
            old(self).repository.inv(),
        ensures
            final(self).orgs_only(old(self)),
            blank(id@) ==> r == Err::<Organization, OrganizationError>(OrganizationError::InvalidId)
                && final(self).orgs() == old(self).orgs(),
            !blank(id@) && blank(ceo_uid@) ==> r == Err::<Organization, OrganizationError>(
                OrganizationError::InvalidUid,
            ) && final(self).orgs() == old(self).orgs(),
            !blank(id@) && !blank(ceo_uid@) ==> match transfer_out(
                old(self).orgs(),
                old(self).repository.member_org(ceo_uid@),
                ceo_uid@,
            ) {
                Err(e) => r == Err::<Organization, OrganizationError>(e) && final(self).orgs() == old(self).orgs(),
                Ok(m) => r matches Ok(o) && o@ == OrganizationModel::player(id@, name@, ceo_uid@)
                    && final(self).orgs() == m.insert(id@, o@),
            },
    {
        validate_org_id(id)?;
        validate_uid(ceo_uid)?;
        self.remove_from_current_org_for_transfer(ceo_uid)?;
        self.repository.save(Organization::player_org(id, name, ceo_uid))
    }

    /// Adds `uid` as a plain member, unless it is one already.
    pub fn add_member(&mut self, organization_id: &str, uid: &str) -> (r: Result<
        Organization,
        OrganizationError,
    >)
        requires
            old(self).repository.inv(),
        ensures
            final(self).orgs_only(old(self)),
            match check_org(old(self).orgs(), organization_id@) {
                Err(e) => r == Err::<Organization, OrganizationError>(e) && final(self).orgs() == old(self).orgs(),
                Ok(o) => if blank(uid@) {
                    r == Err::<Organization, OrganizationError>(OrganizationError::InvalidUid)
                        && final(self).orgs() == old(self).orgs()
                } else {
                    r matches Ok(saved) && saved@ == o.with_member(uid@) && final(self).orgs() == old(self).orgs().insert(organization_id@, o.with_member(uid@))
                },
            },
    {
        let mut organization = self.require_org(organization_id)?;
        validate_uid(uid)?;
        proof {
            self.repository.lemma_consistent();
        }
        organization.add_member(uid);
        self.repository.save(organization)
    }
}

/// What accepting an invite gives: the organization joined, the accepted
/// invite, and the organizations and invites afterwards. `current` is the
/// organization that lists the invitee, as the repository reports it.
pub open spec fn accept_outcome(
    orgs: Orgs,
    invites: Invites,
    current: Option<Seq<char>>,
    invitee_uid: Seq<char>,
    invite_id: Seq<char>,
) -> Result<(OrganizationModel, InviteModel, Orgs, Invites), OrganizationError> {
    if blank(invitee_uid) {
        Err(OrganizationError::InvalidUid)
    } else if blank(invite_id) {
        Err(OrganizationError::InvalidId)
    } else if !invites.contains_key(invite_id) {
        Err(OrganizationError::InviteNotFound)
    } else {
        let invite = invites[invite_id];
        if invite.invitee_uid != invitee_uid {
            Err(OrganizationError::InviteeMismatch)
        } else if invite.status != OrganizationInviteStatus::Pending {
            Err(OrganizationError::InviteNotPending)
        } else {
            match check_org(orgs, invite.organization_id) {
                Err(e) => Err(e),
                Ok(o) => if o.has_member(invitee_uid) {
                    Err(OrganizationError::AlreadyMember)
                } else {
                    match transfer_out(orgs, current, invitee_uid) {
                        Err(e) => Err(e),
                        Ok(m) => {
                            let joined = o.with_member(invitee_uid);
                            let accepted = InviteModel {
                                status: OrganizationInviteStatus::Accepted,
                                ..invite
                            };
                            Ok(
                                (
                                    joined,
                                    accepted,
                                    m.insert(joined.id, joined),
                                    invites.insert(accepted.id, accepted),
                                ),
                            )
                        },
                    }
                },
            }
        }
    }
}

/// What declining an invite gives: the declined invite and the invites
/// afterwards.
pub open spec fn decline_outcome(invites: Invites, invitee_uid: Seq<char>, invite_id: Seq<char>) -> Result<
    (InviteModel, Invites),
    OrganizationError,
> {
    if blank(invitee_uid) {
        Err(OrganizationError::InvalidUid)
    } else if blank(invite_id) {
        Err(OrganizationError::InvalidId)
    } else if !invites.contains_key(invite_id) {
        Err(OrganizationError::InviteNotFound)
    } else {
        let invite = invites[invite_id];
        if invite.invitee_uid != invitee_uid {
            Err(OrganizationError::InviteeMismatch)
        } else if invite.status != OrganizationInviteStatus::Pending {
            Err(OrganizationError::InviteNotPending)
        } else {
            let declined = InviteModel { status: OrganizationInviteStatus::Declined, ..invite };
            Ok((declined, invites.insert(declined.id, declined)))
        }
    }
}

/// Why an invite cannot be made, if it cannot.
pub open spec fn invite_error(
    orgs: Orgs,
    invites: Invites,
    inviter_uid: Seq<char>,
    organization_id: Seq<char>,
    invitee_uid: Seq<char>,
) -> Option<OrganizationError> {
    match check_action(orgs, inviter_uid, organization_id, OrganizationAction::InviteMember) {
        Err(e) => Some(e),
        Ok(o) => if blank(invitee_uid) {
            Some(OrganizationError::InvalidUid)
        } else if o.has_member(invitee_uid) {
            Some(OrganizationError::AlreadyMember)
        } else if exists|k: Seq<char>|
            #[trigger] invites.contains_key(k) && pending_for(
                invites[k],
                organization_id,
                invitee_uid,
            ) {
            Some(OrganizationError::InviteNotPending)
        } else {
            None
        },
    }
}

impl<R: OrganizationRepository> OrganizationService<R> {
    /// A pending invite of `invitee_uid` into the organization, made by
    /// its CEO.
    pub fn create_invite(
        &mut self,
        inviter_uid: &str,
        organization_id: &str,
        invitee_uid: &str,
    ) -> (r: Result<OrganizationInvite, OrganizationError>)
        requires
            old(self).repository.inv(),
        ensures
            final(self).repository.inv(),
            final(self).orgs() == old(self).orgs(),
            match invite_error(
                old(self).orgs(),
                old(self).invites(),
                inviter_uid@,
                organization_id@,
                invitee_uid@,
            ) {
                Some(e) => r == Err::<OrganizationInvite, OrganizationError>(e) && final(self).invites()
                    == old(self).invites(),
                None => r matches Ok(invite) && pending_for(invite@, organization_id@, invitee_uid@)
                    && invite@.inviter_uid == inviter_uid@ && uuid_text(invite@.id)
                    && final(self).invites() == old(self).invites().insert(invite@.id, invite@),
            },
    {
        let organization = self.require_action_allowed(
            inviter_uid,
            organization_id,
            OrganizationAction::InviteMember,
        )?;
        validate_uid(invitee_uid)?;
        if organization.has_member(invitee_uid) {
            return Err(OrganizationError::AlreadyMember);
        }
        if self.repository.find_pending_invite(organization_id, invitee_uid)?.is_some() {
            return Err(OrganizationError::InviteNotPending);
        }
        self.repository.save_invite(OrganizationInvite::new(organization_id, inviter_uid, invitee_uid))
    }

    fn require_invite(&self, invite_id: &str) -> (r: Result<OrganizationInvite, OrganizationError>)
        requires
            self.repository.inv(),
        ensures
            blank(invite_id@) ==> r == Err::<OrganizationInvite, OrganizationError>(
                OrganizationError::InvalidId,
            ),
            !blank(invite_id@) && !self.invites().contains_key(invite_id@) ==> r == Err::<
                OrganizationInvite,
                OrganizationError,
            >(OrganizationError::InviteNotFound),
            !blank(invite_id@) && self.invites().contains_key(invite_id@) ==> (r matches Ok(i)
                && i@ == self.invites()[invite_id@]),
    {
        validate_org_id(invite_id)?;
        match self.repository.find_invite(invite_id)? {
            Some(i) => Ok(i),
            None => Err(OrganizationError::InviteNotFound),
        }
    }

    fn require_pending_invite_for(&self, invite: &OrganizationInvite, uid: &str) -> (r: Result<
        (),
        OrganizationError,
    >)
        ensures
            r == (if invite@.invitee_uid != uid@ {
                Err(OrganizationError::InviteeMismatch)
            } else if invite@.status != OrganizationInviteStatus::Pending {
                Err(OrganizationError::InviteNotPending)
            } else {
                Ok(())
            }),
    {
        if !crate::text::same_text(invite.invitee_uid.as_str(), uid) {
            return Err(OrganizationError::InviteeMismatch);
        }
        if invite.status != OrganizationInviteStatus::Pending {
            return Err(OrganizationError::InviteNotPending);
        }
        Ok(())
    }

    /// Joins the organization of a pending invite, leaving the one the
    /// invitee was in.
    pub fn accept_invite(&mut self, invitee_uid: &str, invite_id: &str) -> (r: Result<
        (Organization, OrganizationInvite),
        OrganizationError,
    >)
        requires
            old(self).repository.inv(),
        ensures
            final(self).repository.inv(),
            match accept_outcome(
                old(self).orgs(),
                old(self).invites(),
                old(self).repository.member_org(invitee_uid@),
                invitee_uid@,
                invite_id@,
            ) {
                Err(e) => r == Err::<(Organization, OrganizationInvite), OrganizationError>(e)
                    && final(self).orgs() == old(self).orgs() && final(self).invites() == old(self).invites(),
                Ok((joined, accepted, orgs, invites)) => r matches Ok((o, i)) && o@ == joined && i@
                    == accepted && final(self).orgs() == orgs && final(self).invites() == invites,
            },
    {
        validate_uid(invitee_uid)?;
        let mut invite = self.require_invite(invite_id)?;
        self.require_pending_invite_for(&invite, invitee_uid)?;
        let mut organization = self.require_org(invite.organization_id.as_str())?;
        if organization.has_member(invitee_uid) {
            return Err(OrganizationError::AlreadyMember);
        }
        proof {
            self.repository.lemma_consistent();
        }
        self.remove_from_current_org_for_transfer(invitee_uid)?;
        organization.add_member(invitee_uid);
        invite.accept();
        let organization = self.repository.save(organization)?;
        let invite = self.repository.save_invite(invite)?;
        Ok((organization, invite))
    }

    /// Declines a pending invite.
    pub fn decline_invite(&mut self, invitee_uid: &str, invite_id: &str) -> (r: Result<
        OrganizationInvite,
        OrganizationError,
    >)
        requires
            old(self).repository.inv(),
        ensures
            final(self).repository.inv(),
            final(self).orgs() == old(self).orgs(),
            match decline_outcome(old(self).invites(), invitee_uid@, invite_id@) {
                Err(e) => r == Err::<OrganizationInvite, OrganizationError>(e) && final(self).invites()
                    == old(self).invites(),
                Ok((declined, invites)) => r matches Ok(i) && i@ == declined && final(self).invites()
                    == invites,
            },
    {
        validate_uid(invitee_uid)?;
        let mut invite = self.require_invite(invite_id)?;
        self.require_pending_invite_for(&invite, invitee_uid)?;
        invite.decline();
        self.repository.save_invite(invite)
    }

    /// Leaves a player organization for the default one.
    pub fn leave_member(&mut self, organization_id: &str, uid: &str) -> (r: Result<
        OrganizationMemberTransfer,
        OrganizationError,
    >)
        requires
            old(self).repository.inv(),
        ensures
            final(self).orgs_only(old(self)),
            match leave_outcome(old(self).orgs(), organization_id@, uid@) {
                Err(e) => r == Err::<OrganizationMemberTransfer, OrganizationError>(e) && final(self).orgs() == old(self).orgs(),
                Ok((left, joined, orgs)) => r matches Ok(t) && t.organization.shows(left)
                    && t.default_organization.shows(joined) && t.uid@ == uid@ && final(self).orgs()
                    == orgs,
            },
    {
        let mut organization = self.require_member(uid, organization_id)?;
        if organization.kind == OrganizationKind::Default {
            return Err(OrganizationError::CannotLeaveDefaultOrg);
        }
        if organization.is_ceo(uid) {
            return Err(OrganizationError::LastCeoCannotLeave);
        }
        organization.remove_member(uid);
        let organization = self.repository.save(organization)?;
        let default_organization = self.add_to_default_org(uid)?;
        Ok(OrganizationMemberTransfer {
            organization: OrganizationView::from_organization(&organization),
            default_organization: OrganizationView::from_organization(&default_organization),
            uid: uid.to_owned(),
        })
    }

    /// Moves a member of a player organization, other than its CEO, to the
    /// default organization, on the CEO's word.
    pub fn kick_member(&mut self, organization_id: &str, actor_uid: &str, kicked_uid: &str) -> (r:
        Result<OrganizationMemberTransfer, OrganizationError>)
        requires
            old(self).repository.inv(),
        ensures
            final(self).orgs_only(old(self)),
            match kick_outcome(old(self).orgs(), organization_id@, actor_uid@, kicked_uid@) {
                Err(e) => r == Err::<OrganizationMemberTransfer, OrganizationError>(e) && final(self).orgs() == old(self).orgs(),
                Ok((left, joined, orgs)) => r matches Ok(t) && t.organization.shows(left)
                    && t.default_organization.shows(joined) && t.uid@ == kicked_uid@ && final(self).orgs() == orgs,
            },
    {
        let organization = self.require_org(organization_id)?;
        if organization.kind == OrganizationKind::Default {
            return Err(OrganizationError::RestrictedDefaultOrgAction);
        }
        let mut organization = self.require_action_allowed(
            actor_uid,
            organization_id,
            OrganizationAction::RemoveMember,
        )?;
        validate_uid(kicked_uid)?;
        if !organization.has_member(kicked_uid) {
            return Err(OrganizationError::NotMember);
        }
        if organization.is_ceo(kicked_uid) {
            return Err(OrganizationError::LastCeoCannotLeave);
        }
        organization.remove_member(kicked_uid);
        let organization = self.repository.save(organization)?;
        let default_organization = self.add_to_default_org(kicked_uid)?;
        Ok(OrganizationMemberTransfer {
            organization: OrganizationView::from_organization(&organization),
            default_organization: OrganizationView::from_organization(&default_organization),
            uid: kicked_uid.to_owned(),
        })
    }
}

impl<R: OrganizationRepository> OrganizationService<R> {
    /// Disbands a player organization on its CEO's word; every member goes
    /// to the default organization.
    pub fn disband_player_org(&mut self, organization_id: &str, ceo_uid: &str) -> (r: Result<
        OrganizationDisband,
        OrganizationError,
    >)
        requires
            old(self).repository.inv(),
        ensures
            final(self).orgs_only(old(self)),
            match disband_outcome(old(self).orgs(), organization_id@, ceo_uid@) {
                Err(e) => r == Err::<OrganizationDisband, OrganizationError>(e) && final(self).orgs()
                    == old(self).orgs(),
                Ok((disbanded, joined, moved, orgs)) => r matches Ok(d) && d.disbanded.shows(
                    disbanded,
                ) && d.default_organization.shows(joined) && names(d.reassigned_uids@) == moved
                    && final(self).orgs() == orgs,
            },
    {
        let organization = self.require_action_allowed(
            ceo_uid,
            organization_id,
            OrganizationAction::Disband,
        )?;
        if organization.kind != OrganizationKind::Player {
            return Err(OrganizationError::RestrictedDefaultOrgAction);
        }
        let mut default_organization = match self.repository.find_by_id("default")? {
            Some(o) => o,
            None => Organization::default_org(),
        };
        let (default_organization, reassigned_uids) = reassign_members(
            default_organization,
            &organization.members,
        )?;
        proof {
            self.repository.lemma_consistent();
        }
        let default_organization = self.repository.save(default_organization)?;
        self.repository.delete(organization.id.as_str())?;
        Ok(OrganizationDisband {
            disbanded: OrganizationView::from_organization(&organization),
            default_organization: OrganizationView::from_organization(&default_organization),
            reassigned_uids,
        })
    }

    /// Works out a payday without storing it: every member other than the
    /// issuer gets `amount`, charged to the organization's bank. `amount` is
    /// what its text read as; none stands for a text that is no amount.
    pub fn prepare_payday(
        &self,
        uid: &str,
        organization_id: &str,
        amount: Option<Money>,
        in_default_ceo_slot: bool,
    ) -> (r: Result<OrganizationPaydayPlan, OrganizationError>)
        requires
            self.repository.inv(),
        ensures
            match payday_outcome(self.orgs(), uid@, organization_id@, amount_read(amount), in_default_ceo_slot) {
                Err(e) => r == Err::<OrganizationPaydayPlan, OrganizationError>(e),
                Ok((charged, each, recipients)) => r matches Ok(plan) && plan.organization@
                    == charged && plan.amount@ == each && names(plan.recipients@) == recipients,
            },
    {
        let mut organization = self.require_action_allowed_with_default_ceo_slot(
            uid,
            organization_id,
            OrganizationAction::IssuePayday,
            in_default_ceo_slot,
        )?;
        let amount = check_starting_money(amount)?;
        if !amount.is_positive() {
            return Err(OrganizationError::InvalidAmount);
        }
        let recipients = collect_recipients(&organization.members, uid)?;
        if recipients.len() == 0 {
            return Err(OrganizationError::EmptyPayday);
        }
        let each: i128 = amount.cents() as i128;
        let count: i128 = recipients.len() as i128;
        proof {
            assert(0 < each <= i64::MAX);
            assert(0 < count <= usize::MAX);
            assert(each * count <= (i64::MAX as int) * (usize::MAX as int)) by (nonlinear_arith)
                requires
                    0 < each <= i64::MAX,
                    0 < count <= usize::MAX,
            ;
        }
        let total: i128 = each * count;
        let bank: i128 = organization.bank.cents() as i128;
        if bank < total {
            return Err(OrganizationError::InsufficientFunds);
        }
        organization.bank = Money::from_cents((bank - total) as i64);
        Ok(OrganizationPaydayPlan { organization, amount, recipients })
    }

    /// Issues a payday: the organization's bank is charged and stored.
    pub fn issue_payday(
        &mut self,
        uid: &str,
        organization_id: &str,
        amount: Option<Money>,
        in_default_ceo_slot: bool,
    ) -> (r: Result<OrganizationPayday, OrganizationError>)
        requires
            old(self).repository.inv(),
        ensures
            final(self).orgs_only(old(self)),
            match payday_outcome(old(self).orgs(), uid@, organization_id@, amount_read(amount), in_default_ceo_slot) {
                Err(e) => r == Err::<OrganizationPayday, OrganizationError>(e) && final(self).orgs()
                    == old(self).orgs(),
                Ok((charged, each, recipients)) => r matches Ok(p) && p.organization.shows(charged)
                    && p.amount@ == money_text(each) && names(p.recipients@) == recipients && final(self).orgs() == old(self).orgs().insert(charged.id, charged),
            },
    {
        let plan = self.prepare_payday(uid, organization_id, amount, in_default_ceo_slot)?;
        let organization = self.repository.save(plan.organization)?;
        Ok(OrganizationPayday {
            organization: OrganizationView::from_organization(&organization),
            amount: plan.amount.to_amount(),
            recipients: plan.recipients,
        })
    }
}

/// The default organization after each member joined it, and the uids
/// moved, each once; fails on a blank member uid.
fn reassign_members(default_organization: Organization, all: &Vec<OrganizationMember>) -> (r:
    Result<(Organization, Vec<String>), OrganizationError>)
    ensures
        any_blank_uid(member_models(all@)) ==> (r matches Err(e) && e
            == OrganizationError::InvalidUid),
        !any_blank_uid(member_models(all@)) ==> (r matches Ok((d, moved)) && d@ == with_members(
            default_organization@,
            member_models(all@),
        ) && names(moved@) == distinct_uids(member_models(all@))),
{
    let mut default_organization = default_organization;
    let ghost start = default_organization@;
    let ghost members = member_models(all@);
    let mut reassigned_uids: Vec<String> = Vec::new();
    let mut i: usize = 0;
    while i < all.len()
        invariant
            i <= all@.len(),
            members == member_models(all@),
            default_organization@ == with_members(start, members.take(i as int)),
            names(reassigned_uids@) == distinct_uids(members.take(i as int)),
            !any_blank_uid(members.take(i as int)),
        decreases all@.len() - i,
    {
        let uid = all[i].uid.clone();
        proof {
            assert(members.take(i + 1).drop_last() =~= members.take(i as int));
            assert(members.take(i + 1).last().uid == uid@);
        }
        if is_blank(uid.as_str()) {
            proof {
                assert(members[i as int].uid == uid@);
                assert(any_blank_uid(members));
            }
            return Err(OrganizationError::InvalidUid);
        }
        default_organization.add_member(uid.as_str());
        if !contains_name(&reassigned_uids, &uid) {
            reassigned_uids.push(uid);
        }
        proof {
            assert(names(reassigned_uids@) =~= distinct_uids(members.take(i + 1)));
            assert(!any_blank_uid(members.take(i + 1))) by {
                if any_blank_uid(members.take(i + 1)) {
                    let k = choose|k: int|
                        0 <= k < members.take(i + 1).len() && blank(
                            #[trigger] members.take(i + 1)[k].uid,
                        );
                    if k < i {
                        assert(members.take(i as int)[k] == members.take(i + 1)[k]);
                    }
                }
            }
        }
        i = i + 1;
    }
    proof {
        assert(members.take(i as int) =~= members);
    }
    Ok((default_organization, reassigned_uids))
}

/// The members other than `issuer`, in order and each once; fails on a
/// blank uid among them.
fn collect_recipients(all: &Vec<OrganizationMember>, issuer: &str) -> (r: Result<
    Vec<String>,
    OrganizationError,
>)
    ensures
        any_blank_recipient(member_models(all@), issuer@) ==> (r matches Err(e) && e
            == OrganizationError::InvalidUid),
        !any_blank_recipient(member_models(all@), issuer@) ==> (r matches Ok(v) && names(v@)
            == payday_recipients(member_models(all@), issuer@)),
{
    let ghost members = member_models(all@);
    let uid = issuer;
    let mut recipients: Vec<String> = Vec::new();
    let mut i: usize = 0;
    while i < all.len()
        invariant
            i <= all@.len(),
            members == member_models(all@),
            uid@ == issuer@,
            names(recipients@) == payday_recipients(members.take(i as int), uid@),
            !any_blank_recipient(members.take(i as int), uid@),
        decreases all@.len() - i,
    {
        let recipient_uid = all[i].uid.clone();
        proof {
            assert(members.take(i + 1).drop_last() =~= members.take(i as int));
            assert(members.take(i + 1).last().uid == recipient_uid@);
        }
        if !same_text(recipient_uid.as_str(), uid) {
            if is_blank(recipient_uid.as_str()) {
                proof {
                    assert(members[i as int].uid == recipient_uid@);
                    assert(members[i as int].uid != uid@ && blank(members[i as int].uid));
                    assert(any_blank_recipient(members, uid@));
                    assert(any_blank_recipient(member_models(all@), issuer@));
                }
                return Err(OrganizationError::InvalidUid);
            }
            if !contains_name(&recipients, &recipient_uid) {
                recipients.push(recipient_uid);
            }
        }
        proof {
            assert(names(recipients@) =~= payday_recipients(members.take(i + 1), uid@));
            assert(!any_blank_recipient(members.take(i + 1), uid@)) by {
                if any_blank_recipient(members.take(i + 1), uid@) {
                    let k = choose|k: int|
                        0 <= k < members.take(i + 1).len() && #[trigger] members.take(i + 1)[k].uid
                            != uid@ && blank(members.take(i + 1)[k].uid);
                    if k < i {
                        assert(members.take(i as int)[k] == members.take(i + 1)[k]);
                    }
                }
            }
        }
        i = i + 1;
    }
    proof {
        assert(members.take(i as int) =~= members);
    }
    Ok(recipients)
}

fn validate_org_id(id: &str) -> (r: Result<(), OrganizationError>)
    ensures
        r == (if blank(id@) {
            Err(OrganizationError::InvalidId)
        } else {
            Ok(())
        }),
{
    if is_blank(id) {
        return Err(OrganizationError::InvalidId);
    }
    Ok(())
}

fn validate_uid(uid: &str) -> (r: Result<(), OrganizationError>)
    ensures
        r == (if blank(uid@) {
            Err(OrganizationError::InvalidUid)
        } else {
            Ok(())
        }),
{
    if is_blank(uid) {
        return Err(OrganizationError::InvalidUid);
    }
    Ok(())
}

/// An amount that was read and is not negative.
fn check_starting_money(amount: Option<Money>) -> (r: Result<Money, OrganizationError>)
    ensures
        match starting_money(amount_read(amount)) {
            Some(c) => r matches Ok(m) && m@ == c,
            None => r == Err::<Money, OrganizationError>(OrganizationError::InvalidAmount),
        },
{
    let money = match amount {
        Some(m) => m,
        None => return Err(OrganizationError::InvalidAmount),
    };
    if money.cents() < 0 {
        return Err(OrganizationError::InvalidAmount);
    }
    Ok(money)
}

} // verus!
