//! Organizations: their members and roles, their bank and unlocks, and
//! the invites to join them.
use vstd::prelude::*;
use crate::ids::{new_uuid_text, uuid_text};
use crate::models::money::{money_text, Money, MoneyAmount};
use crate::models::v_garage::{VGarage, VGarageModel};
use crate::models::v_locker::{VLocker, VLockerModel};
use crate::text::same_text;

verus! {

#[derive(Debug, Clone, Copy, PartialEq, Eq, Structural)]
pub enum OrganizationKind {
    /// The organization every player belongs to when in no other.
    Default,
    /// An organization that a player founded.
    Player,
}

#[derive(Debug, Clone, Copy, PartialEq, Eq, Structural)]
pub enum OrganizationRole {
    Ceo,
    Member,
}

/// What a member may ask to do on behalf of an organization.
#[derive(Debug, Clone, Copy, PartialEq, Eq, Structural)]
pub enum OrganizationAction {
    Rename,
    Disband,
    InviteMember,
    RemoveMember,
    SpendFunds,
    BuyOrgUnlock,
    IssuePayday,
}

pub open spec fn admin_action(action: OrganizationAction) -> bool {
    match action {
        OrganizationAction::Rename | OrganizationAction::Disband | OrganizationAction::InviteMember
        | OrganizationAction::RemoveMember => true,
        _ => false,
    }
}

impl OrganizationAction {
    /// Whether the action changes who the organization is or who is in it;
    /// such actions are not open to the default organization.
    pub fn requires_admin_policy(self) -> (r: bool)
        ensures
            r == admin_action(self),
    {
        match self {
            OrganizationAction::Rename | OrganizationAction::Disband
            | OrganizationAction::InviteMember | OrganizationAction::RemoveMember => true,
            _ => false,
        }
    }
}

#[derive(Debug, PartialEq, Eq)]
pub struct OrganizationMember {
    pub uid: String,
    pub role: OrganizationRole,
}

pub struct MemberModel {
    pub uid: Seq<char>,
    pub role: OrganizationRole,
}

impl View for OrganizationMember {
    type V = MemberModel;

    open spec fn view(&self) -> MemberModel {
        MemberModel { uid: self.uid@, role: self.role }
    }
}

impl Clone for OrganizationMember {
    fn clone(&self) -> (r: Self)
        ensures
            r@ == self@,
    {
        OrganizationMember { uid: self.uid.clone(), role: self.role }
    }
}

impl OrganizationMember {
    pub fn new(uid: &str, role: OrganizationRole) -> (r: Self)
        ensures
            r@ == (MemberModel { uid: uid@, role }),
    {
        OrganizationMember { uid: uid.to_owned(), role }
    }
}

/// The views of a list of members.
pub open spec fn member_models(members: Seq<OrganizationMember>) -> Seq<MemberModel> {
    members.map_values(|m: OrganizationMember| m@)
}

/// The members without every entry of `uid`, in order.
pub open spec fn without_uid(members: Seq<MemberModel>, uid: Seq<char>) -> Seq<MemberModel>
    decreases members.len(),
{
    if members.len() == 0 {
        members
    } else {
        let rest = without_uid(members.drop_last(), uid);
        if members.last().uid == uid {
            rest
        } else {
            rest.push(members.last())
        }
    }
}

/// The uids of the members.
pub open spec fn member_uids(members: Seq<MemberModel>) -> Seq<Seq<char>> {
    members.map_values(|m: MemberModel| m.uid)
}

#[derive(Debug, PartialEq, Eq)]
pub struct Organization {
    pub id: String,
    pub name: String,
    pub kind: OrganizationKind,
    pub members: Vec<OrganizationMember>,
    pub bank: Money,
    pub virtual_garage: VGarage,
    pub virtual_locker: VLocker,
}

#[verifier::ext_equal]
pub struct OrganizationModel {
    pub id: Seq<char>,
    pub name: Seq<char>,
    pub kind: OrganizationKind,
    pub members: Seq<MemberModel>,
    pub bank: int,
    pub virtual_garage: VGarageModel,
    pub virtual_locker: VLockerModel,
}

impl View for Organization {
    type V = OrganizationModel;

    open spec fn view(&self) -> OrganizationModel {
        OrganizationModel {
            id: self.id@,
            name: self.name@,
            kind: self.kind,
            members: member_models(self.members@),
            bank: self.bank@,
            virtual_garage: self.virtual_garage@,
            virtual_locker: self.virtual_locker@,
        }
    }
}

impl OrganizationModel {
    /// Whether `uid` is listed among the members.
    pub open spec fn has_member(self, uid: Seq<char>) -> bool {
        exists|i: int| 0 <= i < self.members.len() && self.members[i].uid == uid
    }

    /// The position of the first entry of `uid`.
    pub open spec fn member_index(self, uid: Seq<char>) -> Option<int> {
        if self.has_member(uid) {
            Some(
                choose|i: int|
                    0 <= i < self.members.len() && self.members[i].uid == uid && forall|j: int|
                        0 <= j < i ==> self.members[j].uid != uid,
            )
        } else {
            None
        }
    }

    /// Whether the first entry of `uid` has the CEO role.
    pub open spec fn is_ceo(self, uid: Seq<char>) -> bool {
        match self.member_index(uid) {
            Some(i) => self.members[i].role == OrganizationRole::Ceo,
            None => false,
        }
    }

    /// This organization without `uid` among its members.
    pub open spec fn without_member(self, uid: Seq<char>) -> OrganizationModel {
        OrganizationModel { members: without_uid(self.members, uid), ..self }
    }

    /// This organization with `uid` as a plain member, unless it is one already.
    pub open spec fn with_member(self, uid: Seq<char>) -> OrganizationModel {
        if self.has_member(uid) {
            self
        } else {
            OrganizationModel {
                members: self.members.push(MemberModel { uid, role: OrganizationRole::Member }),
                ..self
            }
        }
    }

    /// The default organization with the given starting bank and unlocks.
    pub open spec fn default_with(
        bank: int,
        garage: VGarageModel,
        locker: VLockerModel,
    ) -> OrganizationModel {
        OrganizationModel {
            id: "default"@,
            name: "Default"@,
            kind: OrganizationKind::Default,
            members: Seq::empty(),
            bank,
            virtual_garage: garage,
            virtual_locker: locker,
        }
    }

    /// A player organization with its founder as CEO and nothing else.
    pub open spec fn player(id: Seq<char>, name: Seq<char>, ceo: Seq<char>) -> OrganizationModel {
        OrganizationModel {
            id,
            name,
            kind: OrganizationKind::Player,
            members: seq![MemberModel { uid: ceo, role: OrganizationRole::Ceo }],
            bank: 0,
            virtual_garage: VGarageModel::empty(),
            virtual_locker: VLockerModel::empty(),
        }
    }
}

proof fn lemma_member_index_is(org: OrganizationModel, uid: Seq<char>, k: int)
    requires
        0 <= k < org.members.len(),
        org.members[k].uid == uid,
        forall|j: int| 0 <= j < k ==> org.members[j].uid != uid,
    ensures
        org.member_index(uid) == Some(k),
{
    assert(org.has_member(uid));
    let c = choose|i: int|
        0 <= i < org.members.len() && org.members[i].uid == uid && forall|j: int|
            0 <= j < i ==> org.members[j].uid != uid;
    assert(exists|i: int|
        0 <= i < org.members.len() && org.members[i].uid == uid && forall|j: int|
            0 <= j < i ==> org.members[j].uid != uid) by {
        assert(0 <= k < org.members.len() && org.members[k].uid == uid && forall|j: int|
            0 <= j < k ==> org.members[j].uid != uid);
    }
    if c < k {
        assert(org.members[c].uid != uid);
    } else if c > k {
        assert(org.members[k].uid != uid);
    }
}

/// A copy of a list of members.
pub fn copy_members(v: &Vec<OrganizationMember>) -> (r: Vec<OrganizationMember>)
    ensures
        member_models(r@) == member_models(v@),
{
    let mut r: Vec<OrganizationMember> = Vec::new();
    let mut i: usize = 0;
    while i < v.len()
        invariant
            i <= v@.len(),
            r@.len() == i,
            member_models(r@) == member_models(v@).take(i as int),
        decreases v@.len() - i,
    {
        let m = v[i].clone();
        let ghost prev = r@;
        r.push(m);
        proof {
            assert(r@ == prev.push(m));
            assert forall|k: int| 0 <= k < r@.len() implies #[trigger] member_models(r@)[k]
                == member_models(v@).take(i + 1)[k] by {
                if k < i {
                    assert(r@[k] == prev[k]);
                    assert(member_models(prev)[k] == member_models(v@).take(i as int)[k]);
                }
            }
            assert(member_models(r@) =~= member_models(v@).take(i + 1));
        }
        i = i + 1;
    }
    proof {
        assert(member_models(v@).take(i as int) =~= member_models(v@));
    }
    r
}

impl Clone for Organization {
    fn clone(&self) -> (r: Self)
        ensures
            r@ == self@,
    {
        let r = Organization {
            id: self.id.clone(),
            name: self.name.clone(),
            kind: self.kind,
            members: copy_members(&self.members),
            bank: self.bank,
            virtual_garage: self.virtual_garage.clone(),
            virtual_locker: self.virtual_locker.clone(),
        };
        proof {
            assert(r@ =~= self@);
        }
        r
    }
}

impl Organization {
    /// The default organization with no starting bank and no unlocks.
    pub fn default_org() -> (r: Self)
        ensures
            r@ == OrganizationModel::default_with(0, VGarageModel::empty(), VLockerModel::empty()),
    {
        Self::default_org_with_starting(Money::zero(), VGarage::default(), VLocker::default())
    }

    pub fn default_org_with_starting(
        bank: Money,
        virtual_garage: VGarage,
        virtual_locker: VLocker,
    ) -> (r: Self)
        ensures
            r@ == OrganizationModel::default_with(bank@, virtual_garage@, virtual_locker@),
    {
        let r = Organization {
            id: String::from_str("default"),
            name: String::from_str("Default"),
            kind: OrganizationKind::Default,
            members: Vec::new(),
            bank,
            virtual_garage,
            virtual_locker,
        };
        proof {
            assert(r@ =~= OrganizationModel::default_with(bank@, virtual_garage@, virtual_locker@));
        }
        r
    }

    /// A player organization founded by `ceo_uid`.
    pub fn player_org(id: &str, name: &str, ceo_uid: &str) -> (r: Self)
        ensures
            r@ == OrganizationModel::player(id@, name@, ceo_uid@),
    {
        let mut members: Vec<OrganizationMember> = Vec::new();
        members.push(OrganizationMember::new(ceo_uid, OrganizationRole::Ceo));
        let r = Organization {
            id: id.to_owned(),
            name: name.to_owned(),
            kind: OrganizationKind::Player,
            members,
            bank: Money::zero(),
            virtual_garage: VGarage::default(),
            virtual_locker: VLocker::default(),
        };
        proof {
            assert(member_models(r.members@) =~= seq![
                MemberModel { uid: ceo_uid@, role: OrganizationRole::Ceo },
            ]);
            assert(r@ =~= OrganizationModel::player(id@, name@, ceo_uid@));
        }
        r
    }

    /// The position of the first entry of `uid`.
    fn member_position(&self, uid: &str) -> (r: Option<usize>)
        ensures
            match r {
                Some(i) => i < self.members@.len() && self@.member_index(uid@) == Some(i as int),
                None => self@.member_index(uid@) is None,
            },
    {
        let mut i: usize = 0;
        while i < self.members.len()
            invariant
                i <= self.members@.len(),
                forall|j: int| 0 <= j < i ==> self.members@[j].uid@ != uid@,
            decreases self.members@.len() - i,
        {
            if same_text(self.members[i].uid.as_str(), uid) {
                proof {
                    lemma_member_index_is(self@, uid@, i as int);
                }
                return Some(i);
            }
            i = i + 1;
        }
        proof {
            if self@.has_member(uid@) {
                let k = choose|k: int|
                    0 <= k < self@.members.len() && self@.members[k].uid == uid@;
                assert(self.members@[k]@.uid == uid@);
            }
        }
        None
    }

    /// The first member entry of `uid`.
    pub fn member(&self, uid: &str) -> (r: Option<&OrganizationMember>)
        ensures
            match self@.member_index(uid@) {
                Some(i) => r matches Some(m) && m@ == self@.members[i],
                None => r is None,
            },
    {
        match self.member_position(uid) {
            Some(i) => Some(&self.members[i]),
            None => None,
        }
    }

    pub fn has_member(&self, uid: &str) -> (r: bool)
        ensures
            r == self@.has_member(uid@),
    {
        self.member_position(uid).is_some()
    }

    pub fn is_ceo(&self, uid: &str) -> (r: bool)
        ensures
            r == self@.is_ceo(uid@),
    {
        match self.member_position(uid) {
            Some(i) => self.members[i].role == OrganizationRole::Ceo,
            None => false,
        }
    }

    /// Drops every member entry of `uid`.
    pub fn remove_member(&mut self, uid: &str)
        ensures
            final(self)@ == old(self)@.without_member(uid@),
    {
        let ghost start = member_models(self.members@);
        let mut kept: Vec<OrganizationMember> = Vec::new();
        let mut i: usize = 0;
        while i < self.members.len()
            invariant
                i <= self.members@.len(),
                self@ == old(self)@,
                start == member_models(self.members@),
                member_models(kept@) == without_uid(start.take(i as int), uid@),
            decreases self.members@.len() - i,
        {
            proof {
                assert(start.take(i + 1).drop_last() =~= start.take(i as int));
            }
            if !same_text(self.members[i].uid.as_str(), uid) {
                kept.push(self.members[i].clone());
            }
            i = i + 1;
            proof {
                assert(member_models(kept@) =~= without_uid(start.take(i as int), uid@));
            }
        }
        proof {
            assert(start.take(i as int) =~= start);
        }
        self.members = kept;
        proof {
            assert(self@ =~= old(self)@.without_member(uid@));
        }
    }

    /// Adds `uid` as a plain member unless it is one already.
    pub fn add_member(&mut self, uid: &str)
        ensures
            final(self)@ == old(self)@.with_member(uid@),
    {
        if !self.has_member(uid) {
            self.members.push(OrganizationMember::new(uid, OrganizationRole::Member));
            proof {
                assert(self@ =~= old(self)@.with_member(uid@));
            }
        }
    }
}

/// An organization as shown to players: its bank as a money text.
#[derive(Debug, Clone, PartialEq, Eq)]
pub struct OrganizationView {
    pub id: String,
    pub name: String,
    pub kind: OrganizationKind,
    pub members: Vec<OrganizationMember>,
    pub bank: MoneyAmount,
    pub virtual_garage: VGarage,
    pub virtual_locker: VLocker,
}

impl OrganizationView {
    /// Whether this view shows `org`.
    pub open spec fn shows(&self, org: OrganizationModel) -> bool {
        &&& self.id@ == org.id
        &&& self.name@ == org.name
        &&& self.kind == org.kind
        &&& member_models(self.members@) == org.members
        &&& self.bank@ == money_text(org.bank)
        &&& self.virtual_garage@ == org.virtual_garage
        &&& self.virtual_locker@ == org.virtual_locker
    }

    pub fn from_organization(organization: &Organization) -> (r: Self)
        ensures
            r.shows(organization@),
    {
        OrganizationView {
            id: organization.id.clone(),
            name: organization.name.clone(),
            kind: organization.kind,
            members: copy_members(&organization.members),
            bank: organization.bank.to_amount(),
            virtual_garage: organization.virtual_garage.clone(),
            virtual_locker: organization.virtual_locker.clone(),
        }
    }
}

impl<'a> From<&'a Organization> for OrganizationView {
    fn from(organization: &'a Organization) -> (r: OrganizationView)
        ensures
            r.shows(organization@),
    {
        OrganizationView::from_organization(organization)
    }
}

impl<'a> vstd::std_specs::convert::FromSpecImpl<&'a Organization> for OrganizationView {
    open spec fn obeys_from_spec() -> bool {
        false
    }

    /// A view of the organization; the call's own contract says which.
    closed spec fn from_spec(v: &'a Organization) -> OrganizationView {
        choose|r: OrganizationView| r.shows(v@)
    }
}

#[derive(Debug, Clone, Copy, PartialEq, Eq, Structural)]
pub enum OrganizationInviteStatus {
    Pending,
    Accepted,
    Declined,
}

/// An invite of one player into an organization.
#[derive(Debug, PartialEq, Eq)]
pub struct OrganizationInvite {
    pub id: String,
    pub organization_id: String,
    pub inviter_uid: String,
    pub invitee_uid: String,
    pub status: OrganizationInviteStatus,
}

pub struct InviteModel {
    pub id: Seq<char>,
    pub organization_id: Seq<char>,
    pub inviter_uid: Seq<char>,
    pub invitee_uid: Seq<char>,
    pub status: OrganizationInviteStatus,
}

impl View for OrganizationInvite {
    type V = InviteModel;

    open spec fn view(&self) -> InviteModel {
        InviteModel {
            id: self.id@,
            organization_id: self.organization_id@,
            inviter_uid: self.inviter_uid@,
            invitee_uid: self.invitee_uid@,
            status: self.status,
        }
    }
}

impl Clone for OrganizationInvite {
    fn clone(&self) -> (r: Self)
        ensures
            r@ == self@,
    {
        OrganizationInvite {
            id: self.id.clone(),
            organization_id: self.organization_id.clone(),
            inviter_uid: self.inviter_uid.clone(),
            invitee_uid: self.invitee_uid.clone(),
            status: self.status,
        }
    }
}

impl OrganizationInvite {
    /// A pending invite with a fresh id.
    pub fn new(organization_id: &str, inviter_uid: &str, invitee_uid: &str) -> (r: Self)
        ensures
            r@.organization_id == organization_id@,
            r@.inviter_uid == inviter_uid@,
            r@.invitee_uid == invitee_uid@,
            r@.status == OrganizationInviteStatus::Pending,
            uuid_text(r@.id),
    {
        OrganizationInvite {
            id: new_uuid_text(),
            organization_id: organization_id.to_owned(),
            inviter_uid: inviter_uid.to_owned(),
            invitee_uid: invitee_uid.to_owned(),
            status: OrganizationInviteStatus::Pending,
        }
    }

    pub fn accept(&mut self)
        ensures
            final(self)@ == (InviteModel { status: OrganizationInviteStatus::Accepted, ..old(self)@ }),
    {
        self.status = OrganizationInviteStatus::Accepted;
    }

    pub fn decline(&mut self)
        ensures
            final(self)@ == (InviteModel { status: OrganizationInviteStatus::Declined, ..old(self)@ }),
    {
        self.status = OrganizationInviteStatus::Declined;
    }
}

/// A member moved out of an organization into the default one.
#[derive(Debug, PartialEq, Eq)]
pub struct OrganizationMemberTransfer {
    pub organization: OrganizationView,
    pub default_organization: OrganizationView,
    pub uid: String,
}

/// A disbanded organization and where its members went.
#[derive(Debug, PartialEq, Eq)]
pub struct OrganizationDisband {
    pub disbanded: OrganizationView,
    pub default_organization: OrganizationView,
    pub reassigned_uids: Vec<String>,
}

/// A payday worked out but not yet stored: the organization with its bank
/// already charged, the amount each recipient gets, and the recipients.
#[derive(Debug, PartialEq, Eq)]
pub struct OrganizationPaydayPlan {
    pub organization: Organization,
    pub amount: Money,
    pub recipients: Vec<String>,
}

/// A payday that was issued.
#[derive(Debug, PartialEq, Eq)]
pub struct OrganizationPayday {
    pub organization: OrganizationView,
    pub amount: MoneyAmount,
    pub recipients: Vec<String>,
}

} // verus!
