//! Where organizations and invites are kept.
use vstd::prelude::*;
use crate::models::organization::{
    InviteModel, Organization, OrganizationInvite, OrganizationInviteStatus, OrganizationModel,
};
use crate::shared::error::OrganizationError;
use crate::store::{Keyed, Store};
use crate::text::same_text;

verus! {

impl Keyed for Organization {
    type Model = OrganizationModel;

    open spec fn key(&self) -> Seq<char> {
        self.id@
    }

    open spec fn model(&self) -> OrganizationModel {
        self@
    }

    fn key_str(&self) -> (r: &str) {
        self.id.as_str()
    }

    fn duplicate(&self) -> (r: Self) {
        self.clone()
    }
}

impl Keyed for OrganizationInvite {
    type Model = InviteModel;

    open spec fn key(&self) -> Seq<char> {
        self.id@
    }

    open spec fn model(&self) -> InviteModel {
        self@
    }

    fn key_str(&self) -> (r: &str) {
        self.id.as_str()
    }

    fn duplicate(&self) -> (r: Self) {
        self.clone()
    }
}

/// Whether `invite` is the pending invite of `invitee` into `organization`.
pub open spec fn pending_for(invite: InviteModel, organization: Seq<char>, invitee: Seq<char>) -> bool {
    &&& invite.organization_id == organization
    &&& invite.invitee_uid == invitee
    &&& invite.status == OrganizationInviteStatus::Pending
}

/// Organizations by id and invites by id. Reads never fail and hand out
/// copies; writes replace what is stored under the same id.
pub trait OrganizationRepository {
    spec fn organizations(&self) -> Map<Seq<char>, OrganizationModel>;

    spec fn invites(&self) -> Map<Seq<char>, InviteModel>;

    spec fn inv(&self) -> bool;

    /// The organization that a lookup by member reports for `uid`.
    spec fn member_org(&self, uid: Seq<char>) -> Option<Seq<char>>;

    proof fn lemma_consistent(&self)
        requires
            self.inv(),
        ensures
            forall|k: Seq<char>| #[trigger]
                self.organizations().contains_key(k) ==> self.organizations()[k].id == k,
            forall|k: Seq<char>| #[trigger]
                self.invites().contains_key(k) ==> self.invites()[k].id == k,
            forall|uid: Seq<char>| #[trigger]
                self.member_org(uid) matches Some(id) ==> self.organizations().contains_key(id)
                    && self.organizations()[id].has_member(uid),
            forall|uid: Seq<char>, k: Seq<char>|
                #![trigger self.member_org(uid), self.organizations().contains_key(k)]
                self.member_org(uid) is None && self.organizations().contains_key(k)
                    ==> !self.organizations()[k].has_member(uid),
    ;

    fn find_by_id(&self, id: &str) -> (r: Result<Option<Organization>, OrganizationError>)
        requires
            self.inv(),
        ensures
            match r {
                Ok(Some(o)) => self.organizations().contains_key(id@) && o@
                    == self.organizations()[id@],
                Ok(None) => !self.organizations().contains_key(id@),
                Err(_) => false,
            },
    ;

    fn find_by_member_uid(&self, uid: &str) -> (r: Result<Option<Organization>, OrganizationError>)
        requires
            self.inv(),
        ensures
            match r {
                Ok(Some(o)) => self.member_org(uid@) == Some(o@.id) && o@
                    == self.organizations()[o@.id],
                Ok(None) => self.member_org(uid@) is None,
                Err(_) => false,
            },
    ;

    fn find_invite(&self, id: &str) -> (r: Result<Option<OrganizationInvite>, OrganizationError>)
        requires
            self.inv(),
        ensures
            match r {
                Ok(Some(i)) => self.invites().contains_key(id@) && i@ == self.invites()[id@],
                Ok(None) => !self.invites().contains_key(id@),
                Err(_) => false,
            },
    ;

    fn find_pending_invite(&self, organization_id: &str, invitee_uid: &str) -> (r: Result<
        Option<OrganizationInvite>,
        OrganizationError,
    >)
        requires
            self.inv(),
        ensures
            match r {
                Ok(Some(i)) => self.invites().contains_key(i@.id) && i@ == self.invites()[i@.id]
                    && pending_for(i@, organization_id@, invitee_uid@),
                Ok(None) => forall|k: Seq<char>| #[trigger]
                    self.invites().contains_key(k) ==> !pending_for(
                        self.invites()[k],
                        organization_id@,
                        invitee_uid@,
                    ),
                Err(_) => false,
            },
    ;

    fn save(&mut self, organization: Organization) -> (r: Result<Organization, OrganizationError>)
        requires
            old(self).inv(),
        ensures
            final(self).inv(),
            r matches Ok(o) && o@ == organization@,
            final(self).organizations() == old(self).organizations().insert(
                organization@.id,
                organization@,
            ),
            final(self).invites() == old(self).invites(),
    ;

    fn save_invite(&mut self, invite: OrganizationInvite) -> (r: Result<
        OrganizationInvite,
        OrganizationError,
    >)
        requires
            old(self).inv(),
        ensures
            final(self).inv(),
            r matches Ok(i) && i@ == invite@,
            final(self).organizations() == old(self).organizations(),
            final(self).invites() == old(self).invites().insert(invite@.id, invite@),
    ;

    fn delete(&mut self, id: &str) -> (r: Result<(), OrganizationError>)
        requires
            old(self).inv(),
        ensures
            final(self).inv(),
            r is Ok,
            final(self).organizations() == old(self).organizations().remove(id@),
            final(self).invites() == old(self).invites(),
    ;
}

/// Organizations and invites kept in memory.
pub struct InMemoryOrganizationRepository {
    organizations: Store<Organization>,
    invites: Store<OrganizationInvite>,
}

impl InMemoryOrganizationRepository {
    pub fn new() -> (r: Self)
        ensures
            r.inv(),
            r.organizations() == Map::<Seq<char>, OrganizationModel>::empty(),
            r.invites() == Map::<Seq<char>, InviteModel>::empty(),
    {
        InMemoryOrganizationRepository { organizations: Store::new(), invites: Store::new() }
    }

    /// Whether the organization at position `i` is the first, in storing
    /// order, that lists `uid`.
    closed spec fn first_with_member(&self, uid: Seq<char>, i: int) -> bool {
        &&& 0 <= i < self.organizations.keys().len()
        &&& self.organizations.view()[self.organizations.keys()[i]].has_member(uid)
        &&& forall|j: int|
            0 <= j < i ==> !self.organizations.view()[self.organizations.keys()[j]].has_member(
                uid,
            )
    }
}

impl OrganizationRepository for InMemoryOrganizationRepository {
    closed spec fn organizations(&self) -> Map<Seq<char>, OrganizationModel> {
        self.organizations.view()
    }

    closed spec fn invites(&self) -> Map<Seq<char>, InviteModel> {
        self.invites.view()
    }

    closed spec fn inv(&self) -> bool {
        &&& self.organizations.wf()
        &&& self.invites.wf()
        &&& forall|k: Seq<char>| #[trigger]
            self.organizations.view().contains_key(k) ==> self.organizations.view()[k].id == k
        &&& forall|k: Seq<char>| #[trigger]
            self.invites.view().contains_key(k) ==> self.invites.view()[k].id == k
    }

    /// The first organization, in storing order, that lists `uid`.
    closed spec fn member_org(&self, uid: Seq<char>) -> Option<Seq<char>> {
        if exists|i: int| self.first_with_member(uid, i) {
            Some(self.organizations.keys()[choose|i: int| self.first_with_member(uid, i)])
        } else {
            None
        }
    }

    proof fn lemma_consistent(&self) {
        self.organizations.lemma_keys();
        assert forall|uid: Seq<char>, k: Seq<char>|
            #![trigger self.member_org(uid), self.organizations().contains_key(k)]
            self.member_org(uid) is None && self.organizations().contains_key(k)
                ==> !self.organizations()[k].has_member(uid) by {
            if self.member_org(uid) is None && self.organizations().contains_key(k)
                && self.organizations()[k].has_member(uid) {
                let keys = self.organizations.keys();
                let j = choose|j: int| 0 <= j < keys.len() && keys[j] == k;
                self.lemma_first_exists(uid, j);
            }
        }
        assert forall|uid: Seq<char>| #[trigger]
            self.member_org(uid) is Some implies self.organizations().contains_key(
                self.member_org(uid)->0,
            ) && self.organizations()[self.member_org(uid)->0].has_member(uid) by {
            if exists|i: int| self.first_with_member(uid, i) {
                let i = choose|i: int| self.first_with_member(uid, i);
                let keys = self.organizations.keys();
                assert(keys.contains(keys[i]));
            }
        }
    }

    fn find_by_id(&self, id: &str) -> (r: Result<Option<Organization>, OrganizationError>) {
        Ok(self.organizations.get(id))
    }

    fn find_by_member_uid(&self, uid: &str) -> (r: Result<Option<Organization>, OrganizationError>) {
        let n = self.organizations.len();
        let mut i: usize = 0;
        while i < n
            invariant
                self.inv(),
                n == self.organizations.keys().len(),
                i <= n,
                forall|j: int|
                    0 <= j < i ==> !self.organizations.view()[self.organizations.keys()[j]].has_member(
                        uid@,
                    ),
            decreases n - i,
        {
            let org = self.organizations.get_at(i);
            if org.has_member(uid) {
                proof {
                    assert(self.first_with_member(uid@, i as int));
                    self.lemma_first_unique(uid@, i as int);
                }
                return Ok(Some(org.clone()));
            }
            i = i + 1;
        }
        proof {
            if exists|j: int| self.first_with_member(uid@, j) {
                let j = choose|j: int| self.first_with_member(uid@, j);
                assert(!self.organizations.view()[self.organizations.keys()[j]].has_member(uid@));
            }
        }
        Ok(None)
    }

    fn find_invite(&self, id: &str) -> (r: Result<Option<OrganizationInvite>, OrganizationError>) {
        Ok(self.invites.get(id))
    }

    fn find_pending_invite(&self, organization_id: &str, invitee_uid: &str) -> (r: Result<
        Option<OrganizationInvite>,
        OrganizationError,
    >) {
        let n = self.invites.len();
        let mut i: usize = 0;
        while i < n
            invariant
                self.inv(),
                n == self.invites.keys().len(),
                i <= n,
                forall|j: int|
                    0 <= j < i ==> !pending_for(
                        #[trigger] self.invites.view()[self.invites.keys()[j]],
                        organization_id@,
                        invitee_uid@,
                    ),
            decreases n - i,
        {
            let invite = self.invites.get_at(i);
            if same_text(invite.organization_id.as_str(), organization_id) && same_text(
                invite.invitee_uid.as_str(),
                invitee_uid,
            ) && invite.status == OrganizationInviteStatus::Pending {
                return Ok(Some(invite.clone()));
            }
            i = i + 1;
        }
        proof {
            self.invites.lemma_keys();
            assert forall|k: Seq<char>| #[trigger]
                self.invites.view().contains_key(k) implies !pending_for(
                self.invites.view()[k],
                organization_id@,
                invitee_uid@,
            ) by {
                let keys = self.invites.keys();
                let j = choose|j: int| 0 <= j < keys.len() && keys[j] == k;
                assert(!pending_for(self.invites.view()[keys[j]], organization_id@, invitee_uid@));
            }
        }
        Ok(None)
    }

    fn save(&mut self, organization: Organization) -> (r: Result<Organization, OrganizationError>) {
        let copy = organization.clone();
        self.organizations.insert(organization);
        Ok(copy)
    }

    fn save_invite(&mut self, invite: OrganizationInvite) -> (r: Result<
        OrganizationInvite,
        OrganizationError,
    >) {
        let copy = invite.clone();
        self.invites.insert(invite);
        Ok(copy)
    }

    fn delete(&mut self, id: &str) -> (r: Result<(), OrganizationError>) {
        self.organizations.remove(id);
        Ok(())
    }
}

impl InMemoryOrganizationRepository {
    proof fn lemma_first_exists(&self, uid: Seq<char>, j: int)
        requires
            self.inv(),
            0 <= j < self.organizations.keys().len(),
            self.organizations.view()[self.organizations.keys()[j]].has_member(uid),
        ensures
            exists|i: int| self.first_with_member(uid, i),
        decreases j,
    {
        if exists|k: int|
            0 <= k < j && self.organizations.view()[self.organizations.keys()[k]].has_member(uid) {
            let k = choose|k: int|
                0 <= k < j && self.organizations.view()[self.organizations.keys()[k]].has_member(
                    uid,
                );
            self.lemma_first_exists(uid, k);
        } else {
            assert(self.first_with_member(uid, j));
        }
    }

    proof fn lemma_first_unique(&self, uid: Seq<char>, i: int)
        requires
            self.first_with_member(uid, i),
        ensures
            self.member_org(uid) == Some(self.organizations.keys()[i]),
    {
        let c = choose|c: int| self.first_with_member(uid, c);
        if c < i {
            assert(!self.organizations.view()[self.organizations.keys()[c]].has_member(uid));
        } else if c > i {
            assert(!self.organizations.view()[self.organizations.keys()[i]].has_member(uid));
        }
    }
}

} // verus!
