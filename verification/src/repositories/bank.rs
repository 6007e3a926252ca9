//! Where players' bank profiles are kept.
use vstd::prelude::*;
use crate::models::bank::{PlayerBankProfile, PlayerBankProfileModel};
use crate::shared::error::BankError;
use crate::store::{Keyed, Store};

verus! {

impl Keyed for PlayerBankProfile {
    type Model = PlayerBankProfileModel;

    open spec fn key(&self) -> Seq<char> {
        self.uid@
    }

    open spec fn model(&self) -> PlayerBankProfileModel {
        self@
    }

    fn key_str(&self) -> (r: &str) {
        self.uid.as_str()
    }

    fn duplicate(&self) -> (r: Self) {
        self.clone()
    }
}

/// Bank profiles by player uid. Reads and writes do not fail; reads hand
/// out copies.
pub trait BankRepository {
    spec fn profiles(&self) -> Map<Seq<char>, PlayerBankProfileModel>;

    spec fn inv(&self) -> bool;

    proof fn lemma_consistent(&self)
        requires
            self.inv(),
        ensures
            forall|k: Seq<char>| #[trigger]
                self.profiles().contains_key(k) ==> self.profiles()[k].uid == k,
    ;

    fn find_by_uid(&self, uid: &str) -> (r: Result<Option<PlayerBankProfile>, BankError>)
        requires
            self.inv(),
        ensures
            match r {
                Ok(Some(p)) => self.profiles().contains_key(uid@) && p@ == self.profiles()[uid@],
                Ok(None) => !self.profiles().contains_key(uid@),
                Err(_) => false,
            },
    ;

    fn save(&mut self, profile: PlayerBankProfile) -> (r: Result<PlayerBankProfile, BankError>)
        requires
            old(self).inv(),
        ensures
            final(self).inv(),
            r matches Ok(p) && p@ == profile@,
            final(self).profiles() == old(self).profiles().insert(profile@.uid, profile@),
    ;

    fn delete(&mut self, uid: &str) -> (r: Result<(), BankError>)
        requires
            old(self).inv(),
        ensures
            final(self).inv(),
            r is Ok,
            final(self).profiles() == old(self).profiles().remove(uid@),
    ;
}

/// Bank profiles kept in memory.
pub struct InMemoryBankRepository {
    profiles: Store<PlayerBankProfile>,
}

impl InMemoryBankRepository {
    pub fn new() -> (r: Self)
        ensures
            r.inv(),
            r.profiles() == Map::<Seq<char>, PlayerBankProfileModel>::empty(),
    {
        InMemoryBankRepository { profiles: Store::new() }
    }
}

impl BankRepository for InMemoryBankRepository {
    closed spec fn profiles(&self) -> Map<Seq<char>, PlayerBankProfileModel> {
        self.profiles.view()
    }

    closed spec fn inv(&self) -> bool {
        &&& self.profiles.wf()
        &&& forall|k: Seq<char>| #[trigger]
            self.profiles.view().contains_key(k) ==> self.profiles.view()[k].uid == k
    }

    proof fn lemma_consistent(&self) {
    }

    fn find_by_uid(&self, uid: &str) -> (r: Result<Option<PlayerBankProfile>, BankError>) {
        Ok(self.profiles.get(uid))
    }

    fn save(&mut self, profile: PlayerBankProfile) -> (r: Result<PlayerBankProfile, BankError>) {
        let copy = profile.clone();
        self.profiles.insert(profile);
        Ok(copy)
    }

    fn delete(&mut self, uid: &str) -> (r: Result<(), BankError>) {
        self.profiles.remove(uid);
        Ok(())
    }
}

} // verus!
