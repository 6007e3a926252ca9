//! Where actors are kept.
use vstd::prelude::*;
use crate::models::actor::{Actor, ActorModel};
use crate::shared::error::ActorError;
use crate::store::{Keyed, Store};

verus! {

impl Keyed for Actor {
    type Model = ActorModel;

    open spec fn key(&self) -> Seq<char> {
        self.uid@
    }

    open spec fn model(&self) -> ActorModel {
        self@
    }

    fn key_str(&self) -> (r: &str) {
        self.uid.as_str()
    }

    fn duplicate(&self) -> (r: Self) {
        self.clone()
    }
}

/// Actors by uid. Reads and writes do not fail; reads hand out copies.
pub trait ActorRepository {
    spec fn actors(&self) -> Map<Seq<char>, ActorModel>;

    spec fn inv(&self) -> bool;

    proof fn lemma_consistent(&self)
        requires
            self.inv(),
        ensures
            forall|k: Seq<char>| #[trigger] self.actors().contains_key(k) ==> self.actors()[k].uid == k,
    ;

    fn find_by_uid(&self, uid: &str) -> (r: Result<Option<Actor>, ActorError>)
        requires
            self.inv(),
        ensures
            match r {
                Ok(Some(a)) => self.actors().contains_key(uid@) && a@ == self.actors()[uid@],
                Ok(None) => !self.actors().contains_key(uid@),
                Err(_) => false,
            },
    ;

    fn save(&mut self, actor: Actor) -> (r: Result<Actor, ActorError>)
        requires
            old(self).inv(),
        ensures
            final(self).inv(),
            r matches Ok(a) && a@ == actor@,
            final(self).actors() == old(self).actors().insert(actor@.uid, actor@),
    ;

    fn delete(&mut self, uid: &str) -> (r: Result<(), ActorError>)
        requires
            old(self).inv(),
        ensures
            final(self).inv(),
            r is Ok,
            final(self).actors() == old(self).actors().remove(uid@),
    ;
}

/// Actors kept in memory.
pub struct InMemoryActorRepository {
    actors: Store<Actor>,
}

impl InMemoryActorRepository {
    pub fn new() -> (r: Self)
        ensures
            r.inv(),
            r.actors() == Map::<Seq<char>, ActorModel>::empty(),
    {
        InMemoryActorRepository { actors: Store::new() }
    }
}

impl ActorRepository for InMemoryActorRepository {
    closed spec fn actors(&self) -> Map<Seq<char>, ActorModel> {
        self.actors.view()
    }

    closed spec fn inv(&self) -> bool {
        &&& self.actors.wf()
        &&& forall|k: Seq<char>| #[trigger]
            self.actors.view().contains_key(k) ==> self.actors.view()[k].uid == k
    }

    proof fn lemma_consistent(&self) {
    }

    fn find_by_uid(&self, uid: &str) -> (r: Result<Option<Actor>, ActorError>) {
        Ok(self.actors.get(uid))
    }

    fn save(&mut self, actor: Actor) -> (r: Result<Actor, ActorError>) {
        let copy = actor.clone();
        self.actors.insert(actor);
        Ok(copy)
    }

    fn delete(&mut self, uid: &str) -> (r: Result<(), ActorError>) {
        self.actors.remove(uid);
        Ok(())
    }
}

} // verus!
