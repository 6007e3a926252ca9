//! Events about actors.
use vstd::prelude::*;
use crate::models::actor::{Actor, ActorStartingConfig};

verus! {

/// A new actor was stored, with what it starts with.
#[derive(Debug, Clone, PartialEq)]
pub struct ActorCreated {
    pub actor: Actor,
    pub starting: ActorStartingConfig,
}

impl ActorCreated {
    pub fn new(actor: Actor, starting: ActorStartingConfig) -> (r: Self)
        ensures
            r.actor == actor,
            r.starting == starting,
    {
        ActorCreated { actor, starting }
    }
}

/// An actor's player left the server.
#[derive(Debug, Clone, PartialEq, Eq)]
pub struct ActorDisconnected {
    pub uid: String,
}

impl ActorDisconnected {
    pub fn new(uid: &str) -> (r: Self)
        ensures
            r.uid@ == uid@,
    {
        ActorDisconnected { uid: uid.to_owned() }
    }
}

} // verus!
