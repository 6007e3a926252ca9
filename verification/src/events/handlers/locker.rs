//! Gives every new actor a locker.
use vstd::prelude::*;
use crate::events::bus::DomainEventHandler;
use crate::models::domain_event::DomainEvent;
use crate::models::locker::PlayerLockerModel;
use crate::repositories::locker::{InMemoryLockerRepository, LockerRepository};
use crate::services::locker::LockerService;
use crate::shared::error::{locker_error_text, EventError, LockerError};
use crate::text::blank;

verus! {

/// What handling a new actor `uid` does to the lockers: a blank uid fails
/// and changes nothing; otherwise the actor gets an empty locker unless it
/// has one.
pub open spec fn locker_handled(
    before: Map<Seq<char>, PlayerLockerModel>,
    after: Map<Seq<char>, PlayerLockerModel>,
    r: Result<(), EventError>,
    uid: Seq<char>,
) -> bool {
    if blank(uid) {
        &&& after == before
        &&& r matches Err(EventError::HandlerFailed { handler, event, message })
        &&& handler@ == "locker.actor_created"@
        &&& event@ == "actor.created"@
        &&& message@ == locker_error_text(LockerError::InvalidUid)
    } else {
        &&& r is Ok
        &&& before.contains_key(uid) ==> after == before
        &&& !before.contains_key(uid) ==> after == before.insert(
            uid,
            PlayerLockerModel { uid, entries: Seq::empty() },
        )
    }
}

pub struct LockerActorCreatedHandler {
    service: LockerService<InMemoryLockerRepository>,
}

impl LockerActorCreatedHandler {
    /// The lockers, by player uid.
    pub closed spec fn lockers(&self) -> Map<Seq<char>, PlayerLockerModel> {
        self.service.lockers()
    }

    #[verifier::type_invariant]
    spec fn well_formed(self) -> bool {
        self.service.repository.inv()
    }

    pub fn new(service: LockerService<InMemoryLockerRepository>) -> (r: Self)
        requires
            service.repository.inv(),
        ensures
            r.lockers() == service.lockers(),
    {
        LockerActorCreatedHandler { service }
    }

    /// A new actor appeared: its locker is made unless it has one.
    pub fn handle_actor_created(&mut self, uid: &str) -> (r: Result<(), EventError>)
        ensures
            locker_handled(old(self).lockers(), final(self).lockers(), r, uid@),
    {
        proof {
            use_type_invariant(&*self);
        }
        let mut service = LockerService::new(InMemoryLockerRepository::new());
        std::mem::swap(&mut service, &mut self.service);
        let created = service.create_actor_locker(uid);
        std::mem::swap(&mut service, &mut self.service);
        match created {
            Ok(_) => Ok(()),
            Err(error) => Err(
                EventError::HandlerFailed {
                    handler: "locker.actor_created",
                    event: "actor.created",
                    message: error.message(),
                },
            ),
        }
    }
}

impl DomainEventHandler for LockerActorCreatedHandler {
    fn name(&self) -> (r: &'static str)
        ensures
            r@ == "locker.actor_created"@,
    {
        "locker.actor_created"
    }

    /// Only `ActorCreated` is acted on; other events are passed by.
    fn handle(&mut self, event: &DomainEvent) -> (r: Result<(), EventError>)
        ensures
            match event {
                DomainEvent::ActorCreated(created) => locker_handled(
                    old(self).lockers(),
                    final(self).lockers(),
                    r,
                    created.actor.uid@,
                ),
                _ => r is Ok && final(self).lockers() == old(self).lockers(),
            },
    {
        match event {
            DomainEvent::ActorCreated(created) => self.handle_actor_created(
                created.actor.uid.as_str(),
            ),
            _ => Ok(()),
        }
    }
}

impl Default for LockerActorCreatedHandler {
    fn default() -> (r: Self)
        ensures
            r.lockers() == Map::<Seq<char>, PlayerLockerModel>::empty(),
    {
        Self::new(LockerService::new(InMemoryLockerRepository::new()))
    }
}

} // verus!
