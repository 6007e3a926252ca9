//! Gives every new actor its starting unlocked equipment.
use vstd::prelude::*;
use crate::events::bus::DomainEventHandler;
use crate::models::domain_event::DomainEvent;
use crate::models::v_locker::{PlayerVLockerModel, VLocker, VLockerModel};
use crate::repositories::v_locker::{InMemoryVLockerRepository, VLockerRepository};
use crate::services::v_locker::VLockerService;
use crate::shared::error::{v_locker_error_text, EventError, VLockerError};
use crate::text::blank;

verus! {

/// What handling a new actor `uid` with starting unlocks `starting` does:
/// a blank uid fails and changes nothing; otherwise the unlocks are stored,
/// merged into what the player has.
pub open spec fn v_locker_handled(
    before: Map<Seq<char>, PlayerVLockerModel>,
    after: Map<Seq<char>, PlayerVLockerModel>,
    r: Result<(), EventError>,
    uid: Seq<char>,
    starting: VLockerModel,
) -> bool {
    if blank(uid) {
        &&& after == before
        &&& r matches Err(EventError::HandlerFailed { handler, event, message })
        &&& handler@ == "v_locker.actor_created"@
        &&& event@ == "actor.created"@
        &&& message@ == v_locker_error_text(VLockerError::InvalidUid)
    } else {
        &&& r is Ok
        &&& before.contains_key(uid) ==> after == before.insert(
            uid,
            PlayerVLockerModel { uid, unlocks: before[uid].unlocks.merge(starting) },
        )
        &&& !before.contains_key(uid) ==> after == before.insert(
            uid,
            PlayerVLockerModel { uid, unlocks: starting },
        )
    }
}

pub struct VLockerActorCreatedHandler {
    service: VLockerService<InMemoryVLockerRepository>,
}

impl VLockerActorCreatedHandler {
    /// The unlocks of each player, by uid.
    pub closed spec fn lockers(&self) -> Map<Seq<char>, PlayerVLockerModel> {
        self.service.lockers()
    }

    #[verifier::type_invariant]
    spec fn well_formed(self) -> bool {
        self.service.repository.inv()
    }

    pub fn new(service: VLockerService<InMemoryVLockerRepository>) -> (r: Self)
        requires
            service.repository.inv(),
        ensures
            r.lockers() == service.lockers(),
    {
        VLockerActorCreatedHandler { service }
    }

    /// A new actor appeared with its starting unlocks: they are stored,
    /// merged into what the player has.
    pub fn handle_actor_created(&mut self, uid: &str, starting: &VLocker) -> (r: Result<
        (),
        EventError,
    >)
        ensures
            v_locker_handled(old(self).lockers(), final(self).lockers(), r, uid@, starting@),
    {
        proof {
            use_type_invariant(&*self);
        }
        let mut service = VLockerService::new(InMemoryVLockerRepository::new());
        std::mem::swap(&mut service, &mut self.service);
        let stored = service.create_actor_locker(uid, starting);
        std::mem::swap(&mut service, &mut self.service);
        match stored {
            Ok(_) => Ok(()),
            Err(error) => Err(
                EventError::HandlerFailed {
                    handler: "v_locker.actor_created",
                    event: "actor.created",
                    message: error.message(),
                },
            ),
        }
    }
}

impl DomainEventHandler for VLockerActorCreatedHandler {
    fn name(&self) -> (r: &'static str)
        ensures
            r@ == "v_locker.actor_created"@,
    {
        "v_locker.actor_created"
    }

    /// Only `ActorCreated` is acted on; other events are passed by.
    fn handle(&mut self, event: &DomainEvent) -> (r: Result<(), EventError>)
        ensures
            match event {
                DomainEvent::ActorCreated(created) => v_locker_handled(
                    old(self).lockers(),
                    final(self).lockers(),
                    r,
                    created.actor.uid@,
                    created.starting.virtual_arsenal@,
                ),
                _ => r is Ok && final(self).lockers() == old(self).lockers(),
            },
    {
        match event {
            DomainEvent::ActorCreated(created) => self.handle_actor_created(
                created.actor.uid.as_str(),
                &created.starting.virtual_arsenal,
            ),
            _ => Ok(()),
        }
    }
}

impl Default for VLockerActorCreatedHandler {
    fn default() -> (r: Self)
        ensures
            r.lockers() == Map::<Seq<char>, PlayerVLockerModel>::empty(),
    {
        Self::new(VLockerService::new(InMemoryVLockerRepository::new()))
    }
}

} // verus!
