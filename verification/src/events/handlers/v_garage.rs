//! Gives every new actor its starting unlocked vehicles.
use vstd::prelude::*;
use crate::events::bus::DomainEventHandler;
use crate::models::domain_event::DomainEvent;
use crate::models::v_garage::{PlayerVGarageModel, VGarage, VGarageModel};
use crate::repositories::v_garage::{InMemoryVGarageRepository, VGarageRepository};
use crate::services::v_garage::VGarageService;
use crate::shared::error::{v_garage_error_text, EventError, VGarageError};
use crate::text::blank;

verus! {

/// What handling a new actor `uid` with starting unlocks `starting` does:
/// a blank uid fails and changes nothing; otherwise the unlocks are stored,
/// merged into what the player has.
pub open spec fn v_garage_handled(
    before: Map<Seq<char>, PlayerVGarageModel>,
    after: Map<Seq<char>, PlayerVGarageModel>,
    r: Result<(), EventError>,
    uid: Seq<char>,
    starting: VGarageModel,
) -> bool {
    if blank(uid) {
        &&& after == before
        &&& r matches Err(EventError::HandlerFailed { handler, event, message })
        &&& handler@ == "v_garage.actor_created"@
        &&& event@ == "actor.created"@
        &&& message@ == v_garage_error_text(VGarageError::InvalidUid)
    } else {
        &&& r is Ok
        &&& before.contains_key(uid) ==> after == before.insert(
            uid,
            PlayerVGarageModel { uid, unlocks: before[uid].unlocks.merge(starting) },
        )
        &&& !before.contains_key(uid) ==> after == before.insert(
            uid,
            PlayerVGarageModel { uid, unlocks: starting },
        )
    }
}

pub struct VGarageActorCreatedHandler {
    service: VGarageService<InMemoryVGarageRepository>,
}

impl VGarageActorCreatedHandler {
    /// The unlocks of each player, by uid.
    pub closed spec fn garages(&self) -> Map<Seq<char>, PlayerVGarageModel> {
        self.service.garages()
    }

    #[verifier::type_invariant]
    spec fn well_formed(self) -> bool {
        self.service.repository.inv()
    }

    pub fn new(service: VGarageService<InMemoryVGarageRepository>) -> (r: Self)
        requires
            service.repository.inv(),
        ensures
            r.garages() == service.garages(),
    {
        VGarageActorCreatedHandler { service }
    }

    /// A new actor appeared with its starting unlocks: they are stored,
    /// merged into what the player has.
    pub fn handle_actor_created(&mut self, uid: &str, starting: &VGarage) -> (r: Result<
        (),
        EventError,
    >)
        ensures
            v_garage_handled(old(self).garages(), final(self).garages(), r, uid@, starting@),
    {
        proof {
            use_type_invariant(&*self);
        }
        let mut service = VGarageService::new(InMemoryVGarageRepository::new());
        std::mem::swap(&mut service, &mut self.service);
        let stored = service.create_actor_garage(uid, starting);
        std::mem::swap(&mut service, &mut self.service);
        match stored {
            Ok(_) => Ok(()),
            Err(error) => Err(
                EventError::HandlerFailed {
                    handler: "v_garage.actor_created",
                    event: "actor.created",
                    message: error.message(),
                },
            ),
        }
    }
}

impl DomainEventHandler for VGarageActorCreatedHandler {
    fn name(&self) -> (r: &'static str)
        ensures
            r@ == "v_garage.actor_created"@,
    {
        "v_garage.actor_created"
    }

    /// Only `ActorCreated` is acted on; other events are passed by.
    fn handle(&mut self, event: &DomainEvent) -> (r: Result<(), EventError>)
        ensures
            match event {
                DomainEvent::ActorCreated(created) => v_garage_handled(
                    old(self).garages(),
                    final(self).garages(),
                    r,
                    created.actor.uid@,
                    created.starting.virtual_garage@,
                ),
                _ => r is Ok && final(self).garages() == old(self).garages(),
            },
    {
        match event {
            DomainEvent::ActorCreated(created) => self.handle_actor_created(
                created.actor.uid.as_str(),
                &created.starting.virtual_garage,
            ),
            _ => Ok(()),
        }
    }
}

impl Default for VGarageActorCreatedHandler {
    fn default() -> (r: Self)
        ensures
            r.garages() == Map::<Seq<char>, PlayerVGarageModel>::empty(),
    {
        Self::new(VGarageService::new(InMemoryVGarageRepository::new()))
    }
}

} // verus!
