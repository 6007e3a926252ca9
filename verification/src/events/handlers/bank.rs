//! Opens a bank profile for every new actor.
use vstd::prelude::*;
use crate::events::bus::DomainEventHandler;
use crate::models::actor::{Actor, ActorStartingConfig};
use crate::models::domain_event::DomainEvent;
use crate::services::bank::{create_actor_account, opening_error};
use crate::shared::error::{bank_error_text, EventError};

verus! {

#[derive(Debug, Clone, Copy, Default)]
pub struct BankActorCreatedHandler;

/// What handling a new actor `uid` with starting config `starting` gives:
/// a failure when its bank profile cannot be opened, with the reason.
pub open spec fn bank_handled(
    r: Result<(), EventError>,
    uid: Seq<char>,
    starting: crate::models::actor::StartingModel,
) -> bool {
    match opening_error(uid, starting.cash, starting.bank) {
        Some(e) => r matches Err(EventError::HandlerFailed { handler, event, message })
            && handler@ == "bank.actor_created"@ && event@ == "actor.created"@ && message@
            == bank_error_text(e),
        None => r is Ok,
    }
}

impl BankActorCreatedHandler {
    /// A new actor appeared: its bank profile is opened with the starting
    /// money. It fails when the uid is blank or a starting amount is missing
    /// (its text was no amount) or negative.
    pub fn handle_actor_created(&self, actor: &Actor, starting: &ActorStartingConfig) -> (r: Result<
        (),
        EventError,
    >)
        ensures
            bank_handled(r, actor.uid@, starting@),
    {
        match create_actor_account(actor, starting) {
            Ok(_) => Ok(()),
            Err(error) => Err(
                EventError::HandlerFailed {
                    handler: "bank.actor_created",
                    event: "actor.created",
                    message: error.message(),
                },
            ),
        }
    }
}

impl DomainEventHandler for BankActorCreatedHandler {
    fn name(&self) -> (r: &'static str)
        ensures
            r@ == "bank.actor_created"@,
    {
        "bank.actor_created"
    }

    /// Only `ActorCreated` is acted on; other events are passed by.
    fn handle(&mut self, event: &DomainEvent) -> (r: Result<(), EventError>)
        ensures
            match event {
                DomainEvent::ActorCreated(created) => bank_handled(
                    r,
                    created.actor.uid@,
                    created.starting@,
                ),
                _ => r is Ok,
            },
    {
        match event {
            DomainEvent::ActorCreated(created) => self.handle_actor_created(
                &created.actor,
                &created.starting,
            ),
            _ => Ok(()),
        }
    }
}

} // verus!
