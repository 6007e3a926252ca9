use arma_persist::events::{
    BankActorCreatedHandler, DomainEventHandler, EventBus, VGarageActorCreatedHandler,
    VLockerActorCreatedHandler,
};
use arma_persist::models::{Actor, ActorCreated, ActorSnapshot, ActorStartingConfig, DomainEvent};
use arma_persist::shared::EventError;
use std::sync::{Arc, Mutex};

#[derive(Clone)]
struct RecordingHandler {
    received_events: Arc<Mutex<Vec<&'static str>>>,
}

impl DomainEventHandler for RecordingHandler {
    fn name(&self) -> &'static str {
        "recording"
    }

    fn handle(&mut self, event: &DomainEvent) -> Result<(), EventError> {
        self.received_events
            .lock()
            .expect("received event log should not be poisoned")
            .push(event.name());

        Ok(())
    }
}

#[test]
fn publish_all_dispatches_every_event_to_handlers() {
    let received_events = Arc::new(Mutex::new(Vec::new()));
    let mut bus = EventBus::new().subscribe(RecordingHandler {
        received_events: received_events.clone(),
    });
    let actor = Actor::from_snapshot(ActorSnapshot::new("76561198000000000", "Tester"));
    let events = vec![DomainEvent::ActorCreated(ActorCreated::new(
        actor,
        ActorStartingConfig::default(),
    ))];

    let errors = bus.publish_all(&events);

    assert!(errors.is_empty());
    let received_events = received_events
        .lock()
        .expect("received event log should not be poisoned");
    assert_eq!(received_events.as_slice(), ["actor.created"]);
}

#[test]
fn actor_created_creates_bank_account_for_actor_uid() {
    let mut handler = BankActorCreatedHandler;
    let actor = Actor::from_snapshot(ActorSnapshot::new("76561198000000000", "Tester"));
    let event =
        DomainEvent::ActorCreated(ActorCreated::new(actor, ActorStartingConfig::default()));

    assert!(handler.handle(&event).is_ok());
}

#[test]
fn actor_created_creates_garage_for_actor_uid() {
    let mut handler = VGarageActorCreatedHandler::default();
    let actor = Actor::from_snapshot(ActorSnapshot::new("steam:local-dev", "Tester"));
    let mut starting = ActorStartingConfig::default();
    starting.virtual_garage.cars = vec!["B_Quadbike_01_F".to_string()];
    let event = DomainEvent::ActorCreated(ActorCreated::new(actor, starting));

    assert!(handler.handle(&event).is_ok());
}

#[test]
fn actor_created_creates_locker_for_actor_uid() {
    let mut handler = VLockerActorCreatedHandler::default();
    let actor = Actor::from_snapshot(ActorSnapshot::new("steam:local-dev", "Tester"));
    let mut starting = ActorStartingConfig::default();
    starting.virtual_arsenal.weapons = vec!["hgun_P07_F".to_string()];
    let event = DomainEvent::ActorCreated(ActorCreated::new(actor, starting));

    assert!(handler.handle(&event).is_ok());
}
