pub mod bus;
pub mod handlers;

pub use bus::{DomainEventHandler, EventBus, EventPublisher};
pub use handlers::{
    BankActorCreatedHandler, LockerActorCreatedHandler, VGarageActorCreatedHandler, VLockerActorCreatedHandler,
};
