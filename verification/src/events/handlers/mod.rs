pub mod bank;
pub mod locker;
pub mod v_garage;
pub mod v_locker;

pub use bank::BankActorCreatedHandler;
pub use locker::LockerActorCreatedHandler;
pub use v_garage::VGarageActorCreatedHandler;
pub use v_locker::VLockerActorCreatedHandler;
