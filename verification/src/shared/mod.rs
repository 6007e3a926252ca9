pub mod error;
pub mod helper;

pub use error::{
    ActorError, BankError, EventError, GarageError, LockerError, NotificationError,
    OrganizationError, ServiceError, StorageError, VGarageError, VLockerError,
};
pub use helper::{validate_plate, validate_uid};
