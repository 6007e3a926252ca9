pub mod notification;
pub mod actor;
pub mod bank;
pub mod locker;
pub mod organization;
pub mod v_garage;
pub mod v_locker;

pub use actor::{ActorRepository, InMemoryActorRepository};
pub use bank::{BankRepository, InMemoryBankRepository};
pub use locker::{InMemoryLockerRepository, LockerRepository};
pub use notification::{InMemoryNotificationRepository, NotificationRepository};
pub use organization::{InMemoryOrganizationRepository, OrganizationRepository};
pub use v_garage::{InMemoryVGarageRepository, VGarageRepository};
pub use v_locker::{InMemoryVLockerRepository, VLockerRepository};
