pub mod notification;
pub mod actor;
pub mod bank;
pub mod locker;
pub mod medical;
pub mod organization;
pub mod payment;
pub mod rearm;
pub mod refuel;
pub mod repair;
pub mod v_garage;
pub mod v_locker;

pub use actor::{ActorInitResult, ActorService};
pub use bank::{create_actor_account, BankService};
pub use locker::LockerService;
pub use medical::MedicalService;
pub use notification::NotificationService;
pub use organization::OrganizationService;
pub use payment::pay_for_service;
pub use rearm::RearmService;
pub use refuel::FuelService;
pub use repair::RepairService;
pub use v_garage::VGarageService;
pub use v_locker::VLockerService;
