pub mod actor;
pub mod actor_event;
pub mod bank;
pub mod domain_event;
pub mod fuel;
pub mod garage;
pub mod locker;
pub mod locker_event;
pub mod money;
pub mod names;
pub mod notification;
pub mod organization;
pub mod organization_event;
pub mod service;
pub mod v_garage;
pub mod v_locker;

pub use actor::{
    Actor, ActorLifeState, ActorRank, ActorSnapshot, ActorStance, ActorStartingConfig,
};
pub use actor_event::{ActorCreated, ActorDisconnected};
pub use bank::{
    BankAccount, BankAccountView, BankPin, BankTransaction, BankTransactionView, PlayerBankProfile,
    PlayerBankProfileView,
};
pub use locker::{Locker, LockerItem, LockerItemModel, PlayerLocker, PlayerLockerModel};
pub use domain_event::DomainEvent;
pub use locker_event::LockerTransferCommitted;
pub use money::{Money, MoneyAmount};
pub use notification::{AuditAction, AuditRecord, Notification, NotificationKind};
pub use organization::{
    InviteModel, MemberModel, Organization, OrganizationAction, OrganizationDisband,
    OrganizationInvite, OrganizationInviteStatus, OrganizationKind, OrganizationMember,
    OrganizationMemberTransfer, OrganizationModel, OrganizationPayday, OrganizationPaydayPlan,
    OrganizationRole, OrganizationView,
};
pub use organization_event::{
    OrganizationCreated, OrganizationDisbanded, OrganizationInviteAccepted,
    OrganizationInviteCreated, OrganizationInviteDeclined, OrganizationMemberKicked,
    OrganizationMemberLeft, OrganizationPaydayIssued,
};
pub use service::{ServiceKind, ServiceQuote, ServiceReceipt};
pub use v_garage::{PlayerVGarage, VGarage, VGarageModel, VehicleCategory};
pub use v_locker::{EquipmentCategory, PlayerVLocker, VLocker, VLockerModel};
pub use fuel::FuelType;
