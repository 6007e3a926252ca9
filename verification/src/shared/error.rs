//! Error types of the library, each with the text that describes it.
use vstd::prelude::*;

verus! {

/// Errors of bank accounts and bank operations.
#[derive(Debug, Clone, Copy, PartialEq, Eq, Structural)]
pub enum BankError {
    InvalidAmount,
    InvalidActorUid,
    AccountNotFound,
    InsufficientFunds,
}

/// Errors of actor records.
#[derive(Debug, Clone, PartialEq, Eq)]
pub enum ActorError {
    InvalidUid,
    InvalidName,
    Repository(String),
}

/// Errors of virtual lockers (unlocked equipment).
#[derive(Debug, Clone, PartialEq, Eq)]
pub enum VLockerError {
    InvalidUid,
    Repository(String),
}

/// Errors of virtual garages (unlocked vehicles).
#[derive(Debug, Clone, PartialEq, Eq)]
pub enum VGarageError {
    InvalidUid,
    Repository(String),
}

/// Errors of physical garages and the vehicles stored in them.
#[derive(Debug, Clone, PartialEq, Eq)]
pub enum GarageError {
    InvalidUid,
    InvalidPlate,
    InvalidClassname,
    InvalidFuel,
    InvalidDamage,
    InvalidHitPoints,
    Repository(String),
}

/// Errors of lockers and the items stored in them.
#[derive(Debug, Clone, PartialEq, Eq)]
pub enum LockerError {
    InvalidUid,
    InvalidCategory,
    InvalidClassname,
    InvalidAmount,
    Repository(String),
}

/// Errors of organizations, their members, invites and paydays.
#[derive(Debug, Clone, PartialEq, Eq)]
pub enum OrganizationError {
    InvalidId,
    InvalidUid,
    InvalidAmount,
    NotFound,
    InviteNotFound,
    InviteeMismatch,
    InviteNotPending,
    AlreadyMember,
    NotMember,
    NotCeo,
    LastCeoCannotLeave,
    CannotLeaveDefaultOrg,
    RestrictedDefaultOrgAction,
    EmptyPayday,
    InsufficientFunds,
    Repository(String),
}

/// Errors of the paid vehicle and medical services.
#[derive(Debug, Clone, PartialEq, Eq)]
pub enum ServiceError {
    InvalidUid,
    InvalidPlate,
    InvalidAmount,
    InvalidDamage,
    Bank(BankError),
}

/// Errors of player notifications.
#[derive(Debug, Clone, PartialEq, Eq)]
pub enum NotificationError {
    InvalidUid,
    InvalidId,
    NotFound,
    Repository(String),
}

/// A domain event handler that failed.
#[derive(Debug, PartialEq, Eq)]
pub enum EventError {
    HandlerFailed { handler: &'static str, event: &'static str, message: String },
}

impl Clone for EventError {
    fn clone(&self) -> (r: Self)
        ensures
            r == *self,
    {
        match self {
            EventError::HandlerFailed { handler, event, message } => EventError::HandlerFailed {
                handler: *handler,
                event: *event,
                message: message.clone(),
            },
        }
    }
}

/// Turns a storage failure into its text.
pub trait StorageError<T>: Sized {
    spec fn storage_text(error: Self) -> Option<Seq<char>>;

    fn map_storage_error(self) -> (r: Result<T, String>)
        ensures
            Self::storage_text(self) is None ==> r is Ok,
            Self::storage_text(self) matches Some(text) ==> (r matches Err(m) && m@ == text);
}

impl<T> StorageError<T> for Result<T, String> {
    open spec fn storage_text(error: Self) -> Option<Seq<char>> {
        match error {
            Ok(_) => None,
            Err(message) => Some(message@),
        }
    }

    fn map_storage_error(self) -> (r: Result<T, String>) {
        self
    }
}

pub open spec fn bank_error_text(e: BankError) -> Seq<char> {
    match e {
        BankError::InvalidAmount => "invalid transaction amount"@,
        BankError::InvalidActorUid => "invalid actor uid"@,
        BankError::AccountNotFound => "bank account not found"@,
        BankError::InsufficientFunds => "insufficient funds"@,
    }
}

impl BankError {
    /// The text that describes the error.
    pub fn message(&self) -> (r: String)
        ensures
            r@ == bank_error_text(*self),
    {
        match self {
            BankError::InvalidAmount => String::from_str("invalid transaction amount"),
            BankError::InvalidActorUid => String::from_str("invalid actor uid"),
            BankError::AccountNotFound => String::from_str("bank account not found"),
            BankError::InsufficientFunds => String::from_str("insufficient funds"),
        }
    }
}

pub open spec fn actor_error_text(e: ActorError) -> Seq<char> {
    match e {
        ActorError::InvalidUid => "invalid actor uid"@,
        ActorError::InvalidName => "invalid actor name"@,
        ActorError::Repository(error) => "actor repository error: "@ + error@,
    }
}

impl ActorError {
    /// The text that describes the error.
    pub fn message(&self) -> (r: String)
        ensures
            r@ == actor_error_text(*self),
    {
        match self {
            ActorError::InvalidUid => String::from_str("invalid actor uid"),
            ActorError::InvalidName => String::from_str("invalid actor name"),
            ActorError::Repository(error) => {
                let mut text = String::from_str("actor repository error: ");
                text.append(error.as_str());
                text
            },
        }
    }
}

pub open spec fn v_locker_error_text(e: VLockerError) -> Seq<char> {
    match e {
        VLockerError::InvalidUid => "invalid virtual locker uid"@,
        VLockerError::Repository(error) => "virtual locker repository error: "@ + error@,
    }
}

impl VLockerError {
    /// The text that describes the error.
    pub fn message(&self) -> (r: String)
        ensures
            r@ == v_locker_error_text(*self),
    {
        match self {
            VLockerError::InvalidUid => String::from_str("invalid virtual locker uid"),
            VLockerError::Repository(error) => {
                let mut text = String::from_str("virtual locker repository error: ");
                text.append(error.as_str());
                text
            },
        }
    }
}

pub open spec fn v_garage_error_text(e: VGarageError) -> Seq<char> {
    match e {
        VGarageError::InvalidUid => "invalid virtual garage uid"@,
        VGarageError::Repository(error) => "virtual garage repository error: "@ + error@,
    }
}

impl VGarageError {
    /// The text that describes the error.
    pub fn message(&self) -> (r: String)
        ensures
            r@ == v_garage_error_text(*self),
    {
        match self {
            VGarageError::InvalidUid => String::from_str("invalid virtual garage uid"),
            VGarageError::Repository(error) => {
                let mut text = String::from_str("virtual garage repository error: ");
                text.append(error.as_str());
                text
            },
        }
    }
}

pub open spec fn garage_error_text(e: GarageError) -> Seq<char> {
    match e {
        GarageError::InvalidUid => "invalid garage uid"@,
        GarageError::InvalidPlate => "invalid vehicle plate"@,
        GarageError::InvalidClassname => "invalid vehicle classname"@,
        GarageError::InvalidFuel => "invalid vehicle fuel"@,
        GarageError::InvalidDamage => "invalid vehicle damage"@,
        GarageError::InvalidHitPoints => "invalid vehicle hit points"@,
        GarageError::Repository(error) => "garage repository error: "@ + error@,
    }
}

impl GarageError {
    /// The text that describes the error.
    pub fn message(&self) -> (r: String)
        ensures
            r@ == garage_error_text(*self),
    {
        match self {
            GarageError::InvalidUid => String::from_str("invalid garage uid"),
            GarageError::InvalidPlate => String::from_str("invalid vehicle plate"),
            GarageError::InvalidClassname => String::from_str("invalid vehicle classname"),
            GarageError::InvalidFuel => String::from_str("invalid vehicle fuel"),
            GarageError::InvalidDamage => String::from_str("invalid vehicle damage"),
            GarageError::InvalidHitPoints => String::from_str("invalid vehicle hit points"),
            GarageError::Repository(error) => {
                let mut text = String::from_str("garage repository error: ");
                text.append(error.as_str());
                text
            },
        }
    }
}

pub open spec fn locker_error_text(e: LockerError) -> Seq<char> {
    match e {
        LockerError::InvalidUid => "invalid locker uid"@,
        LockerError::InvalidCategory => "invalid locker item category"@,
        LockerError::InvalidClassname => "invalid locker item classname"@,
        LockerError::InvalidAmount => "invalid locker item amount"@,
        LockerError::Repository(error) => "locker repository error: "@ + error@,
    }
}

impl LockerError {
    /// The text that describes the error.
    pub fn message(&self) -> (r: String)
        ensures
            r@ == locker_error_text(*self),
    {
        match self {
            LockerError::InvalidUid => String::from_str("invalid locker uid"),
            LockerError::InvalidCategory => String::from_str("invalid locker item category"),
            LockerError::InvalidClassname => String::from_str("invalid locker item classname"),
            LockerError::InvalidAmount => String::from_str("invalid locker item amount"),
            LockerError::Repository(error) => {
                let mut text = String::from_str("locker repository error: ");
                text.append(error.as_str());
                text
            },
        }
    }
}

pub open spec fn organization_error_text(e: OrganizationError) -> Seq<char> {
    match e {
        OrganizationError::InvalidId => "invalid organization id"@,
        OrganizationError::InvalidUid => "invalid player uid"@,
        OrganizationError::InvalidAmount => "invalid amount"@,
        OrganizationError::NotFound => "organization not found"@,
        OrganizationError::InviteNotFound => "invite not found"@,
        OrganizationError::InviteeMismatch => "invite belongs to another player"@,
        OrganizationError::InviteNotPending => "invite is not pending"@,
        OrganizationError::AlreadyMember => "player is already a member"@,
        OrganizationError::NotMember => "player is not a member"@,
        OrganizationError::NotCeo => "player is not the ceo"@,
        OrganizationError::LastCeoCannotLeave => "the ceo cannot leave the organization"@,
        OrganizationError::CannotLeaveDefaultOrg => "members cannot leave the default organization"@,
        OrganizationError::RestrictedDefaultOrgAction => "action is not allowed in the default organization"@,
        OrganizationError::EmptyPayday => "payday has no recipients"@,
        OrganizationError::InsufficientFunds => "insufficient organization funds"@,
        OrganizationError::Repository(error) => "organization repository error: "@ + error@,
    }
}

impl OrganizationError {
    /// The text that describes the error.
    pub fn message(&self) -> (r: String)
        ensures
            r@ == organization_error_text(*self),
    {
        match self {
            OrganizationError::InvalidId => String::from_str("invalid organization id"),
            OrganizationError::InvalidUid => String::from_str("invalid player uid"),
            OrganizationError::InvalidAmount => String::from_str("invalid amount"),
            OrganizationError::NotFound => String::from_str("organization not found"),
            OrganizationError::InviteNotFound => String::from_str("invite not found"),
            OrganizationError::InviteeMismatch => String::from_str("invite belongs to another player"),
            OrganizationError::InviteNotPending => String::from_str("invite is not pending"),
            OrganizationError::AlreadyMember => String::from_str("player is already a member"),
            OrganizationError::NotMember => String::from_str("player is not a member"),
            OrganizationError::NotCeo => String::from_str("player is not the ceo"),
            OrganizationError::LastCeoCannotLeave => String::from_str("the ceo cannot leave the organization"),
            OrganizationError::CannotLeaveDefaultOrg => String::from_str("members cannot leave the default organization"),
            OrganizationError::RestrictedDefaultOrgAction => String::from_str("action is not allowed in the default organization"),
            OrganizationError::EmptyPayday => String::from_str("payday has no recipients"),
            OrganizationError::InsufficientFunds => String::from_str("insufficient organization funds"),
            OrganizationError::Repository(error) => {
                let mut text = String::from_str("organization repository error: ");
                text.append(error.as_str());
                text
            },
        }
    }
}

pub open spec fn notification_error_text(e: NotificationError) -> Seq<char> {
    match e {
        NotificationError::InvalidUid => "invalid notification uid"@,
        NotificationError::InvalidId => "invalid notification id"@,
        NotificationError::NotFound => "notification not found"@,
        NotificationError::Repository(error) => "notification repository error: "@ + error@,
    }
}

impl NotificationError {
    /// The text that describes the error.
    pub fn message(&self) -> (r: String)
        ensures
            r@ == notification_error_text(*self),
    {
        match self {
            NotificationError::InvalidUid => String::from_str("invalid notification uid"),
            NotificationError::InvalidId => String::from_str("invalid notification id"),
            NotificationError::NotFound => String::from_str("notification not found"),
            NotificationError::Repository(error) => {
                let mut text = String::from_str("notification repository error: ");
                text.append(error.as_str());
                text
            },
        }
    }
}
pub open spec fn service_error_text(e: ServiceError) -> Seq<char> {
    match e {
        ServiceError::InvalidUid => "invalid player uid"@,
        ServiceError::InvalidPlate => "invalid vehicle plate"@,
        ServiceError::InvalidAmount => "invalid service amount"@,
        ServiceError::InvalidDamage => "invalid vehicle damage"@,
        ServiceError::Bank(error) => bank_error_text(error),
    }
}

impl ServiceError {
    /// The text that describes the error.
    pub fn message(&self) -> (r: String)
        ensures
            r@ == service_error_text(*self),
    {
        match self {
            ServiceError::InvalidUid => String::from_str("invalid player uid"),
            ServiceError::InvalidPlate => String::from_str("invalid vehicle plate"),
            ServiceError::InvalidAmount => String::from_str("invalid service amount"),
            ServiceError::InvalidDamage => String::from_str("invalid vehicle damage"),
            ServiceError::Bank(error) => error.message(),
        }
    }
}

pub open spec fn event_error_text(e: EventError) -> Seq<char> {
    match e {
        EventError::HandlerFailed { handler, event, message } => "event handler "@ + handler@
            + " failed for "@ + event@ + ": "@ + message@,
    }
}

impl EventError {
    /// The text that describes the error.
    pub fn message(&self) -> (r: String)
        ensures
            r@ == event_error_text(*self),
    {
        match self {
            EventError::HandlerFailed { handler, event, message } => {
                let mut text = String::from_str("event handler ");
                text.append(handler);
                text.append(" failed for ");
                text.append(event);
                text.append(": ");
                text.append(message.as_str());
                text
            },
        }
    }
}

impl From<String> for VLockerError {
    fn from(value: String) -> (r: Self) {
        VLockerError::Repository(value)
    }
}

impl vstd::std_specs::convert::FromSpecImpl<String> for VLockerError {
    open spec fn obeys_from_spec() -> bool {
        true
    }

    open spec fn from_spec(v: String) -> VLockerError {
        VLockerError::Repository(v)
    }
}

impl From<String> for VGarageError {
    fn from(value: String) -> (r: Self) {
        VGarageError::Repository(value)
    }
}

impl vstd::std_specs::convert::FromSpecImpl<String> for VGarageError {
    open spec fn obeys_from_spec() -> bool {
        true
    }

    open spec fn from_spec(v: String) -> VGarageError {
        VGarageError::Repository(v)
    }
}

} // verus!
