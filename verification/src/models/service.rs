//! Quotes and receipts of paid services.
use vstd::prelude::*;
use crate::models::money::{money_text, MoneyAmount};

verus! {

#[derive(Debug, Clone, Copy, PartialEq, Eq, Structural)]
pub enum ServiceKind {
    Refuel,
    Repair,
    Rearm,
    MedicalRespawn,
    MedicalHeal,
}

pub open spec fn service_kind_text(kind: ServiceKind) -> Seq<char> {
    match kind {
        ServiceKind::Refuel => "refuel"@,
        ServiceKind::Repair => "repair"@,
        ServiceKind::Rearm => "rearm"@,
        ServiceKind::MedicalRespawn => "medical_respawn"@,
        ServiceKind::MedicalHeal => "medical_heal"@,
    }
}

impl ServiceKind {
    /// The name of the service, as it is shown.
    pub fn as_text(&self) -> (r: String)
        ensures
            r@ == service_kind_text(*self),
    {
        match self {
            ServiceKind::Refuel => String::from_str("refuel"),
            ServiceKind::Repair => String::from_str("repair"),
            ServiceKind::Rearm => String::from_str("rearm"),
            ServiceKind::MedicalRespawn => String::from_str("medical_respawn"),
            ServiceKind::MedicalHeal => String::from_str("medical_heal"),
        }
    }
}

/// The price of a service before it is done.
#[derive(Debug, PartialEq, Eq)]
pub struct ServiceQuote {
    pub kind: ServiceKind,
    pub amount: MoneyAmount,
    pub description: String,
}

/// A service that was done and paid for.
#[derive(Debug, PartialEq, Eq)]
pub struct ServiceReceipt {
    pub uid: String,
    pub kind: ServiceKind,
    pub amount: MoneyAmount,
    pub description: String,
}

/// A quote of `kind` for `amount` cents, described by `description`.
pub open spec fn quote_is(q: ServiceQuote, kind: ServiceKind, amount: int, description: Seq<char>) -> bool {
    &&& q.kind == kind
    &&& q.amount@ == money_text(amount)
    &&& q.description@ == description
}

/// A receipt of `kind` for `uid` over `amount` cents, described by
/// `description`.
pub open spec fn receipt_is(
    r: ServiceReceipt,
    uid: Seq<char>,
    kind: ServiceKind,
    amount: int,
    description: Seq<char>,
) -> bool {
    &&& r.uid@ == uid
    &&& r.kind == kind
    &&& r.amount@ == money_text(amount)
    &&& r.description@ == description
}

} // verus!
