//! Respawning and healing, paid from the player's bank account.
use vstd::prelude::*;
use crate::models::money::Money;
use crate::models::service::{receipt_is, ServiceKind, ServiceReceipt};
use crate::repositories::bank::BankRepository;
use crate::services::bank::{withdraw_error, BankService};
use crate::services::payment::{charge_account, paid};
use crate::shared::error::ServiceError;
use crate::shared::helper::validate_uid;
use crate::text::blank;

verus! {

/// What a full heal costs unless another fee is given: 250.00.
pub const FULL_HEAL_PRICE_CENTS: i64 = 25000;

/// What a respawn costs unless another fee is given: nothing.
pub const RESPAWN_PRICE_CENTS: i64 = 0;

/// The outcome of a medical service of `kind` for `fee` cents, described
/// by `description`: the uid must not be blank and the fee not negative;
/// a positive fee is charged to the player's account.
pub open spec fn medical_outcome(
    before: Map<Seq<char>, crate::models::bank::PlayerBankProfileModel>,
    after: Map<Seq<char>, crate::models::bank::PlayerBankProfileModel>,
    r: Result<ServiceReceipt, ServiceError>,
    uid: Seq<char>,
    fee: int,
    kind: ServiceKind,
    description: Seq<char>,
) -> bool {
    if blank(uid) {
        r == Err::<ServiceReceipt, ServiceError>(ServiceError::InvalidUid) && after == before
    } else if fee < 0 {
        r == Err::<ServiceReceipt, ServiceError>(ServiceError::InvalidAmount) && after == before
    } else if fee == 0 {
        r matches Ok(rec) && receipt_is(rec, uid, kind, 0, description) && after == before
    } else {
        match withdraw_error(before, uid, fee) {
            Some(e) => r == Err::<ServiceReceipt, ServiceError>(ServiceError::Bank(e)) && after
                == before,
            None => r matches Ok(rec) && receipt_is(rec, uid, kind, fee, description) && paid(
                before,
                after,
                uid,
                fee,
            ),
        }
    }
}

pub struct MedicalService<R> {
    pub bank: BankService<R>,
}

impl<R: BankRepository> MedicalService<R> {
    pub fn new(bank: BankService<R>) -> (r: Self)
        ensures
            r.bank == bank,
    {
        MedicalService { bank }
    }

    fn treat(&mut self, uid: &str, fee: Money, kind: ServiceKind, description: &str) -> (r: Result<
        ServiceReceipt,
        ServiceError,
    >)
        requires
            old(self).bank.repository.inv(),
        ensures
            final(self).bank.repository.inv(),
            medical_outcome(
                old(self).bank.profiles(),
                final(self).bank.profiles(),
                r,
                uid@,
                fee@,
                kind,
                description@,
            ),
    {
        validate_uid(uid)?;
        if fee.cents() < 0 {
            return Err(ServiceError::InvalidAmount);
        }
        if fee.is_positive() {
            charge_account(&mut self.bank, uid, fee)?;
        }
        Ok(
            ServiceReceipt {
                uid: String::from_str(uid),
                kind,
                amount: fee.to_amount(),
                description: String::from_str(description),
            },
        )
    }

    /// Records a respawn at the default fee, which is nothing.
    pub fn record_respawn(&mut self, uid: &str) -> (r: Result<ServiceReceipt, ServiceError>)
        requires
            old(self).bank.repository.inv(),
        ensures
            final(self).bank.repository.inv(),
            medical_outcome(
                old(self).bank.profiles(),
                final(self).bank.profiles(),
                r,
                uid@,
                RESPAWN_PRICE_CENTS as int,
                ServiceKind::MedicalRespawn,
                "player respawned after death"@,
            ),
    {
        self.record_respawn_with_fee(uid, Money::from_cents(RESPAWN_PRICE_CENTS))
    }

    /// Records a respawn and charges `respawn_price` when it is positive.
    pub fn record_respawn_with_fee(&mut self, uid: &str, respawn_price: Money) -> (r: Result<
        ServiceReceipt,
        ServiceError,
    >)
        requires
            old(self).bank.repository.inv(),
        ensures
            final(self).bank.repository.inv(),
            medical_outcome(
                old(self).bank.profiles(),
                final(self).bank.profiles(),
                r,
                uid@,
                respawn_price@,
                ServiceKind::MedicalRespawn,
                "player respawned after death"@,
            ),
    {
        self.treat(uid, respawn_price, ServiceKind::MedicalRespawn, "player respawned after death")
    }

    /// Heals fully at the default fee of 250.00.
    pub fn full_heal(&mut self, uid: &str) -> (r: Result<ServiceReceipt, ServiceError>)
        requires
            old(self).bank.repository.inv(),
        ensures
            final(self).bank.repository.inv(),
            medical_outcome(
                old(self).bank.profiles(),
                final(self).bank.profiles(),
                r,
                uid@,
                FULL_HEAL_PRICE_CENTS as int,
                ServiceKind::MedicalHeal,
                "player fully healed"@,
            ),
    {
        self.full_heal_with_fee(uid, Money::from_cents(FULL_HEAL_PRICE_CENTS))
    }

    /// Heals fully and charges `full_heal_price` when it is positive.
    pub fn full_heal_with_fee(&mut self, uid: &str, full_heal_price: Money) -> (r: Result<
        ServiceReceipt,
        ServiceError,
    >)
        requires
            old(self).bank.repository.inv(),
        ensures
            final(self).bank.repository.inv(),
            medical_outcome(
                old(self).bank.profiles(),
                final(self).bank.profiles(),
                r,
                uid@,
                full_heal_price@,
                ServiceKind::MedicalHeal,
                "player fully healed"@,
            ),
    {
        self.treat(uid, full_heal_price, ServiceKind::MedicalHeal, "player fully healed")
    }
}

} // verus!
