//! Paying for services from the player's bank account.
use vstd::prelude::*;
use crate::models::bank::PlayerBankProfileModel;
use crate::models::money::Money;
use crate::models::service::{receipt_is, ServiceKind, ServiceReceipt};
use crate::repositories::bank::BankRepository;
use crate::services::bank::{charged, withdraw_error, BankService};
use crate::shared::error::ServiceError;
use crate::shared::helper::{validate_plate, validate_uid};
use crate::text::blank;

verus! {

/// `after` is `before` with the account of `uid` charged `amount`, and no
/// other profile changed.
pub open spec fn paid(
    before: Map<Seq<char>, PlayerBankProfileModel>,
    after: Map<Seq<char>, PlayerBankProfileModel>,
    uid: Seq<char>,
    amount: int,
) -> bool {
    &&& after.contains_key(uid)
    &&& charged(before[uid], after[uid], amount)
    &&& after == before.insert(uid, after[uid])
}

/// Charges `amount` to the account of `uid`; a refusal of the bank is the
/// service's error.
pub fn charge_account<R: BankRepository>(bank: &mut BankService<R>, uid: &str, amount: Money) -> (r:
    Result<(), ServiceError>)
    requires
        old(bank).repository.inv(),
    ensures
        final(bank).repository.inv(),
        match withdraw_error(old(bank).profiles(), uid@, amount@) {
            Some(e) => r == Err::<(), ServiceError>(ServiceError::Bank(e)) && final(bank).profiles()
                == old(bank).profiles(),
            None => r is Ok && paid(old(bank).profiles(), final(bank).profiles(), uid@, amount@),
        },
{
    match bank.withdraw_from_account(uid, amount) {
        Ok(_) => Ok(()),
        Err(e) => Err(ServiceError::Bank(e)),
    }
}

/// The price of a service in cents, or why it has none.
pub open spec fn price_of(total: Result<Money, ServiceError>) -> Result<int, ServiceError> {
    match total {
        Ok(m) => Ok(m@),
        Err(e) => Err(e),
    }
}

/// The outcome of a service of `kind` on the vehicle `plate` of `uid`
/// priced `total`: the uid and the plate must not be blank and the price
/// must be there; then it is charged to the player's account.
pub open spec fn priced_outcome(
    before: Map<Seq<char>, PlayerBankProfileModel>,
    after: Map<Seq<char>, PlayerBankProfileModel>,
    r: Result<ServiceReceipt, ServiceError>,
    uid: Seq<char>,
    plate: Seq<char>,
    kind: ServiceKind,
    total: Result<int, ServiceError>,
    description: Seq<char>,
) -> bool {
    if blank(uid) {
        r == Err::<ServiceReceipt, ServiceError>(ServiceError::InvalidUid) && after == before
    } else if blank(plate) {
        r == Err::<ServiceReceipt, ServiceError>(ServiceError::InvalidPlate) && after == before
    } else {
        match total {
            Err(e) => r == Err::<ServiceReceipt, ServiceError>(e) && after == before,
            Ok(amount) => match withdraw_error(before, uid, amount) {
                Some(e) => r == Err::<ServiceReceipt, ServiceError>(ServiceError::Bank(e))
                    && after == before,
                None => r matches Ok(rec) && receipt_is(rec, uid, kind, amount, description)
                    && paid(before, after, uid, amount),
            },
        }
    }
}

/// Completes a service of `kind` on the vehicle `plate`: checks the uid and
/// the plate, takes the price `total` and charges it to the player's
/// account, and writes the receipt with `description`.
pub fn pay_for_service<R: BankRepository>(
    bank: &mut BankService<R>,
    uid: &str,
    plate: &str,
    kind: ServiceKind,
    total: Result<Money, ServiceError>,
    description: String,
) -> (r: Result<ServiceReceipt, ServiceError>)
    requires
        old(bank).repository.inv(),
    ensures
        final(bank).repository.inv(),
        priced_outcome(
            old(bank).profiles(),
            final(bank).profiles(),
            r,
            uid@,
            plate@,
            kind,
            price_of(total),
            description@,
        ),
{
    validate_uid(uid)?;
    validate_plate(plate)?;
    let amount = total?;
    charge_account(bank, uid, amount)?;
    Ok(ServiceReceipt { uid: String::from_str(uid), kind, amount: amount.to_amount(), description })
}

} // verus!
