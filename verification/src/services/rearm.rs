//! Rearming vehicles, priced by the unit and paid from the bank account.
use vstd::prelude::*;
use crate::models::money::Money;
use crate::models::service::{quote_is, ServiceKind, ServiceQuote, ServiceReceipt};
use crate::repositories::bank::BankRepository;
use crate::services::bank::BankService;
use crate::services::payment::{pay_for_service, priced_outcome};
use crate::shared::error::ServiceError;
use crate::text::{append_decimal, decimal};

verus! {

/// The price of one rearm unit: 75.00.
pub const REARM_UNIT_PRICE_CENTS: i64 = 7500;

/// The price of `units` rearm units, in cents.
pub open spec fn rearm_price(units: u32) -> int {
    units * REARM_UNIT_PRICE_CENTS
}

/// How a rearm of `units` units is described.
pub open spec fn rearm_text(units: u32) -> Seq<char> {
    decimal(units as nat) + " rearm units"@
}

fn rearm_total(units: u32) -> (r: Result<Money, ServiceError>)
    ensures
        units == 0 ==> r == Err::<Money, ServiceError>(ServiceError::InvalidAmount),
        units != 0 ==> (r matches Ok(m) && m@ == rearm_price(units)),
{
    if units == 0 {
        return Err(ServiceError::InvalidAmount);
    }
    Ok(Money::from_cents((units as i64) * REARM_UNIT_PRICE_CENTS))
}

fn describe(units: u32) -> (r: String)
    ensures
        r@ == rearm_text(units),
{
    let mut text = String::new();
    append_decimal(&mut text, units as u64);
    text.append(" rearm units");
    proof {
        assert(text@ =~= rearm_text(units));
    }
    text
}

pub struct RearmService<R> {
    pub bank: BankService<R>,
}

impl<R: BankRepository> RearmService<R> {
    pub fn new(bank: BankService<R>) -> (r: Self)
        ensures
            r.bank == bank,
    {
        RearmService { bank }
    }

    /// The price of `units` rearm units: 75.00 each.
    pub fn quote(&self, units: u32) -> (r: Result<ServiceQuote, ServiceError>)
        ensures
            units == 0 ==> r == Err::<ServiceQuote, ServiceError>(ServiceError::InvalidAmount),
            units != 0 ==> (r matches Ok(q) && quote_is(
                q,
                ServiceKind::Rearm,
                rearm_price(units),
                rearm_text(units),
            )),
    {
        let amount = rearm_total(units)?;
        Ok(
            ServiceQuote {
                kind: ServiceKind::Rearm,
                amount: amount.to_amount(),
                description: describe(units),
            },
        )
    }

    /// Rearms the vehicle `plate` with `units` units and charges the price to
    /// the player's account.
    pub fn complete(&mut self, uid: &str, plate: &str, units: u32) -> (r: Result<
        ServiceReceipt,
        ServiceError,
    >)
        requires
            old(self).bank.repository.inv(),
        ensures
            final(self).bank.repository.inv(),
            priced_outcome(
                old(self).bank.profiles(),
                final(self).bank.profiles(),
                r,
                uid@,
                plate@,
                ServiceKind::Rearm,
                if units == 0 {
                    Err(ServiceError::InvalidAmount)
                } else {
                    Ok(rearm_price(units))
                },
                rearm_text(units) + " for "@ + plate@,
            ),
    {
        let mut description = describe(units);
        description.append(" for ");
        description.append(plate);
        pay_for_service(&mut self.bank, uid, plate, ServiceKind::Rearm, rearm_total(units), description)
    }
}

} // verus!
