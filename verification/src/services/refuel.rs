//! Refuelling, paid from the player's bank account. The price follows from
//! litres and a price per litre, both floats, and is worked out outside the
//! library; `pay_for_service` checks and charges it.
use vstd::prelude::*;
use crate::repositories::bank::BankRepository;
use crate::services::bank::BankService;

verus! {

pub struct FuelService<R> {
    pub bank: BankService<R>,
}

impl<R: BankRepository> FuelService<R> {
    pub fn new(bank: BankService<R>) -> (r: Self)
        ensures
            r.bank == bank,
    {
        FuelService { bank }
    }
}

} // verus!
