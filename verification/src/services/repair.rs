//! Vehicle repairs, paid from the player's bank account. The price follows
//! from the damage ratio, a float, and is worked out outside the library;
//! `pay_for_service` checks and charges it.
use vstd::prelude::*;
use crate::repositories::bank::BankRepository;
use crate::services::bank::BankService;

verus! {

pub struct RepairService<R> {
    pub bank: BankService<R>,
}

impl<R: BankRepository> RepairService<R> {
    pub fn new(bank: BankService<R>) -> (r: Self)
        ensures
            r.bank == bank,
    {
        RepairService { bank }
    }
}

} // verus!
