//! Events about lockers.
use vstd::prelude::*;

verus! {

/// Items moved into a player's locker: how many kinds and how many in all.
#[derive(Debug, Clone, PartialEq, Eq)]
pub struct LockerTransferCommitted {
    pub uid: String,
    pub distinct_items: usize,
    pub total_quantity: u64,
}

impl LockerTransferCommitted {
    pub fn new(uid: &str, distinct_items: usize, total_quantity: u64) -> (r: Self)
        ensures
            r.uid@ == uid@,
            r.distinct_items == distinct_items,
            r.total_quantity == total_quantity,
    {
        LockerTransferCommitted { uid: uid.to_owned(), distinct_items, total_quantity }
    }
}

} // verus!
