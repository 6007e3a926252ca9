//! Shared input checks.
use vstd::prelude::*;
use crate::shared::error::ServiceError;
use crate::text::{blank, is_blank};

verus! {

/// A vehicle plate is valid when it is not blank.
pub fn validate_plate(plate: &str) -> (r: Result<(), ServiceError>)
    ensures
        r == (if blank(plate@) { Err(ServiceError::InvalidPlate) } else { Ok(()) }),
{
    if is_blank(plate) {
        return Err(ServiceError::InvalidPlate);
    }
    Ok(())
}

/// A player uid is valid when it is not blank.
pub fn validate_uid(uid: &str) -> (r: Result<(), ServiceError>)
    ensures
        r == (if blank(uid@) { Err(ServiceError::InvalidUid) } else { Ok(()) }),
{
    if is_blank(uid) {
        return Err(ServiceError::InvalidUid);
    }
    Ok(())
}

} // verus!
