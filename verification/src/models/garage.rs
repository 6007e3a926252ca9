//! What the library decides about physical garages. Vehicles keep fuel,
//! damage and hit point values as floats and stay outside the library; the
//! labels of hit points are plain text.
use vstd::prelude::*;
use crate::models::names::copy_names;
use crate::shared::error::GarageError;
use crate::text::{blank, is_blank};

verus! {

/// The hit point labels after filling in what an older client left out:
/// when the names are missing and there is one selection per value, the
/// names are the selections; when the selections are missing and there is
/// one name per value, the selections are the names.
pub open spec fn normalized_labels(
    names: Seq<String>,
    selections: Seq<String>,
    value_count: nat,
) -> (Seq<String>, Seq<String>) {
    if names.len() == 0 && selections.len() != 0 && selections.len() == value_count {
        (selections, selections)
    } else if selections.len() == 0 && names.len() != 0 && names.len() == value_count {
        (names, names)
    } else {
        (names, selections)
    }
}

/// Fills in the hit point names or selections that an older client left
/// out, given how many hit point values there are.
pub fn normalize_hit_point_labels(
    names: &mut Vec<String>,
    selections: &mut Vec<String>,
    value_count: usize,
)
    ensures
        (final(names)@, final(selections)@) == normalized_labels(
            old(names)@,
            old(selections)@,
            value_count as nat,
        ),
{
    if names.len() == 0 && selections.len() != 0 && selections.len() == value_count {
        *names = copy_names(selections);
    }
    if selections.len() == 0 && names.len() != 0 && names.len() == value_count {
        *selections = copy_names(names);
    }
}

/// The checks of a vehicle that need no float: a plate and a classname
/// that are not blank, the plate first.
pub fn check_vehicle_labels(plate: &str, classname: &str) -> (r: Result<(), GarageError>)
    ensures
        r == (if blank(plate@) {
            Err(GarageError::InvalidPlate)
        } else if blank(classname@) {
            Err(GarageError::InvalidClassname)
        } else {
            Ok(())
        }),
{
    if is_blank(plate) {
        return Err(GarageError::InvalidPlate);
    }
    if is_blank(classname) {
        return Err(GarageError::InvalidClassname);
    }
    Ok(())
}

/// The check of hit points that needs no float: one name and one selection
/// per value.
pub fn check_hit_point_counts(names: usize, selections: usize, values: usize) -> (r: Result<
    (),
    GarageError,
>)
    ensures
        r == (if names != selections || names != values {
            Err(GarageError::InvalidHitPoints)
        } else {
            Ok(())
        }),
{
    if names != selections || names != values {
        return Err(GarageError::InvalidHitPoints);
    }
    Ok(())
}

} // verus!
