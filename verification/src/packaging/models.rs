//! Packaging vocabularies and payload checks: container formats, movement
//! types, which movements draw stock, and the small request payloads.

use vstd::prelude::*;
use crate::platform::errors::{validation_view, ApiError};
use crate::text::{chars_of, list_contains, str_views};

verus! {

/// The container formats a run can be packaged into.
pub open spec fn formats_spec() -> Seq<Seq<char>> {
    seq!["can"@, "bottle"@, "keg"@, "cask"@, "polypin"@, "bag_in_box"@, "other"@]
}

/// The kinds of distribution movement.
pub open spec fn movement_types_spec() -> Seq<Seq<char>> {
    seq!["sale"@, "taproom_transfer"@, "internal_transfer"@, "sample"@, "return"@, "disposal"@]
}

/// The movement types that reduce available stock (all but `return`).
pub open spec fn outbound_spec() -> Seq<Seq<char>> {
    seq!["sale"@, "taproom_transfer"@, "internal_transfer"@, "sample"@, "disposal"@]
}

/// The container formats.
pub fn formats() -> (v: Vec<&'static str>)
    ensures
        str_views(v@) == formats_spec(),
{
    let v = vec!["can", "bottle", "keg", "cask", "polypin", "bag_in_box", "other"];
    assert(str_views(v@) =~= formats_spec());
    v
}

/// The movement types.
pub fn movement_types() -> (v: Vec<&'static str>)
    ensures
        str_views(v@) == movement_types_spec(),
{
    let v = vec!["sale", "taproom_transfer", "internal_transfer", "sample", "return", "disposal"];
    assert(str_views(v@) =~= movement_types_spec());
    v
}

/// Movement types that reduce available stock.
pub fn outbound_movements() -> (v: Vec<&'static str>)
    ensures
        str_views(v@) == outbound_spec(),
{
    let v = vec!["sale", "taproom_transfer", "internal_transfer", "sample", "disposal"];
    assert(str_views(v@) =~= outbound_spec());
    v
}

/// Whether a movement of this type reduces available stock.
pub fn is_outbound(movement_type: &str) -> (b: bool)
    ensures
        b == outbound_spec().contains(movement_type@),
{
    let v = outbound_movements();
    list_contains(&v, movement_type)
}

/// Validates a container format, else the `invalid_format` code.
pub fn validate_format(v: &str) -> (r: Result<(), &'static str>)
    ensures
        r is Ok <==> formats_spec().contains(v@),
        r matches Err(code) ==> code@ == "invalid_format"@,
{
    let all = formats();
    if list_contains(&all, v) {
        Ok(())
    } else {
        Err("invalid_format")
    }
}

/// Validates a movement type, else the `invalid_movement_type` code.
pub fn validate_movement_type(v: &str) -> (r: Result<(), &'static str>)
    ensures
        r is Ok <==> movement_types_spec().contains(v@),
        r matches Err(code) ==> code@ == "invalid_movement_type"@,
{
    let all = movement_types();
    if list_contains(&all, v) {
        Ok(())
    } else {
        Err("invalid_movement_type")
    }
}

/// Payload to void a distribution movement.
#[derive(Clone, Debug)]
pub struct VoidMovementRequest {
    /// Why the movement is void, for example a data-entry mistake.
    pub reason: String,
}

impl VoidMovementRequest {
    /// Checks the reason: 1 to 1000 chars, else the `length` code.
    pub fn validate(&self) -> (r: Result<(), ApiError>)
        ensures
            r is Ok <==> 1 <= self.reason@.len() <= 1000,
            r matches Err(e) ==> e@ == validation_view("reason"@, "length"@),
    {
        let n = chars_of(self.reason.as_str()).len();
        if n < 1 || n > 1000 {
            return Err(ApiError::validation("reason", "length"));
        }
        Ok(())
    }
}

/// Payload to change a packaging run's best-before date and notes.
#[derive(Clone, Debug)]
pub struct PatchPackagingRunRequest {
    pub best_before_date: Option<String>,
    pub notes: Option<String>,
}

impl Default for PatchPackagingRunRequest {
    fn default() -> (r: Self)
        ensures
            r.best_before_date is None && r.notes is None,
    {
        PatchPackagingRunRequest { best_before_date: None, notes: None }
    }
}

/// The first field of a new run that fails its check, with the check's
/// code: a known format, a unit volume and quantity of at least 1, and a
/// lot number and packaging date that are not empty.
pub open spec fn run_violation(format: Seq<char>, unit_volume_ml: i32, quantity: i32, lot_number: Seq<char>, packaged_at: Seq<char>) -> Option<(Seq<char>, Seq<char>)> {
    if !formats_spec().contains(format) {
        Some(("format"@, "invalid_format"@))
    } else if unit_volume_ml < 1 {
        Some(("unit_volume_ml"@, "range"@))
    } else if quantity < 1 {
        Some(("quantity"@, "range"@))
    } else if lot_number.len() < 1 {
        Some(("lot_number"@, "length"@))
    } else if packaged_at.len() < 1 {
        Some(("packaged_at"@, "length"@))
    } else {
        None
    }
}

/// Checks a new packaging run's fields, reporting the first failing one.
pub fn validate_run(format: &str, unit_volume_ml: i32, quantity: i32, lot_number: &str, packaged_at: &str) -> (r: Result<(), ApiError>)
    ensures
        r is Ok <==> run_violation(format@, unit_volume_ml, quantity, lot_number@, packaged_at@) is None,
        r matches Err(e) ==> run_violation(format@, unit_volume_ml, quantity, lot_number@, packaged_at@) matches Some(v) && e@ == validation_view(v.0, v.1),
{
    if validate_format(format).is_err() {
        return Err(ApiError::validation("format", "invalid_format"));
    }
    if unit_volume_ml < 1 {
        return Err(ApiError::validation("unit_volume_ml", "range"));
    }
    if quantity < 1 {
        return Err(ApiError::validation("quantity", "range"));
    }
    if lot_number.is_empty() {
        return Err(ApiError::validation("lot_number", "length"));
    }
    if packaged_at.is_empty() {
        return Err(ApiError::validation("packaged_at", "length"));
    }
    Ok(())
}

/// The first field of a new movement that fails its check, with the check's
/// code: a known type, a quantity of at least 1, a destination.
pub open spec fn movement_violation(movement_type: Seq<char>, quantity: i32, to_location: Seq<char>) -> Option<(Seq<char>, Seq<char>)> {
    if !movement_types_spec().contains(movement_type) {
        Some(("movement_type"@, "invalid_movement_type"@))
    } else if quantity < 1 {
        Some(("quantity"@, "range"@))
    } else if to_location.len() < 1 {
        Some(("to_location"@, "length"@))
    } else {
        None
    }
}

/// Checks a new movement's fields, reporting the first failing one.
pub fn validate_movement(movement_type: &str, quantity: i32, to_location: &str) -> (r: Result<(), ApiError>)
    ensures
        r is Ok <==> movement_violation(movement_type@, quantity, to_location@) is None,
        r matches Err(e) ==> movement_violation(movement_type@, quantity, to_location@) matches Some(v) && e@ == validation_view(v.0, v.1),
{
    if validate_movement_type(movement_type).is_err() {
        return Err(ApiError::validation("movement_type", "invalid_movement_type"));
    }
    if quantity < 1 {
        return Err(ApiError::validation("quantity", "range"));
    }
    if to_location.is_empty() {
        return Err(ApiError::validation("to_location", "length"));
    }
    Ok(())
}

} // verus!
