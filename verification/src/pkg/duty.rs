//! UK HMRC beer duty: which jurisdictions can be calculated. The bracket
//! arithmetic is floating point and runs outside the verified library.

use vstd::prelude::*;
use crate::text::{str_eq, to_uppercase, uppercase};

verus! {

/// Errors returned by the duty calculations.
#[derive(Clone, Debug)]
pub enum DutyError {
    /// An input failed a precondition (the message describes which).
    Invalid(String),
}

impl DutyError {
    /// The message shown for this error.
    pub fn message(&self) -> (m: &str)
        ensures
            self matches DutyError::Invalid(s) && m@ == s@,
    {
        match self {
            DutyError::Invalid(s) => s.as_str(),
        }
    }
}

/// Checks that duty can be calculated for `jurisdiction`: only `GB` (in any
/// case). Any other is refused, naming it upper-cased.
pub fn check_jurisdiction(jurisdiction: &str) -> (r: Result<(), DutyError>)
    ensures
        r is Ok <==> uppercase(jurisdiction@) == "GB"@,
        r matches Err(DutyError::Invalid(m)) ==> m@ == "duty calculation requested for unsupported jurisdiction "@
            + uppercase(jurisdiction@) + "; returning 0"@,
{
    let upper = to_uppercase(jurisdiction);
    if str_eq(upper.as_str(), "GB") {
        Ok(())
    } else {
        let m = String::from_str("duty calculation requested for unsupported jurisdiction ").concat(
            upper.as_str(),
        ).concat("; returning 0");
        Err(DutyError::Invalid(m))
    }
}

} // verus!
