//! Beer nutrition: the error type of the energy-label calculations, which are
//! floating point and run outside the verified library.

use vstd::prelude::*;

verus! {

/// Errors returned by the nutrition calculations.
#[derive(Clone, Debug)]
pub enum NutritionError {
    /// A numeric input failed a precondition (the message describes which).
    Invalid(String),
}

impl NutritionError {
    /// The message shown for this error.
    pub fn message(&self) -> (m: &str)
        ensures
            self matches NutritionError::Invalid(s) && m@ == s@,
    {
        match self {
            NutritionError::Invalid(s) => s.as_str(),
        }
    }
}

} // verus!
