//! Gravity: the units and brewing standards a grain-bill calculation is
//! expressed in. The gravity arithmetic itself is floating point and runs
//! outside the verified library.

use vstd::prelude::*;

verus! {

/// Errors returned by the gravity calculations.
#[derive(Clone, Debug)]
pub enum GravityError {
    /// A numeric input failed a precondition (the message describes which).
    Invalid(String),
}

impl GravityError {
    /// The message shown for this error.
    pub fn message(&self) -> (m: &str)
        ensures
            self matches GravityError::Invalid(s) && m@ == s@,
    {
        match self {
            GravityError::Invalid(s) => s.as_str(),
        }
    }
}

/// Sucrose reference for yield-based potential conversions.
#[derive(PartialEq, Eq, Structural, Clone, Copy, Debug)]
pub enum BrewingStandard {
    /// UK standard (default).
    Iob,
    /// US imports.
    Asbc,
    /// Uses the same reference as IOB.
    Ebc,
}

/// Malt weight input unit.
#[derive(PartialEq, Eq, Structural, Clone, Copy, Debug)]
pub enum MassUnit {
    Kg,
    Lbs,
}

/// Batch volume input unit.
#[derive(PartialEq, Eq, Structural, Clone, Copy, Debug)]
pub enum VolumeUnit {
    Litres,
    UsGal,
    ImpGal,
}

/// How malt extract potential is expressed.
#[derive(PartialEq, Eq, Structural, Clone, Copy, Debug)]
pub enum PotentialUnit {
    /// Litre-degrees per kg.
    Ldk,
    /// Points per pound per gallon.
    Ppg,
    /// Percent of sucrose reference.
    Yield,
    /// Specific gravity, e.g. 1.037.
    Sg,
}

/// Which sucrose extract a yield percentage is taken of.
#[derive(PartialEq, Eq, Structural, Clone, Copy, Debug)]
pub enum SucroseReference {
    /// 386 litre-degrees per kg.
    Iob,
    /// 46.214 points per pound per gallon.
    Asbc,
}

/// Computes wort OG from grain-bill parameters under one brewing standard.
#[derive(Clone, Copy, Debug)]
pub struct Calculator {
    standard: BrewingStandard,
}

impl Calculator {
    /// Creates a calculator using the given brewing standard.
    pub fn new(standard: BrewingStandard) -> (c: Self)
        ensures
            c.standard_spec() == standard,
    {
        Calculator { standard }
    }

    /// The standard this calculator was made with.
    pub closed spec fn standard_spec(&self) -> BrewingStandard {
        self.standard
    }

    /// The standard this calculator was made with.
    pub fn standard(&self) -> (s: BrewingStandard)
        ensures
            s == self.standard_spec(),
    {
        self.standard
    }

    /// The sucrose reference of this calculator's standard: ASBC uses its
    /// own, IOB and EBC share the IOB one.
    pub fn sucrose_reference(&self) -> (r: SucroseReference)
        ensures
            r == (if self.standard_spec() == BrewingStandard::Asbc {
                SucroseReference::Asbc
            } else {
                SucroseReference::Iob
            }),
    {
        match self.standard {
            BrewingStandard::Asbc => SucroseReference::Asbc,
            BrewingStandard::Iob | BrewingStandard::Ebc => SucroseReference::Iob,
        }
    }
}

} // verus!
