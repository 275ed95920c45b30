//! Hop bitterness: the canonical form and use of a hop addition, and how the
//! IBU models treat each use. The IBU arithmetic itself is floating point and
//! runs outside the verified library.

use vstd::prelude::*;
use crate::text::{lowercase, str_eq, to_lowercase};

verus! {

/// Errors returned by the bitterness calculations.
#[derive(Clone, Debug)]
pub enum BitternessError {
    /// A numeric input failed a precondition (the message describes which).
    Invalid(String),
}

impl BitternessError {
    /// The message shown for this error.
    pub fn message(&self) -> (m: &str)
        ensures
            self matches BitternessError::Invalid(s) && m@ == s@,
    {
        match self {
            BitternessError::Invalid(s) => s.as_str(),
        }
    }
}

/// The canonical hop form: `whole` becomes `leaf`, `leaf` and `extract` stay,
/// anything else is `pellet` (matched after lower-casing).
pub open spec fn form_spec(f: Seq<char>) -> Seq<char> {
    let lower = lowercase(f);
    if lower == "whole"@ {
        "leaf"@
    } else if lower == "leaf"@ || lower == "extract"@ {
        lower
    } else {
        "pellet"@
    }
}

/// The canonical hop use: one of `boil`, `whirlpool`, `dry-hop`,
/// `first-wort`, `mash` (matched after lower-casing), else `boil`.
pub open spec fn use_spec(u: Seq<char>) -> Seq<char> {
    let lower = lowercase(u);
    if lower == "whirlpool"@ || lower == "dry-hop"@ || lower == "first-wort"@ || lower == "mash"@ {
        lower
    } else {
        "boil"@
    }
}

/// Canonicalises a hop form, collapsing the `whole` alias to `leaf`.
pub fn normalise_form(f: &str) -> (r: String)
    ensures
        r@ == form_spec(f@),
{
    let lower = to_lowercase(f);
    if str_eq(lower.as_str(), "whole") {
        String::from_str("leaf")
    } else if str_eq(lower.as_str(), "leaf") || str_eq(lower.as_str(), "extract") {
        lower
    } else {
        String::from_str("pellet")
    }
}

/// Canonicalises a hop use; unknown or empty uses become `boil`.
pub fn normalise_use(u: &str) -> (r: String)
    ensures
        r@ == use_spec(u@),
{
    let lower = to_lowercase(u);
    if str_eq(lower.as_str(), "whirlpool") || str_eq(lower.as_str(), "dry-hop") || str_eq(
        lower.as_str(),
        "first-wort",
    ) || str_eq(lower.as_str(), "mash") {
        lower
    } else {
        String::from_str("boil")
    }
}

/// Whether the form takes the whole-leaf utilisation factor (`leaf` or
/// `whole`, after lower-casing).
pub fn is_leaf_form(form: &str) -> (r: bool)
    ensures
        r == (lowercase(form@) == "leaf"@ || lowercase(form@) == "whole"@),
{
    let lower = to_lowercase(form);
    str_eq(lower.as_str(), "leaf") || str_eq(lower.as_str(), "whole")
}

/// How an IBU model treats a hop addition.
#[derive(PartialEq, Eq, Structural, Clone, Copy, Debug)]
pub enum HopTiming {
    /// Dry-hop and mash additions add no bitterness.
    NoBitterness,
    /// Whirlpool additions count as a 10-minute boil.
    Whirlpool,
    /// Every other use counts its boil time.
    Boil,
}

/// How the models treat `use_` (matched exactly, as given).
pub open spec fn timing_spec(use_: Seq<char>) -> HopTiming {
    if use_ == "dry-hop"@ || use_ == "mash"@ {
        HopTiming::NoBitterness
    } else if use_ == "whirlpool"@ {
        HopTiming::Whirlpool
    } else {
        HopTiming::Boil
    }
}

/// How the IBU models treat an addition with this use.
pub fn hop_timing(use_: &str) -> (t: HopTiming)
    ensures
        t == timing_spec(use_@),
{
    if str_eq(use_, "dry-hop") || str_eq(use_, "mash") {
        HopTiming::NoBitterness
    } else if str_eq(use_, "whirlpool") {
        HopTiming::Whirlpool
    } else {
        HopTiming::Boil
    }
}

} // verus!
