//! Brewing water chemistry: the salts, forms, acids, grains and colour units
//! a treatment is described with, and which of them the calculations accept.
//! The ion arithmetic is floating point and runs outside the verified
//! library.

use vstd::prelude::*;
use crate::text::{lowercase, str_eq, to_lowercase};

verus! {

/// Errors returned by the water chemistry calculations.
#[derive(Clone, Debug)]
pub enum WaterError {
    /// An input failed a precondition (the message describes which).
    Invalid(String),
}

impl WaterError {
    /// The message shown for this error.
    pub fn message(&self) -> (m: &str)
        ensures
            self matches WaterError::Invalid(s) && m@ == s@,
    {
        match self {
            WaterError::Invalid(s) => s.as_str(),
        }
    }
}

/// A mineral salt addition.
#[derive(PartialEq, Eq, Structural, Clone, Copy, Debug)]
pub enum MineralType {
    /// CaSO4.
    Gypsum,
    /// CaCl2.
    CalciumCl,
    /// CaCO3.
    Chalk,
    /// MgSO4.
    Epsom,
    /// MgCl2.
    MagnesiumCl,
    /// NaHCO3.
    BakingSoda,
    /// NaCl.
    TableSalt,
    /// Na2SO4.
    SodiumSulfate,
    /// Ca(OH)2.
    SlakedLime,
}

/// The physical form a salt is supplied in: the bare salt, the standard
/// hydrated crystal, or an aqueous solution of given strength.
#[derive(PartialEq, Eq, Structural, Clone, Copy, Debug)]
pub enum MineralForm {
    Anhydrous,
    Hydrate,
    Liquid,
}

impl Default for MineralForm {
    fn default() -> (f: Self)
        ensures
            f == MineralForm::Hydrate,
    {
        MineralForm::Hydrate
    }
}

/// Whether a salt in this form is weighed on the anhydrous molar mass: the
/// bare salt, and a solution (dosed by the salt it contains).
pub fn weighs_anhydrous(form: MineralForm) -> (r: bool)
    ensures
        r == (form == MineralForm::Anhydrous || form == MineralForm::Liquid),
{
    match form {
        MineralForm::Anhydrous | MineralForm::Liquid => true,
        MineralForm::Hydrate => false,
    }
}

/// An acid used for acidification.
#[derive(PartialEq, Eq, Structural, Clone, Copy, Debug)]
pub enum AcidType {
    Phosphoric,
    Lactic,
    Sulfuric,
    Hydrochloric,
    /// Disables acid treatment.
    NoAcid,
}

/// Checks that an acid can be dosed; `NoAcid` has no properties to dose by.
pub fn check_acid(t: AcidType) -> (r: Result<(), WaterError>)
    ensures
        r is Ok <==> t != AcidType::NoAcid,
        r matches Err(WaterError::Invalid(m)) ==> m@ == "unknown acid type: \"none\""@,
{
    match t {
        AcidType::NoAcid => Err(WaterError::Invalid(String::from_str("unknown acid type: \"none\""))),
        _ => Ok(()),
    }
}

/// Classifies malt for mash pH prediction: pale/pilsner, caramel,
/// chocolate/black, or acidulated.
#[derive(PartialEq, Eq, Structural, Clone, Copy, Debug)]
pub enum GrainType {
    Base,
    Crystal,
    Roast,
    Acid,
}

/// A colour input unit: degrees Lovibond, SRM or EBC.
#[derive(PartialEq, Eq, Structural, Clone, Copy, Debug)]
pub enum ColourUnit {
    Lovibond,
    Srm,
    Ebc,
}

/// Ion concentrations of a reference water, in whole ppm (mg/L).
#[derive(Clone, Copy, Debug, PartialEq, Eq, Structural)]
pub struct IonProfile {
    pub calcium: u32,
    pub magnesium: u32,
    pub sodium: u32,
    pub sulfate: u32,
    pub chloride: u32,
    pub bicarbonate: u32,
}

/// A profile from its six ion values.
pub open spec fn ion_profile(calcium: u32, magnesium: u32, sodium: u32, sulfate: u32, chloride: u32, bicarbonate: u32) -> IonProfile {
    IonProfile { calcium, magnesium, sodium, sulfate, chloride, bicarbonate }
}

/// The well-known brewing waters, by lowercase name; `ro` is pure water.
pub open spec fn water_table(name: Seq<char>) -> Option<IonProfile> {
    if name == "burton"@ {
        Some(ion_profile(295, 45, 55, 725, 25, 300))
    } else if name == "dublin"@ {
        Some(ion_profile(115, 4, 12, 55, 19, 319))
    } else if name == "dortmund"@ {
        Some(ion_profile(225, 40, 60, 120, 60, 180))
    } else if name == "edinburgh"@ {
        Some(ion_profile(120, 25, 55, 140, 60, 225))
    } else if name == "london"@ {
        Some(ion_profile(52, 32, 86, 32, 34, 104))
    } else if name == "munich"@ {
        Some(ion_profile(75, 18, 2, 10, 2, 150))
    } else if name == "pilsen"@ {
        Some(ion_profile(7, 2, 2, 5, 5, 15))
    } else if name == "vienna"@ {
        Some(ion_profile(200, 60, 8, 125, 12, 120))
    } else if name == "ro"@ {
        Some(ion_profile(0, 0, 0, 0, 0, 0))
    } else {
        None
    }
}

/// The names of the well-known brewing waters.
pub open spec fn water_names_spec() -> Seq<Seq<char>> {
    seq!["burton"@, "dublin"@, "dortmund"@, "edinburgh"@, "london"@, "munich"@, "pilsen"@, "vienna"@, "ro"@]
}

/// The profile of a well-known water, by its lowercase name.
fn water_by_name(name: &str) -> (p: Option<IonProfile>)
    ensures
        p == water_table(name@),
{
    if str_eq(name, "burton") {
        Some(IonProfile { calcium: 295, magnesium: 45, sodium: 55, sulfate: 725, chloride: 25, bicarbonate: 300 })
    } else if str_eq(name, "dublin") {
        Some(IonProfile { calcium: 115, magnesium: 4, sodium: 12, sulfate: 55, chloride: 19, bicarbonate: 319 })
    } else if str_eq(name, "dortmund") {
        Some(IonProfile { calcium: 225, magnesium: 40, sodium: 60, sulfate: 120, chloride: 60, bicarbonate: 180 })
    } else if str_eq(name, "edinburgh") {
        Some(IonProfile { calcium: 120, magnesium: 25, sodium: 55, sulfate: 140, chloride: 60, bicarbonate: 225 })
    } else if str_eq(name, "london") {
        Some(IonProfile { calcium: 52, magnesium: 32, sodium: 86, sulfate: 32, chloride: 34, bicarbonate: 104 })
    } else if str_eq(name, "munich") {
        Some(IonProfile { calcium: 75, magnesium: 18, sodium: 2, sulfate: 10, chloride: 2, bicarbonate: 150 })
    } else if str_eq(name, "pilsen") {
        Some(IonProfile { calcium: 7, magnesium: 2, sodium: 2, sulfate: 5, chloride: 5, bicarbonate: 15 })
    } else if str_eq(name, "vienna") {
        Some(IonProfile { calcium: 200, magnesium: 60, sodium: 8, sulfate: 125, chloride: 12, bicarbonate: 120 })
    } else if str_eq(name, "ro") {
        Some(IonProfile { calcium: 0, magnesium: 0, sodium: 0, sulfate: 0, chloride: 0, bicarbonate: 0 })
    } else {
        None
    }
}

/// Every listed name has a profile.
proof fn lemma_named_waters_known(i: int)
    requires
        0 <= i < water_names_spec().len(),
    ensures
        water_table(water_names_spec()[i]) is Some,
{
    let n = water_names_spec();
    if i == 0 {
        assert(water_table(n[0]) is Some);
    } else if i == 1 {
        assert(water_table(n[1]) is Some);
    } else if i == 2 {
        assert(water_table(n[2]) is Some);
    } else if i == 3 {
        assert(water_table(n[3]) is Some);
    } else if i == 4 {
        assert(water_table(n[4]) is Some);
    } else if i == 5 {
        assert(water_table(n[5]) is Some);
    } else if i == 6 {
        assert(water_table(n[6]) is Some);
    } else if i == 7 {
        assert(water_table(n[7]) is Some);
    } else {
        assert(water_table(n[8]) is Some);
    }
}

/// The well-known brewing waters with their profiles.
pub fn common_water_profiles() -> (v: Vec<(&'static str, IonProfile)>)
    ensures
        v@.len() == water_names_spec().len(),
        forall|i: int| 0 <= i < v@.len() ==> #[trigger] v@[i].0@ == water_names_spec()[i]
            && water_table(v@[i].0@) == Some(v@[i].1),
{
    let names: Vec<&'static str> = vec!["burton", "dublin", "dortmund", "edinburgh", "london", "munich", "pilsen", "vienna", "ro"];
    assert(crate::text::str_views(names@) =~= water_names_spec());
    let mut v: Vec<(&'static str, IonProfile)> = Vec::new();
    let mut k: usize = 0;
    while k < names.len()
        invariant
            k <= names@.len(),
            crate::text::str_views(names@) == water_names_spec(),
            v@.len() == k,
            forall|i: int| 0 <= i < k ==> #[trigger] v@[i].0@ == water_names_spec()[i]
                && water_table(v@[i].0@) == Some(v@[i].1),
        decreases names.len() - k,
    {
        let n = names[k];
        proof {
            assert(crate::text::str_views(names@)[k as int] == n@);
            lemma_named_waters_known(k as int);
        }
        match water_by_name(n) {
            Some(p) => {
                v.push((n, p));
            },
            None => {
                assert(false);
            },
        }
        k += 1;
    }
    v
}

/// A well-known water's profile, by name in any case.
pub fn get_water_profile(name: &str) -> (p: Option<IonProfile>)
    ensures
        p == water_table(lowercase(name@)),
{
    let lower = to_lowercase(name);
    water_by_name(lower.as_str())
}

} // verus!
