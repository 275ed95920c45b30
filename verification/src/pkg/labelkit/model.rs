//! Render-model types shared by the label records and the renderer.

use vstd::prelude::*;

verus! {

/// Per-design voluntary-field toggles, stored with the design and carried
/// into the render model. All off by default.
#[derive(Clone, Copy, Debug, PartialEq, Eq, Structural)]
pub struct DesignOptions {
    pub show_ingredient_list: bool,
    pub show_energy: bool,
    pub show_units: bool,
    pub show_responsible_drinking: bool,
    pub show_tasting_notes: bool,
}

impl Default for DesignOptions {
    fn default() -> (d: Self)
        ensures
            !d.show_ingredient_list && !d.show_energy && !d.show_units
                && !d.show_responsible_drinking && !d.show_tasting_notes,
    {
        DesignOptions {
            show_ingredient_list: false,
            show_energy: false,
            show_units: false,
            show_responsible_drinking: false,
            show_tasting_notes: false,
        }
    }
}

/// Structured tasting descriptors for clip and lens output.
#[derive(Clone, Debug)]
pub struct RenderTasting {
    pub aroma: Option<String>,
    pub flavour: Option<String>,
    pub mouthfeel: Option<String>,
    pub finish: Option<String>,
}

impl Default for RenderTasting {
    fn default() -> (t: Self)
        ensures
            t.aroma is None && t.flavour is None && t.mouthfeel is None && t.finish is None,
    {
        RenderTasting { aroma: None, flavour: None, mouthfeel: None, finish: None }
    }
}

} // verus!
