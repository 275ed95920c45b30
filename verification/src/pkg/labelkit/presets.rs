//! Label size and template presets.
//!
//! Sizes are whole millimetres; the renderer converts them to points.

use vstd::prelude::*;
use crate::text::str_eq;

verus! {

/// Physical dimensions and classification of a label size.
#[derive(Clone, Copy, Debug)]
pub struct SizeSpec {
    pub key: &'static str,
    /// `bottle`, `can`, `pump_clip` or `cask_lens`.
    pub kind: &'static str,
    /// `rect` or `circle`.
    pub shape: &'static str,
    pub width_mm: u32,
    pub height_mm: u32,
}

/// A label template with its description.
#[derive(Clone, Copy, Debug)]
pub struct TemplateSpec {
    pub key: &'static str,
    pub description: &'static str,
}

/// The preset for a size key: kind, shape, width and height in mm.
pub open spec fn size_table(key: Seq<char>) -> Option<(Seq<char>, Seq<char>, u32, u32)> {
    if key == "bottle_front_90x120"@ {
        Some(("bottle"@, "rect"@, 90u32, 120u32))
    } else if key == "can_wrap_200x100"@ {
        Some(("can"@, "rect"@, 200u32, 100u32))
    } else if key == "pumpclip_round_114"@ {
        Some(("pump_clip"@, "circle"@, 114u32, 114u32))
    } else if key == "pumpclip_rect_140x90"@ {
        Some(("pump_clip"@, "rect"@, 140u32, 90u32))
    } else if key == "lens_round_100"@ {
        Some(("cask_lens"@, "circle"@, 100u32, 100u32))
    } else {
        None
    }
}

/// The description of a template key.
pub open spec fn template_table(key: Seq<char>) -> Option<Seq<char>> {
    if key == "compliance_standard"@ {
        Some("Full compliance layout for bottle/can"@)
    } else if key == "clip_standard"@ {
        Some("Pump clip / cask lens layout"@)
    } else {
        None
    }
}

/// Returns the [`SizeSpec`] for the given key if it exists.
pub fn size_preset(key: &str) -> (r: Option<SizeSpec>)
    ensures
        r is Some <==> size_table(key@) is Some,
        r matches Some(s) ==> s.key@ == key@ && size_table(key@) == Some(
            (s.kind@, s.shape@, s.width_mm, s.height_mm),
        ),
{
    if str_eq(key, "bottle_front_90x120") {
        Some(SizeSpec { key: "bottle_front_90x120", kind: "bottle", shape: "rect", width_mm: 90, height_mm: 120 })
    } else if str_eq(key, "can_wrap_200x100") {
        Some(SizeSpec { key: "can_wrap_200x100", kind: "can", shape: "rect", width_mm: 200, height_mm: 100 })
    } else if str_eq(key, "pumpclip_round_114") {
        Some(SizeSpec { key: "pumpclip_round_114", kind: "pump_clip", shape: "circle", width_mm: 114, height_mm: 114 })
    } else if str_eq(key, "pumpclip_rect_140x90") {
        Some(SizeSpec { key: "pumpclip_rect_140x90", kind: "pump_clip", shape: "rect", width_mm: 140, height_mm: 90 })
    } else if str_eq(key, "lens_round_100") {
        Some(SizeSpec { key: "lens_round_100", kind: "cask_lens", shape: "circle", width_mm: 100, height_mm: 100 })
    } else {
        None
    }
}

/// Returns the [`TemplateSpec`] for the given key if it exists.
pub fn template_preset(key: &str) -> (r: Option<TemplateSpec>)
    ensures
        r is Some <==> template_table(key@) is Some,
        r matches Some(t) ==> t.key@ == key@ && template_table(key@) == Some(t.description@),
{
    if str_eq(key, "compliance_standard") {
        Some(TemplateSpec { key: "compliance_standard", description: "Full compliance layout for bottle/can" })
    } else if str_eq(key, "clip_standard") {
        Some(TemplateSpec { key: "clip_standard", description: "Pump clip / cask lens layout" })
    } else {
        None
    }
}

/// True only if `size_key` exists and its kind matches `kind`.
pub fn valid_size_for_kind(size_key: &str, kind: &str) -> (r: bool)
    ensures
        r == (size_table(size_key@) matches Some(s) && s.0 == kind@),
{
    match size_preset(size_key) {
        Some(s) => str_eq(s.kind, kind),
        None => false,
    }
}

} // verus!
