//! The layout of a rendered label: which text lines appear, in which order,
//! at which offset from the top, in which size and weight; plus the brand
//! colour and font family. The renderer draws exactly these lines.
//!
//! Numbers that the renderer prints with a fixed number of decimals (ABV,
//! energy, units) arrive here already formatted.

use vstd::prelude::*;
use crate::number::{decimal_text, format_int};
use crate::text::{str_eq, string_views};
use super::format::{format_allergens, format_allergens_spec};
use super::model::{DesignOptions, RenderTasting};

verus! {

/// A built-in font family.
#[derive(PartialEq, Eq, Structural, Clone, Copy, Debug)]
pub enum FontFamily {
    Helvetica,
    Times,
    Courier,
}

/// A variant of the font family.
#[derive(PartialEq, Eq, Structural, Clone, Copy, Debug)]
pub enum FontWeight {
    Regular,
    Bold,
    Italic,
}

/// The family a brand's font name selects: `times`, `courier`, else Helvetica.
pub open spec fn font_family_spec(name: Seq<char>) -> FontFamily {
    if name == "times"@ {
        FontFamily::Times
    } else if name == "courier"@ {
        FontFamily::Courier
    } else {
        FontFamily::Helvetica
    }
}

/// The built-in font family for a brand's font name.
pub fn font_family(name: &str) -> (f: FontFamily)
    ensures
        f == font_family_spec(name@),
{
    if str_eq(name, "times") {
        FontFamily::Times
    } else if str_eq(name, "courier") {
        FontFamily::Courier
    } else {
        FontFamily::Helvetica
    }
}

/// The value of a hex digit byte (either case).
pub open spec fn hex_digit(b: u8) -> Option<int> {
    if 48 <= b <= 57 {
        Some(b - 48)
    } else if 97 <= b <= 102 {
        Some(b - 87)
    } else if 65 <= b <= 70 {
        Some(b - 55)
    } else {
        None
    }
}

/// Two hex digit bytes read as a base-16 `u8`.
pub open spec fn hex_pair(b1: u8, b2: u8) -> Option<int> {
    match (hex_digit(b1), hex_digit(b2)) {
        (Some(h), Some(l)) => Some(16 * h + l),
        _ => None,
    }
}

/// The colour a `#rrggbb` string denotes; anything else is black.
pub open spec fn hex_rgb(b: Seq<u8>) -> (int, int, int) {
    if b.len() != 7 || b[0] != 35 {
        (0, 0, 0)
    } else {
        match (hex_pair(b[1], b[2]), hex_pair(b[3], b[4]), hex_pair(b[5], b[6])) {
            (Some(r), Some(g), Some(bl)) => (r, g, bl),
            _ => (0, 0, 0),
        }
    }
}

fn hex_digit_exec(b: u8) -> (r: Option<u8>)
    ensures
        r matches Some(v) ==> hex_digit(b) == Some(v as int),
        r is None ==> hex_digit(b) is None,
{
    if 48 <= b && b <= 57 {
        Some(b - 48)
    } else if 97 <= b && b <= 102 {
        Some(b - 87)
    } else if 65 <= b && b <= 70 {
        Some(b - 55)
    } else {
        None
    }
}

fn hex_pair_exec(b1: u8, b2: u8) -> (r: Option<u8>)
    ensures
        r matches Some(v) ==> hex_pair(b1, b2) == Some(v as int),
        r is None ==> hex_pair(b1, b2) is None,
{
    match (hex_digit_exec(b1), hex_digit_exec(b2)) {
        (Some(h), Some(l)) => Some(16 * h + l),
        _ => None,
    }
}

/// Parses a `#rrggbb` hex string (digits in either case) to an RGB triple;
/// any other text, of any length or content, is black.
pub fn hex_to_rgb(hex: &str) -> (c: (u8, u8, u8))
    ensures
        (c.0 as int, c.1 as int, c.2 as int) == hex_rgb(vstd::utf8::encode_utf8(hex@)),
{
    let b = hex.as_bytes();
    if b.len() != 7 || b[0] != 35 {
        return (0, 0, 0);
    }
    match (hex_pair_exec(b[1], b[2]), hex_pair_exec(b[3], b[4]), hex_pair_exec(b[5], b[6])) {
        (Some(r), Some(g), Some(bl)) => (r, g, bl),
        _ => (0, 0, 0),
    }
}

/// The content of a label, as the layout reads it.
#[derive(Clone, Debug)]
pub struct LabelContent {
    /// `bottle`, `can`, `pump_clip` or `cask_lens`.
    pub kind: String,
    pub product_name: String,
    pub style: Option<String>,
    /// The ABV with one decimal, e.g. `4.5`.
    pub abv_text: String,
    pub allergens: Vec<String>,
    pub net_volume_ml: Option<i32>,
    pub responsible_party: Option<String>,
    pub country_of_origin: Option<String>,
    pub best_before_date: Option<String>,
    pub lot_identifier: Option<String>,
    pub ingredient_list: Option<String>,
    /// Energy per 100 ml in kJ and kcal, each with no decimals; present only
    /// when both are known.
    pub energy_text: Option<(String, String)>,
    /// Alcohol units per serving with one decimal.
    pub units_text: Option<String>,
    pub brewery_name: String,
    pub tasting: Option<RenderTasting>,
    pub options: DesignOptions,
}

/// One line of text on the label.
#[derive(Clone, Debug)]
pub struct TextLine {
    /// Offset of the line's top from the top edge, in mm.
    pub top_mm: u32,
    pub size_pt: u32,
    pub weight: FontWeight,
    pub text: String,
}

/// A text's value, if it has one.
pub open spec fn opt_view(o: Option<String>) -> Option<Seq<char>> {
    match o {
        Some(s) => Some(s@),
        None => None,
    }
}

/// A line when `o` has a value: `prefix`, the value, `suffix`.
pub open spec fn entry_opt(o: Option<Seq<char>>, size: u32, w: FontWeight, prefix: Seq<char>, suffix: Seq<char>) -> Seq<(u32, FontWeight, Seq<char>)> {
    match o {
        Some(t) => seq![(size, w, prefix + t + suffix)],
        None => seq![],
    }
}

/// A line when `cond` holds.
pub open spec fn entry_if(cond: bool, size: u32, w: FontWeight, text: Seq<char>) -> Seq<(u32, FontWeight, Seq<char>)> {
    if cond {
        seq![(size, w, text)]
    } else {
        seq![]
    }
}

/// The energy line's text, when both energy values are present.
pub open spec fn energy_view(o: Option<(String, String)>) -> Option<Seq<char>> {
    match o {
        Some(e) => Some(e.0@ + " kJ / "@ + e.1@),
        None => None,
    }
}

/// The lines under the title of a bottle or can label.
pub open spec fn compliance_entries(c: LabelContent) -> Seq<(u32, FontWeight, Seq<char>)> {
    entry_opt(opt_view(c.style), 9, FontWeight::Regular, "Style: "@, ""@)
        + seq![(10u32, FontWeight::Regular, "ABV "@ + c.abv_text@ + "%"@)]
        + entry_if(c.allergens@.len() > 0, 9, FontWeight::Bold, "Allergens: "@ + format_allergens_spec(string_views(c.allergens@)))
        + entry_opt(match c.net_volume_ml { Some(v) => Some(decimal_text(v as int)), None => None }, 9, FontWeight::Regular, ""@, " ml"@)
        + entry_opt(opt_view(c.responsible_party), 9, FontWeight::Regular, ""@, ""@)
        + entry_opt(opt_view(c.country_of_origin), 9, FontWeight::Regular, "Origin: "@, ""@)
        + entry_opt(opt_view(c.best_before_date), 9, FontWeight::Regular, "Best before: "@, ""@)
        + entry_opt(opt_view(c.lot_identifier), 9, FontWeight::Regular, "Lot: "@, ""@)
        + entry_opt(if c.options.show_ingredient_list { opt_view(c.ingredient_list) } else { None }, 9, FontWeight::Regular, "Ingredients: "@, ""@)
        + entry_opt(if c.options.show_energy { energy_view(c.energy_text) } else { None }, 9, FontWeight::Regular, "Energy: "@, " kcal per 100ml"@)
        + entry_opt(if c.options.show_units { opt_view(c.units_text) } else { None }, 9, FontWeight::Regular, "Units: "@, " per serving"@)
        + entry_if(c.options.show_responsible_drinking, 9, FontWeight::Regular, "Please drink responsibly"@)
}

/// The tasting lines of a clip or lens.
pub open spec fn tasting_entries(t: RenderTasting) -> Seq<(u32, FontWeight, Seq<char>)> {
    entry_opt(opt_view(t.aroma), 9, FontWeight::Regular, "Aroma: "@, ""@)
        + entry_opt(opt_view(t.flavour), 9, FontWeight::Regular, "Flavour: "@, ""@)
        + entry_opt(opt_view(t.mouthfeel), 9, FontWeight::Regular, "Mouthfeel: "@, ""@)
        + entry_opt(opt_view(t.finish), 9, FontWeight::Regular, "Finish: "@, ""@)
}

/// The lines under the title of a pump clip or cask lens.
pub open spec fn clip_entries(c: LabelContent) -> Seq<(u32, FontWeight, Seq<char>)> {
    entry_opt(opt_view(c.style), 10, FontWeight::Italic, "Style: "@, ""@)
        + seq![(12u32, FontWeight::Regular, "ABV "@ + c.abv_text@ + "%"@)]
        + entry_if(c.brewery_name@.len() > 0, 9, FontWeight::Regular, c.brewery_name@)
        + (match c.tasting {
            Some(t) => if c.options.show_tasting_notes { tasting_entries(t) } else { seq![] },
            None => seq![],
        })
}

/// The lines under the title, by kind; an unknown kind has only its title.
pub open spec fn body_entries(c: LabelContent) -> Seq<(u32, FontWeight, Seq<char>)> {
    if c.kind@ == "bottle"@ || c.kind@ == "can"@ {
        compliance_entries(c)
    } else if c.kind@ == "pump_clip"@ || c.kind@ == "cask_lens"@ {
        clip_entries(c)
    } else {
        seq![]
    }
}

/// The whole layout: the product name as a 16 pt bold title 8 mm from the
/// top, then the body lines 5 mm apart from 16 mm down.
pub open spec fn label_layout(c: LabelContent) -> Seq<(int, u32, FontWeight, Seq<char>)> {
    seq![(8int, 16u32, FontWeight::Bold, c.product_name@)] + body_entries(c).map(
        |i: int, e: (u32, FontWeight, Seq<char>)| (16 + 5 * i, e.0, e.1, e.2),
    )
}

/// The plain value of a list of lines.
pub open spec fn lines_view(v: Seq<TextLine>) -> Seq<(int, u32, FontWeight, Seq<char>)> {
    v.map_values(|l: TextLine| (l.top_mm as int, l.size_pt, l.weight, l.text@))
}

/// The plain value of a list of body entries.
pub open spec fn entries_view(v: Seq<(u32, FontWeight, String)>) -> Seq<(u32, FontWeight, Seq<char>)> {
    v.map_values(|e: (u32, FontWeight, String)| (e.0, e.1, e.2@))
}

fn push_opt(
    body: &mut Vec<(u32, FontWeight, String)>,
    o: &Option<String>,
    size: u32,
    w: FontWeight,
    prefix: &str,
    suffix: &str,
)
    ensures
        entries_view(final(body)@) == entries_view(old(body)@) + entry_opt(opt_view(*o), size, w, prefix@, suffix@),
        final(body)@.len() <= old(body)@.len() + 1,
{
    match o {
        Some(t) => {
            let text = String::from_str(prefix).concat(t.as_str()).concat(suffix);
            body.push((size, w, text));
            assert(entries_view(body@) =~= entries_view(old(body)@) + entry_opt(opt_view(*o), size, w, prefix@, suffix@));
        },
        None => {
            assert(entries_view(body@) =~= entries_view(old(body)@) + entry_opt(opt_view(*o), size, w, prefix@, suffix@));
        },
    }
}

fn push_if(body: &mut Vec<(u32, FontWeight, String)>, cond: bool, size: u32, w: FontWeight, text: String)
    ensures
        entries_view(final(body)@) == entries_view(old(body)@) + entry_if(cond, size, w, text@),
        final(body)@.len() <= old(body)@.len() + 1,
{
    if cond {
        body.push((size, w, text));
    }
    assert(entries_view(body@) =~= entries_view(old(body)@) + entry_if(cond, size, w, text@));
}

fn compliance_body(c: &LabelContent) -> (r: Vec<(u32, FontWeight, String)>)
    ensures
        entries_view(r@) == compliance_entries(*c),
        r@.len() <= 12,
{
    let mut b: Vec<(u32, FontWeight, String)> = Vec::new();
    push_opt(&mut b, &c.style, 9, FontWeight::Regular, "Style: ", "");
    let abv = String::from_str("ABV ").concat(c.abv_text.as_str()).concat("%");
    push_if(&mut b, true, 10, FontWeight::Regular, abv);
    let allergens = String::from_str("Allergens: ").concat(format_allergens(c.allergens.as_slice()).as_str());
    push_if(&mut b, c.allergens.len() > 0, 9, FontWeight::Bold, allergens);
    let volume: Option<String> = match c.net_volume_ml {
        Some(v) => Some(format_int(v as i64)),
        None => None,
    };
    push_opt(&mut b, &volume, 9, FontWeight::Regular, "", " ml");
    push_opt(&mut b, &c.responsible_party, 9, FontWeight::Regular, "", "");
    push_opt(&mut b, &c.country_of_origin, 9, FontWeight::Regular, "Origin: ", "");
    push_opt(&mut b, &c.best_before_date, 9, FontWeight::Regular, "Best before: ", "");
    push_opt(&mut b, &c.lot_identifier, 9, FontWeight::Regular, "Lot: ", "");
    let ingredients: Option<String> = if c.options.show_ingredient_list { c.ingredient_list.clone() } else { None };
    push_opt(&mut b, &ingredients, 9, FontWeight::Regular, "Ingredients: ", "");
    let energy: Option<String> = if c.options.show_energy {
        match &c.energy_text {
            Some(e) => Some(e.0.clone().concat(" kJ / ").concat(e.1.as_str())),
            None => None,
        }
    } else {
        None
    };
    push_opt(&mut b, &energy, 9, FontWeight::Regular, "Energy: ", " kcal per 100ml");
    let units: Option<String> = if c.options.show_units { c.units_text.clone() } else { None };
    push_opt(&mut b, &units, 9, FontWeight::Regular, "Units: ", " per serving");
    push_if(
        &mut b,
        c.options.show_responsible_drinking,
        9,
        FontWeight::Regular,
        String::from_str("Please drink responsibly"),
    );
    proof {
        assert(opt_view(ingredients) == (if c.options.show_ingredient_list { opt_view(c.ingredient_list) } else { None }));
        assert(opt_view(energy) == (if c.options.show_energy { energy_view(c.energy_text) } else { None }));
        assert(opt_view(units) == (if c.options.show_units { opt_view(c.units_text) } else { None }));
        assert(opt_view(volume) == (match c.net_volume_ml { Some(v) => Some(decimal_text(v as int)), None => None }));
        assert(entry_opt(opt_view(volume), 9, FontWeight::Regular, ""@, " ml"@) =~= entry_opt(
            match c.net_volume_ml { Some(v) => Some(decimal_text(v as int)), None => None },
            9,
            FontWeight::Regular,
            ""@,
            " ml"@,
        ));
    }
    b
}

fn clip_body(c: &LabelContent) -> (r: Vec<(u32, FontWeight, String)>)
    ensures
        entries_view(r@) == clip_entries(*c),
        r@.len() <= 7,
{
    let mut b: Vec<(u32, FontWeight, String)> = Vec::new();
    push_opt(&mut b, &c.style, 10, FontWeight::Italic, "Style: ", "");
    let abv = String::from_str("ABV ").concat(c.abv_text.as_str()).concat("%");
    push_if(&mut b, true, 12, FontWeight::Regular, abv);
    push_if(&mut b, !c.brewery_name.as_str().is_empty(), 9, FontWeight::Regular, c.brewery_name.clone());
    let ghost before = entries_view(b@);
    match &c.tasting {
        Some(t) => {
            if c.options.show_tasting_notes {
                push_opt(&mut b, &t.aroma, 9, FontWeight::Regular, "Aroma: ", "");
                push_opt(&mut b, &t.flavour, 9, FontWeight::Regular, "Flavour: ", "");
                push_opt(&mut b, &t.mouthfeel, 9, FontWeight::Regular, "Mouthfeel: ", "");
                push_opt(&mut b, &t.finish, 9, FontWeight::Regular, "Finish: ", "");
                assert(entries_view(b@) =~= before + tasting_entries(*t));
            } else {
                assert(entries_view(b@) =~= before + Seq::<(u32, FontWeight, Seq<char>)>::empty());
            }
        },
        None => {
            assert(entries_view(b@) =~= before + Seq::<(u32, FontWeight, Seq<char>)>::empty());
        },
    }
    b
}

/// The lines of a rendered label, top to bottom.
pub fn label_lines(c: &LabelContent) -> (r: Vec<TextLine>)
    ensures
        lines_view(r@) == label_layout(*c),
{
    let body: Vec<(u32, FontWeight, String)> = if str_eq(c.kind.as_str(), "bottle") || str_eq(c.kind.as_str(), "can") {
        compliance_body(c)
    } else if str_eq(c.kind.as_str(), "pump_clip") || str_eq(c.kind.as_str(), "cask_lens") {
        clip_body(c)
    } else {
        Vec::new()
    };
    let ghost es = body_entries(*c);
    assert(entries_view(body@) =~= es);
    let mut lines: Vec<TextLine> = Vec::new();
    lines.push(TextLine { top_mm: 8, size_pt: 16, weight: FontWeight::Bold, text: c.product_name.clone() });
    let mut i: usize = 0;
    let mut top: u32 = 16;
    while i < body.len()
        invariant
            i <= body@.len(),
            body@.len() <= 12,
            top == 16 + 5 * i,
            entries_view(body@) == es,
            lines_view(lines@) == seq![(8int, 16u32, FontWeight::Bold, c.product_name@)] + es.take(i as int).map(
                |k: int, e: (u32, FontWeight, Seq<char>)| (16 + 5 * k, e.0, e.1, e.2),
            ),
        decreases body.len() - i,
    {
        let e = &body[i];
        let ghost before = lines_view(lines@);
        let text = e.2.clone();
        lines.push(TextLine { top_mm: top, size_pt: e.0, weight: e.1, text });
        proof {
            assert(es[i as int] == (e.0, e.1, e.2@));
            assert(lines_view(lines@) =~= before.push((top as int, e.0, e.1, e.2@)));
            assert(es.take(i + 1) =~= es.take(i as int).push(es[i as int]));
            assert(es.take(i + 1).map(|k: int, e: (u32, FontWeight, Seq<char>)| (16 + 5 * k, e.0, e.1, e.2))
                =~= es.take(i as int).map(|k: int, e: (u32, FontWeight, Seq<char>)| (16 + 5 * k, e.0, e.1, e.2)).push(
                (16 + 5 * i, e.0, e.1, e.2@)));
            assert(lines_view(lines@) =~= seq![(8int, 16u32, FontWeight::Bold, c.product_name@)] + es.take(i + 1).map(
                |k: int, e: (u32, FontWeight, Seq<char>)| (16 + 5 * k, e.0, e.1, e.2),
            ));
        }
        i += 1;
        top += 5;
    }
    assert(es.take(body@.len() as int) =~= es);
    lines
}

} // verus!
