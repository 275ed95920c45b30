//! How the library's list queries are built: the clamped page window, the
//! validated `ORDER BY` fragment, and the filter conditions, each a fixed SQL
//! fragment with the value bound after it. Reads cover the system tenant's
//! rows and the caller's.

use vstd::prelude::*;
use crate::library::models::{EquipmentFilter, FermentableFilter, MashFilter, StyleFilter, YeastFilter};
use crate::platform::errors::{validation_view, ApiError, ApiErrorView};
use crate::platform::pagination::{clamped_page, clamped_size};
use crate::platform::sort::{field_name, fragment, is_desc, lookup, lookup_column, make_fragment, Nulls};
use crate::text::{
    char_views, chars_of, join, join_strings, lowercase, split_chars, split_on, string_views,
    sub_chars, to_lowercase, trim, trim_chars,
};

verus! {

/// Clamps page (at least 1) and page size (1 to 100, default 20).
pub fn clamp_page(page: i32, page_size: i32) -> (r: (i32, i32))
    ensures
        r.0 == clamped_page(page as int),
        r.1 == clamped_size(page_size as int, 20, 100),
{
    let page = if page < 1 {
        1
    } else {
        page
    };
    let page_size = if page_size < 1 {
        20
    } else if page_size > 100 {
        100
    } else {
        page_size
    };
    (page, page_size)
}

/// The `ORDER BY` fragments of the comma-separated pieces, left to right;
/// each piece is trimmed, and the first unknown name (an empty piece
/// included) is the error.
pub open spec fn sort_terms(pieces: Seq<Seq<char>>, allowed: Seq<(&str, &str)>) -> Result<Seq<Seq<char>>, Seq<char>>
    decreases pieces.len(),
{
    if pieces.len() == 0 {
        Ok(Seq::empty())
    } else {
        match sort_terms(pieces.drop_last(), allowed) {
            Err(n) => Err(n),
            Ok(parts) => {
                let f = trim(pieces.last());
                match lookup(allowed, field_name(f)) {
                    None => Err(field_name(f)),
                    Some(col) => Ok(parts.push(fragment(col, is_desc(f), Nulls::Default))),
                }
            },
        }
    }
}

/// The `ORDER BY` fragment a sort string denotes: blank sorts by the default
/// column ascending; otherwise each field maps through the allow-list.
pub open spec fn sort_clause(sort: Seq<char>, allowed: Seq<(&str, &str)>, default_col: Seq<char>) -> Result<Seq<char>, ApiErrorView> {
    let t = trim(sort);
    if t.len() == 0 {
        Ok(default_col + " ASC"@)
    } else {
        match sort_terms(split_on(t, ','), allowed) {
            Err(n) => Err(validation_view("sort"@, "invalid sort field: "@ + n)),
            Ok(parts) => Ok(join(parts, ", "@)),
        }
    }
}

proof fn lemma_sort_terms_err_extends(pieces: Seq<Seq<char>>, k: int, allowed: Seq<(&str, &str)>, name: Seq<char>)
    requires
        0 <= k <= pieces.len(),
        sort_terms(pieces.take(k), allowed) == Err::<Seq<Seq<char>>, Seq<char>>(name),
    ensures
        sort_terms(pieces, allowed) == Err::<Seq<Seq<char>>, Seq<char>>(name),
    decreases pieces.len() - k,
{
    if k == pieces.len() {
        assert(pieces.take(k) =~= pieces);
    } else {
        let t = pieces.take(k + 1);
        assert(t.drop_last() =~= pieces.take(k));
        lemma_sort_terms_err_extends(pieces, k + 1, allowed, name);
    }
}

/// Validates a comma-separated sort string against an allow-list and builds
/// an `ORDER BY` fragment from the allow-list's columns only.
pub fn parse_sort(sort: &str, allowed: &[(&str, &str)], default_col: &str) -> (r: Result<String, ApiError>)
    ensures
        match r {
            Ok(v) => sort_clause(sort@, allowed@, default_col@) == Ok::<Seq<char>, ApiErrorView>(v@),
            Err(e) => sort_clause(sort@, allowed@, default_col@) == Err::<Seq<char>, ApiErrorView>(e@),
        },
{
    let sv = chars_of(sort);
    let t = trim_chars(&sv);
    if t.len() == 0 {
        return Ok(String::from_str(default_col).concat(" ASC"));
    }
    let pieces = split_chars(&t, ',');
    let mut parts: Vec<String> = Vec::new();
    let mut k: usize = 0;
    assert(char_views(pieces@).take(0) =~= Seq::<Seq<char>>::empty());
    assert(string_views(parts@) =~= Seq::<Seq<char>>::empty());
    while k < pieces.len()
        invariant
            k <= pieces.len(),
            t@ == trim(sort@),
            t@.len() > 0,
            char_views(pieces@) == split_on(t@, ','),
            sort_terms(char_views(pieces@).take(k as int), allowed@) == Ok::<Seq<Seq<char>>, Seq<char>>(
                string_views(parts@),
            ),
        decreases pieces.len() - k,
    {
        let ghost pv = char_views(pieces@);
        proof {
            let tk = pv.take(k + 1);
            assert(tk.drop_last() =~= pv.take(k as int));
            assert(tk.last() == pieces@[k as int]@);
        }
        let f = trim_chars(&pieces[k]);
        let desc = f.len() > 0 && f[0] == '-';
        let name = if desc {
            sub_chars(&f, 1, f.len())
        } else {
            f
        };
        proof {
            if desc {
                assert(name@ =~= f@.drop_first());
            }
            assert(name@ == field_name(f@));
        }
        match lookup_column(allowed, &name) {
            None => {
                proof {
                    lemma_sort_terms_err_extends(pv, k + 1, allowed@, name@);
                }
                let n = crate::text::string_of(&name);
                let msg = String::from_str("invalid sort field: ").concat(n.as_str());
                let e = ApiError::validation("sort", msg.as_str());
                proof {
                    assert(t@ == trim(sort@));
                    assert(sort_terms(split_on(trim(sort@), ','), allowed@) == Err::<Seq<Seq<char>>, Seq<char>>(name@));
                }
                return Err(e);
            },
            Some(col) => {
                let frag = make_fragment(col, desc, Nulls::Default);
                let ghost before = string_views(parts@);
                parts.push(frag);
                assert(string_views(parts@) =~= before.push(frag@));
            },
        }
        k += 1;
    }
    assert(char_views(pieces@).take(pieces.len() as int) =~= char_views(pieces@));
    Ok(join_strings(&parts, ", "))
}

/// The sortable style fields and their columns.
pub open spec fn style_sort_spec() -> Seq<(&'static str, &'static str)> {
    seq![("name", "name"), ("category", "category"), ("og_min", "og_min"), ("og_max", "og_max"), ("created_at", "created_at")]
}

/// The allow-list for style sorting.
pub fn style_sort_columns() -> (v: Vec<(&'static str, &'static str)>)
    ensures
        v@ == style_sort_spec(),
{
    let v = vec![("name", "name"), ("category", "category"), ("og_min", "og_min"), ("og_max", "og_max"), ("created_at", "created_at")];
    assert(v@ =~= style_sort_spec());
    v
}

/// The sortable equipment-profile fields and their columns.
pub open spec fn equipment_sort_spec() -> Seq<(&'static str, &'static str)> {
    seq![("name", "name"), ("batch_size_liters", "batch_size_liters"), ("created_at", "created_at")]
}

/// The allow-list for equipment-profile sorting.
pub fn equipment_sort_columns() -> (v: Vec<(&'static str, &'static str)>)
    ensures
        v@ == equipment_sort_spec(),
{
    let v = vec![("name", "name"), ("batch_size_liters", "batch_size_liters"), ("created_at", "created_at")];
    assert(v@ =~= equipment_sort_spec());
    v
}

/// The sortable mash-profile fields and their columns.
pub open spec fn mash_sort_spec() -> Seq<(&'static str, &'static str)> {
    seq![("name", "name"), ("created_at", "created_at")]
}

/// The allow-list for mash-profile sorting.
pub fn mash_sort_columns() -> (v: Vec<(&'static str, &'static str)>)
    ensures
        v@ == mash_sort_spec(),
{
    let v = vec![("name", "name"), ("created_at", "created_at")];
    assert(v@ =~= mash_sort_spec());
    v
}

/// The sortable yeast fields and their columns.
pub open spec fn yeast_sort_spec() -> Seq<(&'static str, &'static str)> {
    seq![("name", "name"), ("type", "type"), ("product_code", "product_code"), ("created_at", "created_at")]
}

/// The allow-list for yeast sorting.
pub fn yeast_sort_columns() -> (v: Vec<(&'static str, &'static str)>)
    ensures
        v@ == yeast_sort_spec(),
{
    let v = vec![("name", "name"), ("type", "type"), ("product_code", "product_code"), ("created_at", "created_at")];
    assert(v@ =~= yeast_sort_spec());
    v
}

/// The sortable fermentable fields and their columns.
pub open spec fn fermentable_sort_spec() -> Seq<(&'static str, &'static str)> {
    seq![("name", "name"), ("supplier", "supplier"), ("type", "type"), ("created_at", "created_at")]
}

/// The allow-list for fermentable sorting.
pub fn fermentable_sort_columns() -> (v: Vec<(&'static str, &'static str)>)
    ensures
        v@ == fermentable_sort_spec(),
{
    let v = vec![("name", "name"), ("supplier", "supplier"), ("type", "type"), ("created_at", "created_at")];
    assert(v@ =~= fermentable_sort_spec());
    v
}

/// A value bound after a condition's SQL fragment.
#[derive(Clone, Debug)]
pub enum FilterValue<N> {
    Text(String),
    Number(N),
}

/// One `AND` condition of a list query: a fixed SQL fragment ending in an
/// operator, and the value bound after it.
#[derive(Clone, Debug)]
pub struct Condition<N> {
    pub sql: &'static str,
    pub value: FilterValue<N>,
}

/// The plain value of a bound value.
pub enum FilterValueView<N> {
    Text(Seq<char>),
    Number(N),
}

/// The plain values of a list of conditions.
pub open spec fn conditions_view<N>(v: Seq<Condition<N>>) -> Seq<(Seq<char>, FilterValueView<N>)> {
    v.map_values(|c: Condition<N>| (c.sql@, match c.value {
        FilterValue::Text(s) => FilterValueView::Text(s@),
        FilterValue::Number(n) => FilterValueView::Number(n),
    }))
}

/// The `LIKE` pattern for a case-insensitive substring match (the term is
/// lower-cased, not escaped).
pub open spec fn contains_pattern(term: Seq<char>) -> Seq<char> {
    "%"@ + lowercase(term) + "%"@
}

/// A text condition when the filter is given.
pub open spec fn text_condition<N>(o: Option<String>, sql: Seq<char>) -> Seq<(Seq<char>, FilterValueView<N>)> {
    match o {
        Some(v) => seq![(sql, FilterValueView::Text(v@))],
        None => seq![],
    }
}

/// A substring condition when the filter is given.
pub open spec fn like_condition<N>(o: Option<String>, sql: Seq<char>) -> Seq<(Seq<char>, FilterValueView<N>)> {
    match o {
        Some(v) => seq![(sql, FilterValueView::Text(contains_pattern(v@)))],
        None => seq![],
    }
}

/// A lower-cased equality condition when the filter is given.
pub open spec fn lower_condition<N>(o: Option<String>, sql: Seq<char>) -> Seq<(Seq<char>, FilterValueView<N>)> {
    match o {
        Some(v) => seq![(sql, FilterValueView::Text(lowercase(v@)))],
        None => seq![],
    }
}

/// A numeric bound when the filter is given.
pub open spec fn number_condition<N>(o: Option<N>, sql: Seq<char>) -> Seq<(Seq<char>, FilterValueView<N>)> {
    match o {
        Some(v) => seq![(sql, FilterValueView::Number(v))],
        None => seq![],
    }
}

fn push_text<N>(v: &mut Vec<Condition<N>>, o: &Option<String>, sql: &'static str)
    ensures
        conditions_view(final(v)@) == conditions_view(old(v)@) + text_condition::<N>(*o, sql@),
{
    if let Some(t) = o {
        v.push(Condition { sql, value: FilterValue::Text(t.clone()) });
    }
    assert(conditions_view(v@) =~= conditions_view(old(v)@) + text_condition::<N>(*o, sql@));
}

fn push_like<N>(v: &mut Vec<Condition<N>>, o: &Option<String>, sql: &'static str)
    ensures
        conditions_view(final(v)@) == conditions_view(old(v)@) + like_condition::<N>(*o, sql@),
{
    if let Some(t) = o {
        let p = String::from_str("%").concat(to_lowercase(t.as_str()).as_str()).concat("%");
        v.push(Condition { sql, value: FilterValue::Text(p) });
    }
    assert(conditions_view(v@) =~= conditions_view(old(v)@) + like_condition::<N>(*o, sql@));
}

fn push_lower<N>(v: &mut Vec<Condition<N>>, o: &Option<String>, sql: &'static str)
    ensures
        conditions_view(final(v)@) == conditions_view(old(v)@) + lower_condition::<N>(*o, sql@),
{
    if let Some(t) = o {
        v.push(Condition { sql, value: FilterValue::Text(to_lowercase(t.as_str())) });
    }
    assert(conditions_view(v@) =~= conditions_view(old(v)@) + lower_condition::<N>(*o, sql@));
}

fn push_number<N: Copy>(v: &mut Vec<Condition<N>>, o: Option<N>, sql: &'static str)
    ensures
        conditions_view(final(v)@) == conditions_view(old(v)@) + number_condition::<N>(o, sql@),
{
    if let Some(n) = o {
        v.push(Condition { sql, value: FilterValue::Number(n) });
    }
    assert(conditions_view(v@) =~= conditions_view(old(v)@) + number_condition::<N>(o, sql@));
}

/// A list query: the page window, the order, and the filter conditions.
pub struct ListQuery<N> {
    pub page: i32,
    pub page_size: i32,
    /// `(page - 1) * page_size` rows are skipped.
    pub offset: i32,
    pub order_by: String,
    pub conditions: Vec<Condition<N>>,
}

/// Whether the window of a requested page fits the offset's `i32`.
pub open spec fn window_fits(page: i32, page_size: i32) -> bool {
    (clamped_page(page as int) - 1) * clamped_size(page_size as int, 20, 100) <= i32::MAX
}

/// Whether a built query has the clamped window of the requested page, the
/// given order, and the given conditions.
pub open spec fn query_is<N>(q: ListQuery<N>, page: i32, page_size: i32, order_by: Seq<char>, conditions: Seq<(Seq<char>, FilterValueView<N>)>) -> bool {
    &&& q.page == clamped_page(page as int)
    &&& q.page_size == clamped_size(page_size as int, 20, 100)
    &&& q.offset == (q.page - 1) * q.page_size
    &&& q.order_by@ == order_by
    &&& conditions_view(q.conditions@) == conditions
}

/// The window of a requested page.
fn window(page: i32, page_size: i32) -> (r: (i32, i32, i32))
    requires
        window_fits(page, page_size),
    ensures
        r.0 == clamped_page(page as int),
        r.1 == clamped_size(page_size as int, 20, 100),
        r.2 == (r.0 - 1) * r.1,
{
    let (p, s) = clamp_page(page, page_size);
    (p, s, (p - 1) * s)
}

/// The conditions a style filter adds.
pub open spec fn style_conditions<N>(f: StyleFilter) -> Seq<(Seq<char>, FilterValueView<N>)> {
    text_condition::<N>(f.category, " AND category = "@) + like_condition::<N>(f.name, " AND lower(name) LIKE "@)
}

/// Builds the style list query: category equality and a case-insensitive
/// name substring, sorted by name unless asked otherwise.
pub fn style_list_query<N>(f: &StyleFilter) -> (r: Result<ListQuery<N>, ApiError>)
    requires
        window_fits(f.page, f.page_size),
    ensures
        match r {
            Ok(q) => sort_clause(f.sort@, style_sort_spec(), "name"@) matches Ok(o) && query_is(q, f.page, f.page_size, o, style_conditions::<N>(*f)),
            Err(e) => sort_clause(f.sort@, style_sort_spec(), "name"@) == Err::<Seq<char>, ApiErrorView>(e@),
        },
{
    let (page, page_size, offset) = window(f.page, f.page_size);
    let cols = style_sort_columns();
    let order_by = parse_sort(f.sort.as_str(), cols.as_slice(), "name")?;
    let mut conditions: Vec<Condition<N>> = Vec::new();
    push_text(&mut conditions, &f.category, " AND category = ");
    push_like(&mut conditions, &f.name, " AND lower(name) LIKE ");
    Ok(ListQuery { page, page_size, offset, order_by, conditions })
}

/// The conditions an equipment, mash or other name-only filter adds.
pub open spec fn name_conditions<N>(name: Option<String>) -> Seq<(Seq<char>, FilterValueView<N>)> {
    like_condition::<N>(name, " AND lower(name) LIKE "@)
}

/// Builds the equipment-profile list query: a case-insensitive name
/// substring, sorted by name unless asked otherwise.
pub fn equipment_list_query<N>(f: &EquipmentFilter) -> (r: Result<ListQuery<N>, ApiError>)
    requires
        window_fits(f.page, f.page_size),
    ensures
        match r {
            Ok(q) => sort_clause(f.sort@, equipment_sort_spec(), "name"@) matches Ok(o) && query_is(q, f.page, f.page_size, o, name_conditions::<N>(f.name)),
            Err(e) => sort_clause(f.sort@, equipment_sort_spec(), "name"@) == Err::<Seq<char>, ApiErrorView>(e@),
        },
{
    let (page, page_size, offset) = window(f.page, f.page_size);
    let cols = equipment_sort_columns();
    let order_by = parse_sort(f.sort.as_str(), cols.as_slice(), "name")?;
    let mut conditions: Vec<Condition<N>> = Vec::new();
    push_like(&mut conditions, &f.name, " AND lower(name) LIKE ");
    Ok(ListQuery { page, page_size, offset, order_by, conditions })
}

/// Builds the mash-profile list query: a case-insensitive name substring,
/// sorted by name unless asked otherwise.
pub fn mash_list_query<N>(f: &MashFilter) -> (r: Result<ListQuery<N>, ApiError>)
    requires
        window_fits(f.page, f.page_size),
    ensures
        match r {
            Ok(q) => sort_clause(f.sort@, mash_sort_spec(), "name"@) matches Ok(o) && query_is(q, f.page, f.page_size, o, name_conditions::<N>(f.name)),
            Err(e) => sort_clause(f.sort@, mash_sort_spec(), "name"@) == Err::<Seq<char>, ApiErrorView>(e@),
        },
{
    let (page, page_size, offset) = window(f.page, f.page_size);
    let cols = mash_sort_columns();
    let order_by = parse_sort(f.sort.as_str(), cols.as_slice(), "name")?;
    let mut conditions: Vec<Condition<N>> = Vec::new();
    push_like(&mut conditions, &f.name, " AND lower(name) LIKE ");
    Ok(ListQuery { page, page_size, offset, order_by, conditions })
}

/// The conditions a yeast filter adds.
pub open spec fn yeast_conditions<N>(f: YeastFilter<N>) -> Seq<(Seq<char>, FilterValueView<N>)> {
    like_condition::<N>(f.name, " AND lower(name) LIKE "@)
        + like_condition::<N>(f.manufacturer, " AND lower(manufacturer) LIKE "@)
        + number_condition::<N>(f.attenuation_min, " AND attenuation_min_pct >= "@)
        + number_condition::<N>(f.attenuation_max, " AND attenuation_max_pct <= "@)
}

/// Builds the yeast list query: case-insensitive name and manufacturer
/// substrings and attenuation bounds, sorted by name unless asked otherwise.
pub fn yeast_list_query<N: Copy>(f: &YeastFilter<N>) -> (r: Result<ListQuery<N>, ApiError>)
    requires
        window_fits(f.page, f.page_size),
    ensures
        match r {
            Ok(q) => sort_clause(f.sort@, yeast_sort_spec(), "name"@) matches Ok(o) && query_is(q, f.page, f.page_size, o, yeast_conditions::<N>(*f)),
            Err(e) => sort_clause(f.sort@, yeast_sort_spec(), "name"@) == Err::<Seq<char>, ApiErrorView>(e@),
        },
{
    let (page, page_size, offset) = window(f.page, f.page_size);
    let cols = yeast_sort_columns();
    let order_by = parse_sort(f.sort.as_str(), cols.as_slice(), "name")?;
    let mut conditions: Vec<Condition<N>> = Vec::new();
    push_like(&mut conditions, &f.name, " AND lower(name) LIKE ");
    push_like(&mut conditions, &f.manufacturer, " AND lower(manufacturer) LIKE ");
    push_number(&mut conditions, f.attenuation_min, " AND attenuation_min_pct >= ");
    push_number(&mut conditions, f.attenuation_max, " AND attenuation_max_pct <= ");
    Ok(ListQuery { page, page_size, offset, order_by, conditions })
}

/// The conditions a fermentable filter adds.
pub open spec fn fermentable_conditions<N>(f: FermentableFilter) -> Seq<(Seq<char>, FilterValueView<N>)> {
    like_condition::<N>(f.name, " AND lower(name) LIKE "@)
        + like_condition::<N>(f.supplier, " AND lower(supplier) LIKE "@)
        + lower_condition::<N>(f.fermentable_type, " AND lower(type) = "@)
}

/// Builds the fermentable list query: case-insensitive name and supplier
/// substrings and a case-insensitive type, sorted by name unless asked
/// otherwise.
pub fn fermentable_list_query<N>(f: &FermentableFilter) -> (r: Result<ListQuery<N>, ApiError>)
    requires
        window_fits(f.page, f.page_size),
    ensures
        match r {
            Ok(q) => sort_clause(f.sort@, fermentable_sort_spec(), "name"@) matches Ok(o) && query_is(q, f.page, f.page_size, o, fermentable_conditions::<N>(*f)),
            Err(e) => sort_clause(f.sort@, fermentable_sort_spec(), "name"@) == Err::<Seq<char>, ApiErrorView>(e@),
        },
{
    let (page, page_size, offset) = window(f.page, f.page_size);
    let cols = fermentable_sort_columns();
    let order_by = parse_sort(f.sort.as_str(), cols.as_slice(), "name")?;
    let mut conditions: Vec<Condition<N>> = Vec::new();
    push_like(&mut conditions, &f.name, " AND lower(name) LIKE ");
    push_like(&mut conditions, &f.supplier, " AND lower(supplier) LIKE ");
    push_lower(&mut conditions, &f.fermentable_type, " AND lower(type) = ");
    Ok(ListQuery { page, page_size, offset, order_by, conditions })
}


/// The yeast attenuation filters are bounds in the direction their names
/// say: a minimum admits yeasts whose minimum attenuation is at least it
/// (`attenuation_min_pct >= min`), a maximum those whose maximum attenuation
/// is at most it (`attenuation_max_pct <= max`); each bound is bound as
/// given, the maximum last, and without bounds no attenuation condition is
/// added.
pub proof fn law_yeast_attenuation_bounds<N>(f: YeastFilter<N>)
    ensures
        f.attenuation_max matches Some(b) ==> yeast_conditions::<N>(f).last() == (
            " AND attenuation_max_pct <= "@,
            FilterValueView::Number(b),
        ),
        f.attenuation_min matches Some(b) ==> yeast_conditions::<N>(f).contains(
            (" AND attenuation_min_pct >= "@, FilterValueView::Number(b)),
        ),
        f.attenuation_min is None && f.attenuation_max is None ==> yeast_conditions::<N>(f) == like_condition::<N>(
            f.name,
            " AND lower(name) LIKE "@,
        ) + like_condition::<N>(f.manufacturer, " AND lower(manufacturer) LIKE "@),
{
    let head = like_condition::<N>(f.name, " AND lower(name) LIKE "@) + like_condition::<N>(
        f.manufacturer,
        " AND lower(manufacturer) LIKE "@,
    );
    let mins = number_condition::<N>(f.attenuation_min, " AND attenuation_min_pct >= "@);
    let maxs = number_condition::<N>(f.attenuation_max, " AND attenuation_max_pct <= "@);
    assert(yeast_conditions::<N>(f) == head + mins + maxs);
    if let Some(b) = f.attenuation_min {
        let c = yeast_conditions::<N>(f);
        assert(c[head.len() as int] == (" AND attenuation_min_pct >= "@, FilterValueView::<N>::Number(b)));
    }
    if f.attenuation_min is None && f.attenuation_max is None {
        assert(mins =~= Seq::<(Seq<char>, FilterValueView<N>)>::empty());
        assert(head + mins + maxs =~= head);
    }
}

} // verus!
