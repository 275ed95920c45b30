//! Packaging rules: the stock a run has left, the checks a distribution
//! movement passes before it is recorded (outbound movements never take
//! more than is left), run edits and deletion, and the list queries.

use vstd::prelude::*;
use crate::packaging::models::{outbound_spec, is_outbound, PatchPackagingRunRequest};
use crate::platform::errors::{
    business_rule_view, db_failure_view, entries_view, from_db_failure, plain_view, DbFailure, validation_view, ApiError, ApiErrorView, Detail,
    DetailView, ErrorKind,
};
use crate::platform::pagination::{clamped_page, clamped_size};
use crate::text::{chars_of, str_eq, string_of};

verus! {

/// The stock a run has left: its quantity, less every outbound movement,
/// plus every return.
pub open spec fn stock_of(quantity: int, movements: Seq<(Seq<char>, int)>) -> int
    decreases movements.len(),
{
    if movements.len() == 0 {
        quantity
    } else {
        let m = movements.last();
        let before = stock_of(quantity, movements.drop_last());
        if outbound_spec().contains(m.0) {
            before - m.1
        } else if m.0 == "return"@ {
            before + m.1
        } else {
            before
        }
    }
}

/// The refusal of a sale without an order.
pub open spec fn sale_without_order() -> ApiErrorView {
    validation_view("order_id"@, "required for movement_type=sale"@)
}

/// Checks a movement request before any stock is read: a sale needs an
/// order. Returns whether the movement draws stock, so that the remaining
/// stock must be checked.
pub fn check_movement_request(movement_type: &str, has_order: bool) -> (r: Result<bool, ApiError>)
    ensures
        match r {
            Ok(draws) => !(movement_type@ == "sale"@ && !has_order) && draws == outbound_spec().contains(movement_type@),
            Err(e) => movement_type@ == "sale"@ && !has_order && e@ == sale_without_order(),
        },
{
    if str_eq(movement_type, "sale") && !has_order {
        return Err(ApiError::validation("order_id", "required for movement_type=sale"));
    }
    Ok(is_outbound(movement_type))
}

/// The refusal of a movement that takes more than the run has left.
pub open spec fn insufficient_stock(requested: i32, available: i64) -> ApiErrorView {
    business_rule_view(
        "insufficient_stock"@,
        "Quantity exceeds available stock."@,
        seq![("requested"@, DetailView::Number(requested as i64)), ("available"@, DetailView::Number(available))],
    )
}

/// Checks an outbound movement against the run's remaining stock (`None`:
/// the run does not exist).
pub fn check_stock(quantity: i32, stock: Option<i64>) -> (r: Result<(), ApiError>)
    ensures
        match stock {
            None => r matches Err(e) && e@ == plain_view(ErrorKind::NotFound, "packaging_run"@ + " not found"@),
            Some(s) => if quantity > s {
                r matches Err(e) && e@ == insufficient_stock(quantity, s)
            } else {
                r is Ok
            },
        },
{
    match stock {
        None => Err(ApiError::not_found("packaging_run")),
        Some(s) => {
            if quantity as i64 > s {
                let mut details: Vec<(String, Detail)> = Vec::new();
                details.push((String::from_str("requested"), Detail::Number(quantity as i64)));
                details.push((String::from_str("available"), Detail::Number(s)));
                assert(entries_view(details@) =~= seq![
                    ("requested"@, DetailView::Number(quantity as i64)),
                    ("available"@, DetailView::Number(s)),
                ]);
                Err(ApiError::business_rule("insufficient_stock", "Quantity exceeds available stock.", details))
            } else {
                Ok(())
            }
        },
    }
}

/// Where a movement leaves from: the given location, or `brewery` when none
/// (or an empty one) is given.
pub fn movement_origin(from_location: Option<String>) -> (r: String)
    ensures
        r@ == (match from_location {
            Some(f) => if f@.len() > 0 { f@ } else { "brewery"@ },
            None => "brewery"@,
        }),
{
    match from_location {
        Some(f) => if !f.as_str().is_empty() {
            f
        } else {
            String::from_str("brewery")
        },
        None => String::from_str("brewery"),
    }
}

/// The origin a movement leaves from, as a plain value.
pub open spec fn origin_spec(from_location: Option<Seq<char>>) -> Seq<char> {
    match from_location {
        Some(f) => if f.len() > 0 { f } else { "brewery"@ },
        None => "brewery"@,
    }
}

/// What a movement request is answered, in the order of the checks: a sale
/// without an order is refused; an outbound movement of a run that does not
/// exist is not found, and one taking more than the run has left is refused;
/// anything else is accepted, leaving from its origin.
pub open spec fn movement_outcome(
    movement_type: Seq<char>,
    has_order: bool,
    quantity: i32,
    stock: Option<i64>,
    from_location: Option<Seq<char>>,
) -> Result<Seq<char>, ApiErrorView> {
    if movement_type == "sale"@ && !has_order {
        Err(sale_without_order())
    } else if outbound_spec().contains(movement_type) && stock is None {
        Err(plain_view(ErrorKind::NotFound, "packaging_run"@ + " not found"@))
    } else if outbound_spec().contains(movement_type) && quantity > stock->0 {
        Err(insufficient_stock(quantity, stock->0))
    } else {
        Ok(origin_spec(from_location))
    }
}

/// Decides a movement request: the order check, then for an outbound
/// movement the run's remaining stock (`stock`, as read; `None` when the run
/// does not exist, and not read for other movements), then the origin.
pub fn decide_movement(
    movement_type: &str,
    has_order: bool,
    quantity: i32,
    stock: Option<i64>,
    from_location: Option<String>,
) -> (r: Result<String, ApiError>)
    ensures
        match r {
            Ok(o) => movement_outcome(movement_type@, has_order, quantity, stock, opt_string(from_location)) == Ok::<
                Seq<char>,
                ApiErrorView,
            >(o@),
            Err(e) => movement_outcome(movement_type@, has_order, quantity, stock, opt_string(from_location)) == Err::<
                Seq<char>,
                ApiErrorView,
            >(e@),
        },
{
    let draws = check_movement_request(movement_type, has_order)?;
    if draws {
        check_stock(quantity, stock)?;
    }
    Ok(movement_origin(from_location))
}

/// A text's value, if it has one.
pub open spec fn opt_string(o: Option<String>) -> Option<Seq<char>> {
    match o {
        Some(s) => Some(s@),
        None => None,
    }
}

/// A movement accepted by the stock check leaves the run with stock that
/// is not negative: recording it subtracts no more than was left.
pub proof fn law_outbound_movement_keeps_stock(quantity: int, movements: Seq<(Seq<char>, int)>, movement_type: Seq<char>, amount: int)
    requires
        outbound_spec().contains(movement_type),
        amount <= stock_of(quantity, movements),
    ensures
        stock_of(quantity, movements.push((movement_type, amount))) == stock_of(quantity, movements) - amount,
        stock_of(quantity, movements.push((movement_type, amount))) >= 0,
{
    assert(movements.push((movement_type, amount)).drop_last() =~= movements);
}

/// A return adds its quantity back to the run's stock.
pub proof fn law_return_restores_stock(quantity: int, movements: Seq<(Seq<char>, int)>, amount: int)
    ensures
        stock_of(quantity, movements.push(("return"@, amount))) == stock_of(quantity, movements) + amount,
{
    assert(movements.push(("return"@, amount)).drop_last() =~= movements);
    lemma_return_not_outbound();
}

/// `return` is the one movement type that does not draw stock.
proof fn lemma_return_not_outbound()
    ensures
        !outbound_spec().contains("return"@),
{
    reveal_strlit("return");
    reveal_strlit("sale");
    reveal_strlit("taproom_transfer");
    reveal_strlit("internal_transfer");
    reveal_strlit("sample");
    reveal_strlit("disposal");
    let o = outbound_spec();
    let r = "return"@;
    assert(o[0].len() != r.len());
    assert(o[1].len() != r.len());
    assert(o[2].len() != r.len());
    assert(o[3][0] != r[0]);
    assert(o[4].len() != r.len());
    assert forall|i: int| 0 <= i < o.len() implies o[i] != r by {
        if i == 3 {
            assert(o[3][0] != r[0]);
        }
    }
}

/// Plans a run edit: at least one field, each given one replacing the
/// current value. Returns the new best-before date and notes.
pub fn plan_run_patch(current_best_before: Option<String>, current_notes: Option<String>, req: PatchPackagingRunRequest) -> (r: Result<(Option<String>, Option<String>), ApiError>)
    ensures
        req.best_before_date is None && req.notes is None ==> (r matches Err(e) && e@ == validation_view("body"@, "at least one field required"@)),
        !(req.best_before_date is None && req.notes is None) ==> r == Ok::<(Option<String>, Option<String>), ApiError>((
            if req.best_before_date is Some { req.best_before_date } else { current_best_before },
            if req.notes is Some { req.notes } else { current_notes },
        )),
{
    if req.best_before_date.is_none() && req.notes.is_none() {
        return Err(ApiError::validation("body", "at least one field required"));
    }
    let bb = if req.best_before_date.is_some() { req.best_before_date } else { current_best_before };
    let notes = if req.notes.is_some() { req.notes } else { current_notes };
    Ok((bb, notes))
}

/// Checks that a run may be deleted: not while it has movements.
pub fn check_run_deletable(has_movements: bool) -> (r: Result<(), ApiError>)
    ensures
        r is Ok <==> !has_movements,
        r matches Err(e) ==> e@ == plain_view(ErrorKind::Conflict, "packaging_run"@ + ": "@ + "has_movements"@),
{
    if has_movements {
        return Err(ApiError::conflict("packaging_run", "has_movements"));
    }
    Ok(())
}

/// The refusal of a second run with the same lot number.
pub fn duplicate_lot() -> (e: ApiError)
    ensures
        e@ == plain_view(ErrorKind::Conflict, "packaging_run"@ + ": "@ + "lot_number"@),
{
    ApiError::conflict("packaging_run", "lot_number")
}

/// `s` without its leading `-` chars.
pub open spec fn strip_dashes(s: Seq<char>) -> Seq<char>
    decreases s.len(),
{
    if s.len() > 0 && s[0] == '-' {
        strip_dashes(s.drop_first())
    } else {
        s
    }
}

fn strip_dashes_exec(v: &Vec<char>) -> (r: Vec<char>)
    ensures
        r@ == strip_dashes(v@),
{
    let mut i: usize = 0;
    assert(v@.skip(0) =~= v@);
    while i < v.len() && v[i] == '-'
        invariant
            i <= v@.len(),
            strip_dashes(v@) == strip_dashes(v@.skip(i as int)),
        decreases v.len() - i,
    {
        assert(v@.skip(i as int).drop_first() =~= v@.skip(i + 1));
        i += 1;
    }
    assert(v@.skip(i as int) =~= v@.subrange(i as int, v@.len() as int));
    crate::text::sub_chars(v, i, v.len())
}

/// The column a run sort name picks; unknown names sort by packaging date.
pub open spec fn run_column(name: Seq<char>) -> Seq<char> {
    if name == "lot_number"@ {
        "pr.lot_number"@
    } else if name == "format"@ {
        "pr.format"@
    } else if name == "unit_volume_ml"@ {
        "pr.unit_volume_ml"@
    } else if name == "quantity"@ {
        "pr.quantity"@
    } else if name == "best_before_date"@ {
        "pr.best_before_date"@
    } else {
        "pr.packaged_at"@
    }
}

/// The column a movement sort name picks; unknown names sort by move date.
pub open spec fn movement_column(name: Seq<char>) -> Seq<char> {
    if name == "movement_type"@ {
        "dm.movement_type"@
    } else if name == "quantity"@ {
        "dm.quantity"@
    } else if name == "from_location"@ {
        "dm.from_location"@
    } else if name == "to_location"@ {
        "dm.to_location"@
    } else if name == "reference"@ {
        "dm.reference"@
    } else {
        "dm.moved_at"@
    }
}

/// An `ORDER BY` clause from one sort term: a leading `-` means descending,
/// any leading `-` chars are dropped before the name is looked up, and the
/// creation time (newest first) breaks ties.
pub open spec fn order_clause(term: Seq<char>, column: Seq<char>, tiebreak: Seq<char>) -> Seq<char> {
    column + " "@ + (if term.len() > 0 && term[0] == '-' { "DESC"@ } else { "ASC"@ }) + ", "@ + tiebreak
}

/// The run `ORDER BY` clause for a sort string (default `-packaged_at`).
pub open spec fn run_sort_spec(sort: Seq<char>) -> Seq<char> {
    let term = if sort.len() == 0 { "-packaged_at"@ } else { sort };
    order_clause(term, run_column(strip_dashes(term)), "pr.created_at DESC"@)
}

/// The movement `ORDER BY` clause for a sort string (default `-moved_at`).
pub open spec fn movement_sort_spec(sort: Seq<char>) -> Seq<char> {
    let term = if sort.len() == 0 { "-moved_at"@ } else { sort };
    order_clause(term, movement_column(strip_dashes(term)), "dm.created_at DESC"@)
}

fn run_column_exec(name: &str) -> (c: &'static str)
    ensures
        c@ == run_column(name@),
{
    if str_eq(name, "lot_number") {
        "pr.lot_number"
    } else if str_eq(name, "format") {
        "pr.format"
    } else if str_eq(name, "unit_volume_ml") {
        "pr.unit_volume_ml"
    } else if str_eq(name, "quantity") {
        "pr.quantity"
    } else if str_eq(name, "best_before_date") {
        "pr.best_before_date"
    } else {
        "pr.packaged_at"
    }
}

fn movement_column_exec(name: &str) -> (c: &'static str)
    ensures
        c@ == movement_column(name@),
{
    if str_eq(name, "movement_type") {
        "dm.movement_type"
    } else if str_eq(name, "quantity") {
        "dm.quantity"
    } else if str_eq(name, "from_location") {
        "dm.from_location"
    } else if str_eq(name, "to_location") {
        "dm.to_location"
    } else if str_eq(name, "reference") {
        "dm.reference"
    } else {
        "dm.moved_at"
    }
}

fn order_clause_exec(term: &Vec<char>, column: &str, tiebreak: &str) -> (r: String)
    ensures
        r@ == order_clause(term@, column@, tiebreak@),
{
    let desc = term.len() > 0 && term[0] == '-';
    String::from_str(column).concat(" ").concat(if desc { "DESC" } else { "ASC" }).concat(", ").concat(tiebreak)
}

/// Safe `ORDER BY` for packaging runs (alias `pr`); default `-packaged_at`,
/// with `pr.created_at DESC` as a stable tiebreaker.
pub fn build_run_sort(sort: &str) -> (r: String)
    ensures
        r@ == run_sort_spec(sort@),
{
    let term = if sort.is_empty() { chars_of("-packaged_at") } else { chars_of(sort) };
    let name = string_of(&strip_dashes_exec(&term));
    let col = run_column_exec(name.as_str());
    order_clause_exec(&term, col, "pr.created_at DESC")
}

/// Safe `ORDER BY` for distribution movements (alias `dm`); default
/// `-moved_at`, with `dm.created_at DESC` as a stable tiebreaker.
pub fn build_movement_sort(sort: &str) -> (r: String)
    ensures
        r@ == movement_sort_spec(sort@),
{
    let term = if sort.is_empty() { chars_of("-moved_at") } else { chars_of(sort) };
    let name = string_of(&strip_dashes_exec(&term));
    let col = movement_column_exec(name.as_str());
    order_clause_exec(&term, col, "dm.created_at DESC")
}

/// Clamps page (at least 1) and page size (1 to 100, default 20).
pub fn clamp_page(page: i64, page_size: i64) -> (r: (i64, i64))
    ensures
        r.0 == clamped_page(page as int),
        r.1 == clamped_size(page_size as int, 20, 100),
{
    let page = if page < 1 {
        1
    } else {
        page
    };
    let page_size = if page_size < 1 {
        20
    } else if page_size > 100 {
        100
    } else {
        page_size
    };
    (page, page_size)
}

/// A value bound after a condition's SQL fragment.
#[derive(Clone, Debug)]
pub enum FilterValue {
    Id(u128),
    Text(String),
}

/// One `AND` condition of a list query.
#[derive(Clone, Debug)]
pub struct Condition {
    pub sql: &'static str,
    pub value: FilterValue,
}

/// The plain value of a bound value.
pub enum FilterValueView {
    Id(u128),
    Text(Seq<char>),
}

/// The plain values of a list of conditions.
pub open spec fn conditions_view(v: Seq<Condition>) -> Seq<(Seq<char>, FilterValueView)> {
    v.map_values(|c: Condition| (c.sql@, match c.value {
        FilterValue::Id(i) => FilterValueView::Id(i),
        FilterValue::Text(s) => FilterValueView::Text(s@),
    }))
}

/// An id condition when the filter is given.
pub open spec fn id_condition(o: Option<u128>, sql: Seq<char>) -> Seq<(Seq<char>, FilterValueView)> {
    match o {
        Some(i) => seq![(sql, FilterValueView::Id(i))],
        None => seq![],
    }
}

/// A text condition when the filter is given.
pub open spec fn text_condition(o: Option<String>, sql: Seq<char>) -> Seq<(Seq<char>, FilterValueView)> {
    match o {
        Some(t) => seq![(sql, FilterValueView::Text(t@))],
        None => seq![],
    }
}

fn push_id(v: &mut Vec<Condition>, o: Option<u128>, sql: &'static str)
    ensures
        conditions_view(final(v)@) == conditions_view(old(v)@) + id_condition(o, sql@),
{
    if let Some(i) = o {
        v.push(Condition { sql, value: FilterValue::Id(i) });
    }
    assert(conditions_view(v@) =~= conditions_view(old(v)@) + id_condition(o, sql@));
}

fn push_text(v: &mut Vec<Condition>, o: &Option<String>, sql: &'static str)
    ensures
        conditions_view(final(v)@) == conditions_view(old(v)@) + text_condition(*o, sql@),
{
    if let Some(t) = o {
        v.push(Condition { sql, value: FilterValue::Text(t.clone()) });
    }
    assert(conditions_view(v@) =~= conditions_view(old(v)@) + text_condition(*o, sql@));
}

/// Filters for listing packaging runs.
#[derive(Clone, Debug)]
pub struct ListPackagingRunsFilter {
    pub batch_id: Option<u128>,
    pub format: Option<String>,
    pub sort: String,
    pub page: i64,
    pub page_size: i64,
}

/// Filters for listing distribution movements.
#[derive(Clone, Debug)]
pub struct ListMovementsFilter {
    pub packaging_run_id: Option<u128>,
    pub order_id: Option<u128>,
    pub movement_type: Option<String>,
    pub sort: String,
    pub page: i64,
    pub page_size: i64,
}

/// A tenant-scoped list query: the window, the order and the conditions.
pub struct ListQuery {
    pub page: i64,
    pub page_size: i64,
    /// `(page - 1) * page_size` rows are skipped.
    pub offset: i64,
    pub order_by: String,
    pub conditions: Vec<Condition>,
}

/// Whether the window of a requested page fits the offset's `i64`.
pub open spec fn window_fits(page: i64, page_size: i64) -> bool {
    (clamped_page(page as int) - 1) * clamped_size(page_size as int, 20, 100) <= i64::MAX
}

/// Builds the packaging-run list query: by batch and by format.
pub fn run_list_query(f: &ListPackagingRunsFilter) -> (q: ListQuery)
    requires
        window_fits(f.page, f.page_size),
    ensures
        q.page == clamped_page(f.page as int),
        q.page_size == clamped_size(f.page_size as int, 20, 100),
        q.offset == (q.page - 1) * q.page_size,
        q.order_by@ == run_sort_spec(f.sort@),
        conditions_view(q.conditions@) == id_condition(f.batch_id, " AND pr.batch_id = "@) + text_condition(f.format, " AND pr.format = "@),
{
    let (page, page_size) = clamp_page(f.page, f.page_size);
    let mut conditions: Vec<Condition> = Vec::new();
    push_id(&mut conditions, f.batch_id, " AND pr.batch_id = ");
    push_text(&mut conditions, &f.format, " AND pr.format = ");
    ListQuery { page, page_size, offset: (page - 1) * page_size, order_by: build_run_sort(f.sort.as_str()), conditions }
}

/// Builds the movement list query: by run, by order and by type.
pub fn movement_list_query(f: &ListMovementsFilter) -> (q: ListQuery)
    requires
        window_fits(f.page, f.page_size),
    ensures
        q.page == clamped_page(f.page as int),
        q.page_size == clamped_size(f.page_size as int, 20, 100),
        q.offset == (q.page - 1) * q.page_size,
        q.order_by@ == movement_sort_spec(f.sort@),
        conditions_view(q.conditions@) == id_condition(f.packaging_run_id, " AND dm.packaging_run_id = "@)
            + id_condition(f.order_id, " AND dm.order_id = "@) + text_condition(f.movement_type, " AND dm.movement_type = "@),
{
    let (page, page_size) = clamp_page(f.page, f.page_size);
    let mut conditions: Vec<Condition> = Vec::new();
    push_id(&mut conditions, f.packaging_run_id, " AND dm.packaging_run_id = ");
    push_id(&mut conditions, f.order_id, " AND dm.order_id = ");
    push_text(&mut conditions, &f.movement_type, " AND dm.movement_type = ");
    ListQuery { page, page_size, offset: (page - 1) * page_size, order_by: build_movement_sort(f.sort.as_str()), conditions }
}

/// The error a failed run insert becomes, given whether the database reported
/// a unique violation and what the failure was: a violation is a conflict,
/// any other failure the database error.
pub fn run_insert_failure(unique: bool, f: DbFailure) -> (r: ApiError)
    ensures
        unique ==> r@ == plain_view(ErrorKind::Conflict, "packaging_run"@ + ": "@ + "lot_number"@),
        !unique ==> r@ == db_failure_view(f),
{
    if unique {
        duplicate_lot()
    } else {
        from_db_failure(f)
    }
}

/// The error a failed run insert becomes: a unique violation reported by the
/// database is a conflict, any other failure the database error.
pub fn run_insert_error(e: &sqlx::Error) -> (r: ApiError)
    ensures
        r@ == plain_view(ErrorKind::Conflict, "packaging_run"@ + ": "@ + "lot_number"@)
            || r@ == plain_view(ErrorKind::NotFound, "resource"@ + " not found"@)
            || exists|t: Seq<char>| r@ == crate::platform::errors::internal_view(t),
{
    let unique = crate::platform::errors::is_unique_violation(e);
    run_insert_failure(unique, crate::platform::errors::classify_db_error(e))
}


/// Every movement that takes stock away (a sale, a taproom or internal
/// transfer, a sample, a disposal) is accepted only for a run that exists
/// and only for at most what the run has left: a missing run is not found,
/// and a larger quantity is refused naming what was asked and what is left.
/// A return is accepted whatever the stock.
pub proof fn law_outbound_movements_never_overdraw(
    movement_type: Seq<char>,
    has_order: bool,
    quantity: i32,
    stock: Option<i64>,
    from_location: Option<Seq<char>>,
)
    ensures
        (movement_type == "sale"@ || movement_type == "taproom_transfer"@ || movement_type
            == "internal_transfer"@ || movement_type == "sample"@ || movement_type == "disposal"@)
            ==> {
            &&& movement_outcome(movement_type, has_order, quantity, stock, from_location) is Ok ==> (
            stock is Some && quantity <= stock->0)
            &&& !(movement_type == "sale"@ && !has_order) ==> (stock is None ==> movement_outcome(
                movement_type,
                has_order,
                quantity,
                stock,
                from_location,
            ) == Err::<Seq<char>, ApiErrorView>(
                plain_view(ErrorKind::NotFound, "packaging_run"@ + " not found"@),
            ))
            &&& !(movement_type == "sale"@ && !has_order) ==> (stock is Some && quantity > stock->0
                ==> movement_outcome(movement_type, has_order, quantity, stock, from_location) == Err::<
                Seq<char>,
                ApiErrorView,
            >(insufficient_stock(quantity, stock->0)))
        },
        movement_outcome("return"@, has_order, quantity, stock, from_location) == Ok::<
            Seq<char>,
            ApiErrorView,
        >(origin_spec(from_location)),
{
    let o = outbound_spec();
    assert(o[0] == "sale"@);
    assert(o[1] == "taproom_transfer"@);
    assert(o[2] == "internal_transfer"@);
    assert(o[3] == "sample"@);
    assert(o[4] == "disposal"@);
    lemma_return_not_outbound();
    reveal_strlit("return");
    reveal_strlit("sale");
    assert("return"@ != "sale"@);
}

} // verus!
