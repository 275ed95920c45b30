//! How the procurement list queries are built: the clamped page window, the
//! fixed `ORDER BY` choices, and the tenant-scoped filter conditions.

use vstd::prelude::*;
use crate::platform::pagination::{clamped_page, clamped_size};
use crate::procurement::models::{POFilter, SupplierFilter};
use crate::text::str_eq;

verus! {

/// Clamps page (at least 1) and page size (1 to 100, default 20).
pub fn clamp_page(page: i64, page_size: i64) -> (r: (i64, i64))
    ensures
        r.0 == clamped_page(page as int),
        r.1 == clamped_size(page_size as int, 20, 100),
{
    let page = if page < 1 {
        1
    } else {
        page
    };
    let page_size = if page_size < 1 {
        20
    } else if page_size > 100 {
        100
    } else {
        page_size
    };
    (page, page_size)
}

/// The supplier order for a sort name: by name or creation, either way;
/// anything else sorts by name.
pub open spec fn supplier_order_spec(sort: Seq<char>) -> Seq<char> {
    if sort == "name"@ {
        "name ASC"@
    } else if sort == "-name"@ {
        "name DESC"@
    } else if sort == "created_at"@ {
        "created_at ASC"@
    } else if sort == "-created_at"@ {
        "created_at DESC"@
    } else {
        "name ASC"@
    }
}

/// The order for a sort name on purchase orders: by order date or creation,
/// either way; anything else newest first.
pub open spec fn po_order_spec(sort: Seq<char>) -> Seq<char> {
    if sort == "order_date"@ {
        "po.order_date ASC"@
    } else if sort == "-order_date"@ {
        "po.order_date DESC"@
    } else if sort == "created_at"@ {
        "po.created_at ASC"@
    } else if sort == "-created_at"@ {
        "po.created_at DESC"@
    } else {
        "po.created_at DESC"@
    }
}

/// The `ORDER BY` clause for listing suppliers.
pub fn supplier_order_by(sort: &str) -> (r: &'static str)
    ensures
        r@ == supplier_order_spec(sort@),
{
    if str_eq(sort, "name") {
        "name ASC"
    } else if str_eq(sort, "-name") {
        "name DESC"
    } else if str_eq(sort, "created_at") {
        "created_at ASC"
    } else if str_eq(sort, "-created_at") {
        "created_at DESC"
    } else {
        "name ASC"
    }
}

/// The `ORDER BY` clause for listing purchase orders.
pub fn po_order_by(sort: &str) -> (r: &'static str)
    ensures
        r@ == po_order_spec(sort@),
{
    if str_eq(sort, "order_date") {
        "po.order_date ASC"
    } else if str_eq(sort, "-order_date") {
        "po.order_date DESC"
    } else if str_eq(sort, "created_at") {
        "po.created_at ASC"
    } else if str_eq(sort, "-created_at") {
        "po.created_at DESC"
    } else {
        "po.created_at DESC"
    }
}

/// Whether the window of a requested page fits the offset's `i64`.
pub open spec fn window_fits(page: i64, page_size: i64) -> bool {
    (clamped_page(page as int) - 1) * clamped_size(page_size as int, 20, 100) <= i64::MAX
}

/// The supplier list query: the window, the order, and the name prefix to
/// match case-insensitively (`None` when the search is empty).
pub struct SupplierQuery {
    pub page: i64,
    pub page_size: i64,
    pub offset: i64,
    pub order_by: &'static str,
    pub name_prefix: Option<String>,
}

/// Builds the supplier list query.
pub fn supplier_list_query(f: &SupplierFilter) -> (q: SupplierQuery)
    requires
        window_fits(f.page, f.page_size),
    ensures
        q.page == clamped_page(f.page as int),
        q.page_size == clamped_size(f.page_size as int, 20, 100),
        q.offset == (q.page - 1) * q.page_size,
        q.order_by@ == supplier_order_spec(f.sort@),
        f.search@.len() == 0 ==> q.name_prefix is None,
        f.search@.len() > 0 ==> (q.name_prefix matches Some(p) && p@ == f.search@),
{
    let (page, page_size) = clamp_page(f.page, f.page_size);
    let name_prefix = if f.search.as_str().is_empty() { None } else { Some(f.search.clone()) };
    SupplierQuery {
        page,
        page_size,
        offset: (page - 1) * page_size,
        order_by: supplier_order_by(f.sort.as_str()),
        name_prefix,
    }
}

/// The purchase-order list query: the window, the order, and the supplier
/// and status to match.
pub struct POQuery {
    pub page: i64,
    pub page_size: i64,
    pub offset: i64,
    pub order_by: &'static str,
    pub supplier_id: Option<u128>,
    pub status: Option<String>,
}

/// Builds the purchase-order list query.
pub fn po_list_query(f: &POFilter) -> (q: POQuery)
    requires
        window_fits(f.page, f.page_size),
    ensures
        q.page == clamped_page(f.page as int),
        q.page_size == clamped_size(f.page_size as int, 20, 100),
        q.offset == (q.page - 1) * q.page_size,
        q.order_by@ == po_order_spec(f.sort@),
        q.supplier_id == f.supplier_id,
        q.status == f.status,
{
    let (page, page_size) = clamp_page(f.page, f.page_size);
    POQuery {
        page,
        page_size,
        offset: (page - 1) * page_size,
        order_by: po_order_by(f.sort.as_str()),
        supplier_id: f.supplier_id,
        status: f.status.clone(),
    }
}

} // verus!
