//! How the label-record list query is built: the page window, the fixed
//! `ORDER BY` choices, and the tenant-scoped filters.

use vstd::prelude::*;
use crate::text::str_eq;

verus! {

/// Clamps page (at least 1) and page size (at least 1, default 20; no upper
/// bound here).
pub fn clamp_page(page: i64, page_size: i64) -> (r: (i64, i64))
    ensures
        r.0 == (if page < 1 { 1 } else { page }),
        r.1 == (if page_size < 1 { 20 } else { page_size }),
{
    let page = if page < 1 {
        1
    } else {
        page
    };
    let page_size = if page_size < 1 {
        20
    } else {
        page_size
    };
    (page, page_size)
}

/// The order for a sort name: by creation, update, product name or status,
/// a leading `-` for descending; anything else (or none) newest first.
pub open spec fn label_order_spec(sort: Option<Seq<char>>) -> Seq<char> {
    match sort {
        Some(s) => if s == "created_at"@ {
            "created_at ASC"@
        } else if s == "-created_at"@ {
            "created_at DESC"@
        } else if s == "updated_at"@ {
            "updated_at ASC"@
        } else if s == "-updated_at"@ {
            "updated_at DESC"@
        } else if s == "product_name"@ {
            "product_name ASC"@
        } else if s == "-product_name"@ {
            "product_name DESC"@
        } else if s == "status"@ {
            "status ASC"@
        } else if s == "-status"@ {
            "status DESC"@
        } else {
            "created_at DESC"@
        },
        None => "created_at DESC"@,
    }
}

/// The `ORDER BY` clause for listing label records.
pub fn label_order_by(sort: Option<&str>) -> (r: &'static str)
    ensures
        r@ == label_order_spec(match sort { Some(s) => Some(s@), None => None }),
{
    match sort {
        Some(s) => if str_eq(s, "created_at") {
            "created_at ASC"
        } else if str_eq(s, "-created_at") {
            "created_at DESC"
        } else if str_eq(s, "updated_at") {
            "updated_at ASC"
        } else if str_eq(s, "-updated_at") {
            "updated_at DESC"
        } else if str_eq(s, "product_name") {
            "product_name ASC"
        } else if str_eq(s, "-product_name") {
            "product_name DESC"
        } else if str_eq(s, "status") {
            "status ASC"
        } else if str_eq(s, "-status") {
            "status DESC"
        } else {
            "created_at DESC"
        },
        None => "created_at DESC",
    }
}

/// Filters for listing label records.
#[derive(Clone, Debug)]
pub struct ListFilter {
    pub batch_id: Option<u128>,
    pub status: Option<String>,
    pub page: i64,
    pub page_size: i64,
    pub sort: Option<String>,
}

/// The label-record list query: the window, the order, and the batch and
/// status to match.
pub struct LabelQuery {
    pub page: i64,
    pub page_size: i64,
    pub offset: i64,
    pub order_by: &'static str,
    pub batch_id: Option<u128>,
    /// A status filter; an empty one filters nothing.
    pub status: Option<String>,
}

/// Whether the window of a requested page fits the offset's `i64`.
pub open spec fn window_fits(page: i64, page_size: i64) -> bool {
    ((if page < 1 { 1 } else { page as int }) - 1) * (if page_size < 1 { 20 } else { page_size as int }) <= i64::MAX
}

/// Builds the label-record list query.
pub fn list_query(f: &ListFilter) -> (q: LabelQuery)
    requires
        window_fits(f.page, f.page_size),
    ensures
        q.page == (if f.page < 1 { 1 } else { f.page }),
        q.page_size == (if f.page_size < 1 { 20 } else { f.page_size }),
        q.offset == (q.page - 1) * q.page_size,
        q.order_by@ == label_order_spec(crate::labels::models::opt_text(f.sort)),
        q.batch_id == f.batch_id,
        q.status == (match f.status { Some(s) => if s@.len() > 0 { Some(s) } else { None }, None => None::<String> }),
{
    let (page, page_size) = clamp_page(f.page, f.page_size);
    let sort: Option<&str> = match &f.sort {
        Some(s) => Some(s.as_str()),
        None => None,
    };
    let status = match &f.status {
        Some(s) => if !s.as_str().is_empty() { Some(s.clone()) } else { None },
        None => None,
    };
    LabelQuery {
        page,
        page_size,
        offset: (page - 1) * page_size,
        order_by: label_order_by(sort),
        batch_id: f.batch_id,
        status,
    }
}

} // verus!
