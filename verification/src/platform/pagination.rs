//! Page/page-size clamping, saturating offsets, and the shared page envelope.
//!
//! Page sizes are capped, and the SQL offset `(page - 1) * page_size` is
//! computed with saturating arithmetic so that extreme pages cannot overflow.

use vstd::prelude::*;

verus! {

/// Default number of items per page when none (or an invalid one) is given.
pub const DEFAULT_PAGE_SIZE: i64 = 20;

/// Maximum allowed page size.
pub const MAX_PAGE_SIZE: i64 = 100;

/// The clamped page: at least 1.
pub open spec fn clamped_page(page: int) -> int {
    if page < 1 {
        1
    } else {
        page
    }
}

/// The clamped page size: `default_size` below 1, `max_size` above it.
pub open spec fn clamped_size(page_size: int, default_size: int, max_size: int) -> int {
    if page_size < 1 {
        default_size
    } else if page_size > max_size {
        max_size
    } else {
        page_size
    }
}

/// `ceil(total / page_size)` when both are positive, otherwise 0.
pub open spec fn total_pages_of(total: int, page_size: int) -> int {
    if page_size > 0 && total > 0 {
        (total + page_size - 1) / page_size
    } else {
        0
    }
}

/// The SQL offset for a page: `(page - 1) * page_size`, where a page below
/// 1 counts as page 1 and a negative size as 0, capped at `i64::MAX`.
pub open spec fn offset_of(page: int, page_size: int) -> int {
    let p = if page < 1 { 1 } else { page };
    let s = if page_size < 0 { 0 } else { page_size };
    let o = (p - 1) * s;
    if o > i64::MAX { i64::MAX as int } else { o }
}

/// Clamps page and page size with the module defaults: `page < 1` becomes 1,
/// `page_size < 1` becomes [`DEFAULT_PAGE_SIZE`], above [`MAX_PAGE_SIZE`] it
/// becomes [`MAX_PAGE_SIZE`].
pub fn clamp(page: i64, page_size: i64) -> (r: (i64, i64))
    ensures
        r.0 == clamped_page(page as int),
        r.1 == clamped_size(page_size as int, DEFAULT_PAGE_SIZE as int, MAX_PAGE_SIZE as int),
{
    clamp_with(page, page_size, DEFAULT_PAGE_SIZE, MAX_PAGE_SIZE)
}

/// Clamps page and page size with custom defaults.
pub fn clamp_with(page: i64, page_size: i64, default_size: i64, max_size: i64) -> (r: (i64, i64))
    ensures
        r.0 == clamped_page(page as int),
        r.1 == clamped_size(page_size as int, default_size as int, max_size as int),
{
    let page = if page < 1 {
        1
    } else {
        page
    };
    let page_size = if page_size < 1 {
        default_size
    } else if page_size > max_size {
        max_size
    } else {
        page_size
    };
    (page, page_size)
}

/// The SQL OFFSET for a page, never negative: a page below 1 counts as
/// page 1 and a negative size as 0, and an offset beyond `i64::MAX` is capped
/// there, so extreme values such as `page = i64::MAX` cannot overflow.
pub fn offset(page: i64, page_size: i64) -> (r: i64)
    ensures
        r == offset_of(page as int, page_size as int),
        r >= 0,
{
    let p: i64 = if page < 1 { 1 } else { page };
    let s: i64 = if page_size < 0 { 0 } else { page_size };
    let a: i128 = p as i128 - 1;
    assert(0 <= (a as int) * (s as int) <= 0x4000_0000_0000_0000_0000_0000_0000_0000) by (nonlinear_arith)
        requires
            0 <= a <= i64::MAX,
            0 <= s <= i64::MAX,
    ;
    let o: i128 = a * (s as i128);
    if o > i64::MAX as i128 {
        i64::MAX
    } else {
        o as i64
    }
}

/// `ceil(total / page_size)` for positive values, computed without overflow.
pub fn total_pages(total: i64, page_size: i64) -> (r: i64)
    ensures
        r == total_pages_of(total as int, page_size as int),
{
    if page_size > 0 && total > 0 {
        let q = total / page_size;
        let rem = total % page_size;
        proof {
            let t = total as int;
            let s = page_size as int;
            assert(t == s * q + rem) by (nonlinear_arith)
                requires
                    q == t / s,
                    rem == t % s,
                    s > 0,
            ;
            assert(0 <= rem < s) by (nonlinear_arith)
                requires
                    rem == t % s,
                    s > 0,
            ;
            assert(q >= 0);
            assert(q <= t) by (nonlinear_arith)
                requires
                    t == s * q + rem,
                    0 <= rem,
                    s > 0,
                    t > 0,
            ;
            if rem != 0 {
                assert(q < t) by (nonlinear_arith)
                    requires
                        t == s * q + rem,
                        0 < rem,
                        s > 0,
                        q >= 0,
                ;
            }
            if rem == 0 {
                assert((t + s - 1) / s == q) by (nonlinear_arith)
                    requires
                        t == s * q,
                        s > 0,
                ;
            } else {
                assert((t + s - 1) / s == q + 1) by (nonlinear_arith)
                    requires
                        t == s * q + rem,
                        0 < rem < s,
                ;
            }
        }
        if rem != 0 {
            q + 1
        } else {
            q
        }
    } else {
        0
    }
}

/// Generic paginated response envelope.
pub struct Page<T> {
    /// The items on this page.
    pub items: Vec<T>,
    /// Total number of items across all pages.
    pub total: i64,
    /// Current page number (1-indexed).
    pub page: i64,
    /// Number of items per page.
    pub page_size: i64,
    /// Total number of pages: `ceil(total / page_size)`, 0 when either is not positive.
    pub total_pages: i64,
}

impl<T> Page<T> {
    /// Builds a page, computing `total_pages`.
    pub fn new(items: Vec<T>, total: i64, page: i64, page_size: i64) -> (p: Self)
        ensures
            p.items == items,
            p.total == total,
            p.page == page,
            p.page_size == page_size,
            p.total_pages == total_pages_of(total as int, page_size as int),
    {
        let total_pages = total_pages(total, page_size);
        Page { items, total, page, page_size, total_pages }
    }
}

/// Clamping yields a valid page (at least 1) and a page size in
/// `1..=MAX_PAGE_SIZE`.
pub proof fn law_clamp_in_range(page: i64, page_size: i64)
    ensures
        clamped_page(page as int) >= 1,
        1 <= clamped_size(page_size as int, DEFAULT_PAGE_SIZE as int, MAX_PAGE_SIZE as int)
            <= MAX_PAGE_SIZE,
{
}

/// Clamping leaves an already valid page and page size unchanged.
pub proof fn law_clamp_idempotent(page: i64, page_size: i64, default_size: i64, max_size: i64)
    requires
        page >= 1,
        1 <= page_size <= max_size,
    ensures
        clamped_page(page as int) == page,
        clamped_size(page_size as int, default_size as int, max_size as int) == page_size,
{
}

/// The offset is never negative, and for a page of at least 1 and a size of
/// at least 0 it is the exact `(page - 1) * page_size` whenever that fits in
/// `i64`, else `i64::MAX`.
pub proof fn law_offset_exact_or_saturated(page: i64, page_size: i64)
    ensures
        offset_of(page as int, page_size as int) >= 0,
        page >= 1 && page_size >= 0 && (page - 1) * page_size <= i64::MAX ==> offset_of(
            page as int,
            page_size as int,
        ) == (page - 1) * page_size,
        page >= 1 && page_size >= 0 && (page - 1) * page_size > i64::MAX ==> offset_of(
            page as int,
            page_size as int,
        ) == i64::MAX,
{
    let p: int = if page < 1 { 1 } else { page as int };
    let s: int = if page_size < 0 { 0 } else { page_size as int };
    assert((p - 1) * s >= 0) by (nonlinear_arith)
        requires
            p >= 1,
            s >= 0,
    ;
}

/// The pages cover the total exactly: `total_pages` pages of `page_size`
/// hold all `total` items, and one page fewer would not.
pub proof fn law_total_pages_cover(total: i64, page_size: i64)
    requires
        total > 0,
        page_size > 0,
    ensures
        total_pages_of(total as int, page_size as int) * page_size >= total,
        (total_pages_of(total as int, page_size as int) - 1) * page_size < total,
{
    let t = total as int;
    let s = page_size as int;
    let n = (t + s - 1) / s;
    assert(n * s >= t && (n - 1) * s < t) by (nonlinear_arith)
        requires
            n == (t + s - 1) / s,
            t > 0,
            s > 0,
    ;
}

} // verus!
