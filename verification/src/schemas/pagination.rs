//! Pagination parameters and the paginated response envelope.
//!
//! Query `?page=<1-based>&page_size=<n>`: `page` defaults to 1 and is at
//! least 1; `page_size` defaults to [`DEFAULT_PAGE_SIZE`] and is clamped to
//! `1..=`[`MAX_PAGE_SIZE`].

use vstd::prelude::*;

verus! {

/// Default page size when `page_size` is omitted.
pub const DEFAULT_PAGE_SIZE: u32 = 20;

/// Maximum allowed page size.
pub const MAX_PAGE_SIZE: u32 = 100;

/// Pagination query parameters.
#[derive(Debug, Clone)]
pub struct PageParams {
    /// 1-based page number.
    pub page: Option<u32>,
    /// Page size (capped at [`MAX_PAGE_SIZE`]).
    pub page_size: Option<u32>,
}

/// The effective 1-based page number.
pub open spec fn effective_page(page: Option<u32>) -> u32 {
    match page {
        Some(p) => if p < 1 {
            1
        } else {
            p
        },
        None => 1,
    }
}

/// The effective page size.
pub open spec fn effective_page_size(page_size: Option<u32>) -> u32 {
    let s = match page_size {
        Some(s) => s,
        None => DEFAULT_PAGE_SIZE,
    };
    if s < 1 {
        1
    } else if s > MAX_PAGE_SIZE {
        MAX_PAGE_SIZE
    } else {
        s
    }
}

impl Default for PageParams {
    fn default() -> (res: Self)
        ensures
            res.page is None,
            res.page_size is None,
    {
        PageParams { page: None, page_size: None }
    }
}

impl PageParams {
    /// Resolves the raw parameters into SQL `(limit, offset)` plus the
    /// effective `(page, page_size)` for the response envelope.
    pub fn resolve(&self) -> (res: (i64, i64, u32, u32))
        ensures
            res.2 == effective_page(self.page),
            res.3 == effective_page_size(self.page_size),
            res.0 == res.3 as i64,
            res.1 == (res.2 - 1) * res.0,
            self.page_size is None ==> res.3 == 20,
            self.page_size matches Some(s) ==> res.3 == (if s < 1 {
                1
            } else if s > 100 {
                100
            } else {
                s
            }),
            self.page is None ==> res.2 == 1,
            self.page matches Some(p) ==> res.2 == (if p < 1 {
                1
            } else {
                p
            }),
    {
        let page: u32 = match self.page {
            Some(p) => if p < 1 {
                1
            } else {
                p
            },
            None => 1,
        };
        let raw_size: u32 = match self.page_size {
            Some(s) => s,
            None => DEFAULT_PAGE_SIZE,
        };
        let page_size: u32 = if raw_size < 1 {
            1
        } else if raw_size > MAX_PAGE_SIZE {
            MAX_PAGE_SIZE
        } else {
            raw_size
        };
        let limit: i64 = page_size as i64;
        let pages_before: i64 = (page - 1) as i64;
        assert(0 <= pages_before * limit <= 0xffff_ffffi64 * 100) by (nonlinear_arith)
            requires
                0 <= pages_before <= 0xffff_ffff,
                1 <= limit <= 100,
        ;
        let offset: i64 = pages_before * limit;
        (limit, offset, page, page_size)
    }
}

/// The resolved page size is always within `1..=MAX_PAGE_SIZE`, the page is at
/// least 1, and the offset skips exactly the rows of the earlier pages.
pub proof fn law_resolve_bounds(params: PageParams)
    ensures
        1 <= effective_page(params.page),
        1 <= effective_page_size(params.page_size) <= MAX_PAGE_SIZE,
        0 <= (effective_page(params.page) - 1) * effective_page_size(params.page_size),
{
    let p = effective_page(params.page) - 1;
    let s = effective_page_size(params.page_size);
    assert(0 <= p * s) by (nonlinear_arith)
        requires
            0 <= p,
            0 <= s,
    ;
}

/// Resolving is idempotent: feeding the effective page and page size back in
/// as explicit parameters yields the same page and page size.
pub proof fn law_resolve_idempotent(params: PageParams)
    ensures
        effective_page(Some(effective_page(params.page))) == effective_page(params.page),
        effective_page_size(Some(effective_page_size(params.page_size))) == effective_page_size(
            params.page_size,
        ),
{
}

/// A requested page size is kept when it lies in `1..=100`; a smaller one
/// becomes 1, a larger one 100, and an absent one 20. A requested page is kept
/// when it is at least 1; page 0 and an absent page become page 1.
pub proof fn law_requested_values_are_kept_in_range(s: u32, p: u32)
    ensures
        1 <= s <= 100 ==> effective_page_size(Some(s)) == s,
        s < 1 ==> effective_page_size(Some(s)) == 1,
        s > 100 ==> effective_page_size(Some(s)) == 100,
        effective_page_size(None) == 20,
        p >= 1 ==> effective_page(Some(p)) == p,
        p < 1 ==> effective_page(Some(p)) == 1,
        effective_page(None) == 1,
{
}

/// Generic paginated response envelope.
#[derive(Debug)]
pub struct Page<T> {
    /// Items on the current page.
    pub items: Vec<T>,
    /// 1-based page number.
    pub page: u32,
    /// Effective page size.
    pub page_size: u32,
    /// Total matching rows across all pages.
    pub total: i64,
}

impl<T> Page<T> {
    /// Builds an envelope from items, the resolved page/size, and the total.
    pub fn new(items: Vec<T>, page: u32, page_size: u32, total: i64) -> (res: Self)
        ensures
            res.items == items,
            res.page == page,
            res.page_size == page_size,
            res.total == total,
    {
        Page { items, page, page_size, total }
    }
}

} // verus!
