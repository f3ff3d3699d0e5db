//! Page arithmetic for list endpoints.
//!
//! Pages are counted from one. A page or a page size of zero names no window
//! of results, so both are replaced when a [`Pagination`] is made: page zero
//! by the first page, size zero by the endpoint's default size.

use vstd::prelude::*;

verus! {

/// Page size of story listings when the request names none.
pub const DEFAULT_PAGE_SIZE: usize = 10;

/// Page size of chapter listings when the request names none.
pub const DEFAULT_CHAPTER_PAGE_SIZE: usize = 50;

/// Page served when the request names none.
pub const DEFAULT_PAGE: usize = 1;

/// Number of results that precede page `page` of pages of `size` results.
pub open spec fn offset_of(page: int, size: int) -> int {
    (page - 1) * size
}

/// Number of pages needed for `total` results: the quotient rounded up.
pub open spec fn pages_for(total: int, size: int) -> int
    recommends
        size >= 1,
        total >= 0,
{
    if total % size == 0 {
        total / size
    } else {
        total / size + 1
    }
}

/// A window of results: which page, and how many results a page holds.
#[derive(Clone, Copy, Debug, PartialEq, Eq)]
pub struct Pagination {
    pub page: usize,
    pub size: usize,
}

/// The window that is served for a requested page and size.
pub open spec fn window(page: usize, size: usize, default_size: usize) -> Pagination {
    Pagination {
        page: if page < 1 {
            DEFAULT_PAGE
        } else {
            page
        },
        size: if size < 1 {
            default_size
        } else {
            size
        },
    }
}

impl Pagination {
    /// Both numbers are at least one.
    pub open spec fn wf(&self) -> bool {
        self.page >= 1 && self.size >= 1
    }

    /// The offset of the window's first result. Where the product does not
    /// fit the machine word, it is the largest word.
    pub open spec fn spec_offset(&self) -> usize {
        if offset_of(self.page as int, self.size as int) <= usize::MAX {
            offset_of(self.page as int, self.size as int) as usize
        } else {
            usize::MAX
        }
    }

    /// The number of pages that `total` results fill.
    pub open spec fn spec_total_pages(&self, total: u64) -> u64 {
        pages_for(total as int, self.size as int) as u64
    }

    /// The window of a story listing for a requested page and size.
    pub fn stories(page: usize, size: usize) -> (p: Pagination)
        ensures
            p.wf(),
            p == window(page, size, DEFAULT_PAGE_SIZE),
    {
        Pagination {
            page: if page < 1 { DEFAULT_PAGE } else { page },
            size: if size < 1 { DEFAULT_PAGE_SIZE } else { size },
        }
    }

    /// The window of a chapter listing for a requested page and size.
    pub fn chapters(page: usize, size: usize) -> (p: Pagination)
        ensures
            p.wf(),
            p == window(page, size, DEFAULT_CHAPTER_PAGE_SIZE),
    {
        Pagination {
            page: if page < 1 { DEFAULT_PAGE } else { page },
            size: if size < 1 { DEFAULT_CHAPTER_PAGE_SIZE } else { size },
        }
    }

    /// Whether both numbers are at least one.
    pub fn is_wf(&self) -> (b: bool)
        ensures
            b == self.wf(),
    {
        self.page >= 1 && self.size >= 1
    }

    /// Offset of the first result of the page.
    pub fn offset(&self) -> (from: usize)
        requires
            self.wf(),
        ensures
            from == self.spec_offset(),
    {
        let before: usize = self.page - 1;
        match before.checked_mul(self.size) {
            Some(from) => from,
            None => usize::MAX,
        }
    }

    /// Number of pages that `total` results fill.
    pub fn total_pages(&self, total: u64) -> (pages: u64)
        requires
            self.wf(),
        ensures
            pages == self.spec_total_pages(total),
            pages == pages_for(total as int, self.size as int),
    {
        let size: u64 = self.size as u64;
        let whole: u64 = total / size;
        if total % size == 0 {
            whole
        } else {
            proof {
                lemma_quotient_below(total as int, size as int);
            }
            whole + 1
        }
    }
}

/// A quotient by a positive divisor that leaves a remainder is below the
/// dividend.
proof fn lemma_quotient_below(total: int, size: int)
    requires
        total >= 0,
        size >= 1,
        total % size != 0,
    ensures
        total / size < total,
{
    assert(total / size < total) by (nonlinear_arith)
        requires
            total >= 0,
            size >= 1,
            total % size != 0,
    ;
}

/// The page count of a window fits the machine's 64-bit word: it is the
/// rounded-up quotient itself.
pub proof fn lemma_window_pages(p: Pagination, total: u64)
    requires
        p.wf(),
    ensures
        p.spec_total_pages(total) == pages_for(total as int, p.size as int),
        0 <= pages_for(total as int, p.size as int) <= total,
{
    let t = total as int;
    let s = p.size as int;
    let n = pages_for(t, s);
    assert(0 <= n <= t) by (nonlinear_arith)
        requires
            t >= 0,
            s >= 1,
            n == if t % s == 0 {
                t / s
            } else {
                t / s + 1
            },
    ;
}

/// The window arithmetic: the offset of a page is the number of results on
/// the pages before it, and the page count is the least number of pages
/// that hold all results.
pub proof fn lemma_window_arithmetic(p: Pagination, total: u64)
    requires
        p.wf(),
        (p.page - 1) * p.size <= usize::MAX,
    ensures
        p.spec_offset() == (p.page - 1) * p.size,
        p.spec_total_pages(total) * p.size >= total,
        p.spec_total_pages(total) == 0 <==> total == 0,
        total > 0 ==> (p.spec_total_pages(total) - 1) * p.size < total,
{
    let t = total as int;
    let s = p.size as int;
    let n = pages_for(t, s);
    assert(0 <= n <= t && n * s >= t && (n == 0 <==> t == 0) && (t > 0 ==> (n - 1) * s < t))
        by (nonlinear_arith)
        requires
            t >= 0,
            s >= 1,
            n == if t % s == 0 {
                t / s
            } else {
                t / s + 1
            },
    ;
}

/// A page or a size of zero is replaced; every other request is served as
/// it was made.
pub proof fn lemma_window_defaults(page: usize, size: usize, default_size: usize)
    requires
        default_size >= 1,
    ensures
        window(page, size, default_size).wf(),
        page >= 1 ==> window(page, size, default_size).page == page,
        size >= 1 ==> window(page, size, default_size).size == size,
        page == 0 ==> window(page, size, default_size).page == 1,
        size == 0 ==> window(page, size, default_size).size == default_size,
{
}

} // verus!
