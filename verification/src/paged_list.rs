//! Generic pagination over an ordered collection.
//!
//! A page request is 1-based; the underlying slice is 0-based, so page `n`
//! covers the items at offsets `(n - 1) * page_size` up to (excluding)
//! `(n - 1) * page_size + page_size`. The reported `total` is the number of
//! pages, `ceil(item_count / page_size)`, not the item count. A page past
//! the last one yields empty data with the true page count.

use vstd::prelude::*;
use vstd::arithmetic::div_mod::lemma_div_pos_is_pos;
use vstd::arithmetic::div_mod::lemma_fundamental_div_mod;
use vstd::arithmetic::div_mod::lemma_fundamental_div_mod_converse_div;
use vstd::arithmetic::mul::lemma_mul_inequality;

verus! {

/// One page of results: the rows of the requested page, the request-derived
/// page number and page size echoed back, and the total number of pages.
#[derive(Debug, PartialEq, Eq)]
pub struct PagedList<T> {
    pub data: Vec<T>,
    pub page: u64,
    pub page_size: u64,
    pub total: u64,
}

/// The raw query parameters of a listing request; both are optional.
#[derive(Debug, Clone, Copy, PartialEq, Eq)]
pub struct PagedListQueryParams {
    pub page: Option<u64>,
    pub page_size: Option<u64>,
}

/// The page number a request denotes: 1 when absent or zero.
pub open spec fn effective_page(q: PagedListQueryParams) -> u64 {
    match q.page {
        Option::Some(p) => if p >= 1 {
            p
        } else {
            1u64
        },
        Option::None => 1u64,
    }
}

/// The page size a request denotes: 10 when absent. An explicit zero is not
/// defaulted; it is invalid input to the paginator.
pub open spec fn effective_page_size(q: PagedListQueryParams) -> u64 {
    match q.page_size {
        Option::Some(s) => s,
        Option::None => 10u64,
    }
}

/// Total number of pages: `ceil(count / size)`.
pub open spec fn num_pages_spec(count: int, size: int) -> int
    recommends
        count >= 0,
        size >= 1,
{
    (count + size - 1) / size
}

/// The slice of `rows` that page `page` of size `size` covers, both bounds
/// clipped to the collection's length.
pub open spec fn page_data<T>(rows: Seq<T>, page: int, size: int) -> Seq<T>
    recommends
        page >= 1,
        size >= 1,
{
    let len = rows.len() as int;
    let lo = if (page - 1) * size <= len {
        (page - 1) * size
    } else {
        len
    };
    let hi = if (page - 1) * size + size <= len {
        (page - 1) * size + size
    } else {
        len
    };
    rows.subrange(lo, hi)
}

/// Total number of pages for `count` items at `size` per page.
pub fn num_pages(count: u64, size: u64) -> (n: u64)
    requires
        size >= 1,
    ensures
        n as int == num_pages_spec(count as int, size as int),
{
    let q = count / size;
    let r = count % size;
    proof {
        let c = count as int;
        let s = size as int;
        lemma_fundamental_div_mod(c, s);
        if r == 0 {
            assert(c + s - 1 == (c / s) * s + (s - 1)) by (nonlinear_arith)
                requires
                    c == s * (c / s),
            ;
            lemma_fundamental_div_mod_converse_div(c + s - 1, s, c / s, s - 1);
        } else {
            assert(c + s - 1 == (c / s + 1) * s + (c % s - 1)) by (nonlinear_arith)
                requires
                    c == s * (c / s) + c % s,
            ;
            lemma_fundamental_div_mod_converse_div(c + s - 1, s, c / s + 1, c % s - 1);
            // q + 1 does not overflow: q * s <= c - r < c
            lemma_mul_inequality(1, s, c / s);
            lemma_div_pos_is_pos(c, s);
        }
    }
    if r == 0 {
        q
    } else {
        q + 1
    }
}

impl<T> PagedList<T> {
    /// Paginate an ordered collection: default an absent or zero page to 1
    /// and an absent page size to 10, then return the covered slice with the
    /// total page count. An explicit page size of zero is invalid input and
    /// is left to the caller to reject.
    pub fn from_paginator(rows: Vec<T>, q: &PagedListQueryParams) -> (r: PagedList<T>)
        requires
            q.page_size != Option::Some(0u64),
        ensures
            r.page == effective_page(*q),
            r.page_size == effective_page_size(*q),
            r.total as int == num_pages_spec(rows@.len() as int, effective_page_size(*q) as int),
            r.data@ == page_data(rows@, effective_page(*q) as int, effective_page_size(*q) as int),
    {
        let page: u64 = match q.page {
            Option::Some(p) => if p >= 1 {
                p
            } else {
                1
            },
            Option::None => 1,
        };
        let size: u64 = match q.page_size {
            Option::Some(s) => s,
            Option::None => 10,
        };
        let len: usize = rows.len();
        let len64: u64 = len as u64;
        let total = num_pages(len64, size);
        let page_idx: u64 = page - 1;
        let ghost pi = page_idx as int;
        let ghost s = size as int;
        let ghost l = len as int;
        let start64: u64 = if page_idx >= len64 {
            proof {
                lemma_mul_inequality(1, s, pi);
            }
            len64
        } else if page_idx > (len64 - 1) / size {
            proof {
                let d = (l - 1) / s;
                lemma_fundamental_div_mod(l - 1, s);
                lemma_mul_inequality(d + 1, pi, s);
                assert((d + 1) * s == d * s + s) by (nonlinear_arith);
                assert(s * d == d * s) by (nonlinear_arith);
            }
            len64
        } else {
            proof {
                let d = (l - 1) / s;
                lemma_fundamental_div_mod(l - 1, s);
                lemma_mul_inequality(pi, d, s);
                assert(s * d == d * s) by (nonlinear_arith);
            }
            page_idx * size
        };
        assert(start64 as int == if pi * s <= l {
            pi * s
        } else {
            l
        });
        let start: usize = start64 as usize;
        let end: usize = if size >= len64 - start64 {
            len
        } else {
            start + (size as usize)
        };
        assert(end as int == if pi * s + s <= l {
            pi * s + s
        } else {
            l
        });
        let ghost rows0 = rows@;
        let mut v = rows;
        v.truncate(end);
        let mut k: usize = 0;
        while k < start
            invariant
                k <= start,
                start <= end <= rows0.len(),
                v@ == rows0.subrange(k as int, end as int),
            decreases start - k,
        {
            v.remove(0);
            proof {
                assert(v@ =~= rows0.subrange(k as int + 1, end as int));
            }
            k = k + 1;
        }
        proof {
            assert(v@ =~= page_data(rows0, page as int, size as int));
        }
        PagedList { data: v, page: page, page_size: size, total: total }
    }
}

/// Every page holds at most `size` rows.
pub proof fn lemma_page_within_page_size<T>(rows: Seq<T>, page: int, size: int)
    requires
        page >= 1,
        size >= 1,
    ensures
        page_data(rows, page, size).len() <= size,
{
}

/// The page count is the least `n` with `n * size >= count`: together the
/// two bounds say it is exactly `ceil(count / size)`.
pub proof fn lemma_total_is_ceil(count: int, size: int)
    requires
        count >= 0,
        size >= 1,
    ensures
        num_pages_spec(count, size) >= 0,
        num_pages_spec(count, size) * size >= count,
        (num_pages_spec(count, size) - 1) * size < count,
{
    let n = num_pages_spec(count, size);
    lemma_fundamental_div_mod(count + size - 1, size);
    lemma_div_pos_is_pos(count + size - 1, size);
    assert(n * size == size * n) by (nonlinear_arith);
    assert((n - 1) * size == size * n - size) by (nonlinear_arith);
}

/// The page count depends only on the collection size and the page size,
/// never on which page is requested.
pub proof fn lemma_total_invariant_across_pages(
    len: int,
    q1: PagedListQueryParams,
    q2: PagedListQueryParams,
)
    requires
        effective_page_size(q1) == effective_page_size(q2),
    ensures
        num_pages_spec(len, effective_page_size(q1) as int) == num_pages_spec(
            len,
            effective_page_size(q2) as int,
        ),
{
}

/// Requesting a page past the last one yields empty data.
pub proof fn lemma_page_beyond_last_is_empty<T>(rows: Seq<T>, page: int, size: int)
    requires
        size >= 1,
        page >= 1,
        page > num_pages_spec(rows.len() as int, size),
    ensures
        page_data(rows, page, size).len() == 0,
{
    let c = rows.len() as int;
    let n = num_pages_spec(c, size);
    lemma_total_is_ceil(c, size);
    lemma_mul_inequality(n, page - 1, size);
}

} // verus!
