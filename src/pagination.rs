//! Paging of the generated backend's admin listings.
use vstd::prelude::*;

verus! {

/// Page number used when a query names none.
pub fn default_page() -> (r: u64)
    ensures
        r == 1,
{
    1
}

/// Page size used when a query names none.
pub fn default_limit() -> (r: u64)
    ensures
        r == 25,
{
    25
}

/// Where a page of a listing starts and how many pages the listing has.
#[derive(Debug, Clone, Copy, PartialEq, Eq, Structural)]
pub struct PaginationMeta {
    pub page: u64,
    pub limit: u64,
    pub total: u64,
    pub total_pages: u64,
}

/// The number of records before page `page` (counted from 1) of size `limit`.
pub fn page_offset(page: u64, limit: u64) -> (r: u64)
    requires
        page >= 1,
        (page - 1) * limit <= u64::MAX,
    ensures
        r == (page - 1) * limit,
{
    (page - 1) * limit
}

impl PaginationMeta {
    /// The paging facts of page `page` of size `limit` of a listing of `total`
    /// records: enough pages to hold every record.
    pub fn new(page: u64, limit: u64, total: u64) -> (r: PaginationMeta)
        requires
            limit >= 1,
            total + limit <= u64::MAX,
        ensures
            r.page == page,
            r.limit == limit,
            r.total == total,
            r.total_pages == (total + limit - 1) / limit as int,
            (r.total_pages - 1) * limit < total <= r.total_pages * limit || (total == 0 && r.total_pages == 0),
    {
        let total_pages = (total + limit - 1) / limit;
        proof {
            let t = total as int;
            let l = limit as int;
            let p = total_pages as int;
            assert(p * l <= t + l - 1 < p * l + l) by (nonlinear_arith)
                requires
                    p == (t + l - 1) / l,
                    l >= 1,
                    t >= 0,
            ;
            if t > 0 {
                assert(p >= 1) by (nonlinear_arith)
                    requires
                        p == (t + l - 1) / l,
                        l >= 1,
                        t >= 1,
                ;
            } else {
                assert(p == 0) by (nonlinear_arith)
                    requires
                        p == (l - 1) / l,
                        l >= 1,
                ;
            }
            assert((p - 1) * l == p * l - l) by (nonlinear_arith);
        }
        PaginationMeta { page, limit, total, total_pages }
    }
}

} // verus!
