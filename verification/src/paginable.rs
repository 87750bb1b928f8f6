//! Pagination policy: from an optional page and an optional limit to the
//! concrete limit and offset of a listing query.

use vstd::prelude::*;
use crate::constants::DEFAULT_LIMIT;
use crate::constants::DEFAULT_PAGE;

verus! {

/// The supplied value, or the default where none was supplied.
pub open spec fn value_or(supplied: Option<u32>, default: u32) -> int {
    match supplied {
        Some(value) => value as int,
        None => default as int,
    }
}

/// The number of rows to skip for a 1-based `page` of `limit` rows. Page 0
/// marks no page boundary and skips nothing.
pub open spec fn offset_of(page: int, limit: int) -> int {
    if page > 0 {
        (page - 1) * limit
    } else {
        0
    }
}

/// Whether pagination was asked for: whether a page or a limit was supplied.
pub open spec fn paging_requested(page: Option<u32>, limit: Option<u32>) -> bool {
    page.is_some() || limit.is_some()
}

/// The offset is never negative.
pub proof fn lemma_offset_nonnegative(page: int, limit: int)
    requires
        0 <= limit,
    ensures
        0 <= offset_of(page, limit),
{
    if page > 0 {
        assert(0 <= (page - 1) * limit) by (nonlinear_arith)
            requires
                0 <= page - 1,
                0 <= limit,
        ;
    }
}

/// The supplied limit, or `default` where none was supplied.
pub fn limit_or(limit: Option<u32>, default: u32) -> (result: i64)
    ensures
        result == value_or(limit, default),
{
    match limit {
        Some(value) => value as i64,
        None => default as i64,
    }
}

/// The supplied page, or `default` where none was supplied.
pub fn page_or(page: Option<u32>, default: u32) -> (result: i64)
    ensures
        result == value_or(page, default),
{
    match page {
        Some(value) => value as i64,
        None => default as i64,
    }
}

/// The offset of the requested page, with the defaults applied first. The
/// offset has to fit the 64-bit integer that the store takes.
pub fn offset_or(
    page: Option<u32>,
    limit: Option<u32>,
    default_page: u32,
    default_limit: u32,
) -> (result: i64)
    requires
        offset_of(value_or(page, default_page), value_or(limit, default_limit)) <= i64::MAX,
    ensures
        result == offset_of(value_or(page, default_page), value_or(limit, default_limit)),
        0 <= result,
{
    let p = page_or(page, default_page);
    let l = limit_or(limit, default_limit);
    proof {
        lemma_offset_nonnegative(p as int, l as int);
    }
    if p > 0 {
        (p - 1) * l
    } else {
        0
    }
}

/// Whether a page or a limit was supplied.
pub fn is_paged(page: Option<u32>, limit: Option<u32>) -> (result: bool)
    ensures
        result == paging_requested(page, limit),
{
    page.is_some() || limit.is_some()
}

/// The pagination defaults that the process was configured with.
#[derive(Debug, Clone, Copy, PartialEq, Eq, Structural)]
pub struct PaginationPolicy {
    /// The page served when a request names none.
    pub default_page: u32,
    /// The page size used when a request names none.
    pub default_limit: u32,
}

impl PaginationPolicy {
    /// The limit that the policy gives a request.
    pub open spec fn limit_of(self, limit: Option<u32>) -> int {
        value_or(limit, self.default_limit)
    }

    /// The page that the policy gives a request.
    pub open spec fn page_of(self, page: Option<u32>) -> int {
        value_or(page, self.default_page)
    }

    /// The offset that the policy gives a request.
    pub open spec fn offset_of(self, page: Option<u32>, limit: Option<u32>) -> int {
        offset_of(self.page_of(page), self.limit_of(limit))
    }

    /// A policy with the given defaults.
    pub fn new(default_page: u32, default_limit: u32) -> (policy: PaginationPolicy)
        ensures
            policy.default_page == default_page,
            policy.default_limit == default_limit,
    {
        PaginationPolicy { default_page, default_limit }
    }

    /// The policy of a process that was configured with nothing else: the
    /// first page, ten rows to the page.
    pub fn standard() -> (policy: PaginationPolicy)
        ensures
            policy.default_page == DEFAULT_PAGE,
            policy.default_limit == DEFAULT_LIMIT,
    {
        PaginationPolicy { default_page: DEFAULT_PAGE, default_limit: DEFAULT_LIMIT }
    }

    /// The limit of a request: the one it carries, or the default.
    pub fn limit_or_default<P: Paginable>(&self, request: &P) -> (result: i64)
        ensures
            result == self.limit_of(request.requested_limit()),
    {
        limit_or(request.limit(), self.default_limit)
    }

    /// The page of a request: the one it carries, or the default.
    pub fn page_or_default<P: Paginable>(&self, request: &P) -> (result: i64)
        ensures
            result == self.page_of(request.requested_page()),
    {
        page_or(request.page(), self.default_page)
    }

    /// Whether the offset of a request fits the 64-bit integer that the
    /// store takes.
    pub fn offset_fits<P: Paginable>(&self, request: &P) -> (result: bool)
        ensures
            result == (self.offset_of(request.requested_page(), request.requested_limit())
                <= i64::MAX),
    {
        let page = page_or(request.page(), self.default_page);
        let limit = limit_or(request.limit(), self.default_limit);
        if page > 0 {
            match (page - 1).checked_mul(limit) {
                Some(_) => true,
                None => false,
            }
        } else {
            true
        }
    }

    /// The offset of a request: `(page - 1) * limit` for a page above 0 and
    /// 0 for page 0, with the defaults in place of what the request does not
    /// carry.
    pub fn offset<P: Paginable>(&self, request: &P) -> (result: i64)
        requires
            self.offset_of(request.requested_page(), request.requested_limit()) <= i64::MAX,
        ensures
            result == self.offset_of(request.requested_page(), request.requested_limit()),
            0 <= result,
    {
        offset_or(request.page(), request.limit(), self.default_page, self.default_limit)
    }

    /// Whether a request asks for pagination: whether it carries a page or a
    /// limit.
    pub fn is_paged<P: Paginable>(request: &P) -> (result: bool)
        ensures
            result == paging_requested(request.requested_page(), request.requested_limit()),
    {
        is_paged(request.page(), request.limit())
    }
}

/// A listing request that carries an optional page and an optional limit.
pub trait Paginable {
    /// The page that the request carries.
    spec fn requested_page(&self) -> Option<u32>;

    /// The limit that the request carries.
    spec fn requested_limit(&self) -> Option<u32>;

    /// The 1-based page asked for, if any.
    fn page(&self) -> (result: Option<u32>)
        ensures
            result == self.requested_page(),
    ;

    /// The page size asked for, if any.
    fn limit(&self) -> (result: Option<u32>)
        ensures
            result == self.requested_limit(),
    ;

    /// The page asked for, or the process-wide default.
    fn page_or_default(&self) -> (result: i64)
        ensures
            result == value_or(self.requested_page(), DEFAULT_PAGE),
    {
        page_or(self.page(), DEFAULT_PAGE)
    }

    /// The page size asked for, or the process-wide default.
    fn limit_or_default(&self) -> (result: i64)
        ensures
            result == value_or(self.requested_limit(), DEFAULT_LIMIT),
    {
        limit_or(self.limit(), DEFAULT_LIMIT)
    }

    /// The number of rows to skip, with the process-wide defaults applied.
    fn offset(&self) -> (result: i64)
        requires
            offset_of(
                value_or(self.requested_page(), DEFAULT_PAGE),
                value_or(self.requested_limit(), DEFAULT_LIMIT),
            ) <= i64::MAX,
        ensures
            result == offset_of(
                value_or(self.requested_page(), DEFAULT_PAGE),
                value_or(self.requested_limit(), DEFAULT_LIMIT),
            ),
            0 <= result,
    {
        offset_or(self.page(), self.limit(), DEFAULT_PAGE, DEFAULT_LIMIT)
    }
}

/// For a page `p > 0` and a limit `l > 0` that a request supplies, the
/// offset is `(p - 1) * l`, whatever the policy's defaults.
pub proof fn lemma_offset_of_supplied_page(policy: PaginationPolicy, p: u32, l: u32)
    requires
        p > 0,
        l > 0,
    ensures
        policy.offset_of(Some(p), Some(l)) == (p - 1) * l,
{
}

/// For page 0 the offset is 0, whatever the limit; and where no page is
/// supplied and the default page is the first, the offset is 0 as well,
/// so in particular where neither page nor limit is supplied.
pub proof fn lemma_offset_without_page_boundary(policy: PaginationPolicy, limit: Option<u32>)
    ensures
        policy.offset_of(Some(0u32), limit) == 0,
        policy.default_page == 1 ==> policy.offset_of(None, limit) == 0,
        policy.default_page == 0 ==> policy.offset_of(None, limit) == 0,
{
    assert((1 - 1) * policy.limit_of(limit) == 0);
}

/// Pagination was asked for exactly when a page or a limit was supplied, and
/// was not exactly when both are absent.
pub proof fn lemma_paging_requested(page: Option<u32>, limit: Option<u32>)
    ensures
        paging_requested(page, limit) <==> (page.is_some() || limit.is_some()),
        !paging_requested(page, limit) <==> (page.is_none() && limit.is_none()),
{
}

} // verus!
