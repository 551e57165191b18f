//! Pagination of query results.
use vstd::prelude::*;
use vstd::std_specs::convert::FromSpecImpl;
use crate::text::{decimal, owned, push_str, u64_to_string};

verus! {

/// Default limit for max page size
pub const DEFAULT_LIMIT: u32 = 100;

/// Page struct for pagination.
///
/// This is a simple struct to handle pagination for queries.
#[derive(Debug, Clone, Copy, PartialEq, Eq, Structural)]
pub struct Page {
    /// Current page (the value `u32::MAX` stands for "no page yet")
    pub page: u32,
    /// Rows per page
    pub limit: u32,
    /// Total number of rows
    pub total: u32,
}

/// The offset of the first row of the page: `page * limit`, or 0 when no page
/// is selected yet.
pub open spec fn page_offset(p: Page) -> int {
    if p.page == u32::MAX { 0 } else { p.page * p.limit }
}

/// The offset fits in a `u32`.
pub open spec fn offset_fits(p: Page) -> bool {
    p.page == u32::MAX || p.page * p.limit <= u32::MAX
}

/// The number of pages needed for `total` rows of `limit` rows each, rounding up;
/// with a zero limit and some rows it is `u32::MAX`.
pub open spec fn page_count(total: u32, limit: u32) -> int {
    if total == 0 {
        0
    } else if limit == 0 {
        u32::MAX as int
    } else {
        (total + limit - 1) / limit as int
    }
}

/// The page as SQL: `LIMIT n`, then ` OFFSET m` when the offset is not zero.
pub open spec fn page_sql(p: Page) -> Seq<char> {
    "LIMIT "@ + decimal(p.limit as nat) + if page_offset(p) != 0 {
        " OFFSET "@ + decimal(page_offset(p) as nat)
    } else {
        Seq::empty()
    }
}

/// A requested limit, capped at the default limit.
pub open spec fn capped_limit(l: u32) -> u32 {
    if l > DEFAULT_LIMIT { DEFAULT_LIMIT } else { l }
}

/// The page after `p`; after the last page comes the first.
pub open spec fn next_page(p: u32) -> u32 {
    if p == u32::MAX { 0 } else { (p + 1) as u32 }
}

/// The page before `p`; the first page has none before it and stays.
pub open spec fn prev_page(p: u32) -> u32 {
    if p > 0 { (p - 1) as u32 } else { 0 }
}

/// Going back a page undoes going forward one, below the last page; going forward
/// undoes going back, after the first.
pub proof fn lemma_prev_undoes_next(p: u32)
    ensures
        p < u32::MAX ==> prev_page(next_page(p)) == p,
        p > 0 ==> next_page(prev_page(p)) == p,
{
}

/// With a non-zero limit, the pages counted hold every row, and one page fewer
/// would not.
pub proof fn lemma_page_count_covers(total: u32, limit: u32)
    requires
        limit > 0,
    ensures
        page_count(total, limit) * limit >= total,
        total > 0 ==> (page_count(total, limit) - 1) * limit < total,
{
    if total > 0 {
        let n = total + limit - 1;
        let q = n / (limit as int);
        assert(q * limit <= n && n < q * limit + limit) by (nonlinear_arith)
            requires
                limit > 0,
                q == n / (limit as int),
        {
        }
        assert((q - 1) * limit == q * limit - limit) by (nonlinear_arith);
    }
}

/// The SQL of a page keeps `limit` rows and skips the rows of every page before
/// it: `LIMIT limit`, then ` OFFSET page * limit` when that is not zero. A page
/// not selected yet skips nothing.
pub proof fn lemma_page_sql_skips_earlier_pages(p: Page)
    ensures
        p.page != u32::MAX && p.page * p.limit != 0 ==> page_sql(p) == "LIMIT "@ + decimal(p.limit as nat)
            + " OFFSET "@ + decimal((p.page * p.limit) as nat),
        p.page == u32::MAX || p.page * p.limit == 0 ==> page_sql(p) == "LIMIT "@ + decimal(p.limit as nat),
{
    assert(p.page != u32::MAX ==> page_offset(p) == p.page * p.limit);
}

/// The next page starts right after the rows of this one: its offset is this
/// page's offset plus the limit.
pub proof fn lemma_next_page_offset(p: Page)
    requires
        p.page < u32::MAX - 1,
    ensures
        page_offset(Page { page: next_page(p.page), ..p }) == page_offset(p) + p.limit,
{
    assert((p.page + 1) * p.limit == p.page * p.limit + p.limit) by (nonlinear_arith);
}

impl Page {
    /// Create a new Page instance
    pub fn new() -> (res: Self)
        ensures
            res == (Page { page: 0, limit: DEFAULT_LIMIT, total: 0 }),
    {
        Page { page: 0, limit: DEFAULT_LIMIT, total: 0 }
    }

    /// Update current page to the next page; the page after `u32::MAX` is 0
    pub fn next(&mut self)
        ensures
            final(self).page == next_page(old(self).page),
            final(self).limit == old(self).limit,
            final(self).total == old(self).total,
    {
        if self.page == u32::MAX {
            self.page = 0;
        } else {
            self.page += 1;
        }
    }

    /// Update current page to the previous page; page 0 stays
    pub fn prev(&mut self)
        ensures
            final(self).page == prev_page(old(self).page),
            final(self).limit == old(self).limit,
            final(self).total == old(self).total,
    {
        if self.page > 0 {
            self.page -= 1;
        }
    }

    /// Page number
    pub fn page(&self) -> (res: u32)
        ensures
            res == self.page,
    {
        self.page
    }

    /// Limit the rows accessed
    pub fn limit(&self) -> (res: u32)
        ensures
            res == self.limit,
    {
        self.limit
    }

    /// Offset for the query
    pub fn offset(&self) -> (res: u32)
        requires
            offset_fits(*self),
        ensures
            res == page_offset(*self),
    {
        if self.page == u32::MAX {
            0
        } else {
            self.page * self.limit
        }
    }

    /// Total number of pages
    pub fn pages(&self) -> (res: u32)
        ensures
            res == page_count(self.total, self.limit),
    {
        self.max()
    }

    /// Get total number of rows
    pub fn total(&self) -> (res: u32)
        ensures
            res == self.total,
    {
        self.total
    }

    /// Set the total number of rows
    pub fn set_total(&mut self, total: u32)
        ensures
            *final(self) == (Page { total, ..*old(self) }),
    {
        self.total = total;
    }

    /// Get the maximum number of pages based on the total number of rows
    pub fn max(&self) -> (res: u32)
        ensures
            res == page_count(self.total, self.limit),
    {
        if self.total == 0 {
            0
        } else if self.limit == 0 {
            u32::MAX
        } else {
            let q = self.total / self.limit;
            let r = self.total % self.limit;
            proof {
                assert((self.total + self.limit - 1) / self.limit as int == q + (if r == 0 { 0int } else { 1int })) by (nonlinear_arith)
                    requires
                        self.limit > 0,
                        q == self.total / self.limit,
                        r == self.total % self.limit,
                ;
                assert(r != 0 ==> q < u32::MAX) by (nonlinear_arith)
                    requires
                        self.limit > 0,
                        q == self.total / self.limit,
                        r == self.total % self.limit,
                        self.total <= u32::MAX,
                ;
            }
            if r == 0 { q } else { q + 1 }
        }
    }

    /// The page as SQL.
    pub fn sql(&self) -> (res: String)
        requires
            offset_fits(*self),
        ensures
            res@ == page_sql(*self),
    {
        let mut s = owned("LIMIT ");
        let l = u64_to_string(self.limit as u64);
        push_str(&mut s, l.as_str());
        let offset = self.offset();
        if offset != 0 {
            push_str(&mut s, " OFFSET ");
            let o = u64_to_string(offset as u64);
            push_str(&mut s, o.as_str());
        }
        s
    }
}

impl Default for Page {
    fn default() -> (res: Self)
        ensures
            res == (Page { page: u32::MAX, limit: DEFAULT_LIMIT, total: 0 }),
    {
        Page { page: u32::MAX, limit: DEFAULT_LIMIT, total: 0 }
    }
}

impl From<(u32, u32)> for Page {
    fn from(p: (u32, u32)) -> (res: Self) {
        let limit = if p.1 > DEFAULT_LIMIT { DEFAULT_LIMIT } else { p.1 };
        Page { page: p.0, limit, total: 0 }
    }
}

impl FromSpecImpl<(u32, u32)> for Page {
    open spec fn obeys_from_spec() -> bool {
        true
    }

    open spec fn from_spec(p: (u32, u32)) -> Page {
        Page { page: p.0, limit: capped_limit(p.1), total: 0 }
    }
}

impl From<(Option<u32>, Option<u32>)> for Page {
    fn from(value: (Option<u32>, Option<u32>)) -> (res: Self) {
        let mut page = Page::new();
        if let Some(p) = value.0 {
            page.page = p;
        }
        if let Some(l) = value.1 {
            page.limit = if l > DEFAULT_LIMIT { DEFAULT_LIMIT } else { l };
        }
        page
    }
}

impl FromSpecImpl<(Option<u32>, Option<u32>)> for Page {
    open spec fn obeys_from_spec() -> bool {
        true
    }

    open spec fn from_spec(value: (Option<u32>, Option<u32>)) -> Page {
        Page {
            page: match value.0 {
                Some(p) => p,
                None => 0,
            },
            limit: match value.1 {
                Some(l) => capped_limit(l),
                None => DEFAULT_LIMIT,
            },
            total: 0,
        }
    }
}

impl From<(Option<u32>, Option<u32>, u32)> for Page {
    fn from(value: (Option<u32>, Option<u32>, u32)) -> (res: Self) {
        let mut page = Page::from((value.0, value.1));
        page.total = value.2;
        page
    }
}

impl FromSpecImpl<(Option<u32>, Option<u32>, u32)> for Page {
    open spec fn obeys_from_spec() -> bool {
        true
    }

    open spec fn from_spec(value: (Option<u32>, Option<u32>, u32)) -> Page {
        Page {
            page: match value.0 {
                Some(p) => p,
                None => 0,
            },
            limit: match value.1 {
                Some(l) => capped_limit(l),
                None => DEFAULT_LIMIT,
            },
            total: value.2,
        }
    }
}

impl From<u32> for Page {
    fn from(value: u32) -> (res: Self) {
        Page { page: value, limit: DEFAULT_LIMIT, total: 0 }
    }
}

impl FromSpecImpl<u32> for Page {
    open spec fn obeys_from_spec() -> bool {
        true
    }

    open spec fn from_spec(value: u32) -> Page {
        Page { page: value, limit: DEFAULT_LIMIT, total: 0 }
    }
}

} // verus!
