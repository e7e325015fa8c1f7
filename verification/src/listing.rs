//! Sorting, page sizes, list requests and result pages.
use vstd::prelude::*;

use crate::text::{decimal, u64_to_string};

verus! {

#[derive(Debug, Clone, Copy, PartialEq, Eq, Structural)]
pub enum SortDirection {
    Asc,
    Desc,
}

/// The lower-case name of a direction, as used in query strings.
pub open spec fn direction_query_text(d: SortDirection) -> Seq<char> {
    match d {
        SortDirection::Asc => "asc"@,
        SortDirection::Desc => "desc"@,
    }
}

/// The upper-case SQL keyword of a direction.
pub open spec fn direction_sql_text(d: SortDirection) -> Seq<char> {
    match d {
        SortDirection::Asc => "ASC"@,
        SortDirection::Desc => "DESC"@,
    }
}

/// The other direction.
pub open spec fn opposite_of(d: SortDirection) -> SortDirection {
    match d {
        SortDirection::Asc => SortDirection::Desc,
        SortDirection::Desc => SortDirection::Asc,
    }
}

impl SortDirection {
    pub fn as_str(self) -> (s: &'static str)
        ensures
            s@ == direction_query_text(self),
    {
        match self {
            SortDirection::Asc => "asc",
            SortDirection::Desc => "desc",
        }
    }

    /// Returns uppercase SQL keyword for ORDER BY clauses.
    pub fn as_sql(self) -> (s: &'static str)
        ensures
            s@ == direction_sql_text(self),
    {
        match self {
            SortDirection::Asc => "ASC",
            SortDirection::Desc => "DESC",
        }
    }

    pub fn opposite(self) -> (d: SortDirection)
        ensures
            d == opposite_of(self),
            d != self,
    {
        match self {
            SortDirection::Asc => SortDirection::Desc,
            SortDirection::Desc => SortDirection::Asc,
        }
    }
}

/// Reversing a direction twice gives it back.
pub proof fn lemma_opposite_involution(d: SortDirection)
    ensures
        opposite_of(opposite_of(d)) == d,
        opposite_of(d) != d,
{
}

/// A column by which a list can be sorted, with its query-string name and
/// the direction it sorts in by default.
pub trait SortKey: Copy + Sized {
    /// The key a list is sorted by when the query names none.
    open spec fn default_key() -> Self {
        vstd::pervasive::arbitrary()
    }

    /// The name of the key in query strings.
    open spec fn query_text(self) -> Seq<char> {
        vstd::pervasive::arbitrary()
    }

    /// The key that a query-string value names, if any.
    open spec fn parse_query(value: Seq<char>) -> Option<Self> {
        vstd::pervasive::arbitrary()
    }

    /// The direction the key sorts in unless one is asked for.
    open spec fn default_direction_of(self) -> SortDirection {
        vstd::pervasive::arbitrary()
    }

    fn default() -> (k: Self)
        ensures
            k == Self::default_key(),
    ;

    fn from_query(value: &str) -> (k: Option<Self>)
        ensures
            k == Self::parse_query(value@),
    ;

    fn query_value(self) -> (s: &'static str)
        ensures
            s@ == self.query_text(),
    ;

    fn default_direction(self) -> (d: SortDirection)
        ensures
            d == self.default_direction_of(),
    ;

    /// Whether two keys are the same key.
    fn same_key(self, other: Self) -> (b: bool)
        ensures
            b == (self == other),
    ;
}

#[derive(Debug, Clone, Copy, PartialEq, Eq, Structural)]
pub enum PageSize {
    Limited(u32),
    All,
}

pub const DEFAULT_PAGE_SIZE: u32 = 10;

pub const MAX_PAGE_SIZE: u32 = 50;

/// What `PageSize::limited` makes of a size: zero means "all".
pub open spec fn limited_spec(size: u32) -> PageSize {
    if size == 0 {
        PageSize::All
    } else {
        PageSize::Limited(size)
    }
}

/// A page size as a list request holds it: zero becomes "all" and a limit is
/// clamped to `1..=MAX_PAGE_SIZE`.
pub open spec fn clamp_page_size(ps: PageSize) -> PageSize {
    match ps {
        PageSize::Limited(size) => if size == 0 {
            PageSize::All
        } else if size > MAX_PAGE_SIZE {
            PageSize::Limited(MAX_PAGE_SIZE)
        } else {
            PageSize::Limited(size)
        },
        PageSize::All => PageSize::All,
    }
}

/// The text of a page size in query strings.
pub open spec fn page_size_query_text(ps: PageSize) -> Seq<char> {
    match ps {
        PageSize::All => "all"@,
        PageSize::Limited(value) => decimal(value as nat),
    }
}

impl PageSize {
    pub fn limited(size: u32) -> (ps: PageSize)
        ensures
            ps == limited_spec(size),
    {
        if size == 0 {
            PageSize::All
        } else {
            PageSize::Limited(size)
        }
    }

    pub fn is_all(self) -> (b: bool)
        ensures
            b == (self is All),
    {
        match self {
            PageSize::All => true,
            PageSize::Limited(_) => false,
        }
    }

    pub fn as_option(self) -> (o: Option<u32>)
        ensures
            o == (match self {
                PageSize::Limited(value) => Some(value),
                PageSize::All => None::<u32>,
            }),
    {
        match self {
            PageSize::Limited(value) => Some(value),
            PageSize::All => None,
        }
    }

    pub fn to_query_value(self) -> (s: String)
        ensures
            s@ == page_size_query_text(self),
    {
        match self {
            PageSize::All => String::from_str("all"),
            PageSize::Limited(value) => u64_to_string(value as u64),
        }
    }
}

#[derive(Debug, Clone, Copy, PartialEq, Eq)]
pub struct ListRequest<K: SortKey> {
    pub page: u32,
    pub page_size: PageSize,
    pub sort_key: K,
    pub sort_direction: SortDirection,
}

/// The request that `ListRequest::new` builds: page at least 1 and a clamped
/// page size; key and direction as given.
pub open spec fn request_spec<K: SortKey>(
    page: u32,
    page_size: PageSize,
    sort_key: K,
    sort_direction: SortDirection,
) -> ListRequest<K> {
    ListRequest {
        page: if page == 0 {
            1
        } else {
            page
        },
        page_size: clamp_page_size(page_size),
        sort_key,
        sort_direction,
    }
}

/// `a.div_ceil(b)` for `b > 0`.
pub open spec fn ceil_div(a: nat, b: nat) -> nat {
    a / b + if a % b != 0 {
        1nat
    } else {
        0nat
    }
}

fn div_ceil_u64(a: u64, b: u64) -> (r: u64)
    requires
        b > 0,
    ensures
        r == ceil_div(a as nat, b as nat),
{
    let q = a / b;
    if a % b != 0 {
        assert(q < a || b == 1) by (nonlinear_arith)
            requires
                q == a / b,
                b > 0,
                a % b != 0,
        ;
        q + 1
    } else {
        q
    }
}

/// The number of pages holding `total` items `size` to a page, as the `u32`
/// that the listing code stores it in (truncated where it does not fit).
pub open spec fn last_page_spec(total: u64, size: u32) -> u32 {
    (ceil_div(total as nat, size as nat)) as u32
}

/// What `ensure_page_within` gives for a request and a total item count.
pub open spec fn page_within_spec<K: SortKey>(r: ListRequest<K>, total: u64) -> ListRequest<K> {
    match r.page_size {
        PageSize::All => request_spec(1, PageSize::All, r.sort_key, r.sort_direction),
        PageSize::Limited(limit) => if total == 0 {
            request_spec(1, r.page_size, r.sort_key, r.sort_direction)
        } else {
            let last = last_page_spec(total, limit);
            let bound: u32 = if last >= 1 {
                last
            } else {
                1
            };
            request_spec(
                if r.page <= bound {
                    r.page
                } else {
                    bound
                },
                r.page_size,
                r.sort_key,
                r.sort_direction,
            )
        },
    }
}

impl<K: SortKey> ListRequest<K> {
    /// A request is well formed when its page is at least 1 and its page
    /// size is "all" or a limit in `1..=MAX_PAGE_SIZE`.
    pub open spec fn well_formed(self) -> bool {
        &&& self.page >= 1
        &&& match self.page_size {
            PageSize::All => true,
            PageSize::Limited(size) => 1 <= size && size <= MAX_PAGE_SIZE,
        }
    }

    pub fn new(page: u32, page_size: PageSize, sort_key: K, sort_direction: SortDirection) -> (r:
        Self)
        ensures
            r == request_spec(page, page_size, sort_key, sort_direction),
            r.well_formed(),
    {
        let page = if page >= 1 {
            page
        } else {
            1
        };
        let page_size = match page_size {
            PageSize::Limited(size) => {
                if size == 0 {
                    PageSize::All
                } else {
                    let clamped = if size <= MAX_PAGE_SIZE {
                        size
                    } else {
                        MAX_PAGE_SIZE
                    };
                    PageSize::Limited(clamped)
                }
            },
            PageSize::All => PageSize::All,
        };
        ListRequest { page, page_size, sort_key, sort_direction }
    }

    pub fn default_query() -> (r: Self)
        ensures
            r == request_spec(
                1,
                PageSize::Limited(DEFAULT_PAGE_SIZE),
                K::default_key(),
                K::default_key().default_direction_of(),
            ),
            r.page == 1,
            r.page_size == PageSize::Limited(DEFAULT_PAGE_SIZE),
            r.sort_key == K::default_key(),
            r.sort_direction == K::default_key().default_direction_of(),
    {
        let key = K::default();
        Self::new(1, PageSize::Limited(DEFAULT_PAGE_SIZE), key, key.default_direction())
    }

    pub fn show_all(sort_key: K, sort_direction: SortDirection) -> (r: Self)
        ensures
            r == request_spec(1, PageSize::All, sort_key, sort_direction),
    {
        Self::new(1, PageSize::All, sort_key, sort_direction)
    }

    pub fn page(&self) -> (p: u32)
        ensures
            p == self.page,
    {
        self.page
    }

    pub fn page_size(&self) -> (ps: PageSize)
        ensures
            ps == self.page_size,
    {
        self.page_size
    }

    pub fn sort_key(&self) -> (k: K)
        ensures
            k == self.sort_key,
    {
        self.sort_key
    }

    pub fn sort_direction(&self) -> (d: SortDirection)
        ensures
            d == self.sort_direction,
    {
        self.sort_direction
    }

    /// The same request on another page (at least page 1); nothing else changes.
    pub fn with_page(self, page: u32) -> (r: Self)
        ensures
            r == (ListRequest {
                page: if page == 0 {
                    1
                } else {
                    page
                },
                ..self
            }),
    {
        let page = if page >= 1 {
            page
        } else {
            1
        };
        ListRequest { page, ..self }
    }

    pub fn with_page_size(self, page_size: PageSize) -> (r: Self)
        ensures
            r == request_spec(self.page, page_size, self.sort_key, self.sort_direction),
    {
        Self::new(self.page, page_size, self.sort_key, self.sort_direction)
    }

    /// Sort by `key`: choosing the current key again reverses the direction,
    /// a different key starts in its default direction.
    pub fn with_sort(self, key: K) -> (r: Self)
        ensures
            r == with_sort_spec(self, key),
    {
        let direction = if key.same_key(self.sort_key) {
            self.sort_direction.opposite()
        } else {
            key.default_direction()
        };
        Self::new(self.page, self.page_size, key, direction)
    }

    pub fn with_sort_and_direction(self, key: K, direction: SortDirection) -> (r: Self)
        ensures
            r == request_spec(self.page, self.page_size, key, direction),
    {
        Self::new(self.page, self.page_size, key, direction)
    }

    /// Keeps the page within the pages that `total` items fill.
    pub fn ensure_page_within(self, total: u64) -> (r: Self)
        requires
            self.page_size != PageSize::Limited(0),
        ensures
            r == page_within_spec(self, total),
    {
        if self.page_size.is_all() {
            return Self::new(1, PageSize::All, self.sort_key, self.sort_direction);
        }
        let limit = match self.page_size.as_option() {
            Some(limit) => limit,
            None => {
                return self;
            },
        };
        if total == 0 {
            return Self::new(1, self.page_size, self.sort_key, self.sort_direction);
        }
        let last_page = div_ceil_u64(total, limit as u64) as u32;
        let bound = if last_page >= 1 {
            last_page
        } else {
            1
        };
        let adjusted_page = if self.page <= bound {
            self.page
        } else {
            bound
        };
        Self::new(adjusted_page, self.page_size, self.sort_key, self.sort_direction)
    }
}


/// The request that `with_sort` builds.
pub open spec fn with_sort_spec<K: SortKey>(r: ListRequest<K>, key: K) -> ListRequest<K> {
    request_spec(
        r.page,
        r.page_size,
        key,
        if key == r.sort_key {
            opposite_of(r.sort_direction)
        } else {
            key.default_direction_of()
        },
    )
}

/// Building a request from a well-formed one changes nothing: `new` is idempotent.
pub proof fn lemma_request_normalization_idempotent<K: SortKey>(r: ListRequest<K>)
    requires
        r.well_formed(),
    ensures
        request_spec(r.page, r.page_size, r.sort_key, r.sort_direction) == r,
{
}

/// Every request that `new` builds is well formed, and building it again gives
/// the same request.
pub proof fn lemma_request_spec_well_formed<K: SortKey>(
    page: u32,
    page_size: PageSize,
    key: K,
    direction: SortDirection,
)
    ensures
        request_spec(page, page_size, key, direction).well_formed(),
        ({
            let r = request_spec(page, page_size, key, direction);
            request_spec(r.page, r.page_size, r.sort_key, r.sort_direction) == r
        }),
{
}

/// Choosing the same sort column twice restores the first direction, and
/// changes nothing else of a well-formed request.
pub proof fn lemma_with_sort_toggle_twice<K: SortKey>(r: ListRequest<K>)
    requires
        r.well_formed(),
    ensures
        with_sort_spec(with_sort_spec(r, r.sort_key), r.sort_key) == r,
        with_sort_spec(r, r.sort_key).sort_direction != r.sort_direction,
{
}

/// Choosing a column, then the same column again, always ends on that column
/// with the direction reversed.
pub proof fn lemma_with_sort_repeat_reverses<K: SortKey>(r: ListRequest<K>, key: K)
    ensures
        with_sort_spec(with_sort_spec(r, key), key).sort_key == key,
        with_sort_spec(with_sort_spec(r, key), key).sort_direction == opposite_of(
            with_sort_spec(r, key).sort_direction,
        ),
{
}

/// After `ensure_page_within`, a limited request points at an existing page:
/// at least 1 and at most the number of pages that `total` items fill (where
/// that number fits in a `u32`); a showing-all request is on page 1.
pub proof fn lemma_page_within_bounds<K: SortKey>(r: ListRequest<K>, total: u64)
    requires
        r.page_size != PageSize::Limited(0),
    ensures
        page_within_spec(r, total).well_formed(),
        page_within_spec(r, total).sort_key == r.sort_key,
        page_within_spec(r, total).sort_direction == r.sort_direction,
        r.page_size is All ==> page_within_spec(r, total).page == 1,
        total == 0 ==> page_within_spec(r, total).page == 1,
        r.page_size matches PageSize::Limited(limit) ==> (total > 0 && ceil_div(
            total as nat,
            limit as nat,
        ) <= u32::MAX ==> page_within_spec(r, total).page <= ceil_div(total as nat, limit as nat)),
{
    if let PageSize::Limited(limit) = r.page_size {
        if total > 0 {
            let c = ceil_div(total as nat, limit as nat);
            assert(c >= 1) by (nonlinear_arith)
                requires
                    c == ceil_div(total as nat, limit as nat),
                    total > 0,
                    limit > 0,
            ;
        }
    }
}

/// Keeping a page within bounds twice is the same as doing it once.
pub proof fn lemma_page_within_idempotent<K: SortKey>(r: ListRequest<K>, total: u64)
    requires
        r.well_formed(),
    ensures
        page_within_spec(page_within_spec(r, total), total) == page_within_spec(r, total),
{
}

/// A well-formed request whose page already exists is left as it is.
pub proof fn lemma_page_within_keeps_valid_page<K: SortKey>(r: ListRequest<K>, total: u64)
    requires
        r.well_formed(),
        r.page_size matches PageSize::Limited(limit) && total > 0 && r.page <= last_page_spec(
            total,
            limit,
        ),
    ensures
        page_within_spec(r, total) == r,
{
}

#[derive(Debug, Clone)]
pub struct Page<T> {
    pub items: Vec<T>,
    pub page: u32,
    pub page_size: u32,
    pub total: u64,
    pub showing_all: bool,
}

impl<T> Page<T> {
    /// The number of pages: one when there is nothing or everything is shown,
    /// otherwise the pages of `page_size` items that `total` fills.
    pub open spec fn total_pages_spec(self) -> u32 {
        if self.total == 0 || self.showing_all {
            1
        } else {
            last_page_spec(self.total, self.page_size)
        }
    }

    /// The 1-based position of the first item on the page (0 when empty).
    pub open spec fn start_index_spec(self) -> int {
        if self.total == 0 {
            0
        } else {
            (self.page - 1) * self.page_size + 1
        }
    }

    /// The 1-based position of the last item on the page (0 when empty).
    pub open spec fn end_index_spec(self) -> int {
        if self.total == 0 {
            0
        } else {
            self.start_index_spec() + self.items@.len() - 1
        }
    }

    pub fn new(items: Vec<T>, page: u32, page_size: u32, total: u64, showing_all: bool) -> (p:
        Self)
        ensures
            p.items == items,
            p.page == (if page == 0 {
                1
            } else {
                page
            }),
            p.page_size == (if page_size == 0 {
                1
            } else {
                page_size
            }),
            p.total == total,
            p.showing_all == showing_all,
    {
        Page {
            items,
            page: if page >= 1 {
                page
            } else {
                1
            },
            page_size: if page_size >= 1 {
                page_size
            } else {
                1
            },
            total,
            showing_all,
        }
    }

    pub fn total_pages(&self) -> (n: u32)
        requires
            self.total == 0 || self.showing_all || self.page_size > 0,
        ensures
            n == self.total_pages_spec(),
    {
        if self.total == 0 || self.showing_all {
            1
        } else {
            div_ceil_u64(self.total, self.page_size as u64) as u32
        }
    }

    pub fn has_previous(&self) -> (b: bool)
        ensures
            b == (!self.showing_all && self.page > 1),
    {
        !self.showing_all && self.page > 1
    }

    pub fn has_next(&self) -> (b: bool)
        requires
            self.total == 0 || self.showing_all || self.page_size > 0,
        ensures
            b == (!self.showing_all && self.page < self.total_pages_spec()),
    {
        !self.showing_all && self.page < self.total_pages()
    }

    pub fn start_index(&self) -> (i: u64)
        requires
            self.total == 0 || self.page >= 1,
        ensures
            i == self.start_index_spec(),
    {
        if self.total == 0 {
            0
        } else {
            let p = (self.page - 1) as u64;
            let s = self.page_size as u64;
            assert(p * s <= 0xffff_ffffu64 * 0xffff_ffffu64) by (nonlinear_arith)
                requires
                    p <= 0xffff_ffffu64,
                    s <= 0xffff_ffffu64,
            ;
            p * s + 1
        }
    }

    pub fn end_index(&self) -> (i: u64)
        requires
            self.total == 0 || self.page >= 1,
            self.total == 0 || self.start_index_spec() + self.items@.len() - 1 <= u64::MAX,
        ensures
            i == self.end_index_spec(),
    {
        if self.total == 0 {
            0
        } else {
            let start = self.start_index();
            let len = self.items.len() as u64;
            if len == 0 {
                start - 1
            } else {
                start + (len - 1)
            }
        }
    }
}

/// A page that shows everything offers no navigation, and every page count is
/// at least one where the count fits in a `u32`.
pub proof fn lemma_page_navigation<T>(p: Page<T>)
    requires
        p.page_size > 0,
    ensures
        p.showing_all ==> p.total_pages_spec() == 1,
        ceil_div(p.total as nat, p.page_size as nat) <= u32::MAX ==> p.total_pages_spec() >= 1,
{
    if p.total > 0 {
        let c = ceil_div(p.total as nat, p.page_size as nat);
        assert(c >= 1) by (nonlinear_arith)
            requires
                c == ceil_div(p.total as nat, p.page_size as nat),
                p.total > 0,
                p.page_size > 0,
        ;
    }
}

/// On a page holding the items that its position selects (all remaining items
/// up to `page_size`), the first and last positions lie within `1..=total`
/// and span exactly the items shown.
pub proof fn lemma_page_indices_within_total<T>(p: Page<T>)
    requires
        p.page >= 1,
        p.page_size >= 1,
        p.total > (p.page - 1) * p.page_size,
        p.items@.len() >= 1,
        p.items@.len() <= p.page_size,
        (p.page - 1) * p.page_size + p.items@.len() <= p.total,
    ensures
        1 <= p.start_index_spec() <= p.end_index_spec() <= p.total,
        p.end_index_spec() - p.start_index_spec() + 1 == p.items@.len(),
{
}

} // verus!
