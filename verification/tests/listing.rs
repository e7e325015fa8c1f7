use booklog::listing::{
    DEFAULT_PAGE_SIZE, ListRequest, MAX_PAGE_SIZE, Page, PageSize, SortDirection, SortKey,
};

// A minimal SortKey for testing
#[derive(Debug, Clone, Copy, Eq, PartialEq)]
enum TestKey {
    A,
    B,
}

impl SortKey for TestKey {
    fn default() -> Self {
        TestKey::A
    }
    fn from_query(value: &str) -> Option<Self> {
        match value {
            "a" => Some(TestKey::A),
            "b" => Some(TestKey::B),
            _ => None,
        }
    }
    fn query_value(self) -> &'static str {
        match self {
            TestKey::A => "a",
            TestKey::B => "b",
        }
    }
    fn default_direction(self) -> SortDirection {
        match self {
            TestKey::A => SortDirection::Desc,
            TestKey::B => SortDirection::Asc,
        }
    }
    fn same_key(self, other: Self) -> bool {
        self == other
    }
}

// --- SortDirection ---

#[test]
fn sort_direction_opposite() {
    assert_eq!(SortDirection::Asc.opposite(), SortDirection::Desc);
    assert_eq!(SortDirection::Desc.opposite(), SortDirection::Asc);
}

#[test]
fn sort_direction_as_str() {
    assert_eq!(SortDirection::Asc.as_str(), "asc");
    assert_eq!(SortDirection::Desc.as_str(), "desc");
}

// --- PageSize ---

#[test]
fn page_size_zero_becomes_all() {
    assert_eq!(PageSize::limited(0), PageSize::All);
}

#[test]
fn page_size_nonzero() {
    assert_eq!(PageSize::limited(10), PageSize::Limited(10));
}

#[test]
fn page_size_is_all() {
    assert!(PageSize::All.is_all());
    assert!(!PageSize::Limited(10).is_all());
}

#[test]
fn page_size_as_option() {
    assert_eq!(PageSize::All.as_option(), None);
    assert_eq!(PageSize::Limited(5).as_option(), Some(5));
}

#[test]
fn page_size_to_query_value() {
    assert_eq!(PageSize::All.to_query_value(), "all");
    assert_eq!(PageSize::Limited(25).to_query_value(), "25");
}

// --- ListRequest ---

#[test]
fn list_request_clamps_page_to_minimum_1() {
    let req = ListRequest::new(0, PageSize::Limited(10), TestKey::A, SortDirection::Desc);
    assert_eq!(req.page(), 1);
}

#[test]
fn list_request_clamps_page_size_to_max() {
    let req = ListRequest::new(1, PageSize::Limited(100), TestKey::A, SortDirection::Desc);
    assert_eq!(req.page_size(), PageSize::Limited(MAX_PAGE_SIZE));
}

#[test]
fn list_request_zero_page_size_becomes_all() {
    let req = ListRequest::new(1, PageSize::Limited(0), TestKey::A, SortDirection::Desc);
    assert_eq!(req.page_size(), PageSize::All);
}

#[test]
fn list_request_preserves_all() {
    let req = ListRequest::new(1, PageSize::All, TestKey::A, SortDirection::Desc);
    assert_eq!(req.page_size(), PageSize::All);
}

#[test]
fn list_request_default_query() {
    let req = ListRequest::<TestKey>::default_query();
    assert_eq!(req.page(), 1);
    assert_eq!(req.page_size(), PageSize::Limited(DEFAULT_PAGE_SIZE));
    assert_eq!(req.sort_key(), TestKey::A);
    assert_eq!(req.sort_direction(), SortDirection::Desc);
}

#[test]
fn with_sort_toggles_direction_for_same_key() {
    let req = ListRequest::new(1, PageSize::Limited(10), TestKey::A, SortDirection::Desc);
    let toggled = req.with_sort(TestKey::A);
    assert_eq!(toggled.sort_key(), TestKey::A);
    assert_eq!(toggled.sort_direction(), SortDirection::Asc);
}

#[test]
fn with_sort_uses_default_direction_for_different_key() {
    let req = ListRequest::new(1, PageSize::Limited(10), TestKey::A, SortDirection::Desc);
    let changed = req.with_sort(TestKey::B);
    assert_eq!(changed.sort_key(), TestKey::B);
    assert_eq!(changed.sort_direction(), SortDirection::Asc); // B's default
}

#[test]
fn ensure_page_within_empty_total() {
    let req = ListRequest::new(5, PageSize::Limited(10), TestKey::A, SortDirection::Desc);
    let adjusted = req.ensure_page_within(0);
    assert_eq!(adjusted.page(), 1);
}

#[test]
fn ensure_page_within_clamps_past_last_page() {
    let req = ListRequest::new(10, PageSize::Limited(10), TestKey::A, SortDirection::Desc);
    let adjusted = req.ensure_page_within(25); // 3 pages
    assert_eq!(adjusted.page(), 3);
}

#[test]
fn ensure_page_within_keeps_valid_page() {
    let req = ListRequest::new(2, PageSize::Limited(10), TestKey::A, SortDirection::Desc);
    let adjusted = req.ensure_page_within(25);
    assert_eq!(adjusted.page(), 2);
}

#[test]
fn ensure_page_within_show_all_resets_to_page_1() {
    let req = ListRequest::new(5, PageSize::All, TestKey::A, SortDirection::Desc);
    let adjusted = req.ensure_page_within(100);
    assert_eq!(adjusted.page(), 1);
}

// --- Page ---

#[test]
fn page_total_pages() {
    let page: Page<()> = Page::new(vec![], 1, 10, 25, false);
    assert_eq!(page.total_pages(), 3);
}

#[test]
fn page_total_pages_empty() {
    let page: Page<()> = Page::new(vec![], 1, 10, 0, false);
    assert_eq!(page.total_pages(), 1);
}

#[test]
fn page_total_pages_showing_all() {
    let page: Page<()> = Page::new(vec![], 1, 10, 100, true);
    assert_eq!(page.total_pages(), 1);
}

#[test]
fn page_has_previous() {
    let page1: Page<()> = Page::new(vec![], 1, 10, 25, false);
    assert!(!page1.has_previous());

    let page2: Page<()> = Page::new(vec![], 2, 10, 25, false);
    assert!(page2.has_previous());
}

#[test]
fn page_has_next() {
    let last: Page<()> = Page::new(vec![], 3, 10, 25, false);
    assert!(!last.has_next());

    let first: Page<()> = Page::new(vec![], 1, 10, 25, false);
    assert!(first.has_next());
}

#[test]
fn page_has_no_navigation_when_showing_all() {
    let page: Page<()> = Page::new(vec![], 2, 10, 100, true);
    assert!(!page.has_previous());
    assert!(!page.has_next());
}

#[test]
fn page_start_end_index() {
    let page: Page<i32> = Page::new(vec![1, 2, 3], 2, 10, 25, false);
    assert_eq!(page.start_index(), 11);
    assert_eq!(page.end_index(), 13);
}

#[test]
fn page_start_end_index_empty() {
    let page: Page<i32> = Page::new(vec![], 1, 10, 0, false);
    assert_eq!(page.start_index(), 0);
    assert_eq!(page.end_index(), 0);
}
