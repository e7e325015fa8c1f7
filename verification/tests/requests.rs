use std::collections::HashSet;

use booklog::authors::UpdateAuthor;
use booklog::books::BookSortKey;
use booklog::ids::BookId;
use booklog::listing::{ListRequest, Page, PageSize, SortDirection, SortKey};
use booklog::readings::{ReadingFormat, ReadingSortKey};
use booklog::requests::{
    CreateResponse, DeleteResponse, FlexiblePayload, ListQuery, PageSizeParam, PayloadSource, UpdateResponse,
    contains, count_request, create_response, delete_response, list_update_response, default_add_type, default_data_type, detail_url,
    empty_home_page, enrich_thumbnail, home_events_request, home_reading_request,
    home_shelf_request, is_datastar_flag, kebab_to_camel, normalize_request, page_size_from_text,
    parse_direction, parse_optional_enum, payload_source_for, update_response, validate_book_id,
    validate_update,
};
use booklog::timeline::TimelineSortKey;
use booklog::user_books::UserBookSortKey;

fn query(
    page: Option<u32>,
    page_size: Option<PageSizeParam>,
    sort: Option<&str>,
    dir: Option<&str>,
    q: Option<&str>,
) -> ListQuery {
    ListQuery {
        page,
        page_size,
        sort_key: sort.map(String::from),
        sort_dir: dir.map(String::from),
        q: q.map(String::from),
    }
}

#[test]
fn list_query_defaults() {
    let (req, search) = query(None, None, None, None, None).into_request_and_search::<BookSortKey>();
    assert_eq!(req.page(), 1);
    assert_eq!(req.page_size(), PageSize::Limited(10));
    assert_eq!(req.sort_key(), BookSortKey::CreatedAt);
    assert_eq!(req.sort_direction(), SortDirection::Desc);
    assert_eq!(search, None);
}

#[test]
fn list_query_reads_every_parameter() {
    let q = query(
        Some(3),
        Some(PageSizeParam::Text("25".to_string())),
        Some("title"),
        Some("DESC"),
        Some("  dune  "),
    );
    let (req, search) = q.into_request_and_search::<BookSortKey>();
    assert_eq!(req.page(), 3);
    assert_eq!(req.page_size(), PageSize::Limited(25));
    assert_eq!(req.sort_key(), BookSortKey::Title);
    assert_eq!(req.sort_direction(), SortDirection::Desc);
    assert_eq!(search, Some("dune".to_string()));
}

#[test]
fn list_query_unknown_sort_falls_back_to_defaults() {
    let q = query(Some(0), Some(PageSizeParam::Number(500)), Some("bogus"), Some("up"), Some("   "));
    let (req, search) = q.into_request_and_search::<BookSortKey>();
    assert_eq!(req.page(), 1);
    assert_eq!(req.page_size(), PageSize::Limited(50));
    assert_eq!(req.sort_key(), BookSortKey::CreatedAt);
    assert_eq!(req.sort_direction(), SortDirection::Desc);
    assert_eq!(search, None);
}

#[test]
fn list_query_key_default_direction_used() {
    let q = query(None, None, Some("title"), None, None);
    let (req, _) = q.into_request_and_search::<BookSortKey>();
    assert_eq!(req.sort_direction(), SortDirection::Asc);
}

#[test]
fn list_query_custom_default_page_size() {
    let (req, _) =
        query(None, None, None, None, None).into_request_and_search_with_default::<BookSortKey>(0);
    assert_eq!(req.page_size(), PageSize::Limited(1));
    let (req, _) =
        query(None, None, None, None, None).into_request_and_search_with_default::<BookSortKey>(20);
    assert_eq!(req.page_size(), PageSize::Limited(20));
}

#[test]
fn list_query_search_value() {
    assert_eq!(query(None, None, None, None, Some(" x ")).search_value(), " x ");
    assert_eq!(query(None, None, None, None, None).search_value(), "");
}

#[test]
fn page_size_text_forms() {
    assert_eq!(page_size_from_text("ALL"), PageSize::All);
    assert_eq!(page_size_from_text("0"), PageSize::All);
    assert_eq!(page_size_from_text("+7"), PageSize::Limited(7));
    assert_eq!(page_size_from_text("-7"), PageSize::Limited(10));
    assert_eq!(page_size_from_text("many"), PageSize::Limited(10));
    assert_eq!(page_size_from_text("4294967296"), PageSize::Limited(10));
}

#[test]
fn page_size_query_value_reads_back() {
    for ps in [PageSize::All, PageSize::Limited(1), PageSize::Limited(42)] {
        assert_eq!(page_size_from_text(&ps.to_query_value()), ps);
    }
}

#[test]
fn direction_parsing() {
    assert_eq!(parse_direction("Asc"), Some(SortDirection::Asc));
    assert_eq!(parse_direction("desc"), Some(SortDirection::Desc));
    assert_eq!(parse_direction("descending"), None);
    for d in [SortDirection::Asc, SortDirection::Desc] {
        assert_eq!(parse_direction(d.as_str()), Some(d));
    }
}

#[test]
fn payload_sources() {
    assert_eq!(payload_source_for("application/json; charset=utf-8"), Some(PayloadSource::Json));
    assert_eq!(payload_source_for("Application/JSON"), Some(PayloadSource::Json));
    assert_eq!(payload_source_for(""), Some(PayloadSource::Form));
    assert_eq!(
        payload_source_for("application/x-www-form-urlencoded"),
        Some(PayloadSource::Form)
    );
    assert_eq!(payload_source_for("multipart/form-data"), None);
}

#[test]
fn flexible_payload_parts() {
    let p = FlexiblePayload::new(5u8, PayloadSource::Form);
    assert_eq!(p.into_parts(), (5u8, PayloadSource::Form));
}

#[test]
fn datastar_flag() {
    assert!(is_datastar_flag(Some("true")));
    assert!(is_datastar_flag(Some("TrUe")));
    assert!(!is_datastar_flag(Some("nope")));
    assert!(!is_datastar_flag(None));
}

#[test]
fn update_responses() {
    assert_eq!(update_response(true, PayloadSource::Json), UpdateResponse::RedirectScript);
    assert_eq!(update_response(false, PayloadSource::Form), UpdateResponse::Redirect);
    assert_eq!(update_response(false, PayloadSource::Json), UpdateResponse::Json);
}

#[test]
fn create_responses() {
    assert_eq!(
        create_response(true, Some("http://x/data?type=authors"), "type=authors", PayloadSource::Form),
        CreateResponse::ListFragment
    );
    assert_eq!(
        create_response(true, Some("http://x/add"), "type=authors", PayloadSource::Form),
        CreateResponse::RedirectScript
    );
    assert_eq!(create_response(true, None, "type=authors", PayloadSource::Json), CreateResponse::RedirectScript);
    assert_eq!(create_response(false, None, "type=authors", PayloadSource::Form), CreateResponse::Redirect);
    assert_eq!(create_response(false, None, "type=authors", PayloadSource::Json), CreateResponse::Created);
}

#[test]
fn substring_search() {
    assert!(contains("abcabd", "abd"));
    assert!(contains("abc", ""));
    assert!(!contains("ab", "abc"));
    assert!(!contains("abcab", "bb"));
}

#[test]
fn validate_update_requires_a_change() {
    let empty = UpdateAuthor { name: None, created_at: None };
    let err = validate_update(&empty, None).unwrap_err();
    assert_eq!(err.message, "no changes provided");
    let image = "data:image/png;base64,AAAA".to_string();
    assert!(validate_update(&empty, Some(&image)).is_ok());
    let named = UpdateAuthor { name: Some("X".to_string()), created_at: None };
    assert!(validate_update(&named, None).is_ok());
}

#[test]
fn optional_enum_parsing() {
    assert_eq!(parse_optional_enum::<ReadingFormat>(None), None);
    assert_eq!(parse_optional_enum::<ReadingFormat>(Some(String::new())), None);
    assert_eq!(
        parse_optional_enum::<ReadingFormat>(Some("e-reader".to_string())),
        Some(ReadingFormat::EReader)
    );
    assert_eq!(parse_optional_enum::<ReadingFormat>(Some("kindle".to_string())), None);
}

#[test]
fn camel_case_signals() {
    assert_eq!(kebab_to_camel("_roaster-name"), "_roasterName");
    assert_eq!(kebab_to_camel("_book-primary-genre-id"), "_bookPrimaryGenreId");
    assert_eq!(kebab_to_camel("plain"), "plain");
    assert_eq!(kebab_to_camel("a--b"), "aB");
    assert_eq!(kebab_to_camel("trailing-"), "trailing");
}

#[test]
fn thumbnails_are_set_only_for_books_with_images() {
    let mut with_images = HashSet::new();
    with_images.insert(7i64);
    let mut url = None;
    enrich_thumbnail("7", &mut url, &with_images);
    assert_eq!(url, Some("/api/v1/book/7/thumbnail".to_string()));
    let mut url = Some("keep".to_string());
    enrich_thumbnail("8", &mut url, &with_images);
    assert_eq!(url, Some("keep".to_string()));
    let mut url = None;
    enrich_thumbnail("x7", &mut url, &with_images);
    assert_eq!(url, None);
}

#[test]
fn normalize_request_follows_served_page() {
    let req = ListRequest::new(4, PageSize::Limited(10), ReadingSortKey::Rating, SortDirection::Asc);
    let page: Page<()> = Page::new(vec![], 2, 20, 100, false);
    let norm = normalize_request(req, &page);
    assert_eq!(norm.page(), 2);
    assert_eq!(norm.page_size(), PageSize::Limited(20));
    assert_eq!(norm.sort_key(), ReadingSortKey::Rating);
    assert_eq!(norm.sort_direction(), SortDirection::Asc);
    let all: Page<()> = Page::new(vec![], 1, 20, 100, true);
    assert_eq!(normalize_request(req, &all).page_size(), PageSize::All);
}

#[test]
fn count_and_home_requests() {
    let c = count_request::<UserBookSortKey>();
    assert_eq!(c.page(), 1);
    assert_eq!(c.page_size(), PageSize::Limited(1));
    assert_eq!(c.sort_key(), UserBookSortKey::CreatedAt);
    assert_eq!(c.sort_direction(), SortDirection::Desc);
    assert_eq!(home_reading_request().page_size(), PageSize::Limited(10));
    assert_eq!(home_events_request().page_size(), PageSize::Limited(5));
    assert_eq!(home_events_request().sort_key(), TimelineSortKey::OccurredAt);
    assert_eq!(home_shelf_request().sort_direction(), SortDirection::Desc);
    let p: Page<u8> = empty_home_page();
    assert_eq!((p.page, p.page_size, p.total, p.showing_all), (1, 10, 0, false));
}

#[test]
fn detail_urls_and_defaults() {
    assert_eq!(detail_url("books", 42), "/books/42");
    assert_eq!(detail_url("authors", -3), "/authors/-3");
    assert_eq!(default_data_type(), "library");
    assert_eq!(default_add_type(), "author");
    assert!(validate_book_id(BookId::new(1)).is_ok());
    assert_eq!(validate_book_id(BookId::new(0)).unwrap_err().message, "invalid book id");
}

#[test]
fn camel_case_signal_names_are_kept() {
    for name in ["_roaster-name", "_book-primary-genre-id", "a--b", "-x", "_scanSuccess"] {
        let once = kebab_to_camel(name);
        assert_eq!(kebab_to_camel(&once), once);
    }
    assert_eq!(kebab_to_camel("_scanSuccess"), "_scanSuccess");
}

#[test]
fn delete_responses() {
    assert_eq!(
        delete_response(true, Some("http://x/data?type=readings&page=2"), "type=readings"),
        DeleteResponse::ListFragment
    );
    assert_eq!(
        delete_response(true, Some("http://x/readings/4"), "type=readings"),
        DeleteResponse::RedirectScript
    );
    assert_eq!(delete_response(true, None, "type=readings"), DeleteResponse::RedirectScript);
    assert_eq!(
        delete_response(false, Some("http://x/data?type=readings"), "type=readings"),
        DeleteResponse::NoContent
    );
}

// The value of the `datastar-request` header decides whether a request comes
// from Datastar; `None` stands for a request without the header.

#[test]
fn is_datastar_request_detects_correctly() {
    assert!(is_datastar_flag(Some("true")));
}

#[test]
fn is_datastar_request_detects_true_flag_case_insensitively() {
    assert!(is_datastar_flag(Some("TrUe")));
}

#[test]
fn is_datastar_request_defaults_to_false() {
    assert!(!is_datastar_flag(Some("nope")));
    assert!(!is_datastar_flag(None));
}

#[test]
fn list_links_read_back_to_their_request() {
    for (page, size, key, dir) in [
        (3, PageSize::Limited(25), BookSortKey::Title, SortDirection::Desc),
        (1, PageSize::All, BookSortKey::YearPublished, SortDirection::Asc),
        (7, PageSize::Limited(50), BookSortKey::CreatedAt, SortDirection::Asc),
    ] {
        let request = ListRequest::new(page, size, key, dir);
        let query = ListQuery {
            page: Some(request.page()),
            page_size: Some(PageSizeParam::Text(request.page_size().to_query_value())),
            sort_key: Some(request.sort_key().query_value().to_string()),
            sort_dir: Some(request.sort_direction().as_str().to_string()),
            q: None,
        };
        let (read_back, search) = query.into_request_and_search::<BookSortKey>();
        assert_eq!(read_back, request);
        assert_eq!(search, None);
    }
}

#[test]
fn reading_updates_answer_the_list_page_with_its_fragment() {
    assert_eq!(
        list_update_response(true, Some("http://x/data?type=readings"), "type=readings", PayloadSource::Form),
        UpdateResponse::ListFragment
    );
    assert_eq!(
        list_update_response(true, Some("http://x/readings/3"), "type=readings", PayloadSource::Json),
        UpdateResponse::RedirectScript
    );
    assert_eq!(
        list_update_response(false, Some("http://x/data?type=readings"), "type=readings", PayloadSource::Form),
        UpdateResponse::Redirect
    );
    assert_eq!(
        list_update_response(false, None, "type=readings", PayloadSource::Json),
        UpdateResponse::Json
    );
}
