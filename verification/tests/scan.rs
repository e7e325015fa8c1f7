use booklog::books::{AuthorRole, BookAuthor, BookAuthorInfo};
use booklog::ids::{AuthorId, BookId, GenreId};
use booklog::scan::{
    BookScanSubmission, CoverToSave, ExtractedBook, SignalValue, apply_extraction,
    build_extraction_signals, cover_signals, cover_to_save, first_author_name, has_raw_input,
    lookup_name, new_book_from_scan, normalize_opt, parse_matched_book_id, parse_shelf,
    scan_author, scan_image_to_keep, scan_success_signals,
};
use booklog::user_books::Shelf;

fn extracted() -> ExtractedBook {
    ExtractedBook {
        author_name: Some("Ursula K. Le Guin".to_string()),
        title: Some("The Dispossessed".to_string()),
        isbn: None,
        description: Some("An ambiguous utopia".to_string()),
        page_count: Some(387),
        year_published: None,
        publisher: Some("Harper".to_string()),
        language: None,
        primary_genre: Some("Science Fiction".to_string()),
        secondary_genre: None,
        cover_image_urls: None,
    }
}

fn submission() -> BookScanSubmission {
    BookScanSubmission {
        image: None,
        prompt: None,
        author_name: String::new(),
        book_title: "  Dune ".to_string(),
        book_isbn: Some("  ".to_string()),
        book_description: None,
        book_pages: Some("412".to_string()),
        book_year: Some("nineteen".to_string()),
        book_publisher: Some(" Chilton ".to_string()),
        book_language: None,
        book_primary_genre_id: Some(3),
        book_secondary_genre_id: None,
        book_primary_genre_name: None,
        book_secondary_genre_name: None,
        shelf: None,
        book_club: None,
        matched_book_id: None,
        scan_image: None,
        selected_cover_id: None,
    }
}

fn text(v: &SignalValue) -> &str {
    match v {
        SignalValue::Text(s) => s.as_str(),
        SignalValue::Flag(_) => panic!("expected a text signal"),
    }
}

#[test]
fn extraction_signals_fill_the_form() {
    let ids = vec!["c1".to_string(), "c2".to_string()];
    let signals = build_extraction_signals(
        extracted(),
        "5".to_string(),
        String::new(),
        Some(GenreId::new(9)),
        None,
        &ids,
    );
    assert_eq!(signals.len(), 20);
    let names: Vec<&str> = signals.iter().map(|(n, _)| *n).collect();
    assert_eq!(names[0], "_author-name");
    assert_eq!(names[12], "_scan-extracted");
    assert_eq!(names[15], "_cover-1");
    assert_eq!(names[19], "_cover-5");
    assert_eq!(text(&signals[0].1), "Ursula K. Le Guin");
    assert_eq!(text(&signals[2].1), "");
    assert_eq!(text(&signals[4].1), "387");
    assert_eq!(text(&signals[5].1), "");
    assert_eq!(text(&signals[10].1), "9");
    assert_eq!(text(&signals[11].1), "");
    assert_eq!(signals[12].1, SignalValue::Flag(true));
    assert_eq!(text(&signals[13].1), "5");
    assert_eq!(text(&signals[15].1), "c1");
    assert_eq!(text(&signals[16].1), "c2");
    assert_eq!(text(&signals[17].1), "");
}

#[test]
fn matched_book_ids() {
    assert_eq!(parse_matched_book_id(None), None);
    assert_eq!(parse_matched_book_id(Some(&String::new())), None);
    assert_eq!(parse_matched_book_id(Some(&"12".to_string())), Some(BookId::new(12)));
    assert_eq!(parse_matched_book_id(Some(&"12b".to_string())), None);
}

#[test]
fn scan_shelves() {
    assert_eq!(parse_shelf(Some("wishlist")), Shelf::Wishlist);
    assert_eq!(parse_shelf(Some("Wishlist")), Shelf::Library);
    assert_eq!(parse_shelf(Some("library")), Shelf::Library);
    assert_eq!(parse_shelf(None), Shelf::Library);
}

#[test]
fn optional_normalisation() {
    assert_eq!(normalize_opt(Some("  x ".to_string())), Some("x".to_string()));
    assert_eq!(normalize_opt(Some(" \t".to_string())), None);
    assert_eq!(normalize_opt(None), None);
    assert_eq!(lookup_name(Some("  Le Guin ")), Some("Le Guin".to_string()));
    assert_eq!(lookup_name(Some("   ")), None);
}

#[test]
fn raw_input_and_scan_image() {
    let mut s = submission();
    assert!(!has_raw_input(&s));
    s.prompt = Some(String::new());
    assert!(!has_raw_input(&s));
    s.image = Some("data".to_string());
    assert!(has_raw_input(&s));
    assert_eq!(scan_image_to_keep(Some("a".to_string()), Some("b".to_string())), Some("a".to_string()));
    assert_eq!(scan_image_to_keep(None, Some("b".to_string())), Some("b".to_string()));
    assert_eq!(scan_image_to_keep(Some(String::new()), Some("b".to_string())), None);
}

#[test]
fn scan_creates_book() {
    let book = new_book_from_scan(&submission(), AuthorId::new(4)).unwrap();
    assert_eq!(book.title, "Dune");
    assert_eq!(book.authors.len(), 1);
    let BookAuthor { author_id, role } = book.authors[0];
    assert_eq!(author_id, AuthorId::new(4));
    assert_eq!(role, AuthorRole::Author);
    assert_eq!(book.isbn, None);
    assert_eq!(book.page_count, Some(412));
    assert_eq!(book.year_published, None);
    assert_eq!(book.publisher, Some("Chilton".to_string()));
    assert_eq!(book.primary_genre_id, Some(GenreId::new(3)));
    assert_eq!(book.secondary_genre_id, None);
    assert!(book.created_at.is_none());
}

#[test]
fn scan_without_title_is_refused() {
    let mut s = submission();
    s.book_title = "   ".to_string();
    let err = new_book_from_scan(&s, AuthorId::new(4)).unwrap_err();
    assert_eq!(err.message, "book title is required");
}

#[test]
fn extraction_fills_submission() {
    let mut s = submission();
    apply_extraction(&mut s, extracted(), Some(GenreId::new(11)), None);
    assert_eq!(s.author_name, "Ursula K. Le Guin");
    assert_eq!(s.book_title, "The Dispossessed");
    assert_eq!(s.book_isbn, Some("  ".to_string()));
    assert_eq!(s.book_description, Some("An ambiguous utopia".to_string()));
    assert_eq!(s.book_pages, Some("387".to_string()));
    assert_eq!(s.book_year, Some("nineteen".to_string()));
    assert_eq!(s.book_publisher, Some("Harper".to_string()));
    assert_eq!(s.book_primary_genre_id, Some(11));
    assert_eq!(s.book_secondary_genre_id, None);
}

#[test]
fn cover_signals_fill_five_slots_in_order() {
    let ids = vec!["a1".to_string(), "b2".to_string()];
    let signals = cover_signals(&ids);
    assert_eq!(
        signals,
        vec![
            ("_cover-1", SignalValue::Text("a1".to_string())),
            ("_cover-2", SignalValue::Text("b2".to_string())),
            ("_cover-3", SignalValue::Text(String::new())),
            ("_cover-4", SignalValue::Text(String::new())),
            ("_cover-5", SignalValue::Text(String::new())),
        ]
    );
}

#[test]
fn scan_success_signals_report_the_book() {
    let signals = scan_success_signals(BookId::new(42), "Dune".to_string(), "Frank Herbert".to_string());
    assert_eq!(
        signals,
        vec![
            ("_book-id", SignalValue::Text("42".to_string())),
            ("_scan-success", SignalValue::Text("Dune".to_string())),
            ("_author-name", SignalValue::Text("Frank Herbert".to_string())),
        ]
    );
}

#[test]
fn first_author_name_is_empty_without_authors() {
    let info = BookAuthorInfo {
        author_id: AuthorId::new(1),
        author_name: "Octavia E. Butler".to_string(),
        role: AuthorRole::Author,
    };
    assert_eq!(first_author_name(&[info]), "Octavia E. Butler");
    assert_eq!(first_author_name(&[]), "");
}

#[test]
fn selected_cover_is_preferred_over_the_photo() {
    let photo = Some("data:image/jpeg;base64,AAAA".to_string());
    assert_eq!(
        cover_to_save(Some("sugg-1".to_string()), photo.clone()),
        CoverToSave::Suggestion("sugg-1".to_string())
    );
    assert_eq!(
        cover_to_save(Some(String::new()), photo.clone()),
        CoverToSave::Photo(photo.clone())
    );
    assert_eq!(cover_to_save(None, photo.clone()), CoverToSave::Photo(photo));
    assert_eq!(cover_to_save(None, None), CoverToSave::Photo(None));
}

#[test]
fn extracted_numbers_reach_the_book() {
    for (pages, year) in [(387, 1974), (0, -44), (i32::MAX, i32::MIN)] {
        let mut s = submission();
        let mut found = extracted();
        found.page_count = Some(pages);
        found.year_published = Some(year);
        apply_extraction(&mut s, found, None, None);
        let book = new_book_from_scan(&s, AuthorId::new(1)).unwrap();
        assert_eq!(book.page_count, Some(pages));
        assert_eq!(book.year_published, Some(year));
    }
}

#[test]
fn scanned_author_needs_a_name() {
    assert_eq!(scan_author("  Ted Chiang ").unwrap().name, "Ted Chiang");
    assert_eq!(scan_author(" \t ").unwrap_err().message, "author name is required");
}
