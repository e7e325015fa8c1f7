use booklog::stats::{
    BookSummaryStats, active_year_key, build_activity_chart_data, build_stat_cards, format_number,
    parse_year_filter, stat_cards_in_order, stats_fragment, stats_has_data, build_year_tabs,
};

fn summary(top_genre: Option<&str>) -> BookSummaryStats {
    BookSummaryStats {
        total_books: 3,
        total_authors: 2,
        unique_genres: 4,
        top_genre: top_genre.map(String::from),
        top_author: None,
        most_rated_author: None,
        most_rated_genre: None,
        genre_counts: vec![],
        max_genre_count: 0,
        page_count_distribution: vec![],
        year_published_distribution: vec![],
        max_year_published_count: 0,
        top_authors: vec![],
        max_top_author_count: 0,
        longest_book: None,
        shortest_book: None,
    }
}

#[test]
fn year_filter() {
    assert_eq!(parse_year_filter(None), None);
    assert_eq!(parse_year_filter(Some(&"all".to_string())), None);
    assert_eq!(parse_year_filter(Some(&"2024".to_string())), Some(2024));
    assert_eq!(parse_year_filter(Some(&"2000".to_string())), Some(2000));
    assert_eq!(parse_year_filter(Some(&"2100".to_string())), Some(2100));
    assert_eq!(parse_year_filter(Some(&"1999".to_string())), None);
    assert_eq!(parse_year_filter(Some(&"2101".to_string())), None);
    assert_eq!(parse_year_filter(Some(&"ALL".to_string())), None);
    assert_eq!(parse_year_filter(Some(&"twenty".to_string())), None);
}

#[test]
fn thousands_separators() {
    assert_eq!(format_number(0), "0");
    assert_eq!(format_number(999), "999");
    assert_eq!(format_number(1000), "1,000");
    assert_eq!(format_number(1234567), "1,234,567");
    assert_eq!(format_number(1000001), "1,000,001");
    assert_eq!(format_number(-5000), "-5000");
    assert_eq!(format_number(i64::MAX), "9,223,372,036,854,775,807");
    assert_eq!(format_number(1234567).replace(',', ""), 1234567.to_string());
}

#[test]
fn activity_chart_data() {
    let books = vec![("Jan".to_string(), 2u64), ("Feb".to_string(), 0u64), ("Mar".to_string(), 1)];
    let pages = vec![("Jan".to_string(), 600i64), ("Feb".to_string(), 0i64)];
    assert_eq!(build_activity_chart_data(&books, &pages), "Jan:2:600|Feb:0:0");
    assert_eq!(build_activity_chart_data(&[], &pages), "");
}

#[test]
fn year_tabs_list_years() {
    assert!(build_year_tabs(&[]).is_empty());
    let tabs = build_year_tabs(&[2025, 2024]);
    let pairs: Vec<(String, String)> = tabs.into_iter().map(|t| (t.key, t.label)).collect();
    assert_eq!(
        pairs,
        vec![
            ("all".to_string(), "All Time".to_string()),
            ("2025".to_string(), "2025".to_string()),
            ("2024".to_string(), "2024".to_string()),
        ]
    );
}

#[test]
fn stat_cards() {
    let cards = stat_cards_in_order(summary(Some("Fantasy")), 2, 40, 12345);
    let view: Vec<(&str, String, &str)> = cards.iter().map(|c| (c.icon, c.value.clone(), c.label)).collect();
    assert_eq!(
        view,
        vec![
            ("book", "2".to_string(), "Books (30d)"),
            ("book", "40".to_string(), "All Time"),
            ("book", "12345".to_string(), "Pages Read"),
            ("map", "4".to_string(), "Genres"),
            ("book", "Fantasy".to_string(), "Top Genre"),
            ("book", "\u{2014}".to_string(), "Top Author"),
        ]
    );
    let mut shuffled: Vec<(&str, String, &str)> = build_stat_cards(summary(Some("Fantasy")), 2, 40, 12345)
        .iter()
        .map(|c| (c.icon, c.value.clone(), c.label))
        .collect();
    let mut expected = view.clone();
    shuffled.sort();
    expected.sort();
    assert_eq!(shuffled, expected);
}

#[test]
fn stats_page_helpers() {
    assert!(!stats_has_data(0, 0));
    assert!(stats_has_data(1, 0));
    assert!(stats_has_data(0, 1));
    assert_eq!(active_year_key(None), "all");
    assert_eq!(active_year_key(Some(2024)), "2024");
    assert_eq!(
        stats_fragment("<p>x</p>"),
        "<div id=\"stats-content\" class=\"flex flex-col gap-8\"><p>x</p></div>"
    );
}
