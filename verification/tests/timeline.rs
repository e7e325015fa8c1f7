use booklog::authors::Author;
use booklog::books::{Book, BookWithAuthors, book_timeline_event};
use booklog::formatting::rating_text;
use booklog::genres::Genre;
use booklog::ids::{AuthorId, BookId, GenreId, ReadingId, UserBookId, UserId};
use booklog::quick_reviews::{QuickReview, quick_reviews_from_entries, quick_reviews_from_list};
use booklog::readings::{Reading, ReadingFormat, ReadingStatus, reading_timeline_event};
use booklog::services::{LibraryAction, RefreshTarget, library_action_for_reading, refresh_target};
use booklog::time::UtcTimestamp;
use booklog::timeline::{NewTimelineEvent, TimelineEventDetail};
use booklog::user_books::{Shelf, UserBook, user_book_timeline_event};

fn ts(seconds: i64) -> UtcTimestamp {
    UtcTimestamp::new(seconds, 0).unwrap()
}

fn book(page_count: Option<i32>) -> Book {
    Book {
        id: BookId::new(7),
        title: "Dune".to_string(),
        isbn: None,
        description: None,
        page_count,
        year_published: None,
        publisher: None,
        language: None,
        primary_genre_id: None,
        secondary_genre_id: None,
        created_at: ts(100),
    }
}

fn author(name: &str) -> Author {
    Author { id: AuthorId::new(1), name: name.to_string(), created_at: ts(50) }
}

fn details(e: &NewTimelineEvent) -> Vec<(String, String)> {
    e.details.iter().map(|d| (d.label.clone(), d.value.clone())).collect()
}

fn pair(a: &str, b: &str) -> (String, String) {
    (a.to_string(), b.to_string())
}

#[test]
fn author_detail_lists_names() {
    let d = TimelineEventDetail::author_detail(&["A", "B"]);
    assert_eq!((d.label.as_str(), d.value.as_str()), ("Author", "A, B"));
    let d = TimelineEventDetail::author_detail(&[]);
    assert_eq!(d.value, "Unknown");
}

#[test]
fn reading_events() {
    let mut reading = Reading {
        id: ReadingId::new(3),
        user_id: UserId::new(2),
        book_id: BookId::new(7),
        status: ReadingStatus::Read,
        format: Some(ReadingFormat::EReader),
        started_at: None,
        finished_at: None,
        rating_half_stars: Some(7),
        quick_reviews: vec![QuickReview::LovedIt, QuickReview::OddPov],
        created_at: ts(10),
        updated_at: ts(20),
    };
    let e = reading_timeline_event(&reading, &book(None), &[author("Frank Herbert")]);
    assert_eq!(e.user_id, Some(UserId::new(2)));
    assert_eq!(e.entity_type, "reading");
    assert_eq!(e.entity_id, 3);
    assert_eq!(e.action, "finished");
    assert_eq!(e.occurred_at, ts(20));
    assert_eq!(e.title, "Dune");
    assert_eq!(
        details(&e),
        vec![
            pair("Author", "Frank Herbert"),
            pair("Format", "eReader"),
            pair("Rating", "3.5/5"),
            pair("Notes", "Loved it, Odd POV"),
        ]
    );
    assert!(e.genres.is_empty());
    reading.status = ReadingStatus::Reading;
    reading.format = None;
    reading.rating_half_stars = None;
    reading.quick_reviews = vec![];
    let e = reading_timeline_event(&reading, &book(None), &[]);
    assert_eq!(e.action, "started");
    assert_eq!(e.occurred_at, ts(10));
    assert_eq!(details(&e), vec![pair("Author", "Unknown")]);
}

#[test]
fn book_events() {
    let e = book_timeline_event(&book(Some(412)), &[author("Frank Herbert")], Some("SF"), Some("Classic"), UserId::new(9));
    assert_eq!(e.action, "added");
    assert_eq!(e.entity_type, "book");
    assert_eq!(e.occurred_at, ts(100));
    assert_eq!(e.genres, vec!["SF".to_string(), "Classic".to_string()]);
    assert_eq!(
        details(&e),
        vec![pair("Author", "Frank Herbert"), pair("Genres", "SF, Classic"), pair("Pages", "412")]
    );
    let e = book_timeline_event(&book(None), &[], None, None, UserId::new(9));
    assert_eq!(details(&e), vec![pair("Author", "Unknown")]);
    assert!(e.genres.is_empty());
}

#[test]
fn shelving_and_added_events() {
    let ub = UserBook {
        id: UserBookId::new(1),
        user_id: UserId::new(2),
        book_id: BookId::new(7),
        shelf: Shelf::Wishlist,
        book_club: false,
        created_at: ts(30),
    };
    let e = user_book_timeline_event(&ub, &book(Some(1)), &[author("A")]);
    assert_eq!(e.action, "shelved");
    assert_eq!(e.occurred_at, ts(30));
    assert_eq!(details(&e), vec![pair("Author", "A")]);
    let a = author("Le Guin").to_timeline_event(UserId::new(5));
    assert_eq!((a.entity_type.as_str(), a.action.as_str(), a.title.as_str()), ("author", "added", "Le Guin"));
    let g = Genre { id: GenreId::new(4), name: "Fantasy".to_string(), created_at: ts(1) };
    let e = g.to_timeline_event(UserId::new(5));
    assert_eq!((e.entity_type.as_str(), e.entity_id, e.title.as_str()), ("genre", 4, "Fantasy"));
    assert!(e.details.is_empty());
}

#[test]
fn genre_names_of_book() {
    let bwa = BookWithAuthors {
        book: book(None),
        authors: vec![],
        primary_genre: None,
        secondary_genre: Some("Horror".to_string()),
    };
    assert_eq!(bwa.genre_names(), vec!["Horror".to_string()]);
}

#[test]
fn half_star_ratings() {
    assert_eq!(rating_text(8), "4/5");
    assert_eq!(rating_text(7), "3.5/5");
    assert_eq!(rating_text(1), "0.5/5");
}

#[test]
fn quick_review_lists() {
    assert_eq!(
        quick_reviews_from_list("loved-it, Slow burn,bogus,,dense"),
        vec![QuickReview::LovedIt, QuickReview::SlowBurn, QuickReview::Dense]
    );
    assert!(quick_reviews_from_list("").is_empty());
    assert_eq!(
        quick_reviews_from_entries(&[Some("funny".to_string()), None, Some(" funny".to_string())]),
        vec![QuickReview::Funny]
    );
}

#[test]
fn service_decisions() {
    assert_eq!(library_action_for_reading(Some(Shelf::Wishlist)), LibraryAction::MoveToLibrary);
    assert_eq!(library_action_for_reading(Some(Shelf::Library)), LibraryAction::Nothing);
    assert_eq!(library_action_for_reading(None), LibraryAction::AddToLibrary);
    assert_eq!(refresh_target("author"), RefreshTarget::AuthorCascade);
    assert_eq!(refresh_target("book"), RefreshTarget::BookCascade);
    assert_eq!(refresh_target("reading"), RefreshTarget::Reading);
    assert_eq!(refresh_target("genre"), RefreshTarget::GenreCascade);
    assert_eq!(refresh_target("user"), RefreshTarget::Unknown);
}
