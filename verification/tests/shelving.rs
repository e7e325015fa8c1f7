use booklog::ids::{BookId, UserId};
use booklog::readings::ReadingFilter;
use booklog::requests::{ReadingsQuery, list_all_request};
use booklog::timeline::TimelineSortKey;
use booklog::listing::{PageSize, SortDirection};
use booklog::user_books::{NewUserBookSubmission, Shelf, shelf_to_move};

#[test]
fn shelving_defaults_to_the_library() {
    let n = NewUserBookSubmission {
        book_id: BookId::new(8),
        shelf: None,
        book_club: None,
    }
    .into_new_user_book(UserId::new(2));
    assert_eq!(n.user_id, UserId::new(2));
    assert_eq!(n.book_id, BookId::new(8));
    assert_eq!(n.shelf, Shelf::Library);
    assert!(!n.book_club);
    let n = NewUserBookSubmission {
        book_id: BookId::new(8),
        shelf: Some("Wishlist".to_string()),
        book_club: Some(true),
    }
    .into_new_user_book(UserId::new(2));
    assert_eq!(n.shelf, Shelf::Wishlist);
    assert!(n.book_club);
    let n = NewUserBookSubmission {
        book_id: BookId::new(8),
        shelf: Some("attic".to_string()),
        book_club: Some(false),
    }
    .into_new_user_book(UserId::new(2));
    assert_eq!(n.shelf, Shelf::Library);
}

#[test]
fn moving_needs_a_known_shelf() {
    assert_eq!(shelf_to_move("wishlist").unwrap(), Shelf::Wishlist);
    assert_eq!(shelf_to_move("LIBRARY").unwrap(), Shelf::Library);
    assert_eq!(shelf_to_move("attic").unwrap_err().message, "invalid shelf value");
}

#[test]
fn reading_lists_filter_by_book() {
    let q = ReadingsQuery {
        book_id: Some(BookId::new(5)),
    };
    assert_eq!(q.filter(), ReadingFilter::for_book(BookId::new(5)));
    assert_eq!(ReadingsQuery { book_id: None }.filter(), ReadingFilter::all());
}

#[test]
fn list_all_asks_for_everything_in_default_order() {
    let r = list_all_request::<TimelineSortKey>();
    assert_eq!(r.page, 1);
    assert_eq!(r.page_size, PageSize::All);
    assert_eq!(r.sort_key, TimelineSortKey::OccurredAt);
    assert_eq!(r.sort_direction, SortDirection::Desc);
}
