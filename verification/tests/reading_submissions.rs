use booklog::ids::BookId;
use booklog::ids::UserId;
use booklog::quick_reviews::QuickReview;
use booklog::readings::{
    CalendarDate, NewReadingSubmission, RatingInput, ReadingFormat, ReadingStatus,
    UpdateReading, UpdateReadingSubmission, book_club_change, book_club_on_create, finishing_update, is_finishing, is_valid_half_stars,
    parse_optional_date,
};
use booklog::requests::{HasChanges, validate_update};

fn submission(book_id: i64) -> NewReadingSubmission {
    NewReadingSubmission {
        book_id: BookId::new(book_id),
        status: None,
        format: None,
        started_at: None,
        finished_at: None,
        rating: None,
        quick_reviews: Vec::new(),
        created_at: None,
        book_club: None,
    }
}

fn update_submission() -> UpdateReadingSubmission {
    UpdateReadingSubmission {
        book_id: None,
        status: None,
        format: None,
        started_at: None,
        finished_at: None,
        rating: None,
        quick_reviews: Vec::new(),
        created_at: None,
        book_club: None,
    }
}

fn no_changes() -> UpdateReading {
    UpdateReading {
        book_id: None,
        status: None,
        format: None,
        started_at: None,
        finished_at: None,
        rating_half_stars: None,
        quick_reviews: None,
        created_at: None,
    }
}

fn date(year: i32, month: u32, day: u32) -> CalendarDate {
    CalendarDate { year, month, day }
}

#[test]
fn optional_date_parses_iso_dates() {
    assert_eq!(
        parse_optional_date(Some("2024-03-15".to_string())),
        Some(date(2024, 3, 15))
    );
    assert_eq!(parse_optional_date(Some(String::new())), None);
    assert_eq!(parse_optional_date(None), None);
    assert_eq!(parse_optional_date(Some("15/03/2024".to_string())), None);
    assert_eq!(parse_optional_date(Some("2024-02-30".to_string())), None);
}

#[test]
fn new_reading_takes_the_submitted_fields() {
    let mut s = submission(7);
    s.status = Some("read".to_string());
    s.format = Some("e-reader".to_string());
    s.started_at = Some("2024-01-02".to_string());
    s.finished_at = Some("2024-02-03".to_string());
    s.rating = Some(RatingInput::HalfStars(7));
    s.quick_reviews = vec![QuickReview::PageTurner];
    let n = s.into_new_reading(UserId::new(3)).unwrap();
    assert_eq!(n.user_id, UserId::new(3));
    assert_eq!(n.book_id, BookId::new(7));
    assert_eq!(n.status, ReadingStatus::Read);
    assert_eq!(n.format, Some(ReadingFormat::EReader));
    assert_eq!(n.started_at, Some(date(2024, 1, 2)));
    assert_eq!(n.finished_at, Some(date(2024, 2, 3)));
    assert_eq!(n.rating_half_stars, Some(7));
    assert_eq!(n.quick_reviews, vec![QuickReview::PageTurner]);
    assert_eq!(n.created_at, None);
}

#[test]
fn new_reading_defaults_and_drops_what_names_nothing() {
    let mut s = submission(1);
    s.status = Some("finished".to_string());
    s.format = Some(String::new());
    s.started_at = Some("yesterday".to_string());
    s.rating = Some(RatingInput::HalfStars(0));
    let n = s.into_new_reading(UserId::new(1)).unwrap();
    assert_eq!(n.status, ReadingStatus::Reading);
    assert_eq!(n.format, None);
    assert_eq!(n.started_at, None);
    assert_eq!(n.rating_half_stars, None);
}

#[test]
fn new_reading_refuses_a_book_id_that_is_not_positive() {
    let mut s = submission(0);
    s.rating = Some(RatingInput::NotHalfStars);
    let err = s.into_new_reading(UserId::new(1)).unwrap_err();
    assert_eq!(err.message, "invalid book id");
    let err = submission(-4).into_new_reading(UserId::new(1)).unwrap_err();
    assert_eq!(err.message, "invalid book id");
}

#[test]
fn new_reading_refuses_invalid_ratings() {
    for rating in [
        RatingInput::NotHalfStars,
        RatingInput::HalfStars(11),
        RatingInput::HalfStars(-2),
    ] {
        let mut s = submission(2);
        s.rating = Some(rating);
        let err = s.into_new_reading(UserId::new(1)).unwrap_err();
        assert_eq!(
            err.message,
            "rating must be between 0.5 and 5, in 0.5 increments"
        );
    }
}

#[test]
fn on_shelf_submissions_are_recognised() {
    let mut s = submission(2);
    assert!(!s.is_on_shelf());
    s.status = Some("on_shelf".to_string());
    assert!(s.is_on_shelf());
    s.status = Some("on-shelf".to_string());
    assert!(!s.is_on_shelf());
}

#[test]
fn update_takes_the_submitted_changes() {
    let mut s = update_submission();
    s.book_id = Some(BookId::new(9));
    s.status = Some("Abandoned".to_string());
    s.format = Some("audiobook".to_string());
    s.finished_at = Some("2023-12-31".to_string());
    s.rating = Some(RatingInput::HalfStars(10));
    s.quick_reviews = vec![QuickReview::SlowBurn, QuickReview::Moving];
    let u = s.into_update().unwrap();
    assert_eq!(u.book_id, Some(BookId::new(9)));
    assert_eq!(u.status, Some(ReadingStatus::Abandoned));
    assert_eq!(u.format, Some(ReadingFormat::Audiobook));
    assert_eq!(u.started_at, None);
    assert_eq!(u.finished_at, Some(date(2023, 12, 31)));
    assert_eq!(u.rating_half_stars, Some(10));
    assert_eq!(
        u.quick_reviews,
        Some(vec![QuickReview::SlowBurn, QuickReview::Moving])
    );
    assert!(u.has_changes());
}

#[test]
fn empty_update_submission_changes_nothing_and_is_refused() {
    let mut s = update_submission();
    s.status = Some("unknown".to_string());
    s.rating = Some(RatingInput::HalfStars(0));
    let u = s.into_update().unwrap();
    assert_eq!(u.status, None);
    assert_eq!(u.rating_half_stars, None);
    assert_eq!(u.quick_reviews, None);
    assert!(!u.has_changes());
    let err = validate_update(&u, None).unwrap_err();
    assert_eq!(err.message, "no changes provided");
    assert!(validate_update(&u, Some(&"data:image/png".to_string())).is_ok());
}

#[test]
fn update_refuses_invalid_ratings() {
    let mut s = update_submission();
    s.rating = Some(RatingInput::HalfStars(12));
    let err = s.into_update().unwrap_err();
    assert_eq!(
        err.message,
        "rating must be between 0.5 and 5, in 0.5 increments"
    );
}

#[test]
fn finishing_is_setting_the_status_to_read() {
    let mut u = no_changes();
    assert!(!is_finishing(&u));
    u.status = Some(ReadingStatus::Reading);
    assert!(!is_finishing(&u));
    u.status = Some(ReadingStatus::Read);
    assert!(is_finishing(&u));
}

#[test]
fn finishing_update_defaults_the_finish_date_to_today() {
    let mut u = no_changes();
    u.status = Some(ReadingStatus::Read);
    let today = date(2025, 6, 1);
    let f = finishing_update(u.clone(), today);
    assert_eq!(f.finished_at, Some(today));
    assert_eq!(f.status, Some(ReadingStatus::Read));
    u.finished_at = Some(date(2025, 5, 30));
    let f = finishing_update(u, today);
    assert_eq!(f.finished_at, Some(date(2025, 5, 30)));
}

#[test]
fn valid_rating_accepts_half_stars() {
    // 0.5, 1.0, ..., 5.0 stars
    for h in 1..=10 {
        assert!(is_valid_half_stars(h), "{h} half stars should be valid");
    }
}

#[test]
fn valid_rating_rejects_invalid() {
    // 0.0, 5.5 and -1.0 stars
    assert!(!is_valid_half_stars(0));
    assert!(!is_valid_half_stars(11));
    assert!(!is_valid_half_stars(-2));
    // 0.3 and 1.7 stars are no whole number of half stars
    let mut s = update_submission();
    s.rating = Some(RatingInput::NotHalfStars);
    assert!(s.into_update().is_err());
}

#[test]
fn book_club_flag_changes_only_when_it_differs() {
    assert_eq!(book_club_change(Some(true), Some(false)), Some(true));
    assert_eq!(book_club_change(Some(false), Some(true)), Some(false));
    assert_eq!(book_club_change(Some(true), Some(true)), None);
    assert_eq!(book_club_change(Some(true), None), None);
    assert_eq!(book_club_change(None, Some(false)), None);
}

#[test]
fn new_readings_set_the_book_club_flag_when_asked() {
    assert!(book_club_on_create(Some(true), true));
    assert!(!book_club_on_create(Some(true), false));
    assert!(!book_club_on_create(Some(false), true));
    assert!(!book_club_on_create(None, true));
}
