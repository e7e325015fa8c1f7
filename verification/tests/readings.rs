use booklog::quick_reviews::{QuickReview, Sentiment};
use booklog::readings::{ReadingFormat, ReadingStatus};
use booklog::user_books::Shelf;

// --- ReadingStatus ---

#[test]
fn reading_status_from_str_valid() {
    assert_eq!(
        "reading".parse::<ReadingStatus>(),
        Ok(ReadingStatus::Reading)
    );
    assert_eq!("read".parse::<ReadingStatus>(), Ok(ReadingStatus::Read));
    assert_eq!(
        "abandoned".parse::<ReadingStatus>(),
        Ok(ReadingStatus::Abandoned)
    );
}

#[test]
fn reading_status_from_str_case_insensitive() {
    assert_eq!(
        "READING".parse::<ReadingStatus>(),
        Ok(ReadingStatus::Reading)
    );
    assert_eq!("Read".parse::<ReadingStatus>(), Ok(ReadingStatus::Read));
}

#[test]
fn reading_status_from_str_invalid() {
    assert!("finished".parse::<ReadingStatus>().is_err());
    assert!("".parse::<ReadingStatus>().is_err());
}

#[test]
fn reading_status_roundtrip() {
    for status in [
        ReadingStatus::Reading,
        ReadingStatus::Read,
        ReadingStatus::Abandoned,
    ] {
        assert_eq!(status.as_str().parse::<ReadingStatus>(), Ok(status));
    }
}

#[test]
fn reading_status_default_is_reading() {
    assert_eq!(ReadingStatus::default(), ReadingStatus::Reading);
}

// --- ReadingFormat ---

#[test]
fn reading_format_from_str_valid() {
    assert_eq!(
        "physical".parse::<ReadingFormat>(),
        Ok(ReadingFormat::Physical)
    );
    assert_eq!(
        "ereader".parse::<ReadingFormat>(),
        Ok(ReadingFormat::EReader)
    );
    assert_eq!(
        "e_reader".parse::<ReadingFormat>(),
        Ok(ReadingFormat::EReader)
    );
    assert_eq!(
        "audiobook".parse::<ReadingFormat>(),
        Ok(ReadingFormat::Audiobook)
    );
}

#[test]
fn reading_format_from_str_case_insensitive() {
    assert_eq!(
        "PHYSICAL".parse::<ReadingFormat>(),
        Ok(ReadingFormat::Physical)
    );
    assert_eq!(
        "EReader".parse::<ReadingFormat>(),
        Ok(ReadingFormat::EReader)
    );
}

#[test]
fn reading_format_from_str_hyphenated() {
    assert_eq!(
        "e-reader".parse::<ReadingFormat>(),
        Ok(ReadingFormat::EReader)
    );
}

#[test]
fn reading_format_from_str_invalid() {
    assert!("kindle".parse::<ReadingFormat>().is_err());
    assert!("".parse::<ReadingFormat>().is_err());
}

#[test]
fn reading_format_roundtrip() {
    for fmt in [
        ReadingFormat::Physical,
        ReadingFormat::EReader,
        ReadingFormat::Audiobook,
    ] {
        assert_eq!(fmt.as_str().parse::<ReadingFormat>(), Ok(fmt));
    }
}

// --- QuickReview ---

#[test]
fn quick_review_all_returns_all_variants() {
    assert_eq!(QuickReview::all().len(), 19);
}

#[test]
fn quick_review_form_value_roundtrip() {
    for review in QuickReview::all() {
        assert_eq!(
            QuickReview::from_str_value(review.form_value()),
            Some(*review),
            "form_value roundtrip failed for {:?}",
            review
        );
    }
}

#[test]
fn quick_review_label_roundtrip() {
    for review in QuickReview::all() {
        assert_eq!(
            QuickReview::from_str_value(review.label()),
            Some(*review),
            "label roundtrip failed for {:?}",
            review
        );
    }
}

#[test]
fn quick_review_from_str_value_invalid() {
    assert_eq!(QuickReview::from_str_value("nonexistent"), None);
    assert_eq!(QuickReview::from_str_value(""), None);
}

#[test]
fn quick_review_sentiment_classification() {
    assert_eq!(QuickReview::LovedIt.sentiment(), Sentiment::Positive);
    assert_eq!(QuickReview::PageTurner.sentiment(), Sentiment::Positive);
    assert_eq!(QuickReview::QuickRead.sentiment(), Sentiment::Neutral);
    assert_eq!(QuickReview::SlowBurn.sentiment(), Sentiment::Neutral);
    assert_eq!(QuickReview::Dense.sentiment(), Sentiment::Neutral);
    assert_eq!(QuickReview::Forgettable.sentiment(), Sentiment::Negative);
    assert_eq!(QuickReview::Overrated.sentiment(), Sentiment::Negative);
}

#[test]
fn quick_review_is_positive_matches_sentiment() {
    for review in QuickReview::all() {
        assert_eq!(
            review.is_positive(),
            review.sentiment() == Sentiment::Positive,
            "is_positive mismatch for {:?}",
            review
        );
    }
}

#[test]
fn quick_review_is_neutral_matches_sentiment() {
    for review in QuickReview::all() {
        assert_eq!(
            review.is_neutral(),
            review.sentiment() == Sentiment::Neutral,
            "is_neutral mismatch for {:?}",
            review
        );
    }
}

#[test]
fn quick_review_every_variant_has_sentiment() {
    for review in QuickReview::all() {
        let _ = review.sentiment(); // should not panic
    }
}

// --- Shelf ---

#[test]
fn shelf_from_str_valid() {
    assert_eq!("library".parse::<Shelf>(), Ok(Shelf::Library));
    assert_eq!("wishlist".parse::<Shelf>(), Ok(Shelf::Wishlist));
}

#[test]
fn shelf_from_str_case_insensitive() {
    assert_eq!("LIBRARY".parse::<Shelf>(), Ok(Shelf::Library));
    assert_eq!("Wishlist".parse::<Shelf>(), Ok(Shelf::Wishlist));
}

#[test]
fn shelf_from_str_invalid() {
    assert!("archive".parse::<Shelf>().is_err());
    assert!("".parse::<Shelf>().is_err());
}

#[test]
fn shelf_roundtrip() {
    for shelf in [Shelf::Library, Shelf::Wishlist] {
        assert_eq!(shelf.as_str().parse::<Shelf>(), Ok(shelf));
    }
}

#[test]
fn shelf_default_is_library() {
    assert_eq!(Shelf::default(), Shelf::Library);
}

#[test]
fn reading_format_names_compare_as_lowercased() {
    // The Kelvin sign lower-cases to `k`.
    assert_eq!(
        "AUDIOBOO\u{212A}".parse::<ReadingFormat>(),
        Ok(ReadingFormat::Audiobook)
    );
    assert_eq!("E-Reader".parse::<ReadingFormat>(), Ok(ReadingFormat::EReader));
    assert!("audiobooks".parse::<ReadingFormat>().is_err());
}
