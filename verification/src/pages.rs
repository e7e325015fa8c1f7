//! What the web pages show: the values that the edit, start and finish
//! forms open with, and which list the data page shows.
use vstd::prelude::*;

use crate::books::{Book, BookAuthorInfo};
use crate::formatting::{format_pages, pages_text};
use crate::ids::ReadingId;
use crate::quick_reviews::{
    QuickReview, lemma_quick_reviews_field_roundtrip, review_form_value, review_form_values,
    reviews_from_list_spec,
};
use crate::readings::{
    CalendarDate, Reading, ReadingFormat, ReadingStatus, ReadingWithBook,
    lemma_reading_format_roundtrip,
    lemma_reading_format_text_not_empty, lemma_reading_status_roundtrip, named_status,
    reading_format_text, reading_status_text,
};
use crate::requests::optional_name_spec;
use crate::text::{
    concat, decimal, i64_to_string, int_decimal, join_spec, join_strs, opt_view, owned, str_eq,
    str_views, u64_to_string,
};
use crate::user_books::{Shelf, shelf_text};

verus! {

// ---------------------------------------------------------------------------
// Form fields
// ---------------------------------------------------------------------------

/// The years that chrono's dates reach.
pub open spec fn min_date_year() -> int {
    -262143
}

pub open spec fn max_date_year() -> int {
    262142
}

/// Leap years of the proleptic Gregorian calendar (`-4` is one: 5 BCE).
pub open spec fn is_leap_year(y: int) -> bool {
    y % 4 == 0 && (y % 100 != 0 || y % 400 == 0)
}

/// The number of days of month `m` in year `y`.
pub open spec fn days_in_month(y: int, m: int) -> int {
    if m == 2 {
        if is_leap_year(y) {
            29
        } else {
            28
        }
    } else if m == 4 || m == 6 || m == 9 || m == 11 {
        30
    } else {
        31
    }
}

/// Whether chrono has a date with this year, month and day.
pub open spec fn date_exists(year: int, month: int, day: int) -> bool {
    &&& min_date_year() <= year <= max_date_year()
    &&& 1 <= month <= 12
    &&& 1 <= day <= days_in_month(year, month)
}

/// `n` in decimal, with zeros in front up to `width` digits.
pub open spec fn zero_padded(n: nat, width: nat) -> Seq<char> {
    let digits = decimal(n);
    if digits.len() >= width {
        digits
    } else {
        Seq::new((width - digits.len()) as nat, |i: int| '0') + digits
    }
}

/// A year as ISO 8601 writes it: four digits for years 0 to 9999, else a
/// sign and at least four digits.
pub open spec fn iso_year_text(y: int) -> Seq<char> {
    if 0 <= y <= 9999 {
        zero_padded(y as nat, 4)
    } else if y < 0 {
        seq!['-'] + zero_padded((-y) as nat, 4)
    } else {
        seq!['+'] + zero_padded(y as nat, 4)
    }
}

/// What chrono shows for a date (`%Y-%m-%d`): the ISO year, then the month
/// and the day in two digits; none when chrono has no such date.
pub open spec fn shown_date(year: i32, month: u32, day: u32) -> Option<Seq<char>> {
    if date_exists(year as int, month as int, day as int) {
        Some(
            iso_year_text(year as int) + seq!['-'] + zero_padded(month as nat, 2) + seq!['-']
                + zero_padded(day as nat, 2),
        )
    } else {
        None
    }
}

/// Calls `chrono::NaiveDate::from_ymd_opt` and shows the date it gives with
/// `to_string`. Claims what chrono documents: `from_ymd_opt` gives no date
/// for a month, day or year out of its range, and a date is displayed as
/// `%Y-%m-%d`, with an explicit sign on years before 0 and after 9999.
#[verifier::external_body]
fn show_date(year: i32, month: u32, day: u32) -> (r: Option<String>)
    ensures
        opt_view(r) == shown_date(year, month, day),
{
    match chrono::NaiveDate::from_ymd_opt(year, month, day) {
        Some(d) => Some(d.to_string()),
        None => None,
    }
}

/// A date field: the date as chrono shows it, empty when there is no date.
pub open spec fn date_field_spec(d: Option<CalendarDate>) -> Seq<char> {
    match d {
        Some(d) => match shown_date(d.year, d.month, d.day) {
            Some(s) => s,
            None => Seq::empty(),
        },
        None => Seq::empty(),
    }
}

pub fn date_field(d: Option<CalendarDate>) -> (s: String)
    ensures
        s@ == date_field_spec(d),
{
    match d {
        Some(d) => match show_date(d.year, d.month, d.day) {
            Some(s) => s,
            None => String::new(),
        },
        None => String::new(),
    }
}

/// A number of stars given in half stars, as a number is written: "4" for
/// whole stars, "3.5" with a half star.
pub open spec fn stars_text(half_stars: nat) -> Seq<char> {
    if half_stars % 2 == 0 {
        decimal(half_stars / 2)
    } else {
        decimal(half_stars / 2) + ".5"@
    }
}

/// A rating field: the rating in stars, empty when there is no rating.
pub open spec fn rating_field_spec(h: Option<u8>) -> Seq<char> {
    match h {
        Some(h) => stars_text(h as nat),
        None => Seq::empty(),
    }
}

pub fn rating_field(h: Option<u8>) -> (s: String)
    ensures
        s@ == rating_field_spec(h),
{
    match h {
        Some(h) => {
            let mut s = u64_to_string((h / 2) as u64);
            if h % 2 == 1 {
                s.append(".5");
            }
            s
        },
        None => String::new(),
    }
}

/// A format field: the stored name of the format, empty when there is none.
pub open spec fn format_field_spec(f: Option<ReadingFormat>) -> Seq<char> {
    match f {
        Some(f) => reading_format_text(f),
        None => Seq::empty(),
    }
}

pub fn format_field(f: Option<ReadingFormat>) -> (s: String)
    ensures
        s@ == format_field_spec(f),
{
    match f {
        Some(f) => owned(f.as_str()),
        None => String::new(),
    }
}

/// The quick-reviews field: their form values joined with commas.
pub fn quick_reviews_field(reviews: &[QuickReview]) -> (s: String)
    ensures
        s@ == join_spec(review_form_values(reviews@), ","@),
{
    let mut values: Vec<&'static str> = Vec::new();
    let mut i: usize = 0;
    while i < reviews.len()
        invariant
            i <= reviews@.len(),
            str_views(values@) == review_form_values(reviews@.take(i as int)),
        decreases reviews@.len() - i,
    {
        values.push(reviews[i].form_value());
        proof {
            assert(review_form_values(reviews@.take(i + 1)) =~= review_form_values(
                reviews@.take(i as int),
            ).push(review_form_value(reviews@[i as int])));
            assert(str_views(values@) =~= review_form_values(reviews@.take(i + 1)));
        }
        i = i + 1;
    }
    assert(reviews@.take(reviews@.len() as int) =~= reviews@);
    join_strs(values.as_slice(), ",")
}

/// The fields of the reading edit and finish forms.
#[derive(Debug, Clone)]
pub struct ReadingFormFields {
    pub status: String,
    pub format: String,
    pub started_at: String,
    pub finished_at: String,
    pub rating: String,
    pub quick_reviews: String,
}

/// The edit form of a reading opens with the reading as it is.
pub fn reading_edit_fields(reading: &Reading) -> (f: ReadingFormFields)
    ensures
        f.status@ == reading_status_text(reading.status),
        f.format@ == format_field_spec(reading.format),
        f.started_at@ == date_field_spec(reading.started_at),
        f.finished_at@ == date_field_spec(reading.finished_at),
        f.rating@ == rating_field_spec(reading.rating_half_stars),
        f.quick_reviews@ == join_spec(review_form_values(reading.quick_reviews@), ","@),
{
    ReadingFormFields {
        status: owned(reading.status.as_str()),
        format: format_field(reading.format),
        started_at: date_field(reading.started_at),
        finished_at: date_field(reading.finished_at),
        rating: rating_field(reading.rating_half_stars),
        quick_reviews: quick_reviews_field(reading.quick_reviews.as_slice()),
    }
}

/// The finish form of a reading opens with the status read and `today` as
/// the finish date; the rest is the reading as it is.
pub fn finish_reading_fields(reading: &Reading, today: String) -> (f: ReadingFormFields)
    ensures
        f.status@ == reading_status_text(ReadingStatus::Read),
        f.format@ == format_field_spec(reading.format),
        f.started_at@ == date_field_spec(reading.started_at),
        f.finished_at@ == today@,
        f.rating@ == rating_field_spec(reading.rating_half_stars),
        f.quick_reviews@ == join_spec(review_form_values(reading.quick_reviews@), ","@),
{
    ReadingFormFields {
        status: owned(ReadingStatus::Read.as_str()),
        format: format_field(reading.format),
        started_at: date_field(reading.started_at),
        finished_at: today,
        rating: rating_field(reading.rating_half_stars),
        quick_reviews: quick_reviews_field(reading.quick_reviews.as_slice()),
    }
}


/// The status, format and quick-review fields of a reading's edit form,
/// submitted as they are, are read back to the reading's own status, format
/// and quick reviews.
pub proof fn lemma_edit_form_reads_back(reading: Reading)
    ensures
        named_status(Some(reading_status_text(reading.status))) == Some(reading.status),
        optional_name_spec::<ReadingFormat>(Some(format_field_spec(reading.format)))
            == reading.format,
        reviews_from_list_spec(join_spec(review_form_values(reading.quick_reviews@), ","@))
            == reading.quick_reviews@,
{
    lemma_reading_status_roundtrip(reading.status);
    match reading.format {
        Some(f) => {
            lemma_reading_format_roundtrip(f);
            lemma_reading_format_text_not_empty(f);
        },
        None => {},
    }
    lemma_quick_reviews_field_roundtrip(reading.quick_reviews@);
}

/// The fields of the start form of a reading.
#[derive(Debug, Clone)]
pub struct StartReadingFields {
    pub status: String,
    pub format: String,
    pub started_at: String,
}

/// The start form of a reading opens with the status reading, the
/// reading's format and `today` as the start date.
pub fn start_reading_fields(reading: &Reading, today: String) -> (f: StartReadingFields)
    ensures
        f.status@ == reading_status_text(ReadingStatus::Reading),
        f.format@ == format_field_spec(reading.format),
        f.started_at@ == today@,
{
    StartReadingFields {
        status: owned(ReadingStatus::Reading.as_str()),
        format: format_field(reading.format),
        started_at: today,
    }
}

/// The author line of a start or finish form: "Unknown" when no author is
/// named.
pub open spec fn authors_label_spec(names: Seq<char>) -> Seq<char> {
    if names.len() == 0 {
        "Unknown"@
    } else {
        names
    }
}

pub fn authors_label(names: &str) -> (s: String)
    ensures
        s@ == authors_label_spec(names@),
{
    if names.unicode_len() == 0 {
        owned("Unknown")
    } else {
        owned(names)
    }
}

/// The names of a book's authors, in order.
pub open spec fn book_author_names(authors: Seq<BookAuthorInfo>) -> Seq<Seq<char>> {
    authors.map_values(|a: BookAuthorInfo| a.author_name@)
}

/// The author line of a book's start form: the authors' names joined with
/// ", ", or "Unknown" when the book has none.
pub fn book_authors_label(authors: &[BookAuthorInfo]) -> (s: String)
    ensures
        s@ == (if authors@.len() == 0 {
            "Unknown"@
        } else {
            join_spec(book_author_names(authors@), ", "@)
        }),
{
    if authors.len() == 0 {
        return owned("Unknown");
    }
    let mut names: Vec<&str> = Vec::new();
    let mut i: usize = 0;
    while i < authors.len()
        invariant
            i <= authors@.len(),
            str_views(names@) == book_author_names(authors@.take(i as int)),
        decreases authors@.len() - i,
    {
        names.push(authors[i].author_name.as_str());
        proof {
            assert(book_author_names(authors@.take(i + 1)) =~= book_author_names(
                authors@.take(i as int),
            ).push(authors@[i as int].author_name@));
            assert(str_views(names@) =~= book_author_names(authors@.take(i + 1)));
        }
        i = i + 1;
    }
    assert(authors@.take(authors@.len() as int) =~= authors@);
    join_strs(names.as_slice(), ", ")
}

/// The page-count line of a start or finish form, empty when the count is
/// unknown.
pub fn page_count_label(page_count: Option<i32>) -> (s: String)
    ensures
        s@ == match page_count {
            Some(p) => pages_text(p as int),
            None => Seq::empty(),
        },
{
    match page_count {
        Some(p) => format_pages(p),
        None => String::new(),
    }
}

/// The reading that a book's page offers to continue: the first of its
/// readings that is still in progress.
pub fn active_reading_id(readings: &[ReadingWithBook]) -> (r: Option<ReadingId>)
    ensures
        r matches Some(id) ==> exists|i: int|
            0 <= i < readings@.len() && readings@[i].reading.id == id
                && readings@[i].reading.status == ReadingStatus::Reading && forall|j: int|
                0 <= j < i ==> readings@[j].reading.status != ReadingStatus::Reading,
        r is None ==> forall|j: int|
            0 <= j < readings@.len() ==> readings@[j].reading.status != ReadingStatus::Reading,
{
    let mut i: usize = 0;
    while i < readings.len()
        invariant
            i <= readings@.len(),
            forall|j: int| 0 <= j < i ==> readings@[j].reading.status != ReadingStatus::Reading,
        decreases readings@.len() - i,
    {
        if readings[i].reading.status == ReadingStatus::Reading {
            return Some(readings[i].reading.id);
        }
        i = i + 1;
    }
    None
}

/// A number field: the number in decimal, empty when there is none.
pub open spec fn number_field_spec(n: Option<int>) -> Seq<char> {
    match n {
        Some(n) => int_decimal(n),
        None => Seq::empty(),
    }
}

fn number_field(n: Option<i64>) -> (s: String)
    ensures
        s@ == number_field_spec(
            match n {
                Some(x) => Some(x as int),
                None => None,
            },
        ),
{
    match n {
        Some(x) => i64_to_string(x),
        None => String::new(),
    }
}

/// A text field: the text, empty when there is none.
pub open spec fn text_field_spec(t: Option<Seq<char>>) -> Seq<char> {
    match t {
        Some(t) => t,
        None => Seq::empty(),
    }
}

fn text_field(t: &Option<String>) -> (s: String)
    ensures
        s@ == text_field_spec(opt_view(*t)),
{
    match t {
        Some(t) => t.clone(),
        None => String::new(),
    }
}

/// The fields of the book edit form.
#[derive(Debug, Clone)]
pub struct BookEditFields {
    pub id: String,
    pub title: String,
    pub isbn: String,
    pub description: String,
    pub page_count: String,
    pub year_published: String,
    pub publisher: String,
    pub language: String,
    pub primary_genre_id: String,
    pub secondary_genre_id: String,
    pub author_id: String,
}

/// The edit form of a book opens with the book as it is and its first
/// author selected.
pub fn book_edit_fields(book: &Book, authors: &[BookAuthorInfo]) -> (f: BookEditFields)
    ensures
        f.id@ == int_decimal(book.id.0 as int),
        f.title@ == book.title@,
        f.isbn@ == text_field_spec(opt_view(book.isbn)),
        f.description@ == text_field_spec(opt_view(book.description)),
        f.page_count@ == number_field_spec(
            match book.page_count {
                Some(p) => Some(p as int),
                None => None,
            },
        ),
        f.year_published@ == number_field_spec(
            match book.year_published {
                Some(y) => Some(y as int),
                None => None,
            },
        ),
        f.publisher@ == text_field_spec(opt_view(book.publisher)),
        f.language@ == text_field_spec(opt_view(book.language)),
        f.primary_genre_id@ == number_field_spec(
            match book.primary_genre_id {
                Some(g) => Some(g.0 as int),
                None => None,
            },
        ),
        f.secondary_genre_id@ == number_field_spec(
            match book.secondary_genre_id {
                Some(g) => Some(g.0 as int),
                None => None,
            },
        ),
        f.author_id@ == number_field_spec(
            if authors@.len() > 0 {
                Some(authors@[0].author_id.0 as int)
            } else {
                None
            },
        ),
{
    BookEditFields {
        id: i64_to_string(book.id.into_inner()),
        title: book.title.clone(),
        isbn: text_field(&book.isbn),
        description: text_field(&book.description),
        page_count: number_field(
            match book.page_count {
                Some(p) => Some(p as i64),
                None => None,
            },
        ),
        year_published: number_field(
            match book.year_published {
                Some(y) => Some(y as i64),
                None => None,
            },
        ),
        publisher: text_field(&book.publisher),
        language: text_field(&book.language),
        primary_genre_id: number_field(
            match book.primary_genre_id {
                Some(g) => Some(g.into_inner()),
                None => None,
            },
        ),
        secondary_genre_id: number_field(
            match book.secondary_genre_id {
                Some(g) => Some(g.into_inner()),
                None => None,
            },
        ),
        author_id: number_field(
            if authors.len() > 0 {
                Some(authors[0].author_id.into_inner())
            } else {
                None
            },
        ),
    }
}

// ---------------------------------------------------------------------------
// The data page
// ---------------------------------------------------------------------------

/// The list that the data page shows.
#[derive(Debug, Clone, Copy, PartialEq, Eq, Structural)]
pub enum DataContent {
    /// The list of genres.
    Genres,
    /// The user's books on a shelf.
    Shelf(Shelf),
}

/// "genres" shows the genres, "wishlist" the wishlist, anything else the
/// library.
pub open spec fn data_content_spec(entity_type: Seq<char>) -> DataContent {
    if entity_type == "genres"@ {
        DataContent::Genres
    } else if entity_type == "wishlist"@ {
        DataContent::Shelf(Shelf::Wishlist)
    } else {
        DataContent::Shelf(Shelf::Library)
    }
}

pub fn data_content(entity_type: &str) -> (c: DataContent)
    ensures
        c == data_content_spec(entity_type@),
{
    if str_eq(entity_type, "genres") {
        DataContent::Genres
    } else if str_eq(entity_type, "wishlist") {
        DataContent::Shelf(Shelf::Wishlist)
    } else {
        DataContent::Shelf(Shelf::Library)
    }
}

/// The page a shelf list lives on, and the fragment its navigation fetches.
pub fn shelf_list_paths(shelf: Shelf) -> (r: (String, String))
    ensures
        r.0@ == "/data?type="@ + shelf_text(shelf),
        r.1@ == "/data?type="@ + shelf_text(shelf) + "#user-book-list"@,
{
    let page = concat("/data?type=", shelf.as_str());
    let mut fragment = concat("/data?type=", shelf.as_str());
    fragment.append("#user-book-list");
    (page, fragment)
}

} // verus!
