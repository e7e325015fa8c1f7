//! Readings: a user's reading of a book, with its status, format, rating
//! and quick reviews.
use vstd::prelude::*;

use crate::authors::{Author, author_names};
use crate::books::Book;
use crate::formatting::{rating_text, rating_text_spec};
use crate::ids::{BookId, ReadingId, UserId};
use crate::listing::{SortDirection, SortKey};
use crate::quick_reviews::{QuickReview, review_label};
use crate::text::{
    ParseName, fold_name, folded_is, join_spec, join_strs, owned, str_eq,
    str_views,
};
use crate::requests::{ValidationError, optional_name_spec, parse_optional_enum};
use crate::text::opt_view;
use crate::time::UtcTimestamp;
use chrono::Datelike;
use crate::timeline::{
    NewTimelineEvent, TimelineEventDetail, author_detail_spec, details_view,
};

verus! {

#[derive(Debug, Clone, Copy, PartialEq, Eq, Structural)]
pub enum ReadingStatus {
    Reading,
    Read,
    Abandoned,
}

impl Default for ReadingStatus {
    fn default() -> (s: Self)
        ensures
            s == ReadingStatus::Reading,
    {
        ReadingStatus::Reading
    }
}

#[derive(Debug, Clone, Copy, PartialEq, Eq, Structural)]
pub enum ReadingFormat {
    Physical,
    EReader,
    Audiobook,
}

/// The stored name of a reading status.
pub open spec fn reading_status_text(x: ReadingStatus) -> Seq<char> {
    match x {
        ReadingStatus::Reading => "reading"@,
        ReadingStatus::Read => "read"@,
        ReadingStatus::Abandoned => "abandoned"@,
    }
}

/// The label shown to readers.
pub open spec fn reading_status_label(x: ReadingStatus) -> Seq<char> {
    match x {
        ReadingStatus::Reading => "Reading"@,
        ReadingStatus::Read => "Read"@,
        ReadingStatus::Abandoned => "Abandoned"@,
    }
}

/// The reading status that a text names, compared as by `fold_name`.
pub open spec fn reading_status_from_text(s: Seq<char>) -> Option<ReadingStatus> {
    if fold_name(s) == "reading"@ {
        Some(ReadingStatus::Reading)
    } else if fold_name(s) == "read"@ {
        Some(ReadingStatus::Read)
    } else if fold_name(s) == "abandoned"@ {
        Some(ReadingStatus::Abandoned)
    } else {
        None
    }
}

/// The length and first character of every name of a reading status.
proof fn lemma_reading_status_names()
    ensures
        "reading"@.len() == 7 && "reading"@[0] == 'r',
        "read"@.len() == 4 && "read"@[0] == 'r',
        "abandoned"@.len() == 9 && "abandoned"@[0] == 'a',
{
    reveal_strlit("reading");
    reveal_strlit("read");
    reveal_strlit("abandoned");
}

impl ReadingStatus {
    pub fn as_str(&self) -> (s: &'static str)
        ensures
            s@ == reading_status_text(*self),
    {
        match self {
            ReadingStatus::Reading => "reading",
            ReadingStatus::Read => "read",
            ReadingStatus::Abandoned => "abandoned",
        }
    }

    pub fn display_label(&self) -> (s: &'static str)
        ensures
            s@ == reading_status_label(*self),
    {
        match self {
            ReadingStatus::Reading => "Reading",
            ReadingStatus::Read => "Read",
            ReadingStatus::Abandoned => "Abandoned",
        }
    }
}

impl ParseName for ReadingStatus {
    open spec fn name_parse(s: Seq<char>) -> Option<Self> {
        reading_status_from_text(s)
    }

    fn parse_name(s: &str) -> (r: Option<Self>) {
        if folded_is(s, "reading") {
            Some(ReadingStatus::Reading)
        } else if folded_is(s, "read") {
            Some(ReadingStatus::Read)
        } else if folded_is(s, "abandoned") {
            Some(ReadingStatus::Abandoned)
        } else {
            None
        }
    }
}

impl std::str::FromStr for ReadingStatus {
    type Err = ();

    fn from_str(s: &str) -> (r: Result<Self, Self::Err>)
        ensures
            r == match reading_status_from_text(s@) {
                Some(x) => Ok::<Self, ()>(x),
                None => Err::<Self, ()>(()),
            },
    {
        match Self::parse_name(s) {
            Some(x) => Ok(x),
            None => Err(()),
        }
    }
}

/// Every reading status is parsed back from its stored name.
pub proof fn lemma_reading_status_roundtrip(x: ReadingStatus)
    ensures
        reading_status_from_text(reading_status_text(x)) == Some(x),
{
    lemma_reading_status_names();
    match x {
        ReadingStatus::Reading => {
            reveal_strlit("reading");
            assert(fold_name("reading"@) =~= "reading"@);
        },
        ReadingStatus::Read => {
            reveal_strlit("read");
            assert(fold_name("read"@) =~= "read"@);
        },
        ReadingStatus::Abandoned => {
            reveal_strlit("abandoned");
            assert(fold_name("abandoned"@) =~= "abandoned"@);
        },
    }
}

/// Each reading status is stored under its own name (`reading`, `read`, `abandoned`), shown
/// under the matching label, and read back from that name.
pub proof fn lemma_reading_status_names_are_their_own()
    ensures
        reading_status_text(ReadingStatus::Reading) == "reading"@,
        reading_status_label(ReadingStatus::Reading) == "Reading"@,
        reading_status_from_text("reading"@) == Some(ReadingStatus::Reading),
        reading_status_text(ReadingStatus::Read) == "read"@,
        reading_status_label(ReadingStatus::Read) == "Read"@,
        reading_status_from_text("read"@) == Some(ReadingStatus::Read),
        reading_status_text(ReadingStatus::Abandoned) == "abandoned"@,
        reading_status_label(ReadingStatus::Abandoned) == "Abandoned"@,
        reading_status_from_text("abandoned"@) == Some(ReadingStatus::Abandoned),
{
    lemma_reading_status_roundtrip(ReadingStatus::Reading);
    lemma_reading_status_roundtrip(ReadingStatus::Read);
    lemma_reading_status_roundtrip(ReadingStatus::Abandoned);
}

/// The stored name of a reading format.
pub open spec fn reading_format_text(x: ReadingFormat) -> Seq<char> {
    match x {
        ReadingFormat::Physical => "physical"@,
        ReadingFormat::EReader => "ereader"@,
        ReadingFormat::Audiobook => "audiobook"@,
    }
}

/// The label shown to readers.
pub open spec fn reading_format_label(x: ReadingFormat) -> Seq<char> {
    match x {
        ReadingFormat::Physical => "Physical"@,
        ReadingFormat::EReader => "eReader"@,
        ReadingFormat::Audiobook => "Audiobook"@,
    }
}

/// The reading format that a text names, compared as by `fold_name`.
pub open spec fn reading_format_from_text(s: Seq<char>) -> Option<ReadingFormat> {
    if fold_name(s) == "physical"@ {
        Some(ReadingFormat::Physical)
    } else if fold_name(s) == "ereader"@ || fold_name(s) == "e_reader"@ {
        Some(ReadingFormat::EReader)
    } else if fold_name(s) == "audiobook"@ {
        Some(ReadingFormat::Audiobook)
    } else {
        None
    }
}

/// The length and first character of every name of a reading format.
proof fn lemma_reading_format_names()
    ensures
        "physical"@.len() == 8 && "physical"@[0] == 'p',
        "ereader"@.len() == 7 && "ereader"@[0] == 'e',
        "e_reader"@.len() == 8 && "e_reader"@[0] == 'e',
        "audiobook"@.len() == 9 && "audiobook"@[0] == 'a',
{
    reveal_strlit("physical");
    reveal_strlit("ereader");
    reveal_strlit("e_reader");
    reveal_strlit("audiobook");
}

impl ReadingFormat {
    pub fn as_str(&self) -> (s: &'static str)
        ensures
            s@ == reading_format_text(*self),
    {
        match self {
            ReadingFormat::Physical => "physical",
            ReadingFormat::EReader => "ereader",
            ReadingFormat::Audiobook => "audiobook",
        }
    }

    pub fn display_label(&self) -> (s: &'static str)
        ensures
            s@ == reading_format_label(*self),
    {
        match self {
            ReadingFormat::Physical => "Physical",
            ReadingFormat::EReader => "eReader",
            ReadingFormat::Audiobook => "Audiobook",
        }
    }
}

impl ParseName for ReadingFormat {
    open spec fn name_parse(s: Seq<char>) -> Option<Self> {
        reading_format_from_text(s)
    }

    fn parse_name(s: &str) -> (r: Option<Self>) {
        if folded_is(s, "physical") {
            Some(ReadingFormat::Physical)
        } else if folded_is(s, "ereader") || folded_is(s, "e_reader") {
            Some(ReadingFormat::EReader)
        } else if folded_is(s, "audiobook") {
            Some(ReadingFormat::Audiobook)
        } else {
            None
        }
    }
}

impl std::str::FromStr for ReadingFormat {
    type Err = ();

    fn from_str(s: &str) -> (r: Result<Self, Self::Err>)
        ensures
            r == match reading_format_from_text(s@) {
                Some(x) => Ok::<Self, ()>(x),
                None => Err::<Self, ()>(()),
            },
    {
        match Self::parse_name(s) {
            Some(x) => Ok(x),
            None => Err(()),
        }
    }
}

/// The stored name of a reading format is never empty.
pub proof fn lemma_reading_format_text_not_empty(x: ReadingFormat)
    ensures
        reading_format_text(x).len() > 0,
{
    lemma_reading_format_names();
}

/// Every reading format is parsed back from its stored name.
pub proof fn lemma_reading_format_roundtrip(x: ReadingFormat)
    ensures
        reading_format_from_text(reading_format_text(x)) == Some(x),
{
    lemma_reading_format_names();
    match x {
        ReadingFormat::Physical => {
            reveal_strlit("physical");
            assert(fold_name("physical"@) =~= "physical"@);
        },
        ReadingFormat::EReader => {
            reveal_strlit("ereader");
            assert(fold_name("ereader"@) =~= "ereader"@);
        },
        ReadingFormat::Audiobook => {
            reveal_strlit("audiobook");
            assert(fold_name("audiobook"@) =~= "audiobook"@);
        },
    }
}

/// Each reading format is stored under its own name (`physical`, `ereader`, `audiobook`), shown
/// under the matching label, and read back from that name.
pub proof fn lemma_reading_format_names_are_their_own()
    ensures
        reading_format_text(ReadingFormat::Physical) == "physical"@,
        reading_format_label(ReadingFormat::Physical) == "Physical"@,
        reading_format_from_text("physical"@) == Some(ReadingFormat::Physical),
        reading_format_text(ReadingFormat::EReader) == "ereader"@,
        reading_format_label(ReadingFormat::EReader) == "eReader"@,
        reading_format_from_text("ereader"@) == Some(ReadingFormat::EReader),
        reading_format_text(ReadingFormat::Audiobook) == "audiobook"@,
        reading_format_label(ReadingFormat::Audiobook) == "Audiobook"@,
        reading_format_from_text("audiobook"@) == Some(ReadingFormat::Audiobook),
{
    lemma_reading_format_roundtrip(ReadingFormat::Physical);
    lemma_reading_format_roundtrip(ReadingFormat::EReader);
    lemma_reading_format_roundtrip(ReadingFormat::Audiobook);
}

/// A calendar date.
#[derive(Debug, Clone, Copy, PartialEq, Eq, Structural)]
pub struct CalendarDate {
    pub year: i32,
    pub month: u32,
    pub day: u32,
}

/// A reading of a book by a user. The rating is kept in half stars: a rating
/// of 3.5 stars is 7.
#[derive(Debug, Clone)]
pub struct Reading {
    pub id: ReadingId,
    pub user_id: UserId,
    pub book_id: BookId,
    pub status: ReadingStatus,
    pub format: Option<ReadingFormat>,
    pub started_at: Option<CalendarDate>,
    pub finished_at: Option<CalendarDate>,
    pub rating_half_stars: Option<u8>,
    pub quick_reviews: Vec<QuickReview>,
    pub created_at: UtcTimestamp,
    pub updated_at: UtcTimestamp,
}

/// A reading with the details of its book that reading lists show.
#[derive(Debug, Clone)]
pub struct ReadingWithBook {
    pub reading: Reading,
    pub book_title: String,
    pub author_names: String,
    pub page_count: Option<i32>,
    pub year_published: Option<i32>,
    pub primary_genre: Option<String>,
    pub secondary_genre: Option<String>,
}

/// Filter criteria for reading queries.
#[derive(Debug, Clone, Copy, PartialEq, Eq, Structural)]
pub struct ReadingFilter {
    pub user_id: Option<UserId>,
    pub status: Option<ReadingStatus>,
    pub book_id: Option<BookId>,
}

impl ReadingFilter {
    pub fn all() -> (f: Self)
        ensures
            f == (ReadingFilter { user_id: None, status: None, book_id: None }),
    {
        ReadingFilter { user_id: None, status: None, book_id: None }
    }

    pub fn for_user(user_id: UserId) -> (f: Self)
        ensures
            f == (ReadingFilter { user_id: Some(user_id), status: None, book_id: None }),
    {
        ReadingFilter { user_id: Some(user_id), status: None, book_id: None }
    }

    pub fn for_user_status(user_id: UserId, status: ReadingStatus) -> (f: Self)
        ensures
            f == (ReadingFilter { user_id: Some(user_id), status: Some(status), book_id: None }),
    {
        ReadingFilter { user_id: Some(user_id), status: Some(status), book_id: None }
    }

    pub fn for_status(status: ReadingStatus) -> (f: Self)
        ensures
            f == (ReadingFilter { user_id: None, status: Some(status), book_id: None }),
    {
        ReadingFilter { user_id: None, status: Some(status), book_id: None }
    }

    pub fn for_book(book_id: BookId) -> (f: Self)
        ensures
            f == (ReadingFilter { user_id: None, status: None, book_id: Some(book_id) }),
    {
        ReadingFilter { user_id: None, status: None, book_id: Some(book_id) }
    }

    pub fn for_user_book(user_id: UserId, book_id: BookId) -> (f: Self)
        ensures
            f == (ReadingFilter { user_id: Some(user_id), status: None, book_id: Some(book_id) }),
    {
        ReadingFilter { user_id: Some(user_id), status: None, book_id: Some(book_id) }
    }
}

#[derive(Debug, Clone, Copy, PartialEq, Eq, Structural)]
pub enum ReadingSortKey {
    CreatedAt,
    UpdatedAt,
    Status,
    Rating,
    StartedAt,
    FinishedAt,
    BookTitle,
}

/// The length and first character of every query name of `ReadingSortKey`; they
/// tell the names apart.
proof fn lemma_reading_sort_key_names()
    ensures
        "created-at"@.len() == 10 && "created-at"@[0] == 'c',
        "updated-at"@.len() == 10 && "updated-at"@[0] == 'u',
        "status"@.len() == 6 && "status"@[0] == 's',
        "rating"@.len() == 6 && "rating"@[0] == 'r',
        "started-at"@.len() == 10 && "started-at"@[0] == 's',
        "finished-at"@.len() == 11 && "finished-at"@[0] == 'f',
        "book-title"@.len() == 10 && "book-title"@[0] == 'b',
{
    reveal_strlit("created-at");
    reveal_strlit("updated-at");
    reveal_strlit("status");
    reveal_strlit("rating");
    reveal_strlit("started-at");
    reveal_strlit("finished-at");
    reveal_strlit("book-title");
}

impl SortKey for ReadingSortKey {
    open spec fn default_key() -> Self {
        ReadingSortKey::CreatedAt
    }

    open spec fn query_text(self) -> Seq<char> {
        match self {
            ReadingSortKey::CreatedAt => "created-at"@,
            ReadingSortKey::UpdatedAt => "updated-at"@,
            ReadingSortKey::Status => "status"@,
            ReadingSortKey::Rating => "rating"@,
            ReadingSortKey::StartedAt => "started-at"@,
            ReadingSortKey::FinishedAt => "finished-at"@,
            ReadingSortKey::BookTitle => "book-title"@,
        }
    }

    open spec fn parse_query(value: Seq<char>) -> Option<Self> {
        if value == "created-at"@ {
            Some(ReadingSortKey::CreatedAt)
        } else if value == "updated-at"@ {
            Some(ReadingSortKey::UpdatedAt)
        } else if value == "status"@ {
            Some(ReadingSortKey::Status)
        } else if value == "rating"@ {
            Some(ReadingSortKey::Rating)
        } else if value == "started-at"@ {
            Some(ReadingSortKey::StartedAt)
        } else if value == "finished-at"@ {
            Some(ReadingSortKey::FinishedAt)
        } else if value == "book-title"@ {
            Some(ReadingSortKey::BookTitle)
        } else {
            None
        }
    }

    open spec fn default_direction_of(self) -> SortDirection {
        match self {
            ReadingSortKey::CreatedAt => SortDirection::Desc,
            ReadingSortKey::UpdatedAt => SortDirection::Desc,
            ReadingSortKey::Status => SortDirection::Asc,
            ReadingSortKey::Rating => SortDirection::Desc,
            ReadingSortKey::StartedAt => SortDirection::Desc,
            ReadingSortKey::FinishedAt => SortDirection::Desc,
            ReadingSortKey::BookTitle => SortDirection::Asc,
        }
    }


    fn default() -> (k: Self) {
        ReadingSortKey::CreatedAt
    }

    fn from_query(value: &str) -> (k: Option<Self>) {
        if str_eq(value, "created-at") {
            return Some(ReadingSortKey::CreatedAt);
        }
        if str_eq(value, "updated-at") {
            return Some(ReadingSortKey::UpdatedAt);
        }
        if str_eq(value, "status") {
            return Some(ReadingSortKey::Status);
        }
        if str_eq(value, "rating") {
            return Some(ReadingSortKey::Rating);
        }
        if str_eq(value, "started-at") {
            return Some(ReadingSortKey::StartedAt);
        }
        if str_eq(value, "finished-at") {
            return Some(ReadingSortKey::FinishedAt);
        }
        if str_eq(value, "book-title") {
            return Some(ReadingSortKey::BookTitle);
        }
        None
    }

    fn query_value(self) -> (s: &'static str) {
        match self {
            ReadingSortKey::CreatedAt => "created-at",
            ReadingSortKey::UpdatedAt => "updated-at",
            ReadingSortKey::Status => "status",
            ReadingSortKey::Rating => "rating",
            ReadingSortKey::StartedAt => "started-at",
            ReadingSortKey::FinishedAt => "finished-at",
            ReadingSortKey::BookTitle => "book-title",
        }
    }

    fn default_direction(self) -> (d: SortDirection) {
        match self {
            ReadingSortKey::CreatedAt => SortDirection::Desc,
            ReadingSortKey::UpdatedAt => SortDirection::Desc,
            ReadingSortKey::Status => SortDirection::Asc,
            ReadingSortKey::Rating => SortDirection::Desc,
            ReadingSortKey::StartedAt => SortDirection::Desc,
            ReadingSortKey::FinishedAt => SortDirection::Desc,
            ReadingSortKey::BookTitle => SortDirection::Asc,
        }
    }

    fn same_key(self, other: Self) -> (b: bool) {
        self == other
    }
}

/// Every `ReadingSortKey` is named by its own query value, so `from_query` inverts
/// `query_value`.
pub proof fn lemma_reading_sort_key_query_roundtrip(key: ReadingSortKey)
    ensures
        ReadingSortKey::parse_query(key.query_text()) == Some(key),
{
    lemma_reading_sort_key_names();
}

/// Every reading sort key is named in query strings by its own column:
/// `created-at`, `updated-at`, `status`, `rating`, `started-at`,
/// `finished-at` and `book-title` each select that column and no other, and
/// each key is written back under the same name.
pub proof fn lemma_reading_sort_key_names_select_their_columns(value: Seq<char>, key: ReadingSortKey)
    ensures
        ReadingSortKey::parse_query("created-at"@) == Some(ReadingSortKey::CreatedAt),
        ReadingSortKey::parse_query("updated-at"@) == Some(ReadingSortKey::UpdatedAt),
        ReadingSortKey::parse_query("status"@) == Some(ReadingSortKey::Status),
        ReadingSortKey::parse_query("rating"@) == Some(ReadingSortKey::Rating),
        ReadingSortKey::parse_query("started-at"@) == Some(ReadingSortKey::StartedAt),
        ReadingSortKey::parse_query("finished-at"@) == Some(ReadingSortKey::FinishedAt),
        ReadingSortKey::parse_query("book-title"@) == Some(ReadingSortKey::BookTitle),
        ReadingSortKey::CreatedAt.query_text() == "created-at"@,
        ReadingSortKey::UpdatedAt.query_text() == "updated-at"@,
        ReadingSortKey::Status.query_text() == "status"@,
        ReadingSortKey::Rating.query_text() == "rating"@,
        ReadingSortKey::StartedAt.query_text() == "started-at"@,
        ReadingSortKey::FinishedAt.query_text() == "finished-at"@,
        ReadingSortKey::BookTitle.query_text() == "book-title"@,
        ReadingSortKey::parse_query(value) == Some(key) ==> value == key.query_text(),
{
    lemma_reading_sort_key_names();
    reveal_strlit("created-at");
    reveal_strlit("updated-at");
    reveal_strlit("status");
    reveal_strlit("rating");
    reveal_strlit("started-at");
    reveal_strlit("finished-at");
    reveal_strlit("book-title");
}

/// The action a reading's event records for its status.
pub open spec fn reading_action_text(status: ReadingStatus) -> Seq<char> {
    match status {
        ReadingStatus::Reading => "started"@,
        ReadingStatus::Read => "finished"@,
        ReadingStatus::Abandoned => "abandoned"@,
    }
}

/// The labels of a list of quick reviews.
pub open spec fn review_labels(rs: Seq<QuickReview>) -> Seq<Seq<char>> {
    rs.map_values(|r: QuickReview| review_label(r))
}

/// The details of a reading's event: the author line, then the format, the
/// rating and the quick-review notes, each only when present.
pub open spec fn reading_details_spec(reading: Reading, names: Seq<Seq<char>>) -> Seq<
    (Seq<char>, Seq<char>),
> {
    let base = seq![author_detail_spec(names)];
    let with_format = match reading.format {
        Some(f) => base.push(("Format"@, reading_format_label(f))),
        None => base,
    };
    let with_rating = match reading.rating_half_stars {
        Some(h) => with_format.push(("Rating"@, rating_text_spec(h as nat))),
        None => with_format,
    };
    if reading.quick_reviews@.len() > 0 {
        with_rating.push(("Notes"@, join_spec(review_labels(reading.quick_reviews@), ", "@)))
    } else {
        with_rating
    }
}

/// The timeline event of a reading: started, finished or abandoned, at the
/// reading's creation (while reading) or last update (once finished or
/// abandoned), titled with the book's title.
pub open spec fn reading_event_spec(
    e: NewTimelineEvent,
    reading: Reading,
    book: Book,
    authors: Seq<Author>,
) -> bool {
    &&& e.user_id == Some(reading.user_id)
    &&& e.entity_type@ == "reading"@
    &&& e.entity_id == reading.id.0
    &&& e.action@ == reading_action_text(reading.status)
    &&& e.occurred_at == match reading.status {
        ReadingStatus::Reading => reading.created_at,
        _ => reading.updated_at,
    }
    &&& e.title@ == book.title@
    &&& details_view(e.details@) == reading_details_spec(reading, author_names(authors))
    &&& e.genres@.len() == 0
    &&& e.reading_data is None
}

/// The action a reading's timeline event records is `started` while it is
/// being read, `finished` once read and `abandoned` once abandoned: an
/// abandoned reading never shows as finished, and readings of different
/// statuses always record different actions.
pub proof fn lemma_reading_event_action(
    e: NewTimelineEvent,
    reading: Reading,
    book: Book,
    authors: Seq<Author>,
    other: NewTimelineEvent,
    other_reading: Reading,
)
    requires
        reading_event_spec(e, reading, book, authors),
        reading_event_spec(other, other_reading, book, authors),
    ensures
        reading.status == ReadingStatus::Reading ==> e.action@ == "started"@,
        reading.status == ReadingStatus::Read ==> e.action@ == "finished"@,
        reading.status == ReadingStatus::Abandoned ==> e.action@ == "abandoned"@,
        reading.status == ReadingStatus::Abandoned ==> e.action@ == reading_status_text(reading.status),
        reading.status != other_reading.status ==> e.action@ != other.action@,
{
    reveal_strlit("started");
    reveal_strlit("finished");
    reveal_strlit("abandoned");
    assert("started"@[0] != "finished"@[0]);
    assert("started"@[0] != "abandoned"@[0]);
    assert("finished"@[0] != "abandoned"@[0]);
}

fn review_label_list(reviews: &Vec<QuickReview>) -> (labels: Vec<&'static str>)
    ensures
        str_views(labels@) == review_labels(reviews@),
{
    let mut labels: Vec<&'static str> = Vec::new();
    let mut i: usize = 0;
    while i < reviews.len()
        invariant
            i <= reviews@.len(),
            str_views(labels@) == review_labels(reviews@.take(i as int)),
        decreases reviews@.len() - i,
    {
        labels.push(reviews[i].label());
        proof {
            assert(review_labels(reviews@.take(i + 1)) =~= review_labels(reviews@.take(i as int)).push(
                review_label(reviews@[i as int]),
            ));
            assert(str_views(labels@) =~= review_labels(reviews@.take(i + 1)));
        }
        i = i + 1;
    }
    assert(reviews@.take(reviews@.len() as int) =~= reviews@);
    labels
}

pub fn reading_timeline_event(reading: &Reading, book: &Book, authors: &[Author]) -> (e:
    NewTimelineEvent)
    ensures
        reading_event_spec(e, *reading, *book, authors@),
{
    let action = match reading.status {
        ReadingStatus::Reading => "started",
        ReadingStatus::Read => "finished",
        ReadingStatus::Abandoned => "abandoned",
    };
    let names = crate::authors::author_name_list(authors);
    let mut details: Vec<TimelineEventDetail> = Vec::new();
    details.push(TimelineEventDetail::author_detail(names.as_slice()));
    let ghost expected = reading_details_spec(*reading, author_names(authors@));
    let ghost base = seq![author_detail_spec(author_names(authors@))];
    assert(details_view(details@) =~= base);
    if let Some(fmt) = reading.format {
        details.push(TimelineEventDetail::new("Format", owned(fmt.display_label())));
    }
    let ghost with_format = match reading.format {
        Some(f) => base.push(("Format"@, reading_format_label(f))),
        None => base,
    };
    assert(details_view(details@) =~= with_format);
    if let Some(h) = reading.rating_half_stars {
        details.push(TimelineEventDetail::new("Rating", rating_text(h)));
    }
    let ghost with_rating = match reading.rating_half_stars {
        Some(h) => with_format.push(("Rating"@, rating_text_spec(h as nat))),
        None => with_format,
    };
    assert(details_view(details@) =~= with_rating);
    if reading.quick_reviews.len() > 0 {
        let labels = review_label_list(&reading.quick_reviews);
        details.push(TimelineEventDetail::new("Notes", join_strs(labels.as_slice(), ", ")));
    }
    assert(details_view(details@) =~= expected);
    let occurred_at = match reading.status {
        ReadingStatus::Read | ReadingStatus::Abandoned => reading.updated_at,
        ReadingStatus::Reading => reading.created_at,
    };
    NewTimelineEvent {
        user_id: Some(reading.user_id),
        entity_type: owned("reading"),
        entity_id: reading.id.into_inner(),
        action: owned(action),
        occurred_at,
        title: book.title.clone(),
        details,
        genres: Vec::new(),
        reading_data: None,
    }
}


// ---------------------------------------------------------------------------
// Submitted readings
// ---------------------------------------------------------------------------

/// `chrono::NaiveDate::parse_from_str`: the date that `text` spells in the
/// strftime-style `pattern`, if any.
pub uninterp spec fn parsed_date(text: Seq<char>, pattern: Seq<char>) -> Option<CalendarDate>;

/// Calls `chrono::NaiveDate::parse_from_str(text, pattern)` and keeps the
/// year, month and day of the date it gives. The contract claims only that
/// the result is `parsed_date` of the two texts: the same texts always give
/// the same date, or none.
#[verifier::external_body]
fn parse_date(text: &str, pattern: &str) -> (r: Option<CalendarDate>)
    ensures
        r == parsed_date(text@, pattern@),
{
    match chrono::NaiveDate::parse_from_str(text, pattern) {
        Ok(d) => Some(CalendarDate { year: d.year(), month: d.month(), day: d.day() }),
        Err(_) => None,
    }
}

/// The date of an optional `YYYY-MM-DD` text: none for a missing or empty
/// text, and none for a text that is no such date.
pub open spec fn optional_date_spec(value: Option<Seq<char>>) -> Option<CalendarDate> {
    match value {
        Some(s) => if s.len() == 0 {
            None
        } else {
            parsed_date(s, "%Y-%m-%d"@)
        },
        None => None,
    }
}

/// Parse an optional date string in `YYYY-MM-DD` format.
pub fn parse_optional_date(value: Option<String>) -> (r: Option<CalendarDate>)
    ensures
        r == optional_date_spec(opt_view(value)),
{
    match value {
        Some(s) => if s.unicode_len() == 0 {
            None
        } else {
            parse_date(s.as_str(), "%Y-%m-%d")
        },
        None => None,
    }
}

/// A submitted star rating, as far as the rules read it.
#[derive(Debug, Clone, Copy, PartialEq, Eq, Structural)]
pub enum RatingInput {
    /// A whole number of half stars: a rating of 3.5 is 7, a rating of 0 is 0.
    HalfStars(i64),
    /// A value that is no whole number of half stars, or is not finite.
    NotHalfStars,
}

/// The reason a submitted rating is refused.
pub open spec fn rating_error() -> Seq<char> {
    "rating must be between 0.5 and 5, in 0.5 increments"@
}

/// Whether a number of half stars is a valid rating: 0.5 to 5 stars.
pub open spec fn valid_half_stars_spec(h: int) -> bool {
    1 <= h <= 10
}

pub fn is_valid_half_stars(h: i64) -> (b: bool)
    ensures
        b == valid_half_stars_spec(h as int),
{
    1 <= h && h <= 10
}

/// What a submitted rating becomes: nothing when absent or zero, the number
/// of half stars when it is a valid rating, and a refusal otherwise.
pub open spec fn rating_check_spec(r: Option<RatingInput>) -> Result<Option<u8>, ()> {
    match r {
        None => Ok(None),
        Some(RatingInput::HalfStars(h)) => if h == 0 {
            Ok(None)
        } else if valid_half_stars_spec(h as int) {
            Ok(Some(h as u8))
        } else {
            Err(())
        },
        Some(RatingInput::NotHalfStars) => Err(()),
    }
}

fn check_rating(r: Option<RatingInput>) -> (res: Result<Option<u8>, ValidationError>)
    ensures
        res is Err <==> rating_check_spec(r) is Err,
        res matches Ok(h) ==> rating_check_spec(r) == Ok::<Option<u8>, ()>(h),
        res matches Err(e) ==> e.message@ == rating_error(),
{
    match r {
        None => Ok(None),
        Some(RatingInput::HalfStars(h)) => {
            if h == 0 {
                Ok(None)
            } else if is_valid_half_stars(h) {
                Ok(Some(h as u8))
            } else {
                Err(ValidationError { message: owned("rating must be between 0.5 and 5, in 0.5 increments") })
            }
        },
        Some(RatingInput::NotHalfStars) => Err(ValidationError { message: owned("rating must be between 0.5 and 5, in 0.5 increments") }),
    }
}

/// A new reading, as stored.
#[derive(Debug, Clone)]
pub struct NewReading {
    pub user_id: UserId,
    pub book_id: BookId,
    pub status: ReadingStatus,
    pub format: Option<ReadingFormat>,
    pub started_at: Option<CalendarDate>,
    pub finished_at: Option<CalendarDate>,
    pub rating_half_stars: Option<u8>,
    pub quick_reviews: Vec<QuickReview>,
    pub created_at: Option<UtcTimestamp>,
}

/// The changes to a reading: each field that is present replaces the
/// stored one.
#[derive(Debug, Clone)]
pub struct UpdateReading {
    pub book_id: Option<BookId>,
    pub status: Option<ReadingStatus>,
    pub format: Option<ReadingFormat>,
    pub started_at: Option<CalendarDate>,
    pub finished_at: Option<CalendarDate>,
    pub rating_half_stars: Option<u8>,
    pub quick_reviews: Option<Vec<QuickReview>>,
    pub created_at: Option<UtcTimestamp>,
}

/// The reading status that an optional text names, if any.
pub open spec fn named_status(value: Option<Seq<char>>) -> Option<ReadingStatus> {
    match value {
        Some(s) => reading_status_from_text(s),
        None => None,
    }
}

fn parse_status(value: Option<String>) -> (r: Option<ReadingStatus>)
    ensures
        r == named_status(opt_view(value)),
{
    match value {
        Some(s) => ReadingStatus::parse_name(s.as_str()),
        None => None,
    }
}

/// A reading as submitted by a form or a JSON body.
#[derive(Debug, Clone)]
pub struct NewReadingSubmission {
    pub book_id: BookId,
    pub status: Option<String>,
    pub format: Option<String>,
    pub started_at: Option<String>,
    pub finished_at: Option<String>,
    pub rating: Option<RatingInput>,
    pub quick_reviews: Vec<QuickReview>,
    pub created_at: Option<UtcTimestamp>,
    pub book_club: Option<bool>,
}

impl NewReadingSubmission {
    /// Whether the submission only puts the book on the shelf ("on_shelf"),
    /// with no reading.
    pub fn is_on_shelf(&self) -> (b: bool)
        ensures
            b == (opt_view(self.status) == Some("on_shelf"@)),
    {
        match &self.status {
            Some(s) => str_eq(s.as_str(), "on_shelf"),
            None => false,
        }
    }

    /// The reading a submission creates for `user_id`. Refused when the book
    /// id is not positive, then when the rating is not a valid one. The
    /// status defaults to reading; format and dates are dropped when they
    /// name nothing; a zero rating means no rating.
    pub fn into_new_reading(self, user_id: UserId) -> (r: Result<NewReading, ValidationError>)
        ensures
            r is Err <==> (self.book_id.0 <= 0 || rating_check_spec(self.rating) is Err),
            r matches Err(e) ==> e.message@ == (if self.book_id.0 <= 0 {
                "invalid book id"@
            } else {
                rating_error()
            }),
            r matches Ok(n) ==> {
                &&& n.user_id == user_id
                &&& n.book_id == self.book_id
                &&& n.status == match named_status(opt_view(self.status)) {
                    Some(x) => x,
                    None => ReadingStatus::Reading,
                }
                &&& n.format == optional_name_spec::<ReadingFormat>(opt_view(self.format))
                &&& n.started_at == optional_date_spec(opt_view(self.started_at))
                &&& n.finished_at == optional_date_spec(opt_view(self.finished_at))
                &&& rating_check_spec(self.rating) == Ok::<Option<u8>, ()>(n.rating_half_stars)
                &&& n.quick_reviews@ == self.quick_reviews@
                &&& n.created_at == self.created_at
            },
    {
        let book_id = self.book_id;
        if book_id.into_inner() <= 0 {
            return Err(ValidationError { message: owned("invalid book id") });
        }
        let status = match parse_status(self.status) {
            Some(x) => x,
            None => ReadingStatus::default(),
        };
        let format = parse_optional_enum::<ReadingFormat>(self.format);
        let started_at = parse_optional_date(self.started_at);
        let finished_at = parse_optional_date(self.finished_at);
        let rating = match check_rating(self.rating) {
            Ok(h) => h,
            Err(e) => {
                return Err(e);
            },
        };
        Ok(
            NewReading {
                user_id,
                book_id,
                status,
                format,
                started_at,
                finished_at,
                rating_half_stars: rating,
                quick_reviews: self.quick_reviews,
                created_at: self.created_at,
            },
        )
    }
}

/// Changes to a reading as submitted by a form or a JSON body.
#[derive(Debug, Clone)]
pub struct UpdateReadingSubmission {
    pub book_id: Option<BookId>,
    pub status: Option<String>,
    pub format: Option<String>,
    pub started_at: Option<String>,
    pub finished_at: Option<String>,
    pub rating: Option<RatingInput>,
    pub quick_reviews: Vec<QuickReview>,
    pub created_at: Option<UtcTimestamp>,
    pub book_club: Option<bool>,
}

impl UpdateReadingSubmission {
    /// The changes a submission asks for. Refused when the rating is not a
    /// valid one; texts that name no status, format or date change nothing,
    /// a zero rating changes nothing, and an empty list of quick reviews
    /// leaves them as they are.
    pub fn into_update(self) -> (r: Result<UpdateReading, ValidationError>)
        ensures
            r is Err <==> rating_check_spec(self.rating) is Err,
            r matches Err(e) ==> e.message@ == rating_error(),
            r matches Ok(u) ==> {
                &&& u.book_id == self.book_id
                &&& u.status == named_status(opt_view(self.status))
                &&& u.format == optional_name_spec::<ReadingFormat>(opt_view(self.format))
                &&& u.started_at == optional_date_spec(opt_view(self.started_at))
                &&& u.finished_at == optional_date_spec(opt_view(self.finished_at))
                &&& rating_check_spec(self.rating) == Ok::<Option<u8>, ()>(u.rating_half_stars)
                &&& match u.quick_reviews {
                    Some(v) => self.quick_reviews@.len() > 0 && v@ == self.quick_reviews@,
                    None => self.quick_reviews@.len() == 0,
                }
                &&& u.created_at == self.created_at
            },
    {
        let rating = match check_rating(self.rating) {
            Ok(h) => h,
            Err(e) => {
                return Err(e);
            },
        };
        let format = parse_optional_enum::<ReadingFormat>(self.format);
        let quick_reviews = if self.quick_reviews.len() == 0 {
            None
        } else {
            Some(self.quick_reviews)
        };
        Ok(
            UpdateReading {
                book_id: self.book_id,
                status: parse_status(self.status),
                format,
                started_at: parse_optional_date(self.started_at),
                finished_at: parse_optional_date(self.finished_at),
                rating_half_stars: rating,
                quick_reviews,
                created_at: self.created_at,
            },
        )
    }
}

/// Whether an update finishes a reading: it sets the status to read.
pub fn is_finishing(update: &UpdateReading) -> (b: bool)
    ensures
        b == (update.status == Some(ReadingStatus::Read)),
{
    match update.status {
        Some(ReadingStatus::Read) => true,
        _ => false,
    }
}

/// The book-club flag that an update of a reading sets on the shelf entry
/// of its book: the requested flag, when the book has a shelf entry whose
/// flag differs; nothing otherwise.
pub fn book_club_change(requested: Option<bool>, current: Option<bool>) -> (r: Option<bool>)
    ensures
        r == match (requested, current) {
            (Some(b), Some(c)) => if b != c {
                Some(b)
            } else {
                None
            },
            _ => None,
        },
{
    match (requested, current) {
        (Some(b), Some(c)) => if b != c {
            Some(b)
        } else {
            None
        },
        _ => None,
    }
}

/// The book-club flag that creating a reading sets on the shelf entry of its
/// book: on, when it was asked for and the book has a shelf entry.
pub fn book_club_on_create(requested: Option<bool>, has_entry: bool) -> (b: bool)
    ensures
        b == (requested == Some(true) && has_entry),
{
    match requested {
        Some(true) => has_entry,
        _ => false,
    }
}

/// The update that finishes a reading: the finish date, when the update
/// gives none, is `today`; every other change is kept.
pub fn finishing_update(update: UpdateReading, today: CalendarDate) -> (u: UpdateReading)
    ensures
        u.finished_at == match update.finished_at {
            Some(d) => Some(d),
            None => Some(today),
        },
        u.book_id == update.book_id,
        u.status == update.status,
        u.format == update.format,
        u.started_at == update.started_at,
        u.rating_half_stars == update.rating_half_stars,
        u.quick_reviews == update.quick_reviews,
        u.created_at == update.created_at,
{
    let mut u = update;
    if u.finished_at.is_none() {
        u.finished_at = Some(today);
    }
    u
}

} // verus!
