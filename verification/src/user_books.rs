//! Shelves: the books a user keeps in their library or on their wishlist.
use vstd::prelude::*;

use crate::authors::{Author, author_name_list, author_names};
use crate::books::{Book, BookWithAuthors};
use crate::ids::{BookId, ReadingId, UserBookId, UserId};
use crate::listing::{SortDirection, SortKey};
use crate::readings::{CalendarDate, ReadingStatus};
use crate::text::{ParseName, ascii_lower_seq, lowered_is, owned, str_eq};
use crate::time::UtcTimestamp;
use crate::timeline::{NewTimelineEvent, TimelineEventDetail, author_detail_spec, details_view};

verus! {

#[derive(Debug, Clone, Copy, PartialEq, Eq, Structural)]
pub enum Shelf {
    Library,
    Wishlist,
}

impl Default for Shelf {
    fn default() -> (s: Self)
        ensures
            s == Shelf::Library,
    {
        Shelf::Library
    }
}

/// The stored name of a shelf.
pub open spec fn shelf_text(x: Shelf) -> Seq<char> {
    match x {
        Shelf::Library => "library"@,
        Shelf::Wishlist => "wishlist"@,
    }
}

/// The label shown to readers.
pub open spec fn shelf_label(x: Shelf) -> Seq<char> {
    match x {
        Shelf::Library => "Library"@,
        Shelf::Wishlist => "Wishlist"@,
    }
}

/// The shelf that a text names, compared as by `ascii_lower_seq`.
pub open spec fn shelf_from_text(s: Seq<char>) -> Option<Shelf> {
    if ascii_lower_seq(s) == "library"@ {
        Some(Shelf::Library)
    } else if ascii_lower_seq(s) == "wishlist"@ {
        Some(Shelf::Wishlist)
    } else {
        None
    }
}

/// The length and first character of every name of a shelf.
proof fn lemma_shelf_names()
    ensures
        "library"@.len() == 7 && "library"@[0] == 'l',
        "wishlist"@.len() == 8 && "wishlist"@[0] == 'w',
{
    reveal_strlit("library");
    reveal_strlit("wishlist");
}

impl Shelf {
    pub fn as_str(&self) -> (s: &'static str)
        ensures
            s@ == shelf_text(*self),
    {
        match self {
            Shelf::Library => "library",
            Shelf::Wishlist => "wishlist",
        }
    }

    pub fn display_label(&self) -> (s: &'static str)
        ensures
            s@ == shelf_label(*self),
    {
        match self {
            Shelf::Library => "Library",
            Shelf::Wishlist => "Wishlist",
        }
    }
}

impl ParseName for Shelf {
    open spec fn name_parse(s: Seq<char>) -> Option<Self> {
        shelf_from_text(s)
    }

    fn parse_name(s: &str) -> (r: Option<Self>) {
        if lowered_is(s, "library") {
            Some(Shelf::Library)
        } else if lowered_is(s, "wishlist") {
            Some(Shelf::Wishlist)
        } else {
            None
        }
    }
}

impl std::str::FromStr for Shelf {
    type Err = ();

    fn from_str(s: &str) -> (r: Result<Self, Self::Err>)
        ensures
            r == match shelf_from_text(s@) {
                Some(x) => Ok::<Self, ()>(x),
                None => Err::<Self, ()>(()),
            },
    {
        match Self::parse_name(s) {
            Some(x) => Ok(x),
            None => Err(()),
        }
    }
}

/// Every shelf is parsed back from its stored name.
pub proof fn lemma_shelf_roundtrip(x: Shelf)
    ensures
        shelf_from_text(shelf_text(x)) == Some(x),
{
    lemma_shelf_names();
    match x {
        Shelf::Library => {
            reveal_strlit("library");
            assert(ascii_lower_seq("library"@) =~= "library"@);
        },
        Shelf::Wishlist => {
            reveal_strlit("wishlist");
            assert(ascii_lower_seq("wishlist"@) =~= "wishlist"@);
        },
    }
}

/// Each shelf is stored under its own name (`library`, `wishlist`), shown
/// under the matching label, and read back from that name.
pub proof fn lemma_shelf_names_are_their_own()
    ensures
        shelf_text(Shelf::Library) == "library"@,
        shelf_label(Shelf::Library) == "Library"@,
        shelf_from_text("library"@) == Some(Shelf::Library),
        shelf_text(Shelf::Wishlist) == "wishlist"@,
        shelf_label(Shelf::Wishlist) == "Wishlist"@,
        shelf_from_text("wishlist"@) == Some(Shelf::Wishlist),
{
    lemma_shelf_roundtrip(Shelf::Library);
    lemma_shelf_roundtrip(Shelf::Wishlist);
}

#[derive(Debug, Clone)]
pub struct UserBook {
    pub id: UserBookId,
    pub user_id: UserId,
    pub book_id: BookId,
    pub shelf: Shelf,
    pub book_club: bool,
    pub created_at: UtcTimestamp,
}

#[derive(Debug, Clone)]
pub struct UserBookWithDetails {
    pub user_book: UserBook,
    pub book: BookWithAuthors,
    pub reading_summary: Option<ReadingSummary>,
}

/// Summary of the most recent reading for a user-book pair.
#[derive(Debug, Clone, Copy, PartialEq, Eq, Structural)]
pub struct ReadingSummary {
    pub reading_id: ReadingId,
    pub status: ReadingStatus,
    pub started_at: Option<CalendarDate>,
    pub finished_at: Option<CalendarDate>,
}

#[derive(Debug, Clone, Copy, PartialEq, Eq, Structural)]
pub struct NewUserBook {
    pub user_id: UserId,
    pub book_id: BookId,
    pub shelf: Shelf,
    pub book_club: bool,
}

#[derive(Debug, Clone, Copy, PartialEq, Eq, Structural)]
pub enum UserBookSortKey {
    CreatedAt,
    Title,
    Author,
    Genre,
    Club,
    Status,
}

/// The length and first character of every query name of `UserBookSortKey`; they
/// tell the names apart.
proof fn lemma_user_book_sort_key_names()
    ensures
        "created-at"@.len() == 10 && "created-at"@[0] == 'c',
        "title"@.len() == 5 && "title"@[0] == 't',
        "author"@.len() == 6 && "author"@[0] == 'a',
        "genre"@.len() == 5 && "genre"@[0] == 'g',
        "club"@.len() == 4 && "club"@[0] == 'c',
        "status"@.len() == 6 && "status"@[0] == 's',
{
    reveal_strlit("created-at");
    reveal_strlit("title");
    reveal_strlit("author");
    reveal_strlit("genre");
    reveal_strlit("club");
    reveal_strlit("status");
}

impl SortKey for UserBookSortKey {
    open spec fn default_key() -> Self {
        UserBookSortKey::CreatedAt
    }

    open spec fn query_text(self) -> Seq<char> {
        match self {
            UserBookSortKey::CreatedAt => "created-at"@,
            UserBookSortKey::Title => "title"@,
            UserBookSortKey::Author => "author"@,
            UserBookSortKey::Genre => "genre"@,
            UserBookSortKey::Club => "club"@,
            UserBookSortKey::Status => "status"@,
        }
    }

    open spec fn parse_query(value: Seq<char>) -> Option<Self> {
        if value == "created-at"@ {
            Some(UserBookSortKey::CreatedAt)
        } else if value == "title"@ {
            Some(UserBookSortKey::Title)
        } else if value == "author"@ {
            Some(UserBookSortKey::Author)
        } else if value == "genre"@ {
            Some(UserBookSortKey::Genre)
        } else if value == "club"@ {
            Some(UserBookSortKey::Club)
        } else if value == "status"@ {
            Some(UserBookSortKey::Status)
        } else {
            None
        }
    }

    open spec fn default_direction_of(self) -> SortDirection {
        match self {
            UserBookSortKey::CreatedAt => SortDirection::Desc,
            UserBookSortKey::Title => SortDirection::Asc,
            UserBookSortKey::Author => SortDirection::Asc,
            UserBookSortKey::Genre => SortDirection::Asc,
            UserBookSortKey::Club => SortDirection::Asc,
            UserBookSortKey::Status => SortDirection::Asc,
        }
    }


    fn default() -> (k: Self) {
        UserBookSortKey::CreatedAt
    }

    fn from_query(value: &str) -> (k: Option<Self>) {
        if str_eq(value, "created-at") {
            return Some(UserBookSortKey::CreatedAt);
        }
        if str_eq(value, "title") {
            return Some(UserBookSortKey::Title);
        }
        if str_eq(value, "author") {
            return Some(UserBookSortKey::Author);
        }
        if str_eq(value, "genre") {
            return Some(UserBookSortKey::Genre);
        }
        if str_eq(value, "club") {
            return Some(UserBookSortKey::Club);
        }
        if str_eq(value, "status") {
            return Some(UserBookSortKey::Status);
        }
        None
    }

    fn query_value(self) -> (s: &'static str) {
        match self {
            UserBookSortKey::CreatedAt => "created-at",
            UserBookSortKey::Title => "title",
            UserBookSortKey::Author => "author",
            UserBookSortKey::Genre => "genre",
            UserBookSortKey::Club => "club",
            UserBookSortKey::Status => "status",
        }
    }

    fn default_direction(self) -> (d: SortDirection) {
        match self {
            UserBookSortKey::CreatedAt => SortDirection::Desc,
            UserBookSortKey::Title => SortDirection::Asc,
            UserBookSortKey::Author => SortDirection::Asc,
            UserBookSortKey::Genre => SortDirection::Asc,
            UserBookSortKey::Club => SortDirection::Asc,
            UserBookSortKey::Status => SortDirection::Asc,
        }
    }

    fn same_key(self, other: Self) -> (b: bool) {
        self == other
    }
}

/// Every `UserBookSortKey` is named by its own query value, so `from_query` inverts
/// `query_value`.
pub proof fn lemma_user_book_sort_key_query_roundtrip(key: UserBookSortKey)
    ensures
        UserBookSortKey::parse_query(key.query_text()) == Some(key),
{
    lemma_user_book_sort_key_names();
}

/// Every user book sort key is named in query strings by its own column: `created-at`, `title`, `author`, `genre`, `club`, `status`
/// each select that column and no other, and each key is written back under
/// the same name.
pub proof fn lemma_user_book_sort_key_names_select_their_columns(value: Seq<char>, key: UserBookSortKey)
    ensures
        UserBookSortKey::parse_query("created-at"@) == Some(UserBookSortKey::CreatedAt),
        UserBookSortKey::parse_query("title"@) == Some(UserBookSortKey::Title),
        UserBookSortKey::parse_query("author"@) == Some(UserBookSortKey::Author),
        UserBookSortKey::parse_query("genre"@) == Some(UserBookSortKey::Genre),
        UserBookSortKey::parse_query("club"@) == Some(UserBookSortKey::Club),
        UserBookSortKey::parse_query("status"@) == Some(UserBookSortKey::Status),
        UserBookSortKey::CreatedAt.query_text() == "created-at"@,
        UserBookSortKey::Title.query_text() == "title"@,
        UserBookSortKey::Author.query_text() == "author"@,
        UserBookSortKey::Genre.query_text() == "genre"@,
        UserBookSortKey::Club.query_text() == "club"@,
        UserBookSortKey::Status.query_text() == "status"@,
        UserBookSortKey::parse_query(value) == Some(key) ==> value == key.query_text(),
{
    lemma_user_book_sort_key_names();
    reveal_strlit("created-at");
    reveal_strlit("title");
    reveal_strlit("author");
    reveal_strlit("genre");
    reveal_strlit("club");
    reveal_strlit("status");
}

/// The event recorded when a user shelves a book, at the time it was shelved.
pub open spec fn shelved_event_spec(
    e: NewTimelineEvent,
    user_book: UserBook,
    book: Book,
    authors: Seq<Author>,
) -> bool {
    &&& e.user_id == Some(user_book.user_id)
    &&& e.entity_type@ == "book"@
    &&& e.entity_id == book.id.0
    &&& e.action@ == "shelved"@
    &&& e.occurred_at == user_book.created_at
    &&& e.title@ == book.title@
    &&& details_view(e.details@) == seq![author_detail_spec(author_names(authors))]
    &&& e.genres@.len() == 0
    &&& e.reading_data is None
}

pub fn user_book_timeline_event(user_book: &UserBook, book: &Book, authors: &[Author]) -> (e:
    NewTimelineEvent)
    ensures
        shelved_event_spec(e, *user_book, *book, authors@),
{
    let names = author_name_list(authors);
    let mut details: Vec<TimelineEventDetail> = Vec::new();
    details.push(TimelineEventDetail::author_detail(names.as_slice()));
    assert(details_view(details@) =~= seq![author_detail_spec(author_names(authors@))]);
    NewTimelineEvent {
        user_id: Some(user_book.user_id),
        entity_type: owned("book"),
        entity_id: book.id.into_inner(),
        action: owned("shelved"),
        occurred_at: user_book.created_at,
        title: book.title.clone(),
        details,
        genres: Vec::new(),
        reading_data: None,
    }
}


/// A shelving request as a JSON body submits it.
#[derive(Debug, Clone)]
pub struct NewUserBookSubmission {
    pub book_id: BookId,
    pub shelf: Option<String>,
    pub book_club: Option<bool>,
}

/// The shelf that an optional text names, the library when it names none.
pub open spec fn requested_shelf(value: Option<Seq<char>>) -> Shelf {
    match value {
        Some(s) => match shelf_from_text(s) {
            Some(x) => x,
            None => Shelf::Library,
        },
        None => Shelf::Library,
    }
}

impl NewUserBookSubmission {
    /// The shelf entry a submission makes for `user_id`: on the named shelf
    /// (the library by default), a book-club pick only when asked for.
    pub fn into_new_user_book(self, user_id: UserId) -> (n: NewUserBook)
        ensures
            n.user_id == user_id,
            n.book_id == self.book_id,
            n.shelf == requested_shelf(crate::text::opt_view(self.shelf)),
            n.book_club == (self.book_club == Some(true)),
    {
        let shelf = match self.shelf {
            Some(s) => match Shelf::parse_name(s.as_str()) {
                Some(x) => x,
                None => Shelf::default(),
            },
            None => Shelf::default(),
        };
        let book_club = match self.book_club {
            Some(b) => b,
            None => false,
        };
        NewUserBook { user_id, book_id: self.book_id, shelf, book_club }
    }
}

/// The shelf a book is moved to: the shelf that the text names; refused
/// ("invalid shelf value") when it names none.
pub fn shelf_to_move(value: &str) -> (r: Result<Shelf, crate::requests::ValidationError>)
    ensures
        r is Ok <==> shelf_from_text(value@) is Some,
        r matches Ok(x) ==> shelf_from_text(value@) == Some(x),
        r matches Err(e) ==> e.message@ == "invalid shelf value"@,
{
    match Shelf::parse_name(value) {
        Some(x) => Ok(x),
        None => Err(crate::requests::ValidationError { message: owned("invalid shelf value") }),
    }
}

} // verus!
