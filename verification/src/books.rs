//! Books, their authors and roles, the normalisation of submitted book data,
//! and the timeline event of an added book.
use vstd::prelude::*;

use crate::authors::{Author, author_name_list, author_names};
use crate::ids::{AuthorId, BookId, GenreId, UserId};
use crate::listing::{SortDirection, SortKey};
use crate::text::{
    ParseName, ascii_lower_seq, i64_to_string, int_decimal, join, join_spec, lowered_is,
    non_blank, non_blank_spec, opt_view, owned, str_eq, trim, trim_spec, views,
};
use crate::requests::ValidationError;
use crate::time::UtcTimestamp;
use crate::timeline::{NewTimelineEvent, TimelineEventDetail, author_detail_spec, details_view};

verus! {

#[derive(Debug, Clone)]
pub struct Book {
    pub id: BookId,
    pub title: String,
    pub isbn: Option<String>,
    pub description: Option<String>,
    pub page_count: Option<i32>,
    pub year_published: Option<i32>,
    pub publisher: Option<String>,
    pub language: Option<String>,
    pub primary_genre_id: Option<GenreId>,
    pub secondary_genre_id: Option<GenreId>,
    pub created_at: UtcTimestamp,
}

#[derive(Debug, Clone)]
pub struct BookWithAuthors {
    pub book: Book,
    pub authors: Vec<BookAuthorInfo>,
    pub primary_genre: Option<String>,
    pub secondary_genre: Option<String>,
}

/// The genres present, primary first.
pub open spec fn genre_names_spec(
    primary: Option<Seq<char>>,
    secondary: Option<Seq<char>>,
) -> Seq<Seq<char>> {
    let first: Seq<Seq<char>> = match primary {
        Some(g) => seq![g],
        None => Seq::empty(),
    };
    match secondary {
        Some(g) => first.push(g),
        None => first,
    }
}

impl BookWithAuthors {
    /// Collect genre names into a vec (for timeline events, stats, etc.).
    pub fn genre_names(&self) -> (names: Vec<String>)
        ensures
            views(names@) == genre_names_spec(
                opt_view(self.primary_genre),
                opt_view(self.secondary_genre),
            ),
    {
        let mut names: Vec<String> = Vec::new();
        if let Some(g) = &self.primary_genre {
            names.push(g.clone());
        }
        if let Some(g) = &self.secondary_genre {
            names.push(g.clone());
        }
        assert(views(names@) =~= genre_names_spec(
            opt_view(self.primary_genre),
            opt_view(self.secondary_genre),
        ));
        names
    }
}

/// Lightweight author info embedded in book listings.
#[derive(Debug, Clone)]
pub struct BookAuthorInfo {
    pub author_id: AuthorId,
    pub author_name: String,
    pub role: AuthorRole,
}

#[derive(Debug, Clone, Copy, PartialEq, Eq, Structural)]
pub enum AuthorRole {
    Author,
    Editor,
    Translator,
}

impl Default for AuthorRole {
    fn default() -> (r: Self)
        ensures
            r == AuthorRole::Author,
    {
        AuthorRole::Author
    }
}

/// The stored name of a author role.
pub open spec fn author_role_text(x: AuthorRole) -> Seq<char> {
    match x {
        AuthorRole::Author => "author"@,
        AuthorRole::Editor => "editor"@,
        AuthorRole::Translator => "translator"@,
    }
}

/// The label shown to readers.
pub open spec fn author_role_label(x: AuthorRole) -> Seq<char> {
    match x {
        AuthorRole::Author => "Author"@,
        AuthorRole::Editor => "Editor"@,
        AuthorRole::Translator => "Translator"@,
    }
}

/// The author role that a text names, compared as by `ascii_lower_seq`.
pub open spec fn author_role_from_text(s: Seq<char>) -> Option<AuthorRole> {
    if ascii_lower_seq(s) == "author"@ {
        Some(AuthorRole::Author)
    } else if ascii_lower_seq(s) == "editor"@ {
        Some(AuthorRole::Editor)
    } else if ascii_lower_seq(s) == "translator"@ {
        Some(AuthorRole::Translator)
    } else {
        None
    }
}

/// The length and first character of every name of a author role.
proof fn lemma_author_role_names()
    ensures
        "author"@.len() == 6 && "author"@[0] == 'a',
        "editor"@.len() == 6 && "editor"@[0] == 'e',
        "translator"@.len() == 10 && "translator"@[0] == 't',
{
    reveal_strlit("author");
    reveal_strlit("editor");
    reveal_strlit("translator");
}

impl AuthorRole {
    pub fn as_str(&self) -> (s: &'static str)
        ensures
            s@ == author_role_text(*self),
    {
        match self {
            AuthorRole::Author => "author",
            AuthorRole::Editor => "editor",
            AuthorRole::Translator => "translator",
        }
    }

    pub fn display_label(&self) -> (s: &'static str)
        ensures
            s@ == author_role_label(*self),
    {
        match self {
            AuthorRole::Author => "Author",
            AuthorRole::Editor => "Editor",
            AuthorRole::Translator => "Translator",
        }
    }
}

impl ParseName for AuthorRole {
    open spec fn name_parse(s: Seq<char>) -> Option<Self> {
        author_role_from_text(s)
    }

    fn parse_name(s: &str) -> (r: Option<Self>) {
        if lowered_is(s, "author") {
            Some(AuthorRole::Author)
        } else if lowered_is(s, "editor") {
            Some(AuthorRole::Editor)
        } else if lowered_is(s, "translator") {
            Some(AuthorRole::Translator)
        } else {
            None
        }
    }
}

impl std::str::FromStr for AuthorRole {
    type Err = ();

    fn from_str(s: &str) -> (r: Result<Self, Self::Err>)
        ensures
            r == match author_role_from_text(s@) {
                Some(x) => Ok::<Self, ()>(x),
                None => Err::<Self, ()>(()),
            },
    {
        match Self::parse_name(s) {
            Some(x) => Ok(x),
            None => Err(()),
        }
    }
}

/// Every author role is parsed back from its stored name.
pub proof fn lemma_author_role_roundtrip(x: AuthorRole)
    ensures
        author_role_from_text(author_role_text(x)) == Some(x),
{
    lemma_author_role_names();
    match x {
        AuthorRole::Author => {
            reveal_strlit("author");
            assert(ascii_lower_seq("author"@) =~= "author"@);
        },
        AuthorRole::Editor => {
            reveal_strlit("editor");
            assert(ascii_lower_seq("editor"@) =~= "editor"@);
        },
        AuthorRole::Translator => {
            reveal_strlit("translator");
            assert(ascii_lower_seq("translator"@) =~= "translator"@);
        },
    }
}

/// Each author role is stored under its own name (`author`, `editor`, `translator`), shown
/// under the matching label, and read back from that name.
pub proof fn lemma_author_role_names_are_their_own()
    ensures
        author_role_text(AuthorRole::Author) == "author"@,
        author_role_label(AuthorRole::Author) == "Author"@,
        author_role_from_text("author"@) == Some(AuthorRole::Author),
        author_role_text(AuthorRole::Editor) == "editor"@,
        author_role_label(AuthorRole::Editor) == "Editor"@,
        author_role_from_text("editor"@) == Some(AuthorRole::Editor),
        author_role_text(AuthorRole::Translator) == "translator"@,
        author_role_label(AuthorRole::Translator) == "Translator"@,
        author_role_from_text("translator"@) == Some(AuthorRole::Translator),
{
    lemma_author_role_roundtrip(AuthorRole::Author);
    lemma_author_role_roundtrip(AuthorRole::Editor);
    lemma_author_role_roundtrip(AuthorRole::Translator);
}

/// A book-author association for insert/update operations.
#[derive(Debug, Clone, Copy, PartialEq, Eq, Structural)]
pub struct BookAuthor {
    pub author_id: AuthorId,
    pub role: AuthorRole,
}

#[derive(Debug, Clone)]
pub struct NewBook {
    pub title: String,
    pub isbn: Option<String>,
    pub description: Option<String>,
    pub page_count: Option<i32>,
    pub year_published: Option<i32>,
    pub publisher: Option<String>,
    pub language: Option<String>,
    pub primary_genre_id: Option<GenreId>,
    pub secondary_genre_id: Option<GenreId>,
    pub authors: Vec<BookAuthor>,
    pub created_at: Option<UtcTimestamp>,
}

/// An optional text field as stored: trimmed, and absent when blank.
pub open spec fn normalize_optional_spec(value: Option<Seq<char>>) -> Option<Seq<char>> {
    match value {
        Some(s) => non_blank_spec(s),
        None => None,
    }
}

/// A page count as stored: only positive counts are kept.
pub open spec fn positive_page_count(value: Option<i32>) -> Option<i32> {
    match value {
        Some(p) => if p > 0 {
            Some(p)
        } else {
            None
        },
        None => None,
    }
}

/// Normalising submitted book data twice gives what normalising it once
/// gives: each stored text is trimmed and non-blank, and each kept page
/// count is positive.
pub proof fn lemma_normalize_idempotent(title: Seq<char>, field: Option<Seq<char>>, pages: Option<i32>)
    ensures
        trim_spec(trim_spec(title)) == trim_spec(title),
        normalize_optional_spec(normalize_optional_spec(field)) == normalize_optional_spec(field),
        positive_page_count(positive_page_count(pages)) == positive_page_count(pages),
        normalize_optional_spec(field) matches Some(t) ==> t.len() > 0 && t == trim_spec(t),
{
    crate::text::lemma_trim_idempotent(title);
    if let Some(f) = field {
        crate::text::lemma_trim_idempotent(f);
        crate::text::lemma_trim_idempotent(trim_spec(f));
    }
}

/// An optional text field trimmed, and `None` when blank.
pub fn normalize_optional_field(value: Option<String>) -> (r: Option<String>)
    ensures
        opt_view(r) == normalize_optional_spec(opt_view(value)),
{
    match value {
        Some(raw) => non_blank(raw.as_str()),
        None => None,
    }
}

fn keep_positive(value: Option<i32>) -> (r: Option<i32>)
    ensures
        r == positive_page_count(value),
{
    match value {
        Some(p) => if p > 0 {
            Some(p)
        } else {
            None
        },
        None => None,
    }
}

impl NewBook {
    /// Trims the title, trims the optional text fields (dropping blank ones)
    /// and drops a page count that is not positive; the rest is kept.
    pub fn normalize(self) -> (r: Self)
        ensures
            r.title@ == trim_spec(self.title@),
            opt_view(r.isbn) == normalize_optional_spec(opt_view(self.isbn)),
            opt_view(r.description) == normalize_optional_spec(opt_view(self.description)),
            opt_view(r.publisher) == normalize_optional_spec(opt_view(self.publisher)),
            opt_view(r.language) == normalize_optional_spec(opt_view(self.language)),
            r.page_count == positive_page_count(self.page_count),
            r.year_published == self.year_published,
            r.primary_genre_id == self.primary_genre_id,
            r.secondary_genre_id == self.secondary_genre_id,
            r.authors == self.authors,
            r.created_at == self.created_at,
    {
        NewBook {
            title: trim(self.title.as_str()),
            isbn: normalize_optional_field(self.isbn),
            description: normalize_optional_field(self.description),
            page_count: keep_positive(self.page_count),
            year_published: self.year_published,
            publisher: normalize_optional_field(self.publisher),
            language: normalize_optional_field(self.language),
            primary_genre_id: self.primary_genre_id,
            secondary_genre_id: self.secondary_genre_id,
            authors: self.authors,
            created_at: self.created_at,
        }
    }
}

#[derive(Debug, Clone)]
pub struct UpdateBook {
    pub title: Option<String>,
    pub isbn: Option<String>,
    pub description: Option<String>,
    pub page_count: Option<i32>,
    pub year_published: Option<i32>,
    pub publisher: Option<String>,
    pub language: Option<String>,
    /// `None` = don't change, `Some(None)` = clear, `Some(Some(id))` = set.
    pub primary_genre_id: Option<Option<GenreId>>,
    /// `None` = don't change, `Some(None)` = clear, `Some(Some(id))` = set.
    pub secondary_genre_id: Option<Option<GenreId>>,
    pub authors: Option<Vec<BookAuthor>>,
    pub created_at: Option<UtcTimestamp>,
}

impl UpdateBook {
    /// Trims the optional text fields (dropping blank ones) and drops a page
    /// count that is not positive; the title and the rest are kept.
    pub fn normalize(self) -> (r: Self)
        ensures
            r.title == self.title,
            opt_view(r.isbn) == normalize_optional_spec(opt_view(self.isbn)),
            opt_view(r.description) == normalize_optional_spec(opt_view(self.description)),
            opt_view(r.publisher) == normalize_optional_spec(opt_view(self.publisher)),
            opt_view(r.language) == normalize_optional_spec(opt_view(self.language)),
            r.page_count == positive_page_count(self.page_count),
            r.year_published == self.year_published,
            r.primary_genre_id == self.primary_genre_id,
            r.secondary_genre_id == self.secondary_genre_id,
            r.authors == self.authors,
            r.created_at == self.created_at,
    {
        UpdateBook {
            title: self.title,
            isbn: normalize_optional_field(self.isbn),
            description: normalize_optional_field(self.description),
            page_count: keep_positive(self.page_count),
            year_published: self.year_published,
            publisher: normalize_optional_field(self.publisher),
            language: normalize_optional_field(self.language),
            primary_genre_id: self.primary_genre_id,
            secondary_genre_id: self.secondary_genre_id,
            authors: self.authors,
            created_at: self.created_at,
        }
    }

    /// Whether the update sets any field.
    pub fn has_changes(&self) -> (b: bool)
        ensures
            b == (self.title is Some || self.isbn is Some || self.description is Some
                || self.page_count is Some || self.year_published is Some || self.publisher is Some
                || self.language is Some || self.primary_genre_id is Some
                || self.secondary_genre_id is Some || self.authors is Some
                || self.created_at is Some),
    {
        self.title.is_some() || self.isbn.is_some() || self.description.is_some()
            || self.page_count.is_some() || self.year_published.is_some()
            || self.publisher.is_some() || self.language.is_some()
            || self.primary_genre_id.is_some() || self.secondary_genre_id.is_some()
            || self.authors.is_some() || self.created_at.is_some()
    }
}

#[derive(Debug, Clone, Copy, PartialEq, Eq, Structural)]
pub enum BookSortKey {
    CreatedAt,
    Title,
    Author,
    YearPublished,
    Publisher,
}

/// The length and first character of every query name of `BookSortKey`; they
/// tell the names apart.
proof fn lemma_book_sort_key_names()
    ensures
        "created-at"@.len() == 10 && "created-at"@[0] == 'c',
        "title"@.len() == 5 && "title"@[0] == 't',
        "author"@.len() == 6 && "author"@[0] == 'a',
        "year-published"@.len() == 14 && "year-published"@[0] == 'y',
        "publisher"@.len() == 9 && "publisher"@[0] == 'p',
{
    reveal_strlit("created-at");
    reveal_strlit("title");
    reveal_strlit("author");
    reveal_strlit("year-published");
    reveal_strlit("publisher");
}

impl SortKey for BookSortKey {
    open spec fn default_key() -> Self {
        BookSortKey::CreatedAt
    }

    open spec fn query_text(self) -> Seq<char> {
        match self {
            BookSortKey::CreatedAt => "created-at"@,
            BookSortKey::Title => "title"@,
            BookSortKey::Author => "author"@,
            BookSortKey::YearPublished => "year-published"@,
            BookSortKey::Publisher => "publisher"@,
        }
    }

    open spec fn parse_query(value: Seq<char>) -> Option<Self> {
        if value == "created-at"@ {
            Some(BookSortKey::CreatedAt)
        } else if value == "title"@ {
            Some(BookSortKey::Title)
        } else if value == "author"@ {
            Some(BookSortKey::Author)
        } else if value == "year-published"@ {
            Some(BookSortKey::YearPublished)
        } else if value == "publisher"@ {
            Some(BookSortKey::Publisher)
        } else {
            None
        }
    }

    open spec fn default_direction_of(self) -> SortDirection {
        match self {
            BookSortKey::CreatedAt => SortDirection::Desc,
            BookSortKey::Title => SortDirection::Asc,
            BookSortKey::Author => SortDirection::Asc,
            BookSortKey::YearPublished => SortDirection::Desc,
            BookSortKey::Publisher => SortDirection::Asc,
        }
    }


    fn default() -> (k: Self) {
        BookSortKey::CreatedAt
    }

    fn from_query(value: &str) -> (k: Option<Self>) {
        if str_eq(value, "created-at") {
            return Some(BookSortKey::CreatedAt);
        }
        if str_eq(value, "title") {
            return Some(BookSortKey::Title);
        }
        if str_eq(value, "author") {
            return Some(BookSortKey::Author);
        }
        if str_eq(value, "year-published") {
            return Some(BookSortKey::YearPublished);
        }
        if str_eq(value, "publisher") {
            return Some(BookSortKey::Publisher);
        }
        None
    }

    fn query_value(self) -> (s: &'static str) {
        match self {
            BookSortKey::CreatedAt => "created-at",
            BookSortKey::Title => "title",
            BookSortKey::Author => "author",
            BookSortKey::YearPublished => "year-published",
            BookSortKey::Publisher => "publisher",
        }
    }

    fn default_direction(self) -> (d: SortDirection) {
        match self {
            BookSortKey::CreatedAt => SortDirection::Desc,
            BookSortKey::Title => SortDirection::Asc,
            BookSortKey::Author => SortDirection::Asc,
            BookSortKey::YearPublished => SortDirection::Desc,
            BookSortKey::Publisher => SortDirection::Asc,
        }
    }

    fn same_key(self, other: Self) -> (b: bool) {
        self == other
    }
}

/// Every `BookSortKey` is named by its own query value, so `from_query` inverts
/// `query_value`.
pub proof fn lemma_book_sort_key_query_roundtrip(key: BookSortKey)
    ensures
        BookSortKey::parse_query(key.query_text()) == Some(key),
{
    lemma_book_sort_key_names();
}

/// Every book sort key is named in query strings by its own column: `created-at`, `title`, `author`, `year-published`, `publisher`
/// each select that column and no other, and each key is written back under
/// the same name.
pub proof fn lemma_book_sort_key_names_select_their_columns(value: Seq<char>, key: BookSortKey)
    ensures
        BookSortKey::parse_query("created-at"@) == Some(BookSortKey::CreatedAt),
        BookSortKey::parse_query("title"@) == Some(BookSortKey::Title),
        BookSortKey::parse_query("author"@) == Some(BookSortKey::Author),
        BookSortKey::parse_query("year-published"@) == Some(BookSortKey::YearPublished),
        BookSortKey::parse_query("publisher"@) == Some(BookSortKey::Publisher),
        BookSortKey::CreatedAt.query_text() == "created-at"@,
        BookSortKey::Title.query_text() == "title"@,
        BookSortKey::Author.query_text() == "author"@,
        BookSortKey::YearPublished.query_text() == "year-published"@,
        BookSortKey::Publisher.query_text() == "publisher"@,
        BookSortKey::parse_query(value) == Some(key) ==> value == key.query_text(),
{
    lemma_book_sort_key_names();
    reveal_strlit("created-at");
    reveal_strlit("title");
    reveal_strlit("author");
    reveal_strlit("year-published");
    reveal_strlit("publisher");
}

/// The details of a book's event: the author line, the genres joined with
/// ", " when there are any, and the page count when known.
pub open spec fn book_details_spec(
    book: Book,
    names: Seq<Seq<char>>,
    genres: Seq<Seq<char>>,
) -> Seq<(Seq<char>, Seq<char>)> {
    let base = seq![author_detail_spec(names)];
    let with_genres = if genres.len() > 0 {
        base.push(("Genres"@, join_spec(genres, ", "@)))
    } else {
        base
    };
    match book.page_count {
        Some(pages) => with_genres.push(("Pages"@, int_decimal(pages as int))),
        None => with_genres,
    }
}

/// The view of an optional string slice.
pub open spec fn opt_str_view(o: Option<&str>) -> Option<Seq<char>> {
    match o {
        Some(s) => Some(s@),
        None => None,
    }
}

/// The event recorded when a user adds a book, at the book's creation.
pub open spec fn book_event_spec(
    e: NewTimelineEvent,
    book: Book,
    authors: Seq<Author>,
    primary_genre: Option<Seq<char>>,
    secondary_genre: Option<Seq<char>>,
    user_id: UserId,
) -> bool {
    let genres = genre_names_spec(primary_genre, secondary_genre);
    &&& e.user_id == Some(user_id)
    &&& e.entity_type@ == "book"@
    &&& e.entity_id == book.id.0
    &&& e.action@ == "added"@
    &&& e.occurred_at == book.created_at
    &&& e.title@ == book.title@
    &&& details_view(e.details@) == book_details_spec(book, author_names(authors), genres)
    &&& views(e.genres@) == genres
    &&& e.reading_data is None
}

pub fn book_timeline_event(
    book: &Book,
    authors: &[Author],
    primary_genre: Option<&str>,
    secondary_genre: Option<&str>,
    user_id: UserId,
) -> (e: NewTimelineEvent)
    ensures
        book_event_spec(
            e,
            *book,
            authors@,
            opt_str_view(primary_genre),
            opt_str_view(secondary_genre),
            user_id,
        ),
{
    let names = author_name_list(authors);
    let mut details: Vec<TimelineEventDetail> = Vec::new();
    details.push(TimelineEventDetail::author_detail(names.as_slice()));
    let mut genres: Vec<String> = Vec::new();
    if let Some(g) = primary_genre {
        genres.push(owned(g));
    }
    if let Some(g) = secondary_genre {
        genres.push(owned(g));
    }
    let ghost gs = genre_names_spec(opt_str_view(primary_genre), opt_str_view(secondary_genre));
    assert(views(genres@) =~= gs);
    let ghost base = seq![author_detail_spec(author_names(authors@))];
    assert(details_view(details@) =~= base);
    if genres.len() > 0 {
        details.push(TimelineEventDetail::new("Genres", join(&genres, ", ")));
    }
    let ghost with_genres = if gs.len() > 0 {
        base.push(("Genres"@, join_spec(gs, ", "@)))
    } else {
        base
    };
    assert(details_view(details@) =~= with_genres);
    if let Some(pages) = book.page_count {
        details.push(TimelineEventDetail::new("Pages", i64_to_string(pages as i64)));
    }
    assert(details_view(details@) =~= book_details_spec(*book, author_names(authors@), gs));
    NewTimelineEvent {
        user_id: Some(user_id),
        entity_type: owned("book"),
        entity_id: book.id.into_inner(),
        action: owned("added"),
        occurred_at: book.created_at,
        title: book.title.clone(),
        details,
        genres,
        reading_data: None,
    }
}


// ---------------------------------------------------------------------------
// Submitted books
// ---------------------------------------------------------------------------

/// The name under which an optional genre name is looked up (or created):
/// trimmed, and nothing when it is missing or blank.
pub open spec fn genre_lookup_spec(name: Option<Seq<char>>) -> Option<Seq<char>> {
    match name {
        Some(n) => non_blank_spec(n),
        None => None,
    }
}

fn genre_lookup(name: &Option<String>) -> (r: Option<String>)
    ensures
        opt_view(r) == genre_lookup_spec(opt_view(*name)),
{
    match name {
        Some(n) => non_blank(n.as_str()),
        None => None,
    }
}

/// The genre a book gets: the submitted id when there is one, else the genre
/// that its name resolved to.
pub open spec fn chosen_genre(id: Option<i64>, resolved: Option<GenreId>) -> Option<GenreId> {
    match id {
        Some(i) => Some(GenreId(i)),
        None => resolved,
    }
}

/// A new book as a form or a JSON body submits it. A genre is given by id,
/// or by a name to look up; a form gives its single author as `author_id`.
#[derive(Debug, Clone)]
pub struct NewBookSubmission {
    pub title: String,
    pub isbn: Option<String>,
    pub description: Option<String>,
    pub page_count: Option<i32>,
    pub year_published: Option<i32>,
    pub publisher: Option<String>,
    pub language: Option<String>,
    pub primary_genre_id: Option<i64>,
    pub secondary_genre_id: Option<i64>,
    pub primary_genre_id_name: Option<String>,
    pub secondary_genre_id_name: Option<String>,
    pub author_id: Option<i64>,
    pub authors: Vec<BookAuthor>,
    pub created_at: Option<UtcTimestamp>,
    /// The cover image as a data URL, when one was sent.
    pub image: Option<String>,
}

impl NewBookSubmission {
    /// The genre names that must be resolved before the book is made: none
    /// for a genre given by id. Refused, before anything is looked up, when
    /// the title is blank.
    pub fn genre_lookups(&self) -> (r: Result<(Option<String>, Option<String>), ValidationError>)
        ensures
            r is Err <==> trim_spec(self.title@).len() == 0,
            r matches Err(e) ==> e.message@ == "title is required"@,
            r matches Ok(names) ==> {
                &&& opt_view(names.0) == (if self.primary_genre_id is Some {
                    None
                } else {
                    genre_lookup_spec(opt_view(self.primary_genre_id_name))
                })
                &&& opt_view(names.1) == (if self.secondary_genre_id is Some {
                    None
                } else {
                    genre_lookup_spec(opt_view(self.secondary_genre_id_name))
                })
            },
    {
        let title = trim(self.title.as_str());
        if title.unicode_len() == 0 {
            return Err(ValidationError { message: owned("title is required") });
        }
        let primary = if self.primary_genre_id.is_some() {
            None
        } else {
            genre_lookup(&self.primary_genre_id_name)
        };
        let secondary = if self.secondary_genre_id.is_some() {
            None
        } else {
            genre_lookup(&self.secondary_genre_id_name)
        };
        Ok((primary, secondary))
    }

    /// The book a submission makes, given the genres its names resolved to,
    /// and the image it brings. The title is trimmed and must not be blank;
    /// a form's `author_id` becomes the single author, in the default role,
    /// when no authors are listed; the rest is taken as submitted.
    pub fn into_parts(self, primary_resolved: Option<GenreId>, secondary_resolved: Option<GenreId>) -> (r:
        Result<(NewBook, Option<String>), ValidationError>)
        ensures
            r is Err <==> trim_spec(self.title@).len() == 0,
            r matches Err(e) ==> e.message@ == "title is required"@,
            r matches Ok(parts) ==> {
                let b = parts.0;
                &&& b.title@ == trim_spec(self.title@)
                &&& b.authors@ == (match self.author_id {
                    Some(id) => if self.authors@.len() == 0 {
                        seq![BookAuthor { author_id: AuthorId(id), role: AuthorRole::Author }]
                    } else {
                        self.authors@
                    },
                    None => self.authors@,
                })
                &&& b.isbn == self.isbn
                &&& b.description == self.description
                &&& b.page_count == self.page_count
                &&& b.year_published == self.year_published
                &&& b.publisher == self.publisher
                &&& b.language == self.language
                &&& b.primary_genre_id == chosen_genre(self.primary_genre_id, primary_resolved)
                &&& b.secondary_genre_id == chosen_genre(
                    self.secondary_genre_id,
                    secondary_resolved,
                )
                &&& b.created_at == self.created_at
                &&& parts.1 == self.image
            },
    {
        let title = trim(self.title.as_str());
        if title.unicode_len() == 0 {
            return Err(ValidationError { message: owned("title is required") });
        }
        let mut authors = self.authors;
        if let Some(id) = self.author_id {
            if authors.len() == 0 {
                authors.push(BookAuthor { author_id: AuthorId::new(id), role: AuthorRole::default() });
                assert(authors@ =~= seq![BookAuthor { author_id: AuthorId(id), role: AuthorRole::Author }]);
            }
        }
        let primary_genre_id = match self.primary_genre_id {
            Some(id) => Some(GenreId::new(id)),
            None => primary_resolved,
        };
        let secondary_genre_id = match self.secondary_genre_id {
            Some(id) => Some(GenreId::new(id)),
            None => secondary_resolved,
        };
        Ok(
            (
                NewBook {
                    title,
                    isbn: self.isbn,
                    description: self.description,
                    page_count: self.page_count,
                    year_published: self.year_published,
                    publisher: self.publisher,
                    language: self.language,
                    primary_genre_id,
                    secondary_genre_id,
                    authors,
                    created_at: self.created_at,
                },
                self.image,
            ),
        )
    }
}

/// The genre change of a book update: set to the submitted id; else set to
/// the genre that the name resolved to; else no change.
pub open spec fn genre_change(id: Option<i64>, resolved: Option<GenreId>) -> Option<Option<GenreId>> {
    match id {
        Some(i) => Some(Some(GenreId(i))),
        None => match resolved {
            Some(g) => Some(Some(g)),
            None => None,
        },
    }
}

/// An update that gives a genre by id sets exactly that genre, whatever a
/// name resolved to; without an id it sets the genre the name resolved to,
/// and leaves the genre alone when nothing resolved. Either way the genre it
/// sets is the one a new book with the same id and name would get.
pub proof fn lemma_update_genre_follows_submission(id: Option<i64>, resolved: Option<GenreId>)
    ensures
        id matches Some(i) ==> genre_change(id, resolved) == Some(Some(GenreId(i))),
        id is None && resolved is None ==> genre_change(id, resolved) is None,
        genre_change(id, resolved) is None <==> chosen_genre(id, resolved) is None,
        genre_change(id, resolved) is Some ==> genre_change(id, resolved) == Some(
            chosen_genre(id, resolved),
        ),
{
}

/// Changes to a book as a form or a JSON body submits them. A form lists the
/// authors as `author_ids`; a JSON body as `authors`, with their roles.
#[derive(Debug, Clone)]
pub struct UpdateBookSubmission {
    pub title: Option<String>,
    pub isbn: Option<String>,
    pub description: Option<String>,
    pub page_count: Option<i32>,
    pub year_published: Option<i32>,
    pub publisher: Option<String>,
    pub language: Option<String>,
    pub primary_genre_id: Option<i64>,
    pub secondary_genre_id: Option<i64>,
    pub primary_genre_id_name: Option<String>,
    pub secondary_genre_id_name: Option<String>,
    pub author_ids: Vec<i64>,
    pub authors: Option<Vec<BookAuthor>>,
    pub created_at: Option<UtcTimestamp>,
    /// The cover image as a data URL, when one was sent.
    pub image: Option<String>,
    /// The cover suggestion chosen as the new cover, if any.
    pub selected_cover_id: Option<String>,
}

/// The authors listed by id, each in the default role.
pub open spec fn authors_by_id(ids: Seq<i64>) -> Seq<BookAuthor> {
    ids.map_values(|id: i64| BookAuthor { author_id: AuthorId(id), role: AuthorRole::Author })
}

fn authors_from_ids(ids: &Vec<i64>) -> (v: Vec<BookAuthor>)
    ensures
        v@ == authors_by_id(ids@),
{
    let mut v: Vec<BookAuthor> = Vec::new();
    let mut i: usize = 0;
    while i < ids.len()
        invariant
            i <= ids@.len(),
            v@ == authors_by_id(ids@.take(i as int)),
        decreases ids@.len() - i,
    {
        v.push(BookAuthor { author_id: AuthorId::new(ids[i]), role: AuthorRole::default() });
        assert(authors_by_id(ids@.take(i + 1)) =~= authors_by_id(ids@.take(i as int)).push(
            BookAuthor { author_id: AuthorId(ids@[i as int]), role: AuthorRole::Author },
        ));
        i = i + 1;
    }
    assert(ids@.take(ids@.len() as int) =~= ids@);
    v
}

impl UpdateBookSubmission {
    /// The genre names that must be resolved before the update is made: none
    /// for a genre given by id.
    pub fn genre_lookups(&self) -> (r: (Option<String>, Option<String>))
        ensures
            opt_view(r.0) == (if self.primary_genre_id is Some {
                None
            } else {
                genre_lookup_spec(opt_view(self.primary_genre_id_name))
            }),
            opt_view(r.1) == (if self.secondary_genre_id is Some {
                None
            } else {
                genre_lookup_spec(opt_view(self.secondary_genre_id_name))
            }),
    {
        let primary = if self.primary_genre_id.is_some() {
            None
        } else {
            genre_lookup(&self.primary_genre_id_name)
        };
        let secondary = if self.secondary_genre_id.is_some() {
            None
        } else {
            genre_lookup(&self.secondary_genre_id_name)
        };
        (primary, secondary)
    }

    /// The update a submission asks for, given the genres its names resolved
    /// to, with the image it brings and the cover suggestion it chose (an
    /// empty id choosing none). Listed authors win over `author_ids`; no
    /// author change when neither lists any.
    pub fn into_parts(self, primary_resolved: Option<GenreId>, secondary_resolved: Option<GenreId>) -> (r:
        (UpdateBook, Option<String>, Option<String>))
        ensures
            r.0.title == self.title,
            r.0.isbn == self.isbn,
            r.0.description == self.description,
            r.0.page_count == self.page_count,
            r.0.year_published == self.year_published,
            r.0.publisher == self.publisher,
            r.0.language == self.language,
            r.0.primary_genre_id == genre_change(self.primary_genre_id, primary_resolved),
            r.0.secondary_genre_id == genre_change(self.secondary_genre_id, secondary_resolved),
            self.primary_genre_id matches Some(i) ==> r.0.primary_genre_id == Some(Some(GenreId(i))),
            self.secondary_genre_id matches Some(i) ==> r.0.secondary_genre_id == Some(
                Some(GenreId(i)),
            ),
            match r.0.authors {
                Some(v) => match self.authors {
                    Some(a) => v@ == a@,
                    None => self.author_ids@.len() > 0 && v@ == authors_by_id(self.author_ids@),
                },
                None => self.authors is None && self.author_ids@.len() == 0,
            },
            r.0.created_at == self.created_at,
            r.1 == self.image,
            opt_view(r.2) == match opt_view(self.selected_cover_id) {
                Some(id) => if id.len() > 0 {
                    Some(id)
                } else {
                    None
                },
                None => None,
            },
    {
        let authors = match self.authors {
            Some(a) => Some(a),
            None => if self.author_ids.len() > 0 {
                Some(authors_from_ids(&self.author_ids))
            } else {
                None
            },
        };
        let primary_genre_id = match self.primary_genre_id {
            Some(id) => Some(Some(GenreId::new(id))),
            None => match primary_resolved {
                Some(g) => Some(Some(g)),
                None => None,
            },
        };
        let secondary_genre_id = match self.secondary_genre_id {
            Some(id) => Some(Some(GenreId::new(id))),
            None => match secondary_resolved {
                Some(g) => Some(Some(g)),
                None => None,
            },
        };
        let selected_cover_id = match self.selected_cover_id {
            Some(id) => if id.unicode_len() > 0 {
                Some(id)
            } else {
                None
            },
            None => None,
        };
        (
            UpdateBook {
                title: self.title,
                isbn: self.isbn,
                description: self.description,
                page_count: self.page_count,
                year_published: self.year_published,
                publisher: self.publisher,
                language: self.language,
                primary_genre_id,
                secondary_genre_id,
                authors,
                created_at: self.created_at,
            },
            self.image,
            selected_cover_id,
        )
    }
}


/// Whether a book is in a library, given by the ids of its books.
pub open spec fn in_library(library_ids: Set<i64>) -> spec_fn(BookWithAuthors) -> bool {
    |b: BookWithAuthors| library_ids.contains(b.book.id.0)
}

/// An author's books that are in the user's library, in the order given.
pub fn books_in_library(books: Vec<BookWithAuthors>, library_ids: &std::collections::HashSet<i64>) -> (r:
    Vec<BookWithAuthors>)
    ensures
        r@ == books@.filter(in_library(library_ids@)),
{
    let ghost pred = in_library(library_ids@);
    let ghost all = books@;
    let mut kept: Vec<BookWithAuthors> = Vec::new();
    for b in it: books.into_iter()
        invariant
            pred == in_library(library_ids@),
            it.seq() == all,
            kept@ == all.take(it.index() as int).filter(pred),
    {
        proof {
            reveal_with_fuel(Seq::<BookWithAuthors>::filter, 1);
            assert(all.take(it.index() + 1).drop_last() =~= all.take(it.index() as int));
        }
        let id = b.book.id.into_inner();
        if library_ids.contains(&id) {
            kept.push(b);
        }
    }
    assert(all.take(all.len() as int) =~= all);
    kept
}

} // verus!
