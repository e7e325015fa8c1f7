//! Book scans: what the library does with the fields that a cover photo's
//! extraction returns and with a scan submission.
use vstd::prelude::*;

use crate::books::{AuthorRole, BookAuthor, NewBook};
use crate::ids::{AuthorId, BookId, GenreId};
use crate::text::{
    decimal, i64_to_string, int_decimal, non_blank, non_blank_spec, opt_view, owned, parse_i32,
    parse_i64, parse_int_spec, str_eq, trim, trim_spec,
};
use crate::user_books::Shelf;

verus! {

/// What the extraction of a book cover found; every field may be missing.
#[derive(Debug, Clone)]
pub struct ExtractedBook {
    pub author_name: Option<String>,
    pub title: Option<String>,
    pub isbn: Option<String>,
    pub description: Option<String>,
    pub page_count: Option<i32>,
    pub year_published: Option<i32>,
    pub publisher: Option<String>,
    pub language: Option<String>,
    pub primary_genre: Option<String>,
    pub secondary_genre: Option<String>,
    pub cover_image_urls: Option<Vec<String>>,
}

/// The value of a Datastar signal.
#[derive(Debug, Clone, PartialEq, Eq)]
pub enum SignalValue {
    Text(String),
    Flag(bool),
}

/// A signal value as a text or a flag.
pub enum SignalView {
    Text(Seq<char>),
    Flag(bool),
}

pub open spec fn signal_view(v: SignalValue) -> SignalView {
    match v {
        SignalValue::Text(s) => SignalView::Text(s@),
        SignalValue::Flag(b) => SignalView::Flag(b),
    }
}

/// Signals as pairs of name and value.
pub open spec fn signals_view(v: Seq<(&'static str, SignalValue)>) -> Seq<(Seq<char>, SignalView)> {
    v.map_values(|p: (&'static str, SignalValue)| (p.0@, signal_view(p.1)))
}

/// The names of the five cover-suggestion signals.
pub open spec fn cover_signal_name(i: int) -> Seq<char> {
    if i == 0 {
        "_cover-1"@
    } else if i == 1 {
        "_cover-2"@
    } else if i == 2 {
        "_cover-3"@
    } else if i == 3 {
        "_cover-4"@
    } else {
        "_cover-5"@
    }
}

/// An optional text, or the empty text.
pub open spec fn or_empty(o: Option<Seq<char>>) -> Seq<char> {
    match o {
        Some(s) => s,
        None => Seq::empty(),
    }
}

/// An optional number in decimal, or the empty text.
pub open spec fn number_or_empty(o: Option<int>) -> Seq<char> {
    match o {
        Some(n) => int_decimal(n),
        None => Seq::empty(),
    }
}

pub open spec fn opt_i32_int(o: Option<i32>) -> Option<int> {
    match o {
        Some(n) => Some(n as int),
        None => None,
    }
}

pub open spec fn opt_genre_int(o: Option<GenreId>) -> Option<int> {
    match o {
        Some(id) => Some(id.0 as int),
        None => None,
    }
}

/// The signals that fill the scan form from an extraction: the extracted
/// fields (empty when missing), the matched entities and resolved genres,
/// the extraction flag, and the five cover suggestions (empty past the
/// suggestions found).
pub open spec fn extraction_signals_spec(
    result: ExtractedBook,
    matched_author_id: Seq<char>,
    matched_book_id: Seq<char>,
    primary_genre_id: Option<GenreId>,
    secondary_genre_id: Option<GenreId>,
    suggestion_ids: Seq<Seq<char>>,
) -> Seq<(Seq<char>, SignalView)> {
    seq![
        ("_author-name"@, SignalView::Text(or_empty(opt_view(result.author_name)))),
        ("_book-title"@, SignalView::Text(or_empty(opt_view(result.title)))),
        ("_book-isbn"@, SignalView::Text(or_empty(opt_view(result.isbn)))),
        ("_book-description"@, SignalView::Text(or_empty(opt_view(result.description)))),
        ("_book-pages"@, SignalView::Text(number_or_empty(opt_i32_int(result.page_count)))),
        ("_book-year"@, SignalView::Text(number_or_empty(opt_i32_int(result.year_published)))),
        ("_book-publisher"@, SignalView::Text(or_empty(opt_view(result.publisher)))),
        ("_book-language"@, SignalView::Text(or_empty(opt_view(result.language)))),
        ("_book-primary-genre"@, SignalView::Text(or_empty(opt_view(result.primary_genre)))),
        ("_book-secondary-genre"@, SignalView::Text(or_empty(opt_view(result.secondary_genre)))),
        (
            "_book-primary-genre-id"@,
            SignalView::Text(number_or_empty(opt_genre_int(primary_genre_id))),
        ),
        (
            "_book-secondary-genre-id"@,
            SignalView::Text(number_or_empty(opt_genre_int(secondary_genre_id))),
        ),
        ("_scan-extracted"@, SignalView::Flag(true)),
        ("_matched-author-id"@, SignalView::Text(matched_author_id)),
        ("_matched-book-id"@, SignalView::Text(matched_book_id)),
    ] + cover_signals_spec(suggestion_ids)
}

/// The five cover-suggestion signals.
pub open spec fn cover_signals_spec(suggestion_ids: Seq<Seq<char>>) -> Seq<
    (Seq<char>, SignalView),
> {
    Seq::new(
        5,
        |i: int|
            (
                cover_signal_name(i),
                SignalView::Text(
                    if i < suggestion_ids.len() {
                        suggestion_ids[i]
                    } else {
                        Seq::empty()
                    },
                ),
            ),
    )
}

fn text_or_empty(o: Option<String>) -> (s: String)
    ensures
        s@ == or_empty(opt_view(o)),
{
    match o {
        Some(s) => s,
        None => String::new(),
    }
}

fn i32_or_empty(o: Option<i32>) -> (s: String)
    ensures
        s@ == number_or_empty(opt_i32_int(o)),
{
    match o {
        Some(n) => i64_to_string(n as i64),
        None => String::new(),
    }
}

fn genre_id_or_empty(o: Option<GenreId>) -> (s: String)
    ensures
        s@ == number_or_empty(opt_genre_int(o)),
{
    match o {
        Some(id) => i64_to_string(id.into_inner()),
        None => String::new(),
    }
}

fn cover_signal_name_of(i: usize) -> (s: &'static str)
    requires
        i < 5,
    ensures
        s@ == cover_signal_name(i as int),
{
    if i == 0 {
        "_cover-1"
    } else if i == 1 {
        "_cover-2"
    } else if i == 2 {
        "_cover-3"
    } else if i == 3 {
        "_cover-4"
    } else {
        "_cover-5"
    }
}

/// The views of a slice of strings.
pub open spec fn slice_views(v: Seq<String>) -> Seq<Seq<char>> {
    v.map_values(|s: String| s@)
}

fn push_signal(
    signals: &mut Vec<(&'static str, SignalValue)>,
    name: &'static str,
    value: SignalValue,
)
    ensures
        signals_view(final(signals)@) == signals_view(old(signals)@).push(
            (name@, signal_view(value)),
        ),
{
    signals.push((name, value));
    assert(signals_view(final(signals)@) =~= signals_view(old(signals)@).push(
        (name@, signal_view(value)),
    ));
}

/// The signals that fill the scan form from an extraction.
pub fn build_extraction_signals(
    result: ExtractedBook,
    matched_author_id: String,
    matched_book_id: String,
    primary_genre_id: Option<GenreId>,
    secondary_genre_id: Option<GenreId>,
    suggestion_ids: &[String],
) -> (signals: Vec<(&'static str, SignalValue)>)
    ensures
        signals_view(signals@) == extraction_signals_spec(
            result,
            matched_author_id@,
            matched_book_id@,
            primary_genre_id,
            secondary_genre_id,
            slice_views(suggestion_ids@),
        ),
{
    let ghost r = result;
    let ghost ma = matched_author_id@;
    let ghost mb = matched_book_id@;
    let mut signals: Vec<(&'static str, SignalValue)> = Vec::new();
    push_signal(&mut signals, "_author-name", SignalValue::Text(text_or_empty(result.author_name)));
    push_signal(&mut signals, "_book-title", SignalValue::Text(text_or_empty(result.title)));
    push_signal(&mut signals, "_book-isbn", SignalValue::Text(text_or_empty(result.isbn)));
    push_signal(
        &mut signals,
        "_book-description",
        SignalValue::Text(text_or_empty(result.description)),
    );
    push_signal(&mut signals, "_book-pages", SignalValue::Text(i32_or_empty(result.page_count)));
    push_signal(
        &mut signals,
        "_book-year",
        SignalValue::Text(i32_or_empty(result.year_published)),
    );
    push_signal(
        &mut signals,
        "_book-publisher",
        SignalValue::Text(text_or_empty(result.publisher)),
    );
    push_signal(&mut signals, "_book-language", SignalValue::Text(text_or_empty(result.language)));
    push_signal(
        &mut signals,
        "_book-primary-genre",
        SignalValue::Text(text_or_empty(result.primary_genre)),
    );
    push_signal(
        &mut signals,
        "_book-secondary-genre",
        SignalValue::Text(text_or_empty(result.secondary_genre)),
    );
    push_signal(
        &mut signals,
        "_book-primary-genre-id",
        SignalValue::Text(genre_id_or_empty(primary_genre_id)),
    );
    push_signal(
        &mut signals,
        "_book-secondary-genre-id",
        SignalValue::Text(genre_id_or_empty(secondary_genre_id)),
    );
    push_signal(&mut signals, "_scan-extracted", SignalValue::Flag(true));
    push_signal(&mut signals, "_matched-author-id", SignalValue::Text(matched_author_id));
    push_signal(&mut signals, "_matched-book-id", SignalValue::Text(matched_book_id));
    let ghost head = signals_view(signals@);
    let ghost ids = slice_views(suggestion_ids@);
    assert(head =~= extraction_signals_spec(
        r,
        ma,
        mb,
        primary_genre_id,
        secondary_genre_id,
        ids,
    ).take(15));
    let mut i: usize = 0;
    while i < 5
        invariant
            i <= 5,
            ids == slice_views(suggestion_ids@),
            signals_view(signals@) == head + cover_signals_spec(ids).take(i as int),
        decreases 5 - i,
    {
        let id = if i < suggestion_ids.len() {
            suggestion_ids[i].clone()
        } else {
            String::new()
        };
        let ghost before = signals_view(signals@);
        push_signal(&mut signals, cover_signal_name_of(i), SignalValue::Text(id));
        assert(cover_signals_spec(ids).take(i + 1) =~= cover_signals_spec(ids).take(i as int).push(
            cover_signals_spec(ids)[i as int],
        ));
        i = i + 1;
    }
    assert(cover_signals_spec(ids).take(5) =~= cover_signals_spec(ids));
    assert(signals_view(signals@) =~= extraction_signals_spec(
        r,
        ma,
        mb,
        primary_genre_id,
        secondary_genre_id,
        ids,
    ));
    signals
}

/// The value of the first signal called `name`, if any: what a form bound
/// to that signal shows.
pub open spec fn signal_named(signals: Seq<(Seq<char>, SignalView)>, name: Seq<char>) -> Option<
    SignalView,
>
    decreases signals.len(),
{
    if signals.len() == 0 {
        None
    } else if signals[0].0 == name {
        Some(signals[0].1)
    } else {
        signal_named(signals.drop_first(), name)
    }
}

proof fn lemma_signal_named_at(signals: Seq<(Seq<char>, SignalView)>, name: Seq<char>, k: int)
    requires
        0 <= k < signals.len(),
        signals[k].0 == name,
        forall|j: int| 0 <= j < k ==> signals[j].0 != name,
    ensures
        signal_named(signals, name) == Some(signals[k].1),
    decreases k,
{
    if k > 0 {
        assert(signals[0].0 != name);
        lemma_signal_named_at(signals.drop_first(), name, k - 1);
    }
}

/// Every book field that a cover's extraction fills is carried by the signal
/// named after that field: the author's name by `_author-name`, the title by
/// `_book-title`, and so on for the ISBN, description, page count, year,
/// publisher, language and the two genres; a missing field gives the empty
/// text, and a number is written in decimal.
pub proof fn lemma_extraction_signals_carry_their_fields(
    result: ExtractedBook,
    matched_author_id: Seq<char>,
    matched_book_id: Seq<char>,
    primary_genre_id: Option<GenreId>,
    secondary_genre_id: Option<GenreId>,
    suggestion_ids: Seq<Seq<char>>,
)
    ensures
        ({
            let s = extraction_signals_spec(
                result,
                matched_author_id,
                matched_book_id,
                primary_genre_id,
                secondary_genre_id,
                suggestion_ids,
            );
            &&& signal_named(s, "_author-name"@) == Some(
                SignalView::Text(or_empty(opt_view(result.author_name))),
            )
            &&& signal_named(s, "_book-title"@) == Some(SignalView::Text(or_empty(opt_view(result.title))))
            &&& signal_named(s, "_book-isbn"@) == Some(SignalView::Text(or_empty(opt_view(result.isbn))))
            &&& signal_named(s, "_book-description"@) == Some(
                SignalView::Text(or_empty(opt_view(result.description))),
            )
            &&& signal_named(s, "_book-pages"@) == Some(
                SignalView::Text(number_or_empty(opt_i32_int(result.page_count))),
            )
            &&& signal_named(s, "_book-year"@) == Some(
                SignalView::Text(number_or_empty(opt_i32_int(result.year_published))),
            )
            &&& signal_named(s, "_book-publisher"@) == Some(
                SignalView::Text(or_empty(opt_view(result.publisher))),
            )
            &&& signal_named(s, "_book-language"@) == Some(
                SignalView::Text(or_empty(opt_view(result.language))),
            )
            &&& signal_named(s, "_book-primary-genre"@) == Some(
                SignalView::Text(or_empty(opt_view(result.primary_genre))),
            )
            &&& signal_named(s, "_book-secondary-genre"@) == Some(
                SignalView::Text(or_empty(opt_view(result.secondary_genre))),
            )
        }),
{
    let s = extraction_signals_spec(
        result,
        matched_author_id,
        matched_book_id,
        primary_genre_id,
        secondary_genre_id,
        suggestion_ids,
    );
    reveal_strlit("_author-name");
    reveal_strlit("_book-title");
    reveal_strlit("_book-isbn");
    reveal_strlit("_book-description");
    reveal_strlit("_book-pages");
    reveal_strlit("_book-year");
    reveal_strlit("_book-publisher");
    reveal_strlit("_book-language");
    reveal_strlit("_book-primary-genre");
    reveal_strlit("_book-secondary-genre");
    assert("_book-title"@[6] != "_book-pages"@[6]);
    assert("_book-isbn"@[6] != "_book-year"@[6]);
    assert(s[0].0 == "_author-name"@);
    assert(s[1].0 == "_book-title"@);
    assert(s[2].0 == "_book-isbn"@);
    assert(s[3].0 == "_book-description"@);
    assert(s[4].0 == "_book-pages"@);
    assert(s[5].0 == "_book-year"@);
    assert(s[6].0 == "_book-publisher"@);
    assert(s[7].0 == "_book-language"@);
    assert(s[8].0 == "_book-primary-genre"@);
    assert(s[9].0 == "_book-secondary-genre"@);
    lemma_signal_named_at(s, "_author-name"@, 0);
    lemma_signal_named_at(s, "_book-title"@, 1);
    lemma_signal_named_at(s, "_book-isbn"@, 2);
    lemma_signal_named_at(s, "_book-description"@, 3);
    lemma_signal_named_at(s, "_book-pages"@, 4);
    lemma_signal_named_at(s, "_book-year"@, 5);
    lemma_signal_named_at(s, "_book-publisher"@, 6);
    lemma_signal_named_at(s, "_book-language"@, 7);
    lemma_signal_named_at(s, "_book-primary-genre"@, 8);
    lemma_signal_named_at(s, "_book-secondary-genre"@, 9);
}

/// The book a scan was matched to: a non-empty text naming an `i64`.
pub open spec fn matched_book_spec(value: Option<Seq<char>>) -> Option<BookId> {
    match value {
        Some(s) => if s.len() == 0 {
            None
        } else {
            match parse_int_spec(s, i64::MIN as int, i64::MAX as int) {
                Some(n) => Some(BookId(n as i64)),
                None => None,
            }
        },
        None => None,
    }
}

/// The view of an optional reference to a string.
pub open spec fn opt_ref_view(o: Option<&String>) -> Option<Seq<char>> {
    match o {
        Some(s) => Some(s@),
        None => None,
    }
}

pub fn parse_matched_book_id(value: Option<&String>) -> (r: Option<BookId>)
    ensures
        r == matched_book_spec(opt_ref_view(value)),
{
    match value {
        Some(s) => {
            if s.unicode_len() == 0 {
                None
            } else {
                match parse_i64(s.as_str()) {
                    Some(n) => Some(BookId::new(n)),
                    None => None,
                }
            }
        },
        None => None,
    }
}

/// The view of an optional string slice.
pub open spec fn opt_str_view(o: Option<&str>) -> Option<Seq<char>> {
    match o {
        Some(s) => Some(s@),
        None => None,
    }
}

/// The shelf a scan puts its book on: the wishlist only when asked for by
/// exactly "wishlist", the library otherwise.
pub fn parse_shelf(value: Option<&str>) -> (s: Shelf)
    ensures
        s == (if opt_str_view(value) == Some("wishlist"@) {
            Shelf::Wishlist
        } else {
            Shelf::Library
        }),
{
    match value {
        Some(v) => {
            if str_eq(v, "wishlist") {
                Shelf::Wishlist
            } else {
                Shelf::Library
            }
        },
        None => Shelf::Library,
    }
}

/// An optional text trimmed, and `None` when blank.
pub fn normalize_opt(value: Option<String>) -> (r: Option<String>)
    ensures
        opt_view(r) == match opt_view(value) {
            Some(s) => non_blank_spec(s),
            None => None,
        },
{
    match value {
        Some(s) => non_blank(s.as_str()),
        None => None,
    }
}

/// A submitted scan: raw input for extraction and the fields of the form.
#[derive(Debug, Clone)]
pub struct BookScanSubmission {
    pub image: Option<String>,
    pub prompt: Option<String>,
    pub author_name: String,
    pub book_title: String,
    pub book_isbn: Option<String>,
    pub book_description: Option<String>,
    pub book_pages: Option<String>,
    pub book_year: Option<String>,
    pub book_publisher: Option<String>,
    pub book_language: Option<String>,
    pub book_primary_genre_id: Option<i64>,
    pub book_secondary_genre_id: Option<i64>,
    pub book_primary_genre_name: Option<String>,
    pub book_secondary_genre_name: Option<String>,
    pub shelf: Option<String>,
    pub book_club: Option<bool>,
    pub matched_book_id: Option<String>,
    pub scan_image: Option<String>,
    pub selected_cover_id: Option<String>,
}

/// Whether an optional text is present and not empty.
pub open spec fn present(o: Option<Seq<char>>) -> bool {
    match o {
        Some(s) => s.len() > 0,
        None => false,
    }
}

/// Whether a scan brings raw input (an image or a prompt) to extract from.
pub fn has_raw_input(submission: &BookScanSubmission) -> (b: bool)
    ensures
        b == (present(opt_view(submission.image)) || present(opt_view(submission.prompt))),
{
    let image = match &submission.image {
        Some(s) => s.unicode_len() > 0,
        None => false,
    };
    let prompt = match &submission.prompt {
        Some(s) => s.unicode_len() > 0,
        None => false,
    };
    image || prompt
}

/// The scan image to keep: the dedicated field, else the raw image, and
/// nothing when that is empty.
pub fn scan_image_to_keep(scan_image: Option<String>, image: Option<String>) -> (r: Option<String>)
    ensures
        opt_view(r) == {
            let chosen = match opt_view(scan_image) {
                Some(s) => Some(s),
                None => opt_view(image),
            };
            if present(chosen) {
                chosen
            } else {
                None
            }
        },
{
    let chosen = match scan_image {
        Some(s) => Some(s),
        None => image,
    };
    match chosen {
        Some(s) => if s.unicode_len() > 0 {
            Some(s)
        } else {
            None
        },
        None => None,
    }
}

/// The number that an optional text names as an `i32`, if any.
pub open spec fn parsed_i32(o: Option<Seq<char>>) -> Option<i32> {
    match o {
        Some(s) => match parse_int_spec(s, i32::MIN as int, i32::MAX as int) {
            Some(n) => Some(n as i32),
            None => None,
        },
        None => None,
    }
}

fn parse_optional_i32(o: &Option<String>) -> (r: Option<i32>)
    ensures
        r == parsed_i32(opt_view(*o)),
{
    match o {
        Some(s) => parse_i32(s.as_str()),
        None => None,
    }
}

/// An optional text as stored: trimmed, and absent when blank.
pub open spec fn stored_text(o: Option<Seq<char>>) -> Option<Seq<char>> {
    match o {
        Some(s) => non_blank_spec(s),
        None => None,
    }
}

/// The book a scan creates: the title trimmed, the given author in the
/// default role, optional texts trimmed (absent when blank), page count and
/// year parsed when they name numbers, and the chosen genres. Refused when
/// the title is blank.
pub fn new_book_from_scan(submission: &BookScanSubmission, author_id: AuthorId) -> (r: Result<
    NewBook,
    crate::requests::ValidationError,
>)
    ensures
        r is Err <==> trim_spec(submission.book_title@).len() == 0,
        r matches Err(e) ==> e.message@ == "book title is required"@,
        r matches Ok(b) ==> {
            &&& b.title@ == trim_spec(submission.book_title@)
            &&& b.authors@ == seq![BookAuthor { author_id, role: AuthorRole::Author }]
            &&& opt_view(b.isbn) == stored_text(opt_view(submission.book_isbn))
            &&& opt_view(b.description) == stored_text(opt_view(submission.book_description))
            &&& b.page_count == parsed_i32(opt_view(submission.book_pages))
            &&& b.year_published == parsed_i32(opt_view(submission.book_year))
            &&& opt_view(b.publisher) == stored_text(opt_view(submission.book_publisher))
            &&& opt_view(b.language) == stored_text(opt_view(submission.book_language))
            &&& b.primary_genre_id == match submission.book_primary_genre_id {
                Some(id) => Some(GenreId(id)),
                None => None,
            }
            &&& b.secondary_genre_id == match submission.book_secondary_genre_id {
                Some(id) => Some(GenreId(id)),
                None => None,
            }
            &&& b.created_at is None
        },
{
    let title = trim(submission.book_title.as_str());
    if title.unicode_len() == 0 {
        return Err(crate::requests::ValidationError { message: owned("book title is required") });
    }
    let mut authors: Vec<BookAuthor> = Vec::new();
    authors.push(BookAuthor { author_id, role: AuthorRole::default() });
    assert(authors@ =~= seq![BookAuthor { author_id, role: AuthorRole::Author }]);
    Ok(
        NewBook {
            title,
            authors,
            isbn: normalize_opt(submission.book_isbn.clone()),
            description: normalize_opt(submission.book_description.clone()),
            page_count: parse_optional_i32(&submission.book_pages),
            year_published: parse_optional_i32(&submission.book_year),
            publisher: normalize_opt(submission.book_publisher.clone()),
            language: normalize_opt(submission.book_language.clone()),
            primary_genre_id: match submission.book_primary_genre_id {
                Some(id) => Some(GenreId::new(id)),
                None => None,
            },
            secondary_genre_id: match submission.book_secondary_genre_id {
                Some(id) => Some(GenreId::new(id)),
                None => None,
            },
            created_at: None,
        },
    )
}

/// The optional text that replaces a field: the extracted one when present.
pub open spec fn prefer_extracted(extracted: Option<Seq<char>>, current: Option<Seq<char>>) -> Option<
    Seq<char>,
> {
    match extracted {
        Some(s) => Some(s),
        None => current,
    }
}

/// Fills a scan submission from an extraction: every field that the
/// extraction found replaces the submitted one (numbers in decimal), and
/// resolved genres replace the submitted genre ids; the rest is kept.
pub fn apply_extraction(
    submission: &mut BookScanSubmission,
    result: ExtractedBook,
    primary_id: Option<GenreId>,
    secondary_id: Option<GenreId>,
)
    ensures
        final(submission).author_name@ == match opt_view(result.author_name) {
            Some(n) => n,
            None => old(submission).author_name@,
        },
        final(submission).book_title@ == match opt_view(result.title) {
            Some(t) => t,
            None => old(submission).book_title@,
        },
        opt_view(final(submission).book_isbn) == prefer_extracted(
            opt_view(result.isbn),
            opt_view(old(submission).book_isbn),
        ),
        opt_view(final(submission).book_description) == prefer_extracted(
            opt_view(result.description),
            opt_view(old(submission).book_description),
        ),
        opt_view(final(submission).book_pages) == match result.page_count {
            Some(p) => Some(int_decimal(p as int)),
            None => opt_view(old(submission).book_pages),
        },
        opt_view(final(submission).book_year) == match result.year_published {
            Some(y) => Some(int_decimal(y as int)),
            None => opt_view(old(submission).book_year),
        },
        opt_view(final(submission).book_publisher) == prefer_extracted(
            opt_view(result.publisher),
            opt_view(old(submission).book_publisher),
        ),
        opt_view(final(submission).book_language) == prefer_extracted(
            opt_view(result.language),
            opt_view(old(submission).book_language),
        ),
        final(submission).book_primary_genre_id == match primary_id {
            Some(id) => Some(id.0),
            None => old(submission).book_primary_genre_id,
        },
        final(submission).book_secondary_genre_id == match secondary_id {
            Some(id) => Some(id.0),
            None => old(submission).book_secondary_genre_id,
        },
        final(submission).image == old(submission).image,
        final(submission).prompt == old(submission).prompt,
        final(submission).shelf == old(submission).shelf,
        final(submission).book_club == old(submission).book_club,
        final(submission).matched_book_id == old(submission).matched_book_id,
        final(submission).scan_image == old(submission).scan_image,
        final(submission).selected_cover_id == old(submission).selected_cover_id,
        final(submission).book_primary_genre_name == old(submission).book_primary_genre_name,
        final(submission).book_secondary_genre_name == old(submission).book_secondary_genre_name,
{
    if let Some(name) = result.author_name {
        submission.author_name = name;
    }
    if let Some(title) = result.title {
        submission.book_title = title;
    }
    if result.isbn.is_some() {
        submission.book_isbn = result.isbn;
    }
    if result.description.is_some() {
        submission.book_description = result.description;
    }
    if let Some(pages) = result.page_count {
        submission.book_pages = Some(i64_to_string(pages as i64));
    }
    if let Some(year) = result.year_published {
        submission.book_year = Some(i64_to_string(year as i64));
    }
    if result.publisher.is_some() {
        submission.book_publisher = result.publisher;
    }
    if result.language.is_some() {
        submission.book_language = result.language;
    }
    if let Some(id) = primary_id {
        submission.book_primary_genre_id = Some(id.into_inner());
    }
    if let Some(id) = secondary_id {
        submission.book_secondary_genre_id = Some(id.into_inner());
    }
}

/// The name under which an author or genre is looked up: trimmed, and
/// nothing when blank.
pub fn lookup_name(name: Option<&str>) -> (r: Option<String>)
    ensures
        opt_view(r) == match opt_str_view(name) {
            Some(s) => non_blank_spec(s),
            None => None,
        },
{
    match name {
        Some(s) => non_blank(s),
        None => None,
    }
}


/// The cover-suggestion signals of a book's cover search: the five
/// suggestion slots, filled in order with the suggestions found.
pub fn cover_signals(suggestion_ids: &[String]) -> (signals: Vec<(&'static str, SignalValue)>)
    ensures
        signals_view(signals@) == cover_signals_spec(slice_views(suggestion_ids@)),
{
    let ghost ids = slice_views(suggestion_ids@);
    let mut signals: Vec<(&'static str, SignalValue)> = Vec::new();
    let mut i: usize = 0;
    while i < 5
        invariant
            i <= 5,
            ids == slice_views(suggestion_ids@),
            signals_view(signals@) == cover_signals_spec(ids).take(i as int),
        decreases 5 - i,
    {
        let id = if i < suggestion_ids.len() {
            suggestion_ids[i].clone()
        } else {
            String::new()
        };
        push_signal(&mut signals, cover_signal_name_of(i), SignalValue::Text(id));
        assert(cover_signals_spec(ids).take(i + 1) =~= cover_signals_spec(ids).take(i as int).push(
            cover_signals_spec(ids)[i as int],
        ));
        i = i + 1;
    }
    assert(cover_signals_spec(ids).take(5) =~= cover_signals_spec(ids));
    signals
}

/// The signals that report a scanned book: its id, its title and the name
/// of its author.
pub fn scan_success_signals(book_id: BookId, title: String, author_name: String) -> (signals: Vec<
    (&'static str, SignalValue),
>)
    ensures
        signals_view(signals@) == seq![
            ("_book-id"@, SignalView::Text(int_decimal(book_id.0 as int))),
            ("_scan-success"@, SignalView::Text(title@)),
            ("_author-name"@, SignalView::Text(author_name@)),
        ],
{
    let mut signals: Vec<(&'static str, SignalValue)> = Vec::new();
    push_signal(&mut signals, "_book-id", SignalValue::Text(i64_to_string(book_id.into_inner())));
    push_signal(&mut signals, "_scan-success", SignalValue::Text(title));
    push_signal(&mut signals, "_author-name", SignalValue::Text(author_name));
    signals
}

/// The name of a book's first author, empty when it has none.
pub fn first_author_name(authors: &[crate::books::BookAuthorInfo]) -> (s: String)
    ensures
        s@ == (if authors@.len() > 0 {
            authors@[0].author_name@
        } else {
            Seq::empty()
        }),
{
    if authors.len() > 0 {
        authors[0].author_name.clone()
    } else {
        String::new()
    }
}

/// The image a book is given after a scan or an edit.
#[derive(Debug, Clone, PartialEq, Eq)]
pub enum CoverToSave {
    /// Promote the cover suggestion with this id.
    Suggestion(String),
    /// Save the captured photo, if there is one.
    Photo(Option<String>),
}

/// A selected cover suggestion is preferred; without one (or with an empty
/// id) the captured photo is saved.
pub fn cover_to_save(selected_cover_id: Option<String>, photo: Option<String>) -> (c: CoverToSave)
    ensures
        c == match opt_view(selected_cover_id) {
            Some(id) => if id.len() > 0 {
                CoverToSave::Suggestion(selected_cover_id.unwrap())
            } else {
                CoverToSave::Photo(photo)
            },
            None => CoverToSave::Photo(photo),
        },
{
    match selected_cover_id {
        Some(id) => if id.unicode_len() > 0 {
            CoverToSave::Suggestion(id)
        } else {
            CoverToSave::Photo(photo)
        },
        None => CoverToSave::Photo(photo),
    }
}


/// A page count or a year that an extraction found, written into the scan
/// submission in decimal, is read back unchanged when the book is made.
pub proof fn lemma_extracted_number_reads_back(n: i32)
    ensures
        parsed_i32(Some(int_decimal(n as int))) == Some(n),
{
    crate::text::lemma_parse_int_decimal_roundtrip(n as int, i32::MIN as int, i32::MAX as int);
}


/// The author a scan looks up (or creates): the submitted name, trimmed;
/// refused ("author name is required") when nothing is left.
pub fn scan_author(name: &str) -> (r: Result<crate::authors::NewAuthor, crate::requests::ValidationError>)
    ensures
        r is Err <==> trim_spec(name@).len() == 0,
        r matches Err(e) ==> e.message@ == "author name is required"@,
        r matches Ok(a) ==> a.name@ == trim_spec(name@) && a.created_at is None,
{
    let author = crate::authors::NewAuthor { name: owned(name), created_at: None }.normalize();
    if author.name.unicode_len() == 0 {
        return Err(crate::requests::ValidationError { message: owned("author name is required") });
    }
    Ok(author)
}

} // verus!
