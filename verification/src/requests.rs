//! What the web layer decides from a request: list queries, payload kinds,
//! Datastar flags, responses to updates, and small parsing helpers.
use vstd::prelude::*;

use std::collections::HashSet;

use crate::books::UpdateBook;
use crate::listing::{
    DEFAULT_PAGE_SIZE, ListRequest, Page, PageSize, SortDirection, SortKey, limited_spec,
    request_spec,
};
use crate::text::{
    ParseName, ascii_lower, ascii_lower_seq, ascii_upper, concat, eq_ignore_ascii_case,
    non_blank, non_blank_spec, opt_view, owned, parse_i64, parse_int_spec, parse_u32, starts_with,
    to_ascii_lower, to_ascii_upper,
};

verus! {

broadcast use vstd::std_specs::hash::group_hash_axioms;

// ---------------------------------------------------------------------------
// Payloads
// ---------------------------------------------------------------------------

#[derive(Debug, Clone, Copy, PartialEq, Eq, Structural)]
pub enum PayloadSource {
    Json,
    Form,
}

/// A request body decoded from JSON or from a form, with where it came from.
#[derive(Debug)]
pub struct FlexiblePayload<T> {
    inner: T,
    source: PayloadSource,
}

impl<T> FlexiblePayload<T> {
    pub closed spec fn parts(self) -> (T, PayloadSource) {
        (self.inner, self.source)
    }

    pub fn new(inner: T, source: PayloadSource) -> (p: Self)
        ensures
            p.parts() == (inner, source),
    {
        FlexiblePayload { inner, source }
    }

    pub fn into_parts(self) -> (r: (T, PayloadSource))
        ensures
            r == self.parts(),
    {
        (self.inner, self.source)
    }
}

/// How a body is decoded, by its (ASCII lower-cased) content type: JSON for
/// `application/json...`, a form when absent or `application/x-www-form-urlencoded...`,
/// nothing otherwise.
pub open spec fn payload_source_spec(content_type: Seq<char>) -> Option<PayloadSource> {
    let lower = ascii_lower_seq(content_type);
    if "application/json"@.len() <= lower.len() && lower.subrange(0, "application/json"@.len() as int)
        == "application/json"@ {
        Some(PayloadSource::Json)
    } else if lower.len() == 0 || ("application/x-www-form-urlencoded"@.len() <= lower.len()
        && lower.subrange(0, "application/x-www-form-urlencoded"@.len() as int)
        == "application/x-www-form-urlencoded"@) {
        Some(PayloadSource::Form)
    } else {
        None
    }
}

/// `s` with ASCII letters lower-cased.
pub fn ascii_lowercase(s: &str) -> (r: String)
    ensures
        r@ == ascii_lower_seq(s@),
{
    let v = crate::text::chars_of(s);
    let mut out: Vec<char> = Vec::new();
    let mut i: usize = 0;
    while i < v.len()
        invariant
            v@ == s@,
            i <= v@.len(),
            out@ == ascii_lower_seq(s@.take(i as int)),
        decreases v@.len() - i,
    {
        out.push(to_ascii_lower(v[i]));
        proof {
            assert(ascii_lower_seq(s@.take(i + 1)) =~= ascii_lower_seq(s@.take(i as int)).push(
                ascii_lower(s@[i as int]),
            ));
        }
        i = i + 1;
    }
    assert(s@.take(v@.len() as int) =~= s@);
    crate::text::string_from_chars(&out)
}

/// Decides how to decode a body from its content type; `None` when the
/// content type is not supported.
pub fn payload_source_for(content_type: &str) -> (r: Option<PayloadSource>)
    ensures
        r == payload_source_spec(content_type@),
{
    let lower = ascii_lowercase(content_type);
    if starts_with(lower.as_str(), "application/json") {
        Some(PayloadSource::Json)
    } else if lower.unicode_len() == 0 || starts_with(
        lower.as_str(),
        "application/x-www-form-urlencoded",
    ) {
        Some(PayloadSource::Form)
    } else {
        None
    }
}

/// A content type that reads `application/x-www-form-urlencoded` in any ASCII
/// case, followed by anything (such as `;charset=UTF-8`), is decoded as a form.
pub proof fn lemma_form_content_type_with_parameters(content_type: Seq<char>, params: Seq<char>)
    requires
        ascii_lower_seq(content_type) == "application/x-www-form-urlencoded"@ + params,
    ensures
        payload_source_spec(content_type) == Some(PayloadSource::Form),
{
    reveal_strlit("application/x-www-form-urlencoded");
    reveal_strlit("application/json");
    let lower = ascii_lower_seq(content_type);
    let form = "application/x-www-form-urlencoded"@;
    let json = "application/json"@;
    assert(lower[12] == 'x');
    assert(lower.subrange(0, json.len() as int)[12] != json[12]);
    assert(lower.subrange(0, form.len() as int) =~= form);
}

/// A content type that reads `application/json` in any ASCII case, followed
/// by anything, is decoded as JSON.
pub proof fn lemma_json_content_type_with_parameters(content_type: Seq<char>, params: Seq<char>)
    requires
        ascii_lower_seq(content_type) == "application/json"@ + params,
    ensures
        payload_source_spec(content_type) == Some(PayloadSource::Json),
{
    let lower = ascii_lower_seq(content_type);
    assert(lower.subrange(0, "application/json"@.len() as int) =~= "application/json"@);
}

/// The ASCII lower-casing of a text that is already lower-case, followed by
/// any text, is that text followed by the lower-casing of the rest.
proof fn lemma_ascii_lower_of_lowercase_prefix(prefix: Seq<char>, rest: Seq<char>)
    requires
        ascii_lower_seq(prefix) == prefix,
    ensures
        ascii_lower_seq(prefix + rest) == prefix + ascii_lower_seq(rest),
{
    assert(ascii_lower_seq(prefix + rest) =~= ascii_lower_seq(prefix) + ascii_lower_seq(rest));
}

/// `application/x-www-form-urlencoded` followed by any parameters is decoded
/// as a form, and `application/json` followed by any parameters as JSON.
pub proof fn lemma_content_type_parameters_kept_apart(params: Seq<char>)
    ensures
        payload_source_spec("application/x-www-form-urlencoded"@ + params) == Some(PayloadSource::Form),
        payload_source_spec("application/json"@ + params) == Some(PayloadSource::Json),
        payload_source_spec(Seq::<char>::empty()) == Some(PayloadSource::Form),
{
    reveal_strlit("application/x-www-form-urlencoded");
    reveal_strlit("application/json");
    let form = "application/x-www-form-urlencoded"@;
    let json = "application/json"@;
    assert(ascii_lower_seq(form) =~= form);
    assert(ascii_lower_seq(json) =~= json);
    lemma_ascii_lower_of_lowercase_prefix(form, params);
    lemma_ascii_lower_of_lowercase_prefix(json, params);
    lemma_form_content_type_with_parameters(form + params, ascii_lower_seq(params));
    lemma_json_content_type_with_parameters(json + params, ascii_lower_seq(params));
    assert(ascii_lower_seq(Seq::<char>::empty()) =~= Seq::<char>::empty());
}

/// Whether the value of a `datastar-request` header marks a Datastar
/// request: it must be `true`, in any ASCII case.
pub open spec fn datastar_flag_spec(value: Option<Seq<char>>) -> bool {
    match value {
        Some(v) => ascii_lower_seq(v) == ascii_lower_seq("true"@),
        None => false,
    }
}

/// The view of an optional string slice.
pub open spec fn opt_str_view(o: Option<&str>) -> Option<Seq<char>> {
    match o {
        Some(s) => Some(s@),
        None => None,
    }
}

pub fn is_datastar_flag(value: Option<&str>) -> (b: bool)
    ensures
        b == datastar_flag_spec(opt_str_view(value)),
{
    match value {
        Some(v) => eq_ignore_ascii_case(v, "true"),
        None => false,
    }
}

/// How an update handler answers.
#[derive(Debug, Clone, Copy, PartialEq, Eq, Structural)]
pub enum UpdateResponse {
    /// The refreshed list fragment, for a Datastar request from the list page.
    ListFragment,
    /// A Datastar script that sends the browser to the detail page.
    RedirectScript,
    /// An HTTP redirect to the detail page.
    Redirect,
    /// The updated entity as JSON.
    Json,
}

/// Datastar requests get a redirect script, form posts a redirect, JSON
/// requests the JSON body.
pub fn update_response(is_datastar: bool, source: PayloadSource) -> (r: UpdateResponse)
    ensures
        r == (if is_datastar {
            UpdateResponse::RedirectScript
        } else if source == PayloadSource::Form {
            UpdateResponse::Redirect
        } else {
            UpdateResponse::Json
        }),
{
    if is_datastar {
        UpdateResponse::RedirectScript
    } else if source == PayloadSource::Form {
        UpdateResponse::Redirect
    } else {
        UpdateResponse::Json
    }
}

/// How an update from a list page is answered: Datastar requests get the
/// list fragment when they come from the list page (the referer names it
/// with `list_marker`) and a redirect script otherwise; form posts get a
/// redirect, JSON requests the updated entity.
pub open spec fn list_update_response_spec(
    is_datastar: bool,
    referer: Option<Seq<char>>,
    list_marker: Seq<char>,
    source: PayloadSource,
) -> UpdateResponse {
    if is_datastar {
        if (match referer {
            Some(r) => contains_text(r, list_marker),
            None => false,
        }) {
            UpdateResponse::ListFragment
        } else {
            UpdateResponse::RedirectScript
        }
    } else if source == PayloadSource::Form {
        UpdateResponse::Redirect
    } else {
        UpdateResponse::Json
    }
}

pub fn list_update_response(
    is_datastar: bool,
    referer: Option<&str>,
    list_marker: &str,
    source: PayloadSource,
) -> (r: UpdateResponse)
    ensures
        r == list_update_response_spec(is_datastar, opt_str_view(referer), list_marker@, source),
{
    if is_datastar {
        let from_list = match referer {
            Some(r) => contains(r, list_marker),
            None => false,
        };
        if from_list {
            UpdateResponse::ListFragment
        } else {
            UpdateResponse::RedirectScript
        }
    } else if source == PayloadSource::Form {
        UpdateResponse::Redirect
    } else {
        UpdateResponse::Json
    }
}

// ---------------------------------------------------------------------------
// Updates
// ---------------------------------------------------------------------------

/// An update that can report whether any field was set.
pub trait HasChanges {
    spec fn changes_something(&self) -> bool;

    fn has_changes(&self) -> (b: bool)
        ensures
            b == self.changes_something(),
    ;
}

impl HasChanges for UpdateBook {
    open spec fn changes_something(&self) -> bool {
        self.title is Some || self.isbn is Some || self.description is Some
            || self.page_count is Some || self.year_published is Some || self.publisher is Some
            || self.language is Some || self.primary_genre_id is Some
            || self.secondary_genre_id is Some || self.authors is Some || self.created_at is Some
    }

    fn has_changes(&self) -> (b: bool) {
        UpdateBook::has_changes(self)
    }
}

impl HasChanges for crate::authors::UpdateAuthor {
    open spec fn changes_something(&self) -> bool {
        self.name is Some || self.created_at is Some
    }

    fn has_changes(&self) -> (b: bool) {
        self.name.is_some() || self.created_at.is_some()
    }
}

impl HasChanges for crate::genres::UpdateGenre {
    open spec fn changes_something(&self) -> bool {
        self.name is Some || self.created_at is Some
    }

    fn has_changes(&self) -> (b: bool) {
        self.name.is_some() || self.created_at.is_some()
    }
}

impl HasChanges for crate::readings::UpdateReading {
    open spec fn changes_something(&self) -> bool {
        self.book_id is Some || self.status is Some || self.format is Some
            || self.started_at is Some || self.finished_at is Some
            || self.rating_half_stars is Some || self.quick_reviews is Some
            || self.created_at is Some
    }

    fn has_changes(&self) -> (b: bool) {
        self.book_id.is_some() || self.status.is_some() || self.format.is_some()
            || self.started_at.is_some() || self.finished_at.is_some()
            || self.rating_half_stars.is_some() || self.quick_reviews.is_some()
            || self.created_at.is_some()
    }
}

/// A request refused as invalid, with the reason shown to the client.
#[derive(Debug, Clone)]
pub struct ValidationError {
    pub message: String,
}

/// Refuses an update that changes no field and brings no image.
pub fn validate_update<T: HasChanges>(update: &T, image: Option<&String>) -> (r: Result<
    (),
    ValidationError,
>)
    ensures
        r is Err <==> (!update.changes_something() && image is None),
        r matches Err(e) ==> e.message@ == "no changes provided"@,
{
    if !update.has_changes() && image.is_none() {
        return Err(ValidationError { message: owned("no changes provided") });
    }
    Ok(())
}

// ---------------------------------------------------------------------------
// List queries
// ---------------------------------------------------------------------------

/// The page size a query asked for: a number or a text such as "all".
#[derive(Debug, Clone)]
pub enum PageSizeParam {
    Number(u32),
    Text(String),
}

/// The list parameters of a query string.
#[derive(Debug, Clone)]
pub struct ListQuery {
    pub page: Option<u32>,
    pub page_size: Option<PageSizeParam>,
    pub sort_key: Option<String>,
    pub sort_dir: Option<String>,
    pub q: Option<String>,
}

/// The page size that a text names: "all" in any ASCII case, a `u32`
/// number (0 meaning all), or the default size for anything else.
pub open spec fn page_size_text_spec(value: Seq<char>) -> PageSize {
    if ascii_lower_seq(value) == ascii_lower_seq("all"@) {
        PageSize::All
    } else {
        match parse_int_spec(value, 0, u32::MAX as int) {
            Some(n) => limited_spec(n as u32),
            None => limited_spec(DEFAULT_PAGE_SIZE),
        }
    }
}

pub fn page_size_from_text(value: &str) -> (ps: PageSize)
    ensures
        ps == page_size_text_spec(value@),
{
    if eq_ignore_ascii_case(value, "all") {
        PageSize::All
    } else {
        match parse_u32(value) {
            Some(parsed) => PageSize::limited(parsed),
            None => PageSize::limited(DEFAULT_PAGE_SIZE),
        }
    }
}

/// The query value of a page size reads back as that page size (for the
/// page sizes a request holds: "all" or a positive limit).
pub proof fn lemma_page_size_query_roundtrip(ps: PageSize)
    requires
        ps != PageSize::Limited(0),
    ensures
        page_size_text_spec(crate::listing::page_size_query_text(ps)) == ps,
{
    reveal_strlit("all");
    match ps {
        PageSize::All => {
            assert(ascii_lower_seq("all"@) =~= "all"@);
        },
        PageSize::Limited(n) => {
            let d = crate::text::decimal(n as nat);
            crate::text::lemma_parse_decimal_roundtrip(n as nat, u32::MAX as int);
            crate::text::lemma_decimal_digits(n as nat);
            assert(crate::text::is_digit(d[0]));
            assert(ascii_lower_seq(d)[0] == d[0]);
            assert(ascii_lower_seq("all"@)[0] == 'a');
            assert(ascii_lower_seq(d) != ascii_lower_seq("all"@));
        },
    }
}

/// The direction that a text names, in any ASCII case.
pub open spec fn direction_text_spec(value: Seq<char>) -> Option<SortDirection> {
    if ascii_lower_seq(value) == "asc"@ {
        Some(SortDirection::Asc)
    } else if ascii_lower_seq(value) == "desc"@ {
        Some(SortDirection::Desc)
    } else {
        None
    }
}

pub fn parse_direction(value: &str) -> (d: Option<SortDirection>)
    ensures
        d == direction_text_spec(value@),
{
    if crate::text::lowered_is(value, "asc") {
        Some(SortDirection::Asc)
    } else if crate::text::lowered_is(value, "desc") {
        Some(SortDirection::Desc)
    } else {
        None
    }
}

/// The name of a direction reads back as that direction.
pub proof fn lemma_direction_query_roundtrip(d: SortDirection)
    ensures
        direction_text_spec(crate::listing::direction_query_text(d)) == Some(d),
{
    reveal_strlit("asc");
    reveal_strlit("desc");
    assert(ascii_lower_seq("asc"@) =~= "asc"@);
    assert(ascii_lower_seq("desc"@) =~= "desc"@);
}

/// The search text of a query: trimmed, and absent when blank.
pub open spec fn search_spec(q: Option<Seq<char>>) -> Option<Seq<char>> {
    match q {
        Some(s) => non_blank_spec(s),
        None => None,
    }
}

/// The page size a query asks for, with `default_page_size` (at least 1)
/// when it names none.
pub open spec fn query_page_size_spec(p: Option<PageSizeParam>, default_page_size: u32) -> PageSize {
    match p {
        Some(PageSizeParam::Number(value)) => limited_spec(value),
        Some(PageSizeParam::Text(text)) => page_size_text_spec(text@),
        None => limited_spec(
            if default_page_size >= 1 {
                default_page_size
            } else {
                1
            },
        ),
    }
}

/// The sort key a query names, or the default key.
pub open spec fn query_sort_key_spec<K: SortKey>(sort_key: Option<Seq<char>>) -> K {
    match sort_key {
        Some(s) => match K::parse_query(s) {
            Some(k) => k,
            None => K::default_key(),
        },
        None => K::default_key(),
    }
}

/// The direction a query names, or the default direction of the key.
pub open spec fn query_direction_spec<K: SortKey>(sort_dir: Option<Seq<char>>, key: K) -> SortDirection {
    match sort_dir {
        Some(d) => match direction_text_spec(d) {
            Some(x) => x,
            None => key.default_direction_of(),
        },
        None => key.default_direction_of(),
    }
}

/// The request and search text that a query asks for.
pub open spec fn query_request_spec<K: SortKey>(q: ListQuery, default_page_size: u32) -> (
    ListRequest<K>,
    Option<Seq<char>>,
) {
    let key: K = query_sort_key_spec(opt_view(q.sort_key));
    (
        request_spec(
            match q.page {
                Some(p) => p,
                None => 1,
            },
            query_page_size_spec(q.page_size, default_page_size),
            key,
            query_direction_spec(opt_view(q.sort_dir), key),
        ),
        search_spec(opt_view(q.q)),
    )
}

/// A list link reads back to the request it was made from: a query whose
/// page is the request's page and whose page size, sort key and direction
/// are the query texts of the request's (`to_query_value`, `query_value`,
/// `as_str`) gives that request again, for a well-formed request whose key
/// type reads its own query names back.
pub proof fn lemma_list_link_reads_back<K: SortKey>(
    r: ListRequest<K>,
    q: ListQuery,
    default_page_size: u32,
)
    requires
        r.well_formed(),
        K::parse_query(r.sort_key.query_text()) == Some(r.sort_key),
        q.page == Some(r.page),
        q.page_size matches Some(PageSizeParam::Text(t)) && t@ == crate::listing::page_size_query_text(
            r.page_size,
        ),
        opt_view(q.sort_key) == Some(r.sort_key.query_text()),
        opt_view(q.sort_dir) == Some(crate::listing::direction_query_text(r.sort_direction)),
    ensures
        query_request_spec::<K>(q, default_page_size).0 == r,
{
    lemma_page_size_query_roundtrip(r.page_size);
    lemma_direction_query_roundtrip(r.sort_direction);
}

impl ListQuery {
    /// The search text as typed, or the empty text.
    pub fn search_value(&self) -> (s: String)
        ensures
            s@ == match self.q {
                Some(q) => q@,
                None => Seq::<char>::empty(),
            },
    {
        match &self.q {
            Some(q) => q.clone(),
            None => String::new(),
        }
    }

    pub fn into_request_and_search<K: SortKey>(self) -> (r: (ListRequest<K>, Option<String>))
        ensures
            (r.0, opt_view(r.1)) == query_request_spec::<K>(self, DEFAULT_PAGE_SIZE),
    {
        self.into_request_and_search_with_default::<K>(DEFAULT_PAGE_SIZE)
    }

    pub fn into_request_and_search_with_default<K: SortKey>(self, default_page_size: u32) -> (r: (
        ListRequest<K>,
        Option<String>,
    ))
        ensures
            (r.0, opt_view(r.1)) == query_request_spec::<K>(self, default_page_size),
    {
        let ListQuery { page, page_size, sort_key, sort_dir, q } = self;
        let search = match q {
            Some(s) => non_blank(s.as_str()),
            None => None,
        };
        let page = match page {
            Some(p) => p,
            None => 1,
        };
        let page_size = match page_size {
            Some(PageSizeParam::Number(value)) => PageSize::limited(value),
            Some(PageSizeParam::Text(text)) => page_size_from_text(text.as_str()),
            None => PageSize::limited(
                if default_page_size >= 1 {
                    default_page_size
                } else {
                    1
                },
            ),
        };
        let sk: K = match &sort_key {
            Some(s) => match K::from_query(s.as_str()) {
                Some(k) => k,
                None => K::default(),
            },
            None => K::default(),
        };
        let sd = match &sort_dir {
            Some(d) => match parse_direction(d.as_str()) {
                Some(x) => x,
                None => sk.default_direction(),
            },
            None => sk.default_direction(),
        };
        (ListRequest::new(page, page_size, sk, sd), search)
    }
}

/// The request that a listing page was actually served with: the page and
/// page size of the result, the key and direction of the request.
pub open spec fn normalize_request_spec<K: SortKey, T>(request: ListRequest<K>, page: Page<T>) -> ListRequest<K> {
    request_spec(
        page.page,
        if page.showing_all {
            PageSize::All
        } else {
            limited_spec(page.page_size)
        },
        request.sort_key,
        request.sort_direction,
    )
}

pub fn normalize_request<K: SortKey, T>(request: ListRequest<K>, page: &Page<T>) -> (r: ListRequest<K>)
    ensures
        r == normalize_request_spec(request, *page),
{
    let page_size = if page.showing_all {
        PageSize::All
    } else {
        PageSize::limited(page.page_size)
    };
    ListRequest::new(page.page, page_size, request.sort_key(), request.sort_direction())
}

/// A request for the first page of one item, in a key's defaults; its
/// result's total counts the entities.
pub fn count_request<K: SortKey>() -> (r: ListRequest<K>)
    ensures
        r == request_spec(1, PageSize::Limited(1), K::default_key(), K::default_key().default_direction_of()),
{
    let key = K::default();
    ListRequest::new(1, PageSize::limited(1), key, key.default_direction())
}

/// A request for everything, in a key's default order: what a repository's
/// `list_all` asks for.
pub fn list_all_request<K: SortKey>() -> (r: ListRequest<K>)
    ensures
        r == request_spec(1, PageSize::All, K::default_key(), K::default_key().default_direction_of()),
{
    let key = K::default();
    ListRequest::show_all(key, key.default_direction())
}

// ---------------------------------------------------------------------------
// Small parsing helpers
// ---------------------------------------------------------------------------

/// An optional vocabulary value: absent for a missing or empty text, and for
/// a text that names nothing.
pub open spec fn optional_name_spec<T: ParseName>(value: Option<Seq<char>>) -> Option<T> {
    match value {
        Some(s) => if s.len() == 0 {
            None
        } else {
            T::name_parse(s)
        },
        None => None,
    }
}

/// Parse an optional enum from a string, returning `None` for empty strings.
pub fn parse_optional_enum<T: ParseName>(value: Option<String>) -> (r: Option<T>)
    ensures
        r == optional_name_spec::<T>(opt_view(value)),
{
    match value {
        Some(s) => {
            if s.unicode_len() == 0 {
                None
            } else {
                T::parse_name(s.as_str())
            }
        },
        None => None,
    }
}

/// A signal name in camelCase: each `-` is dropped and the character after
/// it upper-cased (ASCII).
pub open spec fn kebab_to_camel_spec(s: Seq<char>, cap_next: bool) -> Seq<char>
    decreases s.len(),
{
    if s.len() == 0 {
        Seq::empty()
    } else if s[0] == '-' {
        kebab_to_camel_spec(s.drop_first(), true)
    } else if cap_next {
        seq![ascii_upper(s[0])] + kebab_to_camel_spec(s.drop_first(), false)
    } else {
        seq![s[0]] + kebab_to_camel_spec(s.drop_first(), false)
    }
}

proof fn lemma_kebab_step(s: Seq<char>, i: int, cap: bool)
    requires
        0 <= i < s.len(),
    ensures
        kebab_to_camel_spec(s.subrange(i, s.len() as int), cap) == if s[i] == '-' {
            kebab_to_camel_spec(s.subrange(i + 1, s.len() as int), true)
        } else if cap {
            seq![ascii_upper(s[i])] + kebab_to_camel_spec(s.subrange(i + 1, s.len() as int), false)
        } else {
            seq![s[i]] + kebab_to_camel_spec(s.subrange(i + 1, s.len() as int), false)
        },
{
    assert(s.subrange(i, s.len() as int).drop_first() =~= s.subrange(i + 1, s.len() as int));
}

/// Converts a kebab-case signal name (`_roaster-name`) to camelCase
/// (`_roasterName`).
pub fn kebab_to_camel(s: &str) -> (r: String)
    ensures
        r@ == kebab_to_camel_spec(s@, false),
{
    let v = crate::text::chars_of(s);
    let n = v.len();
    let mut out: Vec<char> = Vec::new();
    let mut cap_next = false;
    let mut i: usize = 0;
    assert(s@.subrange(0, n as int) =~= s@);
    while i < n
        invariant
            v@ == s@,
            n == s@.len(),
            i <= n,
            out@ + kebab_to_camel_spec(s@.subrange(i as int, n as int), cap_next)
                == kebab_to_camel_spec(s@, false),
        decreases n - i,
    {
        let c = v[i];
        proof {
            lemma_kebab_step(s@, i as int, cap_next);
        }
        if c == '-' {
            cap_next = true;
        } else if cap_next {
            let ghost before = out@;
            out.push(to_ascii_upper(c));
            assert(out@ =~= before + seq![ascii_upper(c)]);
            cap_next = false;
        } else {
            let ghost before = out@;
            out.push(c);
            assert(out@ =~= before + seq![c]);
        }
        i = i + 1;
    }
    assert(s@.subrange(n as int, n as int) =~= Seq::<char>::empty());
    assert(out@ =~= kebab_to_camel_spec(s@, false));
    crate::text::string_from_chars(&out)
}

/// No signal name comes out of the conversion with a hyphen.
proof fn lemma_kebab_to_camel_has_no_hyphen(s: Seq<char>, cap: bool)
    ensures
        !kebab_to_camel_spec(s, cap).contains('-'),
    decreases s.len(),
{
    if s.len() > 0 {
        lemma_kebab_to_camel_has_no_hyphen(s.drop_first(), true);
        lemma_kebab_to_camel_has_no_hyphen(s.drop_first(), false);
        let r = kebab_to_camel_spec(s, cap);
        if s[0] != '-' {
            let head = if cap {
                ascii_upper(s[0])
            } else {
                s[0]
            };
            let tail = kebab_to_camel_spec(s.drop_first(), false);
            assert(r == seq![head] + tail);
            assert(head != '-');
            if r.contains('-') {
                let i = choose|i: int| 0 <= i < r.len() && r[i] == '-';
                if i > 0 {
                    assert(tail[i - 1] == '-');
                }
            }
        }
    }
}

/// A name without hyphens is left as it is.
proof fn lemma_kebab_to_camel_keeps_camel(s: Seq<char>)
    requires
        !s.contains('-'),
    ensures
        kebab_to_camel_spec(s, false) == s,
    decreases s.len(),
{
    if s.len() > 0 {
        assert(s[0] != '-');
        assert(!s.drop_first().contains('-')) by {
            if s.drop_first().contains('-') {
                let i = choose|i: int| 0 <= i < s.drop_first().len() && s.drop_first()[i] == '-';
                assert(s[i + 1] == '-');
            }
        }
        lemma_kebab_to_camel_keeps_camel(s.drop_first());
        assert(seq![s[0]] + s.drop_first() =~= s);
    }
}

/// Converting a signal name that is already in camelCase changes nothing:
/// names without hyphens are kept, and converting twice is converting once.
pub proof fn lemma_kebab_to_camel_idempotent(s: Seq<char>)
    ensures
        !s.contains('-') ==> kebab_to_camel_spec(s, false) == s,
        kebab_to_camel_spec(kebab_to_camel_spec(s, false), false) == kebab_to_camel_spec(s, false),
{
    if !s.contains('-') {
        lemma_kebab_to_camel_keeps_camel(s);
    }
    lemma_kebab_to_camel_has_no_hyphen(s, false);
    lemma_kebab_to_camel_keeps_camel(kebab_to_camel_spec(s, false));
}

/// The thumbnail path of a book's cover.
pub open spec fn thumbnail_path(book_id: Seq<char>) -> Seq<char> {
    "/api/v1/book/"@ + book_id + "/thumbnail"@
}

/// Sets the thumbnail of a book view when its id parses and the book has a
/// cover image; leaves it unchanged otherwise.
pub fn enrich_thumbnail(
    book_id: &str,
    thumbnail_url: &mut Option<String>,
    books_with_images: &HashSet<i64>,
)
    ensures
        match parse_int_spec(book_id@, i64::MIN as int, i64::MAX as int) {
            Some(id) => if books_with_images@.contains(id as i64) {
                opt_view(*final(thumbnail_url)) == Some(thumbnail_path(book_id@))
            } else {
                *final(thumbnail_url) == *old(thumbnail_url)
            },
            None => *final(thumbnail_url) == *old(thumbnail_url),
        },
{
    if let Some(id) = parse_i64(book_id) {
        if books_with_images.contains(&id) {
            let mut url = concat("/api/v1/book/", book_id);
            url.append("/thumbnail");
            *thumbnail_url = Some(url);
        }
    }
}

// ---------------------------------------------------------------------------
// Responses to creations
// ---------------------------------------------------------------------------

/// Whether `needle` occurs in `s`.
pub open spec fn contains_text(s: Seq<char>, needle: Seq<char>) -> bool {
    exists|i: int| 0 <= i && i + needle.len() <= s.len() && #[trigger] s.subrange(i, i + needle.len()) == needle
}

/// Whether `needle` occurs in `s`.
pub fn contains(s: &str, needle: &str) -> (b: bool)
    ensures
        b == contains_text(s@, needle@),
{
    let v = crate::text::chars_of(s);
    let w = crate::text::chars_of(needle);
    let n = v.len();
    let m = w.len();
    if m > n {
        return false;
    }
    let mut i: usize = 0;
    while i <= n - m
        invariant
            v@ == s@,
            w@ == needle@,
            n == v@.len(),
            m == w@.len(),
            m <= n,
            i <= n - m + 1,
            forall|k: int| 0 <= k < i ==> #[trigger] s@.subrange(k, k + m) != needle@,
        decreases n - m + 1 - i,
    {
        let mut j: usize = 0;
        let mut same = true;
        while j < m
            invariant
                v@ == s@,
                w@ == needle@,
                n == v@.len(),
                m == w@.len(),
                i + m <= n,
                j <= m,
                same == forall|k: int| 0 <= k < j ==> s@[i + k] == needle@[k],
            decreases m - j,
        {
            if v[i + j] != w[j] {
                same = false;
            }
            j = j + 1;
        }
        if same {
            assert(s@.subrange(i as int, i + m) =~= needle@);
            return true;
        }
        proof {
            let k0 = choose|k: int| 0 <= k < m && s@[i + k] != needle@[k];
            assert(s@.subrange(i as int, i + m)[k0] != needle@[k0]);
        }
        i = i + 1;
    }
    false
}

/// How a creation handler answers.
#[derive(Debug, Clone, Copy, PartialEq, Eq, Structural)]
pub enum CreateResponse {
    /// The refreshed list fragment, for a Datastar request from the list page.
    ListFragment,
    /// A Datastar script that sends the browser to the detail page.
    RedirectScript,
    /// An HTTP redirect to the detail page.
    Redirect,
    /// `201 Created` with the new entity as JSON.
    Created,
}

/// Datastar requests get the list fragment when they come from the list
/// page (the referer names it with `list_marker`) and a redirect script
/// otherwise; form posts get a redirect, JSON requests the created entity.
pub open spec fn create_response_spec(
    is_datastar: bool,
    referer: Option<Seq<char>>,
    list_marker: Seq<char>,
    source: PayloadSource,
) -> CreateResponse {
    if is_datastar {
        if (match referer {
            Some(r) => contains_text(r, list_marker),
            None => false,
        }) {
            CreateResponse::ListFragment
        } else {
            CreateResponse::RedirectScript
        }
    } else if source == PayloadSource::Form {
        CreateResponse::Redirect
    } else {
        CreateResponse::Created
    }
}

pub fn create_response(
    is_datastar: bool,
    referer: Option<&str>,
    list_marker: &str,
    source: PayloadSource,
) -> (r: CreateResponse)
    ensures
        r == create_response_spec(is_datastar, opt_str_view(referer), list_marker@, source),
{
    if is_datastar {
        let from_list = match referer {
            Some(r) => contains(r, list_marker),
            None => false,
        };
        if from_list {
            CreateResponse::ListFragment
        } else {
            CreateResponse::RedirectScript
        }
    } else if source == PayloadSource::Form {
        CreateResponse::Redirect
    } else {
        CreateResponse::Created
    }
}

/// How a deletion handler answers.
#[derive(Debug, Clone, Copy, PartialEq, Eq, Structural)]
pub enum DeleteResponse {
    /// The refreshed list fragment, for a Datastar request from the list page.
    ListFragment,
    /// A Datastar script that sends the browser to the list page.
    RedirectScript,
    /// `204 No Content`.
    NoContent,
}

/// Datastar requests get the list fragment when they come from the list
/// page (the referer names it with `list_marker`) and a redirect to the list
/// otherwise; other requests get no content.
pub open spec fn delete_response_spec(
    is_datastar: bool,
    referer: Option<Seq<char>>,
    list_marker: Seq<char>,
) -> DeleteResponse {
    if is_datastar {
        if (match referer {
            Some(r) => contains_text(r, list_marker),
            None => false,
        }) {
            DeleteResponse::ListFragment
        } else {
            DeleteResponse::RedirectScript
        }
    } else {
        DeleteResponse::NoContent
    }
}

pub fn delete_response(is_datastar: bool, referer: Option<&str>, list_marker: &str) -> (r:
    DeleteResponse)
    ensures
        r == delete_response_spec(is_datastar, opt_str_view(referer), list_marker@),
{
    if is_datastar {
        let from_list = match referer {
            Some(r) => contains(r, list_marker),
            None => false,
        };
        if from_list {
            DeleteResponse::ListFragment
        } else {
            DeleteResponse::RedirectScript
        }
    } else {
        DeleteResponse::NoContent
    }
}

/// The path of an entity's detail page: `/{collection}/{id}`.
pub open spec fn detail_path(collection: Seq<char>, id: int) -> Seq<char> {
    "/"@ + collection + "/"@ + crate::text::int_decimal(id)
}

pub fn detail_url(collection: &str, id: i64) -> (s: String)
    ensures
        s@ == detail_path(collection@, id as int),
{
    let mut s = concat("/", collection);
    s.append("/");
    crate::text::push_i64(&mut s, id);
    s
}

/// The entity type the data page shows when the query names none.
pub fn default_data_type() -> (s: String)
    ensures
        s@ == "library"@,
{
    owned("library")
}

/// The entity type the add page shows when the query names none.
pub fn default_add_type() -> (s: String)
    ensures
        s@ == "author"@,
{
    owned("author")
}

/// A shelving request for a book id that is not positive is refused.
pub fn validate_book_id(book_id: crate::ids::BookId) -> (r: Result<(), ValidationError>)
    ensures
        r is Err <==> book_id.0 <= 0,
        r matches Err(e) ==> e.message@ == "invalid book id"@,
{
    if book_id.into_inner() <= 0 {
        return Err(ValidationError { message: owned("invalid book id") });
    }
    Ok(())
}

// ---------------------------------------------------------------------------
// Home page
// ---------------------------------------------------------------------------

/// The currently-reading list of the home page: the ten newest readings.
pub fn home_reading_request() -> (r: ListRequest<crate::readings::ReadingSortKey>)
    ensures
        r == request_spec(
            1,
            PageSize::Limited(10),
            crate::readings::ReadingSortKey::CreatedAt,
            SortDirection::Desc,
        ),
{
    ListRequest::new(
        1,
        PageSize::limited(10),
        crate::readings::ReadingSortKey::CreatedAt,
        SortDirection::Desc,
    )
}

/// The recent-activity list of the home page: the five latest events.
pub fn home_events_request() -> (r: ListRequest<crate::timeline::TimelineSortKey>)
    ensures
        r == request_spec(
            1,
            PageSize::Limited(5),
            crate::timeline::TimelineSortKey::OccurredAt,
            SortDirection::Desc,
        ),
{
    let key = <crate::timeline::TimelineSortKey as SortKey>::default();
    ListRequest::new(1, PageSize::limited(5), key, key.default_direction())
}

/// The shelf lists of the home page (recently added, wishlist): the ten
/// newest books on the shelf.
pub fn home_shelf_request() -> (r: ListRequest<crate::user_books::UserBookSortKey>)
    ensures
        r == request_spec(
            1,
            PageSize::Limited(10),
            crate::user_books::UserBookSortKey::CreatedAt,
            SortDirection::Desc,
        ),
{
    ListRequest::new(
        1,
        PageSize::limited(10),
        crate::user_books::UserBookSortKey::CreatedAt,
        SortDirection::Desc,
    )
}

/// The empty first page shown to visitors who are not signed in.
pub fn empty_home_page<T>() -> (p: Page<T>)
    ensures
        p.items@.len() == 0,
        p.page == 1,
        p.page_size == 10,
        p.total == 0,
        !p.showing_all,
{
    Page::new(Vec::new(), 1, 10, 0, false)
}

/// Query parameters of the reading list.
#[derive(Debug, Clone, Copy)]
pub struct ReadingsQuery {
    pub book_id: Option<crate::ids::BookId>,
}

impl ReadingsQuery {
    /// The readings a query lists: those of the named book, or all.
    pub fn filter(&self) -> (f: crate::readings::ReadingFilter)
        ensures
            f == (crate::readings::ReadingFilter {
                user_id: None,
                status: None,
                book_id: self.book_id,
            }),
    {
        match self.book_id {
            Some(book_id) => crate::readings::ReadingFilter::for_book(book_id),
            None => crate::readings::ReadingFilter::all(),
        }
    }
}

/// Query parameters of the login page.
#[derive(Debug, Clone)]
pub struct LoginQuery {
    pub cli_callback: Option<String>,
}

impl LoginQuery {
    /// A signed-in user who opens the login page is sent home, unless the
    /// page was opened for a command-line client, which needs the user to
    /// sign in with a passkey to receive its token.
    pub fn redirects_home(&self, is_authenticated: bool) -> (b: bool)
        ensures
            b == (self.cli_callback is None && is_authenticated),
    {
        self.cli_callback.is_none() && is_authenticated
    }
}

} // verus!
