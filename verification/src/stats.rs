//! Statistics shown on the home and stats pages: the year filter, year tabs,
//! stat cards, the activity chart data and number formatting.
use vstd::prelude::*;

use rand::seq::SliceRandom;

use crate::formatting::EM_DASH;
use crate::text::{
    decimal, digit_char, i64_to_string, int_decimal, join_spec, owned, parse_i32, parse_int_spec,
    push_i64, push_u64, str_eq, u64_to_string,
};

verus! {

/// Summary statistics for books: genres, authors, page counts, publication years.
#[derive(Debug, Clone)]
pub struct BookSummaryStats {
    pub total_books: u64,
    pub total_authors: u64,
    pub unique_genres: u64,
    pub top_genre: Option<String>,
    pub top_author: Option<String>,
    /// Author with the highest total sum of star ratings.
    pub most_rated_author: Option<String>,
    /// Genre with the highest total sum of star ratings.
    pub most_rated_genre: Option<String>,
    pub genre_counts: Vec<(String, u64)>,
    pub max_genre_count: u64,
    /// Page count distribution buckets (e.g. "< 200", "200 – 350", "350 – 500", "500+").
    pub page_count_distribution: Vec<(String, u64)>,
    /// Publication year by decade (e.g. "1990s", "2000s").
    pub year_published_distribution: Vec<(String, u64)>,
    pub max_year_published_count: u64,
    /// Top authors ranked by completed readings.
    pub top_authors: Vec<(String, u64)>,
    pub max_top_author_count: u64,
    /// Longest book by page count: (title, `page_count`).
    pub longest_book: Option<(String, i32)>,
    /// Shortest book by page count: (title, `page_count`).
    pub shortest_book: Option<(String, i32)>,
}

// ---------------------------------------------------------------------------
// Year filter and tabs
// ---------------------------------------------------------------------------

/// The year a stats query asks for: none for "all" or when absent, the year
/// when the text names one in `2000..=2100`, none otherwise.
pub open spec fn year_filter_spec(year: Option<Seq<char>>) -> Option<i32> {
    match year {
        Some(s) => if s == "all"@ {
            None
        } else {
            match parse_int_spec(s, i32::MIN as int, i32::MAX as int) {
                Some(y) => if 2000 <= y && y <= 2100 {
                    Some(y as i32)
                } else {
                    None
                },
                None => None,
            }
        },
        None => None,
    }
}

/// The view of an optional reference to a string.
pub open spec fn opt_ref_view(o: Option<&String>) -> Option<Seq<char>> {
    match o {
        Some(s) => Some(s@),
        None => None,
    }
}

/// Parse the year query parameter, treating "all" or absent as None.
pub fn parse_year_filter(year: Option<&String>) -> (r: Option<i32>)
    ensures
        r == year_filter_spec(opt_ref_view(year)),
{
    match year {
        Some(s) => {
            if str_eq(s.as_str(), "all") {
                return None;
            }
            match parse_i32(s.as_str()) {
                Some(y) => if 2000 <= y && y <= 2100 {
                    Some(y)
                } else {
                    None
                },
                None => None,
            }
        },
        None => None,
    }
}

/// A tab of the stats page.
#[derive(Debug, Clone)]
pub struct YearTab {
    pub key: String,
    pub label: String,
}

/// The tabs for the years with data: none when there are no years,
/// otherwise "All Time" followed by one tab per year, in order.
pub open spec fn year_tabs_spec(years: Seq<i32>) -> Seq<(Seq<char>, Seq<char>)> {
    if years.len() == 0 {
        Seq::empty()
    } else {
        seq![("all"@, "All Time"@)] + years.map_values(
            |y: i32| (int_decimal(y as int), int_decimal(y as int)),
        )
    }
}

pub open spec fn tabs_view(tabs: Seq<YearTab>) -> Seq<(Seq<char>, Seq<char>)> {
    tabs.map_values(|t: YearTab| (t.key@, t.label@))
}

/// Build year tabs from available years.
pub fn build_year_tabs(years: &[i32]) -> (tabs: Vec<YearTab>)
    ensures
        tabs_view(tabs@) == year_tabs_spec(years@),
{
    let mut tabs: Vec<YearTab> = Vec::new();
    if years.len() == 0 {
        assert(tabs_view(tabs@) =~= year_tabs_spec(years@));
        return tabs;
    }
    tabs.push(YearTab { key: owned("all"), label: owned("All Time") });
    let ghost first = seq![("all"@, "All Time"@)];
    let ghost rest = years@.map_values(|y: i32| (int_decimal(y as int), int_decimal(y as int)));
    assert(tabs_view(tabs@) =~= first);
    let mut i: usize = 0;
    while i < years.len()
        invariant
            i <= years@.len(),
            rest == years@.map_values(|y: i32| (int_decimal(y as int), int_decimal(y as int))),
            tabs_view(tabs@) == first + rest.take(i as int),
        decreases years@.len() - i,
    {
        let y = years[i];
        let ghost before = tabs@;
        tabs.push(YearTab { key: i64_to_string(y as i64), label: i64_to_string(y as i64) });
        assert(tabs_view(tabs@) =~= tabs_view(before).push(
            (int_decimal(y as int), int_decimal(y as int)),
        ));
        assert(rest.take(i + 1) =~= rest.take(i as int).push(rest[i as int]));
        i = i + 1;
    }
    assert(rest.take(years@.len() as int) =~= rest);
    tabs
}

// ---------------------------------------------------------------------------
// Stat cards
// ---------------------------------------------------------------------------

/// A headline figure on the home page.
#[derive(Debug, Clone)]
pub struct StatCard {
    pub icon: &'static str,
    pub value: String,
    pub label: &'static str,
}

/// A card as a triple of texts: icon, value and label.
pub open spec fn card_view(c: StatCard) -> (Seq<char>, Seq<char>, Seq<char>) {
    (c.icon@, c.value@, c.label@)
}

pub open spec fn cards_view(cs: Seq<StatCard>) -> Seq<(Seq<char>, Seq<char>, Seq<char>)> {
    cs.map_values(|c: StatCard| card_view(c))
}

/// A name, or the em dash when there is none.
pub open spec fn name_or_dash(o: Option<Seq<char>>) -> Seq<char> {
    match o {
        Some(s) => s,
        None => EM_DASH@,
    }
}

/// The six headline cards, before shuffling: books in the last 30 days,
/// books of all time, pages read, genres, top genre and top author.
pub open spec fn stat_cards_spec(
    summary: BookSummaryStats,
    books_last_30_days: u64,
    books_all_time: u64,
    pages_all_time: i64,
) -> Seq<(Seq<char>, Seq<char>, Seq<char>)> {
    seq![
        ("book"@, decimal(books_last_30_days as nat), "Books (30d)"@),
        ("book"@, decimal(books_all_time as nat), "All Time"@),
        ("book"@, int_decimal(pages_all_time as int), "Pages Read"@),
        ("map"@, decimal(summary.unique_genres as nat), "Genres"@),
        ("book"@, name_or_dash(crate::text::opt_view(summary.top_genre)), "Top Genre"@),
        ("book"@, name_or_dash(crate::text::opt_view(summary.top_author)), "Top Author"@),
    ]
}

fn name_or_em_dash(o: Option<String>) -> (s: String)
    ensures
        s@ == name_or_dash(crate::text::opt_view(o)),
{
    match o {
        Some(s) => s,
        None => owned(EM_DASH),
    }
}

/// The six headline cards in their fixed order.
pub fn stat_cards_in_order(
    summary: BookSummaryStats,
    books_last_30_days: u64,
    books_all_time: u64,
    pages_all_time: i64,
) -> (cards: Vec<StatCard>)
    ensures
        cards_view(cards@) == stat_cards_spec(
            summary,
            books_last_30_days,
            books_all_time,
            pages_all_time,
        ),
{
    let ghost spec = stat_cards_spec(summary, books_last_30_days, books_all_time, pages_all_time);
    let mut cards: Vec<StatCard> = Vec::new();
    cards.push(
        StatCard { icon: "book", value: u64_to_string(books_last_30_days), label: "Books (30d)" },
    );
    cards.push(StatCard { icon: "book", value: u64_to_string(books_all_time), label: "All Time" });
    cards.push(StatCard { icon: "book", value: i64_to_string(pages_all_time), label: "Pages Read" });
    cards.push(
        StatCard { icon: "map", value: u64_to_string(summary.unique_genres), label: "Genres" },
    );
    cards.push(
        StatCard { icon: "book", value: name_or_em_dash(summary.top_genre), label: "Top Genre" },
    );
    cards.push(
        StatCard { icon: "book", value: name_or_em_dash(summary.top_author), label: "Top Author" },
    );
    assert(cards_view(cards@) =~= spec);
    cards
}

/// `SliceRandom::shuffle` of `rand` with the thread-local generator: the
/// cards come out in an order that depends on chance, as a permutation of
/// the cards that went in (the source swaps elements only). Which order
/// comes out is left unsaid; `thread_rng` panics when the operating system
/// cannot seed the generator, a failure of the machine that no `requires`
/// can rule out.
#[verifier::external_body]
fn shuffle_cards(cards: &mut Vec<StatCard>)
    ensures
        final(cards)@.to_multiset() == old(cards)@.to_multiset(),
{
    cards.shuffle(&mut rand::thread_rng());
}

/// The six headline cards, in a random order.
pub fn build_stat_cards(
    summary: BookSummaryStats,
    books_last_30_days: u64,
    books_all_time: u64,
    pages_all_time: i64,
) -> (cards: Vec<StatCard>)
    ensures
        exists|ordered: Seq<StatCard>|
            cards_view(ordered) == stat_cards_spec(
                summary,
                books_last_30_days,
                books_all_time,
                pages_all_time,
            ) && #[trigger] ordered.to_multiset() == cards@.to_multiset(),
{
    let mut cards = stat_cards_in_order(
        summary,
        books_last_30_days,
        books_all_time,
        pages_all_time,
    );
    let ghost ordered = cards@;
    shuffle_cards(&mut cards);
    assert(ordered.to_multiset() == cards@.to_multiset());
    cards
}

// ---------------------------------------------------------------------------
// Numbers and chart data
// ---------------------------------------------------------------------------

/// The three digits of `d < 1000`, zero-padded.
pub open spec fn three_digits(d: nat) -> Seq<char> {
    seq![digit_char(d / 100), digit_char((d / 10) % 10), digit_char(d % 10)]
}

/// The decimal digits of `n` in groups of three separated by commas.
pub open spec fn grouped_decimal(n: nat) -> Seq<char>
    decreases n,
{
    if n < 1000 {
        decimal(n)
    } else {
        grouped_decimal(n / 1000) + ","@ + three_digits(n % 1000)
    }
}

/// A number with thousand separators; numbers below 1000 (negative ones
/// too) are written plainly.
pub open spec fn format_number_spec(n: int) -> Seq<char> {
    if n < 1000 {
        int_decimal(n)
    } else {
        grouped_decimal(n as nat)
    }
}

fn push_three_digits(s: &mut String, d: u64)
    requires
        d < 1000,
    ensures
        final(s)@ == old(s)@ + three_digits(d as nat),
{
    let mut t = u64_to_string(d / 100);
    push_u64(&mut t, (d / 10) % 10);
    push_u64(&mut t, d % 10);
    proof {
        reveal_with_fuel(decimal, 1);
    }
    assert(t@ =~= three_digits(d as nat));
    s.append(t.as_str());
}

fn push_grouped(s: &mut String, n: u64)
    ensures
        final(s)@ == old(s)@ + grouped_decimal(n as nat),
    decreases n,
{
    if n < 1000 {
        push_u64(s, n);
    } else {
        push_grouped(s, n / 1000);
        s.append(",");
        push_three_digits(s, n % 1000);
    }
    assert(final(s)@ =~= old(s)@ + grouped_decimal(n as nat));
}

/// Format a number with thousand separators.
pub fn format_number(n: i64) -> (s: String)
    ensures
        s@ == format_number_spec(n as int),
{
    if n < 1000 {
        return i64_to_string(n);
    }
    let mut s = String::new();
    push_grouped(&mut s, n as u64);
    assert(s@ =~= format_number_spec(n as int));
    s
}

/// `s` with its commas removed.
pub open spec fn without_commas(s: Seq<char>) -> Seq<char>
    decreases s.len(),
{
    if s.len() == 0 {
        s
    } else if s.last() == ',' {
        without_commas(s.drop_last())
    } else {
        without_commas(s.drop_last()).push(s.last())
    }
}

proof fn lemma_without_commas_concat(a: Seq<char>, b: Seq<char>)
    ensures
        without_commas(a + b) == without_commas(a) + without_commas(b),
    decreases b.len(),
{
    if b.len() == 0 {
        assert(a + b =~= a);
        assert(without_commas(b) =~= Seq::<char>::empty());
    } else {
        lemma_without_commas_concat(a, b.drop_last());
        assert((a + b).drop_last() =~= a + b.drop_last());
        assert((a + b).last() == b.last());
        if b.last() != ',' {
            assert(without_commas(a) + without_commas(b.drop_last()).push(b.last()) =~= (
            without_commas(a) + without_commas(b.drop_last())).push(b.last()));
        }
    }
}

proof fn lemma_without_commas_digits(s: Seq<char>)
    requires
        crate::text::all_digits(s),
    ensures
        without_commas(s) == s,
    decreases s.len(),
{
    if s.len() > 0 {
        assert(crate::text::is_digit(s[s.len() - 1]));
        assert(crate::text::all_digits(s.drop_last())) by {
            assert forall|k: int| 0 <= k < s.drop_last().len() implies crate::text::is_digit(
                #[trigger] s.drop_last()[k],
            ) by {
                assert(s.drop_last()[k] == s[k]);
            }
        }
        lemma_without_commas_digits(s.drop_last());
        assert(s.drop_last().push(s.last()) =~= s);
    }
}

proof fn lemma_decimal_thousands(n: nat)
    requires
        n >= 1000,
    ensures
        decimal(n) == decimal(n / 1000) + three_digits(n % 1000),
{
    let a = n / 10;
    let b = n / 100;
    let c = n / 1000;
    assert(a / 10 == b && b / 10 == c && a >= 100 && b >= 10);
    assert((n % 1000) / 100 == b % 10 && ((n % 1000) / 10) % 10 == a % 10 && (n % 1000) % 10
        == n % 10);
    assert(decimal(n) == decimal(a).push(digit_char(n % 10)));
    assert(decimal(a) == decimal(b).push(digit_char(a % 10)));
    assert(decimal(b) == decimal(c).push(digit_char(b % 10)));
    assert(decimal(n) =~= decimal(c) + three_digits(n % 1000));
}

/// Removing the thousand separators of a formatted number gives its plain
/// decimal rendering.
pub proof fn lemma_format_number_digits(n: int)
    ensures
        without_commas(format_number_spec(n)) == int_decimal(n),
{
    if n < 1000 {
        if n >= 0 {
            crate::text::lemma_decimal_digits(n as nat);
            lemma_without_commas_digits(decimal(n as nat));
        } else {
            let d = decimal((-n) as nat);
            crate::text::lemma_decimal_digits((-n) as nat);
            lemma_without_commas_digits(d);
            lemma_without_commas_concat(seq!['-'], d);
            assert(without_commas(seq!['-']) =~= seq!['-']) by {
                reveal_with_fuel(without_commas, 2);
                assert(seq!['-'].drop_last() =~= Seq::<char>::empty());
                assert(seq!['-'].last() == '-');
                assert(Seq::<char>::empty().push('-') =~= seq!['-']);
            }
        }
    } else {
        lemma_grouped_digits(n as nat);
    }
}

proof fn lemma_grouped_digits(n: nat)
    ensures
        without_commas(grouped_decimal(n)) == decimal(n),
    decreases n,
{
    if n < 1000 {
        crate::text::lemma_decimal_digits(n);
        lemma_without_commas_digits(decimal(n));
    } else {
        lemma_grouped_digits(n / 1000);
        let head = grouped_decimal(n / 1000);
        let tail = three_digits(n % 1000);
        lemma_without_commas_concat(head + ","@, tail);
        lemma_without_commas_concat(head, ","@);
        reveal_strlit(",");
        assert(without_commas(","@) =~= Seq::<char>::empty()) by {
            reveal_with_fuel(without_commas, 2);
            assert(","@.len() == 1 && ","@[0] == ',');
            assert(","@.drop_last() =~= Seq::<char>::empty());
        }
        assert(crate::text::all_digits(tail));
        lemma_without_commas_digits(tail);
        lemma_decimal_thousands(n);
        assert(head + ","@ + tail == grouped_decimal(n));
    }
}

/// One bar of the activity chart: "label:books:pages".
pub open spec fn activity_item(books: (String, u64), pages: (String, i64)) -> Seq<char> {
    books.0@ + ":"@ + decimal(books.1 as nat) + ":"@ + int_decimal(pages.1 as int)
}

/// The bars of the activity chart, pairing books and pages by position (as
/// far as both go).
pub open spec fn activity_items(books: Seq<(String, u64)>, pages: Seq<(String, i64)>) -> Seq<
    Seq<char>,
> {
    Seq::new(
        if books.len() <= pages.len() {
            books.len()
        } else {
            pages.len()
        },
        |i: int| activity_item(books[i], pages[i]),
    )
}

/// Build the pipe-separated data-items string for the activity bar chart.
/// Format: "label:books:pages|label:books:pages|..."
pub fn build_activity_chart_data(books: &[(String, u64)], pages: &[(String, i64)]) -> (s: String)
    ensures
        s@ == join_spec(activity_items(books@, pages@), "|"@),
{
    let n = if books.len() <= pages.len() {
        books.len()
    } else {
        pages.len()
    };
    let ghost items = activity_items(books@, pages@);
    let mut s = String::new();
    let mut i: usize = 0;
    while i < n
        invariant
            n == items.len(),
            n <= books@.len(),
            n <= pages@.len(),
            items == activity_items(books@, pages@),
            i <= n,
            s@ == join_spec(items.take(i as int), "|"@),
        decreases n - i,
    {
        proof {
            assert(items.take(i + 1).drop_last() =~= items.take(i as int));
        }
        let ghost before = s@;
        if i > 0 {
            s.append("|");
        }
        s.append(books[i].0.as_str());
        s.append(":");
        push_u64(&mut s, books[i].1);
        s.append(":");
        push_i64(&mut s, pages[i].1);
        proof {
            if i == 0 {
                assert(items.take(1) =~= seq![items[0]]);
            }
            assert(s@ =~= join_spec(items.take(i + 1), "|"@));
        }
        i = i + 1;
    }
    assert(items.take(n as int) =~= items);
    s
}

// ---------------------------------------------------------------------------
// Stats page
// ---------------------------------------------------------------------------

/// Whether there is anything to chart: some finished book or some genre.
pub fn stats_has_data(books_all_time: u64, unique_genres: u64) -> (b: bool)
    ensures
        b == (books_all_time > 0 || unique_genres > 0),
{
    books_all_time > 0 || unique_genres > 0
}

/// The key of the active year tab: the year, or "all".
pub fn active_year_key(year: Option<i32>) -> (s: String)
    ensures
        s@ == match year {
            Some(y) => int_decimal(y as int),
            None => "all"@,
        },
{
    match year {
        Some(y) => i64_to_string(y as i64),
        None => owned("all"),
    }
}

/// The stats content wrapped in its container, for a Datastar fragment.
pub fn stats_fragment(content: &str) -> (s: String)
    ensures
        s@ == "<div id=\"stats-content\" class=\"flex flex-col gap-8\">"@ + content@ + "</div>"@,
{
    let mut s = owned("<div id=\"stats-content\" class=\"flex flex-col gap-8\">");
    s.append(content);
    s.append("</div>");
    s
}

} // verus!
