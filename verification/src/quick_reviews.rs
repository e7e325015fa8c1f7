//! Quick reviews: short tags a reader attaches to a reading, each with a
//! display label, a form value and a sentiment.
use vstd::prelude::*;

use crate::text::{
    chars_of, is_white_space, join_spec, str_eq, string_from_chars, trim, trim_end_spec,
    trim_spec, trim_start_spec,
};

verus! {

#[derive(Debug, Clone, Copy, PartialEq, Eq, Structural)]
pub enum QuickReview {
    LovedIt,
    PageTurner,
    ThoughtProvoking,
    CouldntPutDown,
    GreatCharacters,
    Funny,
    Moving,
    LaughedOutLoud,
    Relatable,
    QuickRead,
    SlowBurn,
    Dense,
    PredictablePlot,
    DisappointingEnding,
    UnrelatableCharacters,
    Forgettable,
    TooLong,
    OddPov,
    Overrated,
}

#[derive(Debug, Clone, Copy, PartialEq, Eq, Structural)]
pub enum Sentiment {
    Positive,
    Neutral,
    Negative,
}

/// The label shown to readers.
pub open spec fn review_label(r: QuickReview) -> Seq<char> {
    match r {
        QuickReview::LovedIt => "Loved it"@,
        QuickReview::PageTurner => "Page-turner"@,
        QuickReview::ThoughtProvoking => "Thought-provoking"@,
        QuickReview::CouldntPutDown => "Couldn't put down"@,
        QuickReview::GreatCharacters => "Great characters"@,
        QuickReview::Funny => "Funny"@,
        QuickReview::Moving => "Moving"@,
        QuickReview::LaughedOutLoud => "Laughed out loud"@,
        QuickReview::Relatable => "Relatable"@,
        QuickReview::QuickRead => "Quick read"@,
        QuickReview::SlowBurn => "Slow burn"@,
        QuickReview::Dense => "Dense"@,
        QuickReview::PredictablePlot => "Predictable plot"@,
        QuickReview::DisappointingEnding => "Disappointing ending"@,
        QuickReview::UnrelatableCharacters => "Unrelatable characters"@,
        QuickReview::Forgettable => "Forgettable"@,
        QuickReview::TooLong => "Too long"@,
        QuickReview::OddPov => "Odd POV"@,
        QuickReview::Overrated => "Overrated"@,
    }
}

/// The value submitted by forms.
pub open spec fn review_form_value(r: QuickReview) -> Seq<char> {
    match r {
        QuickReview::LovedIt => "loved-it"@,
        QuickReview::PageTurner => "page-turner"@,
        QuickReview::ThoughtProvoking => "thought-provoking"@,
        QuickReview::CouldntPutDown => "couldnt-put-down"@,
        QuickReview::GreatCharacters => "great-characters"@,
        QuickReview::Funny => "funny"@,
        QuickReview::Moving => "moving"@,
        QuickReview::LaughedOutLoud => "laughed-out-loud"@,
        QuickReview::Relatable => "relatable"@,
        QuickReview::QuickRead => "quick-read"@,
        QuickReview::SlowBurn => "slow-burn"@,
        QuickReview::Dense => "dense"@,
        QuickReview::PredictablePlot => "predictable-plot"@,
        QuickReview::DisappointingEnding => "disappointing-ending"@,
        QuickReview::UnrelatableCharacters => "unrelatable-characters"@,
        QuickReview::Forgettable => "forgettable"@,
        QuickReview::TooLong => "too-long"@,
        QuickReview::OddPov => "odd-pov"@,
        QuickReview::Overrated => "overrated"@,
    }
}

/// Whether `s` is the form value or the label of `r`.
pub open spec fn names_review(s: Seq<char>, r: QuickReview) -> bool {
    s == review_form_value(r) || s == review_label(r)
}

/// Every review, in declaration order.
pub open spec fn all_reviews() -> Seq<QuickReview> {
    seq![
        QuickReview::LovedIt,
        QuickReview::PageTurner,
        QuickReview::ThoughtProvoking,
        QuickReview::CouldntPutDown,
        QuickReview::GreatCharacters,
        QuickReview::Funny,
        QuickReview::Moving,
        QuickReview::LaughedOutLoud,
        QuickReview::Relatable,
        QuickReview::QuickRead,
        QuickReview::SlowBurn,
        QuickReview::Dense,
        QuickReview::PredictablePlot,
        QuickReview::DisappointingEnding,
        QuickReview::UnrelatableCharacters,
        QuickReview::Forgettable,
        QuickReview::TooLong,
        QuickReview::OddPov,
        QuickReview::Overrated,
    ]
}

/// The review that a form value or a label names: the first in declaration
/// order that `s` names, `None` when it names none.
pub open spec fn review_from_text(s: Seq<char>) -> Option<QuickReview> {
    if names_review(s, QuickReview::LovedIt) {
        Some(QuickReview::LovedIt)
    } else if names_review(s, QuickReview::PageTurner) {
        Some(QuickReview::PageTurner)
    } else if names_review(s, QuickReview::ThoughtProvoking) {
        Some(QuickReview::ThoughtProvoking)
    } else if names_review(s, QuickReview::CouldntPutDown) {
        Some(QuickReview::CouldntPutDown)
    } else if names_review(s, QuickReview::GreatCharacters) {
        Some(QuickReview::GreatCharacters)
    } else if names_review(s, QuickReview::Funny) {
        Some(QuickReview::Funny)
    } else if names_review(s, QuickReview::Moving) {
        Some(QuickReview::Moving)
    } else if names_review(s, QuickReview::LaughedOutLoud) {
        Some(QuickReview::LaughedOutLoud)
    } else if names_review(s, QuickReview::Relatable) {
        Some(QuickReview::Relatable)
    } else if names_review(s, QuickReview::QuickRead) {
        Some(QuickReview::QuickRead)
    } else if names_review(s, QuickReview::SlowBurn) {
        Some(QuickReview::SlowBurn)
    } else if names_review(s, QuickReview::Dense) {
        Some(QuickReview::Dense)
    } else if names_review(s, QuickReview::PredictablePlot) {
        Some(QuickReview::PredictablePlot)
    } else if names_review(s, QuickReview::DisappointingEnding) {
        Some(QuickReview::DisappointingEnding)
    } else if names_review(s, QuickReview::UnrelatableCharacters) {
        Some(QuickReview::UnrelatableCharacters)
    } else if names_review(s, QuickReview::Forgettable) {
        Some(QuickReview::Forgettable)
    } else if names_review(s, QuickReview::TooLong) {
        Some(QuickReview::TooLong)
    } else if names_review(s, QuickReview::OddPov) {
        Some(QuickReview::OddPov)
    } else if names_review(s, QuickReview::Overrated) {
        Some(QuickReview::Overrated)
    } else {
        None
    }
}

/// The sentiment a review expresses.
pub open spec fn sentiment_of(r: QuickReview) -> Sentiment {
    match r {
        QuickReview::LovedIt | QuickReview::PageTurner | QuickReview::ThoughtProvoking
        | QuickReview::CouldntPutDown | QuickReview::GreatCharacters | QuickReview::Funny
        | QuickReview::Moving | QuickReview::LaughedOutLoud
        | QuickReview::Relatable => Sentiment::Positive,
        QuickReview::QuickRead | QuickReview::SlowBurn | QuickReview::Dense => Sentiment::Neutral,
        QuickReview::PredictablePlot | QuickReview::DisappointingEnding
        | QuickReview::UnrelatableCharacters | QuickReview::Forgettable | QuickReview::TooLong
        | QuickReview::OddPov | QuickReview::Overrated => Sentiment::Negative,
    }
}

impl QuickReview {
    pub fn label(self) -> (s: &'static str)
        ensures
            s@ == review_label(self),
    {
        match self {
            QuickReview::LovedIt => "Loved it",
            QuickReview::PageTurner => "Page-turner",
            QuickReview::ThoughtProvoking => "Thought-provoking",
            QuickReview::CouldntPutDown => "Couldn't put down",
            QuickReview::GreatCharacters => "Great characters",
            QuickReview::Funny => "Funny",
            QuickReview::Moving => "Moving",
            QuickReview::LaughedOutLoud => "Laughed out loud",
            QuickReview::Relatable => "Relatable",
            QuickReview::QuickRead => "Quick read",
            QuickReview::SlowBurn => "Slow burn",
            QuickReview::Dense => "Dense",
            QuickReview::PredictablePlot => "Predictable plot",
            QuickReview::DisappointingEnding => "Disappointing ending",
            QuickReview::UnrelatableCharacters => "Unrelatable characters",
            QuickReview::Forgettable => "Forgettable",
            QuickReview::TooLong => "Too long",
            QuickReview::OddPov => "Odd POV",
            QuickReview::Overrated => "Overrated",
        }
    }

    pub fn form_value(self) -> (s: &'static str)
        ensures
            s@ == review_form_value(self),
    {
        match self {
            QuickReview::LovedIt => "loved-it",
            QuickReview::PageTurner => "page-turner",
            QuickReview::ThoughtProvoking => "thought-provoking",
            QuickReview::CouldntPutDown => "couldnt-put-down",
            QuickReview::GreatCharacters => "great-characters",
            QuickReview::Funny => "funny",
            QuickReview::Moving => "moving",
            QuickReview::LaughedOutLoud => "laughed-out-loud",
            QuickReview::Relatable => "relatable",
            QuickReview::QuickRead => "quick-read",
            QuickReview::SlowBurn => "slow-burn",
            QuickReview::Dense => "dense",
            QuickReview::PredictablePlot => "predictable-plot",
            QuickReview::DisappointingEnding => "disappointing-ending",
            QuickReview::UnrelatableCharacters => "unrelatable-characters",
            QuickReview::Forgettable => "forgettable",
            QuickReview::TooLong => "too-long",
            QuickReview::OddPov => "odd-pov",
            QuickReview::Overrated => "overrated",
        }
    }

    /// The review named by a form value or a label; `None` for any other text.
    pub fn from_str_value(s: &str) -> (r: Option<QuickReview>)
        ensures
            r == review_from_text(s@),
    {
        let all = Self::all();
        let mut i: usize = 0;
        while i < all.len()
            invariant
                all@ == all_reviews(),
                i <= all@.len(),
                forall|k: int| 0 <= k < i ==> !names_review(s@, #[trigger] all_reviews()[k]),
            decreases all@.len() - i,
        {
            let candidate = all[i];
            if str_eq(s, candidate.form_value()) || str_eq(s, candidate.label()) {
                proof {
                    lemma_first_named(s@, i as int);
                }
                return Some(candidate);
            }
            i = i + 1;
        }
        proof {
            lemma_none_named(s@);
        }
        None
    }

    pub fn sentiment(self) -> (s: Sentiment)
        ensures
            s == sentiment_of(self),
    {
        match self {
            QuickReview::LovedIt | QuickReview::PageTurner | QuickReview::ThoughtProvoking
            | QuickReview::CouldntPutDown | QuickReview::GreatCharacters | QuickReview::Funny
            | QuickReview::Moving | QuickReview::LaughedOutLoud
            | QuickReview::Relatable => Sentiment::Positive,
            QuickReview::QuickRead | QuickReview::SlowBurn
            | QuickReview::Dense => Sentiment::Neutral,
            QuickReview::PredictablePlot | QuickReview::DisappointingEnding
            | QuickReview::UnrelatableCharacters | QuickReview::Forgettable | QuickReview::TooLong
            | QuickReview::OddPov | QuickReview::Overrated => Sentiment::Negative,
        }
    }

    pub fn is_positive(self) -> (b: bool)
        ensures
            b == (sentiment_of(self) == Sentiment::Positive),
    {
        self.sentiment() == Sentiment::Positive
    }

    pub fn is_neutral(self) -> (b: bool)
        ensures
            b == (sentiment_of(self) == Sentiment::Neutral),
    {
        self.sentiment() == Sentiment::Neutral
    }

    pub fn all() -> (v: &'static [QuickReview])
        ensures
            v@ == all_reviews(),
    {
        let v: &'static [QuickReview] = &[
            QuickReview::LovedIt,
            QuickReview::PageTurner,
            QuickReview::ThoughtProvoking,
            QuickReview::CouldntPutDown,
            QuickReview::GreatCharacters,
            QuickReview::Funny,
            QuickReview::Moving,
            QuickReview::LaughedOutLoud,
            QuickReview::Relatable,
            QuickReview::QuickRead,
            QuickReview::SlowBurn,
            QuickReview::Dense,
            QuickReview::PredictablePlot,
            QuickReview::DisappointingEnding,
            QuickReview::UnrelatableCharacters,
            QuickReview::Forgettable,
            QuickReview::TooLong,
            QuickReview::OddPov,
            QuickReview::Overrated,
        ];
        assert(v@ =~= all_reviews());
        v
    }
}

/// The pieces of `s` between commas, as `split(',')` gives them (one empty
/// piece for the empty text).
pub open spec fn comma_pieces(s: Seq<char>) -> Seq<Seq<char>>
    decreases s.len(),
{
    if s.len() == 0 {
        seq![Seq::empty()]
    } else if s.last() == ',' {
        comma_pieces(s.drop_last()).push(Seq::empty())
    } else {
        let pieces = comma_pieces(s.drop_last());
        pieces.update(pieces.len() - 1, pieces.last().push(s.last()))
    }
}

proof fn lemma_comma_pieces_nonempty(s: Seq<char>)
    ensures
        comma_pieces(s).len() >= 1,
    decreases s.len(),
{
    if s.len() > 0 {
        lemma_comma_pieces_nonempty(s.drop_last());
    }
}

/// The reviews that trimmed pieces name, in order, skipping the pieces that
/// name none.
pub open spec fn reviews_named(pieces: Seq<Seq<char>>) -> Seq<QuickReview>
    decreases pieces.len(),
{
    if pieces.len() == 0 {
        Seq::empty()
    } else {
        let rest = reviews_named(pieces.drop_last());
        match review_from_text(trim_spec(pieces.last())) {
            Some(r) => rest.push(r),
            None => rest,
        }
    }
}

/// The reviews of a comma-separated list: none for the empty text,
/// otherwise those that the trimmed pieces name.
pub open spec fn reviews_from_list_spec(s: Seq<char>) -> Seq<QuickReview> {
    if s.len() == 0 {
        Seq::empty()
    } else {
        reviews_named(comma_pieces(s))
    }
}

fn review_of_piece(piece: &Vec<char>) -> (r: Option<QuickReview>)
    ensures
        r == review_from_text(trim_spec(piece@)),
{
    let text = string_from_chars(piece);
    let trimmed = trim(text.as_str());
    QuickReview::from_str_value(trimmed.as_str())
}

/// Parses a comma-separated list of quick reviews (form values or labels),
/// skipping the entries that name none.
pub fn quick_reviews_from_list(s: &str) -> (reviews: Vec<QuickReview>)
    ensures
        reviews@ == reviews_from_list_spec(s@),
{
    let v = chars_of(s);
    let n = v.len();
    let mut reviews: Vec<QuickReview> = Vec::new();
    if n == 0 {
        return reviews;
    }
    let mut piece: Vec<char> = Vec::new();
    let mut i: usize = 0;
    assert(s@.take(0) =~= Seq::<char>::empty());
    while i < n
        invariant
            v@ == s@,
            n == s@.len(),
            i <= n,
            comma_pieces(s@.take(i as int)).len() >= 1,
            piece@ == comma_pieces(s@.take(i as int)).last(),
            reviews@ == reviews_named(comma_pieces(s@.take(i as int)).drop_last()),
        decreases n - i,
    {
        let c = v[i];
        let ghost before = comma_pieces(s@.take(i as int));
        proof {
            assert(s@.take(i + 1).drop_last() =~= s@.take(i as int));
            assert(s@.take(i + 1).last() == c);
            lemma_comma_pieces_nonempty(s@.take(i + 1));
        }
        if c == ',' {
            let found = review_of_piece(&piece);
            if let Some(r) = found {
                reviews.push(r);
            }
            piece = Vec::new();
            proof {
                let after = comma_pieces(s@.take(i + 1));
                assert(after == before.push(Seq::empty()));
                assert(after.drop_last() =~= before);
                assert(before =~= before.drop_last().push(before.last()));
                assert(reviews_named(before) == match review_from_text(trim_spec(before.last())) {
                    Some(r) => reviews_named(before.drop_last()).push(r),
                    None => reviews_named(before.drop_last()),
                });
            }
        } else {
            piece.push(c);
            proof {
                let after = comma_pieces(s@.take(i + 1));
                assert(after.drop_last() =~= before.drop_last());
            }
        }
        i = i + 1;
    }
    let ghost all = comma_pieces(s@.take(n as int));
    assert(s@.take(n as int) =~= s@);
    let found = review_of_piece(&piece);
    if let Some(r) = found {
        reviews.push(r);
    }
    proof {
        assert(all =~= all.drop_last().push(all.last()));
    }
    reviews
}

/// The reviews named by a list of entries, in order, skipping the entries
/// that are not texts or name none (entries are not trimmed).
pub open spec fn reviews_from_entries_spec(entries: Seq<Option<String>>) -> Seq<QuickReview>
    decreases entries.len(),
{
    if entries.len() == 0 {
        Seq::empty()
    } else {
        let rest = reviews_from_entries_spec(entries.drop_last());
        match entries.last() {
            Some(e) => match review_from_text(e@) {
                Some(r) => rest.push(r),
                None => rest,
            },
            None => rest,
        }
    }
}

/// Parses a list of quick-review entries (form values or labels; `None`
/// for entries that are not texts), skipping those that name none.
pub fn quick_reviews_from_entries(entries: &[Option<String>]) -> (reviews: Vec<QuickReview>)
    ensures
        reviews@ == reviews_from_entries_spec(entries@),
{
    let mut reviews: Vec<QuickReview> = Vec::new();
    let mut i: usize = 0;
    while i < entries.len()
        invariant
            i <= entries@.len(),
            reviews@ == reviews_from_entries_spec(entries@.take(i as int)),
        decreases entries@.len() - i,
    {
        proof {
            assert(entries@.take(i + 1).drop_last() =~= entries@.take(i as int));
        }
        match &entries[i] {
            Some(e) => {
                if let Some(r) = QuickReview::from_str_value(e.as_str()) {
                    reviews.push(r);
                }
            },
            None => {},
        }
        i = i + 1;
    }
    assert(entries@.take(entries@.len() as int) =~= entries@);
    reviews
}

proof fn lemma_first_named(s: Seq<char>, i: int)
    requires
        0 <= i < all_reviews().len(),
        names_review(s, all_reviews()[i]),
        forall|k: int| 0 <= k < i ==> !names_review(s, #[trigger] all_reviews()[k]),
    ensures
        review_from_text(s) == Some(all_reviews()[i]),
{
    assert(forall|k: int| 0 <= k < i ==> !names_review(s, #[trigger] all_reviews()[k]));
    assert(!names_review(s, all_reviews()[0]) || i == 0);
}

proof fn lemma_none_named(s: Seq<char>)
    requires
        forall|k: int|
            0 <= k < all_reviews().len() ==> !names_review(s, #[trigger] all_reviews()[k]),
    ensures
        review_from_text(s) is None,
{
    let a = all_reviews();
    assert(!names_review(s, a[0]) && !names_review(s, a[1]) && !names_review(s, a[2])
        && !names_review(s, a[3]) && !names_review(s, a[4]) && !names_review(s, a[5])
        && !names_review(s, a[6]) && !names_review(s, a[7]) && !names_review(s, a[8])
        && !names_review(s, a[9]) && !names_review(s, a[10]) && !names_review(s, a[11])
        && !names_review(s, a[12]) && !names_review(s, a[13]) && !names_review(s, a[14])
        && !names_review(s, a[15]) && !names_review(s, a[16]) && !names_review(s, a[17])
        && !names_review(s, a[18]));
}


/// The length and first character of every label and form value; these
/// tell all of them apart.
proof fn lemma_review_text_facts()
    ensures
        "Loved it"@.len() == 8 && "Loved it"@[0] == 'L',
        "Page-turner"@.len() == 11 && "Page-turner"@[0] == 'P',
        "Thought-provoking"@.len() == 17 && "Thought-provoking"@[0] == 'T',
        "Couldn't put down"@.len() == 17 && "Couldn't put down"@[0] == 'C',
        "Great characters"@.len() == 16 && "Great characters"@[0] == 'G',
        "Funny"@.len() == 5 && "Funny"@[0] == 'F',
        "Moving"@.len() == 6 && "Moving"@[0] == 'M',
        "Laughed out loud"@.len() == 16 && "Laughed out loud"@[0] == 'L',
        "Relatable"@.len() == 9 && "Relatable"@[0] == 'R',
        "Quick read"@.len() == 10 && "Quick read"@[0] == 'Q',
        "Slow burn"@.len() == 9 && "Slow burn"@[0] == 'S',
        "Dense"@.len() == 5 && "Dense"@[0] == 'D',
        "Predictable plot"@.len() == 16 && "Predictable plot"@[0] == 'P',
        "Disappointing ending"@.len() == 20 && "Disappointing ending"@[0] == 'D',
        "Unrelatable characters"@.len() == 22 && "Unrelatable characters"@[0] == 'U',
        "Forgettable"@.len() == 11 && "Forgettable"@[0] == 'F',
        "Too long"@.len() == 8 && "Too long"@[0] == 'T',
        "Odd POV"@.len() == 7 && "Odd POV"@[0] == 'O',
        "Overrated"@.len() == 9 && "Overrated"@[0] == 'O',
        "loved-it"@.len() == 8 && "loved-it"@[0] == 'l',
        "page-turner"@.len() == 11 && "page-turner"@[0] == 'p',
        "thought-provoking"@.len() == 17 && "thought-provoking"@[0] == 't',
        "couldnt-put-down"@.len() == 16 && "couldnt-put-down"@[0] == 'c',
        "great-characters"@.len() == 16 && "great-characters"@[0] == 'g',
        "funny"@.len() == 5 && "funny"@[0] == 'f',
        "moving"@.len() == 6 && "moving"@[0] == 'm',
        "laughed-out-loud"@.len() == 16 && "laughed-out-loud"@[0] == 'l',
        "relatable"@.len() == 9 && "relatable"@[0] == 'r',
        "quick-read"@.len() == 10 && "quick-read"@[0] == 'q',
        "slow-burn"@.len() == 9 && "slow-burn"@[0] == 's',
        "dense"@.len() == 5 && "dense"@[0] == 'd',
        "predictable-plot"@.len() == 16 && "predictable-plot"@[0] == 'p',
        "disappointing-ending"@.len() == 20 && "disappointing-ending"@[0] == 'd',
        "unrelatable-characters"@.len() == 22 && "unrelatable-characters"@[0] == 'u',
        "forgettable"@.len() == 11 && "forgettable"@[0] == 'f',
        "too-long"@.len() == 8 && "too-long"@[0] == 't',
        "odd-pov"@.len() == 7 && "odd-pov"@[0] == 'o',
        "overrated"@.len() == 9 && "overrated"@[0] == 'o',
{
    reveal_strlit("Loved it");
    reveal_strlit("Page-turner");
    reveal_strlit("Thought-provoking");
    reveal_strlit("Couldn't put down");
    reveal_strlit("Great characters");
    reveal_strlit("Funny");
    reveal_strlit("Moving");
    reveal_strlit("Laughed out loud");
    reveal_strlit("Relatable");
    reveal_strlit("Quick read");
    reveal_strlit("Slow burn");
    reveal_strlit("Dense");
    reveal_strlit("Predictable plot");
    reveal_strlit("Disappointing ending");
    reveal_strlit("Unrelatable characters");
    reveal_strlit("Forgettable");
    reveal_strlit("Too long");
    reveal_strlit("Odd POV");
    reveal_strlit("Overrated");
    reveal_strlit("loved-it");
    reveal_strlit("page-turner");
    reveal_strlit("thought-provoking");
    reveal_strlit("couldnt-put-down");
    reveal_strlit("great-characters");
    reveal_strlit("funny");
    reveal_strlit("moving");
    reveal_strlit("laughed-out-loud");
    reveal_strlit("relatable");
    reveal_strlit("quick-read");
    reveal_strlit("slow-burn");
    reveal_strlit("dense");
    reveal_strlit("predictable-plot");
    reveal_strlit("disappointing-ending");
    reveal_strlit("unrelatable-characters");
    reveal_strlit("forgettable");
    reveal_strlit("too-long");
    reveal_strlit("odd-pov");
    reveal_strlit("overrated");
}

/// Every review is named back by its own form value and by its own label, so
/// `from_str_value` inverts both `form_value` and `label`.
pub proof fn lemma_review_text_roundtrip(r: QuickReview)
    ensures
        review_from_text(review_form_value(r)) == Some(r),
        review_from_text(review_label(r)) == Some(r),
{
    lemma_review_text_facts();
    match r {
        QuickReview::LovedIt => {},
        QuickReview::PageTurner => {},
        QuickReview::ThoughtProvoking => {},
        QuickReview::CouldntPutDown => {},
        QuickReview::GreatCharacters => {},
        QuickReview::Funny => {},
        QuickReview::Moving => {},
        QuickReview::LaughedOutLoud => {},
        QuickReview::Relatable => {},
        QuickReview::QuickRead => {},
        QuickReview::SlowBurn => {},
        QuickReview::Dense => {},
        QuickReview::PredictablePlot => {},
        QuickReview::DisappointingEnding => {},
        QuickReview::UnrelatableCharacters => {},
        QuickReview::Forgettable => {},
        QuickReview::TooLong => {},
        QuickReview::OddPov => {},
        QuickReview::Overrated => {},
    }
}

/// Every review occurs in `all` exactly once, and `all` holds nothing else.
pub proof fn lemma_all_reviews_complete(r: QuickReview)
    ensures
        all_reviews().len() == 19,
        all_reviews().contains(r),
        forall|i: int, j: int|
            0 <= i < j < all_reviews().len() ==> all_reviews()[i] != all_reviews()[j],
{
    let a = all_reviews();
    match r {
        QuickReview::LovedIt => assert(a[0] == r),
        QuickReview::PageTurner => assert(a[1] == r),
        QuickReview::ThoughtProvoking => assert(a[2] == r),
        QuickReview::CouldntPutDown => assert(a[3] == r),
        QuickReview::GreatCharacters => assert(a[4] == r),
        QuickReview::Funny => assert(a[5] == r),
        QuickReview::Moving => assert(a[6] == r),
        QuickReview::LaughedOutLoud => assert(a[7] == r),
        QuickReview::Relatable => assert(a[8] == r),
        QuickReview::QuickRead => assert(a[9] == r),
        QuickReview::SlowBurn => assert(a[10] == r),
        QuickReview::Dense => assert(a[11] == r),
        QuickReview::PredictablePlot => assert(a[12] == r),
        QuickReview::DisappointingEnding => assert(a[13] == r),
        QuickReview::UnrelatableCharacters => assert(a[14] == r),
        QuickReview::Forgettable => assert(a[15] == r),
        QuickReview::TooLong => assert(a[16] == r),
        QuickReview::OddPov => assert(a[17] == r),
        QuickReview::Overrated => assert(a[18] == r),
    }
}

/// Each review has exactly one sentiment: positive and neutral exclude each other.
pub proof fn lemma_sentiment_partition(r: QuickReview)
    ensures
        !(sentiment_of(r) == Sentiment::Positive && sentiment_of(r) == Sentiment::Neutral),
        sentiment_of(r) == Sentiment::Positive || sentiment_of(r) == Sentiment::Neutral
            || sentiment_of(r) == Sentiment::Negative,
{
}


// ---------------------------------------------------------------------------
// The quick-review field of the forms
// ---------------------------------------------------------------------------

/// The form values of a list of quick reviews.
pub open spec fn review_form_values(rs: Seq<QuickReview>) -> Seq<Seq<char>> {
    rs.map_values(|r: QuickReview| review_form_value(r))
}

/// The shape of a form value: not empty, and nothing but lowercase ASCII
/// letters and hyphens.
pub open spec fn is_form_token(s: Seq<char>) -> bool {
    &&& s.len() > 0
    &&& forall|i: int|
        0 <= i < s.len() ==> {
            let u = #[trigger] s[i] as u32;
            (97 <= u && u <= 122) || u == 45
        }
}

/// Every form value has the shape of a form token.
proof fn lemma_form_value_is_token(r: QuickReview)
    ensures
        is_form_token(review_form_value(r)),
{
    match r {
        QuickReview::LovedIt => reveal_strlit("loved-it"),
        QuickReview::PageTurner => reveal_strlit("page-turner"),
        QuickReview::ThoughtProvoking => reveal_strlit("thought-provoking"),
        QuickReview::CouldntPutDown => reveal_strlit("couldnt-put-down"),
        QuickReview::GreatCharacters => reveal_strlit("great-characters"),
        QuickReview::Funny => reveal_strlit("funny"),
        QuickReview::Moving => reveal_strlit("moving"),
        QuickReview::LaughedOutLoud => reveal_strlit("laughed-out-loud"),
        QuickReview::Relatable => reveal_strlit("relatable"),
        QuickReview::QuickRead => reveal_strlit("quick-read"),
        QuickReview::SlowBurn => reveal_strlit("slow-burn"),
        QuickReview::Dense => reveal_strlit("dense"),
        QuickReview::PredictablePlot => reveal_strlit("predictable-plot"),
        QuickReview::DisappointingEnding => reveal_strlit("disappointing-ending"),
        QuickReview::UnrelatableCharacters => reveal_strlit("unrelatable-characters"),
        QuickReview::Forgettable => reveal_strlit("forgettable"),
        QuickReview::TooLong => reveal_strlit("too-long"),
        QuickReview::OddPov => reveal_strlit("odd-pov"),
        QuickReview::Overrated => reveal_strlit("overrated"),
    }
}

/// A form token holds no comma and is its own trimmed text.
proof fn lemma_form_token_facts(s: Seq<char>)
    requires
        is_form_token(s),
    ensures
        !s.contains(','),
        trim_spec(s) == s,
{
    if s.contains(',') {
        let i = choose|i: int| 0 <= i < s.len() && s[i] == ',';
        assert(s[i] as u32 == 44);
    }
    let u0 = s[0] as u32;
    assert((97 <= u0 && u0 <= 122) || u0 == 45);
    assert(!is_white_space(s[0]));
    assert(trim_start_spec(s) == s);
    let ul = s[s.len() - 1] as u32;
    assert((97 <= ul && ul <= 122) || ul == 45);
    assert(!is_white_space(s.last()));
    assert(trim_end_spec(s) == s);
}

/// A text without commas is a single piece.
proof fn lemma_comma_pieces_single(b: Seq<char>)
    requires
        !b.contains(','),
    ensures
        comma_pieces(b) == seq![b],
    decreases b.len(),
{
    if b.len() > 0 {
        assert(b.last() != ',') by {
            assert(b[b.len() - 1] == b.last());
        }
        let front = b.drop_last();
        assert(!front.contains(',')) by {
            if front.contains(',') {
                let i = choose|i: int| 0 <= i < front.len() && front[i] == ',';
                assert(b[i] == ',');
            }
        }
        lemma_comma_pieces_single(front);
        assert(front.push(b.last()) =~= b);
    } else {
        assert(b =~= Seq::<char>::empty());
    }
}

/// Appending a comma and a comma-free text adds that text as the last piece.
proof fn lemma_comma_pieces_append(a: Seq<char>, b: Seq<char>)
    requires
        !b.contains(','),
    ensures
        comma_pieces(a + ","@ + b) == comma_pieces(a).push(b),
    decreases b.len(),
{
    reveal_strlit(",");
    let s = a + ","@ + b;
    if b.len() == 0 {
        assert(s.drop_last() =~= a);
        assert(s.last() == ',');
        assert(b =~= Seq::<char>::empty());
    } else {
        let front = b.drop_last();
        assert(b.last() != ',') by {
            assert(b[b.len() - 1] == b.last());
        }
        assert(!front.contains(',')) by {
            if front.contains(',') {
                let i = choose|i: int| 0 <= i < front.len() && front[i] == ',';
                assert(b[i] == ',');
            }
        }
        lemma_comma_pieces_append(a, front);
        assert(s.drop_last() =~= a + ","@ + front);
        assert(s.last() == b.last());
        assert(front.push(b.last()) =~= b);
        assert(comma_pieces(a).push(front).update(comma_pieces(a).len() as int, b) =~= comma_pieces(
            a,
        ).push(b));
    }
}

/// Joining comma-free texts with commas and splitting the result at the
/// commas gives the texts back.
proof fn lemma_comma_pieces_join(v: Seq<Seq<char>>)
    requires
        v.len() > 0,
        forall|i: int| 0 <= i < v.len() ==> !(#[trigger] v[i]).contains(','),
    ensures
        comma_pieces(join_spec(v, ","@)) == v,
    decreases v.len(),
{
    if v.len() == 1 {
        lemma_comma_pieces_single(v[0]);
        assert(seq![v[0]] =~= v);
    } else {
        let front = v.drop_last();
        assert(forall|i: int| 0 <= i < front.len() ==> front[i] == v[i]);
        lemma_comma_pieces_join(front);
        assert(!v[v.len() - 1].contains(','));
        lemma_comma_pieces_append(join_spec(front, ","@), v.last());
        assert(front.push(v.last()) =~= v);
    }
}

/// The reviews named by the form values of `rs` are `rs`.
proof fn lemma_reviews_named_form_values(rs: Seq<QuickReview>)
    ensures
        reviews_named(review_form_values(rs)) == rs,
    decreases rs.len(),
{
    if rs.len() > 0 {
        let front = rs.drop_last();
        lemma_reviews_named_form_values(front);
        assert(review_form_values(rs).drop_last() =~= review_form_values(front));
        let last = rs.last();
        lemma_form_value_is_token(last);
        lemma_form_token_facts(review_form_value(last));
        lemma_review_text_roundtrip(last);
        assert(review_form_values(rs).last() == review_form_value(last));
        assert(front.push(last) =~= rs);
    } else {
        assert(review_form_values(rs) =~= Seq::<Seq<char>>::empty());
    }
}

/// The quick-review field of a form, read back as a comma-separated list,
/// gives the reviews it was written from, in order.
pub proof fn lemma_quick_reviews_field_roundtrip(rs: Seq<QuickReview>)
    ensures
        reviews_from_list_spec(join_spec(review_form_values(rs), ","@)) == rs,
{
    let values = review_form_values(rs);
    if rs.len() == 0 {
        assert(values =~= Seq::<Seq<char>>::empty());
    } else {
        assert forall|i: int| 0 <= i < values.len() implies !(#[trigger] values[i]).contains(',') by {
            lemma_form_value_is_token(rs[i]);
            lemma_form_token_facts(review_form_value(rs[i]));
        }
        lemma_comma_pieces_join(values);
        lemma_form_value_is_token(rs[0]);
        assert(values[0] == review_form_value(rs[0]));
        lemma_join_not_empty(values);
        lemma_reviews_named_form_values(rs);
    }
}

/// Joining texts of which the first is not empty gives a text that is not
/// empty.
proof fn lemma_join_not_empty(v: Seq<Seq<char>>)
    requires
        v.len() > 0,
        v[0].len() > 0,
    ensures
        join_spec(v, ","@).len() > 0,
    decreases v.len(),
{
    if v.len() > 1 {
        lemma_join_not_empty(v.drop_last());
    }
}

} // verus!
