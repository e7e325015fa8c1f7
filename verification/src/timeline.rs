//! Timeline events: snapshots of what happened to books, authors, genres and
//! readings, shown in activity feeds.
use vstd::prelude::*;

use crate::ids::{TimelineEventId, UserId};
use crate::listing::{SortDirection, SortKey};
use crate::text::{join_spec, join_strs, owned, str_eq, str_views};
use crate::time::UtcTimestamp;

verus! {

#[derive(Debug, Clone)]
pub struct TimelineEventDetail {
    pub label: String,
    pub value: String,
}

/// A detail as a pair of texts: label and value.
pub open spec fn detail_view(d: TimelineEventDetail) -> (Seq<char>, Seq<char>) {
    (d.label@, d.value@)
}

/// The details of an event as pairs of texts.
pub open spec fn details_view(ds: Seq<TimelineEventDetail>) -> Seq<(Seq<char>, Seq<char>)> {
    ds.map_values(|d: TimelineEventDetail| detail_view(d))
}

/// The author line of an event: the names joined with ", ", or "Unknown"
/// when there are none.
pub open spec fn author_detail_spec(names: Seq<Seq<char>>) -> (Seq<char>, Seq<char>) {
    (
        "Author"@,
        if names.len() == 0 {
            "Unknown"@
        } else {
            join_spec(names, ", "@)
        },
    )
}

impl TimelineEventDetail {
    pub fn new(label: &str, value: String) -> (d: Self)
        ensures
            detail_view(d) == (label@, value@),
    {
        TimelineEventDetail { label: owned(label), value }
    }

    pub fn author_detail(author_names: &[&str]) -> (d: Self)
        ensures
            detail_view(d) == author_detail_spec(str_views(author_names@)),
    {
        let value = if author_names.len() == 0 {
            owned("Unknown")
        } else {
            join_strs(author_names, ", ")
        };
        TimelineEventDetail { label: owned("Author"), value }
    }
}

/// Reading data attached to timeline events for quick reference.
#[derive(Debug, Clone)]
pub struct TimelineReadingData {
    pub book_id: i64,
    pub rating: Option<i32>,
    pub status: String,
}

#[derive(Debug, Clone)]
pub struct TimelineEvent {
    pub id: TimelineEventId,
    pub entity_type: String,
    pub entity_id: i64,
    pub action: String,
    pub occurred_at: UtcTimestamp,
    pub title: String,
    pub details: Vec<TimelineEventDetail>,
    pub genres: Vec<String>,
    pub reading_data: Option<TimelineReadingData>,
}

#[derive(Debug, Clone)]
pub struct NewTimelineEvent {
    pub user_id: Option<UserId>,
    pub entity_type: String,
    pub entity_id: i64,
    pub action: String,
    pub occurred_at: UtcTimestamp,
    pub title: String,
    pub details: Vec<TimelineEventDetail>,
    pub genres: Vec<String>,
    pub reading_data: Option<TimelineReadingData>,
}

/// The event recorded when a user adds a named entity (an author or a genre):
/// no details, no genres, no reading data.
pub open spec fn added_entity_event(
    e: NewTimelineEvent,
    user_id: UserId,
    entity_type: Seq<char>,
    entity_id: i64,
    occurred_at: UtcTimestamp,
    title: Seq<char>,
) -> bool {
    &&& e.user_id == Some(user_id)
    &&& e.entity_type@ == entity_type
    &&& e.entity_id == entity_id
    &&& e.action@ == "added"@
    &&& e.occurred_at == occurred_at
    &&& e.title@ == title
    &&& e.details@.len() == 0
    &&& e.genres@.len() == 0
    &&& e.reading_data is None
}

/// Builds the "added" event of a named entity.
pub fn added_entity_event_for(
    user_id: UserId,
    entity_type: &str,
    entity_id: i64,
    occurred_at: UtcTimestamp,
    title: &String,
) -> (e: NewTimelineEvent)
    ensures
        added_entity_event(e, user_id, entity_type@, entity_id, occurred_at, title@),
{
    NewTimelineEvent {
        user_id: Some(user_id),
        entity_type: owned(entity_type),
        entity_id,
        action: owned("added"),
        occurred_at,
        title: title.clone(),
        details: Vec::new(),
        genres: Vec::new(),
        reading_data: None,
    }
}

#[derive(Debug, Clone, Copy, PartialEq, Eq, Structural)]
pub enum TimelineSortKey {
    OccurredAt,
}

impl SortKey for TimelineSortKey {
    open spec fn default_key() -> Self {
        TimelineSortKey::OccurredAt
    }

    open spec fn query_text(self) -> Seq<char> {
        "occurred-at"@
    }

    open spec fn parse_query(value: Seq<char>) -> Option<Self> {
        if value == "occurred-at"@ {
            Some(TimelineSortKey::OccurredAt)
        } else {
            None
        }
    }

    open spec fn default_direction_of(self) -> SortDirection {
        SortDirection::Desc
    }


    fn default() -> (k: Self) {
        TimelineSortKey::OccurredAt
    }

    fn from_query(value: &str) -> (k: Option<Self>) {
        if str_eq(value, "occurred-at") {
            Some(TimelineSortKey::OccurredAt)
        } else {
            None
        }
    }

    fn query_value(self) -> (s: &'static str) {
        "occurred-at"
    }

    fn default_direction(self) -> (d: SortDirection) {
        SortDirection::Desc
    }

    fn same_key(self, other: Self) -> (b: bool) {
        true
    }
}

/// Every `TimelineSortKey` is named by its own query value, so `from_query` inverts
/// `query_value`.
pub proof fn lemma_timeline_sort_key_query_roundtrip(key: TimelineSortKey)
    ensures
        TimelineSortKey::parse_query(key.query_text()) == Some(key),
{
}

} // verus!
