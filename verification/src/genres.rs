//! Genres.
use vstd::prelude::*;

use crate::ids::{GenreId, UserId};
use crate::listing::{SortDirection, SortKey};
use crate::text::{str_eq, trim, trim_spec};
use crate::time::UtcTimestamp;
use crate::timeline::{NewTimelineEvent, added_entity_event, added_entity_event_for};

verus! {

#[derive(Debug, Clone)]
pub struct Genre {
    pub id: GenreId,
    pub name: String,
    pub created_at: UtcTimestamp,
}

#[derive(Debug, Clone)]
pub struct NewGenre {
    pub name: String,
    pub created_at: Option<UtcTimestamp>,
}

impl NewGenre {
    /// The same submission with the name trimmed of surrounding whitespace.
    pub fn normalize(self) -> (r: Self)
        ensures
            r.name@ == trim_spec(self.name@),
            r.created_at == self.created_at,
    {
        NewGenre { name: trim(self.name.as_str()), created_at: self.created_at }
    }
}

impl Genre {
    /// The event recorded when the genre is added.
    pub fn to_timeline_event(&self, user_id: UserId) -> (e: NewTimelineEvent)
        ensures
            added_entity_event(e, user_id, "genre"@, self.id.0, self.created_at, self.name@),
    {
        added_entity_event_for(user_id, "genre", self.id.into_inner(), self.created_at, &self.name)
    }
}

#[derive(Debug, Clone)]
pub struct UpdateGenre {
    pub name: Option<String>,
    pub created_at: Option<UtcTimestamp>,
}

#[derive(Debug, Clone, Copy, PartialEq, Eq, Structural)]
pub enum GenreSortKey {
    CreatedAt,
    Name,
}

/// The length and first character of every query name of `GenreSortKey`; they
/// tell the names apart.
proof fn lemma_genre_sort_key_names()
    ensures
        "created-at"@.len() == 10 && "created-at"@[0] == 'c',
        "name"@.len() == 4 && "name"@[0] == 'n',
{
    reveal_strlit("created-at");
    reveal_strlit("name");
}

impl SortKey for GenreSortKey {
    open spec fn default_key() -> Self {
        GenreSortKey::CreatedAt
    }

    open spec fn query_text(self) -> Seq<char> {
        match self {
            GenreSortKey::CreatedAt => "created-at"@,
            GenreSortKey::Name => "name"@,
        }
    }

    open spec fn parse_query(value: Seq<char>) -> Option<Self> {
        if value == "created-at"@ {
            Some(GenreSortKey::CreatedAt)
        } else if value == "name"@ {
            Some(GenreSortKey::Name)
        } else {
            None
        }
    }

    open spec fn default_direction_of(self) -> SortDirection {
        match self {
            GenreSortKey::CreatedAt => SortDirection::Desc,
            GenreSortKey::Name => SortDirection::Asc,
        }
    }


    fn default() -> (k: Self) {
        GenreSortKey::CreatedAt
    }

    fn from_query(value: &str) -> (k: Option<Self>) {
        if str_eq(value, "created-at") {
            return Some(GenreSortKey::CreatedAt);
        }
        if str_eq(value, "name") {
            return Some(GenreSortKey::Name);
        }
        None
    }

    fn query_value(self) -> (s: &'static str) {
        match self {
            GenreSortKey::CreatedAt => "created-at",
            GenreSortKey::Name => "name",
        }
    }

    fn default_direction(self) -> (d: SortDirection) {
        match self {
            GenreSortKey::CreatedAt => SortDirection::Desc,
            GenreSortKey::Name => SortDirection::Asc,
        }
    }

    fn same_key(self, other: Self) -> (b: bool) {
        self == other
    }
}

/// Every `GenreSortKey` is named by its own query value, so `from_query` inverts
/// `query_value`.
pub proof fn lemma_genre_sort_key_query_roundtrip(key: GenreSortKey)
    ensures
        GenreSortKey::parse_query(key.query_text()) == Some(key),
{
    lemma_genre_sort_key_names();
}

/// Every genre sort key is named in query strings by its own column: `created-at`, `name`
/// each select that column and no other, and each key is written back under
/// the same name.
pub proof fn lemma_genre_sort_key_names_select_their_columns(value: Seq<char>, key: GenreSortKey)
    ensures
        GenreSortKey::parse_query("created-at"@) == Some(GenreSortKey::CreatedAt),
        GenreSortKey::parse_query("name"@) == Some(GenreSortKey::Name),
        GenreSortKey::CreatedAt.query_text() == "created-at"@,
        GenreSortKey::Name.query_text() == "name"@,
        GenreSortKey::parse_query(value) == Some(key) ==> value == key.query_text(),
{
    lemma_genre_sort_key_names();
    reveal_strlit("created-at");
    reveal_strlit("name");
}


/// A new genre as a form or a JSON body submits it.
#[derive(Debug, Clone)]
pub struct NewGenreSubmission {
    pub name: String,
    pub created_at: Option<UtcTimestamp>,
}

impl NewGenreSubmission {
    pub fn into_new(self) -> (g: NewGenre)
        ensures
            g.name == self.name,
            g.created_at == self.created_at,
    {
        NewGenre { name: self.name, created_at: self.created_at }
    }
}

/// Changes to a genre as a form or a JSON body submits them.
#[derive(Debug, Clone)]
pub struct UpdateGenreSubmission {
    pub name: Option<String>,
    pub created_at: Option<UtcTimestamp>,
}

impl UpdateGenreSubmission {
    pub fn into_update(self) -> (u: UpdateGenre)
        ensures
            u.name == self.name,
            u.created_at == self.created_at,
    {
        UpdateGenre { name: self.name, created_at: self.created_at }
    }
}

} // verus!
