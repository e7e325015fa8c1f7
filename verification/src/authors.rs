//! Authors.
use vstd::prelude::*;

use crate::ids::{AuthorId, UserId};
use crate::listing::{SortDirection, SortKey};
use crate::text::{str_eq, trim, trim_spec};
use crate::time::UtcTimestamp;
use crate::timeline::{NewTimelineEvent, added_entity_event, added_entity_event_for};

verus! {

#[derive(Debug, Clone)]
pub struct Author {
    pub id: AuthorId,
    pub name: String,
    pub created_at: UtcTimestamp,
}

#[derive(Debug, Clone)]
pub struct NewAuthor {
    pub name: String,
    pub created_at: Option<UtcTimestamp>,
}

impl NewAuthor {
    /// The same submission with the name trimmed of surrounding whitespace.
    pub fn normalize(self) -> (r: Self)
        ensures
            r.name@ == trim_spec(self.name@),
            r.created_at == self.created_at,
    {
        NewAuthor { name: trim(self.name.as_str()), created_at: self.created_at }
    }
}

impl Author {
    /// The event recorded when the author is added.
    pub fn to_timeline_event(&self, user_id: UserId) -> (e: NewTimelineEvent)
        ensures
            added_entity_event(e, user_id, "author"@, self.id.0, self.created_at, self.name@),
    {
        added_entity_event_for(user_id, "author", self.id.into_inner(), self.created_at, &self.name)
    }
}

/// The names of a list of authors.
pub open spec fn author_names(authors: Seq<Author>) -> Seq<Seq<char>> {
    authors.map_values(|a: Author| a.name@)
}

/// The names of `authors`, in order.
pub fn author_name_list<'a>(authors: &'a [Author]) -> (names: Vec<&'a str>)
    ensures
        crate::text::str_views(names@) == author_names(authors@),
{
    let mut names: Vec<&'a str> = Vec::new();
    let mut i: usize = 0;
    while i < authors.len()
        invariant
            i <= authors@.len(),
            crate::text::str_views(names@) == author_names(authors@.take(i as int)),
        decreases authors@.len() - i,
    {
        let ghost before = names@;
        let name = authors[i].name.as_str();
        names.push(name);
        proof {
            assert(crate::text::str_views(names@) =~= crate::text::str_views(before).push(name@));
            assert(author_names(authors@.take(i + 1)) =~= author_names(authors@.take(i as int)).push(
                authors@[i as int].name@,
            ));
        }
        i = i + 1;
    }
    assert(authors@.take(authors@.len() as int) =~= authors@);
    names
}

#[derive(Debug, Clone)]
pub struct UpdateAuthor {
    pub name: Option<String>,
    pub created_at: Option<UtcTimestamp>,
}

#[derive(Debug, Clone, Copy, PartialEq, Eq, Structural)]
pub enum AuthorSortKey {
    CreatedAt,
    Name,
}

/// The length and first character of every query name of `AuthorSortKey`; they
/// tell the names apart.
proof fn lemma_author_sort_key_names()
    ensures
        "created-at"@.len() == 10 && "created-at"@[0] == 'c',
        "name"@.len() == 4 && "name"@[0] == 'n',
{
    reveal_strlit("created-at");
    reveal_strlit("name");
}

impl SortKey for AuthorSortKey {
    open spec fn default_key() -> Self {
        AuthorSortKey::CreatedAt
    }

    open spec fn query_text(self) -> Seq<char> {
        match self {
            AuthorSortKey::CreatedAt => "created-at"@,
            AuthorSortKey::Name => "name"@,
        }
    }

    open spec fn parse_query(value: Seq<char>) -> Option<Self> {
        if value == "created-at"@ {
            Some(AuthorSortKey::CreatedAt)
        } else if value == "name"@ {
            Some(AuthorSortKey::Name)
        } else {
            None
        }
    }

    open spec fn default_direction_of(self) -> SortDirection {
        match self {
            AuthorSortKey::CreatedAt => SortDirection::Desc,
            AuthorSortKey::Name => SortDirection::Asc,
        }
    }


    fn default() -> (k: Self) {
        AuthorSortKey::CreatedAt
    }

    fn from_query(value: &str) -> (k: Option<Self>) {
        if str_eq(value, "created-at") {
            return Some(AuthorSortKey::CreatedAt);
        }
        if str_eq(value, "name") {
            return Some(AuthorSortKey::Name);
        }
        None
    }

    fn query_value(self) -> (s: &'static str) {
        match self {
            AuthorSortKey::CreatedAt => "created-at",
            AuthorSortKey::Name => "name",
        }
    }

    fn default_direction(self) -> (d: SortDirection) {
        match self {
            AuthorSortKey::CreatedAt => SortDirection::Desc,
            AuthorSortKey::Name => SortDirection::Asc,
        }
    }

    fn same_key(self, other: Self) -> (b: bool) {
        self == other
    }
}

/// Every `AuthorSortKey` is named by its own query value, so `from_query` inverts
/// `query_value`.
pub proof fn lemma_author_sort_key_query_roundtrip(key: AuthorSortKey)
    ensures
        AuthorSortKey::parse_query(key.query_text()) == Some(key),
{
    lemma_author_sort_key_names();
}

/// Every author sort key is named in query strings by its own column: `created-at`, `name`
/// each select that column and no other, and each key is written back under
/// the same name.
pub proof fn lemma_author_sort_key_names_select_their_columns(value: Seq<char>, key: AuthorSortKey)
    ensures
        AuthorSortKey::parse_query("created-at"@) == Some(AuthorSortKey::CreatedAt),
        AuthorSortKey::parse_query("name"@) == Some(AuthorSortKey::Name),
        AuthorSortKey::CreatedAt.query_text() == "created-at"@,
        AuthorSortKey::Name.query_text() == "name"@,
        AuthorSortKey::parse_query(value) == Some(key) ==> value == key.query_text(),
{
    lemma_author_sort_key_names();
    reveal_strlit("created-at");
    reveal_strlit("name");
}


/// A new author as a form or a JSON body submits it.
#[derive(Debug, Clone)]
pub struct NewAuthorSubmission {
    pub name: String,
    pub created_at: Option<UtcTimestamp>,
    /// The author's image as a data URL, when one was sent.
    pub image: Option<String>,
}

impl NewAuthorSubmission {
    /// The author a submission makes, and the image it brings.
    pub fn into_parts(self) -> (r: (NewAuthor, Option<String>))
        ensures
            r.0.name == self.name,
            r.0.created_at == self.created_at,
            r.1 == self.image,
    {
        (NewAuthor { name: self.name, created_at: self.created_at }, self.image)
    }
}

/// Changes to an author as a form or a JSON body submits them.
#[derive(Debug, Clone)]
pub struct UpdateAuthorSubmission {
    pub name: Option<String>,
    pub created_at: Option<UtcTimestamp>,
    /// A new image as a data URL, when one was sent.
    pub image: Option<String>,
}

impl UpdateAuthorSubmission {
    /// The changes a submission asks for, and the image it brings.
    pub fn into_parts(self) -> (r: (UpdateAuthor, Option<String>))
        ensures
            r.0.name == self.name,
            r.0.created_at == self.created_at,
            r.1 == self.image,
    {
        (UpdateAuthor { name: self.name, created_at: self.created_at }, self.image)
    }
}

} // verus!
