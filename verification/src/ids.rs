//! Typed identifiers of the stored entities.
use vstd::prelude::*;

verus! {

/// Identifier of a user.
#[derive(Debug, Clone, Copy, PartialEq, Eq, Structural)]
pub struct UserId(pub i64);

/// Identifier of a book.
#[derive(Debug, Clone, Copy, PartialEq, Eq, Structural)]
pub struct BookId(pub i64);

/// Identifier of an author.
#[derive(Debug, Clone, Copy, PartialEq, Eq, Structural)]
pub struct AuthorId(pub i64);

/// Identifier of a genre.
#[derive(Debug, Clone, Copy, PartialEq, Eq, Structural)]
pub struct GenreId(pub i64);

/// Identifier of a reading.
#[derive(Debug, Clone, Copy, PartialEq, Eq, Structural)]
pub struct ReadingId(pub i64);

/// Identifier of a book on a user's shelf.
#[derive(Debug, Clone, Copy, PartialEq, Eq, Structural)]
pub struct UserBookId(pub i64);

/// Identifier of a timeline event.
#[derive(Debug, Clone, Copy, PartialEq, Eq, Structural)]
pub struct TimelineEventId(pub i64);

impl UserId {
    pub fn new(value: i64) -> (id: Self)
        ensures
            id.0 == value,
    {
        UserId(value)
    }

    pub fn into_inner(self) -> (value: i64)
        ensures
            value == self.0,
    {
        self.0
    }
}

impl BookId {
    pub fn new(value: i64) -> (id: Self)
        ensures
            id.0 == value,
    {
        BookId(value)
    }

    pub fn into_inner(self) -> (value: i64)
        ensures
            value == self.0,
    {
        self.0
    }
}

impl AuthorId {
    pub fn new(value: i64) -> (id: Self)
        ensures
            id.0 == value,
    {
        AuthorId(value)
    }

    pub fn into_inner(self) -> (value: i64)
        ensures
            value == self.0,
    {
        self.0
    }
}

impl GenreId {
    pub fn new(value: i64) -> (id: Self)
        ensures
            id.0 == value,
    {
        GenreId(value)
    }

    pub fn into_inner(self) -> (value: i64)
        ensures
            value == self.0,
    {
        self.0
    }
}

impl ReadingId {
    pub fn new(value: i64) -> (id: Self)
        ensures
            id.0 == value,
    {
        ReadingId(value)
    }

    pub fn into_inner(self) -> (value: i64)
        ensures
            value == self.0,
    {
        self.0
    }
}

impl UserBookId {
    pub fn new(value: i64) -> (id: Self)
        ensures
            id.0 == value,
    {
        UserBookId(value)
    }

    pub fn into_inner(self) -> (value: i64)
        ensures
            value == self.0,
    {
        self.0
    }
}

impl TimelineEventId {
    pub fn new(value: i64) -> (id: Self)
        ensures
            id.0 == value,
    {
        TimelineEventId(value)
    }

    pub fn into_inner(self) -> (value: i64)
        ensures
            value == self.0,
    {
        self.0
    }
}

} // verus!
