//! The decisions of the background services and of shelving: what a new
//! reading does to the library, and what a timeline invalidation refreshes.
use vstd::prelude::*;

use crate::ids::{BookId, UserId};
use crate::text::str_eq;
use crate::user_books::{NewUserBook, Shelf};

verus! {

/// What creating a reading does to the user's shelf for that book.
#[derive(Debug, Clone, Copy, PartialEq, Eq, Structural)]
pub enum LibraryAction {
    /// The book is on the wishlist: move it to the library.
    MoveToLibrary,
    /// The book is not on a shelf (or the lookup failed): add it to the library.
    AddToLibrary,
    /// The book is already in the library.
    Nothing,
}

/// A created reading puts its book in the library: a wishlisted book moves
/// there, a book on no shelf is added, a library book stays.
pub fn library_action_for_reading(existing_shelf: Option<Shelf>) -> (a: LibraryAction)
    ensures
        a == library_action_spec(existing_shelf),
{
    match existing_shelf {
        Some(Shelf::Wishlist) => LibraryAction::MoveToLibrary,
        Some(Shelf::Library) => LibraryAction::Nothing,
        None => LibraryAction::AddToLibrary,
    }
}

/// The shelf a book is on after `action`, given the shelf it was on.
pub open spec fn shelf_after(existing_shelf: Option<Shelf>, action: LibraryAction) -> Option<Shelf> {
    match action {
        LibraryAction::MoveToLibrary | LibraryAction::AddToLibrary => Some(Shelf::Library),
        LibraryAction::Nothing => existing_shelf,
    }
}

/// The action `library_action_for_reading` picks.
pub open spec fn library_action_spec(existing_shelf: Option<Shelf>) -> LibraryAction {
    match existing_shelf {
        Some(Shelf::Wishlist) => LibraryAction::MoveToLibrary,
        Some(Shelf::Library) => LibraryAction::Nothing,
        None => LibraryAction::AddToLibrary,
    }
}

/// Creating a reading always leaves its book in the library, and touches
/// the shelf only when the book is not there yet.
pub proof fn lemma_reading_puts_book_in_library(existing_shelf: Option<Shelf>)
    ensures
        shelf_after(existing_shelf, library_action_spec(existing_shelf)) == Some(Shelf::Library),
        existing_shelf == Some(Shelf::Library) <==> library_action_spec(existing_shelf)
            == LibraryAction::Nothing,
{
}

/// The shelf entry added for a reading's book: in the library, not a
/// book-club pick.
pub fn library_entry_for_reading(user_id: UserId, book_id: BookId) -> (n: NewUserBook)
    ensures
        n == (NewUserBook { user_id, book_id, shelf: Shelf::Library, book_club: false }),
{
    NewUserBook { user_id, book_id, shelf: Shelf::default(), book_club: false }
}

/// The shelf entry made when a user shelves a book in the library.
pub fn shelve_in_library(user_id: UserId, book_id: BookId, book_club: Option<bool>) -> (n:
    NewUserBook)
    ensures
        n == (NewUserBook {
            user_id,
            book_id,
            shelf: Shelf::Library,
            book_club: match book_club {
                Some(b) => b,
                None => false,
            },
        }),
{
    NewUserBook {
        user_id,
        book_id,
        shelf: Shelf::Library,
        book_club: match book_club {
            Some(b) => b,
            None => false,
        },
    }
}

/// Describes what needs to be refreshed.
#[derive(Debug, Clone)]
pub enum TimelineInvalidation {
    /// A specific entity was updated — refresh its timeline events and cascading dependents.
    SpecificEntity { entity_type: String, entity_id: i64 },
    /// Full rebuild — refresh all timeline events from scratch.
    Full,
}

impl TimelineInvalidation {
    pub fn specific(entity_type: &str, entity_id: i64) -> (t: Self)
        ensures
            t matches TimelineInvalidation::SpecificEntity { entity_type: e, entity_id: i } && e@
                == entity_type@ && i == entity_id,
    {
        TimelineInvalidation::SpecificEntity { entity_type: crate::text::owned(entity_type), entity_id }
    }
}

/// The refresh that an invalidated entity type calls for.
#[derive(Debug, Clone, Copy, PartialEq, Eq, Structural)]
pub enum RefreshTarget {
    /// The author's event, then its books and their readings.
    AuthorCascade,
    /// The book's event, then its readings.
    BookCascade,
    /// The reading's event.
    Reading,
    /// The genre's event, then its books.
    GenreCascade,
    /// An entity type the timeline does not know.
    Unknown,
}

pub open spec fn refresh_target_spec(entity_type: Seq<char>) -> RefreshTarget {
    if entity_type == "author"@ {
        RefreshTarget::AuthorCascade
    } else if entity_type == "book"@ {
        RefreshTarget::BookCascade
    } else if entity_type == "reading"@ {
        RefreshTarget::Reading
    } else if entity_type == "genre"@ {
        RefreshTarget::GenreCascade
    } else {
        RefreshTarget::Unknown
    }
}

pub fn refresh_target(entity_type: &str) -> (t: RefreshTarget)
    ensures
        t == refresh_target_spec(entity_type@),
{
    if str_eq(entity_type, "author") {
        RefreshTarget::AuthorCascade
    } else if str_eq(entity_type, "book") {
        RefreshTarget::BookCascade
    } else if str_eq(entity_type, "reading") {
        RefreshTarget::Reading
    } else if str_eq(entity_type, "genre") {
        RefreshTarget::GenreCascade
    } else {
        RefreshTarget::Unknown
    }
}

/// The entity that a signal names, if it names one.
pub open spec fn signal_entity(s: TimelineInvalidation) -> Option<(Seq<char>, i64)> {
    match s {
        TimelineInvalidation::SpecificEntity { entity_type, entity_id } => Some(
            (entity_type@, entity_id),
        ),
        TimelineInvalidation::Full => None,
    }
}

/// Whether some signal asks for a full rebuild.
pub open spec fn asks_full(signals: Seq<TimelineInvalidation>) -> bool {
    exists|i: int| 0 <= i < signals.len() && signals[i] is Full
}

/// The entities named by some signal.
pub open spec fn named_entities(signals: Seq<TimelineInvalidation>) -> Set<(Seq<char>, i64)> {
    Set::new(
        |k: (Seq<char>, i64)|
            exists|i: int| 0 <= i < signals.len() && signal_entity(signals[i]) == Some(k),
    )
}

/// The entities of a refresh list, as texts and ids.
pub open spec fn entity_keys(v: Seq<(String, i64)>) -> Seq<(Seq<char>, i64)> {
    v.map_values(|e: (String, i64)| (e.0@, e.1))
}

/// What one refresh round does with the signals gathered while it waited.
#[derive(Debug, Clone)]
pub enum RefreshPlan {
    /// Rebuild every timeline event.
    Full,
    /// Refresh each of these entities, once each.
    Entities(Vec<(String, i64)>),
}

fn known_entity(v: &Vec<(String, i64)>, entity_type: &str, entity_id: i64) -> (b: bool)
    ensures
        b == entity_keys(v@).contains((entity_type@, entity_id)),
{
    let mut i: usize = 0;
    while i < v.len()
        invariant
            i <= v@.len(),
            forall|j: int| 0 <= j < i ==> entity_keys(v@)[j] != (entity_type@, entity_id),
        decreases v@.len() - i,
    {
        if v[i].1 == entity_id && str_eq(v[i].0.as_str(), entity_type) {
            assert(entity_keys(v@)[i as int] == (entity_type@, entity_id));
            return true;
        }
        i = i + 1;
    }
    false
}

/// Gathers the signals of one refresh round: a full rebuild when any signal
/// asks for one; otherwise every entity that a signal names, once each.
pub fn plan_refresh(signals: &[TimelineInvalidation]) -> (p: RefreshPlan)
    ensures
        p is Full <==> asks_full(signals@),
        p matches RefreshPlan::Entities(v) ==> {
            &&& entity_keys(v@).no_duplicates()
            &&& entity_keys(v@).to_set() == named_entities(signals@)
        },
{
    let mut full = false;
    let mut entities: Vec<(String, i64)> = Vec::new();
    let mut i: usize = 0;
    while i < signals.len()
        invariant
            i <= signals@.len(),
            full == asks_full(signals@.take(i as int)),
            entity_keys(entities@).no_duplicates(),
            entity_keys(entities@).to_set() == named_entities(signals@.take(i as int)),
        decreases signals@.len() - i,
    {
        let ghost before = signals@.take(i as int);
        let ghost after = signals@.take(i + 1);
        assert(after == before.push(signals@[i as int]));
        match &signals[i] {
            TimelineInvalidation::Full => {
                full = true;
                assert(after[i as int] is Full);
                assert(named_entities(after) =~= named_entities(before)) by {
                    assert forall|k: (Seq<char>, i64)| named_entities(after).contains(k)
                        implies named_entities(before).contains(k) by {
                        let j = choose|j: int| 0 <= j < after.len() && signal_entity(after[j]) == Some(k);
                        assert(j < i);
                        assert(before[j] == after[j]);
                    }
                    assert forall|k: (Seq<char>, i64)| named_entities(before).contains(k)
                        implies named_entities(after).contains(k) by {
                        let j = choose|j: int| 0 <= j < before.len() && signal_entity(before[j]) == Some(k);
                        assert(after[j] == before[j]);
                    }
                }
            },
            TimelineInvalidation::SpecificEntity { entity_type, entity_id } => {
                let ghost key = (entity_type@, *entity_id);
                assert(signal_entity(after[i as int]) == Some(key));
                if !known_entity(&entities, entity_type.as_str(), *entity_id) {
                    let ghost old_keys = entity_keys(entities@);
                    entities.push((entity_type.clone(), *entity_id));
                    assert(entity_keys(entities@) =~= old_keys.push(key));
                    assert(entity_keys(entities@).no_duplicates()) by {
                        assert forall|a: int, b: int|
                            0 <= a < b < entity_keys(entities@).len() implies entity_keys(
                            entities@,
                        )[a] != entity_keys(entities@)[b] by {
                            if b == old_keys.len() {
                                assert(old_keys.contains(old_keys[a]));
                            }
                        }
                    }
                    proof {
                        old_keys.lemma_push_to_set_commute(key);
                    }
                } else {
                    assert(entity_keys(entities@).to_set().contains(key));
                    assert(entity_keys(entities@).to_set().insert(key) =~= entity_keys(entities@).to_set());
                }
                assert(named_entities(after) =~= named_entities(before).insert(key)) by {
                    assert forall|k: (Seq<char>, i64)| named_entities(after).contains(k)
                        implies #[trigger] named_entities(before).insert(key).contains(k) by {
                        let j = choose|j: int| 0 <= j < after.len() && signal_entity(after[j]) == Some(k);
                        if j < i {
                            assert(before[j] == after[j]);
                        }
                    }
                    assert forall|k: (Seq<char>, i64)| named_entities(before).insert(key).contains(k)
                        implies named_entities(after).contains(k) by {
                        if k != key {
                            let j = choose|j: int| 0 <= j < before.len() && signal_entity(before[j]) == Some(k);
                            assert(after[j] == before[j]);
                        } else {
                            assert(signal_entity(after[i as int]) == Some(k));
                        }
                    }
                }
            },
        }
        assert(full == asks_full(after)) by {
            if asks_full(after) && !(after[i as int] is Full) {
                let j = choose|j: int| 0 <= j < after.len() && after[j] is Full;
                assert(before[j] == after[j]);
            }
            if asks_full(before) {
                let j = choose|j: int| 0 <= j < before.len() && before[j] is Full;
                assert(after[j] == before[j]);
            }
        }
        i = i + 1;
    }
    assert(signals@.take(signals@.len() as int) =~= signals@);
    if full {
        RefreshPlan::Full
    } else {
        RefreshPlan::Entities(entities)
    }
}


/// The users whose statistics one recomputation round refreshes: each user
/// that a signal names, once each.
pub fn users_to_recompute(signals: &[UserId]) -> (users: Vec<UserId>)
    ensures
        users@.no_duplicates(),
        users@.to_set() == signals@.to_set(),
{
    let mut users: Vec<UserId> = Vec::new();
    let mut i: usize = 0;
    while i < signals.len()
        invariant
            i <= signals@.len(),
            users@.no_duplicates(),
            users@.to_set() == signals@.take(i as int).to_set(),
        decreases signals@.len() - i,
    {
        let uid = signals[i];
        let mut seen = false;
        let mut j: usize = 0;
        while j < users.len()
            invariant
                j <= users@.len(),
                seen <==> exists|k: int| 0 <= k < j && users@[k] == uid,
            decreases users@.len() - j,
        {
            if users[j] == uid {
                seen = true;
            }
            j = j + 1;
        }
        proof {
            signals@.take(i as int).lemma_push_to_set_commute(uid);
            assert(signals@.take(i + 1) =~= signals@.take(i as int).push(uid));
        }
        if !seen {
            let ghost before = users@;
            users.push(uid);
            proof {
                before.lemma_push_to_set_commute(uid);
                assert forall|a: int, b: int| 0 <= a < b < users@.len() implies users@[a]
                    != users@[b] by {
                    if b == before.len() {
                        assert(before[a] != uid);
                    }
                }
            }
        } else {
            proof {
                let k = choose|k: int| 0 <= k < users@.len() && users@[k] == uid;
                assert(users@.to_set().contains(uid));
                assert(users@.to_set().insert(uid) =~= users@.to_set());
            }
        }
        i = i + 1;
    }
    assert(signals@.take(signals@.len() as int) =~= signals@);
    users
}

} // verus!
