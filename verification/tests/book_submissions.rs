use booklog::authors::{NewAuthorSubmission, UpdateAuthorSubmission};
use std::collections::HashSet;

use booklog::books::{
    AuthorRole, Book, BookAuthor, BookWithAuthors, NewBookSubmission, UpdateBookSubmission,
    books_in_library,
};
use booklog::genres::{NewGenreSubmission, UpdateGenreSubmission};
use booklog::ids::{AuthorId, BookId, GenreId};
use booklog::time::UtcTimestamp;

fn new_book(title: &str) -> NewBookSubmission {
    NewBookSubmission {
        title: title.to_string(),
        isbn: None,
        description: None,
        page_count: None,
        year_published: None,
        publisher: None,
        language: None,
        primary_genre_id: None,
        secondary_genre_id: None,
        primary_genre_id_name: None,
        secondary_genre_id_name: None,
        author_id: None,
        authors: Vec::new(),
        created_at: None,
        image: None,
    }
}

fn book_update() -> UpdateBookSubmission {
    UpdateBookSubmission {
        title: None,
        isbn: None,
        description: None,
        page_count: None,
        year_published: None,
        publisher: None,
        language: None,
        primary_genre_id: None,
        secondary_genre_id: None,
        primary_genre_id_name: None,
        secondary_genre_id_name: None,
        author_ids: Vec::new(),
        authors: None,
        created_at: None,
        image: None,
        selected_cover_id: None,
    }
}

#[test]
fn new_book_needs_a_title() {
    let s = new_book("   ");
    assert_eq!(s.genre_lookups().unwrap_err().message, "title is required");
    assert_eq!(s.into_parts(None, None).unwrap_err().message, "title is required");
}

#[test]
fn new_book_looks_up_only_named_genres() {
    let mut s = new_book("Piranesi");
    s.primary_genre_id = Some(4);
    s.primary_genre_id_name = Some("Fantasy".to_string());
    s.secondary_genre_id_name = Some("  Mystery ".to_string());
    assert_eq!(
        s.genre_lookups().unwrap(),
        (None, Some("Mystery".to_string()))
    );
    s.secondary_genre_id_name = Some("   ".to_string());
    assert_eq!(s.genre_lookups().unwrap(), (None, None));
}

#[test]
fn new_book_takes_the_form_author_and_resolved_genres() {
    let mut s = new_book("  Piranesi ");
    s.author_id = Some(12);
    s.primary_genre_id = Some(4);
    s.image = Some("data:image/png;base64,AA".to_string());
    let (book, image) = s.into_parts(Some(GenreId::new(9)), Some(GenreId::new(7))).unwrap();
    assert_eq!(book.title, "Piranesi");
    assert_eq!(
        book.authors,
        vec![BookAuthor {
            author_id: AuthorId::new(12),
            role: AuthorRole::Author
        }]
    );
    assert_eq!(book.primary_genre_id, Some(GenreId::new(4)));
    assert_eq!(book.secondary_genre_id, Some(GenreId::new(7)));
    assert_eq!(image, Some("data:image/png;base64,AA".to_string()));
}

#[test]
fn listed_authors_win_over_the_form_author() {
    let mut s = new_book("Good Omens");
    s.author_id = Some(12);
    s.authors = vec![BookAuthor {
        author_id: AuthorId::new(3),
        role: AuthorRole::Editor,
    }];
    let (book, _) = s.into_parts(None, None).unwrap();
    assert_eq!(
        book.authors,
        vec![BookAuthor {
            author_id: AuthorId::new(3),
            role: AuthorRole::Editor
        }]
    );
}

#[test]
fn book_update_collects_its_changes() {
    let mut s = book_update();
    s.author_ids = vec![5, 6];
    s.secondary_genre_id_name = Some("Horror".to_string());
    s.selected_cover_id = Some(String::new());
    assert_eq!(s.genre_lookups(), (None, Some("Horror".to_string())));
    let (update, image, cover) = s.into_parts(None, Some(GenreId::new(8)));
    assert_eq!(
        update.authors,
        Some(vec![
            BookAuthor {
                author_id: AuthorId::new(5),
                role: AuthorRole::Author
            },
            BookAuthor {
                author_id: AuthorId::new(6),
                role: AuthorRole::Author
            },
        ])
    );
    assert_eq!(update.primary_genre_id, None);
    assert_eq!(update.secondary_genre_id, Some(Some(GenreId::new(8))));
    assert_eq!(image, None);
    assert_eq!(cover, None);
    assert!(update.has_changes());
}

#[test]
fn empty_book_update_changes_nothing() {
    let mut s = book_update();
    s.selected_cover_id = Some("sugg-3".to_string());
    let (update, _, cover) = s.into_parts(None, None);
    assert!(!update.has_changes());
    assert_eq!(update.authors, None);
    assert_eq!(cover, Some("sugg-3".to_string()));
}

#[test]
fn author_and_genre_submissions_carry_their_fields() {
    let (author, image) = NewAuthorSubmission {
        name: " Iain Banks ".to_string(),
        created_at: None,
        image: Some("data:x".to_string()),
    }
    .into_parts();
    assert_eq!(author.name, " Iain Banks ");
    assert_eq!(author.normalize().name, "Iain Banks");
    assert_eq!(image, Some("data:x".to_string()));
    let (update, image) = UpdateAuthorSubmission {
        name: Some("Iain M. Banks".to_string()),
        created_at: None,
        image: None,
    }
    .into_parts();
    assert_eq!(update.name, Some("Iain M. Banks".to_string()));
    assert_eq!(image, None);
    let genre = NewGenreSubmission {
        name: "Space opera".to_string(),
        created_at: None,
    }
    .into_new();
    assert_eq!(genre.name, "Space opera");
    let update = UpdateGenreSubmission {
        name: None,
        created_at: None,
    }
    .into_update();
    assert_eq!(update.name, None);
}

fn shelf_book(id: i64, title: &str) -> BookWithAuthors {
    BookWithAuthors {
        book: Book {
            id: BookId::new(id),
            title: title.to_string(),
            isbn: None,
            description: None,
            page_count: None,
            year_published: None,
            publisher: None,
            language: None,
            primary_genre_id: None,
            secondary_genre_id: None,
            created_at: UtcTimestamp::new(0, 0).unwrap(),
        },
        authors: Vec::new(),
        primary_genre: None,
        secondary_genre: None,
    }
}

#[test]
fn only_library_books_of_an_author_are_listed() {
    let books = vec![
        shelf_book(1, "Kindred"),
        shelf_book(2, "Dawn"),
        shelf_book(3, "Wild Seed"),
    ];
    let library: HashSet<i64> = [3, 1, 9].into_iter().collect();
    let kept: Vec<String> = books_in_library(books, &library)
        .into_iter()
        .map(|b| b.book.title)
        .collect();
    assert_eq!(kept, vec!["Kindred".to_string(), "Wild Seed".to_string()]);
    assert!(books_in_library(vec![shelf_book(4, "Fledgling")], &HashSet::new()).is_empty());
}
