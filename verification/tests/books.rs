use booklog::authors::NewAuthor;
use booklog::books::{AuthorRole, NewBook};
use booklog::genres::NewGenre;

// --- AuthorRole ---

#[test]
fn author_role_from_str_valid() {
    assert_eq!("author".parse::<AuthorRole>(), Ok(AuthorRole::Author));
    assert_eq!("editor".parse::<AuthorRole>(), Ok(AuthorRole::Editor));
    assert_eq!(
        "translator".parse::<AuthorRole>(),
        Ok(AuthorRole::Translator)
    );
}

#[test]
fn author_role_from_str_case_insensitive() {
    assert_eq!("AUTHOR".parse::<AuthorRole>(), Ok(AuthorRole::Author));
    assert_eq!("Editor".parse::<AuthorRole>(), Ok(AuthorRole::Editor));
}

#[test]
fn author_role_from_str_invalid() {
    assert!("writer".parse::<AuthorRole>().is_err());
    assert!("".parse::<AuthorRole>().is_err());
}

#[test]
fn author_role_roundtrip() {
    for role in [
        AuthorRole::Author,
        AuthorRole::Editor,
        AuthorRole::Translator,
    ] {
        assert_eq!(role.as_str().parse::<AuthorRole>(), Ok(role));
    }
}

// --- NewBook normalization ---

#[test]
fn normalize_trims_title() {
    let book = NewBook {
        title: "  Hello World  ".to_string(),
        isbn: None,
        description: None,
        page_count: None,
        year_published: None,
        publisher: None,
        language: None,
        primary_genre_id: None,
        secondary_genre_id: None,
        authors: vec![],
        created_at: None,
    }
    .normalize();
    assert_eq!(book.title, "Hello World");
}

#[test]
fn normalize_empty_optional_to_none() {
    let book = NewBook {
        title: "Test".to_string(),
        isbn: Some("  ".to_string()),
        description: Some("".to_string()),
        page_count: None,
        year_published: None,
        publisher: Some("   ".to_string()),
        language: None,
        primary_genre_id: None,
        secondary_genre_id: None,
        authors: vec![],
        created_at: None,
    }
    .normalize();
    assert_eq!(book.isbn, None);
    assert_eq!(book.description, None);
    assert_eq!(book.publisher, None);
}

#[test]
fn normalize_trims_optional_fields() {
    let book = NewBook {
        title: "Test".to_string(),
        isbn: Some("  978-0-13-468599-1  ".to_string()),
        description: None,
        page_count: None,
        year_published: None,
        publisher: Some("  O'Reilly  ".to_string()),
        language: None,
        primary_genre_id: None,
        secondary_genre_id: None,
        authors: vec![],
        created_at: None,
    }
    .normalize();
    assert_eq!(book.isbn, Some("978-0-13-468599-1".to_string()));
    assert_eq!(book.publisher, Some("O'Reilly".to_string()));
}

#[test]
fn normalize_zero_page_count_to_none() {
    let book = NewBook {
        title: "Test".to_string(),
        isbn: None,
        description: None,
        page_count: Some(0),
        year_published: None,
        publisher: None,
        language: None,
        primary_genre_id: None,
        secondary_genre_id: None,
        authors: vec![],
        created_at: None,
    }
    .normalize();
    assert_eq!(book.page_count, None);
}

#[test]
fn normalize_negative_page_count_to_none() {
    let book = NewBook {
        title: "Test".to_string(),
        isbn: None,
        description: None,
        page_count: Some(-5),
        year_published: None,
        publisher: None,
        language: None,
        primary_genre_id: None,
        secondary_genre_id: None,
        authors: vec![],
        created_at: None,
    }
    .normalize();
    assert_eq!(book.page_count, None);
}

#[test]
fn normalize_positive_page_count_kept() {
    let book = NewBook {
        title: "Test".to_string(),
        isbn: None,
        description: None,
        page_count: Some(300),
        year_published: None,
        publisher: None,
        language: None,
        primary_genre_id: None,
        secondary_genre_id: None,
        authors: vec![],
        created_at: None,
    }
    .normalize();
    assert_eq!(book.page_count, Some(300));
}

// --- Authors and genres ---

#[test]
fn authors_normalize_trims_name() {
    let author = NewAuthor {
        name: "  J.R.R. Tolkien  ".to_string(),
        created_at: None,
    }
    .normalize();
    assert_eq!(author.name, "J.R.R. Tolkien");
}

#[test]
fn authors_normalize_whitespace_only_name() {
    let author = NewAuthor {
        name: "   ".to_string(),
        created_at: None,
    }
    .normalize();
    assert_eq!(author.name, "");
}

#[test]
fn genres_normalize_trims_name() {
    let genre = NewGenre {
        name: "  Science Fiction  ".to_string(),
        created_at: None,
    }
    .normalize();
    assert_eq!(genre.name, "Science Fiction");
}

#[test]
fn genres_normalize_whitespace_only_name() {
    let genre = NewGenre {
        name: "   ".to_string(),
        created_at: None,
    }
    .normalize();
    assert_eq!(genre.name, "");
}
