//! Booklog: the verified core of a self-hosted book tracking platform.
//!
//! The library holds the rules of the domain (listing and pagination, the
//! reading, shelf and review vocabularies, normalisation of submitted data,
//! timeline snapshots, statistics formatting) and the request decisions that
//! the web layer takes, each with a contract proved by Verus.
pub mod authors;
pub mod books;
pub mod formatting;
pub mod genres;
pub mod ids;
pub mod listing;
pub mod pages;
pub mod quick_reviews;
pub mod readings;
pub mod requests;
pub mod scan;
pub mod services;
pub mod stats;
pub mod text;
pub mod time;
pub mod timeline;
pub mod user_books;
pub mod users;
