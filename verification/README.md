# booklog

The verified core of Booklog, a self-hosted, multi-user book tracking
platform: each user keeps a library and a wishlist, with readings, quick
reviews, statistics and a timeline of activity.

The library (`src/`) holds the rules of the domain and the decisions of the
web layer, each with a contract proved by Verus:

- `listing`: sort keys and directions, page sizes, list requests and result
  pages;
- `authors`, `genres`, `books`, `readings`, `user_books`, `quick_reviews`:
  the entities, their vocabularies (parsed back from their own names), the
  normalisation of submitted data and the timeline events they record;
- `requests`, `pages`, `scan`: query strings, submissions and the answers of
  the handlers, the values that forms open with, and book scans;
- `services`: what a new reading does to the shelves, and which refreshes a
  batch of invalidation signals calls for;
- `stats`, `formatting`, `time`, `text`: numbers, relative times, dates and
  the string handling the rest is built on;
- `users`: the acting user of a request and the rules of account
  administration.

Calls into `chrono` and `rand` stand behind small trusted wrappers whose
contracts say what the library relies on.

`tests/` runs the library on concrete values. `app/` is ordinary Rust around
it: `serde` payloads, floating-point ratings and statistics, the rate
limiter, and the readings of the clock.
