# mace_reforge

A discussion board: topics hold questions; a closed question is answered by
placing a vote on a circle of fixed answers, an open question by free text
that is then placed in a plane by its meaning.

`src/` is the verified core, checked with Verus:

- `model` — the records (topics, questions, votes, users, request bodies)
  and their mathematical views;
- `keyed` — records found by a string key, and the linear search;
- `db` — the store and every change the server makes to it, each with an
  exact contract over the views;
- `db_laws` — what holds across those changes: ids are never reused, the
  store stays well formed, reads give back writes, inserting then deleting
  an answer undoes it, storing a vote or an answer twice is storing it once;
- `decimal` — decimal and zero-padded rendering of numbers;
- `calendar` — the store's file, the date and hour of a time, and the
  hourly backup names;
- `route` — the pages' URL fragments, with their round trip;
- `text` — trimming, blank tests, substring search, case-insensitive matching;
- `client` — what the pages decide apart from drawing;
- `live` — the decisions of a question's live channel, and the cache keys of
  projection axes.

`app/` is the rest: the HTTP server (`main.rs`), the JSON shapes of the
records (`wire.rs`), the store on disk (`storage.rs`), the projections of
answers in the plane, which compute with floating point (`projection.rs`),
and the browser client drawn with Leptos (`client/`).

`tests/` runs the library on concrete values.
