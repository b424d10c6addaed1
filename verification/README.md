# eulesia

The decision logic of a civic discussion platform's backend, verified with
Verus.

- `src/` — the verified library:
  - `moderation/` — the moderation API's route table, the moderator check,
    and the request flows of the report endpoints (file, list, look up,
    update) as state machines that name each database action and take its
    result back; `laws.rs` holds the proved properties of those flows.
  - `notify/` — the stored form of a notification and the dispatch of a
    notification over the database, native-push and browser-push channels.
  - `ws/` — the registry of live WebSocket connections (a `DashMap` behind
    specified wrappers) and the decisions of the connection handler.
  - `search/` — the search documents and the settings of the search indexes.
  - `ingest/` — the configured sources of council minutes.
  - `time.rs`, `text.rs`, `error.rs` — timestamps (formatted with chrono),
    white-space tests, and the API error.
- `tests/` — tests of the library, run against the real outside crates.
- `app/` — the service around the library: HTTP handlers, database access,
  search-server calls and WebSocket plumbing, which perform the actions the
  library's flows ask for.
