# indexdb_es

Event-sourcing persistence for `cqrs_es` on a browser's IndexedDB.

- `src/` is the verified library: the repository's errors and how they map
  onto `cqrs_es` errors, the repository configuration, the layout of the store
  of events, and the state machines that decide each step of an insertion of
  events (every event tried, commit only if all were accepted) and of a push of
  values (stop at the first refusal).
- `app/` holds the asynchronous IndexedDB work and the `cqrs_es` / `serde`
  integrations; it drives the library's state machines.
- `tests/` exercises the library.
