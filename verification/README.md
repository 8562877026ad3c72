# musicview

The request-handling logic of the musicView web service (accounts,
sessions, comments, replies, likes and liked artists), verified with Verus.

- `src/` is the library. Each endpoint is a function from its request and
  the outcomes of the database operations performed so far to the next
  step: a `Command` to carry out, or the final `Response`. Its contract
  states that step exactly, through a `*_plan` spec function. `access.rs`,
  `counters.rs`, `sessions.rs`, `ids.rs`, `users.rs`, `likes.rs` and
  `artists.rs` hold the proved properties that span handlers.
- `app/` is the server: actix-web routes, the MongoDB calls that carry out
  the commands, TLS setup and the periodic sweep of expired sessions.
