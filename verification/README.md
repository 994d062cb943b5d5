# ryu-teams

Agent teams: a persisted, named, ordered collection of agent ids plus a coordination
strategy, addressed as one unit, and the `/api/teams/*` surface that serves them. The
library is verified with Verus.

- `src/` is the library. It decides which statements an operation or a request runs, what
  it makes of the replies, what it answers and which event it raises; who is let in; and
  what the environment configures. It does no input or output of its own: an operation is
  a statement to run and a state to resume with the reply.
- `src/table.rs` is a model of the database: what it replies to the statements and what
  they do to the `teams` table. `src/laws.rs` proves over it what holds of the operations
  and requests as a whole. That a database takes the texts of the statements as the model
  does is not proved; `tests/sqlite.rs` runs them against one.
- `app/` is the service around it: SQLite, HTTP, the JSON shapes and the host's events.
- `tests/` runs the library, on its own and against a database in memory.

What is taken on trust stands in `src/json.rs` (reading and writing a list of strings as
JSON) and `src/stamp.rs` (a random UUID, the time).

The service listens on loopback, on `RYU_TEAMS_PORT` (7995 where it is unset), and lets in
only requests that present `RYU_EXT_TOKEN` as their bearer token; without one it lets in
none. `/health` asks for no token.
