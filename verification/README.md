# Enterprise architecture platform

The back end of a platform for modelling an enterprise's business
architecture: value streams, business capabilities and processes, spaces
that hold them, user accounts with roles, and an OAuth 2 authorization-code
flow with PKCE.

The domain rules are a library verified with Verus; the server around it is
ordinary Rust.

## Layout

- `src/` — the verified library.
  - `value_stream.rs`, `value_stream_service.rs` — the value-stream aggregate
    (one-way archiving, versioning under a logical id, updates) and what
    becomes of a stored version once it is looked up.
  - `catalog.rs`, `entities.rs` — capabilities, processes (publication of a
    new process version), and which columns a save writes.
  - `space.rs` — spaces, members, the ownership quota and the owner guard.
  - `user.rs`, `auth.rs`, `crypto.rs`, `user_error.rs` — accounts, login,
    refresh tokens, the OAuth flow, token digests and password hashes, and
    how errors are answered.
  - `graphql_guard.rs` — who may read or mutate what through GraphQL.
  - `version.rs`, `ids.rs`, `enums.rs`, `text.rs` — semantic versions, UUIDs
    and instants, stored enumeration values, text helpers.
  - `config.rs`, `llm.rs`, `bootstrap.rs` — configuration defaults, the
    language-model backend, admin seeding and health.
- `tests/` — tests of the library.
- `app/` — the HTTP server (axum, sea-orm, async-graphql, jsonwebtoken).
