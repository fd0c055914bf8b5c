# game_zone

A small game site (axum, PostgreSQL, S3) whose logic is a Verus-verified
library.

- `src/` — the verified library:
  - `auth.rs`: session claims, their JSON text, the HS256 token, the session
    cookie, password hashing; laws on the session lifetime.
  - `json.rs`: JSON string escaping and decimal numbers, with the law that
    escaping loses nothing.
  - `handlers.rs`: the login decision and the steps of the landing page.
  - `components.rs`: the login-field fragment.
  - `s3.rs`: the state machine that serves the stored image, with its laws.
  - `cors.rs`: the cross-origin policy.
  - `model.rs`: database rows and page values.
- `tests/` — tests of the library on concrete values.
- `app/` — the server: routing, database queries, S3 calls, HTML pages,
  and the serde/sqlx copies of the library's types.
