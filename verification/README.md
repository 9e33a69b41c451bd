# imageboard

The verified core of a small imageboard backend (boards, threads, posts and
an admin area guarded by HS512 JSON Web Tokens), written in Verus.

- `src/` is the verified library: reply-reference parsing (`utils`),
  white-space trimming and prefix handling (`chars`), `i32` parsing
  (`numbers`), token issue and bearer checks (`middlewares::auth`), the admin
  login and Basic guard (`admin`), and the rules of boards and posts
  (`boards`, `posts`).
- `app/` is the HTTP server around it: actix-web routes, the PostgreSQL
  queries (sqlx), environment configuration and JSON (serde).
- `tests/` runs the library with the real `regex`, `jsonwebtoken` and
  `chrono` crates.
