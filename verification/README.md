# perps

The decision logic of a small exchange API, verified with Verus.

- `src/` is the library. Each HTTP route's decisions (who may log in, what a
  sign-up answers, how a bearer token is read, when a deposit is credited, what
  each reply carries) are functions with contracts, and the rules that span
  calls (a signed-up password logs in, a confirmed deposit is credited once,
  a bearer header gives its token back) are proof functions.
- `app/` is the server around it: configuration, Postgres queries, the axum
  routes of the current API and the actix-web routes of the first one. It runs
  each query and hands the rows to the library, which decides the next step.
- `tests/` exercises the library with the real `argon2`, `jsonwebtoken`,
  `uuid` and `chrono`.
