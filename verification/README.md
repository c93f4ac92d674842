# fatum_api_rs

Account and token logic of a small HTTP API: e-mail validation, password hashing and
checking, signed expiring tokens, and the decisions of the login, password-change,
authorization and health-check endpoints.

- `src/` is the library, verified with Verus. Calls into `validator`, `argon2`,
  `jsonwebtoken`, `uuid` and `chrono` stand behind small trusted wrappers whose
  contracts name what those crates compute.
- `app/` is the service around it: configuration loading, PostgreSQL access, the axum
  router and handlers, which perform the I/O and ask the library what to answer.
- `tests/` exercises the library with the real outside crates linked.
