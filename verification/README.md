# reddyt

The core of the reddyt backend, written in Verus.

- `src/` is the verified library: account credential hashing and checking
  (scrypt), OAuth token sets, scheduling overrides, profiles and the other
  database models, validation of the environment configuration, and the
  optional authentication of requests (HTTP Basic against the configured
  administrator, or a JWT bearer token / session cookie), with the decisions
  of the `/authentication` routes.
- `app/` is the Actix Web server around it: reading the environment, the
  PostgreSQL queries (sqlx), the request extractor and the routes.
- `tests/` exercise the library with the real outside crates.
