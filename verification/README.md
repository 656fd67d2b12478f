# darkhorse_store

The PostgreSQL store of the Darkhorse identity server, split in two:

- `src/` is a library verified with Verus. It holds the decisions the store
  makes around its transactions that do not rest on the identity domain's
  rules: migration compatibility and the migration
  journal, instrumentation histograms, the catalog's listing and link
  statements and write plans, directory and operator audit vocabularies,
  personal-key capability sets and policy projections, limiter fencing,
  mail delivery outcomes, OpenID Connect request decoding, media and profile
  targets, the answers of registration checks, the one-time bootstrap and
  login-key pinning steps, and the classification of failures. Each public function
  states its result in `ensures`; the `law_*` proof functions state what holds
  across calls.
- `app/` is ordinary Rust: the connection pool, the transactions that run the
  statements the library builds, the decoding of rows into the library's
  types, and the signal-driven profiling reporter. It carries the pool,
  migrations, profiling, limiter, catalog listing, mail queue and bootstrap
  transactions; the store traits of the application layer, and the
  transactions built on them, are not part of this crate.

Policies that belong to the identity domain (session liveness, retry and
issuing budgets, recovery deadlines) are inputs to the library's functions.
