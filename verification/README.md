# metrics-core

The verified core of a modular monitoring engine that collects metrics from
pluggable modules (system resources, ZFS pools, Immich statistics) on a
schedule and writes them to InfluxDB (line protocol) or a Prometheus
Pushgateway (text exposition format).

Layout:

* `src/` — the library, verified with Verus:
  * `export` — request bodies, endpoints and headers for both backends, and
    how a backend's answer becomes the write's result;
  * `scheduler` — which module runs in a tick, the table of runs in flight,
    and the record a finished run leaves;
  * `api` — login and session authentication, authorisation and the record
    changes behind each HTTP endpoint, the module store and the installation
    steps;
  * `zfs`, `immich`, `system` — module metadata, `zpool list` parsing, sizes,
    and the samples each module reports;
  * `storage`, `settings`, `records`, `model` — record types, store rules and
    start-up settings;
  * `token` — signing and reading HS256 session tokens (jsonwebtoken);
  * `split`, `text`, `password` — text primitives and the Argon2 bridge.
* `tests/` — tests of the library on concrete values.
* `app/` — the server around it: HTTP (axum), the database (SurrealDB),
  module loading (libloading), HTTP clients (reqwest) and the scheduler loop.
