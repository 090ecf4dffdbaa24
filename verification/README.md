# pdp

A Policy Decision Point server and the engine that supervises its Python
PDP process, with the decision logic verified by Verus.

## Layout

- `src/` — the verified library.
  - `text.rs`, `strmap.rs`, `clock.rs` — text utilities, a string-keyed map
    with distinct keys, and the clock.
  - `engine/` — the PDP process engine: typed command-line arguments, the
    builder, errors, the decisions of running and restarting the process,
    forwarding signals, and watching its health.
  - `server/` — the server: configuration, cache headers, API-key
    authentication, forwarding to Horizon, health reports, the AuthZen
    endpoints, the Trino integration (access checks, row filters, column
    masks), and the OAuth 2.0 endpoints backed by Permit.io.
- `tests/` — tests of the library.
- `app/` — the server binary: configuration from the environment, the HTTP
  routes, the OPA, Permit.io and Horizon clients, the decision cache
  (in memory or Redis), the supervised Horizon process, and the JSON forms
  of the library's types.
