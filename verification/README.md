# esm

A small server-monitoring web service: users log in for a signed token,
protected routes check that token, and a websocket pushes the machine's
status every few seconds.

- `src/` is the verified library (Verus): configuration file choice and the
  listening address, the login and token-guard decisions, database driver
  selection, the system status report, and the websocket push decision.
- `app/` is the service around it: HTTP routes (axum), the database (rbatis),
  token signing and checking (jsonwebtoken), reading the system (sysinfo),
  and the JSON forms of the library's types (serde).
- `tests/` runs the library on concrete values.
