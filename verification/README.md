# roulette

Randomized cycling route generator under constraints: pick a start, a
distance and a climb ceiling, and a loop (or one-way route) is routed
through BRouter and served as GPX.

- `src/` is the verified library (Verus): routing profiles and BRouter
  request URLs, geocoding queries and percent-encoding, waypoint
  bookkeeping, the constraint retry loop with its warnings, elevation
  profile sampling and compass sectors, the daily-challenge plan and
  avoid-upload sessions. Coordinates never enter it: every rule that
  works on floating-point values stays outside.
- `app/` is the web server (axum, tokio, reqwest, rusqlite, gpx, geo): it
  reads requests, talks to BRouter, Nominatim and SQLite, measures routes
  and runs the retry loop whose decisions the library takes.
- `tests/` exercises the library on concrete values.

Pages are read at run time from `templates/` and `static/`.
