# Offworld trading manager

A space-trading game server. Players own stations on planets of star
systems, ship goods between them, run trade requests that feed settlement
economies, and pay for constructions with credits and goods.

- `src/` is the game logic, verified with Verus: the galaxy and its
  searches, inventories, the ship and trade-request lifecycles, the
  construction payments, authentication, configuration overrides, and the
  HTTP status of every error. `src/laws.rs` states properties that span
  several operations.
- `app/` is the HTTP server around it: routing, JSON, the configuration
  file, the database, timers and notifications.
- `tests/` exercises the library on concrete values.
