# soar

Flight tracking logic for gliders and other aircraft, verified with Verus.

`src/` is the library; Verus verifies all of it against its contracts:

- `flight_tracker/` — per-aircraft fix history, climb rate and flight phase, the
  state machine that turns each position report into flight starts, splits and
  landings, callsign learning, runway choice, towing detection decisions, geofence
  checks and exits;
- `flights`, `igc` — flights, their state, the IGC export and the KML pieces;
- `geofence`, `locations`, `geocoding`, `loader` — request validation, address
  assembly and the reading of geocoding service answers;
- `live_fixes`, `notifications`, `log_format`, `ingest_config`, `environment` —
  shared live-fix subscriptions, recipients, log prefixes, configuration.

Values are integers throughout: identifiers are the 128 bits of a UUID, instants are
microseconds since the Unix epoch (UTC), coordinates are micro-degrees, ground speed is
thousandths of a knot and geofence radii are micro-nautical-miles.

`app/` is ordinary Rust around the library: reading the environment and configuration
files, floating-point geometry (great-circle distances, splines, path simplification),
network geocoding glue and the driver that performs what the fix state machine asks for.

`tests/` exercise the library on concrete values.
