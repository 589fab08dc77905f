# HARetroPanel

A server-rendered Home Assistant dashboard for old devices. The decisions
behind it are a Verus library with contracts; the server around it is
ordinary Rust.

- `src/` — the verified library: settings from the environment, the
  cached dashboard state and its lifetimes, the sample histories behind
  the charts, the charger and pump tiles, the Home Assistant records and
  service calls, the demo stand-in, the page layout, the settings rows and
  the WebSocket commands. Proof functions named `lemma_*` state the laws
  the library keeps.
- `tests/` — tests of the library on concrete values.
- `app/` — the server: environment and `.env` loading, logging, the HTTP
  client, the axum routes and templates, the WebSocket loop, and the
  floating-point readings and their formatting.
