# smart_geyser

Verified core of a learning controller for domestic water heaters
(electric, solar-pumped, heat pump).

- `src/` — the library, verified with Verus: the decision engine's tick,
  the falling-edge use-event state machine, the hour-of-week calendar of the
  usage histogram and its daily decay, the element/boost command logic of
  the scheduler, the shared engine flags, the boost request check, the
  command line, and the Geyserwala REST/MQTT addressing and payloads.
  Instants are `i128` nanoseconds since the Unix epoch (UTC).
- `app/` — the service around it: hardware providers (HTTP, MQTT), the
  async scheduler loop, the HTTP API, persistence, and the floating-point
  parts (heat-lead arithmetic, histogram weights, temperature trends).
- `tests/` — tests of the library.
