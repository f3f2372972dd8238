# urn_acoustics_backend

Backend of an urn-listening ("瓮听") acoustic monitoring system: sensor
readings arrive over MQTT, are validated, analysed as Helmholtz resonances,
combined by beamforming into source locations, turned into alerts and pushed
to WebSocket clients, and persisted in ClickHouse.

Layout:

- `src/` — the library, verified with Verus. It holds the integer and text
  logic of the pipeline: the per-key alert cooldown (`alerts`), the metric
  counters and their Prometheus exposition (`metrics`), the reading validation
  rules and verdict (`pipeline`), the bounded per-device history and source id
  allocation (`source_locator`), the persistence bookkeeping (`db_writer`),
  the store's query text (`store`), the API envelope (`handlers`), the MQTT
  payload routing (`mqtt_receiver`), the configuration directory search and
  settings (`config_loader`, `config`), and decimal rendering (`text`).
- `app/` — the service around it: configuration files, MQTT, HTTP and
  WebSocket I/O, the database client, the async workers, the summaries of
  floating-point observations appended to the metrics text, and the acoustic and
  beamforming models, which compute in floating point.
- `tests/` — tests of the library.
