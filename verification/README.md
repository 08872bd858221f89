# zenoh_oam

Link quality measurement (OAM: operations, administration and maintenance)
for Zenoh unicast transports, and the modem driver protocol by which modems
announce links, report metrics and answer requests. The library in `src/` is
written in Verus: its functions carry contracts, except the thin wrappers that
read the clock or draw random numbers, whose results nothing can predict, and
the functions that only hand such a reading on. The functions that compute
from a reading state what holds whatever was read, and most have a form that
takes the reading as an argument and states the result exactly. Laws that
relate several functions are stated and proved as proof functions.

## Layout

- `src/oam_message.rs`, `src/oam_id.rs`, `src/oam_flag.rs`: OAM messages and the
  loopback, delay measurement and synthetic loss probe payloads.
- `src/responder.rs`, `src/prober.rs`, `src/rx_oam.rs`: answering probes, sending
  probes and matching replies, and what the receive path does with OAM messages.
- `src/metrics.rs`, `src/oam_config.rs`: per-link quality metrics and settings.
- `src/protocol_core.rs`, `src/link_control.rs`, `src/link_selection.rs`,
  `src/transport_decisions.rs`: priorities, locators, controller overrides, and
  the choice of a link for each message.
- `src/modem_types.rs`, `src/modem_sdk.rs`, `src/data_plane.rs`: the modem driver
  control-plane and data-plane messages, their frames, builders, link queries,
  request handling and the modem state machine.
- `src/clock.rs`, `src/wire.rs`: clock and randomness sources, big-endian integers.
- `app/`: MessagePack encoding (serde copies of the message types), floating-point
  unit conversions, async driver traits, the modem server socket loop and the
  prober task.
- `tests/`: tests of the library.

Durations are nanoseconds (`u64`) throughout the library; physical readings are
fixed-point integers (hundredths of a dB, parts per million, microseconds).
