# timer_api

A server of shared countdown timers over WebSockets. Clients connect to a
timer by its UUID, start, stop and set it, and every connected client
receives the timer's state after each change.

The decisions are a library (`src/`) whose functions carry proved
contracts:

- `timer` — one timer as a state machine: commands and ticks in, the new
  state and a broadcast (or stop) out; time is counted in whole
  milliseconds, saturating at `i32::MAX`.
- `server` — the registry of timers and connections: routing a
  connection's requests to its timer, binding and unbinding connections,
  and cleaning up timers that stayed idle longer than the configured age.
  Every operation keeps the registry invariant (each connection is bound to
  a running timer that is not scheduled for cleanup).
- `session` — one WebSocket connection: heartbeats, client timeouts, and
  the close reason for every way a connection ends.
- `message`, `transport`, `config`, `ids` — client commands, transport
  messages, configuration, and UUID generation and formatting.

`app/` is the program around it: the actix-web routes, the tokio tasks that
own the channels and the clock, and JSON (serde) on the wire.
