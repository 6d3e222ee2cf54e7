# tcp_gateway

A TCP gateway that balances requests between a primary and a canary backend,
with its decisions verified by Verus.

- `src/routing.rs`: backends, their status, the configuration, and the choice
  of backend for a request (by health and canary percentage).
- `src/session.rs`: one client connection as a state machine; the caller
  performs each command (read, connect, send, reply) and reports the outcome.
- `src/response.rs`: status code, response rewriting with the latency header,
  and the metrics endpoint's reply.
- `src/state.rs`: the shared configuration and health state.
- `src/settings.rs`: settings from environment values.
- `src/text.rs`, `src/number.rs`: line and word splitting, decimal numbers.
- `app/`: the async runtime, sockets, Redis, Prometheus and logging.
