# ddtelemetry

A telemetry worker collects what an application uses and does (dependencies,
integrations, configuration, logs, metrics) and reports it to an agent or an
intake. The rules of the worker are verified with Verus.

- `src/worker.rs` and `src/worker/`: the worker as a state machine. An action goes
  in, a command comes out; the outcome of the command goes back in. `model.rs` says
  what each step does, `laws.rs` what holds over many steps.
- `src/worker/request.rs`: the requests that carry telemetry, built with `http`.
- `src/tracer.rs`, `src/endpoint.rs`, `src/config_utils.rs`: where traces are sent.
- `app/`: mailbox, clock, HTTP client, floating point aggregates and JSON around the
  library.
