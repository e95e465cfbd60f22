# orchestrator_client

Client-side logic of a guardrails orchestrator, with contracts that Verus proves: what
the health of a service is, how its errors are reported, what a request passes on and
which labels its metrics carry, how connections are configured, and which telemetry is
set up.

- `src/` is the library. Everything in it is verified, except the small functions that
  call other crates; each of those says above it what it claims of the call.
- `tests/` runs the library together with those crates.
- `app/` is the server around the library: command line, network, telemetry exporters.

Where the modules of `src/` belong:

| Modules | Subject |
| --- | --- |
| `status`, `errors`, `orchestrator_errors`, `detector` | status codes and errors |
| `health`, `health_cache` | health checks and their latest results |
| `url`, `hostname`, `config`, `tls`, `client` | where services are and how to connect |
| `http_client`, `grpc_client`, `nlp`, `generation_nlp` | what is sent, and what responses mean |
| `request`, `request_info`, `metrics`, `clock` | requests under way and their metrics |
| `headers`, `propagation`, `trace_context` | headers and what is passed on in them |
| `tracing_config`, `tracing_setup`, `args` | telemetry and logs |
| `server` | routes and streamed answers |
| `text` | text building blocks |
