# ojp_rs

Builds OJP 2.0 (Open Journey Planner) requests for the Swiss open transport
data endpoint: location information requests (a stop searched by name) and
trip requests (between two stop references, optionally with individual
transport modes), verified with Verus.

- `src/` is the verified library: request settings (`builder`), request types
  and transport modes (`mode`), errors (`error`), the fixed XML text
  (`template`), decimal text (`text`), the request instant and its chrono
  formatting (`time`), the secret token (`token`), XML escaping through
  quick-xml (`xml`), and proved properties (`laws`).
- `app/` sends requests with reqwest, logs with tracing, and gives the errors
  their messages with thiserror.
- `tests/` runs the library against the real outside crates.
