# chronology_gateway

The request logic of the Open Chronology gateway, verified with Verus.

- `src/upstream.rs`: the URL, method and headers of the request that the
  filter sends to PostgREST for an incoming request, and the requests to the
  whole `/sessions` table that it refuses.
- `src/headers.rs`: which request headers are passed on (`Authorization`,
  `Prefer`).
- `src/port.rs`: the port the filter listens on, read from its decimal text.
- `src/prune.rs`: the session pruning request, its cutoff time (formatted
  by chrono), how its answer is read, and how often it runs.
- `src/text.rs`: character-level string helpers.
- `app/`: the two programs (`filter` and `cron-runner`), which do the HTTP
  serving, the outgoing requests, the clock, the environment and logging.
