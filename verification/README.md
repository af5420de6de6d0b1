# Lemonade

A TCP load balancer with HTTP workers. The library (`src/`) holds the logic and
is verified with Verus; `app/` is the executable around it (Tokio services,
file and environment access, serde formats, the Actix and Axum workers, and the
floating-point adaptive scoring).

Verified in `src/`:

- backend selection: round robin, weighted round robin, least connections and
  fastest response time, with laws on fairness, proportionality and minimality;
- the adaptive strategy's score cache (TTL and version invalidation);
- configuration from environment values (defaults, decimal parsing with the
  standard library's error messages, the backend address list), file-format
  dispatch, duration texts;
- the routing table of backend state, its migration to a new configuration
  (kept backends keep their state, dropped ones drain their open connections
  and then leave), and the decisions of the health monitor,
  the metrics aggregator, the proxy's admission control and its connection
  bookkeeping;
- the first-generation balancer's algorithm and strategy names.

Run `lemonade load-balancer [--config file]` or
`lemonade worker --framework actix|axum --address host:port`.
