# solana_kpi

A Prometheus exporter of Solana validator and RPC-node KPIs (uptime ratio,
voting effectiveness, skip rate, sync and vote lags, balances), whose
decisions and figures are proved correct with Verus.

Layout:

- `src/target.rs` - service-level targets held exactly, as significant
  digits and a decimal exponent; the parser for any decimal that Rust writes
  for an `f64`, and the exact comparison of a ratio with a target.
- `src/wide.rs` - 256-bit products, for comparisons whose sides leave `u128`.
- `src/kpi.rs` - the figures derived from RPC replies: lags, the vote account
  reported, block production of the node and of the cluster, credits earned,
  skip rate and voting effectiveness.
- `src/uptime.rs` - the sliding window of up/down observations and its ratio.
- `src/collect.rs` - one collection as a sequence of RPC requests: which
  request comes next, what each reply contributes, when the collection fails.
- `src/snapshot.rs` - the snapshot a collection yields, and what the
  exporter publishes after each collection (the last good snapshot is kept
  on failure).
- `src/metrics.rs` - the exported metrics: names, help texts, labels, and the
  value each takes from a snapshot.
- `src/config.rs` - the configuration as plain values.
- `app/main.rs` - the process: configuration file, JSON-RPC over HTTP, the
  state file, the Prometheus registry and the HTTP server.

Percentages and SLO decisions are computed exactly; the app turns them into
the `f64` gauge values at the edge.

`extras/config.example.toml` is a complete configuration file; it sets
`poll_interval_secs = 60` and `timeout_secs = 6`, the intended defaults.
