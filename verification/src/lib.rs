//! Verified core of a Solana validator/RPC KPI exporter: the decisions and
//! computations behind the exported metrics.
pub mod wide;
pub mod target;
pub mod kpi;
pub mod uptime;
pub mod config;
pub mod snapshot;
pub mod collect;
pub mod metrics;
