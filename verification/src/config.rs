//! The exporter's configuration, as plain values.
use vstd::prelude::*;
use crate::target::SloTarget;

verus! {

/// Whether the node is a voting validator or an RPC node.
#[derive(Clone, Copy, Debug, PartialEq, Eq, Structural)]
pub enum Mode {
    Validator,
    Rpc,
}

#[derive(Debug)]
pub struct RpcConfig {
    /// The node whose figures are exported.
    pub target_url: String,
    /// A node whose slot serves as the reference for the sync lag.
    pub reference_url: String,
    pub commitment: String,
    pub timeout_secs: u64,
}

#[derive(Debug)]
pub struct IdentityConfig {
    pub node_pubkey: String,
    pub vote_pubkey: Option<String>,
}

#[derive(Debug)]
pub struct ExporterConfig {
    pub listen_addr: String,
    pub poll_interval_secs: u64,
    pub state_path: String,
    pub log_level: String,
}

#[derive(Clone, Copy, Debug, PartialEq, Eq, Structural)]
pub struct UptimeConfig {
    pub window_hours: i64,
    pub max_sync_lag_slots: u64,
    pub max_last_vote_lag_slots: u64,
    pub max_root_lag_slots: u64,
    pub require_health_ok: bool,
    pub require_not_delinquent: bool,
}

#[derive(Clone, Copy, Debug, PartialEq, Eq, Structural)]
pub struct FeatureConfig {
    pub enable_vote_metrics: bool,
    pub enable_skip_rate: bool,
    pub enable_balance_metrics: bool,
    pub enable_snapshot_metrics: bool,
    pub enable_sync_metrics: bool,
    pub enable_rpc_status_metrics: bool,
}

/// The service-level targets, in percent.
#[derive(Clone, Copy, Debug, PartialEq, Eq, Structural)]
pub struct SloConfig {
    pub uptime_target: SloTarget,
    pub voting_effectiveness_target: SloTarget,
    pub skip_rate_target: SloTarget,
}

#[derive(Debug)]
pub struct Config {
    pub mode: Mode,
    pub rpc: RpcConfig,
    pub identity: IdentityConfig,
    pub exporter: ExporterConfig,
    pub uptime: UptimeConfig,
    pub features: FeatureConfig,
    pub slo: SloConfig,
}

} // verus!
