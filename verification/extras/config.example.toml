# An example configuration for the exporter; the path of the file is the
# program's first argument (config/config.toml when none is given).
# Every key is required.

mode = "validator"          # or "rpc"

[rpc]
target_url = "http://127.0.0.1:8899"
reference_url = "https://api.mainnet-beta.solana.com"
commitment = "finalized"
timeout_secs = 6

[identity]
node_pubkey = "YourNodeIdentityPubkey"
vote_pubkey = "YourVoteAccountPubkey"   # leave out in rpc mode

[exporter]
listen_addr = "127.0.0.1:9898"
poll_interval_secs = 60
state_path = "state/state.json"
log_level = "info"

[uptime]
window_hours = 24
max_sync_lag_slots = 150
max_last_vote_lag_slots = 150
max_root_lag_slots = 400
require_health_ok = true
require_not_delinquent = true

[features]
enable_vote_metrics = true
enable_skip_rate = true
enable_balance_metrics = true
enable_snapshot_metrics = true
enable_sync_metrics = true
enable_rpc_status_metrics = true

[slo]
uptime_target_pct = 99.95
voting_effectiveness_target_pct = 99.8
skip_rate_target_pct = 5.0
