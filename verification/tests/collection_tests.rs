use solana_kpi::collect::{CollectError, Collection, Endpoint, RpcCall, RpcReply, Stage};
use solana_kpi::config::{
    Config, ExporterConfig, FeatureConfig, IdentityConfig, Mode, RpcConfig, SloConfig, UptimeConfig,
};
use solana_kpi::kpi::{EpochInfo, ProductionEntry, SnapshotSlots, VoteAccount};
use solana_kpi::snapshot::{assemble, Exporter, Observations, Snapshot, ValidatorObservations};
use solana_kpi::target::{Fraction, SloTarget};
use solana_kpi::uptime::{Timestamp, UptimeHistory};

fn target(mantissa: u64, exponent: i128) -> SloTarget {
    SloTarget::Finite { negative: false, mantissa, exponent }
}

fn config(mode: Mode, vote: Option<&str>, skip: bool, balance: bool) -> Config {
    Config {
        mode,
        rpc: RpcConfig {
            target_url: "http://127.0.0.1:8899".to_string(),
            reference_url: "https://api.mainnet-beta.solana.com".to_string(),
            commitment: "finalized".to_string(),
            timeout_secs: 6,
        },
        identity: IdentityConfig {
            node_pubkey: "Node111".to_string(),
            vote_pubkey: vote.map(|v| v.to_string()),
        },
        exporter: ExporterConfig {
            listen_addr: "127.0.0.1:9898".to_string(),
            poll_interval_secs: 60,
            state_path: "state/state.json".to_string(),
            log_level: "info".to_string(),
        },
        uptime: UptimeConfig {
            window_hours: 24,
            max_sync_lag_slots: 150,
            max_last_vote_lag_slots: 150,
            max_root_lag_slots: 400,
            require_health_ok: true,
            require_not_delinquent: true,
        },
        features: FeatureConfig {
            enable_vote_metrics: true,
            enable_skip_rate: skip,
            enable_balance_metrics: balance,
            enable_snapshot_metrics: true,
            enable_sync_metrics: true,
            enable_rpc_status_metrics: true,
        },
        slo: SloConfig {
            uptime_target: target(9995, -2),
            voting_effectiveness_target: target(998, -1),
            skip_rate_target: target(5, 0),
        },
    }
}

fn vote_account() -> VoteAccount {
    VoteAccount {
        activated_stake: 2_500_000_000_000,
        commission: 7,
        epoch_credits: vec![(500, 10_000, 9_000), (501, 14_000, 10_000)],
        last_vote: 1_000_090,
        node_pubkey: "Node111".to_string(),
        root_slot: 1_000_000,
        vote_pubkey: "Vote222".to_string(),
    }
}

fn production() -> Vec<ProductionEntry> {
    vec![
        ProductionEntry { identity: "Other".to_string(), leader_slots: 100, produced_blocks: 150 },
        ProductionEntry { identity: "Node111".to_string(), leader_slots: 40, produced_blocks: 38 },
    ]
}

fn node_obs() -> Observations {
    Observations {
        version: "1.18.22".to_string(),
        health_ok: true,
        epoch_info: EpochInfo { block_height: 900_000, epoch: 501, slot_index: 1234, slots_in_epoch: 432_000 },
        local_slot: 1_000_100,
        reference_slot: 1_000_120,
        max_shred_insert_slot: 1_000_105,
        snapshot_slots: SnapshotSlots { full: 999_000, incremental: 1_000_050 },
        identity_balance: 3_000_000_000,
        validator: None,
    }
}

fn reply_for(stage: Stage) -> RpcReply {
    match stage {
        Stage::Version => RpcReply::Version { solana_core: "1.18.22".to_string() },
        Stage::Health => RpcReply::Health { healthy: true },
        Stage::EpochInfo => RpcReply::EpochInfo(EpochInfo {
            block_height: 900_000,
            epoch: 501,
            slot_index: 1234,
            slots_in_epoch: 432_000,
        }),
        Stage::LocalSlot => RpcReply::Slot(1_000_100),
        Stage::ReferenceSlot => RpcReply::Slot(1_000_120),
        Stage::MaxShredInsertSlot => RpcReply::Slot(1_000_105),
        Stage::HighestSnapshotSlot => RpcReply::SnapshotSlots(SnapshotSlots { full: 999_000, incremental: 1_000_050 }),
        Stage::IdentityBalance => RpcReply::Balance(3_000_000_000),
        Stage::VoteAccounts => RpcReply::VoteAccounts { current: vec![vote_account()], delinquent: vec![] },
        Stage::BlockProduction => RpcReply::BlockProduction(production()),
        Stage::VoteBalance => RpcReply::Balance(1_500_000_000),
        Stage::Finished => unreachable!(),
    }
}

/// Runs a collection to its end, answering each request with `answer`,
/// and returns the stages requested in order.
fn drive(cfg: &Config, answer: impl Fn(Stage) -> Option<RpcReply>) -> (Collection, Vec<Stage>) {
    let mut c = Collection::new();
    let mut stages = vec![];
    while let Some(_req) = c.next_request(cfg) {
        stages.push(c.stage);
        let reply = answer(c.stage);
        c.absorb(cfg, reply);
    }
    (c, stages)
}

#[test]
fn rpc_mode_collection_requests() {
    let cfg = config(Mode::Rpc, None, true, false);
    let (c, stages) = drive(&cfg, |s| Some(reply_for(s)));
    assert_eq!(
        stages,
        vec![
            Stage::Version,
            Stage::Health,
            Stage::EpochInfo,
            Stage::LocalSlot,
            Stage::ReferenceSlot,
            Stage::MaxShredInsertSlot,
            Stage::HighestSnapshotSlot,
        ]
    );
    assert_eq!(c.stage, Stage::Finished);
    assert!(c.failure.is_none());
}

#[test]
fn validator_mode_collection_requests() {
    let cfg = config(Mode::Validator, Some("Vote222"), true, true);
    let mut c = Collection::new();
    let mut calls = vec![];
    while let Some(req) = c.next_request(&cfg) {
        calls.push(req);
        let reply = reply_for(c.stage);
        c.absorb(&cfg, Some(reply));
    }
    assert_eq!(calls.len(), 11);
    assert_eq!(calls[4].endpoint, Endpoint::Reference);
    assert!(calls.iter().enumerate().all(|(i, r)| i == 4 || r.endpoint == Endpoint::Target));
    match &calls[7].call {
        RpcCall::GetBalance { address, commitment } => {
            assert_eq!(address, "Node111");
            assert_eq!(commitment, "finalized");
        }
        other => panic!("unexpected {other:?}"),
    }
    match &calls[8].call {
        RpcCall::GetVoteAccounts { vote_pubkey, .. } => assert_eq!(vote_pubkey, "Vote222"),
        other => panic!("unexpected {other:?}"),
    }
    match &calls[10].call {
        RpcCall::GetBalance { address, .. } => assert_eq!(address, "Vote222"),
        other => panic!("unexpected {other:?}"),
    }
    let obs = c.into_observations().unwrap();
    assert_eq!(obs.identity_balance, 3_000_000_000);
    let v = obs.validator.as_ref().unwrap();
    assert_eq!(v.vote_balance, 1_500_000_000);
    assert!(!v.delinquent);
    assert_eq!(v.production.len(), 2);
}

#[test]
fn optional_requests_fall_back_to_defaults() {
    let cfg = config(Mode::Rpc, None, false, true);
    let (c, _) = drive(&cfg, |s| match s {
        Stage::MaxShredInsertSlot | Stage::HighestSnapshotSlot | Stage::IdentityBalance => None,
        _ => Some(reply_for(s)),
    });
    let obs = c.into_observations().unwrap();
    assert_eq!(obs.max_shred_insert_slot, 1_000_100);
    assert_eq!(obs.snapshot_slots, SnapshotSlots { full: 0, incremental: 0 });
    assert_eq!(obs.identity_balance, 0);
}

#[test]
fn required_request_failure_ends_the_collection() {
    let cfg = config(Mode::Validator, Some("Vote222"), true, true);
    let (c, stages) = drive(&cfg, |s| if s == Stage::EpochInfo { None } else { Some(reply_for(s)) });
    assert_eq!(stages.len(), 3);
    assert_eq!(c.failure, Some(CollectError::RequestFailed(Stage::EpochInfo)));
    assert_eq!(c.into_observations().unwrap_err(), CollectError::RequestFailed(Stage::EpochInfo));
    // an unfitting reply counts as a failed request
    let (c, _) = drive(&cfg, |s| if s == Stage::Health { Some(RpcReply::Slot(1)) } else { Some(reply_for(s)) });
    assert_eq!(c.failure, Some(CollectError::RequestFailed(Stage::Health)));
}

#[test]
fn validator_mode_needs_a_vote_pubkey() {
    let cfg = config(Mode::Validator, None, true, true);
    let (c, stages) = drive(&cfg, |s| Some(reply_for(s)));
    assert_eq!(stages.last(), Some(&Stage::IdentityBalance));
    assert_eq!(c.failure, Some(CollectError::VotePubkeyMissing));
}

#[test]
fn vote_account_must_be_listed() {
    let cfg = config(Mode::Validator, Some("Vote222"), true, true);
    let (c, stages) = drive(&cfg, |s| match s {
        Stage::VoteAccounts => Some(RpcReply::VoteAccounts { current: vec![], delinquent: vec![] }),
        _ => Some(reply_for(s)),
    });
    assert_eq!(stages.last(), Some(&Stage::VoteAccounts));
    assert_eq!(c.failure, Some(CollectError::VoteAccountNotFound));
}

#[test]
fn block_production_failure_is_fatal_but_balance_is_not() {
    let cfg = config(Mode::Validator, Some("Vote222"), true, true);
    let (c, _) = drive(&cfg, |s| if s == Stage::BlockProduction { None } else { Some(reply_for(s)) });
    assert_eq!(c.failure, Some(CollectError::RequestFailed(Stage::BlockProduction)));
    let (c, _) = drive(&cfg, |s| if s == Stage::VoteBalance { None } else { Some(reply_for(s)) });
    assert!(c.failure.is_none());
    assert_eq!(c.vote_balance, 0);
}

#[test]
fn rpc_node_snapshot() {
    let cfg = config(Mode::Rpc, None, true, true);
    let mut history = UptimeHistory::new();
    let snap = assemble(&cfg, node_obs(), &mut history, Timestamp { secs: 1_700_000_000, nanos: 0 }).unwrap();
    let f = snap.figures;
    assert_eq!(snap.solana_version, "1.18.22");
    assert!(f.rpc_health);
    assert_eq!(f.sync_lag_slots, 20);
    assert_eq!(f.shred_gap_slots, 5);
    assert_eq!(f.snapshot_lag_slots, 50);
    assert_eq!(f.identity_balance_lamports, 3_000_000_000);
    assert!(!f.validator_present);
    assert!(!f.skip_rate_slo_met);
    assert!(!f.voting_effectiveness_slo_met);
    assert_eq!(f.uptime_ratio, Fraction { num: 1, den: 1 });
    assert!(f.uptime_slo_met);
    assert_eq!(history.samples.len(), 1);
    assert!(history.samples[0].up);
}

#[test]
fn sync_lag_beyond_limit_counts_as_down() {
    let cfg = config(Mode::Rpc, None, true, true);
    let mut history = UptimeHistory::new();
    let mut obs = node_obs();
    obs.reference_slot = obs.local_slot + 151;
    let snap = assemble(&cfg, obs, &mut history, Timestamp { secs: 1_700_000_000, nanos: 0 }).unwrap();
    assert!(!history.samples[0].up);
    assert_eq!(snap.figures.uptime_ratio, Fraction { num: 0, den: 1 });
    assert!(!snap.figures.uptime_slo_met);
    // unhealthy without the health requirement still counts as up
    let mut cfg = config(Mode::Rpc, None, true, true);
    cfg.uptime.require_health_ok = false;
    let mut obs = node_obs();
    obs.health_ok = false;
    let mut history = UptimeHistory::new();
    assemble(&cfg, obs, &mut history, Timestamp { secs: 1_700_000_000, nanos: 0 }).unwrap();
    assert!(history.samples[0].up);
}

fn validator_obs(delinquent: bool, production: Vec<ProductionEntry>) -> Observations {
    let mut obs = node_obs();
    obs.validator = Some(ValidatorObservations {
        vote: vote_account(),
        delinquent,
        production,
        vote_balance: 1_500_000_000,
    });
    obs
}

#[test]
fn validator_snapshot() {
    let cfg = config(Mode::Validator, Some("Vote222"), true, true);
    let mut history = UptimeHistory::new();
    let snap = assemble(&cfg, validator_obs(false, production()), &mut history, Timestamp { secs: 1_700_000_000, nanos: 0 })
        .unwrap();
    let f = snap.figures;
    assert!(f.validator_present);
    assert!(!f.delinquent);
    assert_eq!(f.activated_stake_lamports, 2_500_000_000_000);
    assert_eq!(f.commission_pct, 7);
    assert_eq!(f.credits_earned_current_epoch, 4_000);
    assert_eq!(f.last_vote_lag_slots, 10);
    assert_eq!(f.root_lag_slots, 100);
    assert_eq!(f.leader_slots_current_epoch, 40);
    assert_eq!(f.produced_blocks_current_epoch, 38);
    assert_eq!(f.skipped_slots_current_epoch, 2);
    assert_eq!(f.skip_rate, Fraction { num: 2, den: 40 });
    assert!(f.skip_rate_slo_met); // 5 % <= 5 %
    assert_eq!(f.cluster_confirmed_blocks_current_epoch, 188);
    assert_eq!(f.voting_effectiveness, Fraction { num: 4_000, den: 188 * 16 });
    assert!(f.voting_effectiveness_slo_met); // about 133 %
    assert_eq!(f.vote_balance_lamports, 1_500_000_000);
    assert!(history.samples[0].up);
}

#[test]
fn delinquency_and_vote_lag_count_as_down() {
    let cfg = config(Mode::Validator, Some("Vote222"), true, true);
    let mut history = UptimeHistory::new();
    let snap = assemble(&cfg, validator_obs(true, production()), &mut history, Timestamp { secs: 1, nanos: 0 }).unwrap();
    assert!(snap.figures.delinquent);
    assert!(!history.samples[0].up);
    let mut obs = validator_obs(false, production());
    obs.local_slot = 1_000_241; // last vote lag 151
    let mut history = UptimeHistory::new();
    assemble(&cfg, obs, &mut history, Timestamp { secs: 1, nanos: 0 }).unwrap();
    assert!(!history.samples[0].up);
}

#[test]
fn block_count_overflow_leaves_history() {
    let cfg = config(Mode::Validator, Some("Vote222"), true, true);
    let mut history = UptimeHistory::new();
    let prod = vec![
        ProductionEntry { identity: "a".to_string(), leader_slots: 1, produced_blocks: u64::MAX },
        ProductionEntry { identity: "b".to_string(), leader_slots: 1, produced_blocks: 1 },
    ];
    let r = assemble(&cfg, validator_obs(false, prod), &mut history, Timestamp { secs: 1, nanos: 0 });
    assert_eq!(r.unwrap_err(), CollectError::BlockCountOverflow);
    assert!(history.samples.is_empty());
}

#[test]
fn clock_out_of_range_is_reported() {
    let mut cfg = config(Mode::Rpc, None, true, true);
    cfg.uptime.window_hours = i64::MAX;
    let mut history = UptimeHistory::new();
    let r = assemble(&cfg, node_obs(), &mut history, Timestamp { secs: 1, nanos: 0 });
    assert_eq!(r.unwrap_err(), CollectError::ClockOutOfRange);
    assert!(history.samples.is_empty());
}

#[test]
fn failure_republishes_last_good_snapshot() {
    let cfg = config(Mode::Rpc, None, true, true);
    let mut exporter = Exporter::new(&cfg.slo);
    let mut history = UptimeHistory::new();
    let snap = assemble(&cfg, node_obs(), &mut history, Timestamp { secs: 100, nanos: 0 }).unwrap();
    let published = exporter.publish(Ok(snap), 101, 35, 102);
    assert!(published.figures.scrape_success);
    assert_eq!(published.figures.last_success_timestamp_unix, 101);
    assert_eq!(published.figures.scrape_duration_ms, 35);
    assert_eq!(published.figures.scrape_timestamp_unix, 102);
    assert_eq!(published.figures.scrape_errors_total, 0);

    let failed = exporter.publish(Err(CollectError::RequestFailed(Stage::Version)), 201, 7, 202);
    assert!(!failed.figures.scrape_success);
    assert_eq!(failed.figures.scrape_errors_total, 1);
    assert_eq!(failed.figures.last_success_timestamp_unix, 101);
    assert_eq!(failed.figures.scrape_timestamp_unix, 202);
    assert_eq!(failed.figures.scrape_duration_ms, 7);
    assert_eq!(failed.figures.sync_lag_slots, published.figures.sync_lag_slots);
    assert_eq!(failed.figures.absolute_slot, 1_000_100);
    assert_eq!(failed.solana_version, "1.18.22");
    let failed_again = exporter.publish(Err(CollectError::VoteAccountNotFound), 301, 7, 302);
    assert_eq!(failed_again.figures.scrape_errors_total, 2);

    // a later success carries the failure count
    let snap = assemble(&cfg, node_obs(), &mut history, Timestamp { secs: 400, nanos: 0 }).unwrap();
    let ok = exporter.publish(Ok(snap), 401, 1, 402);
    assert_eq!(ok.figures.scrape_errors_total, 2);
    assert!(ok.figures.scrape_success);
}

#[test]
fn failure_before_any_success_publishes_empty_figures() {
    let cfg = config(Mode::Rpc, None, true, true);
    let mut exporter = Exporter::new(&cfg.slo);
    let p = exporter.publish(Err(CollectError::RequestFailed(Stage::Health)), 5, 3, 6);
    assert!(!p.figures.scrape_success);
    assert_eq!(p.figures.scrape_errors_total, 1);
    assert_eq!(p.figures.last_success_timestamp_unix, 0);
    assert_eq!(p.figures.absolute_slot, 0);
    assert_eq!(p.figures.uptime_target, target(9995, -2));
    assert_eq!(p.solana_version, "");
    let e = Snapshot::empty(&cfg.slo);
    assert_eq!(e.figures.skip_rate_target, target(5, 0));
}

#[test]
fn switched_off_features_publish_zeros() {
    let cfg = config(Mode::Validator, Some("Vote222"), false, false);
    let (c, stages) = drive(&cfg, |s| Some(reply_for(s)));
    assert!(!stages.contains(&Stage::IdentityBalance));
    assert!(!stages.contains(&Stage::VoteBalance));
    assert!(!stages.contains(&Stage::BlockProduction));
    let obs = c.into_observations().unwrap();
    assert_eq!(obs.identity_balance, 0);
    let v = obs.validator.as_ref().unwrap();
    assert_eq!(v.vote_balance, 0);
    assert!(v.production.is_empty());
    let mut history = UptimeHistory::new();
    let snap = assemble(&cfg, obs, &mut history, Timestamp { secs: 1_700_000_000, nanos: 0 }).unwrap();
    let f = snap.figures;
    assert_eq!(f.identity_balance_lamports, 0);
    assert_eq!(f.vote_balance_lamports, 0);
    assert_eq!(f.leader_slots_current_epoch, 0);
    assert_eq!(f.produced_blocks_current_epoch, 0);
    assert_eq!(f.skipped_slots_current_epoch, 0);
    assert_eq!(f.cluster_confirmed_blocks_current_epoch, 0);
    assert_eq!(f.skip_rate, Fraction { num: 0, den: 0 });
    assert_eq!(f.voting_effectiveness, Fraction { num: 4_000, den: 0 });
    assert!(f.skip_rate_slo_met);
    assert!(!f.voting_effectiveness_slo_met);
}

#[test]
fn fresh_collection_holds_nothing() {
    let c = Collection::new();
    assert_eq!(c.stage, Stage::Version);
    assert!(c.failure.is_none());
    assert!(c.version.is_empty());
    assert!(!c.health_ok);
    assert_eq!(c.epoch_info, EpochInfo { block_height: 0, epoch: 0, slot_index: 0, slots_in_epoch: 0 });
    assert_eq!((c.local_slot, c.reference_slot, c.max_shred_insert_slot), (0, 0, 0));
    assert_eq!(c.snapshot_slots, SnapshotSlots { full: 0, incremental: 0 });
    assert_eq!(c.identity_balance, 0);
    assert!(c.vote.is_none());
    assert!(c.production.is_empty());
    assert_eq!(c.vote_balance, 0);
}
