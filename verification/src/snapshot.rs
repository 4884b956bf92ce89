//! The figures of one collection, and what the exporter publishes after each
//! collection, successful or not.
use vstd::prelude::*;
use crate::config::{Config, SloConfig};
use crate::kpi::{
    EpochInfo, SnapshotSlots, VoteAccount, ProductionEntry, saturating_diff, production_of,
    produced_total, credits_of, slot_lag, production_for, confirmed_blocks_total, credits_earned,
    skip_rate, voting_effectiveness, distinct_identities,
};
use crate::target::{Fraction, SloTarget, pow10, percent_at_least, percent_at_most, meets_minimum, meets_maximum};
use crate::uptime::{UptimeHistory, Timestamp, UptimeSample, is_up, ratio_of, recorded, window_cutoff, window_start_exists};
use crate::collect::CollectError;

verus! {

/// The figures the exporter publishes after one collection. Counts are in
/// slots, balances and stake in lamports, percentages as fractions.
#[derive(Clone, Copy, Debug, PartialEq, Eq, Structural)]
pub struct Figures {
    pub scrape_success: bool,
    pub scrape_errors_total: u64,
    pub scrape_duration_ms: u128,
    pub scrape_timestamp_unix: i64,
    pub last_success_timestamp_unix: i64,
    pub rpc_health: bool,
    pub uptime_ratio: Fraction,
    pub uptime_target: crate::target::SloTarget,
    pub uptime_slo_met: bool,
    pub absolute_slot: u64,
    pub reference_slot: u64,
    pub sync_lag_slots: u64,
    pub block_height: u64,
    pub epoch: u64,
    pub slot_index: u64,
    pub slots_in_epoch: u64,
    pub max_shred_insert_slot: u64,
    pub shred_gap_slots: u64,
    pub highest_snapshot_full: u64,
    pub highest_snapshot_incremental: u64,
    pub snapshot_lag_slots: u64,
    pub validator_present: bool,
    pub delinquent: bool,
    pub activated_stake_lamports: u64,
    pub commission_pct: u64,
    pub credits_earned_current_epoch: u64,
    pub last_vote: u64,
    pub root_slot: u64,
    pub last_vote_lag_slots: u64,
    pub root_lag_slots: u64,
    pub leader_slots_current_epoch: u64,
    pub produced_blocks_current_epoch: u64,
    pub skipped_slots_current_epoch: u64,
    pub skip_rate: Fraction,
    pub skip_rate_target: crate::target::SloTarget,
    pub skip_rate_slo_met: bool,
    pub cluster_confirmed_blocks_current_epoch: u64,
    pub voting_effectiveness: Fraction,
    pub voting_effectiveness_target: crate::target::SloTarget,
    pub voting_effectiveness_slo_met: bool,
    pub identity_balance_lamports: u64,
    pub vote_balance_lamports: u64,
}

/// Everything the exporter publishes after one collection.
#[derive(Debug)]
pub struct Snapshot {
    pub figures: Figures,
    /// The `solana-core` version the node reports.
    pub solana_version: String,
}

/// What a validator's collection learned of its vote account and of the
/// cluster's block production.
#[derive(Debug)]
pub struct ValidatorObservations {
    pub vote: VoteAccount,
    /// The reply listed some delinquent account.
    pub delinquent: bool,
    pub production: Vec<ProductionEntry>,
    pub vote_balance: u64,
}

/// What one collection learned from the RPC nodes.
#[derive(Debug)]
pub struct Observations {
    pub version: String,
    pub health_ok: bool,
    pub epoch_info: EpochInfo,
    pub local_slot: u64,
    pub reference_slot: u64,
    pub max_shred_insert_slot: u64,
    pub snapshot_slots: SnapshotSlots,
    pub identity_balance: u64,
    pub validator: Option<ValidatorObservations>,
}

pub open spec fn zero_fraction() -> Fraction {
    Fraction { num: 0, den: 0 }
}

/// The figures before any collection: every figure 0, the targets from
/// the configuration.
pub open spec fn empty_figures(slo: SloConfig) -> Figures {
    Figures {
        scrape_success: false,
        scrape_errors_total: 0,
        scrape_duration_ms: 0,
        scrape_timestamp_unix: 0,
        last_success_timestamp_unix: 0,
        rpc_health: false,
        uptime_ratio: zero_fraction(),
        uptime_target: slo.uptime_target,
        uptime_slo_met: false,
        absolute_slot: 0,
        reference_slot: 0,
        sync_lag_slots: 0,
        block_height: 0,
        epoch: 0,
        slot_index: 0,
        slots_in_epoch: 0,
        max_shred_insert_slot: 0,
        shred_gap_slots: 0,
        highest_snapshot_full: 0,
        highest_snapshot_incremental: 0,
        snapshot_lag_slots: 0,
        validator_present: false,
        delinquent: false,
        activated_stake_lamports: 0,
        commission_pct: 0,
        credits_earned_current_epoch: 0,
        last_vote: 0,
        root_slot: 0,
        last_vote_lag_slots: 0,
        root_lag_slots: 0,
        leader_slots_current_epoch: 0,
        produced_blocks_current_epoch: 0,
        skipped_slots_current_epoch: 0,
        skip_rate: zero_fraction(),
        skip_rate_target: slo.skip_rate_target,
        skip_rate_slo_met: false,
        cluster_confirmed_blocks_current_epoch: 0,
        voting_effectiveness: zero_fraction(),
        voting_effectiveness_target: slo.voting_effectiveness_target,
        voting_effectiveness_slo_met: false,
        identity_balance_lamports: 0,
        vote_balance_lamports: 0,
    }
}


/// Whether a collection counts the node as up: healthy when health is
/// required, within the sync lag when sync is watched, and, for a validator,
/// not delinquent when that is required and within the vote and root lags.
pub open spec fn observed_up(cfg: Config, obs: Observations) -> bool {
    let sync_lag = saturating_diff(obs.reference_slot, obs.local_slot);
    let node_up = (!cfg.uptime.require_health_ok || obs.health_ok) && !(
    cfg.features.enable_sync_metrics && sync_lag > cfg.uptime.max_sync_lag_slots);
    match obs.validator {
        None => node_up,
        Some(v) => {
            &&& node_up
            &&& !(cfg.uptime.require_not_delinquent && v.delinquent)
            &&& saturating_diff(obs.local_slot, v.vote.last_vote)
                <= cfg.uptime.max_last_vote_lag_slots
            &&& saturating_diff(obs.local_slot, v.vote.root_slot) <= cfg.uptime.max_root_lag_slots
        },
    }
}

/// The figures a successful collection yields, given the uptime ratio of
/// the window after recording it.
pub open spec fn collected_figures(cfg: Config, obs: Observations, ratio: Fraction) -> Figures {
    let node = Figures {
        rpc_health: obs.health_ok,
        uptime_ratio: ratio,
        uptime_slo_met: percent_at_least(ratio, cfg.slo.uptime_target),
        absolute_slot: obs.local_slot,
        reference_slot: obs.reference_slot,
        sync_lag_slots: saturating_diff(obs.reference_slot, obs.local_slot),
        block_height: obs.epoch_info.block_height,
        epoch: obs.epoch_info.epoch,
        slot_index: obs.epoch_info.slot_index,
        slots_in_epoch: obs.epoch_info.slots_in_epoch,
        max_shred_insert_slot: obs.max_shred_insert_slot,
        shred_gap_slots: saturating_diff(obs.max_shred_insert_slot, obs.local_slot),
        highest_snapshot_full: obs.snapshot_slots.full,
        highest_snapshot_incremental: obs.snapshot_slots.incremental,
        snapshot_lag_slots: saturating_diff(obs.local_slot, obs.snapshot_slots.incremental),
        identity_balance_lamports: obs.identity_balance,
        ..empty_figures(cfg.slo)
    };
    match obs.validator {
        None => node,
        Some(v) => {
            let leader = production_of(v.production@, cfg.identity.node_pubkey@).0;
            let produced = production_of(v.production@, cfg.identity.node_pubkey@).1;
            let cluster = produced_total(v.production@) as u64;
            let credits = credits_of(v.vote.epoch_credits@, obs.epoch_info.epoch);
            let skip = Fraction { num: saturating_diff(leader, produced), den: leader as u128 };
            let effectiveness = Fraction { num: credits, den: (cluster * 16) as u128 };
            Figures {
                validator_present: true,
                delinquent: v.delinquent,
                activated_stake_lamports: v.vote.activated_stake,
                commission_pct: v.vote.commission,
                credits_earned_current_epoch: credits,
                last_vote: v.vote.last_vote,
                root_slot: v.vote.root_slot,
                last_vote_lag_slots: saturating_diff(obs.local_slot, v.vote.last_vote),
                root_lag_slots: saturating_diff(obs.local_slot, v.vote.root_slot),
                leader_slots_current_epoch: leader,
                produced_blocks_current_epoch: produced,
                skipped_slots_current_epoch: saturating_diff(leader, produced),
                skip_rate: skip,
                skip_rate_slo_met: percent_at_most(skip, cfg.slo.skip_rate_target),
                cluster_confirmed_blocks_current_epoch: cluster,
                voting_effectiveness: effectiveness,
                voting_effectiveness_slo_met: percent_at_least(
                    effectiveness,
                    cfg.slo.voting_effectiveness_target,
                ),
                vote_balance_lamports: v.vote_balance,
                ..node
            }
        },
    }
}

/// The block production adds up beyond `u64`.
pub open spec fn production_overflows(obs: Observations) -> bool {
    match obs.validator {
        Some(v) => produced_total(v.production@) > u64::MAX,
        None => false,
    }
}

/// The uptime ratio never exceeds 100 %.
pub proof fn lemma_uptime_ratio_at_most_all(samples: Seq<UptimeSample>)
    requires
        samples.len() <= u64::MAX,
    ensures
        percent_at_most(
            ratio_of(samples),
            SloTarget::Finite { negative: false, mantissa: 100, exponent: 0 },
        ),
{
    samples.lemma_filter_len(is_up());
    let f = ratio_of(samples);
    assert(f.num <= f.den);
    assert(pow10(0) == 1);
    assert(crate::target::signed_mantissa(false, 100) == 100);
    assert(100 * f.num <= 100 * f.den * pow10(0)) by (nonlinear_arith)
        requires
            f.num <= f.den,
            pow10(0) == 1,
    ;
}

impl Snapshot {
    /// The snapshot published before any collection succeeded.
    pub fn empty(slo: &SloConfig) -> (r: Snapshot)
        ensures
            r.figures == empty_figures(*slo),
            r.solana_version@ == Seq::<char>::empty(),
            r.figures.uptime_target == slo.uptime_target,
            r.figures.voting_effectiveness_target == slo.voting_effectiveness_target,
            r.figures.skip_rate_target == slo.skip_rate_target,
            !r.figures.scrape_success,
            !r.figures.uptime_slo_met && !r.figures.voting_effectiveness_slo_met
                && !r.figures.skip_rate_slo_met,
    {
        let zero = Fraction { num: 0, den: 0 };
        Snapshot {
            figures: Figures {
                scrape_success: false,
                scrape_errors_total: 0,
                scrape_duration_ms: 0,
                scrape_timestamp_unix: 0,
                last_success_timestamp_unix: 0,
                rpc_health: false,
                uptime_ratio: zero,
                uptime_target: slo.uptime_target,
                uptime_slo_met: false,
                absolute_slot: 0,
                reference_slot: 0,
                sync_lag_slots: 0,
                block_height: 0,
                epoch: 0,
                slot_index: 0,
                slots_in_epoch: 0,
                max_shred_insert_slot: 0,
                shred_gap_slots: 0,
                highest_snapshot_full: 0,
                highest_snapshot_incremental: 0,
                snapshot_lag_slots: 0,
                validator_present: false,
                delinquent: false,
                activated_stake_lamports: 0,
                commission_pct: 0,
                credits_earned_current_epoch: 0,
                last_vote: 0,
                root_slot: 0,
                last_vote_lag_slots: 0,
                root_lag_slots: 0,
                leader_slots_current_epoch: 0,
                produced_blocks_current_epoch: 0,
                skipped_slots_current_epoch: 0,
                skip_rate: zero,
                skip_rate_target: slo.skip_rate_target,
                skip_rate_slo_met: false,
                cluster_confirmed_blocks_current_epoch: 0,
                voting_effectiveness: zero,
                voting_effectiveness_target: slo.voting_effectiveness_target,
                voting_effectiveness_slo_met: false,
                identity_balance_lamports: 0,
                vote_balance_lamports: 0,
            },
            solana_version: String::new(),
        }
    }

    /// An equal copy.
    pub fn duplicate(&self) -> (r: Snapshot)
        ensures
            r == *self,
    {
        Snapshot { figures: self.figures, solana_version: self.solana_version.clone() }
    }
}

/// Turns what one collection observed into its snapshot: derives every
/// figure, records whether the node counts as up in the uptime window
/// (dropping what has left the window), and compares the uptime ratio,
/// skip rate and voting effectiveness with their targets. Fails, leaving the
/// window as it was, when the cluster's block production adds up beyond
/// `u64`, or when the window start cannot be had for `now`.
pub fn assemble(cfg: &Config, obs: Observations, history: &mut UptimeHistory, now: Timestamp) -> (r:
    Result<Snapshot, CollectError>)
    requires
        obs.validator matches Some(v) ==> distinct_identities(v.production@),
    ensures
        production_overflows(obs) ==> r == Err::<Snapshot, CollectError>(
            CollectError::BlockCountOverflow,
        ),
        r matches Err(e) ==> final(history).samples@ == old(history).samples@ && (e
            == CollectError::BlockCountOverflow || e == CollectError::ClockOutOfRange),
        r is Ok <==> (!production_overflows(obs) && window_start_exists(
            now,
            cfg.uptime.window_hours,
        )),
        r matches Err(e) ==> (e == CollectError::ClockOutOfRange <==> !production_overflows(obs)),
        r matches Ok(s) ==> {
            &&& final(history).samples@ == recorded(
                old(history).samples@,
                UptimeSample { ts: now, up: observed_up(*cfg, obs) },
                window_cutoff(now, cfg.uptime.window_hours),
            )
            &&& s.figures == collected_figures(*cfg, obs, ratio_of(final(history).samples@))
            &&& s.solana_version == obs.version
        },
        // the node counts as down when health is required and missing ...
        (r is Ok && cfg.uptime.require_health_ok && !obs.health_ok) ==> final(history).samples@
            == recorded(
            old(history).samples@,
            UptimeSample { ts: now, up: false },
            window_cutoff(now, cfg.uptime.window_hours),
        ),
        // ... when sync is watched and the node lags the reference beyond the limit ...
        (r is Ok && cfg.features.enable_sync_metrics && saturating_diff(
            obs.reference_slot,
            obs.local_slot,
        ) > cfg.uptime.max_sync_lag_slots) ==> final(history).samples@ == recorded(
            old(history).samples@,
            UptimeSample { ts: now, up: false },
            window_cutoff(now, cfg.uptime.window_hours),
        ),
        // ... when a validator is delinquent and that is not allowed ...
        obs.validator matches Some(v) ==> ((r is Ok && cfg.uptime.require_not_delinquent
            && v.delinquent) ==> final(history).samples@ == recorded(
            old(history).samples@,
            UptimeSample { ts: now, up: false },
            window_cutoff(now, cfg.uptime.window_hours),
        )),
        // ... when a validator's last vote lags beyond the limit ...
        obs.validator matches Some(v) ==> ((r is Ok && saturating_diff(
            obs.local_slot,
            v.vote.last_vote,
        ) > cfg.uptime.max_last_vote_lag_slots) ==> final(history).samples@ == recorded(
            old(history).samples@,
            UptimeSample { ts: now, up: false },
            window_cutoff(now, cfg.uptime.window_hours),
        )),
        // ... or when a validator's root lags beyond the limit
        obs.validator matches Some(v) ==> ((r is Ok && saturating_diff(
            obs.local_slot,
            v.vote.root_slot,
        ) > cfg.uptime.max_root_lag_slots) ==> final(history).samples@ == recorded(
            old(history).samples@,
            UptimeSample { ts: now, up: false },
            window_cutoff(now, cfg.uptime.window_hours),
        )),
        // and it counts as up when none of these holds
        (r is Ok && !(cfg.uptime.require_health_ok && !obs.health_ok) && !(
        cfg.features.enable_sync_metrics && saturating_diff(obs.reference_slot, obs.local_slot)
            > cfg.uptime.max_sync_lag_slots) && (obs.validator matches Some(v) ==> {
            &&& !(cfg.uptime.require_not_delinquent && v.delinquent)
            &&& saturating_diff(obs.local_slot, v.vote.last_vote)
                <= cfg.uptime.max_last_vote_lag_slots
            &&& saturating_diff(obs.local_slot, v.vote.root_slot) <= cfg.uptime.max_root_lag_slots
        })) ==> final(history).samples@ == recorded(
            old(history).samples@,
            UptimeSample { ts: now, up: true },
            window_cutoff(now, cfg.uptime.window_hours),
        ),
        // the figures, each from what it is named for
        r matches Ok(s) ==> {
            &&& s.figures.uptime_target == cfg.slo.uptime_target
            &&& s.figures.voting_effectiveness_target == cfg.slo.voting_effectiveness_target
            &&& s.figures.skip_rate_target == cfg.slo.skip_rate_target
            &&& s.figures.uptime_ratio.num == final(history).samples@.filter(is_up()).len()
            &&& s.figures.uptime_ratio.den == final(history).samples@.len()
            &&& s.figures.rpc_health == obs.health_ok
            &&& s.figures.absolute_slot == obs.local_slot
            &&& s.figures.reference_slot == obs.reference_slot
            &&& s.figures.sync_lag_slots == saturating_diff(obs.reference_slot, obs.local_slot)
            &&& s.figures.max_shred_insert_slot == obs.max_shred_insert_slot
            &&& s.figures.highest_snapshot_full == obs.snapshot_slots.full
            &&& s.figures.highest_snapshot_incremental == obs.snapshot_slots.incremental
            &&& s.figures.identity_balance_lamports == obs.identity_balance
            &&& s.figures.validator_present == (obs.validator is Some)
            &&& s.figures.delinquent == (obs.validator matches Some(v) && v.delinquent)
            &&& obs.validator matches Some(v) ==> {
                &&& s.figures.last_vote == v.vote.last_vote
                &&& s.figures.root_slot == v.vote.root_slot
                &&& s.figures.last_vote_lag_slots == saturating_diff(
                    obs.local_slot,
                    v.vote.last_vote,
                )
                &&& s.figures.root_lag_slots == saturating_diff(obs.local_slot, v.vote.root_slot)
                &&& s.figures.activated_stake_lamports == v.vote.activated_stake
                &&& s.figures.commission_pct == v.vote.commission
                &&& s.figures.vote_balance_lamports == v.vote_balance
            }
        },
{
    let ghost obs0 = obs;
    let Observations {
        version,
        health_ok,
        epoch_info,
        local_slot,
        reference_slot,
        max_shred_insert_slot,
        snapshot_slots,
        identity_balance,
        validator,
    } = obs;
    let sync_lag = slot_lag(reference_slot, local_slot);
    let mut up = (!cfg.uptime.require_health_ok || health_ok) && !(cfg.features.enable_sync_metrics
        && sync_lag > cfg.uptime.max_sync_lag_slots);
    let mut figures = Figures {
        scrape_success: false,
        scrape_errors_total: 0,
        scrape_duration_ms: 0,
        scrape_timestamp_unix: 0,
        last_success_timestamp_unix: 0,
        rpc_health: health_ok,
        uptime_ratio: Fraction { num: 0, den: 0 },
        uptime_target: cfg.slo.uptime_target,
        uptime_slo_met: false,
        absolute_slot: local_slot,
        reference_slot,
        sync_lag_slots: sync_lag,
        block_height: epoch_info.block_height,
        epoch: epoch_info.epoch,
        slot_index: epoch_info.slot_index,
        slots_in_epoch: epoch_info.slots_in_epoch,
        max_shred_insert_slot,
        shred_gap_slots: slot_lag(max_shred_insert_slot, local_slot),
        highest_snapshot_full: snapshot_slots.full,
        highest_snapshot_incremental: snapshot_slots.incremental,
        snapshot_lag_slots: slot_lag(local_slot, snapshot_slots.incremental),
        validator_present: false,
        delinquent: false,
        activated_stake_lamports: 0,
        commission_pct: 0,
        credits_earned_current_epoch: 0,
        last_vote: 0,
        root_slot: 0,
        last_vote_lag_slots: 0,
        root_lag_slots: 0,
        leader_slots_current_epoch: 0,
        produced_blocks_current_epoch: 0,
        skipped_slots_current_epoch: 0,
        skip_rate: Fraction { num: 0, den: 0 },
        skip_rate_target: cfg.slo.skip_rate_target,
        skip_rate_slo_met: false,
        cluster_confirmed_blocks_current_epoch: 0,
        voting_effectiveness: Fraction { num: 0, den: 0 },
        voting_effectiveness_target: cfg.slo.voting_effectiveness_target,
        voting_effectiveness_slo_met: false,
        identity_balance_lamports: identity_balance,
        vote_balance_lamports: 0,
    };
    match &validator {
        None => {},
        Some(v) => {
            let (leader, produced) = production_for(&v.production, &cfg.identity.node_pubkey);
            let cluster = match confirmed_blocks_total(&v.production) {
                Some(c) => c,
                None => {
                    return Err(CollectError::BlockCountOverflow);
                },
            };
            let credits = credits_earned(&v.vote.epoch_credits, epoch_info.epoch);
            let skip = skip_rate(leader, produced);
            let effectiveness = voting_effectiveness(credits, cluster);
            let vote_lag = slot_lag(local_slot, v.vote.last_vote);
            let root_lag = slot_lag(local_slot, v.vote.root_slot);
            figures.validator_present = true;
            figures.delinquent = v.delinquent;
            figures.activated_stake_lamports = v.vote.activated_stake;
            figures.commission_pct = v.vote.commission;
            figures.credits_earned_current_epoch = credits;
            figures.last_vote = v.vote.last_vote;
            figures.root_slot = v.vote.root_slot;
            figures.last_vote_lag_slots = vote_lag;
            figures.root_lag_slots = root_lag;
            figures.leader_slots_current_epoch = leader;
            figures.produced_blocks_current_epoch = produced;
            figures.skipped_slots_current_epoch = skip.num;
            figures.skip_rate = skip;
            figures.skip_rate_slo_met = meets_maximum(skip, cfg.slo.skip_rate_target);
            figures.cluster_confirmed_blocks_current_epoch = cluster;
            figures.voting_effectiveness = effectiveness;
            figures.voting_effectiveness_slo_met = meets_minimum(
                effectiveness,
                cfg.slo.voting_effectiveness_target,
            );
            figures.vote_balance_lamports = v.vote_balance;
            if cfg.uptime.require_not_delinquent && v.delinquent {
                up = false;
            }
            if vote_lag > cfg.uptime.max_last_vote_lag_slots {
                up = false;
            }
            if root_lag > cfg.uptime.max_root_lag_slots {
                up = false;
            }
        },
    }
    assert(up == observed_up(*cfg, obs0));
    match history.push_sample(now, up, cfg.uptime.window_hours) {
        Ok(_) => {},
        Err(_) => {
            return Err(CollectError::ClockOutOfRange);
        },
    }
    let ratio = history.uptime_ratio();
    figures.uptime_ratio = ratio;
    figures.uptime_slo_met = meets_minimum(ratio, cfg.slo.uptime_target);
    Ok(Snapshot { figures, solana_version: version })
}

/// The exporter between collections: failures so far, and the last snapshot
/// of a successful collection.
#[derive(Debug)]
pub struct Exporter {
    pub errors_total: u64,
    pub last_good: Snapshot,
}

/// A successful collection's figures, marked successful at `success_at`.
pub open spec fn after_success(f: Figures, success_at: i64) -> Figures {
    Figures { scrape_success: true, last_success_timestamp_unix: success_at, ..f }
}

/// The last good figures, marked as a failed collection.
pub open spec fn after_failure(last_good: Figures) -> Figures {
    Figures { scrape_success: false, ..last_good }
}

/// Figures stamped with the failure count and the scrape's duration and time.
pub open spec fn stamped(f: Figures, errors_total: u64, duration_ms: u128, scrape_at: i64) -> Figures {
    Figures {
        scrape_errors_total: errors_total,
        scrape_duration_ms: duration_ms,
        scrape_timestamp_unix: scrape_at,
        ..f
    }
}

impl Exporter {
    /// No failure yet; the last good snapshot is the empty one.
    pub fn new(slo: &SloConfig) -> (r: Exporter)
        ensures
            r.errors_total == 0,
            r.last_good.figures == empty_figures(*slo),
            r.last_good.solana_version@ == Seq::<char>::empty(),
            r.last_good.figures.uptime_target == slo.uptime_target,
            r.last_good.figures.voting_effectiveness_target == slo.voting_effectiveness_target,
            r.last_good.figures.skip_rate_target == slo.skip_rate_target,
    {
        Exporter { errors_total: 0, last_good: Snapshot::empty(slo) }
    }

    /// What to publish after a collection. A success becomes the last good
    /// snapshot, marked successful at `success_at`. A failure counts one
    /// more failure and republishes the last good snapshot, marked failed.
    /// Either way the published snapshot carries the failure count and the
    /// scrape's duration and time.
    pub fn publish(
        &mut self,
        outcome: Result<Snapshot, CollectError>,
        success_at: i64,
        duration_ms: u128,
        scrape_at: i64,
    ) -> (published: Snapshot)
        ensures
            match outcome {
                Ok(s) => {
                    &&& final(self).errors_total == old(self).errors_total
                    &&& final(self).last_good.figures == after_success(s.figures, success_at)
                    &&& final(self).last_good.solana_version == s.solana_version
                    &&& published.figures == stamped(
                        after_success(s.figures, success_at),
                        old(self).errors_total,
                        duration_ms,
                        scrape_at,
                    )
                    &&& published.solana_version == s.solana_version
                },
                Err(_) => {
                    &&& final(self).errors_total == (if old(self).errors_total == u64::MAX {
                        u64::MAX as int
                    } else {
                        old(self).errors_total + 1
                    })
                    &&& final(self).last_good == old(self).last_good
                    &&& published.figures == stamped(
                        after_failure(old(self).last_good.figures),
                        final(self).errors_total,
                        duration_ms,
                        scrape_at,
                    )
                    &&& published.solana_version == old(self).last_good.solana_version
                },
            },
            // the targets published are those of the snapshot published
            outcome matches Ok(s) ==> {
                &&& published.figures.uptime_target == s.figures.uptime_target
                &&& published.figures.voting_effectiveness_target
                    == s.figures.voting_effectiveness_target
                &&& published.figures.skip_rate_target == s.figures.skip_rate_target
            },
            outcome is Err ==> {
                &&& published.figures.uptime_target == old(self).last_good.figures.uptime_target
                &&& published.figures.voting_effectiveness_target == old(
                    self,
                ).last_good.figures.voting_effectiveness_target
                &&& published.figures.skip_rate_target
                    == old(self).last_good.figures.skip_rate_target
            },
    {
        let mut published = match outcome {
            Ok(snap) => {
                let mut snap = snap;
                snap.figures.scrape_success = true;
                snap.figures.last_success_timestamp_unix = success_at;
                self.last_good = snap.duplicate();
                snap
            },
            Err(_) => {
                self.errors_total = self.errors_total.saturating_add(1);
                let mut snap = self.last_good.duplicate();
                snap.figures.scrape_success = false;
                snap.figures.scrape_errors_total = self.errors_total;
                snap
            },
        };
        published.figures.scrape_duration_ms = duration_ms;
        published.figures.scrape_timestamp_unix = scrape_at;
        published.figures.scrape_errors_total = self.errors_total;
        published
    }
}

/// After a failed collection the exporter republishes the figures of the
/// last successful one: only the success flag, the failure count and the
/// scrape's duration and time differ, and the last success time stays that
/// of the success.
pub proof fn lemma_failure_keeps_last_good(
    f: Figures,
    success_at: i64,
    errors_total: u64,
    duration_ms: u128,
    scrape_at: i64,
)
    ensures
        stamped(after_failure(after_success(f, success_at)), errors_total, duration_ms, scrape_at)
            == (Figures {
            scrape_success: false,
            scrape_errors_total: errors_total,
            scrape_duration_ms: duration_ms,
            scrape_timestamp_unix: scrape_at,
            last_success_timestamp_unix: success_at,
            ..f
        }),
{
}

/// A collection counts a validator as down when its last vote or its root
/// lags the local slot by more than the limit, or when it is delinquent and
/// that is not allowed; and an RPC node or a validator counts as down when
/// health is required and missing.
pub proof fn lemma_down_causes(cfg: Config, obs: Observations)
    ensures
        (cfg.uptime.require_health_ok && !obs.health_ok) ==> !observed_up(cfg, obs),
        (cfg.features.enable_sync_metrics && saturating_diff(obs.reference_slot, obs.local_slot)
            > cfg.uptime.max_sync_lag_slots) ==> !observed_up(cfg, obs),
        obs.validator matches Some(v) ==> {
            &&& saturating_diff(obs.local_slot, v.vote.root_slot) > cfg.uptime.max_root_lag_slots
                ==> !observed_up(cfg, obs)
            &&& saturating_diff(obs.local_slot, v.vote.last_vote)
                > cfg.uptime.max_last_vote_lag_slots ==> !observed_up(cfg, obs)
            &&& (cfg.uptime.require_not_delinquent && v.delinquent) ==> !observed_up(cfg, obs)
        },
{
}

/// The published targets are the configured ones, before any collection and
/// after each.
pub proof fn lemma_targets_from_config(cfg: Config, obs: Observations, ratio: Fraction)
    ensures
        empty_figures(cfg.slo).uptime_target == cfg.slo.uptime_target,
        empty_figures(cfg.slo).voting_effectiveness_target == cfg.slo.voting_effectiveness_target,
        empty_figures(cfg.slo).skip_rate_target == cfg.slo.skip_rate_target,
        collected_figures(cfg, obs, ratio).uptime_target == cfg.slo.uptime_target,
        collected_figures(cfg, obs, ratio).voting_effectiveness_target
            == cfg.slo.voting_effectiveness_target,
        collected_figures(cfg, obs, ratio).skip_rate_target == cfg.slo.skip_rate_target,
{
}

/// A validator's figures report its delinquency, its vote and root slots and
/// their lags behind the local slot.
pub proof fn lemma_validator_figures(cfg: Config, obs: Observations, ratio: Fraction)
    ensures
        obs.validator matches Some(v) ==> {
            let f = collected_figures(cfg, obs, ratio);
            &&& f.validator_present
            &&& f.delinquent == v.delinquent
            &&& f.last_vote == v.vote.last_vote
            &&& f.root_slot == v.vote.root_slot
            &&& f.last_vote_lag_slots == saturating_diff(obs.local_slot, v.vote.last_vote)
            &&& f.root_lag_slots == saturating_diff(obs.local_slot, v.vote.root_slot)
            &&& f.vote_balance_lamports == v.vote_balance
        },
        obs.validator is None ==> !collected_figures(cfg, obs, ratio).validator_present
            && !collected_figures(cfg, obs, ratio).delinquent,
{
}

} // verus!
