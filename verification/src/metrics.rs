//! The exported metrics: their names, help texts and labels, and the value
//! each takes from a snapshot.
use vstd::prelude::*;
use crate::config::IdentityConfig;
use crate::snapshot::{Figures, Snapshot};
use crate::target::{Fraction, SloTarget};

verus! {

broadcast use vstd::string::group_string_axioms;

/// Which label a metric carries.
#[derive(Clone, Copy, Debug, PartialEq, Eq, Structural)]
pub enum LabelKind {
    /// No label.
    Empty,
    /// `node_pubkey`: the node's identity.
    Node,
    /// `vote_pubkey`: the vote account, `none` when none is configured.
    Vote,
    /// `version`: the node's version, `unknown` when it reported none.
    Version,
}

/// The exported metrics, in the order in which they are registered.
#[derive(Clone, Copy, Debug, PartialEq, Eq, Structural)]
pub enum MetricId {
    RpcHealth,
    UptimeRatio,
    UptimeTarget,
    UptimeSloMet,
    VotingEffectivenessPct,
    VotingEffectivenessTarget,
    VotingEffectivenessSloMet,
    VoteCreditsEarnedCurrentEpoch,
    SkipRatePct,
    SkipRateTarget,
    SkipRateSloMet,
    LeaderSlotsCurrentEpoch,
    ProducedBlocksCurrentEpoch,
    SkippedSlotsCurrentEpoch,
    AbsoluteSlot,
    ReferenceSlot,
    SyncLagSlots,
    BlockHeight,
    Epoch,
    SlotIndex,
    SlotsInEpoch,
    MaxShredInsertSlot,
    ShredGapSlots,
    HighestSnapshotFull,
    HighestSnapshotIncremental,
    SnapshotLagSlots,
    ValidatorDelinquent,
    ValidatorActivatedStakeSol,
    ValidatorCommissionPct,
    ValidatorLastVote,
    ValidatorLastVoteLagSlots,
    ValidatorRootSlot,
    ValidatorRootLagSlots,
    ClusterConfirmedBlocksCurrentEpoch,
    IdentityBalanceSol,
    VoteBalanceSol,
    VersionInfo,
    ScrapeSuccess,
    ScrapeErrorsTotal,
    ScrapeDurationMs,
    ScrapeTimestampUnix,
    LastSuccessTimestampUnix,
}

/// A metric's value, before it is written as a floating-point gauge.
#[derive(Clone, Copy, Debug, PartialEq, Eq, Structural)]
pub enum Reading {
    /// 1 when true, 0 when false.
    Flag(bool),
    Count(u64),
    /// An amount in lamports, published in SOL.
    Lamports(u64),
    Percent(Fraction),
    Target(SloTarget),
    Millis(u128),
    UnixTime(i64),
}

/// One gauge to set: the metric, its label value (none for unlabelled
/// metrics) and its value.
#[derive(Debug)]
pub struct MetricSample {
    pub metric: MetricId,
    pub label: Option<String>,
    pub value: Reading,
}

/// Every metric, in registration order.
pub open spec fn metric_order() -> Seq<MetricId> {
    seq![
        MetricId::RpcHealth,
        MetricId::UptimeRatio,
        MetricId::UptimeTarget,
        MetricId::UptimeSloMet,
        MetricId::VotingEffectivenessPct,
        MetricId::VotingEffectivenessTarget,
        MetricId::VotingEffectivenessSloMet,
        MetricId::VoteCreditsEarnedCurrentEpoch,
        MetricId::SkipRatePct,
        MetricId::SkipRateTarget,
        MetricId::SkipRateSloMet,
        MetricId::LeaderSlotsCurrentEpoch,
        MetricId::ProducedBlocksCurrentEpoch,
        MetricId::SkippedSlotsCurrentEpoch,
        MetricId::AbsoluteSlot,
        MetricId::ReferenceSlot,
        MetricId::SyncLagSlots,
        MetricId::BlockHeight,
        MetricId::Epoch,
        MetricId::SlotIndex,
        MetricId::SlotsInEpoch,
        MetricId::MaxShredInsertSlot,
        MetricId::ShredGapSlots,
        MetricId::HighestSnapshotFull,
        MetricId::HighestSnapshotIncremental,
        MetricId::SnapshotLagSlots,
        MetricId::ValidatorDelinquent,
        MetricId::ValidatorActivatedStakeSol,
        MetricId::ValidatorCommissionPct,
        MetricId::ValidatorLastVote,
        MetricId::ValidatorLastVoteLagSlots,
        MetricId::ValidatorRootSlot,
        MetricId::ValidatorRootLagSlots,
        MetricId::ClusterConfirmedBlocksCurrentEpoch,
        MetricId::IdentityBalanceSol,
        MetricId::VoteBalanceSol,
        MetricId::VersionInfo,
        MetricId::ScrapeSuccess,
        MetricId::ScrapeErrorsTotal,
        MetricId::ScrapeDurationMs,
        MetricId::ScrapeTimestampUnix,
        MetricId::LastSuccessTimestampUnix,
    ]
}

pub open spec fn metric_name(m: MetricId) -> Seq<char> {
    match m {
        MetricId::RpcHealth => "solana_rpc_health"@,
        MetricId::UptimeRatio => "solana_kpi_uptime_ratio"@,
        MetricId::UptimeTarget => "solana_kpi_uptime_target"@,
        MetricId::UptimeSloMet => "solana_kpi_uptime_slo_met"@,
        MetricId::VotingEffectivenessPct => "solana_kpi_voting_effectiveness_pct"@,
        MetricId::VotingEffectivenessTarget => "solana_kpi_voting_effectiveness_target"@,
        MetricId::VotingEffectivenessSloMet => "solana_kpi_voting_effectiveness_slo_met"@,
        MetricId::VoteCreditsEarnedCurrentEpoch => "solana_kpi_vote_credits_earned_current_epoch"@,
        MetricId::SkipRatePct => "solana_kpi_skip_rate_pct"@,
        MetricId::SkipRateTarget => "solana_kpi_skip_rate_target"@,
        MetricId::SkipRateSloMet => "solana_kpi_skip_rate_slo_met"@,
        MetricId::LeaderSlotsCurrentEpoch => "solana_kpi_leader_slots_current_epoch"@,
        MetricId::ProducedBlocksCurrentEpoch => "solana_kpi_produced_blocks_current_epoch"@,
        MetricId::SkippedSlotsCurrentEpoch => "solana_kpi_skipped_slots_current_epoch"@,
        MetricId::AbsoluteSlot => "solana_rpc_absolute_slot"@,
        MetricId::ReferenceSlot => "solana_rpc_reference_slot"@,
        MetricId::SyncLagSlots => "solana_rpc_sync_lag_slots"@,
        MetricId::BlockHeight => "solana_rpc_block_height"@,
        MetricId::Epoch => "solana_rpc_epoch"@,
        MetricId::SlotIndex => "solana_rpc_slot_index"@,
        MetricId::SlotsInEpoch => "solana_rpc_slots_in_epoch"@,
        MetricId::MaxShredInsertSlot => "solana_node_max_shred_insert_slot"@,
        MetricId::ShredGapSlots => "solana_node_shred_gap_slots"@,
        MetricId::HighestSnapshotFull => "solana_node_highest_snapshot_full"@,
        MetricId::HighestSnapshotIncremental => "solana_node_highest_snapshot_incremental"@,
        MetricId::SnapshotLagSlots => "solana_node_snapshot_lag_slots"@,
        MetricId::ValidatorDelinquent => "solana_validator_delinquent"@,
        MetricId::ValidatorActivatedStakeSol => "solana_validator_activated_stake_sol"@,
        MetricId::ValidatorCommissionPct => "solana_validator_commission_pct"@,
        MetricId::ValidatorLastVote => "solana_validator_last_vote"@,
        MetricId::ValidatorLastVoteLagSlots => "solana_validator_last_vote_lag_slots"@,
        MetricId::ValidatorRootSlot => "solana_validator_root_slot"@,
        MetricId::ValidatorRootLagSlots => "solana_validator_root_lag_slots"@,
        MetricId::ClusterConfirmedBlocksCurrentEpoch => "solana_kpi_cluster_confirmed_blocks_current_epoch"@,
        MetricId::IdentityBalanceSol => "solana_node_identity_balance_sol"@,
        MetricId::VoteBalanceSol => "solana_node_vote_balance_sol"@,
        MetricId::VersionInfo => "solana_rpc_version_info"@,
        MetricId::ScrapeSuccess => "solana_kpi_scrape_success"@,
        MetricId::ScrapeErrorsTotal => "solana_kpi_scrape_errors_total"@,
        MetricId::ScrapeDurationMs => "solana_kpi_scrape_duration_ms"@,
        MetricId::ScrapeTimestampUnix => "solana_kpi_scrape_timestamp_unix"@,
        MetricId::LastSuccessTimestampUnix => "solana_kpi_last_success_timestamp_unix"@,
    }
}

pub open spec fn metric_help(m: MetricId) -> Seq<char> {
    match m {
        MetricId::RpcHealth => "1 if getHealth is ok."@,
        MetricId::UptimeRatio => "Sliding-window uptime ratio percentage."@,
        MetricId::UptimeTarget => "Configured uptime target percentage."@,
        MetricId::UptimeSloMet => "1 if uptime ratio meets target."@,
        MetricId::VotingEffectivenessPct => "Voting effectiveness percentage."@,
        MetricId::VotingEffectivenessTarget => "Configured voting effectiveness target percentage."@,
        MetricId::VotingEffectivenessSloMet => "1 if voting effectiveness meets target."@,
        MetricId::VoteCreditsEarnedCurrentEpoch => "Vote credits earned in current epoch."@,
        MetricId::SkipRatePct => "Skip rate percentage in current epoch."@,
        MetricId::SkipRateTarget => "Configured skip rate target percentage."@,
        MetricId::SkipRateSloMet => "1 if skip rate meets target."@,
        MetricId::LeaderSlotsCurrentEpoch => "Leader slots in current epoch."@,
        MetricId::ProducedBlocksCurrentEpoch => "Produced blocks in current epoch."@,
        MetricId::SkippedSlotsCurrentEpoch => "Skipped slots in current epoch."@,
        MetricId::AbsoluteSlot => "Local absolute slot."@,
        MetricId::ReferenceSlot => "Reference RPC slot."@,
        MetricId::SyncLagSlots => "Reference slot minus local slot."@,
        MetricId::BlockHeight => "Current block height."@,
        MetricId::Epoch => "Current epoch."@,
        MetricId::SlotIndex => "Current slot index in epoch."@,
        MetricId::SlotsInEpoch => "Slots in current epoch."@,
        MetricId::MaxShredInsertSlot => "Max shred insert slot."@,
        MetricId::ShredGapSlots => "Max shred insert slot minus absolute slot."@,
        MetricId::HighestSnapshotFull => "Highest full snapshot slot."@,
        MetricId::HighestSnapshotIncremental => "Highest incremental snapshot slot."@,
        MetricId::SnapshotLagSlots => "Absolute slot minus incremental snapshot slot."@,
        MetricId::ValidatorDelinquent => "1 if validator is delinquent."@,
        MetricId::ValidatorActivatedStakeSol => "Activated stake in SOL."@,
        MetricId::ValidatorCommissionPct => "Validator commission percentage."@,
        MetricId::ValidatorLastVote => "Validator last vote slot."@,
        MetricId::ValidatorLastVoteLagSlots => "Absolute slot minus last vote."@,
        MetricId::ValidatorRootSlot => "Validator root slot."@,
        MetricId::ValidatorRootLagSlots => "Absolute slot minus root slot."@,
        MetricId::ClusterConfirmedBlocksCurrentEpoch => "Cluster confirmed blocks in current epoch."@,
        MetricId::IdentityBalanceSol => "Identity account balance in SOL."@,
        MetricId::VoteBalanceSol => "Vote account balance in SOL."@,
        MetricId::VersionInfo => "Version info as a label; metric value always 1."@,
        MetricId::ScrapeSuccess => "1 if last scrape succeeded."@,
        MetricId::ScrapeErrorsTotal => "Collection failures since process start."@,
        MetricId::ScrapeDurationMs => "Last scrape duration in milliseconds."@,
        MetricId::ScrapeTimestampUnix => "Last scrape unix timestamp."@,
        MetricId::LastSuccessTimestampUnix => "Last successful collection unix timestamp."@,
    }
}

pub open spec fn metric_labels(m: MetricId) -> LabelKind {
    match m {
        MetricId::RpcHealth => LabelKind::Empty,
        MetricId::UptimeRatio => LabelKind::Node,
        MetricId::UptimeTarget => LabelKind::Empty,
        MetricId::UptimeSloMet => LabelKind::Empty,
        MetricId::VotingEffectivenessPct => LabelKind::Vote,
        MetricId::VotingEffectivenessTarget => LabelKind::Empty,
        MetricId::VotingEffectivenessSloMet => LabelKind::Empty,
        MetricId::VoteCreditsEarnedCurrentEpoch => LabelKind::Vote,
        MetricId::SkipRatePct => LabelKind::Node,
        MetricId::SkipRateTarget => LabelKind::Empty,
        MetricId::SkipRateSloMet => LabelKind::Empty,
        MetricId::LeaderSlotsCurrentEpoch => LabelKind::Node,
        MetricId::ProducedBlocksCurrentEpoch => LabelKind::Node,
        MetricId::SkippedSlotsCurrentEpoch => LabelKind::Node,
        MetricId::AbsoluteSlot => LabelKind::Empty,
        MetricId::ReferenceSlot => LabelKind::Empty,
        MetricId::SyncLagSlots => LabelKind::Empty,
        MetricId::BlockHeight => LabelKind::Empty,
        MetricId::Epoch => LabelKind::Empty,
        MetricId::SlotIndex => LabelKind::Empty,
        MetricId::SlotsInEpoch => LabelKind::Empty,
        MetricId::MaxShredInsertSlot => LabelKind::Empty,
        MetricId::ShredGapSlots => LabelKind::Empty,
        MetricId::HighestSnapshotFull => LabelKind::Empty,
        MetricId::HighestSnapshotIncremental => LabelKind::Empty,
        MetricId::SnapshotLagSlots => LabelKind::Empty,
        MetricId::ValidatorDelinquent => LabelKind::Node,
        MetricId::ValidatorActivatedStakeSol => LabelKind::Node,
        MetricId::ValidatorCommissionPct => LabelKind::Node,
        MetricId::ValidatorLastVote => LabelKind::Node,
        MetricId::ValidatorLastVoteLagSlots => LabelKind::Node,
        MetricId::ValidatorRootSlot => LabelKind::Node,
        MetricId::ValidatorRootLagSlots => LabelKind::Node,
        MetricId::ClusterConfirmedBlocksCurrentEpoch => LabelKind::Empty,
        MetricId::IdentityBalanceSol => LabelKind::Node,
        MetricId::VoteBalanceSol => LabelKind::Vote,
        MetricId::VersionInfo => LabelKind::Version,
        MetricId::ScrapeSuccess => LabelKind::Empty,
        MetricId::ScrapeErrorsTotal => LabelKind::Empty,
        MetricId::ScrapeDurationMs => LabelKind::Empty,
        MetricId::ScrapeTimestampUnix => LabelKind::Empty,
        MetricId::LastSuccessTimestampUnix => LabelKind::Empty,
    }
}

/// The value a metric takes from a snapshot's figures.
pub open spec fn metric_reading(m: MetricId, f: Figures) -> Reading {
    match m {
        MetricId::RpcHealth => Reading::Flag(f.rpc_health),
        MetricId::UptimeRatio => Reading::Percent(f.uptime_ratio),
        MetricId::UptimeTarget => Reading::Target(f.uptime_target),
        MetricId::UptimeSloMet => Reading::Flag(f.uptime_slo_met),
        MetricId::VotingEffectivenessPct => Reading::Percent(f.voting_effectiveness),
        MetricId::VotingEffectivenessTarget => Reading::Target(f.voting_effectiveness_target),
        MetricId::VotingEffectivenessSloMet => Reading::Flag(f.voting_effectiveness_slo_met),
        MetricId::VoteCreditsEarnedCurrentEpoch => Reading::Count(f.credits_earned_current_epoch),
        MetricId::SkipRatePct => Reading::Percent(f.skip_rate),
        MetricId::SkipRateTarget => Reading::Target(f.skip_rate_target),
        MetricId::SkipRateSloMet => Reading::Flag(f.skip_rate_slo_met),
        MetricId::LeaderSlotsCurrentEpoch => Reading::Count(f.leader_slots_current_epoch),
        MetricId::ProducedBlocksCurrentEpoch => Reading::Count(f.produced_blocks_current_epoch),
        MetricId::SkippedSlotsCurrentEpoch => Reading::Count(f.skipped_slots_current_epoch),
        MetricId::AbsoluteSlot => Reading::Count(f.absolute_slot),
        MetricId::ReferenceSlot => Reading::Count(f.reference_slot),
        MetricId::SyncLagSlots => Reading::Count(f.sync_lag_slots),
        MetricId::BlockHeight => Reading::Count(f.block_height),
        MetricId::Epoch => Reading::Count(f.epoch),
        MetricId::SlotIndex => Reading::Count(f.slot_index),
        MetricId::SlotsInEpoch => Reading::Count(f.slots_in_epoch),
        MetricId::MaxShredInsertSlot => Reading::Count(f.max_shred_insert_slot),
        MetricId::ShredGapSlots => Reading::Count(f.shred_gap_slots),
        MetricId::HighestSnapshotFull => Reading::Count(f.highest_snapshot_full),
        MetricId::HighestSnapshotIncremental => Reading::Count(f.highest_snapshot_incremental),
        MetricId::SnapshotLagSlots => Reading::Count(f.snapshot_lag_slots),
        MetricId::ValidatorDelinquent => Reading::Flag(f.delinquent),
        MetricId::ValidatorActivatedStakeSol => Reading::Lamports(f.activated_stake_lamports),
        MetricId::ValidatorCommissionPct => Reading::Count(f.commission_pct),
        MetricId::ValidatorLastVote => Reading::Count(f.last_vote),
        MetricId::ValidatorLastVoteLagSlots => Reading::Count(f.last_vote_lag_slots),
        MetricId::ValidatorRootSlot => Reading::Count(f.root_slot),
        MetricId::ValidatorRootLagSlots => Reading::Count(f.root_lag_slots),
        MetricId::ClusterConfirmedBlocksCurrentEpoch => Reading::Count(f.cluster_confirmed_blocks_current_epoch),
        MetricId::IdentityBalanceSol => Reading::Lamports(f.identity_balance_lamports),
        MetricId::VoteBalanceSol => Reading::Lamports(f.vote_balance_lamports),
        MetricId::VersionInfo => Reading::Flag(true),
        MetricId::ScrapeSuccess => Reading::Flag(f.scrape_success),
        MetricId::ScrapeErrorsTotal => Reading::Count(f.scrape_errors_total),
        MetricId::ScrapeDurationMs => Reading::Millis(f.scrape_duration_ms),
        MetricId::ScrapeTimestampUnix => Reading::UnixTime(f.scrape_timestamp_unix),
        MetricId::LastSuccessTimestampUnix => Reading::UnixTime(f.last_success_timestamp_unix),
    }
}

impl MetricId {
    /// The metric's exported name.
    pub fn name(self) -> (r: &'static str)
        ensures
            r@ == metric_name(self),
    {
        match self {
            MetricId::RpcHealth => "solana_rpc_health",
            MetricId::UptimeRatio => "solana_kpi_uptime_ratio",
            MetricId::UptimeTarget => "solana_kpi_uptime_target",
            MetricId::UptimeSloMet => "solana_kpi_uptime_slo_met",
            MetricId::VotingEffectivenessPct => "solana_kpi_voting_effectiveness_pct",
            MetricId::VotingEffectivenessTarget => "solana_kpi_voting_effectiveness_target",
            MetricId::VotingEffectivenessSloMet => "solana_kpi_voting_effectiveness_slo_met",
            MetricId::VoteCreditsEarnedCurrentEpoch => "solana_kpi_vote_credits_earned_current_epoch",
            MetricId::SkipRatePct => "solana_kpi_skip_rate_pct",
            MetricId::SkipRateTarget => "solana_kpi_skip_rate_target",
            MetricId::SkipRateSloMet => "solana_kpi_skip_rate_slo_met",
            MetricId::LeaderSlotsCurrentEpoch => "solana_kpi_leader_slots_current_epoch",
            MetricId::ProducedBlocksCurrentEpoch => "solana_kpi_produced_blocks_current_epoch",
            MetricId::SkippedSlotsCurrentEpoch => "solana_kpi_skipped_slots_current_epoch",
            MetricId::AbsoluteSlot => "solana_rpc_absolute_slot",
            MetricId::ReferenceSlot => "solana_rpc_reference_slot",
            MetricId::SyncLagSlots => "solana_rpc_sync_lag_slots",
            MetricId::BlockHeight => "solana_rpc_block_height",
            MetricId::Epoch => "solana_rpc_epoch",
            MetricId::SlotIndex => "solana_rpc_slot_index",
            MetricId::SlotsInEpoch => "solana_rpc_slots_in_epoch",
            MetricId::MaxShredInsertSlot => "solana_node_max_shred_insert_slot",
            MetricId::ShredGapSlots => "solana_node_shred_gap_slots",
            MetricId::HighestSnapshotFull => "solana_node_highest_snapshot_full",
            MetricId::HighestSnapshotIncremental => "solana_node_highest_snapshot_incremental",
            MetricId::SnapshotLagSlots => "solana_node_snapshot_lag_slots",
            MetricId::ValidatorDelinquent => "solana_validator_delinquent",
            MetricId::ValidatorActivatedStakeSol => "solana_validator_activated_stake_sol",
            MetricId::ValidatorCommissionPct => "solana_validator_commission_pct",
            MetricId::ValidatorLastVote => "solana_validator_last_vote",
            MetricId::ValidatorLastVoteLagSlots => "solana_validator_last_vote_lag_slots",
            MetricId::ValidatorRootSlot => "solana_validator_root_slot",
            MetricId::ValidatorRootLagSlots => "solana_validator_root_lag_slots",
            MetricId::ClusterConfirmedBlocksCurrentEpoch => "solana_kpi_cluster_confirmed_blocks_current_epoch",
            MetricId::IdentityBalanceSol => "solana_node_identity_balance_sol",
            MetricId::VoteBalanceSol => "solana_node_vote_balance_sol",
            MetricId::VersionInfo => "solana_rpc_version_info",
            MetricId::ScrapeSuccess => "solana_kpi_scrape_success",
            MetricId::ScrapeErrorsTotal => "solana_kpi_scrape_errors_total",
            MetricId::ScrapeDurationMs => "solana_kpi_scrape_duration_ms",
            MetricId::ScrapeTimestampUnix => "solana_kpi_scrape_timestamp_unix",
            MetricId::LastSuccessTimestampUnix => "solana_kpi_last_success_timestamp_unix",
        }
    }

    /// The metric's help text.
    pub fn help(self) -> (r: &'static str)
        ensures
            r@ == metric_help(self),
    {
        match self {
            MetricId::RpcHealth => "1 if getHealth is ok.",
            MetricId::UptimeRatio => "Sliding-window uptime ratio percentage.",
            MetricId::UptimeTarget => "Configured uptime target percentage.",
            MetricId::UptimeSloMet => "1 if uptime ratio meets target.",
            MetricId::VotingEffectivenessPct => "Voting effectiveness percentage.",
            MetricId::VotingEffectivenessTarget => "Configured voting effectiveness target percentage.",
            MetricId::VotingEffectivenessSloMet => "1 if voting effectiveness meets target.",
            MetricId::VoteCreditsEarnedCurrentEpoch => "Vote credits earned in current epoch.",
            MetricId::SkipRatePct => "Skip rate percentage in current epoch.",
            MetricId::SkipRateTarget => "Configured skip rate target percentage.",
            MetricId::SkipRateSloMet => "1 if skip rate meets target.",
            MetricId::LeaderSlotsCurrentEpoch => "Leader slots in current epoch.",
            MetricId::ProducedBlocksCurrentEpoch => "Produced blocks in current epoch.",
            MetricId::SkippedSlotsCurrentEpoch => "Skipped slots in current epoch.",
            MetricId::AbsoluteSlot => "Local absolute slot.",
            MetricId::ReferenceSlot => "Reference RPC slot.",
            MetricId::SyncLagSlots => "Reference slot minus local slot.",
            MetricId::BlockHeight => "Current block height.",
            MetricId::Epoch => "Current epoch.",
            MetricId::SlotIndex => "Current slot index in epoch.",
            MetricId::SlotsInEpoch => "Slots in current epoch.",
            MetricId::MaxShredInsertSlot => "Max shred insert slot.",
            MetricId::ShredGapSlots => "Max shred insert slot minus absolute slot.",
            MetricId::HighestSnapshotFull => "Highest full snapshot slot.",
            MetricId::HighestSnapshotIncremental => "Highest incremental snapshot slot.",
            MetricId::SnapshotLagSlots => "Absolute slot minus incremental snapshot slot.",
            MetricId::ValidatorDelinquent => "1 if validator is delinquent.",
            MetricId::ValidatorActivatedStakeSol => "Activated stake in SOL.",
            MetricId::ValidatorCommissionPct => "Validator commission percentage.",
            MetricId::ValidatorLastVote => "Validator last vote slot.",
            MetricId::ValidatorLastVoteLagSlots => "Absolute slot minus last vote.",
            MetricId::ValidatorRootSlot => "Validator root slot.",
            MetricId::ValidatorRootLagSlots => "Absolute slot minus root slot.",
            MetricId::ClusterConfirmedBlocksCurrentEpoch => "Cluster confirmed blocks in current epoch.",
            MetricId::IdentityBalanceSol => "Identity account balance in SOL.",
            MetricId::VoteBalanceSol => "Vote account balance in SOL.",
            MetricId::VersionInfo => "Version info as a label; metric value always 1.",
            MetricId::ScrapeSuccess => "1 if last scrape succeeded.",
            MetricId::ScrapeErrorsTotal => "Collection failures since process start.",
            MetricId::ScrapeDurationMs => "Last scrape duration in milliseconds.",
            MetricId::ScrapeTimestampUnix => "Last scrape unix timestamp.",
            MetricId::LastSuccessTimestampUnix => "Last successful collection unix timestamp.",
        }
    }

    /// The label the metric carries.
    pub fn label_kind(self) -> (r: LabelKind)
        ensures
            r == metric_labels(self),
    {
        match self {
            MetricId::RpcHealth => LabelKind::Empty,
            MetricId::UptimeRatio => LabelKind::Node,
            MetricId::UptimeTarget => LabelKind::Empty,
            MetricId::UptimeSloMet => LabelKind::Empty,
            MetricId::VotingEffectivenessPct => LabelKind::Vote,
            MetricId::VotingEffectivenessTarget => LabelKind::Empty,
            MetricId::VotingEffectivenessSloMet => LabelKind::Empty,
            MetricId::VoteCreditsEarnedCurrentEpoch => LabelKind::Vote,
            MetricId::SkipRatePct => LabelKind::Node,
            MetricId::SkipRateTarget => LabelKind::Empty,
            MetricId::SkipRateSloMet => LabelKind::Empty,
            MetricId::LeaderSlotsCurrentEpoch => LabelKind::Node,
            MetricId::ProducedBlocksCurrentEpoch => LabelKind::Node,
            MetricId::SkippedSlotsCurrentEpoch => LabelKind::Node,
            MetricId::AbsoluteSlot => LabelKind::Empty,
            MetricId::ReferenceSlot => LabelKind::Empty,
            MetricId::SyncLagSlots => LabelKind::Empty,
            MetricId::BlockHeight => LabelKind::Empty,
            MetricId::Epoch => LabelKind::Empty,
            MetricId::SlotIndex => LabelKind::Empty,
            MetricId::SlotsInEpoch => LabelKind::Empty,
            MetricId::MaxShredInsertSlot => LabelKind::Empty,
            MetricId::ShredGapSlots => LabelKind::Empty,
            MetricId::HighestSnapshotFull => LabelKind::Empty,
            MetricId::HighestSnapshotIncremental => LabelKind::Empty,
            MetricId::SnapshotLagSlots => LabelKind::Empty,
            MetricId::ValidatorDelinquent => LabelKind::Node,
            MetricId::ValidatorActivatedStakeSol => LabelKind::Node,
            MetricId::ValidatorCommissionPct => LabelKind::Node,
            MetricId::ValidatorLastVote => LabelKind::Node,
            MetricId::ValidatorLastVoteLagSlots => LabelKind::Node,
            MetricId::ValidatorRootSlot => LabelKind::Node,
            MetricId::ValidatorRootLagSlots => LabelKind::Node,
            MetricId::ClusterConfirmedBlocksCurrentEpoch => LabelKind::Empty,
            MetricId::IdentityBalanceSol => LabelKind::Node,
            MetricId::VoteBalanceSol => LabelKind::Vote,
            MetricId::VersionInfo => LabelKind::Version,
            MetricId::ScrapeSuccess => LabelKind::Empty,
            MetricId::ScrapeErrorsTotal => LabelKind::Empty,
            MetricId::ScrapeDurationMs => LabelKind::Empty,
            MetricId::ScrapeTimestampUnix => LabelKind::Empty,
            MetricId::LastSuccessTimestampUnix => LabelKind::Empty,
        }
    }

    /// The metric's value in the figures.
    pub fn reading(self, f: &Figures) -> (r: Reading)
        ensures
            r == metric_reading(self, *f),
            // each metric reads the figure it is named for
            self == MetricId::RpcHealth ==> r == Reading::Flag(f.rpc_health),
            self == MetricId::UptimeRatio ==> r == Reading::Percent(f.uptime_ratio),
            self == MetricId::UptimeTarget ==> r == Reading::Target(f.uptime_target),
            self == MetricId::UptimeSloMet ==> r == Reading::Flag(f.uptime_slo_met),
            self == MetricId::VotingEffectivenessPct ==> r == Reading::Percent(f.voting_effectiveness),
            self == MetricId::VotingEffectivenessTarget ==> r == Reading::Target(f.voting_effectiveness_target),
            self == MetricId::VotingEffectivenessSloMet ==> r == Reading::Flag(f.voting_effectiveness_slo_met),
            self == MetricId::VoteCreditsEarnedCurrentEpoch ==> r == Reading::Count(f.credits_earned_current_epoch),
            self == MetricId::SkipRatePct ==> r == Reading::Percent(f.skip_rate),
            self == MetricId::SkipRateTarget ==> r == Reading::Target(f.skip_rate_target),
            self == MetricId::SkipRateSloMet ==> r == Reading::Flag(f.skip_rate_slo_met),
            self == MetricId::LeaderSlotsCurrentEpoch ==> r == Reading::Count(f.leader_slots_current_epoch),
            self == MetricId::ProducedBlocksCurrentEpoch ==> r == Reading::Count(f.produced_blocks_current_epoch),
            self == MetricId::SkippedSlotsCurrentEpoch ==> r == Reading::Count(f.skipped_slots_current_epoch),
            self == MetricId::AbsoluteSlot ==> r == Reading::Count(f.absolute_slot),
            self == MetricId::ReferenceSlot ==> r == Reading::Count(f.reference_slot),
            self == MetricId::SyncLagSlots ==> r == Reading::Count(f.sync_lag_slots),
            self == MetricId::BlockHeight ==> r == Reading::Count(f.block_height),
            self == MetricId::Epoch ==> r == Reading::Count(f.epoch),
            self == MetricId::SlotIndex ==> r == Reading::Count(f.slot_index),
            self == MetricId::SlotsInEpoch ==> r == Reading::Count(f.slots_in_epoch),
            self == MetricId::MaxShredInsertSlot ==> r == Reading::Count(f.max_shred_insert_slot),
            self == MetricId::ShredGapSlots ==> r == Reading::Count(f.shred_gap_slots),
            self == MetricId::HighestSnapshotFull ==> r == Reading::Count(f.highest_snapshot_full),
            self == MetricId::HighestSnapshotIncremental ==> r == Reading::Count(f.highest_snapshot_incremental),
            self == MetricId::SnapshotLagSlots ==> r == Reading::Count(f.snapshot_lag_slots),
            self == MetricId::ValidatorDelinquent ==> r == Reading::Flag(f.delinquent),
            self == MetricId::ValidatorActivatedStakeSol ==> r == Reading::Lamports(f.activated_stake_lamports),
            self == MetricId::ValidatorCommissionPct ==> r == Reading::Count(f.commission_pct),
            self == MetricId::ValidatorLastVote ==> r == Reading::Count(f.last_vote),
            self == MetricId::ValidatorLastVoteLagSlots ==> r == Reading::Count(f.last_vote_lag_slots),
            self == MetricId::ValidatorRootSlot ==> r == Reading::Count(f.root_slot),
            self == MetricId::ValidatorRootLagSlots ==> r == Reading::Count(f.root_lag_slots),
            self == MetricId::ClusterConfirmedBlocksCurrentEpoch ==> r == Reading::Count(f.cluster_confirmed_blocks_current_epoch),
            self == MetricId::IdentityBalanceSol ==> r == Reading::Lamports(f.identity_balance_lamports),
            self == MetricId::VoteBalanceSol ==> r == Reading::Lamports(f.vote_balance_lamports),
            self == MetricId::VersionInfo ==> r == Reading::Flag(true),
            self == MetricId::ScrapeSuccess ==> r == Reading::Flag(f.scrape_success),
            self == MetricId::ScrapeErrorsTotal ==> r == Reading::Count(f.scrape_errors_total),
            self == MetricId::ScrapeDurationMs ==> r == Reading::Millis(f.scrape_duration_ms),
            self == MetricId::ScrapeTimestampUnix ==> r == Reading::UnixTime(f.scrape_timestamp_unix),
            self == MetricId::LastSuccessTimestampUnix ==> r == Reading::UnixTime(f.last_success_timestamp_unix),
    {
        match self {
            MetricId::RpcHealth => Reading::Flag(f.rpc_health),
            MetricId::UptimeRatio => Reading::Percent(f.uptime_ratio),
            MetricId::UptimeTarget => Reading::Target(f.uptime_target),
            MetricId::UptimeSloMet => Reading::Flag(f.uptime_slo_met),
            MetricId::VotingEffectivenessPct => Reading::Percent(f.voting_effectiveness),
            MetricId::VotingEffectivenessTarget => Reading::Target(f.voting_effectiveness_target),
            MetricId::VotingEffectivenessSloMet => Reading::Flag(f.voting_effectiveness_slo_met),
            MetricId::VoteCreditsEarnedCurrentEpoch => Reading::Count(f.credits_earned_current_epoch),
            MetricId::SkipRatePct => Reading::Percent(f.skip_rate),
            MetricId::SkipRateTarget => Reading::Target(f.skip_rate_target),
            MetricId::SkipRateSloMet => Reading::Flag(f.skip_rate_slo_met),
            MetricId::LeaderSlotsCurrentEpoch => Reading::Count(f.leader_slots_current_epoch),
            MetricId::ProducedBlocksCurrentEpoch => Reading::Count(f.produced_blocks_current_epoch),
            MetricId::SkippedSlotsCurrentEpoch => Reading::Count(f.skipped_slots_current_epoch),
            MetricId::AbsoluteSlot => Reading::Count(f.absolute_slot),
            MetricId::ReferenceSlot => Reading::Count(f.reference_slot),
            MetricId::SyncLagSlots => Reading::Count(f.sync_lag_slots),
            MetricId::BlockHeight => Reading::Count(f.block_height),
            MetricId::Epoch => Reading::Count(f.epoch),
            MetricId::SlotIndex => Reading::Count(f.slot_index),
            MetricId::SlotsInEpoch => Reading::Count(f.slots_in_epoch),
            MetricId::MaxShredInsertSlot => Reading::Count(f.max_shred_insert_slot),
            MetricId::ShredGapSlots => Reading::Count(f.shred_gap_slots),
            MetricId::HighestSnapshotFull => Reading::Count(f.highest_snapshot_full),
            MetricId::HighestSnapshotIncremental => Reading::Count(f.highest_snapshot_incremental),
            MetricId::SnapshotLagSlots => Reading::Count(f.snapshot_lag_slots),
            MetricId::ValidatorDelinquent => Reading::Flag(f.delinquent),
            MetricId::ValidatorActivatedStakeSol => Reading::Lamports(f.activated_stake_lamports),
            MetricId::ValidatorCommissionPct => Reading::Count(f.commission_pct),
            MetricId::ValidatorLastVote => Reading::Count(f.last_vote),
            MetricId::ValidatorLastVoteLagSlots => Reading::Count(f.last_vote_lag_slots),
            MetricId::ValidatorRootSlot => Reading::Count(f.root_slot),
            MetricId::ValidatorRootLagSlots => Reading::Count(f.root_lag_slots),
            MetricId::ClusterConfirmedBlocksCurrentEpoch => Reading::Count(f.cluster_confirmed_blocks_current_epoch),
            MetricId::IdentityBalanceSol => Reading::Lamports(f.identity_balance_lamports),
            MetricId::VoteBalanceSol => Reading::Lamports(f.vote_balance_lamports),
            MetricId::VersionInfo => Reading::Flag(true),
            MetricId::ScrapeSuccess => Reading::Flag(f.scrape_success),
            MetricId::ScrapeErrorsTotal => Reading::Count(f.scrape_errors_total),
            MetricId::ScrapeDurationMs => Reading::Millis(f.scrape_duration_ms),
            MetricId::ScrapeTimestampUnix => Reading::UnixTime(f.scrape_timestamp_unix),
            MetricId::LastSuccessTimestampUnix => Reading::UnixTime(f.last_success_timestamp_unix),
        }
    }
}

/// Every metric, in registration order.
pub fn all_metrics() -> (r: Vec<MetricId>)
    ensures
        r@ == metric_order(),
{
    let mut r: Vec<MetricId> = Vec::new();
    r.push(MetricId::RpcHealth);
    r.push(MetricId::UptimeRatio);
    r.push(MetricId::UptimeTarget);
    r.push(MetricId::UptimeSloMet);
    r.push(MetricId::VotingEffectivenessPct);
    r.push(MetricId::VotingEffectivenessTarget);
    r.push(MetricId::VotingEffectivenessSloMet);
    r.push(MetricId::VoteCreditsEarnedCurrentEpoch);
    r.push(MetricId::SkipRatePct);
    r.push(MetricId::SkipRateTarget);
    r.push(MetricId::SkipRateSloMet);
    r.push(MetricId::LeaderSlotsCurrentEpoch);
    r.push(MetricId::ProducedBlocksCurrentEpoch);
    r.push(MetricId::SkippedSlotsCurrentEpoch);
    r.push(MetricId::AbsoluteSlot);
    r.push(MetricId::ReferenceSlot);
    r.push(MetricId::SyncLagSlots);
    r.push(MetricId::BlockHeight);
    r.push(MetricId::Epoch);
    r.push(MetricId::SlotIndex);
    r.push(MetricId::SlotsInEpoch);
    r.push(MetricId::MaxShredInsertSlot);
    r.push(MetricId::ShredGapSlots);
    r.push(MetricId::HighestSnapshotFull);
    r.push(MetricId::HighestSnapshotIncremental);
    r.push(MetricId::SnapshotLagSlots);
    r.push(MetricId::ValidatorDelinquent);
    r.push(MetricId::ValidatorActivatedStakeSol);
    r.push(MetricId::ValidatorCommissionPct);
    r.push(MetricId::ValidatorLastVote);
    r.push(MetricId::ValidatorLastVoteLagSlots);
    r.push(MetricId::ValidatorRootSlot);
    r.push(MetricId::ValidatorRootLagSlots);
    r.push(MetricId::ClusterConfirmedBlocksCurrentEpoch);
    r.push(MetricId::IdentityBalanceSol);
    r.push(MetricId::VoteBalanceSol);
    r.push(MetricId::VersionInfo);
    r.push(MetricId::ScrapeSuccess);
    r.push(MetricId::ScrapeErrorsTotal);
    r.push(MetricId::ScrapeDurationMs);
    r.push(MetricId::ScrapeTimestampUnix);
    r.push(MetricId::LastSuccessTimestampUnix);
    assert(r@ =~= metric_order());
    r
}


impl LabelKind {
    /// The label's name; `None` for unlabelled metrics.
    pub fn label_name(self) -> (r: Option<&'static str>)
        ensures
            r matches Some(n) ==> n@ == label_name_of(self)->0,
            r is None <==> label_name_of(self) is None,
    {
        match self {
            LabelKind::Empty => None,
            LabelKind::Node => Some("node_pubkey"),
            LabelKind::Vote => Some("vote_pubkey"),
            LabelKind::Version => Some("version"),
        }
    }
}

pub open spec fn label_name_of(kind: LabelKind) -> Option<Seq<char>> {
    match kind {
        LabelKind::Empty => None,
        LabelKind::Node => Some("node_pubkey"@),
        LabelKind::Vote => Some("vote_pubkey"@),
        LabelKind::Version => Some("version"@),
    }
}

/// The label value a metric of kind `kind` carries: the node identity, the
/// vote account (`none` when none is configured) or the version (`unknown`
/// when the node reported an empty one).
pub open spec fn label_value_of(kind: LabelKind, identity: IdentityConfig, version: Seq<char>) -> Option<
    Seq<char>,
> {
    match kind {
        LabelKind::Empty => None,
        LabelKind::Node => Some(identity.node_pubkey@),
        LabelKind::Vote => Some(
            match identity.vote_pubkey {
                Some(v) => v@,
                None => "none"@,
            },
        ),
        LabelKind::Version => Some(
            if version.len() == 0 {
                "unknown"@
            } else {
                version
            },
        ),
    }
}

pub open spec fn label_view(l: Option<String>) -> Option<Seq<char>> {
    match l {
        Some(s) => Some(s@),
        None => None,
    }
}

/// Works out the label value of a metric of kind `kind`.
pub fn label_value(kind: LabelKind, identity: &IdentityConfig, version: &String) -> (r: Option<String>)
    ensures
        label_view(r) == label_value_of(kind, *identity, version@),
{
    match kind {
        LabelKind::Empty => None,
        LabelKind::Node => Some(identity.node_pubkey.clone()),
        LabelKind::Vote => match &identity.vote_pubkey {
            Some(v) => Some(v.clone()),
            None => Some("none".to_string()),
        },
        LabelKind::Version => if version.as_str().is_empty() {
            Some("unknown".to_string())
        } else {
            Some(version.clone())
        },
    }
}

/// The gauges to set for a snapshot: one sample per metric, in registration
/// order, each with its label value and its reading of the figures.
pub fn samples(identity: &IdentityConfig, snapshot: &Snapshot) -> (r: Vec<MetricSample>)
    ensures
        r@.len() == metric_order().len(),
        forall|i: int|
            0 <= i < r@.len() ==> {
                &&& (#[trigger] r@[i]).metric == metric_order()[i]
                &&& r@[i].value == metric_reading(metric_order()[i], snapshot.figures)
                &&& label_view(r@[i].label) == label_value_of(
                    metric_labels(metric_order()[i]),
                    *identity,
                    snapshot.solana_version@,
                )
            },
{
    let order = all_metrics();
    let mut r: Vec<MetricSample> = Vec::new();
    let n = order.len();
    let mut i: usize = 0;
    while i < n
        invariant
            n == order@.len(),
            order@ == metric_order(),
            i <= n,
            r@.len() == i,
            forall|j: int|
                0 <= j < i ==> {
                    &&& (#[trigger] r@[j]).metric == metric_order()[j]
                    &&& r@[j].value == metric_reading(metric_order()[j], snapshot.figures)
                    &&& label_view(r@[j].label) == label_value_of(
                        metric_labels(metric_order()[j]),
                        *identity,
                        snapshot.solana_version@,
                    )
                },
        decreases n - i,
    {
        let m = order[i];
        let label = label_value(m.label_kind(), identity, &snapshot.solana_version);
        let value = m.reading(&snapshot.figures);
        r.push(MetricSample { metric: m, label, value });
        i = i + 1;
    }
    r
}

/// Every metric is registered, and registered once.
pub proof fn lemma_every_metric_once(m: MetricId)
    ensures
        metric_order().contains(m),
        forall|i: int, j: int|
            0 <= i < j < metric_order().len() ==> metric_order()[i] != metric_order()[j],
{
    match m {
        MetricId::RpcHealth => {
            assert(metric_order()[0] == m);
        },
        MetricId::UptimeRatio => {
            assert(metric_order()[1] == m);
        },
        MetricId::UptimeTarget => {
            assert(metric_order()[2] == m);
        },
        MetricId::UptimeSloMet => {
            assert(metric_order()[3] == m);
        },
        MetricId::VotingEffectivenessPct => {
            assert(metric_order()[4] == m);
        },
        MetricId::VotingEffectivenessTarget => {
            assert(metric_order()[5] == m);
        },
        MetricId::VotingEffectivenessSloMet => {
            assert(metric_order()[6] == m);
        },
        MetricId::VoteCreditsEarnedCurrentEpoch => {
            assert(metric_order()[7] == m);
        },
        MetricId::SkipRatePct => {
            assert(metric_order()[8] == m);
        },
        MetricId::SkipRateTarget => {
            assert(metric_order()[9] == m);
        },
        MetricId::SkipRateSloMet => {
            assert(metric_order()[10] == m);
        },
        MetricId::LeaderSlotsCurrentEpoch => {
            assert(metric_order()[11] == m);
        },
        MetricId::ProducedBlocksCurrentEpoch => {
            assert(metric_order()[12] == m);
        },
        MetricId::SkippedSlotsCurrentEpoch => {
            assert(metric_order()[13] == m);
        },
        MetricId::AbsoluteSlot => {
            assert(metric_order()[14] == m);
        },
        MetricId::ReferenceSlot => {
            assert(metric_order()[15] == m);
        },
        MetricId::SyncLagSlots => {
            assert(metric_order()[16] == m);
        },
        MetricId::BlockHeight => {
            assert(metric_order()[17] == m);
        },
        MetricId::Epoch => {
            assert(metric_order()[18] == m);
        },
        MetricId::SlotIndex => {
            assert(metric_order()[19] == m);
        },
        MetricId::SlotsInEpoch => {
            assert(metric_order()[20] == m);
        },
        MetricId::MaxShredInsertSlot => {
            assert(metric_order()[21] == m);
        },
        MetricId::ShredGapSlots => {
            assert(metric_order()[22] == m);
        },
        MetricId::HighestSnapshotFull => {
            assert(metric_order()[23] == m);
        },
        MetricId::HighestSnapshotIncremental => {
            assert(metric_order()[24] == m);
        },
        MetricId::SnapshotLagSlots => {
            assert(metric_order()[25] == m);
        },
        MetricId::ValidatorDelinquent => {
            assert(metric_order()[26] == m);
        },
        MetricId::ValidatorActivatedStakeSol => {
            assert(metric_order()[27] == m);
        },
        MetricId::ValidatorCommissionPct => {
            assert(metric_order()[28] == m);
        },
        MetricId::ValidatorLastVote => {
            assert(metric_order()[29] == m);
        },
        MetricId::ValidatorLastVoteLagSlots => {
            assert(metric_order()[30] == m);
        },
        MetricId::ValidatorRootSlot => {
            assert(metric_order()[31] == m);
        },
        MetricId::ValidatorRootLagSlots => {
            assert(metric_order()[32] == m);
        },
        MetricId::ClusterConfirmedBlocksCurrentEpoch => {
            assert(metric_order()[33] == m);
        },
        MetricId::IdentityBalanceSol => {
            assert(metric_order()[34] == m);
        },
        MetricId::VoteBalanceSol => {
            assert(metric_order()[35] == m);
        },
        MetricId::VersionInfo => {
            assert(metric_order()[36] == m);
        },
        MetricId::ScrapeSuccess => {
            assert(metric_order()[37] == m);
        },
        MetricId::ScrapeErrorsTotal => {
            assert(metric_order()[38] == m);
        },
        MetricId::ScrapeDurationMs => {
            assert(metric_order()[39] == m);
        },
        MetricId::ScrapeTimestampUnix => {
            assert(metric_order()[40] == m);
        },
        MetricId::LastSuccessTimestampUnix => {
            assert(metric_order()[41] == m);
        },
    }
}

/// Each metric reads the figure that it is named for.
pub proof fn lemma_metric_reads_its_figure(f: Figures)
    ensures
        metric_reading(MetricId::RpcHealth, f) == Reading::Flag(f.rpc_health),
        metric_reading(MetricId::UptimeRatio, f) == Reading::Percent(f.uptime_ratio),
        metric_reading(MetricId::UptimeTarget, f) == Reading::Target(f.uptime_target),
        metric_reading(MetricId::UptimeSloMet, f) == Reading::Flag(f.uptime_slo_met),
        metric_reading(MetricId::VotingEffectivenessPct, f) == Reading::Percent(f.voting_effectiveness),
        metric_reading(MetricId::VotingEffectivenessTarget, f) == Reading::Target(f.voting_effectiveness_target),
        metric_reading(MetricId::VotingEffectivenessSloMet, f) == Reading::Flag(f.voting_effectiveness_slo_met),
        metric_reading(MetricId::VoteCreditsEarnedCurrentEpoch, f) == Reading::Count(f.credits_earned_current_epoch),
        metric_reading(MetricId::SkipRatePct, f) == Reading::Percent(f.skip_rate),
        metric_reading(MetricId::SkipRateTarget, f) == Reading::Target(f.skip_rate_target),
        metric_reading(MetricId::SkipRateSloMet, f) == Reading::Flag(f.skip_rate_slo_met),
        metric_reading(MetricId::LeaderSlotsCurrentEpoch, f) == Reading::Count(f.leader_slots_current_epoch),
        metric_reading(MetricId::ProducedBlocksCurrentEpoch, f) == Reading::Count(f.produced_blocks_current_epoch),
        metric_reading(MetricId::SkippedSlotsCurrentEpoch, f) == Reading::Count(f.skipped_slots_current_epoch),
        metric_reading(MetricId::AbsoluteSlot, f) == Reading::Count(f.absolute_slot),
        metric_reading(MetricId::ReferenceSlot, f) == Reading::Count(f.reference_slot),
        metric_reading(MetricId::SyncLagSlots, f) == Reading::Count(f.sync_lag_slots),
        metric_reading(MetricId::BlockHeight, f) == Reading::Count(f.block_height),
        metric_reading(MetricId::Epoch, f) == Reading::Count(f.epoch),
        metric_reading(MetricId::SlotIndex, f) == Reading::Count(f.slot_index),
        metric_reading(MetricId::SlotsInEpoch, f) == Reading::Count(f.slots_in_epoch),
        metric_reading(MetricId::MaxShredInsertSlot, f) == Reading::Count(f.max_shred_insert_slot),
        metric_reading(MetricId::ShredGapSlots, f) == Reading::Count(f.shred_gap_slots),
        metric_reading(MetricId::HighestSnapshotFull, f) == Reading::Count(f.highest_snapshot_full),
        metric_reading(MetricId::HighestSnapshotIncremental, f) == Reading::Count(f.highest_snapshot_incremental),
        metric_reading(MetricId::SnapshotLagSlots, f) == Reading::Count(f.snapshot_lag_slots),
        metric_reading(MetricId::ValidatorDelinquent, f) == Reading::Flag(f.delinquent),
        metric_reading(MetricId::ValidatorActivatedStakeSol, f) == Reading::Lamports(f.activated_stake_lamports),
        metric_reading(MetricId::ValidatorCommissionPct, f) == Reading::Count(f.commission_pct),
        metric_reading(MetricId::ValidatorLastVote, f) == Reading::Count(f.last_vote),
        metric_reading(MetricId::ValidatorLastVoteLagSlots, f) == Reading::Count(f.last_vote_lag_slots),
        metric_reading(MetricId::ValidatorRootSlot, f) == Reading::Count(f.root_slot),
        metric_reading(MetricId::ValidatorRootLagSlots, f) == Reading::Count(f.root_lag_slots),
        metric_reading(MetricId::ClusterConfirmedBlocksCurrentEpoch, f) == Reading::Count(f.cluster_confirmed_blocks_current_epoch),
        metric_reading(MetricId::IdentityBalanceSol, f) == Reading::Lamports(f.identity_balance_lamports),
        metric_reading(MetricId::VoteBalanceSol, f) == Reading::Lamports(f.vote_balance_lamports),
        metric_reading(MetricId::VersionInfo, f) == Reading::Flag(true),
        metric_reading(MetricId::ScrapeSuccess, f) == Reading::Flag(f.scrape_success),
        metric_reading(MetricId::ScrapeErrorsTotal, f) == Reading::Count(f.scrape_errors_total),
        metric_reading(MetricId::ScrapeDurationMs, f) == Reading::Millis(f.scrape_duration_ms),
        metric_reading(MetricId::ScrapeTimestampUnix, f) == Reading::UnixTime(f.scrape_timestamp_unix),
        metric_reading(MetricId::LastSuccessTimestampUnix, f) == Reading::UnixTime(f.last_success_timestamp_unix),
{
}

} // verus!
