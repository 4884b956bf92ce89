//! One collection, as a sequence of RPC requests: which request comes next,
//! what each reply contributes, and when the collection fails.
//!
//! The caller performs each request and hands back its reply (or `None`
//! when the request failed), until no request is left; then it asks for
//! the snapshot.
use vstd::prelude::*;
use crate::config::{Config, Mode};
use crate::kpi::{EpochInfo, SnapshotSlots, VoteAccount, ProductionEntry, chosen_vote_account, select_vote_account, distinct_identities};
use crate::snapshot::{Observations, ValidatorObservations};

verus! {

/// The steps of a collection, in the order in which they can come.
#[derive(Clone, Copy, Debug, PartialEq, Eq, Structural)]
pub enum Stage {
    Version,
    Health,
    EpochInfo,
    LocalSlot,
    ReferenceSlot,
    MaxShredInsertSlot,
    HighestSnapshotSlot,
    IdentityBalance,
    VoteAccounts,
    BlockProduction,
    VoteBalance,
    Finished,
}

/// Why a collection failed.
#[derive(Clone, Copy, Debug, PartialEq, Eq, Structural)]
pub enum CollectError {
    /// A request whose reply the collection needs failed.
    RequestFailed(Stage),
    /// Validator mode without a configured vote account.
    VotePubkeyMissing,
    /// The vote account is neither current nor delinquent.
    VoteAccountNotFound,
    /// The cluster's block production adds up beyond `u64`.
    BlockCountOverflow,
    /// The uptime window cannot be placed for the clock reading.
    ClockOutOfRange,
}

/// Which configured node a request goes to.
#[derive(Clone, Copy, Debug, PartialEq, Eq, Structural)]
pub enum Endpoint {
    Target,
    Reference,
}

/// A JSON-RPC call and its parameters.
#[derive(Debug)]
pub enum RpcCall {
    GetVersion,
    GetHealth,
    GetEpochInfo { commitment: String },
    GetSlot { commitment: String },
    GetMaxShredInsertSlot,
    GetHighestSnapshotSlot,
    GetBalance { address: String, commitment: String },
    GetVoteAccounts { vote_pubkey: String, commitment: String },
    GetBlockProduction { commitment: String },
}

#[derive(Debug)]
pub struct RpcRequest {
    pub endpoint: Endpoint,
    pub call: RpcCall,
}

/// The result of a call, as the collection reads it.
#[derive(Debug)]
pub enum RpcReply {
    Version { solana_core: String },
    Health { healthy: bool },
    EpochInfo(EpochInfo),
    Slot(u64),
    SnapshotSlots(SnapshotSlots),
    Balance(u64),
    VoteAccounts { current: Vec<VoteAccount>, delinquent: Vec<VoteAccount> },
    BlockProduction(Vec<ProductionEntry>),
}

/// A collection in progress: its stage, and what it has learned so far.
#[derive(Debug)]
pub struct Collection {
    pub stage: Stage,
    pub failure: Option<CollectError>,
    pub version: String,
    pub health_ok: bool,
    pub epoch_info: EpochInfo,
    pub local_slot: u64,
    pub reference_slot: u64,
    pub max_shred_insert_slot: u64,
    pub snapshot_slots: SnapshotSlots,
    pub identity_balance: u64,
    /// The chosen vote account, and whether the reply listed a delinquent one.
    pub vote: Option<(VoteAccount, bool)>,
    pub production: Vec<ProductionEntry>,
    pub vote_balance: u64,
}

/// Position of a stage in the order of a collection.
pub open spec fn rank(s: Stage) -> nat {
    match s {
        Stage::Version => 0,
        Stage::Health => 1,
        Stage::EpochInfo => 2,
        Stage::LocalSlot => 3,
        Stage::ReferenceSlot => 4,
        Stage::MaxShredInsertSlot => 5,
        Stage::HighestSnapshotSlot => 6,
        Stage::IdentityBalance => 7,
        Stage::VoteAccounts => 8,
        Stage::BlockProduction => 9,
        Stage::VoteBalance => 10,
        Stage::Finished => 11,
    }
}

/// A failed request at this stage fails the collection; at the others the
/// collection goes on with a default.
pub open spec fn required(s: Stage) -> bool {
    match s {
        Stage::MaxShredInsertSlot | Stage::HighestSnapshotSlot | Stage::IdentityBalance
        | Stage::VoteBalance | Stage::Finished => false,
        _ => true,
    }
}

/// The stage after the identity balance: the vote accounts in validator mode.
pub open spec fn after_identity(cfg: Config) -> Stage {
    if cfg.mode == Mode::Validator {
        Stage::VoteAccounts
    } else {
        Stage::Finished
    }
}

/// The stage that follows `s` when it succeeds.
pub open spec fn following(cfg: Config, s: Stage) -> Stage {
    match s {
        Stage::Version => Stage::Health,
        Stage::Health => Stage::EpochInfo,
        Stage::EpochInfo => Stage::LocalSlot,
        Stage::LocalSlot => Stage::ReferenceSlot,
        Stage::ReferenceSlot => Stage::MaxShredInsertSlot,
        Stage::MaxShredInsertSlot => Stage::HighestSnapshotSlot,
        Stage::HighestSnapshotSlot => if cfg.features.enable_balance_metrics {
            Stage::IdentityBalance
        } else {
            after_identity(cfg)
        },
        Stage::IdentityBalance => after_identity(cfg),
        Stage::VoteAccounts => if cfg.features.enable_skip_rate {
            Stage::BlockProduction
        } else if cfg.features.enable_balance_metrics {
            Stage::VoteBalance
        } else {
            Stage::Finished
        },
        Stage::BlockProduction => if cfg.features.enable_balance_metrics {
            Stage::VoteBalance
        } else {
            Stage::Finished
        },
        Stage::VoteBalance => Stage::Finished,
        Stage::Finished => Stage::Finished,
    }
}

/// Whether `reply` is of the kind that the request of stage `s` yields.
pub open spec fn fits(s: Stage, reply: RpcReply) -> bool {
    match s {
        Stage::Version => reply is Version,
        Stage::Health => reply is Health,
        Stage::EpochInfo => reply is EpochInfo,
        Stage::LocalSlot | Stage::ReferenceSlot | Stage::MaxShredInsertSlot => reply is Slot,
        Stage::HighestSnapshotSlot => reply is SnapshotSlots,
        Stage::IdentityBalance | Stage::VoteBalance => reply is Balance,
        Stage::VoteAccounts => reply is VoteAccounts,
        Stage::BlockProduction => reply is BlockProduction,
        Stage::Finished => false,
    }
}

impl Collection {
    /// The state is one that a collection under `cfg` can reach.
    pub open spec fn well_formed(self, cfg: Config) -> bool {
        &&& self.failure is Some ==> self.stage == Stage::Finished
        &&& (self.stage == Stage::BlockProduction || self.stage == Stage::VoteBalance)
            ==> self.vote is Some
        &&& (self.stage == Stage::Finished && self.failure is None && cfg.mode == Mode::Validator)
            ==> self.vote is Some
        &&& cfg.mode == Mode::Rpc ==> self.vote is None
        &&& self.stage == Stage::VoteAccounts ==> cfg.identity.vote_pubkey is Some
        &&& (self.stage == Stage::VoteAccounts || self.stage == Stage::BlockProduction
            || self.stage == Stage::VoteBalance) ==> cfg.mode == Mode::Validator
        &&& distinct_identities(self.production@)
    }

    /// The request that the collection makes at its stage.
    pub open spec fn request_at(self, cfg: Config) -> Option<RpcRequest> {
        match self.stage {
            Stage::Version => Some(RpcRequest { endpoint: Endpoint::Target, call: RpcCall::GetVersion }),
            Stage::Health => Some(RpcRequest { endpoint: Endpoint::Target, call: RpcCall::GetHealth }),
            Stage::EpochInfo => Some(
                RpcRequest {
                    endpoint: Endpoint::Target,
                    call: RpcCall::GetEpochInfo { commitment: cfg.rpc.commitment },
                },
            ),
            Stage::LocalSlot => Some(
                RpcRequest {
                    endpoint: Endpoint::Target,
                    call: RpcCall::GetSlot { commitment: cfg.rpc.commitment },
                },
            ),
            Stage::ReferenceSlot => Some(
                RpcRequest {
                    endpoint: Endpoint::Reference,
                    call: RpcCall::GetSlot { commitment: cfg.rpc.commitment },
                },
            ),
            Stage::MaxShredInsertSlot => Some(
                RpcRequest { endpoint: Endpoint::Target, call: RpcCall::GetMaxShredInsertSlot },
            ),
            Stage::HighestSnapshotSlot => Some(
                RpcRequest { endpoint: Endpoint::Target, call: RpcCall::GetHighestSnapshotSlot },
            ),
            Stage::IdentityBalance => Some(
                RpcRequest {
                    endpoint: Endpoint::Target,
                    call: RpcCall::GetBalance {
                        address: cfg.identity.node_pubkey,
                        commitment: cfg.rpc.commitment,
                    },
                },
            ),
            Stage::VoteAccounts => match cfg.identity.vote_pubkey {
                Some(v) => Some(
                    RpcRequest {
                        endpoint: Endpoint::Target,
                        call: RpcCall::GetVoteAccounts {
                            vote_pubkey: v,
                            commitment: cfg.rpc.commitment,
                        },
                    },
                ),
                None => None,
            },
            Stage::BlockProduction => Some(
                RpcRequest {
                    endpoint: Endpoint::Target,
                    call: RpcCall::GetBlockProduction { commitment: cfg.rpc.commitment },
                },
            ),
            Stage::VoteBalance => match self.vote {
                Some(v) => Some(
                    RpcRequest {
                        endpoint: Endpoint::Target,
                        call: RpcCall::GetBalance {
                            address: v.0.vote_pubkey,
                            commitment: cfg.rpc.commitment,
                        },
                    },
                ),
                None => None,
            },
            Stage::Finished => None,
        }
    }

    /// A collection that has not made any request yet.
    pub fn new() -> (r: Collection)
        ensures
            r.stage == Stage::Version,
            r.failure is None,
            r.version@ == Seq::<char>::empty(),
            r.health_ok == false,
            r.epoch_info == (EpochInfo { block_height: 0, epoch: 0, slot_index: 0, slots_in_epoch: 0 }),
            r.local_slot == 0,
            r.reference_slot == 0,
            r.max_shred_insert_slot == 0,
            r.snapshot_slots == (SnapshotSlots { full: 0, incremental: 0 }),
            r.identity_balance == 0,
            r.vote is None,
            r.production@ == Seq::<ProductionEntry>::empty(),
            r.vote_balance == 0,
            forall|cfg: Config| r.well_formed(cfg),
    {
        Collection {
            stage: Stage::Version,
            failure: None,
            version: String::new(),
            health_ok: false,
            epoch_info: EpochInfo { block_height: 0, epoch: 0, slot_index: 0, slots_in_epoch: 0 },
            local_slot: 0,
            reference_slot: 0,
            max_shred_insert_slot: 0,
            snapshot_slots: SnapshotSlots { full: 0, incremental: 0 },
            identity_balance: 0,
            vote: None,
            production: Vec::new(),
            vote_balance: 0,
        }
    }

    /// The request to perform next; `None` once the collection is finished.
    pub fn next_request(&self, cfg: &Config) -> (r: Option<RpcRequest>)
        requires
            self.well_formed(*cfg),
        ensures
            r == self.request_at(*cfg),
            r is None <==> self.stage == Stage::Finished,
            // the balances asked for: the node's identity, then the reported vote account
            self.stage == Stage::IdentityBalance ==> r == Some(
                RpcRequest {
                    endpoint: Endpoint::Target,
                    call: RpcCall::GetBalance {
                        address: cfg.identity.node_pubkey,
                        commitment: cfg.rpc.commitment,
                    },
                },
            ),
            self.stage == Stage::VoteBalance ==> r == Some(
                RpcRequest {
                    endpoint: Endpoint::Target,
                    call: RpcCall::GetBalance {
                        address: self.vote.unwrap().0.vote_pubkey,
                        commitment: cfg.rpc.commitment,
                    },
                },
            ),
            self.stage == Stage::VoteAccounts ==> r == Some(
                RpcRequest {
                    endpoint: Endpoint::Target,
                    call: RpcCall::GetVoteAccounts {
                        vote_pubkey: cfg.identity.vote_pubkey->0,
                        commitment: cfg.rpc.commitment,
                    },
                },
            ),
    {
        let commitment = &cfg.rpc.commitment;
        match self.stage {
            Stage::Version => Some(RpcRequest { endpoint: Endpoint::Target, call: RpcCall::GetVersion }),
            Stage::Health => Some(RpcRequest { endpoint: Endpoint::Target, call: RpcCall::GetHealth }),
            Stage::EpochInfo => Some(
                RpcRequest {
                    endpoint: Endpoint::Target,
                    call: RpcCall::GetEpochInfo { commitment: commitment.clone() },
                },
            ),
            Stage::LocalSlot => Some(
                RpcRequest {
                    endpoint: Endpoint::Target,
                    call: RpcCall::GetSlot { commitment: commitment.clone() },
                },
            ),
            Stage::ReferenceSlot => Some(
                RpcRequest {
                    endpoint: Endpoint::Reference,
                    call: RpcCall::GetSlot { commitment: commitment.clone() },
                },
            ),
            Stage::MaxShredInsertSlot => Some(
                RpcRequest { endpoint: Endpoint::Target, call: RpcCall::GetMaxShredInsertSlot },
            ),
            Stage::HighestSnapshotSlot => Some(
                RpcRequest { endpoint: Endpoint::Target, call: RpcCall::GetHighestSnapshotSlot },
            ),
            Stage::IdentityBalance => Some(
                RpcRequest {
                    endpoint: Endpoint::Target,
                    call: RpcCall::GetBalance {
                        address: cfg.identity.node_pubkey.clone(),
                        commitment: commitment.clone(),
                    },
                },
            ),
            Stage::VoteAccounts => match &cfg.identity.vote_pubkey {
                Some(v) => Some(
                    RpcRequest {
                        endpoint: Endpoint::Target,
                        call: RpcCall::GetVoteAccounts {
                            vote_pubkey: v.clone(),
                            commitment: commitment.clone(),
                        },
                    },
                ),
                None => None,
            },
            Stage::BlockProduction => Some(
                RpcRequest {
                    endpoint: Endpoint::Target,
                    call: RpcCall::GetBlockProduction { commitment: commitment.clone() },
                },
            ),
            Stage::VoteBalance => match &self.vote {
                Some(v) => Some(
                    RpcRequest {
                        endpoint: Endpoint::Target,
                        call: RpcCall::GetBalance {
                            address: v.0.vote_pubkey.clone(),
                            commitment: commitment.clone(),
                        },
                    },
                ),
                None => None,
            },
            Stage::Finished => None,
        }
    }

    /// Moves on to the stage after `self.stage`; entering the vote-account
    /// stage without a configured vote account fails the collection.
    fn advance(&mut self, cfg: &Config)
        requires
            old(self).failure is None,
            old(self).stage != Stage::Finished,
        ensures
            final(self).version == old(self).version,
            final(self).health_ok == old(self).health_ok,
            final(self).epoch_info == old(self).epoch_info,
            final(self).local_slot == old(self).local_slot,
            final(self).reference_slot == old(self).reference_slot,
            final(self).max_shred_insert_slot == old(self).max_shred_insert_slot,
            final(self).snapshot_slots == old(self).snapshot_slots,
            final(self).identity_balance == old(self).identity_balance,
            final(self).vote == old(self).vote,
            final(self).production == old(self).production,
            final(self).vote_balance == old(self).vote_balance,
            (following(*cfg, old(self).stage) == Stage::VoteAccounts
                && cfg.identity.vote_pubkey is None) ==> {
                &&& final(self).stage == Stage::Finished
                &&& final(self).failure == Some(CollectError::VotePubkeyMissing)
            },
            !(following(*cfg, old(self).stage) == Stage::VoteAccounts
                && cfg.identity.vote_pubkey is None) ==> {
                &&& final(self).stage == following(*cfg, old(self).stage)
                &&& final(self).failure is None
            },
    {
        let after_identity = match cfg.mode {
            Mode::Validator => Stage::VoteAccounts,
            Mode::Rpc => Stage::Finished,
        };
        let next = match self.stage {
            Stage::Version => Stage::Health,
            Stage::Health => Stage::EpochInfo,
            Stage::EpochInfo => Stage::LocalSlot,
            Stage::LocalSlot => Stage::ReferenceSlot,
            Stage::ReferenceSlot => Stage::MaxShredInsertSlot,
            Stage::MaxShredInsertSlot => Stage::HighestSnapshotSlot,
            Stage::HighestSnapshotSlot => if cfg.features.enable_balance_metrics {
                Stage::IdentityBalance
            } else {
                after_identity
            },
            Stage::IdentityBalance => after_identity,
            Stage::VoteAccounts => if cfg.features.enable_skip_rate {
                Stage::BlockProduction
            } else if cfg.features.enable_balance_metrics {
                Stage::VoteBalance
            } else {
                Stage::Finished
            },
            Stage::BlockProduction => if cfg.features.enable_balance_metrics {
                Stage::VoteBalance
            } else {
                Stage::Finished
            },
            Stage::VoteBalance => Stage::Finished,
            Stage::Finished => Stage::Finished,
        };
        if next == Stage::VoteAccounts && cfg.identity.vote_pubkey.is_none() {
            self.stage = Stage::Finished;
            self.failure = Some(CollectError::VotePubkeyMissing);
        } else {
            self.stage = next;
        }
    }

    /// Takes in the reply to the current request (`None` when the request
    /// failed). A failed or unfitting reply fails the collection at a
    /// required stage and falls back to a default at the others: the local
    /// slot for the highest shred-insert slot, zeros for the snapshot slots
    /// and balances. A vote-account reply with no account fails the
    /// collection. Otherwise the collection moves on to the following stage.
    pub fn absorb(&mut self, cfg: &Config, reply: Option<RpcReply>)
        requires
            old(self).well_formed(*cfg),
            old(self).failure is None,
            old(self).stage != Stage::Finished,
            reply matches Some(RpcReply::BlockProduction(p)) ==> distinct_identities(p@),
        ensures
            final(self).well_formed(*cfg),
            rank(final(self).stage) > rank(old(self).stage),
            // a failed request at a required stage ends the collection
            (required(old(self).stage) && !(reply matches Some(x) && fits(old(self).stage, x)))
                ==> {
                &&& final(self).stage == Stage::Finished
                &&& final(self).failure == Some(CollectError::RequestFailed(old(self).stage))
            },
            // the vote-account reply must name an account
            old(self).stage == Stage::VoteAccounts ==> (reply matches Some(
                RpcReply::VoteAccounts { current, delinquent },
            ) ==> {
                &&& final(self).vote == chosen_vote_account(current@, delinquent@)
                &&& final(self).vote is None ==> final(self).stage == Stage::Finished
                    && final(self).failure == Some(CollectError::VoteAccountNotFound)
            }),
            // entering the vote-account stage needs a configured vote account
            ((!required(old(self).stage) || (reply matches Some(x) && fits(old(self).stage, x)))
                && !(old(self).stage == Stage::VoteAccounts && final(self).vote is None)
                && following(*cfg, old(self).stage) == Stage::VoteAccounts
                && cfg.identity.vote_pubkey is None) ==> {
                &&& final(self).stage == Stage::Finished
                &&& final(self).failure == Some(CollectError::VotePubkeyMissing)
            },
            // otherwise the collection goes on to the following stage
            ((!required(old(self).stage) || (reply matches Some(x) && fits(old(self).stage, x)))
                && !(old(self).stage == Stage::VoteAccounts && final(self).vote is None)
                && !(following(*cfg, old(self).stage) == Stage::VoteAccounts
                && cfg.identity.vote_pubkey is None)) ==> {
                &&& final(self).stage == following(*cfg, old(self).stage)
                &&& final(self).failure is None
            },
            // what each reply contributes
            old(self).stage == Stage::Version ==> (reply matches Some(RpcReply::Version { solana_core })
                ==> final(self).version == solana_core),
            old(self).stage == Stage::Health ==> (reply matches Some(RpcReply::Health { healthy })
                ==> final(self).health_ok == healthy),
            old(self).stage == Stage::EpochInfo ==> (reply matches Some(RpcReply::EpochInfo(e))
                ==> final(self).epoch_info == e),
            old(self).stage == Stage::LocalSlot ==> (reply matches Some(RpcReply::Slot(v))
                ==> final(self).local_slot == v),
            old(self).stage == Stage::ReferenceSlot ==> (reply matches Some(RpcReply::Slot(v))
                ==> final(self).reference_slot == v),
            old(self).stage == Stage::MaxShredInsertSlot ==> final(self).max_shred_insert_slot == (
            match reply {
                Some(RpcReply::Slot(v)) => v,
                _ => old(self).local_slot,
            }),
            old(self).stage == Stage::HighestSnapshotSlot ==> final(self).snapshot_slots == (
            match reply {
                Some(RpcReply::SnapshotSlots(v)) => v,
                _ => SnapshotSlots { full: 0, incremental: 0 },
            }),
            old(self).stage == Stage::IdentityBalance ==> final(self).identity_balance == (
            match reply {
                Some(RpcReply::Balance(v)) => v,
                _ => 0,
            }),
            old(self).stage == Stage::BlockProduction ==> (reply matches Some(
                RpcReply::BlockProduction(p),
            ) ==> final(self).production == p),
            old(self).stage == Stage::VoteBalance ==> final(self).vote_balance == (
            match reply {
                Some(RpcReply::Balance(v)) => v,
                _ => 0,
            }),
            // and leaves the rest as it was
            old(self).stage != Stage::Version ==> final(self).version == old(self).version,
            old(self).stage != Stage::Health ==> final(self).health_ok == old(self).health_ok,
            old(self).stage != Stage::EpochInfo ==> final(self).epoch_info == old(self).epoch_info,
            old(self).stage != Stage::LocalSlot ==> final(self).local_slot == old(self).local_slot,
            old(self).stage != Stage::ReferenceSlot ==> final(self).reference_slot == old(
                self,
            ).reference_slot,
            old(self).stage != Stage::MaxShredInsertSlot ==> final(self).max_shred_insert_slot
                == old(self).max_shred_insert_slot,
            old(self).stage != Stage::HighestSnapshotSlot ==> final(self).snapshot_slots == old(
                self,
            ).snapshot_slots,
            old(self).stage != Stage::IdentityBalance ==> final(self).identity_balance == old(
                self,
            ).identity_balance,
            old(self).stage != Stage::VoteAccounts ==> final(self).vote == old(self).vote,
            old(self).stage != Stage::BlockProduction ==> final(self).production == old(
                self,
            ).production,
            old(self).stage != Stage::VoteBalance ==> final(self).vote_balance == old(
                self,
            ).vote_balance,            // the order of the requests, stated from the configuration
            (old(self).stage == Stage::Version && reply matches Some(RpcReply::Version { .. }))
                ==> final(self).stage == Stage::Health && final(self).failure is None,
            (old(self).stage == Stage::Health && reply matches Some(RpcReply::Health { .. }))
                ==> final(self).stage == Stage::EpochInfo && final(self).failure is None,
            (old(self).stage == Stage::EpochInfo && reply matches Some(RpcReply::EpochInfo(_)))
                ==> final(self).stage == Stage::LocalSlot && final(self).failure is None,
            (old(self).stage == Stage::LocalSlot && reply matches Some(RpcReply::Slot(_)))
                ==> final(self).stage == Stage::ReferenceSlot && final(self).failure is None,
            (old(self).stage == Stage::ReferenceSlot && reply matches Some(RpcReply::Slot(_)))
                ==> final(self).stage == Stage::MaxShredInsertSlot && final(self).failure is None,
            old(self).stage == Stage::MaxShredInsertSlot ==> final(self).stage
                == Stage::HighestSnapshotSlot && final(self).failure is None,
            (old(self).stage == Stage::HighestSnapshotSlot && cfg.features.enable_balance_metrics)
                ==> final(self).stage == Stage::IdentityBalance && final(self).failure is None,
            // after the identity balance (or the snapshot slots, without balances): done for
            // an RPC node, the vote accounts for a validator with a vote account configured
            ((old(self).stage == Stage::HighestSnapshotSlot && !cfg.features.enable_balance_metrics)
                || old(self).stage == Stage::IdentityBalance) ==> {
                &&& cfg.mode == Mode::Rpc ==> final(self).stage == Stage::Finished
                    && final(self).failure is None
                &&& (cfg.mode == Mode::Validator && cfg.identity.vote_pubkey is Some)
                    ==> final(self).stage == Stage::VoteAccounts && final(self).failure is None
                &&& (cfg.mode == Mode::Validator && cfg.identity.vote_pubkey is None)
                    ==> final(self).stage == Stage::Finished && final(self).failure == Some(
                    CollectError::VotePubkeyMissing,
                )
            },
            // the vote account reported: the first current one, else the first delinquent
            // one, flagged delinquent when the delinquent list is not empty
            old(self).stage == Stage::VoteAccounts ==> (reply matches Some(
                RpcReply::VoteAccounts { current, delinquent },
            ) ==> {
                &&& (final(self).vote is Some <==> (current@.len() > 0 || delinquent@.len() > 0))
                &&& final(self).vote matches Some(p) ==> {
                    &&& p.1 == (delinquent@.len() > 0)
                    &&& p.0 == (if current@.len() > 0 {
                        current@[0]
                    } else {
                        delinquent@[0]
                    })
                }
                // then the block production when skip rates are on, else the vote
                // balance when balances are on, else done
                &&& (final(self).vote is Some && cfg.features.enable_skip_rate) ==> final(self).stage == Stage::BlockProduction && final(self).failure is None
                &&& (final(self).vote is Some && !cfg.features.enable_skip_rate
                    && cfg.features.enable_balance_metrics) ==> final(self).stage
                    == Stage::VoteBalance && final(self).failure is None
                &&& (final(self).vote is Some && !cfg.features.enable_skip_rate
                    && !cfg.features.enable_balance_metrics) ==> final(self).stage
                    == Stage::Finished && final(self).failure is None
            }),
            (old(self).stage == Stage::BlockProduction && reply matches Some(
                RpcReply::BlockProduction(_),
            )) ==> {
                &&& cfg.features.enable_balance_metrics ==> final(self).stage == Stage::VoteBalance
                &&& !cfg.features.enable_balance_metrics ==> final(self).stage == Stage::Finished
                &&& final(self).failure is None
            },
            old(self).stage == Stage::VoteBalance ==> final(self).stage == Stage::Finished
                && final(self).failure is None,
    {
        let stage = self.stage;
        let fail = stage == Stage::Version || stage == Stage::Health || stage == Stage::EpochInfo
            || stage == Stage::LocalSlot || stage == Stage::ReferenceSlot || stage
            == Stage::VoteAccounts || stage == Stage::BlockProduction;
        match (stage, reply) {
            (Stage::Version, Some(RpcReply::Version { solana_core })) => {
                self.version = solana_core;
            },
            (Stage::Health, Some(RpcReply::Health { healthy })) => {
                self.health_ok = healthy;
            },
            (Stage::EpochInfo, Some(RpcReply::EpochInfo(e))) => {
                self.epoch_info = e;
            },
            (Stage::LocalSlot, Some(RpcReply::Slot(v))) => {
                self.local_slot = v;
            },
            (Stage::ReferenceSlot, Some(RpcReply::Slot(v))) => {
                self.reference_slot = v;
            },
            (Stage::MaxShredInsertSlot, Some(RpcReply::Slot(v))) => {
                self.max_shred_insert_slot = v;
            },
            (Stage::MaxShredInsertSlot, _) => {
                self.max_shred_insert_slot = self.local_slot;
            },
            (Stage::HighestSnapshotSlot, Some(RpcReply::SnapshotSlots(v))) => {
                self.snapshot_slots = v;
            },
            (Stage::HighestSnapshotSlot, _) => {
                self.snapshot_slots = SnapshotSlots { full: 0, incremental: 0 };
            },
            (Stage::IdentityBalance, Some(RpcReply::Balance(v))) => {
                self.identity_balance = v;
            },
            (Stage::IdentityBalance, _) => {
                self.identity_balance = 0;
            },
            (Stage::VoteAccounts, Some(RpcReply::VoteAccounts { current, delinquent })) => {
                self.vote = select_vote_account(current, delinquent);
                if self.vote.is_none() {
                    self.stage = Stage::Finished;
                    self.failure = Some(CollectError::VoteAccountNotFound);
                    return ;
                }
            },
            (Stage::BlockProduction, Some(RpcReply::BlockProduction(p))) => {
                self.production = p;
            },
            (Stage::VoteBalance, Some(RpcReply::Balance(v))) => {
                self.vote_balance = v;
            },
            (Stage::VoteBalance, _) => {
                self.vote_balance = 0;
            },
            (_, _) => {
                if fail {
                    self.stage = Stage::Finished;
                    self.failure = Some(CollectError::RequestFailed(stage));
                    return ;
                }
            },
        }
        self.advance(cfg);
    }

    /// What the finished collection observed. `None` for a failed one.
    pub fn into_observations(self) -> (r: Result<Observations, CollectError>)
        requires
            self.stage == Stage::Finished,
        ensures
            r matches Ok(obs) ==> (obs.validator matches Some(v) ==> v.production == self.production),
            self.failure matches Some(e) ==> r == Err::<Observations, CollectError>(e),
            self.failure is None ==> (r matches Ok(obs) && obs == self.observed()),
            // a validator's observations carry the account and the delinquency flag that
            // the vote-account reply gave
            r matches Ok(obs) ==> {
                &&& (obs.validator is Some <==> self.vote is Some)
                &&& obs.validator matches Some(v) ==> {
                    &&& v.vote == self.vote.unwrap().0
                    &&& v.delinquent == self.vote.unwrap().1
                    &&& v.vote_balance == self.vote_balance
                }
                &&& obs.identity_balance == self.identity_balance
                &&& obs.health_ok == self.health_ok
                &&& obs.local_slot == self.local_slot
                &&& obs.reference_slot == self.reference_slot
            },
    {
        if let Some(e) = self.failure {
            return Err(e);
        }
        let validator = match self.vote {
            Some((vote, delinquent)) => Some(
                ValidatorObservations {
                    vote,
                    delinquent,
                    production: self.production,
                    vote_balance: self.vote_balance,
                },
            ),
            None => None,
        };
        Ok(
            Observations {
                version: self.version,
                health_ok: self.health_ok,
                epoch_info: self.epoch_info,
                local_slot: self.local_slot,
                reference_slot: self.reference_slot,
                max_shred_insert_slot: self.max_shred_insert_slot,
                snapshot_slots: self.snapshot_slots,
                identity_balance: self.identity_balance,
                validator,
            },
        )
    }

    /// The observations that the collection gathered.
    pub open spec fn observed(self) -> Observations {
        Observations {
            version: self.version,
            health_ok: self.health_ok,
            epoch_info: self.epoch_info,
            local_slot: self.local_slot,
            reference_slot: self.reference_slot,
            max_shred_insert_slot: self.max_shred_insert_slot,
            snapshot_slots: self.snapshot_slots,
            identity_balance: self.identity_balance,
            validator: match self.vote {
                Some(v) => Some(
                    ValidatorObservations {
                        vote: v.0,
                        delinquent: v.1,
                        production: self.production,
                        vote_balance: self.vote_balance,
                    },
                ),
                None => None,
            },
        }
    }
}

/// In validator mode, the vote accounts are followed by the block
/// production when skip rates are on, and the vote balance is asked for after
/// them whenever balances are on, whatever the skip-rate setting.
pub proof fn lemma_validator_requests(cfg: Config)
    ensures
        following(cfg, Stage::VoteAccounts) == (if cfg.features.enable_skip_rate {
            Stage::BlockProduction
        } else if cfg.features.enable_balance_metrics {
            Stage::VoteBalance
        } else {
            Stage::Finished
        }),
        following(cfg, Stage::BlockProduction) == (if cfg.features.enable_balance_metrics {
            Stage::VoteBalance
        } else {
            Stage::Finished
        }),
        following(cfg, Stage::VoteBalance) == Stage::Finished,
        cfg.mode == Mode::Validator ==> following(cfg, Stage::IdentityBalance)
            == Stage::VoteAccounts,
        cfg.mode == Mode::Rpc ==> following(cfg, Stage::IdentityBalance) == Stage::Finished,
{
}

/// A finished collection's observations carry the reported vote account and
/// its delinquency flag as the collection holds them.
pub proof fn lemma_observed_vote(c: Collection)
    ensures
        c.observed().validator is Some <==> c.vote is Some,
        c.observed().validator matches Some(v) ==> v.vote == c.vote.unwrap().0
            && v.delinquent == c.vote.unwrap().1,
{
}

} // verus!
