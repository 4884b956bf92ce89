//! The cluster and validator figures that the exporter derives from RPC replies.
use vstd::prelude::*;
use crate::target::{Fraction, SloTarget, percent_at_most, pow10};

verus! {

/// What `getEpochInfo` reports.
#[derive(Clone, Copy, Debug, PartialEq, Eq, Structural)]
pub struct EpochInfo {
    pub block_height: u64,
    pub epoch: u64,
    pub slot_index: u64,
    pub slots_in_epoch: u64,
}

/// What `getHighestSnapshotSlot` reports.
#[derive(Clone, Copy, Debug, PartialEq, Eq, Structural)]
pub struct SnapshotSlots {
    pub full: u64,
    pub incremental: u64,
}

/// One entry of `getVoteAccounts`.
#[derive(Debug)]
pub struct VoteAccount {
    pub activated_stake: u64,
    pub commission: u64,
    /// `(epoch, credits, previous credits)` per epoch.
    pub epoch_credits: Vec<(u64, u64, u64)>,
    pub last_vote: u64,
    pub node_pubkey: String,
    pub root_slot: u64,
    pub vote_pubkey: String,
}

/// One identity of `getBlockProduction`'s `byIdentity` object:
/// `(leader slots, blocks produced)`.
#[derive(Debug)]
pub struct ProductionEntry {
    pub identity: String,
    pub leader_slots: u64,
    pub produced_blocks: u64,
}

/// `a - b`, or 0 when `b > a`.
pub open spec fn saturating_diff(a: u64, b: u64) -> u64 {
    if a >= b {
        (a - b) as u64
    } else {
        0
    }
}

/// How far `behind` lags `ahead`, in slots: `ahead - behind`, never below 0.
pub fn slot_lag(ahead: u64, behind: u64) -> (r: u64)
    ensures
        r == saturating_diff(ahead, behind),
{
    ahead.saturating_sub(behind)
}

/// The account that the exporter reports: the first current one, else the
/// first delinquent one; and whether the delinquent list is non-empty.
pub open spec fn chosen_vote_account(current: Seq<VoteAccount>, delinquent: Seq<VoteAccount>) -> Option<
    (VoteAccount, bool),
> {
    if current.len() > 0 {
        Some((current[0], delinquent.len() > 0))
    } else if delinquent.len() > 0 {
        Some((delinquent[0], true))
    } else {
        None
    }
}

/// Picks the vote account to report from a `getVoteAccounts` reply. The flag
/// is set when the reply lists any delinquent account, even where a current
/// one was picked. `None` when both lists are empty.
pub fn select_vote_account(current: Vec<VoteAccount>, delinquent: Vec<VoteAccount>) -> (r: Option<
    (VoteAccount, bool),
>)
    ensures
        r == chosen_vote_account(current@, delinquent@),
        r is Some <==> (current@.len() > 0 || delinquent@.len() > 0),
        r matches Some(p) ==> {
            &&& p.1 == (delinquent@.len() > 0)
            &&& p.0 == (if current@.len() > 0 {
                current@[0]
            } else {
                delinquent@[0]
            })
        },
{
    let mut current = current;
    let mut delinquent = delinquent;
    let is_delinquent = delinquent.len() > 0;
    if current.len() > 0 {
        let v = current.remove(0);
        Some((v, is_delinquent))
    } else if is_delinquent {
        let v = delinquent.remove(0);
        Some((v, true))
    } else {
        None
    }
}

/// `(leader slots, produced blocks)` of the first entry whose identity is
/// `identity`, or `(0, 0)` when there is none.
pub open spec fn production_of(entries: Seq<ProductionEntry>, identity: Seq<char>) -> (u64, u64)
    decreases entries.len(),
{
    if entries.len() == 0 {
        (0, 0)
    } else if entries[0].identity@ == identity {
        (entries[0].leader_slots, entries[0].produced_blocks)
    } else {
        production_of(entries.drop_first(), identity)
    }
}

/// No identity occurs twice, as in the JSON object that `byIdentity` is.
pub open spec fn distinct_identities(entries: Seq<ProductionEntry>) -> bool {
    forall|i: int, j: int|
        0 <= i < j < entries.len() ==> entries[i].identity@ != entries[j].identity@
}

/// Whether no identity occurs twice.
pub fn has_distinct_identities(entries: &Vec<ProductionEntry>) -> (r: bool)
    ensures
        r == distinct_identities(entries@),
{
    let n = entries.len();
    let mut b: usize = 0;
    while b < n
        invariant
            n == entries@.len(),
            b <= n,
            forall|i: int, j: int|
                0 <= i < j < b ==> entries@[i].identity@ != entries@[j].identity@,
        decreases n - b,
    {
        let mut a: usize = 0;
        while a < b
            invariant
                n == entries@.len(),
                a <= b < n,
                forall|i: int, j: int|
                    0 <= i < j < b ==> entries@[i].identity@ != entries@[j].identity@,
                forall|i: int| 0 <= i < a ==> entries@[i].identity@ != entries@[b as int].identity@,
            decreases b - a,
        {
            if entries[a].identity == entries[b].identity {
                return false;
            }
            a = a + 1;
        }
        b = b + 1;
    }
    true
}

/// Among distinct identities, the lookup finds the one entry of `identity`.
pub proof fn lemma_production_of_distinct(entries: Seq<ProductionEntry>, i: int)
    requires
        distinct_identities(entries),
        0 <= i < entries.len(),
    ensures
        production_of(entries, entries[i].identity@) == (
            entries[i].leader_slots,
            entries[i].produced_blocks,
        ),
    decreases i,
{
    if i > 0 {
        let rest = entries.drop_first();
        assert(rest[i - 1] == entries[i]);
        assert(entries[0].identity@ != entries[i].identity@);
        assert(distinct_identities(rest)) by {
            assert forall|a: int, b: int| 0 <= a < b < rest.len() implies rest[a].identity@
                != rest[b].identity@ by {
                assert(rest[a] == entries[a + 1] && rest[b] == entries[b + 1]);
            }
        }
        lemma_production_of_distinct(rest, i - 1);
    }
}

/// Looks up the block production of `identity`.
pub fn production_for(entries: &Vec<ProductionEntry>, identity: &String) -> (r: (u64, u64))
    ensures
        r == production_of(entries@, identity@),
{
    let n = entries.len();
    let mut k: usize = 0;
    assert(entries@.skip(0) =~= entries@);
    while k < n
        invariant
            n == entries@.len(),
            k <= n,
            production_of(entries@, identity@) == production_of(entries@.skip(k as int), identity@),
        decreases n - k,
    {
        proof {
            assert(entries@.skip(k as int).drop_first() =~= entries@.skip(k + 1));
        }
        if entries[k].identity == *identity {
            return (entries[k].leader_slots, entries[k].produced_blocks);
        }
        k = k + 1;
    }
    (0, 0)
}

/// Blocks produced by all identities together.
pub open spec fn produced_total(s: Seq<ProductionEntry>) -> nat
    decreases s.len(),
{
    if s.len() == 0 {
        0
    } else {
        produced_total(s.drop_last()) + s.last().produced_blocks as nat
    }
}

proof fn lemma_produced_total_prefix(s: Seq<ProductionEntry>, k: int)
    requires
        0 <= k <= s.len(),
    ensures
        produced_total(s.take(k)) <= produced_total(s),
    decreases s.len(),
{
    if k < s.len() {
        assert(s.drop_last().take(k) =~= s.take(k));
        lemma_produced_total_prefix(s.drop_last(), k);
    } else {
        assert(s.take(k) =~= s);
    }
}

/// Blocks the cluster confirmed in the epoch: the sum of all produced
/// blocks; `None` when the sum does not fit in `u64`.
pub fn confirmed_blocks_total(entries: &Vec<ProductionEntry>) -> (r: Option<u64>)
    ensures
        r is Some <==> produced_total(entries@) <= u64::MAX,
        r matches Some(v) ==> v == produced_total(entries@),
{
    let n = entries.len();
    let mut total: u64 = 0;
    let mut k: usize = 0;
    while k < n
        invariant
            n == entries@.len(),
            k <= n,
            total == produced_total(entries@.take(k as int)),
        decreases n - k,
    {
        proof {
            assert(entries@.take(k + 1).drop_last() =~= entries@.take(k as int));
        }
        match total.checked_add(entries[k].produced_blocks) {
            Some(t) => {
                total = t;
            },
            None => {
                proof {
                    lemma_produced_total_prefix(entries@, k + 1);
                }
                return None;
            },
        }
        k = k + 1;
    }
    assert(entries@.take(n as int) =~= entries@);
    Some(total)
}

/// Vote credits earned in `epoch`: for the first `(epoch, credits, previous)`
/// entry of that epoch, `credits - previous` (never below 0); 0 when the
/// epoch is not listed.
pub open spec fn credits_of(epoch_credits: Seq<(u64, u64, u64)>, epoch: u64) -> u64
    decreases epoch_credits.len(),
{
    if epoch_credits.len() == 0 {
        0
    } else if epoch_credits[0].0 == epoch {
        saturating_diff(epoch_credits[0].1, epoch_credits[0].2)
    } else {
        credits_of(epoch_credits.drop_first(), epoch)
    }
}

/// Reads the credits earned in `epoch` off a vote account's epoch credits.
pub fn credits_earned(epoch_credits: &Vec<(u64, u64, u64)>, epoch: u64) -> (r: u64)
    ensures
        r == credits_of(epoch_credits@, epoch),
{
    let n = epoch_credits.len();
    let mut k: usize = 0;
    assert(epoch_credits@.skip(0) =~= epoch_credits@);
    while k < n
        invariant
            n == epoch_credits@.len(),
            k <= n,
            credits_of(epoch_credits@, epoch) == credits_of(epoch_credits@.skip(k as int), epoch),
        decreases n - k,
    {
        proof {
            assert(epoch_credits@.skip(k as int).drop_first() =~= epoch_credits@.skip(k + 1));
        }
        let (e, credits, prev) = epoch_credits[k];
        if e == epoch {
            return credits.saturating_sub(prev);
        }
        k = k + 1;
    }
    0
}

/// Skip rate: skipped leader slots over leader slots, as a percentage.
pub fn skip_rate(leader_slots: u64, produced_blocks: u64) -> (r: Fraction)
    ensures
        r.num == saturating_diff(leader_slots, produced_blocks),
        r.den == leader_slots,
{
    Fraction { num: leader_slots.saturating_sub(produced_blocks), den: leader_slots as u128 }
}

/// The skip rate never exceeds 100 %: fewer slots are skipped than led.
pub proof fn lemma_skip_rate_at_most_all(leader_slots: u64, produced_blocks: u64)
    ensures
        percent_at_most(
            Fraction {
                num: saturating_diff(leader_slots, produced_blocks),
                den: leader_slots as u128,
            },
            SloTarget::Finite { negative: false, mantissa: 100, exponent: 0 },
        ),
{
    let num = saturating_diff(leader_slots, produced_blocks);
    let den = leader_slots as u128;
    assert(pow10(0) == 1);
    assert(crate::target::signed_mantissa(false, 100) == 100);
    assert(100 * num <= 100 * den * pow10(0)) by (nonlinear_arith)
        requires
            num <= den,
            pow10(0) == 1,
    ;
}

/// Voting effectiveness: credits earned over 16 credits per confirmed block
/// of the cluster, as a percentage.
pub fn voting_effectiveness(credits: u64, confirmed_blocks: u64) -> (r: Fraction)
    ensures
        r.num == credits,
        r.den == confirmed_blocks * 16,
{
    Fraction { num: credits, den: (confirmed_blocks as u128) * 16 }
}

/// A `getHealth` reply means healthy when its result is `"ok"` and it holds
/// no error.
pub open spec fn healthy(result: Option<Seq<char>>, has_error: bool) -> bool {
    result == Some(seq!['o', 'k']) && !has_error
}

/// Reads a `getHealth` reply: its `result` field, and whether it has an
/// `error` field.
pub fn health_verdict(result: &Option<String>, has_error: bool) -> (r: bool)
    ensures
        r == healthy(
            match result {
                Some(s) => Some(s@),
                None => None,
            },
            has_error,
        ),
{
    match result {
        None => false,
        Some(s) => {
            let text = s.as_str();
            let n = text.unicode_len();
            let ok = n == 2 && text.get_char(0) == 'o' && text.get_char(1) == 'k';
            proof {
                let t = seq!['o', 'k'];
                assert(t.len() == 2 && t[0] == 'o' && t[1] == 'k');
                if ok {
                    assert(s@ =~= t);
                }
            }
            ok && !has_error
        },
    }
}

/// The account reported is the first current one, else the first
/// delinquent one; it is flagged delinquent exactly when the reply lists any
/// delinquent account; and none is reported only when both lists are empty.
pub proof fn lemma_chosen_vote_account(current: Seq<VoteAccount>, delinquent: Seq<VoteAccount>)
    ensures
        chosen_vote_account(current, delinquent) is Some <==> (current.len() > 0
            || delinquent.len() > 0),
        chosen_vote_account(current, delinquent) matches Some(p) ==> {
            &&& p.1 == (delinquent.len() > 0)
            &&& p.0 == (if current.len() > 0 {
                current[0]
            } else {
                delinquent[0]
            })
        },
{
}

} // verus!
