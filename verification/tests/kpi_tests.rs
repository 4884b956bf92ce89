use solana_kpi::kpi::{
    confirmed_blocks_total, credits_earned, has_distinct_identities, health_verdict, production_for,
    select_vote_account,
    skip_rate, slot_lag, voting_effectiveness, ProductionEntry, VoteAccount,
};

fn account(vote_pubkey: &str, last_vote: u64) -> VoteAccount {
    VoteAccount {
        activated_stake: 1_000_000_000,
        commission: 5,
        epoch_credits: vec![],
        last_vote,
        node_pubkey: "node".to_string(),
        root_slot: 0,
        vote_pubkey: vote_pubkey.to_string(),
    }
}

fn entry(identity: &str, leader_slots: u64, produced_blocks: u64) -> ProductionEntry {
    ProductionEntry { identity: identity.to_string(), leader_slots, produced_blocks }
}

#[test]
fn slot_lag_saturates() {
    assert_eq!(slot_lag(105, 100), 5);
    assert_eq!(slot_lag(100, 105), 0);
    assert_eq!(slot_lag(0, u64::MAX), 0);
}

#[test]
fn current_account_is_preferred() {
    let (v, delinquent) = select_vote_account(vec![account("cur", 1), account("cur2", 2)], vec![]).unwrap();
    assert_eq!(v.vote_pubkey, "cur");
    assert!(!delinquent);
}

#[test]
fn delinquent_flag_follows_the_delinquent_list() {
    // a current account is reported, yet the delinquent list is not empty
    let (v, delinquent) = select_vote_account(vec![account("cur", 1)], vec![account("del", 2)]).unwrap();
    assert_eq!(v.vote_pubkey, "cur");
    assert!(delinquent);
    let (v, delinquent) = select_vote_account(vec![], vec![account("del", 2)]).unwrap();
    assert_eq!(v.vote_pubkey, "del");
    assert!(delinquent);
}

#[test]
fn no_vote_account_found() {
    assert!(select_vote_account(vec![], vec![]).is_none());
}

#[test]
fn production_of_the_node() {
    let entries = vec![entry("a", 10, 9), entry("node", 40, 38), entry("b", 5, 5)];
    assert_eq!(production_for(&entries, &"node".to_string()), (40, 38));
    assert_eq!(production_for(&entries, &"zzz".to_string()), (0, 0));
    assert_eq!(production_for(&vec![], &"node".to_string()), (0, 0));
}

#[test]
fn cluster_blocks_add_up() {
    let entries = vec![entry("a", 10, 9), entry("node", 40, 38), entry("b", 5, 5)];
    assert_eq!(confirmed_blocks_total(&entries), Some(52));
    assert_eq!(confirmed_blocks_total(&vec![]), Some(0));
    let big = vec![entry("a", 0, u64::MAX), entry("b", 0, 1)];
    assert_eq!(confirmed_blocks_total(&big), None);
    let edge = vec![entry("a", 0, u64::MAX - 1), entry("b", 0, 1)];
    assert_eq!(confirmed_blocks_total(&edge), Some(u64::MAX));
}

#[test]
fn credits_of_the_current_epoch() {
    let credits = vec![(10, 1000, 800), (11, 1500, 1000), (11, 9999, 0)];
    assert_eq!(credits_earned(&credits, 11), 500);
    assert_eq!(credits_earned(&credits, 10), 200);
    assert_eq!(credits_earned(&credits, 12), 0);
    assert_eq!(credits_earned(&vec![(5, 10, 20)], 5), 0);
}

#[test]
fn skip_rate_and_effectiveness_fractions() {
    let s = skip_rate(40, 38);
    assert_eq!((s.num, s.den), (2, 40));
    let s = skip_rate(10, 12);
    assert_eq!((s.num, s.den), (0, 10));
    let v = voting_effectiveness(800, 52);
    assert_eq!((v.num, v.den), (800, 832));
    let v = voting_effectiveness(7, u64::MAX);
    assert_eq!(v.den, (u64::MAX as u128) * 16);
}

#[test]
fn health_reply_verdict() {
    assert!(health_verdict(&Some("ok".to_string()), false));
    assert!(!health_verdict(&Some("ok".to_string()), true));
    assert!(!health_verdict(&Some("behind".to_string()), false));
    assert!(!health_verdict(&Some("OK".to_string()), false));
    assert!(!health_verdict(&Some("ok ".to_string()), false));
    assert!(!health_verdict(&None, false));
}

#[test]
fn repeated_identity_is_detected() {
    assert!(has_distinct_identities(&vec![]));
    assert!(has_distinct_identities(&vec![entry("a", 1, 1), entry("b", 2, 2), entry("c", 3, 3)]));
    assert!(!has_distinct_identities(&vec![entry("a", 1, 1), entry("b", 2, 2), entry("a", 3, 3)]));
    assert!(!has_distinct_identities(&vec![entry("x", 0, 0), entry("x", 0, 0)]));
}
