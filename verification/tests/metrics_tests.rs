use solana_kpi::config::{IdentityConfig, SloConfig};
use solana_kpi::metrics::{all_metrics, label_value, samples, LabelKind, MetricId, Reading};
use solana_kpi::snapshot::Snapshot;
use solana_kpi::target::SloTarget;

fn slo() -> SloConfig {
    let t = SloTarget::Finite { negative: false, mantissa: 99, exponent: 0 };
    SloConfig { uptime_target: t, voting_effectiveness_target: t, skip_rate_target: t }
}

#[test]
fn catalog_has_every_metric_once() {
    let all = all_metrics();
    assert_eq!(all.len(), 42);
    let mut names: Vec<&str> = all.iter().map(|m| m.name()).collect();
    names.sort();
    names.dedup();
    assert_eq!(names.len(), 42);
    assert!(names.iter().all(|n| n.starts_with("solana_")));
    assert_eq!(all[0].name(), "solana_rpc_health");
    assert_eq!(all[41].name(), "solana_kpi_last_success_timestamp_unix");
}

#[test]
fn success_metrics_are_exposed() {
    let names: Vec<&str> = all_metrics().iter().map(|m| m.name()).collect();
    assert!(names.contains(&"solana_kpi_scrape_success"));
    assert!(names.contains(&"solana_kpi_last_success_timestamp_unix"));
    assert_eq!(MetricId::ScrapeSuccess.help(), "1 if last scrape succeeded.");
    assert_eq!(MetricId::VersionInfo.help(), "Version info as a label; metric value always 1.");
}

#[test]
fn label_kinds_and_names() {
    assert_eq!(MetricId::UptimeRatio.label_kind(), LabelKind::Node);
    assert_eq!(MetricId::VotingEffectivenessPct.label_kind(), LabelKind::Vote);
    assert_eq!(MetricId::VersionInfo.label_kind(), LabelKind::Version);
    assert_eq!(MetricId::AbsoluteSlot.label_kind(), LabelKind::Empty);
    assert_eq!(LabelKind::Node.label_name(), Some("node_pubkey"));
    assert_eq!(LabelKind::Vote.label_name(), Some("vote_pubkey"));
    assert_eq!(LabelKind::Version.label_name(), Some("version"));
    assert_eq!(LabelKind::Empty.label_name(), None);
}

#[test]
fn default_label_values() {
    let id = IdentityConfig { node_pubkey: "N".to_string(), vote_pubkey: None };
    assert_eq!(label_value(LabelKind::Vote, &id, &String::new()), Some("none".to_string()));
    assert_eq!(label_value(LabelKind::Version, &id, &String::new()), Some("unknown".to_string()));
    assert_eq!(label_value(LabelKind::Version, &id, &"2.0.1".to_string()), Some("2.0.1".to_string()));
    assert_eq!(label_value(LabelKind::Node, &id, &String::new()), Some("N".to_string()));
    assert_eq!(label_value(LabelKind::Empty, &id, &String::new()), None);
    let id = IdentityConfig { node_pubkey: "N".to_string(), vote_pubkey: Some("V".to_string()) };
    assert_eq!(label_value(LabelKind::Vote, &id, &String::new()), Some("V".to_string()));
}

#[test]
fn samples_follow_the_catalog() {
    let id = IdentityConfig { node_pubkey: "N".to_string(), vote_pubkey: Some("V".to_string()) };
    let mut snap = Snapshot::empty(&slo());
    snap.figures.absolute_slot = 77;
    snap.figures.vote_balance_lamports = 5;
    snap.figures.scrape_success = true;
    let s = samples(&id, &snap);
    assert_eq!(s.len(), 42);
    for (sample, m) in s.iter().zip(all_metrics()) {
        assert_eq!(sample.metric, m);
    }
    let find = |m: MetricId| s.iter().find(|x| x.metric == m).unwrap();
    assert_eq!(find(MetricId::AbsoluteSlot).value, Reading::Count(77));
    assert_eq!(find(MetricId::AbsoluteSlot).label, None);
    assert_eq!(find(MetricId::VoteBalanceSol).value, Reading::Lamports(5));
    assert_eq!(find(MetricId::VoteBalanceSol).label, Some("V".to_string()));
    assert_eq!(find(MetricId::VersionInfo).value, Reading::Flag(true));
    assert_eq!(find(MetricId::VersionInfo).label, Some("unknown".to_string()));
    assert_eq!(find(MetricId::ScrapeSuccess).value, Reading::Flag(true));
    assert_eq!(find(MetricId::UptimeTarget).value, Reading::Target(SloTarget::Finite { negative: false, mantissa: 99, exponent: 0 }));
}
