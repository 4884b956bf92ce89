use solana_kpi::uptime::{Timestamp, UptimeHistory, UptimeSample, MAX_CLOCK_SECS, MIN_CLOCK_SECS};

fn at(secs: i64) -> Timestamp {
    Timestamp { secs, nanos: 0 }
}

#[test]
fn window_start_is_hours_before_now() {
    let mut h = UptimeHistory::new();
    let cutoff = h.push_sample(Timestamp { secs: 1_700_000_000, nanos: 250 }, true, 24).unwrap();
    assert_eq!(cutoff, Timestamp { secs: 1_700_000_000 - 24 * 3600, nanos: 250 });
    let cutoff = h.push_sample(at(1_700_000_000), true, -2).unwrap();
    assert_eq!(cutoff, at(1_700_000_000 + 7200));
}

#[test]
fn old_samples_leave_the_window() {
    let mut h = UptimeHistory { samples: vec![] };
    h.push_sample(at(0), true, 1).unwrap();
    h.push_sample(at(1800), false, 1).unwrap();
    h.push_sample(at(3600), true, 1).unwrap();
    assert_eq!(h.samples.len(), 3);
    h.push_sample(at(3601), true, 1).unwrap();
    assert_eq!(
        h.samples,
        vec![
            UptimeSample { ts: at(1800), up: false },
            UptimeSample { ts: at(3600), up: true },
            UptimeSample { ts: at(3601), up: true },
        ]
    );
}

#[test]
fn sample_exactly_at_the_window_start_stays() {
    let mut h = UptimeHistory { samples: vec![UptimeSample { ts: Timestamp { secs: 0, nanos: 5 }, up: false }] };
    h.push_sample(Timestamp { secs: 3600, nanos: 5 }, true, 1).unwrap();
    assert_eq!(h.samples.len(), 2);
    let mut h = UptimeHistory { samples: vec![UptimeSample { ts: Timestamp { secs: 0, nanos: 4 }, up: false }] };
    h.push_sample(Timestamp { secs: 3600, nanos: 5 }, true, 1).unwrap();
    assert_eq!(h.samples.len(), 1);
}

#[test]
fn negative_window_drops_everything() {
    let mut h = UptimeHistory::new();
    h.push_sample(at(100), true, -1).unwrap();
    assert!(h.samples.is_empty());
    let r = h.uptime_ratio();
    assert_eq!((r.num, r.den), (0, 0));
}

#[test]
fn ratio_counts_up_samples() {
    let mut h = UptimeHistory::new();
    for (i, up) in [true, true, false, true].iter().enumerate() {
        h.push_sample(at(i as i64), *up, 24).unwrap();
    }
    let r = h.uptime_ratio();
    assert_eq!((r.num, r.den), (3, 4));
}

#[test]
fn window_out_of_range_leaves_history() {
    let mut h = UptimeHistory::new();
    h.push_sample(at(10), true, 24).unwrap();
    assert!(h.push_sample(at(20), false, i64::MAX).is_err());
    assert_eq!(h.samples, vec![UptimeSample { ts: at(10), up: true }]);
    assert!(h.push_sample(Timestamp { secs: i64::MAX, nanos: 0 }, false, 1).is_err());
    assert_eq!(h.samples.len(), 1);
}

#[test]
fn clock_range_edges() {
    let mut h = UptimeHistory::new();
    assert_eq!(h.push_sample(at(MAX_CLOCK_SECS), true, 0), Ok(at(MAX_CLOCK_SECS)));
    assert!(h.push_sample(at(MAX_CLOCK_SECS + 1), true, 0).is_err());
    let mut h = UptimeHistory::new();
    assert_eq!(h.push_sample(at(MIN_CLOCK_SECS), true, 0), Ok(at(MIN_CLOCK_SECS)));
    assert_eq!(h.samples.len(), 1);
    assert!(h.push_sample(at(MIN_CLOCK_SECS - 1), true, 0).is_err());
    assert!(h.push_sample(at(MIN_CLOCK_SECS), true, 1).is_err());
    assert_eq!(h.samples.len(), 1);
}

#[test]
fn widest_window_within_the_clock_range() {
    let hours = (MAX_CLOCK_SECS - MIN_CLOCK_SECS) / 3600;
    let mut h = UptimeHistory::new();
    let cutoff = h.push_sample(at(MAX_CLOCK_SECS), true, hours).unwrap();
    assert_eq!(cutoff, at(MAX_CLOCK_SECS - hours * 3600));
    assert_eq!(h.samples.len(), 1);
    assert!(h.push_sample(at(MAX_CLOCK_SECS), true, hours + 1).is_err());
    assert!(h.push_sample(at(0), true, i64::MAX).is_err());
    assert!(h.push_sample(at(0), true, i64::MIN).is_err());
    assert_eq!(h.samples.len(), 1);
}

#[test]
fn leap_second_readings() {
    let leap = Timestamp { secs: 59, nanos: 1_500_000_000 };
    let mut h = UptimeHistory::new();
    assert_eq!(h.push_sample(leap, true, 1), Ok(Timestamp { secs: -3540, nanos: 500_000_000 }));
    assert_eq!(h.push_sample(leap, true, -1), Ok(Timestamp { secs: 3659, nanos: 500_000_000 }));
    let mut h = UptimeHistory::new();
    assert_eq!(h.push_sample(leap, true, 0), Ok(leap));
    assert_eq!(h.samples, vec![UptimeSample { ts: leap, up: true }]);
    let before_epoch = Timestamp { secs: -1, nanos: 1_200_000_000 };
    assert_eq!(h.push_sample(before_epoch, false, 0), Ok(before_epoch));
    assert!(h.push_sample(Timestamp { secs: 58, nanos: 1_500_000_000 }, true, 1).is_err());
    assert!(h.push_sample(Timestamp { secs: 59, nanos: 2_000_000_000 }, true, 1).is_err());
    assert!(h.push_sample(Timestamp { secs: 0, nanos: 1_000_000_000 }, true, 0).is_err());
}

#[test]
fn history_stays_in_time_order() {
    let mut h = UptimeHistory::new();
    for secs in [0i64, 100, 2000, 3500, 5000, 7300] {
        h.push_sample(at(secs), secs % 200 == 0, 1).unwrap();
        assert!(h.samples.windows(2).all(|w| (w[0].ts.secs, w[0].ts.nanos) <= (w[1].ts.secs, w[1].ts.nanos)));
        assert!(h.samples.iter().all(|s| s.ts.secs >= secs - 3600 && s.ts.secs <= secs));
        assert_eq!(h.samples.last(), Some(&UptimeSample { ts: at(secs), up: secs % 200 == 0 }));
    }
    assert_eq!(h.samples, vec![UptimeSample { ts: at(5000), up: true }, UptimeSample { ts: at(7300), up: false }]);
}

#[test]
fn wider_window_keeps_more() {
    let start = vec![
        UptimeSample { ts: at(0), up: true },
        UptimeSample { ts: at(4000), up: false },
        UptimeSample { ts: at(9000), up: true },
    ];
    let mut narrow = UptimeHistory { samples: start.clone() };
    let mut wide = UptimeHistory { samples: start };
    narrow.push_sample(at(10_000), true, 1).unwrap();
    wide.push_sample(at(10_000), true, 2).unwrap();
    assert_eq!(narrow.samples, vec![UptimeSample { ts: at(9000), up: true }, UptimeSample { ts: at(10_000), up: true }]);
    assert_eq!(
        wide.samples,
        vec![
            UptimeSample { ts: at(4000), up: false },
            UptimeSample { ts: at(9000), up: true },
            UptimeSample { ts: at(10_000), up: true },
        ]
    );
}

#[test]
fn ratio_ignores_order_and_times() {
    let a = UptimeHistory {
        samples: vec![
            UptimeSample { ts: at(1), up: true },
            UptimeSample { ts: at(2), up: false },
            UptimeSample { ts: at(3), up: true },
        ],
    };
    let b = UptimeHistory {
        samples: vec![
            UptimeSample { ts: at(30), up: false },
            UptimeSample { ts: at(10), up: true },
            UptimeSample { ts: at(20), up: true },
        ],
    };
    let (ra, rb) = (a.uptime_ratio(), b.uptime_ratio());
    assert_eq!((ra.num, ra.den), (rb.num, rb.den));
    assert_eq!((ra.num, ra.den), (2, 3));
}
