use solana_kpi::target::{meets_maximum, meets_minimum, parse_target, Fraction, SloTarget};

fn finite(negative: bool, mantissa: u64, exponent: i128) -> SloTarget {
    SloTarget::Finite { negative, mantissa, exponent }
}

#[test]
fn parses_plain_decimals() {
    assert_eq!(parse_target("99.95"), Some(finite(false, 9995, -2)));
    assert_eq!(parse_target("99.8"), Some(finite(false, 998, -1)));
    assert_eq!(parse_target("5"), Some(finite(false, 5, 0)));
    assert_eq!(parse_target("0.05"), Some(finite(false, 5, -2)));
    assert_eq!(parse_target("-2.5"), Some(finite(true, 25, -1)));
    assert_eq!(parse_target("100"), Some(finite(false, 1, 2)));
    assert_eq!(parse_target("1.50"), Some(finite(false, 15, -1)));
    assert_eq!(parse_target("-0"), Some(finite(true, 0, 1)));
    assert_eq!(parse_target("0.0"), Some(finite(false, 0, 1)));
}

#[test]
fn parses_what_rust_writes_for_f64() {
    let values = [
        99.95f64,
        99.8,
        0.0,
        5.0,
        0.1 + 0.2,
        100.0,
        -1.5,
        1e-9,
        1e-18,
        1e300,
        -1e-300,
        123456789.123456789,
        f64::MAX,
        f64::MIN,
        f64::MIN_POSITIVE,
        f64::EPSILON,
        5e-324,
    ];
    for v in values {
        let text = format!("{}", v);
        let t = parse_target(&text).expect("parsable");
        match t {
            SloTarget::Finite { negative, mantissa, exponent } => {
                let back: f64 = format!("{}{}e{}", if negative { "-" } else { "" }, mantissa, exponent)
                    .parse()
                    .unwrap();
                assert_eq!(back, v, "{text}");
            }
            _ => panic!("finite expected"),
        }
    }
    assert_eq!(parse_target(&format!("{}", 1e-18f64)), Some(finite(false, 1, -18)));
    assert_eq!(parse_target(&format!("{}", 1e300f64)), Some(finite(false, 1, 300)));
    assert_eq!(parse_target(&format!("{}", 5e-324f64)), Some(finite(false, 5, -324)));
    assert_eq!(parse_target(&format!("{}", f64::MAX)), Some(finite(false, 17976931348623157, 292)));
    assert_eq!(parse_target(&format!("{}", f64::INFINITY)), Some(SloTarget::Infinite { negative: false }));
    assert_eq!(parse_target(&format!("{}", f64::NEG_INFINITY)), Some(SloTarget::Infinite { negative: true }));
    assert_eq!(parse_target(&format!("{}", f64::NAN)), Some(SloTarget::NotANumber));
}

#[test]
fn rejects_malformed_targets() {
    for text in ["", "-", "1.", ".5", "1e5", "+1", "1.2.3", "abc", "9 9", "１", "1,5", "-.5"] {
        assert_eq!(parse_target(text), None, "{text}");
    }
}

#[test]
fn significant_digits_must_fit() {
    assert_eq!(parse_target("18446744073709551615"), Some(finite(false, u64::MAX, 0)));
    assert_eq!(parse_target("184467440737095516150000"), Some(finite(false, u64::MAX, 4)));
    assert_eq!(parse_target("0.0000000000018446744073709551615"), Some(finite(false, u64::MAX, -31)));
    assert_eq!(parse_target("18446744073709551616"), None);
    assert_eq!(parse_target("1844674407370955.1616"), None);
    assert_eq!(parse_target("0.000000000000000001"), Some(finite(false, 1, -18)));
    assert_eq!(parse_target("1000000000000000000000000"), Some(finite(false, 1, 24)));
    assert_eq!(parse_target("10000000000000000000000001"), None);
}

#[test]
fn far_targets_compare_exactly() {
    // 1e-18 %: exactly 100 / 10^20
    let tiny = finite(false, 1, -18);
    let ten20 = 100_000_000_000_000_000_000u128;
    assert!(meets_minimum(Fraction { num: 1, den: ten20 }, tiny));
    assert!(meets_maximum(Fraction { num: 1, den: ten20 }, tiny));
    assert!(!meets_minimum(Fraction { num: 1, den: ten20 + 1 }, tiny));
    assert!(meets_maximum(Fraction { num: 1, den: ten20 + 1 }, tiny));
    // 5e-324 %: any up observation beats it, none does not
    let least = finite(false, 5, -324);
    assert!(meets_minimum(Fraction { num: 1, den: u128::MAX }, least));
    assert!(!meets_maximum(Fraction { num: 1, den: u128::MAX }, least));
    assert!(!meets_minimum(Fraction { num: 0, den: 5 }, least));
    assert!(meets_maximum(Fraction { num: 0, den: 5 }, least));
    // 1e300 %: out of reach
    let huge = finite(false, 1, 300);
    assert!(!meets_minimum(Fraction { num: u64::MAX, den: 1 }, huge));
    assert!(meets_maximum(Fraction { num: u64::MAX, den: 1 }, huge));
    // sides beyond 2^256
    assert!(meets_minimum(Fraction { num: 1, den: 1 }, finite(false, u64::MAX, -400)));
    assert!(!meets_maximum(Fraction { num: 1, den: 1 }, finite(false, u64::MAX, -400)));
    assert!(!meets_minimum(Fraction { num: u64::MAX, den: u128::MAX }, finite(false, u64::MAX, 100)));
    assert!(meets_maximum(Fraction { num: u64::MAX, den: u128::MAX }, finite(false, u64::MAX, 100)));
    // extreme exponents with a zero side
    assert!(meets_minimum(Fraction { num: 3, den: 4 }, finite(false, 0, i128::MAX)));
    assert!(meets_maximum(Fraction { num: 0, den: 4 }, finite(false, 0, i128::MIN)));
    assert!(!meets_maximum(Fraction { num: 3, den: 4 }, finite(false, 0, i128::MIN)));
    // a skip rate of exactly 0.7 % meets a 0.7 % maximum
    assert!(meets_maximum(Fraction { num: 7, den: 1000 }, parse_target("0.7").unwrap()));
    assert!(!meets_maximum(Fraction { num: 8, den: 1000 }, parse_target("0.7").unwrap()));
}

#[test]
fn uptime_target_is_met_exactly() {
    let target = finite(false, 9995, -2);
    // 1999 / 2000 is exactly 99.95 %
    assert!(meets_minimum(Fraction { num: 1999, den: 2000 }, target));
    assert!(!meets_minimum(Fraction { num: 1998, den: 2000 }, target));
    assert!(meets_minimum(Fraction { num: 2000, den: 2000 }, target));
    // no observations count as 0 %
    assert!(!meets_minimum(Fraction { num: 0, den: 0 }, target));
    assert!(meets_minimum(Fraction { num: 0, den: 0 }, finite(false, 0, 0)));
}

#[test]
fn skip_rate_target_is_a_maximum() {
    let target = finite(false, 5, 0);
    assert!(meets_maximum(Fraction { num: 5, den: 100 }, target));
    assert!(!meets_maximum(Fraction { num: 6, den: 100 }, target));
    assert!(meets_maximum(Fraction { num: 0, den: 0 }, target));
    assert!(!meets_maximum(Fraction { num: 1, den: 100 }, finite(false, 0, 0)));
}

#[test]
fn special_targets() {
    let f = Fraction { num: 3, den: 4 };
    assert!(!meets_minimum(f, SloTarget::NotANumber));
    assert!(!meets_maximum(f, SloTarget::NotANumber));
    assert!(!meets_minimum(f, SloTarget::Infinite { negative: false }));
    assert!(meets_maximum(f, SloTarget::Infinite { negative: false }));
    assert!(meets_minimum(f, SloTarget::Infinite { negative: true }));
    assert!(!meets_maximum(f, SloTarget::Infinite { negative: true }));
    assert!(meets_minimum(f, finite(true, 10, 0)));
    assert!(!meets_maximum(f, finite(true, 10, 0)));
    assert!(meets_maximum(Fraction { num: 0, den: 4 }, finite(true, 0, 0)));
}

#[test]
fn huge_denominators_compare_exactly() {
    // 16 credits per block over u64::MAX blocks: far below 1 %
    let f = Fraction { num: 1, den: (u64::MAX as u128) * 16 };
    assert!(!meets_minimum(f, finite(false, 1, 0)));
    assert!(meets_maximum(f, finite(false, 1, 0)));
    assert!(meets_minimum(f, finite(false, 0, 0)));
    // a target whose product with the denominator leaves u128
    let g = Fraction { num: u64::MAX, den: u128::MAX };
    assert!(!meets_minimum(g, finite(false, u64::MAX, 0)));
    assert!(meets_maximum(g, finite(false, u64::MAX, 0)));
}
