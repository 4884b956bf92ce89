//! Service-level targets and the exact comparison of a percentage with a target.
//!
//! A target is written in the configuration as a decimal number of percent
//! (`99.95`). It is held exactly, as its significant digits and a decimal
//! exponent, so that "a ratio meets its target" is decided without rounding.
use vstd::prelude::*;
use vstd::string::*;
use crate::wide::{Wide, product, pow2_256};

verus! {

broadcast use vstd::string::group_string_axioms;

/// A target percentage, as written in decimal.
#[derive(Clone, Copy, Debug, PartialEq, Eq, Structural)]
pub enum SloTarget {
    /// `(-1 if negative) * mantissa * 10^exponent` percent.
    Finite { negative: bool, mantissa: u64, exponent: i128 },
    /// Positive or negative infinity.
    Infinite { negative: bool },
    /// Not a number: no percentage meets it, from above or from below.
    NotANumber,
}

/// A percentage given as `100 * num / den`; a zero denominator stands for 0 %.
#[derive(Clone, Copy, Debug, PartialEq, Eq, Structural)]
pub struct Fraction {
    pub num: u64,
    pub den: u128,
}

pub open spec fn pow10(n: nat) -> nat
    decreases n,
{
    if n == 0 {
        1
    } else {
        10 * pow10((n - 1) as nat)
    }
}

pub open spec fn is_digit(c: char) -> bool {
    '0' <= c && c <= '9'
}

pub open spec fn digit_value(c: char) -> nat {
    (c as nat - '0' as nat) as nat
}

pub open spec fn all_digits(s: Seq<char>) -> bool {
    forall|i: int| 0 <= i < s.len() ==> is_digit(#[trigger] s[i])
}

/// The number that a string of decimal digits denotes.
pub open spec fn digits_value(s: Seq<char>) -> nat
    decreases s.len(),
{
    if s.len() == 0 {
        0
    } else {
        digits_value(s.drop_last()) * 10 + digit_value(s.last())
    }
}

/// The index of the first `.` in `s`, or its length when there is none.
pub open spec fn dot_index(s: Seq<char>) -> int
    decreases s.len(),
{
    if s.len() == 0 {
        0
    } else if s[0] == '.' {
        0
    } else {
        1 + dot_index(s.drop_first())
    }
}

/// How many `'0'` end `s`.
pub open spec fn trailing_zeros(s: Seq<char>) -> nat
    decreases s.len(),
{
    if s.len() > 0 && s.last() == '0' {
        1 + trailing_zeros(s.drop_last())
    } else {
        0
    }
}

/// `s` without the zeros that end it.
pub open spec fn significant(s: Seq<char>) -> Seq<char> {
    s.take(s.len() - trailing_zeros(s))
}

/// What a decimal literal `[-]digits[.digits]` denotes: its digits without
/// the zeros that end them, and the power of ten they are scaled by. `None`
/// when those digits exceed `u64::MAX` (never for a text that Rust writes
/// for an `f64`, which has at most 17 significant digits).
pub open spec fn decimal_target(s: Seq<char>) -> Option<SloTarget> {
    let negative = s.len() > 0 && s[0] == '-';
    let body = if negative {
        s.drop_first()
    } else {
        s
    };
    let d = dot_index(body);
    let int_part = body.take(d);
    let has_dot = d < body.len();
    let frac = if has_dot {
        body.skip(d + 1)
    } else {
        Seq::<char>::empty()
    };
    let digits = int_part + frac;
    if int_part.len() > 0 && all_digits(int_part) && all_digits(frac) && (has_dot ==> frac.len()
        > 0) && digits_value(significant(digits)) <= u64::MAX {
        Some(
            SloTarget::Finite {
                negative,
                mantissa: digits_value(significant(digits)) as u64,
                exponent: (trailing_zeros(digits) - frac.len()) as i128,
            },
        )
    } else {
        None
    }
}

/// The target that a text denotes: `inf`, `-inf`, `NaN` or a decimal literal.
pub open spec fn target_of_text(s: Seq<char>) -> Option<SloTarget> {
    if s == seq!['i', 'n', 'f'] {
        Some(SloTarget::Infinite { negative: false })
    } else if s == seq!['-', 'i', 'n', 'f'] {
        Some(SloTarget::Infinite { negative: true })
    } else if s == seq!['N', 'a', 'N'] {
        Some(SloTarget::NotANumber)
    } else {
        decimal_target(s)
    }
}

pub open spec fn signed_mantissa(negative: bool, mantissa: u64) -> int {
    if negative {
        -(mantissa as int)
    } else {
        mantissa as int
    }
}

/// `100 * f.num`, times `10^-e` when `e` is negative: the percentage side of
/// a comparison with `m * 10^e` once both sides are multiplied by `f.den`
/// and by `10^-e`.
pub open spec fn percent_side(f: Fraction, e: i128) -> int {
    if e < 0 {
        100 * f.num * pow10((-e) as nat)
    } else {
        100 * f.num
    }
}

/// `m * den`, times `10^e` when `e` is not negative: the target side of the
/// same comparison.
pub open spec fn target_side(m: int, den: u128, e: i128) -> int {
    if e >= 0 {
        m * den * pow10(e as nat)
    } else {
        m * den
    }
}

/// `100 * f.num / f.den` (0 when `f.den == 0`) is at least the target.
pub open spec fn percent_at_least(f: Fraction, t: SloTarget) -> bool {
    match t {
        SloTarget::NotANumber => false,
        SloTarget::Infinite { negative } => negative,
        SloTarget::Finite { negative, mantissa, exponent } => {
            let m = signed_mantissa(negative, mantissa);
            if f.den == 0 {
                0 >= m
            } else {
                percent_side(f, exponent) >= target_side(m, f.den, exponent)
            }
        },
    }
}

/// `100 * f.num / f.den` (0 when `f.den == 0`) is at most the target.
pub open spec fn percent_at_most(f: Fraction, t: SloTarget) -> bool {
    match t {
        SloTarget::NotANumber => false,
        SloTarget::Infinite { negative } => !negative,
        SloTarget::Finite { negative, mantissa, exponent } => {
            let m = signed_mantissa(negative, mantissa);
            if f.den == 0 {
                0 <= m
            } else {
                percent_side(f, exponent) <= target_side(m, f.den, exponent)
            }
        },
    }
}

proof fn lemma_dot_index(s: Seq<char>, i: int)
    requires
        0 <= i <= s.len(),
        forall|j: int| 0 <= j < i ==> s[j] != '.',
        i == s.len() || s[i] == '.',
    ensures
        dot_index(s) == i,
    decreases i,
{
    if i > 0 {
        lemma_dot_index(s.drop_first(), i - 1);
    }
}

proof fn lemma_digits_prefix(s: Seq<char>, k: int)
    requires
        0 <= k <= s.len(),
    ensures
        digits_value(s.take(k)) <= digits_value(s),
    decreases s.len(),
{
    if k < s.len() {
        assert(s.drop_last().take(k) =~= s.take(k));
        lemma_digits_prefix(s.drop_last(), k);
    } else {
        assert(s.take(k) =~= s);
    }
}

proof fn lemma_digits_push(s: Seq<char>, c: char)
    ensures
        digits_value(s.push(c)) == digits_value(s) * 10 + digit_value(c),
{
    assert(s.push(c).drop_last() =~= s);
}

/// Whether the ASCII byte at `i` of `text` is `c`.
fn byte_is(text: &str, i: usize, c: char) -> (r: bool)
    requires
        text.is_ascii(),
        i < text@.len(),
        c <= '\u{7f}',
    ensures
        r == (text@[i as int] == c),
{
    let b = text.get_ascii(i);
    b == c as u8
}

/// Reads a target written as Rust writes an `f64` with `{}`: `inf`, `-inf`,
/// `NaN`, or `[-]digits[.digits]`. `None` when the text is none of these, or
/// when its digits, without the zeros that end them, exceed `u64::MAX`;
/// every text Rust writes for an `f64` is read.
pub fn parse_target(text: &str) -> (r: Option<SloTarget>)
    ensures
        r == target_of_text(text@),
{
    let ghost s = text@;
    if !text.is_ascii() {
        proof {
            let k = choose|k: int| 0 <= k < s.len() && !('\0' <= s[k] && s[k] <= '\u{7f}');
            assert(s != seq!['i', 'n', 'f']) by {
                if s == seq!['i', 'n', 'f'] {
                    assert(s[k] == seq!['i', 'n', 'f'][k]);
                }
            }
            assert(s != seq!['-', 'i', 'n', 'f']) by {
                if s == seq!['-', 'i', 'n', 'f'] {
                    assert(s[k] == seq!['-', 'i', 'n', 'f'][k]);
                }
            }
            assert(s != seq!['N', 'a', 'N']) by {
                if s == seq!['N', 'a', 'N'] {
                    assert(s[k] == seq!['N', 'a', 'N'][k]);
                }
            }
            not_ascii_is_not_decimal(s, k);
        }
        return None;
    }
    let n = text.unicode_len();
    if n == 3 && byte_is(text, 0, 'i') && byte_is(text, 1, 'n') && byte_is(text, 2, 'f') {
        assert(s =~= seq!['i', 'n', 'f']) by {
            lemma_three(s, 'i', 'n', 'f');
        }
        return Some(SloTarget::Infinite { negative: false });
    }
    if n == 4 && byte_is(text, 0, '-') && byte_is(text, 1, 'i') && byte_is(text, 2, 'n')
        && byte_is(text, 3, 'f') {
        assert(s =~= seq!['-', 'i', 'n', 'f']);
        return Some(SloTarget::Infinite { negative: true });
    }
    if n == 3 && byte_is(text, 0, 'N') && byte_is(text, 1, 'a') && byte_is(text, 2, 'N') {
        assert(s =~= seq!['N', 'a', 'N']) by {
            lemma_three(s, 'N', 'a', 'N');
        }
        return Some(SloTarget::NotANumber);
    }
    proof {
        if s == seq!['i', 'n', 'f'] {
            assert(s[0] == 'i' && s[1] == 'n' && s[2] == 'f');
        }
        if s == seq!['-', 'i', 'n', 'f'] {
            assert(s[0] == '-' && s[1] == 'i' && s[2] == 'n' && s[3] == 'f');
        }
        if s == seq!['N', 'a', 'N'] {
            assert(s[0] == 'N' && s[1] == 'a' && s[2] == 'N');
        }
    }
    parse_decimal(text)
}

proof fn lemma_three(s: Seq<char>, a: char, b: char, c: char)
    requires
        s.len() == 3,
        s[0] == a,
        s[1] == b,
        s[2] == c,
    ensures
        s =~= seq![a, b, c],
{
    let t = seq![a, b, c];
    assert(t.len() == 3);
    assert(t[0] == a && t[1] == b && t[2] == c);
}

proof fn not_ascii_is_not_decimal(s: Seq<char>, k: int)
    requires
        0 <= k < s.len(),
        !('\0' <= s[k] && s[k] <= '\u{7f}'),
    ensures
        decimal_target(s) is None,
{
    let negative = s.len() > 0 && s[0] == '-';
    let body = if negative {
        s.drop_first()
    } else {
        s
    };
    let d = dot_index(body);
    let int_part = body.take(d);
    let has_dot = d < body.len();
    let frac = if has_dot {
        body.skip(d + 1)
    } else {
        Seq::<char>::empty()
    };
    if int_part.len() > 0 && all_digits(int_part) && all_digits(frac) && (has_dot ==> frac.len()
        > 0) && 0 <= d <= body.len() {
        let kb = if negative {
            k - 1
        } else {
            k
        };
        assert(kb != -1);
        assert(body[kb] == s[k]);
        if kb < d {
            assert(is_digit(int_part[kb]));
        } else if kb == d {
            assert(body[kb] == '.') by {
                lemma_dot_index_char(body);
            }
        } else {
            assert(frac[kb - d - 1] == body[kb]);
            assert(is_digit(frac[kb - d - 1]));
        }
    } else if !(0 <= d <= body.len()) {
        lemma_dot_index_char(body);
    }
}

proof fn lemma_no_dot_before(s: Seq<char>, k: int)
    requires
        0 <= k < s.len(),
        forall|j: int| 0 <= j <= k ==> s[j] != '.',
    ensures
        dot_index(s) > k,
{
    lemma_dot_index_char(s);
    if dot_index(s) <= k {
        assert(s[dot_index(s)] != '.');
    }
}

proof fn lemma_dot_index_char(s: Seq<char>)
    ensures
        0 <= dot_index(s) <= s.len(),
        dot_index(s) < s.len() ==> s[dot_index(s)] == '.',
    decreases s.len(),
{
    if s.len() > 0 && s[0] != '.' {
        lemma_dot_index_char(s.drop_first());
    }
}

fn digit_at(text: &str, i: usize) -> (r: Option<u64>)
    requires
        text.is_ascii(),
        i < text@.len(),
    ensures
        r is Some <==> is_digit(text@[i as int]),
        r matches Some(d) ==> d == digit_value(text@[i as int]),
{
    let b = text.get_ascii(i);
    if 48 <= b && b <= 57 {
        Some((b - 48) as u64)
    } else {
        None
    }
}

/// The digits of a decimal literal, before and after its `.`, as
/// `decimal_target` reads them.
pub open spec fn decimal_digits(s: Seq<char>) -> Seq<char> {
    let body = if s.len() > 0 && s[0] == '-' {
        s.drop_first()
    } else {
        s
    };
    let d = dot_index(body);
    let frac = if d < body.len() {
        body.skip(d + 1)
    } else {
        Seq::<char>::empty()
    };
    body.take(d) + frac
}

proof fn lemma_trailing_zeros_bound(p: Seq<char>)
    ensures
        trailing_zeros(p) <= p.len(),
    decreases p.len(),
{
    if p.len() > 0 && p.last() == '0' {
        lemma_trailing_zeros_bound(p.drop_last());
    }
}

/// A digit that is not `'0'` bounds the zeros that end a text.
proof fn lemma_trailing_zeros_before(s: Seq<char>, k: int)
    requires
        0 < k <= s.len(),
        s[k - 1] != '0',
    ensures
        trailing_zeros(s) <= s.len() - k,
    decreases s.len(),
{
    if s.len() > k && s.last() == '0' {
        lemma_trailing_zeros_before(s.drop_last(), k);
    }
}

/// A text's value is its significant digits' value times ten to the number
/// of zeros that end it.
proof fn lemma_value_trailing(p: Seq<char>)
    ensures
        digits_value(p) == digits_value(significant(p)) * pow10(trailing_zeros(p)),
    decreases p.len(),
{
    if p.len() > 0 && p.last() == '0' {
        let q = p.drop_last();
        assert(digit_value(p.last()) == 0);
        assert(digits_value(p) == digits_value(q) * 10);
        lemma_value_trailing(q);
        lemma_trailing_zeros_bound(q);
        assert(significant(p) =~= significant(q));
        assert(pow10(trailing_zeros(p)) == 10 * pow10(trailing_zeros(q)));
        assert(digits_value(q) * 10 == digits_value(significant(q)) * pow10(
            trailing_zeros(p),
        )) by (nonlinear_arith)
            requires
                digits_value(q) == digits_value(significant(q)) * pow10(trailing_zeros(q)),
                pow10(trailing_zeros(p)) == 10 * pow10(trailing_zeros(q)),
        ;
        assert(digits_value(significant(p)) == digits_value(significant(q)));
    } else {
        assert(trailing_zeros(p) == 0);
        assert(significant(p) =~= p);
        assert(pow10(0) == 1);
        assert(digits_value(p) == digits_value(p) * 1);
    }
}

proof fn lemma_push_zero(p: Seq<char>)
    ensures
        trailing_zeros(p.push('0')) == trailing_zeros(p) + 1,
        significant(p.push('0')) == significant(p),
{
    assert(p.push('0').drop_last() =~= p);
    lemma_trailing_zeros_bound(p);
    assert(significant(p.push('0')) =~= significant(p));
}

proof fn lemma_push_nonzero(p: Seq<char>, c: char)
    requires
        c != '0',
    ensures
        trailing_zeros(p.push(c)) == 0,
        significant(p.push(c)) == p.push(c),
        digits_value(p.push(c)) == digits_value(significant(p)) * pow10(trailing_zeros(p)) * 10
            + digit_value(c),
{
    lemma_digits_push(p, c);
    lemma_value_trailing(p);
    assert(significant(p.push(c)) =~= p.push(c));
}

/// Digits that already exceed `u64::MAX` up to one that is not `'0'` leave
/// no target.
proof fn lemma_overflow_means_none(s: Seq<char>, p: Seq<char>)
    requires
        0 < p.len() <= decimal_digits(s).len(),
        decimal_digits(s).take(p.len() as int) == p,
        p.last() != '0',
        digits_value(p) > u64::MAX,
    ensures
        decimal_target(s) is None,
{
    let full = decimal_digits(s);
    let k = p.len() as int;
    assert(full[k - 1] == p.last());
    lemma_trailing_zeros_before(full, k);
    assert(significant(full).take(k) =~= p);
    lemma_digits_prefix(significant(full), k);
}

/// `sig * 10^(zeros + 1) + d`, when it fits in `u64`.
fn append_digit(sig: u64, zeros: usize, d: u64) -> (r: Option<u64>)
    requires
        d <= 9,
    ensures
        r matches Some(v) ==> v == sig * pow10(zeros as nat) * 10 + d,
        r is None ==> sig * pow10(zeros as nat) * 10 + d > u64::MAX,
{
    let mut v: u64 = sig;
    let mut j: usize = 0;
    assert(pow10(0) == 1);
    while j < zeros
        invariant
            j <= zeros,
            v == sig * pow10(j as nat),
        decreases zeros - j,
    {
        proof {
            assert(pow10((j + 1) as nat) == 10 * pow10(j as nat));
        }
        match v.checked_mul(10) {
            Some(w) => {
                proof {
                    assert(w == sig * pow10((j + 1) as nat)) by (nonlinear_arith)
                        requires
                            w == v * 10,
                            v == sig * pow10(j as nat),
                            pow10((j + 1) as nat) == 10 * pow10(j as nat),
                    ;
                }
                v = w;
            },
            None => {
                proof {
                    lemma_pow10_grows((j + 1) as nat, zeros as nat);
                    assert(sig * pow10(zeros as nat) * 10 + d > u64::MAX) by (nonlinear_arith)
                        requires
                            v * 10 > u64::MAX,
                            v == sig * pow10(j as nat),
                            pow10((j + 1) as nat) == 10 * pow10(j as nat),
                            pow10((j + 1) as nat) <= pow10(zeros as nat),
                            sig >= 0,
                            d >= 0,
                    ;
                }
                return None;
            },
        }
        j = j + 1;
    }
    match v.checked_mul(10) {
        Some(w) => w.checked_add(d),
        None => None,
    }
}

/// Reads `[-]digits[.digits]` from an ASCII text.
fn parse_decimal(text: &str) -> (r: Option<SloTarget>)
    requires
        text.is_ascii(),
    ensures
        r == decimal_target(text@),
{
    let ghost s = text@;
    let n = text.unicode_len();
    let negative = n > 0 && byte_is(text, 0, '-');
    let start: usize = if negative {
        1
    } else {
        0
    };
    let ghost body = if negative {
        s.drop_first()
    } else {
        s
    };
    let mut i: usize = start;
    let mut sig: u64 = 0;
    let mut zeros: usize = 0;
    // integer digits, up to the first '.'
    while i < n && !byte_is(text, i, '.')
        invariant
            n == s.len(),
            s == text@,
            text.is_ascii(),
            start <= i <= n,
            start == (if s.len() > 0 && s[0] == '-' {
                1usize
            } else {
                0usize
            }),
            body == (if s.len() > 0 && s[0] == '-' {
                s.drop_first()
            } else {
                s
            }),
            body =~= s.skip(start as int),
            forall|j: int| 0 <= j < i - start ==> body[j] != '.',
            all_digits(body.take(i - start)),
            sig == digits_value(significant(body.take(i - start))),
            zeros == trailing_zeros(body.take(i - start)),
        decreases n - i,
    {
        let d = match digit_at(text, i) {
            Some(d) => d,
            None => {
                proof {
                    let k = i - start;
                    assert(body[k] == s[i as int]);
                    lemma_no_dot_before(body, k);
                    lemma_dot_index_char(body);
                    assert(body.take(dot_index(body))[k] == body[k]);
                }
                return None;
            },
        };
        let ghost p = body.take(i - start);
        let ghost c = body[i - start];
        proof {
            assert(c == s[i as int]);
            assert(body.take(i - start + 1) =~= p.push(c));
        }
        if d == 0 {
            proof {
                lemma_push_zero(p);
                lemma_trailing_zeros_bound(p);
            }
            zeros = zeros + 1;
        } else {
            proof {
                lemma_push_nonzero(p, c);
            }
            match append_digit(sig, zeros, d) {
                Some(v) => {
                    sig = v;
                    zeros = 0;
                },
                None => {
                    proof {
                        let k = i - start;
                        lemma_no_dot_before(body, k);
                        lemma_dot_index_char(body);
                        assert(decimal_digits(s).take(k + 1) =~= p.push(c));
                        lemma_overflow_means_none(s, p.push(c));
                    }
                    return None;
                },
            }
        }
        i = i + 1;
    }
    let ghost k = i - start;
    proof {
        lemma_dot_index(body, k);
    }
    if i == start {
        return None;
    }
    if i < n {
        // at the '.'
        i = i + 1;
        if i == n {
            return None;
        }
        let frac_start = i;
        let mut count: usize = 0;
        let ghost frac = body.skip(k + 1);
        let ghost int_part = body.take(k);
        assert(int_part + frac.take(0) =~= body.take(k));
        assert(body.len() == n - start);
        assert(frac.len() == n - frac_start);
        while i < n
            invariant
                n == s.len(),
                s == text@,
                text.is_ascii(),
                frac_start == i - count,
                frac_start == start + k + 1,
                frac_start <= i <= n,
                body == s.skip(start as int),
                body == (if s.len() > 0 && s[0] == '-' {
                    s.drop_first()
                } else {
                    s
                }),
                body.len() == n - start,
                frac.len() == n - frac_start,
                frac == body.skip(k + 1),
                int_part == body.take(k),
                dot_index(body) == k,
                0 <= k < body.len(),
                int_part.len() > 0,
                all_digits(int_part),
                all_digits(frac.take(count as int)),
                sig == digits_value(significant(int_part + frac.take(count as int))),
                zeros == trailing_zeros(int_part + frac.take(count as int)),
            decreases n - i,
        {
            assert(frac[count as int] == body[k + 1 + count]);
            assert(body[k + 1 + count] == s[start + k + 1 + count]);
            let d = match digit_at(text, i) {
                Some(d) => d,
                None => {
                    proof {
                        assert(!is_digit(frac[count as int]));
                        assert(!all_digits(frac));
                    }
                    return None;
                },
            };
            let ghost p = int_part + frac.take(count as int);
            let ghost c = frac[count as int];
            proof {
                assert(int_part + frac.take(count + 1) =~= p.push(c));
            }
            if d == 0 {
                proof {
                    lemma_push_zero(p);
                    lemma_trailing_zeros_bound(p);
                }
                zeros = zeros + 1;
            } else {
                proof {
                    lemma_push_nonzero(p, c);
                }
                match append_digit(sig, zeros, d) {
                    Some(v) => {
                        sig = v;
                        zeros = 0;
                    },
                    None => {
                        proof {
                            assert(decimal_digits(s) =~= int_part + frac);
                            assert(decimal_digits(s).take(k + count + 1) =~= p.push(c));
                            lemma_overflow_means_none(s, p.push(c));
                        }
                        return None;
                    },
                }
            }
            count = count + 1;
            i = i + 1;
        }
        assert(frac.take(count as int) =~= frac);
        proof {
            lemma_trailing_zeros_bound(int_part + frac);
        }
        Some(SloTarget::Finite { negative, mantissa: sig, exponent: zeros as i128 - count as i128 })
    } else {
        assert(body.take(k) =~= body.take(k) + Seq::<char>::empty());
        Some(SloTarget::Finite { negative, mantissa: sig, exponent: zeros as i128 })
    }
}

proof fn lemma_pow10_positive(n: nat)
    ensures
        pow10(n) >= 1,
    decreases n,
{
    if n > 0 {
        lemma_pow10_positive((n - 1) as nat);
    }
}

proof fn lemma_pow10_grows(i: nat, j: nat)
    requires
        i <= j,
    ensures
        pow10(i) <= pow10(j),
    decreases j - i,
{
    if i < j {
        lemma_pow10_grows(i, (j - 1) as nat);
        lemma_pow10_positive((j - 1) as nat);
    }
}

/// The signs of the two sides of a comparison.
proof fn lemma_sides(f: Fraction, negative: bool, mantissa: u64, e: i128)
    requires
        f.den > 0,
    ensures
        percent_side(f, e) >= 0,
        percent_side(f, e) == 0 <==> f.num == 0,
        target_side(mantissa as int, f.den, e) >= 0,
        target_side(mantissa as int, f.den, e) == 0 <==> mantissa == 0,
        target_side(signed_mantissa(negative, mantissa), f.den, e) == (if negative {
            -target_side(mantissa as int, f.den, e)
        } else {
            target_side(mantissa as int, f.den, e)
        }),
{
    let p = if e < 0 {
        pow10((-e) as nat)
    } else {
        pow10(e as nat)
    };
    lemma_pow10_positive(if e < 0 {
        (-e) as nat
    } else {
        e as nat
    });
    assert(100 * f.num * p >= 0 && (100 * f.num * p == 0 <==> f.num == 0)) by (nonlinear_arith)
        requires
            p >= 1,
            f.num >= 0,
    ;
    assert(mantissa * f.den * p >= 0 && (mantissa * f.den * p == 0 <==> mantissa == 0)
        && mantissa * f.den >= 0 && (mantissa * f.den == 0 <==> mantissa == 0))
        by (nonlinear_arith)
        requires
            p >= 1,
            f.den >= 1,
            mantissa >= 0,
    ;
    assert(-(mantissa as int) * f.den * p == -(mantissa * f.den * p) && -(mantissa as int)
        * f.den == -(mantissa * f.den)) by (nonlinear_arith);
}

/// `percent_side(f, e)` and `target_side(mantissa, f.den, e)`, each `None`
/// when it reaches `2^256`; never both `None`.
fn scaled_sides(f: Fraction, mantissa: u64, e: i128) -> (r: (Option<Wide>, Option<Wide>))
    ensures
        r.0 matches Some(x) ==> x.value() == percent_side(f, e),
        r.0 is None ==> percent_side(f, e) >= pow2_256(),
        r.1 matches Some(y) ==> y.value() == target_side(mantissa as int, f.den, e),
        r.1 is None ==> target_side(mantissa as int, f.den, e) >= pow2_256(),
        !(r.0 is None && r.1 is None),
{
    let x0 = product(100, f.num);
    let y0 = product(f.den, mantissa);
    proof {
        assert(x0.value() == 100 * f.num);
        assert(y0.value() == mantissa * f.den) by (nonlinear_arith)
            requires
                y0.value() == f.den * mantissa,
        ;
        assert(pow10(0) == 1);
        assert(y0.value() == mantissa * f.den * pow10(0));
        assert(x0.value() == 100 * f.num * pow10(0));
    }
    if e >= 0 {
        let mut y = y0;
        let mut i: i128 = 0;
        while i < e
            invariant
                0 <= i <= e,
                x0.value() == 100 * f.num,
                y.value() == mantissa * f.den * pow10(i as nat),
            decreases e - i,
        {
            if y.is_zero() {
                proof {
                    lemma_pow10_positive(i as nat);
                    assert(mantissa * f.den == 0) by (nonlinear_arith)
                        requires
                            mantissa * f.den * pow10(i as nat) == 0,
                            pow10(i as nat) >= 1,
                            mantissa * f.den >= 0,
                    ;
                    assert(mantissa * f.den * pow10(e as nat) == 0) by (nonlinear_arith)
                        requires
                            mantissa * f.den == 0,
                    ;
                }
                return (Some(x0), Some(y));
            }
            match y.times_ten() {
                Some(v) => {
                    proof {
                        assert(pow10((i + 1) as nat) == 10 * pow10(i as nat));
                        assert(v.value() == mantissa * f.den * pow10((i + 1) as nat))
                            by (nonlinear_arith)
                            requires
                                v.value() == y.value() * 10,
                                y.value() == mantissa * f.den * pow10(i as nat),
                                pow10((i + 1) as nat) == 10 * pow10(i as nat),
                        ;
                    }
                    y = v;
                },
                None => {
                    proof {
                        lemma_pow10_grows((i + 1) as nat, e as nat);
                        assert(pow10((i + 1) as nat) == 10 * pow10(i as nat));
                        assert(mantissa * f.den * pow10(e as nat) >= y.value() * 10)
                            by (nonlinear_arith)
                            requires
                                y.value() == mantissa * f.den * pow10(i as nat),
                                pow10((i + 1) as nat) == 10 * pow10(i as nat),
                                pow10((i + 1) as nat) <= pow10(e as nat),
                                mantissa * f.den >= 0,
                        ;
                    }
                    return (Some(x0), None);
                },
            }
            i = i + 1;
        }
        (Some(x0), Some(y))
    } else {
        let mut x = x0;
        let mut i: i128 = e;
        while i < 0
            invariant
                e <= i <= 0,
                e < 0,
                y0.value() == mantissa * f.den,
                x.value() == 100 * f.num * pow10((i - e) as nat),
            decreases 0 - i,
        {
            if x.is_zero() {
                proof {
                    lemma_pow10_positive((i - e) as nat);
                    assert(100 * f.num == 0) by (nonlinear_arith)
                        requires
                            100 * f.num * pow10((i - e) as nat) == 0,
                            pow10((i - e) as nat) >= 1,
                            f.num >= 0,
                    ;
                    assert(100 * f.num * pow10((-e) as nat) == 0) by (nonlinear_arith)
                        requires
                            100 * f.num == 0,
                    ;
                }
                return (Some(x), Some(y0));
            }
            match x.times_ten() {
                Some(v) => {
                    proof {
                        assert(pow10((i + 1 - e) as nat) == 10 * pow10((i - e) as nat));
                        assert(v.value() == 100 * f.num * pow10((i + 1 - e) as nat))
                            by (nonlinear_arith)
                            requires
                                v.value() == x.value() * 10,
                                x.value() == 100 * f.num * pow10((i - e) as nat),
                                pow10((i + 1 - e) as nat) == 10 * pow10((i - e) as nat),
                        ;
                    }
                    x = v;
                },
                None => {
                    proof {
                        lemma_pow10_grows((i + 1 - e) as nat, (-e) as nat);
                        assert(pow10((i + 1 - e) as nat) == 10 * pow10((i - e) as nat));
                        assert(100 * f.num * pow10((-e) as nat) >= x.value() * 10)
                            by (nonlinear_arith)
                            requires
                                x.value() == 100 * f.num * pow10((i - e) as nat),
                                pow10((i + 1 - e) as nat) == 10 * pow10((i - e) as nat),
                                pow10((i + 1 - e) as nat) <= pow10((-e) as nat),
                                f.num >= 0,
                        ;
                    }
                    return (None, Some(y0));
                },
            }
            i = i + 1;
        }
        (Some(x), Some(y0))
    }
}

/// `100 * f.num / f.den >= t`, exactly (a zero denominator stands for 0 %).
pub fn meets_minimum(f: Fraction, t: SloTarget) -> (r: bool)
    ensures
        r == percent_at_least(f, t),
{
    match t {
        SloTarget::NotANumber => false,
        SloTarget::Infinite { negative } => negative,
        SloTarget::Finite { negative, mantissa, exponent } => {
            if f.den == 0 {
                negative || mantissa == 0
            } else {
                proof {
                    lemma_sides(f, negative, mantissa, exponent);
                }
                if negative {
                    true
                } else {
                    match scaled_sides(f, mantissa, exponent) {
                        (Some(x), Some(y)) => x.at_least(&y),
                        (None, _) => true,
                        (Some(_), None) => false,
                    }
                }
            }
        },
    }
}

/// `100 * f.num / f.den <= t`, exactly (a zero denominator stands for 0 %).
pub fn meets_maximum(f: Fraction, t: SloTarget) -> (r: bool)
    ensures
        r == percent_at_most(f, t),
{
    match t {
        SloTarget::NotANumber => false,
        SloTarget::Infinite { negative } => !negative,
        SloTarget::Finite { negative, mantissa, exponent } => {
            if f.den == 0 {
                !negative || mantissa == 0
            } else {
                proof {
                    lemma_sides(f, negative, mantissa, exponent);
                }
                if negative {
                    // a side of at least 0 is at most one of at most 0 only when both are 0
                    f.num == 0 && mantissa == 0
                } else {
                    match scaled_sides(f, mantissa, exponent) {
                        (Some(x), Some(y)) => y.at_least(&x),
                        (None, _) => false,
                        (Some(_), None) => true,
                    }
                }
            }
        },
    }
}

} // verus!
