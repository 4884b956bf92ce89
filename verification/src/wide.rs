//! Unsigned 256-bit numbers, as far as exact comparisons of products need
//! them: a product of a `u128` and a `u64`, multiplication by ten, and order.
use vstd::prelude::*;

verus! {

/// `2^64`.
pub open spec fn pow2_64() -> int {
    0x1_0000_0000_0000_0000int
}

/// `2^128`.
pub open spec fn pow2_128() -> int {
    0x1_0000_0000_0000_0000_0000_0000_0000_0000int
}

/// `2^256`.
pub open spec fn pow2_256() -> int {
    pow2_128() * pow2_128()
}

/// The number `hi * 2^128 + lo`.
#[derive(Clone, Copy, Debug, PartialEq, Eq, Structural)]
pub struct Wide {
    pub hi: u128,
    pub lo: u128,
}

impl Wide {
    pub open spec fn value(self) -> int {
        self.hi * pow2_128() + self.lo
    }

    /// Whether the number is zero.
    pub fn is_zero(&self) -> (r: bool)
        ensures
            r == (self.value() == 0),
    {
        proof {
            assert(self.hi * pow2_128() >= 0) by (nonlinear_arith);
            if self.hi > 0 {
                assert(self.hi * pow2_128() >= pow2_128()) by (nonlinear_arith)
                    requires
                        self.hi >= 1,
                ;
            }
        }
        self.hi == 0 && self.lo == 0
    }

    /// Whether this number is at least `other`.
    pub fn at_least(&self, other: &Wide) -> (r: bool)
        ensures
            r == (self.value() >= other.value()),
    {
        proof {
            lemma_order(*self, *other);
            lemma_order(*other, *self);
        }
        self.hi > other.hi || (self.hi == other.hi && self.lo >= other.lo)
    }

    /// Ten times this number, or `None` when that reaches `2^256`.
    pub fn times_ten(&self) -> (r: Option<Wide>)
        ensures
            r matches Some(w) ==> w.value() == self.value() * 10,
            r is None ==> self.value() * 10 >= pow2_256(),
    {
        let low = product(self.lo, 10);
        match self.hi.checked_mul(10) {
            Some(h) => match h.checked_add(low.hi) {
                Some(h) => {
                    proof {
                        assert(self.value() * 10 == (self.hi * 10 + low.hi) * pow2_128() + low.lo)
                            by (nonlinear_arith)
                            requires
                                low.hi * pow2_128() + low.lo == self.lo * 10,
                        ;
                    }
                    Some(Wide { hi: h, lo: low.lo })
                },
                None => {
                    proof {
                        lemma_overflow(self.hi * 10 + low.hi, low.lo as int);
                        assert(self.value() * 10 == (self.hi * 10 + low.hi) * pow2_128() + low.lo)
                            by (nonlinear_arith)
                            requires
                                low.hi * pow2_128() + low.lo == self.lo * 10,
                        ;
                    }
                    None
                },
            },
            None => {
                proof {
                    lemma_overflow(self.hi * 10 + low.hi, low.lo as int);
                    assert(self.value() * 10 == (self.hi * 10 + low.hi) * pow2_128() + low.lo)
                        by (nonlinear_arith)
                        requires
                            low.hi * pow2_128() + low.lo == self.lo * 10,
                    ;
                }
                None
            },
        }
    }
}

/// A high part beyond `u128` makes a number of at least `2^256`.
proof fn lemma_overflow(h: int, lo: int)
    requires
        h >= pow2_128(),
        lo >= 0,
    ensures
        h * pow2_128() + lo >= pow2_256(),
{
    assert(h * pow2_128() >= pow2_128() * pow2_128()) by (nonlinear_arith)
        requires
            h >= pow2_128(),
    ;
}

/// The order of two numbers follows their high parts, then their low parts.
proof fn lemma_order(x: Wide, y: Wide)
    ensures
        x.hi > y.hi ==> x.value() > y.value(),
        x.hi == y.hi ==> (x.value() >= y.value() <==> x.lo >= y.lo),
{
    if x.hi > y.hi {
        assert(x.hi * pow2_128() >= y.hi * pow2_128() + pow2_128()) by (nonlinear_arith)
            requires
                x.hi >= y.hi + 1,
        ;
    }
}

/// The exact product `b * c`.
pub fn product(b: u128, c: u64) -> (r: Wide)
    ensures
        r.value() == b * c,
        r.hi < pow2_64(),
{
    let b1: u128 = b / 0x1_0000_0000_0000_0000;
    let b0: u128 = b % 0x1_0000_0000_0000_0000;
    let c1: u128 = c as u128;
    proof {
        assert(b == b1 * pow2_64() + b0 && b1 < pow2_64() && b0 < pow2_64()) by (nonlinear_arith)
            requires
                b1 == (b as int) / pow2_64(),
                b0 == (b as int) % pow2_64(),
                0 <= b < pow2_128(),
        ;
        assert(b0 * c1 < pow2_128() && b1 * c1 < pow2_128()) by (nonlinear_arith)
            requires
                0 <= b0 < pow2_64(),
                0 <= b1 < pow2_64(),
                0 <= c1 < pow2_64(),
        ;
    }
    let p0: u128 = b0 * c1;
    let p1: u128 = b1 * c1;
    let p1h: u128 = p1 / 0x1_0000_0000_0000_0000;
    let p1l: u128 = p1 % 0x1_0000_0000_0000_0000;
    proof {
        assert(p1 == p1h * pow2_64() + p1l && p1h < pow2_64() && p1l < pow2_64())
            by (nonlinear_arith)
            requires
                p1h == (p1 as int) / pow2_64(),
                p1l == (p1 as int) % pow2_64(),
                0 <= p1 < pow2_128(),
        ;
        assert(p1l * pow2_64() < pow2_128()) by (nonlinear_arith)
            requires
                0 <= p1l < pow2_64(),
        ;
    }
    let mid: u128 = p1l * 0x1_0000_0000_0000_0000;
    let (lo, carry): (u128, u128) = if p0 <= u128::MAX - mid {
        (mid + p0, 0)
    } else {
        (p0 - (u128::MAX - mid) - 1, 1)
    };
    proof {
        assert(lo + carry * pow2_128() == mid + p0);
        assert(b * c == (p1h + carry) * pow2_128() + lo) by (nonlinear_arith)
            requires
                b == b1 * pow2_64() + b0,
                c1 == c,
                p0 == b0 * c1,
                p1 == b1 * c1,
                p1 == p1h * pow2_64() + p1l,
                mid == p1l * pow2_64(),
                lo + carry * pow2_128() == mid + p0,
                pow2_128() == pow2_64() * pow2_64(),
        ;
        assert(p1h + carry < pow2_64()) by (nonlinear_arith)
            requires
                b * c == (p1h + carry) * pow2_128() + lo,
                0 <= b < pow2_128(),
                0 <= c < pow2_64(),
                lo >= 0,
                p1h + carry >= 0,
        ;
    }
    Wide { hi: p1h + carry, lo }
}

} // verus!
