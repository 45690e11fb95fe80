//! The scalar type of the tracer: a saturating Q47.16 fixed-point number.
//!
//! Every coordinate, distance and colour channel in this crate is an `Fx`.
//! A value is a raw 64-bit integer counted in units of `1/SCALE`, clamped to
//! `[-MAX_RAW, MAX_RAW]`; all operations saturate at that bound, so every
//! operation is total and has an exact integer-valued specification
//! (`fadd`, `fmul`, ... below). Keeping the raw magnitude at or below
//! `MAX_RAW` also guarantees that the exact 128-bit cross products used by
//! the bounding-box slab test can never overflow.

use vstd::prelude::*;

verus! {

/// Raw units per 1.0: the fixed-point scale factor.
pub const SCALE: i64 = 65536;

/// Largest raw magnitude a scalar may carry (2^40 raw units, i.e. 2^24 world units).
pub const MAX_RAW: i64 = 0x100_0000_0000;

/// Absolute value of a mathematical integer.
pub open spec fn iabs(x: int) -> int {
    if x < 0 {
        -x
    } else {
        x
    }
}

/// Clamp a mathematical integer into the representable raw range.
pub open spec fn sat(x: int) -> int {
    if x > MAX_RAW {
        MAX_RAW as int
    } else if x < -MAX_RAW {
        -(MAX_RAW as int)
    } else {
        x
    }
}

/// Division truncated toward zero (the rounding used by every scaled product
/// and quotient in this crate).
pub open spec fn tdiv(n: int, d: int) -> int
    recommends
        d != 0,
{
    let q = iabs(n) / iabs(d);
    if (n < 0) == (d < 0) {
        q
    } else {
        -q
    }
}

/// Raw-value result of fixed-point addition.
pub open spec fn fadd(a: int, b: int) -> int {
    sat(a + b)
}

/// Raw-value result of fixed-point subtraction.
pub open spec fn fsub(a: int, b: int) -> int {
    sat(a - b)
}

/// Raw-value result of fixed-point negation.
pub open spec fn fneg(a: int) -> int {
    sat(-a)
}

/// Raw-value result of fixed-point multiplication.
pub open spec fn fmul(a: int, b: int) -> int {
    sat(tdiv(a * b, SCALE as int))
}

/// Raw-value result of fixed-point division.
pub open spec fn fdivr(a: int, b: int) -> int
    recommends
        b != 0,
{
    sat(tdiv(a * (SCALE as int), b))
}

/// Raw-value result of taking the smaller operand.
pub open spec fn fmin(a: int, b: int) -> int {
    if a <= b {
        a
    } else {
        b
    }
}

/// Raw-value result of taking the larger operand.
pub open spec fn fmax(a: int, b: int) -> int {
    if a <= b {
        b
    } else {
        a
    }
}

/// `r` is the integer square root of `n`: the unique `r >= 0` with
/// `r^2 <= n < (r+1)^2`.
pub open spec fn is_sqrt(n: int, r: int) -> bool {
    0 <= r && r * r <= n && n < (r + 1) * (r + 1)
}

/// The integer square root of `n` (meaningful for `n >= 0`).
pub open spec fn sqrt_val(n: int) -> int {
    choose|r: int| is_sqrt(n, r)
}

proof fn lemma_sqrt_unique(n: int, a: int, b: int)
    requires
        is_sqrt(n, a),
        is_sqrt(n, b),
    ensures
        a == b,
{
    assert(a == b) by (nonlinear_arith)
        requires
            0 <= a && a * a <= n && n < (a + 1) * (a + 1),
            0 <= b && b * b <= n && n < (b + 1) * (b + 1),
    ;
}

/// Multiplying a raw value by itself never yields a negative raw product.
pub proof fn lemma_fmul_self_nonneg(a: int)
    ensures
        fmul(a, a) >= 0,
{
    assert(a * a >= 0) by (nonlinear_arith);
    assert(iabs(a * a) / iabs(SCALE as int) >= 0) by (nonlinear_arith)
        requires
            a * a >= 0,
    ;
}

/// Bound on a product from bounds on its factors.
pub proof fn lemma_mul_bound(a: int, b: int, m: int)
    requires
        0 <= m,
        -m <= a <= m,
        -m <= b <= m,
    ensures
        -(m * m) <= a * b <= m * m,
{
    assert(-(m * m) <= a * b <= m * m) by (nonlinear_arith)
        requires
            0 <= m,
            -m <= a <= m,
            -m <= b <= m,
    ;
}

/// The Q47.16 fixed-point scalar: `raw / SCALE` as a real quantity.
#[derive(Clone, Copy, Debug, PartialEq, Eq, Structural)]
pub struct Fx {
    raw: i64,
}

impl View for Fx {
    type V = int;

    closed spec fn view(&self) -> int {
        self.raw as int
    }
}

impl Fx {
    #[verifier::type_invariant]
    spec fn inv(self) -> bool {
        -MAX_RAW <= self.raw <= MAX_RAW
    }

    /// The scalar zero.
    pub fn zero() -> (r: Fx)
        ensures
            r@ == 0,
    {
        Fx { raw: 0 }
    }

    /// The scalar one.
    pub fn one() -> (r: Fx)
        ensures
            r@ == SCALE,
    {
        Fx { raw: SCALE }
    }

    /// Build a scalar from a raw count of 1/SCALE units, saturating.
    pub fn from_raw(r: i64) -> (f: Fx)
        ensures
            f@ == sat(r as int),
    {
        if r > MAX_RAW {
            Fx { raw: MAX_RAW }
        } else if r < -MAX_RAW {
            Fx { raw: -MAX_RAW }
        } else {
            Fx { raw: r }
        }
    }

    /// Build a scalar from a whole number of world units, saturating.
    pub fn from_int(i: i64) -> (f: Fx)
        ensures
            f@ == sat(i * (SCALE as int)),
    {
        proof {
            lemma_mul_bound(i as int, SCALE as int, 0x8000_0000_0000_0000);
        }
        let p: i128 = (i as i128) * (SCALE as i128);
        clamp_i128(p)
    }

    /// The raw 1/SCALE-unit count of this scalar.
    pub fn raw(self) -> (r: i64)
        ensures
            r as int == self@,
            -MAX_RAW <= r <= MAX_RAW,
    {
        proof {
            use_type_invariant(self);
        }
        self.raw
    }

    /// Fixed-point addition, saturating.
    pub fn plus(self, o: Fx) -> (r: Fx)
        ensures
            r@ == fadd(self@, o@),
    {
        proof {
            use_type_invariant(self);
            use_type_invariant(o);
        }
        Fx::from_raw_wide((self.raw as i128) + (o.raw as i128))
    }

    /// Fixed-point subtraction, saturating.
    pub fn minus(self, o: Fx) -> (r: Fx)
        ensures
            r@ == fsub(self@, o@),
    {
        proof {
            use_type_invariant(self);
            use_type_invariant(o);
        }
        Fx::from_raw_wide((self.raw as i128) - (o.raw as i128))
    }

    /// Fixed-point negation, saturating.
    pub fn neg(self) -> (r: Fx)
        ensures
            r@ == fneg(self@),
    {
        proof {
            use_type_invariant(self);
        }
        Fx { raw: -self.raw }
    }

    /// Fixed-point multiplication, truncating toward zero and saturating.
    pub fn times(self, o: Fx) -> (r: Fx)
        ensures
            r@ == fmul(self@, o@),
    {
        proof {
            use_type_invariant(self);
            use_type_invariant(o);
            lemma_mul_bound(self.raw as int, o.raw as int, MAX_RAW as int);
        }
        let p: i128 = (self.raw as i128) * (o.raw as i128);
        div_sat(p, SCALE as i128)
    }

    /// Fixed-point division, truncating toward zero and saturating.
    pub fn over(self, o: Fx) -> (r: Fx)
        requires
            o@ != 0,
        ensures
            r@ == fdivr(self@, o@),
    {
        proof {
            use_type_invariant(self);
            use_type_invariant(o);
        }
        let p: i128 = (self.raw as i128) * (SCALE as i128);
        div_sat(p, o.raw as i128)
    }

    /// Fixed-point square root: the exact integer square root of the scaled value.
    pub fn sqrt(self) -> (r: Fx)
        requires
            self@ >= 0,
        ensures
            0 <= r@,
            r@ == sqrt_val(self@ * (SCALE as int)),
            is_sqrt(self@ * (SCALE as int), r@),
    {
        proof {
            use_type_invariant(self);
        }
        let n: u64 = (self.raw as u64) * 65536u64;
        let rt: u64 = isqrt_u64(n);
        proof {
            if rt >= 0x2000_0000u64 {
                assert((rt as int) * (rt as int) >= 0x2000_0000 * 0x2000_0000) by (nonlinear_arith)
                    requires
                        rt as int >= 0x2000_0000,
                ;
            }
            let ghost c = sqrt_val(n as int);
            assert(is_sqrt(n as int, rt as int));
            assert(is_sqrt(n as int, c)) by {
                assert(exists|x: int| is_sqrt(n as int, x));
            }
            lemma_sqrt_unique(n as int, c, rt as int);
        }
        Fx { raw: rt as i64 }
    }

    /// The smaller of the two scalars.
    pub fn min(self, o: Fx) -> (r: Fx)
        ensures
            r@ == fmin(self@, o@),
    {
        if self.raw <= o.raw {
            self
        } else {
            o
        }
    }

    /// The larger of the two scalars.
    pub fn max(self, o: Fx) -> (r: Fx)
        ensures
            r@ == fmax(self@, o@),
    {
        if self.raw <= o.raw {
            o
        } else {
            self
        }
    }

    /// Strict order on the underlying values.
    pub fn lt(self, o: Fx) -> (r: bool)
        ensures
            r == (self@ < o@),
    {
        self.raw < o.raw
    }

    /// Non-strict order on the underlying values.
    pub fn le(self, o: Fx) -> (r: bool)
        ensures
            r == (self@ <= o@),
    {
        self.raw <= o.raw
    }

    /// Build a scalar from a wide raw count, saturating.
    fn from_raw_wide(p: i128) -> (f: Fx)
        ensures
            f@ == sat(p as int),
    {
        clamp_i128(p)
    }
}

/// Clamp a wide raw value into an in-range scalar.
fn clamp_i128(v: i128) -> (f: Fx)
    ensures
        f@ == sat(v as int),
{
    if v > MAX_RAW as i128 {
        Fx { raw: MAX_RAW }
    } else if v < -(MAX_RAW as i128) {
        Fx { raw: -MAX_RAW }
    } else {
        Fx { raw: v as i64 }
    }
}

/// Truncating division of a wide numerator, clamped into a scalar.
fn div_sat(n: i128, d: i128) -> (f: Fx)
    requires
        d != 0,
        -0x1000_0000_0000_0000_0000_0000_0000_0000 < n,
        -0x1000_0000_0000_0000_0000_0000_0000_0000 < d,
    ensures
        f@ == sat(tdiv(n as int, d as int)),
{
    let nu: u128 = if n < 0 {
        (-n) as u128
    } else {
        n as u128
    };
    let du: u128 = if d < 0 {
        (-d) as u128
    } else {
        d as u128
    };
    let q: u128 = nu / du;
    proof {
        assert(nu as int == iabs(n as int));
        assert(du as int == iabs(d as int));
    }
    if (n < 0) != (d < 0) {
        if q > MAX_RAW as u128 {
            Fx { raw: -MAX_RAW }
        } else {
            Fx { raw: -(q as i64) }
        }
    } else {
        if q > MAX_RAW as u128 {
            Fx { raw: MAX_RAW }
        } else {
            Fx { raw: q as i64 }
        }
    }
}

/// Integer square root by bisection.
fn isqrt_u64(n: u64) -> (r: u64)
    requires
        n < 0x400_0000_0000_0000,
    ensures
        is_sqrt(n as int, r as int),
{
    let mut lo: u64 = 0;
    let mut hi: u64 = 0x2000_0000;
    proof {
        assert((0x2000_0000 as int) * (0x2000_0000 as int) == 0x400_0000_0000_0000);
    }
    while lo + 1 < hi
        invariant
            lo < hi <= 0x2000_0000,
            (lo as int) * (lo as int) <= n as int,
            (n as int) < (hi as int) * (hi as int),
        decreases hi - lo,
    {
        let mid: u64 = lo + (hi - lo) / 2;
        proof {
            lemma_mul_bound(mid as int, mid as int, 0x2000_0000);
        }
        if mid * mid <= n {
            lo = mid;
        } else {
            hi = mid;
        }
    }
    lo
}

} // verus!
