//! A saturating decimal fixed-point scalar.
//!
//! Every geometric quantity of the tracer is a [`Fixed`]: an `i128` count of
//! millionths. Arithmetic truncates toward zero at the sixth decimal place and
//! saturates at `±MAX_RAW` millionths, so every operation is total and its
//! result is pinned down exactly by the spec functions of this module
//! ([`fadd`], [`fmul`], [`fdiv`], [`fsqrt`], ...), which the contracts of the
//! rest of the crate are written over.

use vstd::prelude::*;

verus! {

/// Number of raw units per whole unit: `Fixed` counts millionths.
pub const SCALE: i128 = 1_000_000;

/// Largest raw magnitude a `Fixed` can carry (a value of one trillion).
/// Small enough that the product of two raw values fits an `i128`.
pub const MAX_RAW: i128 = 1_000_000_000_000_000_000;

/// Saturation of a mathematical result into the representable raw range.
pub open spec fn sat(x: int) -> int {
    if x > MAX_RAW as int {
        MAX_RAW as int
    } else if x < -(MAX_RAW as int) {
        -(MAX_RAW as int)
    } else {
        x
    }
}

/// Division truncating toward zero, for a positive divisor.
pub open spec fn tdivp(a: int, b: int) -> int {
    if a >= 0 {
        a / b
    } else {
        -((-a) / b)
    }
}

/// Division truncating toward zero, for any nonzero divisor.
pub open spec fn tdiv(a: int, b: int) -> int {
    if b >= 0 {
        tdivp(a, b)
    } else {
        -tdivp(a, -b)
    }
}

/// Model of fixed-point addition.
pub open spec fn fadd(a: int, b: int) -> int {
    sat(a + b)
}

/// Model of fixed-point subtraction.
pub open spec fn fsub(a: int, b: int) -> int {
    sat(a - b)
}

/// Model of fixed-point negation.
pub open spec fn fneg(a: int) -> int {
    sat(-a)
}

/// Model of fixed-point multiplication: the exact product, truncated toward
/// zero at the sixth decimal place, then saturated.
pub open spec fn fmul(a: int, b: int) -> int {
    sat(tdivp(a * b, SCALE as int))
}

/// Model of fixed-point division (truncating toward zero, saturated).
pub open spec fn fdiv(a: int, b: int) -> int {
    sat(tdiv(a * SCALE, b))
}

/// `r` is the integer square root of `n`.
pub open spec fn is_sqrt(n: int, r: int) -> bool {
    0 <= r && r * r <= n && n < (r + 1) * (r + 1)
}

/// The integer square root of a nonnegative `n`.
pub open spec fn isqrt(n: int) -> int {
    choose|r: int| is_sqrt(n, r)
}

/// Model of fixed-point square root: nonpositive inputs are mapped to zero,
/// so the operation is total.
pub open spec fn fsqrt(a: int) -> int {
    if a <= 0 {
        0
    } else {
        isqrt(a * SCALE)
    }
}

/// Model of fixed-point minimum.
pub open spec fn fmin(a: int, b: int) -> int {
    if a <= b {
        a
    } else {
        b
    }
}

/// Model of fixed-point maximum.
pub open spec fn fmax(a: int, b: int) -> int {
    if a >= b {
        a
    } else {
        b
    }
}

/// Model of clamping into `[lo, hi]`.
pub open spec fn fclamp(x: int, lo: int, hi: int) -> int {
    fmin(fmax(x, lo), hi)
}

/// The integer square root is unique.
pub proof fn lemma_is_sqrt_unique(n: int, r1: int, r2: int)
    by (nonlinear_arith)
    requires
        is_sqrt(n, r1),
        is_sqrt(n, r2),
    ensures
        r1 == r2,
{
}

/// Whenever a witness shows `r` to be the integer square root of `n`,
/// `isqrt(n)` equals that witness.
pub proof fn lemma_isqrt_is(n: int, r: int)
    requires
        is_sqrt(n, r),
    ensures
        isqrt(n) == r,
{
    assert(is_sqrt(n, isqrt(n)));
    lemma_is_sqrt_unique(n, r, isqrt(n));
}

/// Truncating division by a positive divisor is monotone in the dividend.
pub proof fn lemma_tdivp_monotone(a1: int, a2: int, b: int)
    by (nonlinear_arith)
    requires
        a1 <= a2,
        b > 0,
    ensures
        tdivp(a1, b) <= tdivp(a2, b),
{
}

/// Truncating division keeps the sign of the dividend (positive divisor).
pub proof fn lemma_tdivp_sign(a: int, b: int)
    by (nonlinear_arith)
    requires
        b > 0,
    ensures
        a >= 0 ==> tdivp(a, b) >= 0,
        a <= 0 ==> tdivp(a, b) <= 0,
        tdivp(0, b) == 0,
{
}

/// Truncating division shrinks the magnitude when the divisor is at least one.
pub proof fn lemma_tdivp_bound(a: int, b: int)
    by (nonlinear_arith)
    requires
        b >= 1,
    ensures
        a >= 0 ==> 0 <= tdivp(a, b) <= a,
        a < 0 ==> a <= tdivp(a, b) <= 0,
{
}

/// Multiplying by zero gives zero.
pub proof fn lemma_fmul_zero(a: int)
    ensures
        fmul(a, 0) == 0,
        fmul(0, a) == 0,
{
    assert(a * 0 == 0 && 0 * a == 0) by (nonlinear_arith);
}

/// A product of nonnegative scalars is nonnegative.
pub proof fn lemma_fmul_nonneg(a: int, b: int)
    requires
        a >= 0,
        b >= 0,
    ensures
        fmul(a, b) >= 0,
{
    assert(a * b >= 0) by (nonlinear_arith)
        requires
            a >= 0,
            b >= 0,
    ;
    lemma_tdivp_sign(a * b, SCALE as int);
}

/// A product of scalars within `[0, 1]` stays within `[0, 1]`.
pub proof fn lemma_fmul_unit_range(a: int, b: int)
    requires
        0 <= a <= SCALE as int,
        0 <= b <= SCALE as int,
    ensures
        0 <= fmul(a, b) <= fmin(a, b),
{
    assert(0 <= a * b <= fmin(a, b) * SCALE) by (nonlinear_arith)
        requires
            0 <= a <= SCALE as int,
            0 <= b <= SCALE as int,
    ;
    lemma_tdivp_sign(a * b, SCALE as int);
    vstd::arithmetic::div_mod::lemma_div_is_ordered(a * b, fmin(a, b) * SCALE, SCALE as int);
    vstd::arithmetic::div_mod::lemma_div_by_multiple(fmin(a, b), SCALE as int);
}

/// A square is nonnegative.
pub proof fn lemma_fmul_square_nonneg(a: int)
    ensures
        fmul(a, a) >= 0,
{
    assert(a * a >= 0) by (nonlinear_arith);
    lemma_tdivp_sign(a * a, SCALE as int);
}

/// Every nonnegative integer has an integer square root.
pub proof fn lemma_isqrt_exists(n: int)
    requires
        n >= 0,
    ensures
        is_sqrt(n, isqrt(n)),
    decreases n,
{
    if n == 0 {
        assert(is_sqrt(0, 0)) by (nonlinear_arith);
    } else {
        lemma_isqrt_exists(n - 1);
        let r = isqrt(n - 1);
        if (r + 1) * (r + 1) <= n {
            assert(is_sqrt(n, r + 1)) by (nonlinear_arith)
                requires
                    is_sqrt(n - 1, r),
                    (r + 1) * (r + 1) <= n,
            ;
        } else {
            assert(is_sqrt(n, r));
        }
    }
    assert(exists|r: int| is_sqrt(n, r));
}

/// The fixed-point square root is nonnegative and, for inputs up to one,
/// at most one.
pub proof fn lemma_fsqrt_range(a: int)
    ensures
        fsqrt(a) >= 0,
        a <= SCALE as int ==> fsqrt(a) <= SCALE as int,
{
    if a > 0 {
        assert(a * SCALE >= 0) by (nonlinear_arith)
            requires
                a > 0,
                SCALE == 1_000_000i128,
        ;
        lemma_isqrt_exists(a * SCALE);
        let r = isqrt(a * SCALE);
        if a <= SCALE as int {
            assert(a * SCALE <= SCALE as int * SCALE) by (nonlinear_arith)
                requires
                    a <= SCALE as int,
                    SCALE == 1_000_000i128,
            ;
            assert(r <= SCALE as int) by (nonlinear_arith)
                requires
                    is_sqrt(a * SCALE, r),
                    a * SCALE <= SCALE as int * SCALE,
                    SCALE == 1_000_000i128,
            ;
        }
    }
}

/// Fixed-point division is monotone in the dividend (positive divisor).
pub proof fn lemma_fdiv_monotone(a1: int, a2: int, b: int)
    requires
        a1 <= a2,
        b > 0,
    ensures
        fdiv(a1, b) <= fdiv(a2, b),
{
    lemma_tdivp_monotone(a1 * SCALE, a2 * SCALE, b);
}

/// Multiplying a scalar by one gives it back, saturated.
pub proof fn lemma_fmul_one(a: int)
    ensures
        fmul(a, SCALE as int) == sat(a),
        fmul(SCALE as int, a) == sat(a),
{
    if a >= 0 {
        vstd::arithmetic::div_mod::lemma_div_multiples_vanish(a, SCALE as int);
    } else {
        vstd::arithmetic::div_mod::lemma_div_multiples_vanish(-a, SCALE as int);
    }
    assert(a * SCALE == SCALE as int * a) by (nonlinear_arith);
}

/// The scalar type: a count of millionths, kept within `±MAX_RAW`.
#[derive(Clone, Copy, PartialEq, Eq, Structural)]
pub struct Fixed {
    raw: i128,
}

impl View for Fixed {
    type V = int;

    closed spec fn view(&self) -> int {
        self.raw as int
    }
}

impl Fixed {
    /// The type invariant: every scalar stays within the saturation range.
    #[verifier::type_invariant]
    pub closed spec fn inv(self) -> bool {
        -(MAX_RAW as int) <= self.raw <= MAX_RAW as int
    }

    /// What the type invariant gives a caller: the view is in range.
    pub broadcast proof fn lemma_inv_range(self)
        requires
            #[trigger] self.inv(),
        ensures
            -(MAX_RAW as int) <= self@ <= MAX_RAW as int,
    {
    }

    /// Build a scalar from a raw count of millionths, saturating.
    pub fn from_raw(x: i128) -> (r: Fixed)
        ensures
            r@ == sat(x as int),
    {
        if x > MAX_RAW {
            Fixed { raw: MAX_RAW }
        } else if x < -MAX_RAW {
            Fixed { raw: -MAX_RAW }
        } else {
            Fixed { raw: x }
        }
    }

    /// The raw count of millionths.
    pub fn raw(self) -> (r: i128)
        ensures
            r as int == self@,
    {
        self.raw
    }

    /// The whole number `i`, saturated.
    pub fn from_int(i: i64) -> (r: Fixed)
        ensures
            r@ == sat(i * SCALE),
    {
        Fixed::from_raw((i as i128) * SCALE)
    }

    /// The whole number `u`, saturated.
    pub fn from_u64(u: u64) -> (r: Fixed)
        ensures
            r@ == sat(u * SCALE),
    {
        Fixed::from_raw((u as i128) * SCALE)
    }

    /// The fraction `n / d`, truncated toward zero at the sixth decimal
    /// place and saturated.
    pub fn from_ratio(n: i64, d: i64) -> (r: Fixed)
        requires
            d != 0,
        ensures
            r@ == sat(tdiv(n * SCALE, d as int)),
    {
        let num: i128 = (n as i128) * SCALE;
        if d >= 0 {
            Fixed::from_raw(Fixed::tdiv_exec(num, d as i128))
        } else {
            let q = Fixed::tdiv_exec(num, -(d as i128));
            Fixed::from_raw(-q)
        }
    }

    /// Zero.
    pub fn zero() -> (r: Fixed)
        ensures
            r@ == 0,
    {
        Fixed { raw: 0 }
    }

    /// One.
    pub fn one() -> (r: Fixed)
        ensures
            r@ == SCALE as int,
    {
        Fixed { raw: SCALE }
    }

    /// Truncating division by a positive divisor, on raw values.
    fn tdiv_exec(a: i128, b: i128) -> (r: i128)
        requires
            b > 0,
            -(i128::MAX as int) <= a,
        ensures
            r as int == tdivp(a as int, b as int),
            a >= 0 ==> 0 <= r <= a,
            a < 0 ==> a <= r <= 0,
    {
        proof {
            lemma_tdivp_bound(a as int, b as int);
        }
        if a >= 0 {
            a / b
        } else {
            -((-a) / b)
        }
    }

    fn saturate(x: i128) -> (r: Fixed)
        ensures
            r@ == sat(x as int),
    {
        Fixed::from_raw(x)
    }

    /// Fixed-point addition (saturating).
    pub fn add(self, other: Fixed) -> (r: Fixed)
        ensures
            r@ == fadd(self@, other@),
    {
        proof {
            use_type_invariant(&self);
            use_type_invariant(&other);
        }
        Fixed::saturate(self.raw + other.raw)
    }

    /// Fixed-point subtraction (saturating).
    pub fn sub(self, other: Fixed) -> (r: Fixed)
        ensures
            r@ == fsub(self@, other@),
    {
        proof {
            use_type_invariant(&self);
            use_type_invariant(&other);
        }
        Fixed::saturate(self.raw - other.raw)
    }

    /// Fixed-point negation.
    pub fn neg(self) -> (r: Fixed)
        ensures
            r@ == fneg(self@),
    {
        proof {
            use_type_invariant(&self);
        }
        Fixed { raw: -self.raw }
    }

    /// Fixed-point multiplication: exact product, truncated toward zero at
    /// the sixth decimal place, then saturated.
    pub fn mul(self, other: Fixed) -> (r: Fixed)
        ensures
            r@ == fmul(self@, other@),
    {
        proof {
            use_type_invariant(&self);
            use_type_invariant(&other);
            assert(-(i128::MAX as int) < self.raw * other.raw < i128::MAX as int)
                by (nonlinear_arith)
                requires
                    -(MAX_RAW as int) <= self.raw <= MAX_RAW as int,
                    -(MAX_RAW as int) <= other.raw <= MAX_RAW as int,
            ;
        }
        let p: i128 = self.raw * other.raw;
        Fixed::saturate(Fixed::tdiv_exec(p, SCALE))
    }

    /// Fixed-point division (truncating toward zero, saturating).
    pub fn div(self, other: Fixed) -> (r: Fixed)
        requires
            other@ != 0,
        ensures
            r@ == fdiv(self@, other@),
    {
        proof {
            use_type_invariant(&self);
            use_type_invariant(&other);
        }
        let num: i128 = self.raw * SCALE;
        if other.raw >= 0 {
            Fixed::saturate(Fixed::tdiv_exec(num, other.raw))
        } else {
            let q = Fixed::tdiv_exec(num, -other.raw);
            Fixed::saturate(-q)
        }
    }

    /// Fixed-point square root; nonpositive inputs give zero.
    pub fn sqrt(self) -> (r: Fixed)
        ensures
            r@ == fsqrt(self@),
            r@ >= 0,
    {
        proof {
            use_type_invariant(&self);
        }
        if self.raw <= 0 {
            Fixed { raw: 0 }
        } else {
            let n: i128 = self.raw * SCALE;
            let r = Fixed::isqrt_exec(n);
            proof {
                lemma_isqrt_is(n as int, r as int);
            }
            Fixed { raw: r }
        }
    }

    /// Integer square root of a raw product, by bisection.
    fn isqrt_exec(n: i128) -> (r: i128)
        requires
            0 <= n <= MAX_RAW as int * SCALE as int,
        ensures
            is_sqrt(n as int, r as int),
            0 <= r <= 1_000_000_000_000i128,
    {
        let mut lo: i128 = 0;
        let mut hi: i128 = 1_000_000_000_001;
        proof {
            assert(n < hi * hi) by (nonlinear_arith)
                requires
                    n <= MAX_RAW as int * SCALE as int,
                    hi == 1_000_000_000_001int,
            ;
        }
        while lo + 1 < hi
            invariant
                0 <= lo < hi <= 1_000_000_000_001i128,
                lo * lo <= n,
                n < hi * hi,
                0 <= n <= MAX_RAW as int * SCALE as int,
            decreases hi - lo,
        {
            let mid: i128 = lo + (hi - lo) / 2;
            assert(lo < mid < hi);
            proof {
                assert(0 <= mid * mid < i128::MAX as int) by (nonlinear_arith)
                    requires
                        0 < mid <= 1_000_000_000_001int,
                ;
            }
            if mid * mid <= n {
                lo = mid;
            } else {
                hi = mid;
            }
        }
        lo
    }

    /// Fixed-point minimum.
    pub fn min(self, other: Fixed) -> (r: Fixed)
        ensures
            r@ == fmin(self@, other@),
    {
        if self.raw <= other.raw {
            self
        } else {
            other
        }
    }

    /// Fixed-point maximum.
    pub fn max(self, other: Fixed) -> (r: Fixed)
        ensures
            r@ == fmax(self@, other@),
    {
        if self.raw >= other.raw {
            self
        } else {
            other
        }
    }

    /// Clamp into `[lo, hi]`.
    pub fn clamp(self, lo: Fixed, hi: Fixed) -> (r: Fixed)
        ensures
            r@ == fclamp(self@, lo@, hi@),
    {
        self.max(lo).min(hi)
    }

    /// Absolute value.
    pub fn abs(self) -> (r: Fixed)
        ensures
            r@ == if self@ >= 0 { self@ } else { -self@ },
    {
        proof {
            use_type_invariant(&self);
        }
        if self.raw >= 0 {
            self
        } else {
            Fixed { raw: -self.raw }
        }
    }

    /// Strictly less.
    pub fn lt(self, other: Fixed) -> (r: bool)
        ensures
            r == (self@ < other@),
    {
        self.raw < other.raw
    }

    /// Less or equal.
    pub fn le(self, other: Fixed) -> (r: bool)
        ensures
            r == (self@ <= other@),
    {
        self.raw <= other.raw
    }

    /// Strictly greater.
    pub fn gt(self, other: Fixed) -> (r: bool)
        ensures
            r == (self@ > other@),
    {
        self.raw > other.raw
    }

    /// Greater or equal.
    pub fn ge(self, other: Fixed) -> (r: bool)
        ensures
            r == (self@ >= other@),
    {
        self.raw >= other.raw
    }

    /// The whole part, truncated toward zero.
    pub fn trunc_units(self) -> (r: i128)
        ensures
            r as int == tdivp(self@, SCALE as int),
    {
        proof {
            use_type_invariant(&self);
        }
        Fixed::tdiv_exec(self.raw, SCALE)
    }
}

} // verus!
