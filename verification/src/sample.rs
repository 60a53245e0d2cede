//! Randomness for the Monte-Carlo estimator.
//!
//! The single source of entropy is one trusted call into the `rand` crate;
//! everything derived from it (fractions, points in the unit sphere or disk,
//! unit vectors) is verified code whose contracts state what holds of every
//! possible outcome. Rejection sampling is bounded, with a fixed in-range
//! fallback, so termination is unconditional.

use vstd::prelude::*;

use crate::fixed::{Fixed, SCALE};
use crate::vec3::{vlen2, vunit, Vec3, V3};

verus! {

/// Relies on `rand::random`, which draws from the thread-local generator:
/// the result is an arbitrary `u64`; nothing is assumed of its value.
#[verifier::external_body]
fn random_u64() -> u64 {
    rand::random::<u64>()
}

/// A random scalar in `[0, 1)`.
pub fn random_fraction() -> (r: Fixed)
    ensures
        0 <= r@ < SCALE as int,
{
    let u: u64 = random_u64() % 1_000_000;
    Fixed::from_raw(u as i128)
}

/// A random scalar in `(-1, 1)`.
pub fn random_symmetric() -> (r: Fixed)
    ensures
        -(SCALE as int) < r@ < SCALE as int,
{
    let u: u64 = random_u64() % 1_999_999;
    Fixed::from_raw(u as i128 - 999_999)
}

/// A random scalar in `[min, min + (max-min))`, as `min + (max-min)*u` for
/// some fraction `u` in `[0, 1)`.
pub fn random_between(min: Fixed, max: Fixed) -> (r: Fixed)
    ensures
        exists|u: int|
            0 <= u < SCALE as int && r@ == crate::fixed::fadd(
                min@,
                crate::fixed::fmul(crate::fixed::fsub(max@, min@), u),
            ),
        0 <= min@ <= max@ <= SCALE as int ==> min@ <= r@ <= max@,
{
    let u = random_fraction();
    let d = max.sub(min);
    let m = d.mul(u);
    let r = min.add(m);
    proof {
        assert(0 <= u@ < SCALE as int);
        if 0 <= min@ <= max@ <= SCALE as int {
            crate::fixed::lemma_fmul_unit_range(d@, u@);
        }
        assert(r@ == crate::fixed::fadd(
            min@,
            crate::fixed::fmul(crate::fixed::fsub(max@, min@), u@),
        ));
    }
    r
}

/// A random point strictly inside the unit sphere and of nonzero length at
/// this resolution, by bounded rejection sampling.
pub fn random_in_unit_sphere() -> (r: Vec3)
    ensures
        0 < vlen2(r@) < SCALE as int,
{
    let mut tries: u32 = 0;
    while tries < 64
        invariant
            tries <= 64,
        decreases 64 - tries,
    {
        let p = Vec3::new(random_symmetric(), random_symmetric(), random_symmetric());
        let l2 = p.length_squared();
        if l2.gt(Fixed::zero()) && l2.lt(Fixed::one()) {
            return p;
        }
        tries = tries + 1;
    }
    let half = Fixed::from_ratio(1, 2);
    let p = Vec3::new(half, Fixed::zero(), Fixed::zero());
    proof {
        assert(half@ == 500_000int);
        assert(vlen2(p@) == 250_000int);
    }
    p
}

/// What the unit-vector sampler can hand back: the normalization of some
/// nonzero point of the unit sphere.
pub open spec fn is_unit_sample(s: V3) -> bool {
    exists|p: V3| 0 < vlen2(p) < SCALE as int && s == vunit(p)
}

/// A random unit vector: the normalization of a random point in the unit
/// sphere.
pub fn random_unit_vector() -> (r: Vec3)
    ensures
        is_unit_sample(r@),
{
    let p = random_in_unit_sphere();
    let r = Vec3::unit_vector(p);
    proof {
        assert(0 < vlen2(p@) < SCALE as int && r@ == vunit(p@));
    }
    r
}

/// A random point strictly inside the unit disk of the `x`-`y` plane, by
/// bounded rejection sampling.
pub fn random_in_unit_disk() -> (r: Vec3)
    ensures
        vlen2(r@) < SCALE as int,
        r@.z == 0,
{
    let mut tries: u32 = 0;
    while tries < 64
        invariant
            tries <= 64,
        decreases 64 - tries,
    {
        let p = Vec3::new(random_symmetric(), random_symmetric(), Fixed::zero());
        let l2 = p.length_squared();
        if l2.lt(Fixed::one()) {
            return p;
        }
        tries = tries + 1;
    }
    let p = Vec3::zero();
    proof {
        assert(vlen2(p@) == 0int);
    }
    p
}

} // verus!
