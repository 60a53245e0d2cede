//! Three-component vectors over the fixed-point scalar.
//!
//! A `Vec3` is read contextually as a point, a direction, or an RGB color.
//! Its mathematical model is [`V3`], a triple of raw scalar values; every
//! operation's contract states the resulting triple exactly through the
//! model functions of this module.

use vstd::prelude::*;

use crate::fixed::{fadd, fdiv, fmin, fmul, fneg, fsqrt, fsub, Fixed, SCALE};

verus! {

/// The model of a vector: its three raw scalar values.
pub struct V3 {
    pub x: int,
    pub y: int,
    pub z: int,
}

/// Model of vector addition.
pub open spec fn vadd(a: V3, b: V3) -> V3 {
    V3 { x: fadd(a.x, b.x), y: fadd(a.y, b.y), z: fadd(a.z, b.z) }
}

/// Model of vector subtraction.
pub open spec fn vsub(a: V3, b: V3) -> V3 {
    V3 { x: fsub(a.x, b.x), y: fsub(a.y, b.y), z: fsub(a.z, b.z) }
}

/// Model of vector negation.
pub open spec fn vneg(a: V3) -> V3 {
    V3 { x: fneg(a.x), y: fneg(a.y), z: fneg(a.z) }
}

/// Model of scaling by a scalar.
pub open spec fn vscale(a: V3, s: int) -> V3 {
    V3 { x: fmul(a.x, s), y: fmul(a.y, s), z: fmul(a.z, s) }
}

/// Model of the componentwise (Hadamard) product, used for colors.
pub open spec fn vcmul(a: V3, b: V3) -> V3 {
    V3 { x: fmul(a.x, b.x), y: fmul(a.y, b.y), z: fmul(a.z, b.z) }
}

/// Model of componentwise division by a scalar.
pub open spec fn vdivs(a: V3, s: int) -> V3 {
    V3 { x: fdiv(a.x, s), y: fdiv(a.y, s), z: fdiv(a.z, s) }
}

/// Model of the dot product (summed left to right).
pub open spec fn vdot(a: V3, b: V3) -> int {
    fadd(fadd(fmul(a.x, b.x), fmul(a.y, b.y)), fmul(a.z, b.z))
}

/// Model of the cross product.
pub open spec fn vcross(a: V3, b: V3) -> V3 {
    V3 {
        x: fsub(fmul(a.y, b.z), fmul(a.z, b.y)),
        y: fsub(fmul(a.z, b.x), fmul(a.x, b.z)),
        z: fsub(fmul(a.x, b.y), fmul(a.y, b.x)),
    }
}

/// Model of the squared length.
pub open spec fn vlen2(a: V3) -> int {
    vdot(a, a)
}

/// Model of the length.
pub open spec fn vlen(a: V3) -> int {
    fsqrt(vlen2(a))
}

/// The zero vector.
pub open spec fn vzero() -> V3 {
    V3 { x: 0, y: 0, z: 0 }
}

/// The all-ones vector (the identity color).
pub open spec fn vone() -> V3 {
    V3 { x: SCALE as int, y: SCALE as int, z: SCALE as int }
}

/// A vector whose components all vanish at this resolution.
pub open spec fn vnear_zero(a: V3) -> bool {
    a.x == 0 && a.y == 0 && a.z == 0
}

/// Model of normalization; a vector of zero length is left as the zero
/// vector, so the operation is total.
pub open spec fn vunit(a: V3) -> V3 {
    if vlen(a) == 0 {
        vzero()
    } else {
        vdivs(a, vlen(a))
    }
}

/// Model of mirror reflection: `d - 2*dot(d, n)*n`.
pub open spec fn vreflect(d: V3, n: V3) -> V3 {
    vsub(d, vscale(n, fmul(2 * SCALE, vdot(d, n))))
}

/// Model of Snell refraction of the unit direction `uv` at a surface with
/// unit normal `n`, for the ratio of refractive indices `etai_over_etat`.
pub open spec fn vrefract(uv: V3, n: V3, etai_over_etat: int) -> V3 {
    let cos_theta = fmin(vdot(vneg(uv), n), SCALE as int);
    let r_out_perp = vscale(vadd(uv, vscale(n, cos_theta)), etai_over_etat);
    let r_out_parallel = vscale(n, fneg(fsqrt(fsub(SCALE as int, vlen2(r_out_perp)))));
    vadd(r_out_perp, r_out_parallel)
}

/// A squared length is nonnegative.
pub proof fn lemma_vlen2_nonneg(a: V3)
    ensures
        vlen2(a) >= 0,
{
    crate::fixed::lemma_fmul_square_nonneg(a.x);
    crate::fixed::lemma_fmul_square_nonneg(a.y);
    crate::fixed::lemma_fmul_square_nonneg(a.z);
}

/// Scaling by zero gives the zero vector.
pub proof fn lemma_vscale_zero(a: V3)
    ensures
        vscale(a, 0) == vzero(),
{
    crate::fixed::lemma_fmul_zero(a.x);
    crate::fixed::lemma_fmul_zero(a.y);
    crate::fixed::lemma_fmul_zero(a.z);
}

/// All components nonnegative (a well-formed color).
pub open spec fn vnonneg(a: V3) -> bool {
    a.x >= 0 && a.y >= 0 && a.z >= 0
}

/// All components within `[0, 1]` (a reflective color).
pub open spec fn vcolor01(a: V3) -> bool {
    0 <= a.x <= SCALE as int && 0 <= a.y <= SCALE as int && 0 <= a.z <= SCALE as int
}

/// A three-component fixed-point vector.
#[derive(Clone, Copy, PartialEq, Eq, Structural)]
pub struct Vec3 {
    pub x: Fixed,
    pub y: Fixed,
    pub z: Fixed,
}

impl View for Vec3 {
    type V = V3;

    open spec fn view(&self) -> V3 {
        V3 { x: self.x@, y: self.y@, z: self.z@ }
    }
}

impl Vec3 {
    /// Build a vector from its components.
    pub fn new(x: Fixed, y: Fixed, z: Fixed) -> (r: Vec3)
        ensures
            r@ == (V3 { x: x@, y: y@, z: z@ }),
    {
        Vec3 { x, y, z }
    }

    /// The zero vector.
    pub fn zero() -> (r: Vec3)
        ensures
            r@ == vzero(),
    {
        Vec3 { x: Fixed::zero(), y: Fixed::zero(), z: Fixed::zero() }
    }

    /// The all-ones vector (identity color).
    pub fn one() -> (r: Vec3)
        ensures
            r@ == vone(),
    {
        Vec3 { x: Fixed::one(), y: Fixed::one(), z: Fixed::one() }
    }

    /// Vector addition.
    pub fn add(self, other: Vec3) -> (r: Vec3)
        ensures
            r@ == vadd(self@, other@),
    {
        Vec3 { x: self.x.add(other.x), y: self.y.add(other.y), z: self.z.add(other.z) }
    }

    /// Vector subtraction.
    pub fn sub(self, other: Vec3) -> (r: Vec3)
        ensures
            r@ == vsub(self@, other@),
    {
        Vec3 { x: self.x.sub(other.x), y: self.y.sub(other.y), z: self.z.sub(other.z) }
    }

    /// Vector negation.
    pub fn neg(self) -> (r: Vec3)
        ensures
            r@ == vneg(self@),
    {
        Vec3 { x: self.x.neg(), y: self.y.neg(), z: self.z.neg() }
    }

    /// Scale by a scalar.
    pub fn scale(self, s: Fixed) -> (r: Vec3)
        ensures
            r@ == vscale(self@, s@),
    {
        Vec3 { x: self.x.mul(s), y: self.y.mul(s), z: self.z.mul(s) }
    }

    /// Componentwise product (color attenuation).
    pub fn cmul(self, other: Vec3) -> (r: Vec3)
        ensures
            r@ == vcmul(self@, other@),
    {
        Vec3 { x: self.x.mul(other.x), y: self.y.mul(other.y), z: self.z.mul(other.z) }
    }

    /// Componentwise division by a scalar.
    pub fn divs(self, s: Fixed) -> (r: Vec3)
        requires
            s@ != 0,
        ensures
            r@ == vdivs(self@, s@),
    {
        Vec3 { x: self.x.div(s), y: self.y.div(s), z: self.z.div(s) }
    }

    /// Dot product.
    pub fn dot(a: Vec3, b: Vec3) -> (r: Fixed)
        ensures
            r@ == vdot(a@, b@),
    {
        a.x.mul(b.x).add(a.y.mul(b.y)).add(a.z.mul(b.z))
    }

    /// Cross product.
    pub fn cross(a: Vec3, b: Vec3) -> (r: Vec3)
        ensures
            r@ == vcross(a@, b@),
    {
        Vec3 {
            x: a.y.mul(b.z).sub(a.z.mul(b.y)),
            y: a.z.mul(b.x).sub(a.x.mul(b.z)),
            z: a.x.mul(b.y).sub(a.y.mul(b.x)),
        }
    }

    /// Squared length.
    pub fn length_squared(self) -> (r: Fixed)
        ensures
            r@ == vlen2(self@),
    {
        Vec3::dot(self, self)
    }

    /// Length.
    pub fn length(self) -> (r: Fixed)
        ensures
            r@ == vlen(self@),
    {
        self.length_squared().sqrt()
    }

    /// Normalize; a vector of zero length is returned as the zero vector.
    pub fn unit_vector(v: Vec3) -> (r: Vec3)
        ensures
            r@ == vunit(v@),
    {
        let len = v.length();
        if len.raw() == 0 {
            Vec3::zero()
        } else {
            v.divs(len)
        }
    }

    /// True when every component vanishes at this resolution.
    pub fn near_zero(&self) -> (r: bool)
        ensures
            r == vnear_zero(self@),
    {
        self.x.raw() == 0 && self.y.raw() == 0 && self.z.raw() == 0
    }

    /// Mirror reflection of `d` about the normal `n`.
    pub fn reflect(d: Vec3, n: Vec3) -> (r: Vec3)
        ensures
            r@ == vreflect(d@, n@),
    {
        let k = Fixed::from_int(2).mul(Vec3::dot(d, n));
        d.sub(n.scale(k))
    }

    /// Snell refraction of the unit direction `uv` at unit normal `n`.
    pub fn refract(uv: Vec3, n: Vec3, etai_over_etat: Fixed) -> (r: Vec3)
        ensures
            r@ == vrefract(uv@, n@, etai_over_etat@),
    {
        let cos_theta = Vec3::dot(uv.neg(), n).min(Fixed::one());
        let r_out_perp = uv.add(n.scale(cos_theta)).scale(etai_over_etat);
        let r_out_parallel = n.scale(
            Fixed::one().sub(r_out_perp.length_squared()).sqrt().neg(),
        );
        r_out_perp.add(r_out_parallel)
    }
}

} // verus!
