//! The record of a successful ray/surface intersection.

use vstd::prelude::*;

use crate::fixed::Fixed;
use crate::material::Material;
use crate::ray::Ray;
use crate::vec3::{vdot, vneg, Vec3, V3};

verus! {

/// Model of the normal stored in a hit record: the outward normal if the ray
/// arrives against it, its negation otherwise, so the stored normal always
/// opposes the incoming direction.
pub open spec fn oriented_normal(direction: V3, outward: V3) -> V3 {
    if vdot(direction, outward) < 0 {
        outward
    } else {
        vneg(outward)
    }
}

/// Whether the geometric outward normal already opposed the incoming ray
/// (the hit is on the front face of the surface).
pub open spec fn is_front_face(direction: V3, outward: V3) -> bool {
    vdot(direction, outward) < 0
}

/// Everything the shading step needs to know about one intersection:
/// the hit point, the normal oriented against the incoming ray, the ray
/// parameter, which face was struck, and the material at the hit.
#[derive(Clone, Copy)]
pub struct HitRecord {
    pub p: Vec3,
    pub normal: Vec3,
    pub material: Material,
    pub t: Fixed,
    pub front_face: bool,
}

impl HitRecord {
    /// Build a record from the geometric outward normal, orienting the stored
    /// normal against the incoming ray and remembering which face was struck.
    pub fn new(p: Vec3, t: Fixed, outward_normal: Vec3, r: Ray, material: Material) -> (hr:
        HitRecord)
        ensures
            hr.p == p,
            hr.t == t,
            hr.material == material,
            hr.front_face == is_front_face(r@.direction, outward_normal@),
            hr.normal@ == oriented_normal(r@.direction, outward_normal@),
    {
        let front_face = Vec3::dot(r.direction, outward_normal).lt(Fixed::zero());
        let normal = if front_face {
            outward_normal
        } else {
            outward_normal.neg()
        };
        HitRecord { p, normal, t, front_face, material }
    }
}

} // verus!
