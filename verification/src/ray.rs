//! Rays: a half-line from an origin along a direction.

use vstd::prelude::*;

use crate::fixed::Fixed;
use crate::vec3::{vadd, vscale, Vec3, V3};

verus! {

/// The model of a ray: origin and direction triples.
pub struct RayV {
    pub origin: V3,
    pub direction: V3,
}

/// Model of the point reached at parameter `t`: `origin + t*direction`.
pub open spec fn ray_at(r: RayV, t: int) -> V3 {
    vadd(r.origin, vscale(r.direction, t))
}

/// A ray. The direction is not required to be unit length; callers normalize
/// where the algorithm depends on it.
#[derive(Clone, Copy)]
pub struct Ray {
    pub origin: Vec3,
    pub direction: Vec3,
}

impl View for Ray {
    type V = RayV;

    open spec fn view(&self) -> RayV {
        RayV { origin: self.origin@, direction: self.direction@ }
    }
}

impl Ray {
    /// Build a ray.
    pub fn new(origin: Vec3, direction: Vec3) -> (r: Ray)
        ensures
            r.origin == origin,
            r.direction == direction,
    {
        Ray { origin, direction }
    }

    /// The point reached at parameter `t`.
    pub fn at(&self, t: Fixed) -> (r: Vec3)
        ensures
            r@ == ray_at(self@, t@),
    {
        self.origin.add(self.direction.scale(t))
    }
}

} // verus!
