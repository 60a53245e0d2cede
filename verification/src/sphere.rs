//! The one concrete surface: a sphere, intersected in closed form.

use vstd::prelude::*;

use crate::fixed::{fadd, fdiv, fmul, fneg, fsqrt, fsub, Fixed};
use crate::hittable::{is_front_face, oriented_normal, HitRecord};
use crate::material::Material;
use crate::ray::{ray_at, Ray, RayV};
use crate::vec3::{vdivs, vdot, vlen2, vsub, Vec3, V3};

verus! {

/// A sphere. A negative radius keeps the same intersection geometry but
/// inverts the outward normal, modeling a hollow shell. A zero radius is
/// degenerate and never reported as hit.
#[derive(Clone, Copy)]
pub struct Sphere {
    pub center: Vec3,
    pub radius: Fixed,
    pub material: Material,
}

/// Model of `origin - center`.
pub open spec fn sphere_oc(s: Sphere, r: RayV) -> V3 {
    vsub(r.origin, s.center@)
}

/// Model of the quadratic's leading coefficient: the squared length of the
/// ray direction.
pub open spec fn sphere_a(r: RayV) -> int {
    vlen2(r.direction)
}

/// Model of half the quadratic's linear coefficient.
pub open spec fn sphere_half_b(s: Sphere, r: RayV) -> int {
    vdot(sphere_oc(s, r), r.direction)
}

/// Model of the quadratic's constant coefficient.
pub open spec fn sphere_c(s: Sphere, r: RayV) -> int {
    fsub(vlen2(sphere_oc(s, r)), fmul(s.radius@, s.radius@))
}

/// Model of the (quarter) discriminant `half_b^2 - a*c`.
pub open spec fn sphere_disc(s: Sphere, r: RayV) -> int {
    fsub(
        fmul(sphere_half_b(s, r), sphere_half_b(s, r)),
        fmul(sphere_a(r), sphere_c(s, r)),
    )
}

/// Model of the nearer quadratic root `(-half_b - sqrt(disc)) / a`.
pub open spec fn sphere_root_near(s: Sphere, r: RayV) -> int {
    fdiv(fsub(fneg(sphere_half_b(s, r)), fsqrt(sphere_disc(s, r))), sphere_a(r))
}

/// Model of the farther quadratic root `(-half_b + sqrt(disc)) / a`.
pub open spec fn sphere_root_far(s: Sphere, r: RayV) -> int {
    fdiv(fadd(fneg(sphere_half_b(s, r)), fsqrt(sphere_disc(s, r))), sphere_a(r))
}

/// Model of the ray parameter a sphere intersection reports: `None` when the
/// discriminant is negative or the geometry is degenerate (a zero-length
/// direction or a zero radius, which the quadratic cannot serve); otherwise
/// the nearer root if it lies within `[t_min, t_max]`, else the farther root
/// if it does, else `None`.
pub open spec fn sphere_hit_t(s: Sphere, r: RayV, t_min: int, t_max: int) -> Option<int> {
    if sphere_disc(s, r) < 0 {
        None
    } else if sphere_a(r) == 0 || s.radius@ == 0 {
        None
    } else {
        let near = sphere_root_near(s, r);
        if t_min <= near <= t_max {
            Some(near)
        } else {
            let far = sphere_root_far(s, r);
            if t_min <= far <= t_max {
                Some(far)
            } else {
                None
            }
        }
    }
}

/// Model of the geometric outward normal at parameter `t`:
/// `(p - center) / radius` (the sign of the radius encodes the hollow-shell
/// inversion).
pub open spec fn sphere_outward_normal(s: Sphere, r: RayV, t: int) -> V3 {
    vdivs(vsub(ray_at(r, t), s.center@), s.radius@)
}

impl Sphere {
    /// Build a sphere.
    pub fn new(cen: Vec3, r: Fixed, material: Material) -> (s: Self)
        ensures
            s.center == cen,
            s.radius == r,
            s.material == material,
    {
        Self { center: cen, radius: r, material }
    }

    /// Intersect a ray with this sphere within `[t_min, t_max]`.
    ///
    /// A hit is reported exactly when the model [`sphere_hit_t`] says so, at
    /// that parameter; the record carries the hit point, the normal oriented
    /// against the ray, which face was struck, and this sphere's material.
    pub fn hit(&self, r: &Ray, t_min: Fixed, t_max: Fixed) -> (result: Option<HitRecord>)
        ensures
            (result is Some) == (sphere_hit_t(*self, r@, t_min@, t_max@) is Some),
            result matches Some(hr) ==> {
                let t = sphere_hit_t(*self, r@, t_min@, t_max@)->Some_0;
                &&& hr.t@ == t
                &&& hr.p@ == ray_at(r@, t)
                &&& hr.material == self.material
                &&& hr.front_face == is_front_face(
                    r@.direction,
                    sphere_outward_normal(*self, r@, t),
                )
                &&& hr.normal@ == oriented_normal(
                    r@.direction,
                    sphere_outward_normal(*self, r@, t),
                )
            },
    {
        let oc = r.origin.sub(self.center);
        let a = r.direction.length_squared();
        let half_b = Vec3::dot(oc, r.direction);
        let c = oc.length_squared().sub(self.radius.mul(self.radius));
        let discriminant = half_b.mul(half_b).sub(a.mul(c));
        if discriminant.lt(Fixed::zero()) {
            return None;
        }
        if a.raw() == 0 || self.radius.raw() == 0 {
            return None;
        }

        let sqrtd = discriminant.sqrt();

        // The nearer intersection hides the farther one, so it is preferred;
        // the farther root only serves when the nearer falls out of range.
        let mut root = half_b.neg().sub(sqrtd).div(a);
        if root.lt(t_min) || t_max.lt(root) {
            root = half_b.neg().add(sqrtd).div(a);
            if root.lt(t_min) || t_max.lt(root) {
                return None;
            }
        }

        let t = root;
        let p = r.at(t);
        let outward_normal = p.sub(self.center).divs(self.radius);
        let hit_rec = HitRecord::new(p, t, outward_normal, *r, self.material);
        Some(hit_rec)
    }
}

} // verus!
