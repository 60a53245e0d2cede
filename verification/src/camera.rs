//! The camera: a precomputed image-plane basis that maps a normalized
//! image-plane coordinate to a world-space ray, with a thin-lens
//! depth-of-field model.

use vstd::prelude::*;

use crate::fixed::{fdiv, fmul, Fixed, SCALE};
use crate::ray::Ray;
use crate::sample::random_in_unit_disk;
use crate::vec3::{vadd, vcross, vlen2, vscale, vsub, vunit, vzero, Vec3, V3};

verus! {

/// Model of the basis vector pointing from the target back to the eye.
pub open spec fn cam_w(look_from: V3, look_at: V3) -> V3 {
    vunit(vsub(look_from, look_at))
}

/// Model of the basis vector pointing right in the image plane.
pub open spec fn cam_u(look_from: V3, look_at: V3, vup: V3) -> V3 {
    vunit(vcross(vup, cam_w(look_from, look_at)))
}

/// Model of the basis vector pointing up in the image plane.
pub open spec fn cam_v(look_from: V3, look_at: V3, vup: V3) -> V3 {
    vcross(cam_w(look_from, look_at), cam_u(look_from, look_at, vup))
}

/// Model of the viewport height: twice the tangent of half the vertical
/// field of view.
pub open spec fn cam_viewport_height(tan_half_vfov: int) -> int {
    fmul(2 * SCALE, tan_half_vfov)
}

/// Model of the viewport width: the height scaled by the aspect ratio.
pub open spec fn cam_viewport_width(tan_half_vfov: int, aspect_ratio: int) -> int {
    fmul(aspect_ratio, cam_viewport_height(tan_half_vfov))
}

/// Model of the ray a camera emits: the origin offset across the lens disk,
/// aimed at the image-plane point for `(s, t)` on the focal plane.
pub open spec fn cam_ray_direction(
    origin: V3,
    lower_left_corner: V3,
    horizontal: V3,
    vertical: V3,
    s: int,
    t: int,
    offset: V3,
) -> V3 {
    vsub(
        vsub(vadd(vadd(lower_left_corner, vscale(horizontal, s)), vscale(vertical, t)), origin),
        offset,
    )
}

/// A camera: a fully precomputed image-plane basis, immutable after
/// construction.
#[derive(Clone, Copy)]
pub struct Camera {
    pub origin: Vec3,
    pub lower_left_corner: Vec3,
    pub horizontal: Vec3,
    pub vertical: Vec3,
    pub u: Vec3,
    pub v: Vec3,
    pub w: Vec3,
    pub lens_radius: Fixed,
}

impl Camera {
    /// Build a camera looking from `look_from` toward `look_at`, with `vup`
    /// fixing the roll.
    ///
    /// `tan_half_vfov` is the tangent of half the vertical field of view (the
    /// half-height of the viewport at unit distance); the caller evaluates
    /// the tangent, everything after it is fixed-point geometry. The focal
    /// plane sits at `focus_dist`, and `aperture` is the lens diameter.
    pub fn new(
        look_from: Vec3,
        look_at: Vec3,
        vup: Vec3,
        tan_half_vfov: Fixed,
        aspect_ratio: Fixed,
        aperture: Fixed,
        focus_dist: Fixed,
    ) -> (cam: Camera)
        ensures
            cam.origin@ == look_from@,
            cam.w@ == cam_w(look_from@, look_at@),
            cam.u@ == cam_u(look_from@, look_at@, vup@),
            cam.v@ == cam_v(look_from@, look_at@, vup@),
            cam.horizontal@ == vscale(
                cam_u(look_from@, look_at@, vup@),
                fmul(focus_dist@, cam_viewport_width(tan_half_vfov@, aspect_ratio@)),
            ),
            cam.vertical@ == vscale(
                cam_v(look_from@, look_at@, vup@),
                fmul(focus_dist@, cam_viewport_height(tan_half_vfov@)),
            ),
            cam.lower_left_corner@ == vsub(
                vsub(
                    vsub(look_from@, vdivs2(cam.horizontal@)),
                    vdivs2(cam.vertical@),
                ),
                vscale(cam_w(look_from@, look_at@), focus_dist@),
            ),
            cam.lens_radius@ == fdiv(aperture@, 2 * SCALE),
    {
        let viewport_height = Fixed::from_int(2).mul(tan_half_vfov);
        let viewport_width = aspect_ratio.mul(viewport_height);

        let w = Vec3::unit_vector(look_from.sub(look_at));
        let u = Vec3::unit_vector(Vec3::cross(vup, w));
        let v = Vec3::cross(w, u);

        let horizontal = u.scale(focus_dist.mul(viewport_width));
        let vertical = v.scale(focus_dist.mul(viewport_height));
        let two = Fixed::from_int(2);
        let lower_left_corner = look_from.sub(horizontal.divs(two)).sub(vertical.divs(two)).sub(
            w.scale(focus_dist),
        );
        let lens_radius = aperture.div(two);

        Camera {
            origin: look_from,
            lower_left_corner,
            horizontal,
            vertical,
            u,
            v,
            w,
            lens_radius,
        }
    }

    /// The ray for the normalized image-plane coordinate `(s, t)` (origin at
    /// the lower-left corner), with the ray origin jittered across the lens
    /// disk for defocus blur. For some lens-disk point, the result is exactly
    /// the thin-lens formula; with a closed lens (`lens_radius == 0`) it is
    /// the deterministic pinhole ray.
    pub fn get_ray(&self, s: Fixed, t: Fixed) -> (r: Ray)
        ensures
            exists|d: V3|
                vlen2(d) < SCALE as int && d.z == 0 && {
                    let offset = vadd(
                        vscale(self.u@, vscale(d, self.lens_radius@).x),
                        vscale(self.v@, vscale(d, self.lens_radius@).y),
                    );
                    r.origin@ == vadd(self.origin@, offset) && r.direction@ == cam_ray_direction(
                        self.origin@,
                        self.lower_left_corner@,
                        self.horizontal@,
                        self.vertical@,
                        s@,
                        t@,
                        offset,
                    )
                },
            self.lens_radius@ == 0 ==> r.origin@ == self.origin@ && r.direction@
                == cam_ray_direction(
                self.origin@,
                self.lower_left_corner@,
                self.horizontal@,
                self.vertical@,
                s@,
                t@,
                vzero(),
            ),
    {
        let disk = random_in_unit_disk();
        let rd = disk.scale(self.lens_radius);
        let offset = self.u.scale(rd.x).add(self.v.scale(rd.y));
        let origin = self.origin.add(offset);
        let direction = self.lower_left_corner.add(self.horizontal.scale(s)).add(
            self.vertical.scale(t),
        ).sub(self.origin).sub(offset);
        proof {
            assert(vlen2(disk@) < SCALE as int && disk@.z == 0 && {
                let offs = vadd(
                    vscale(self.u@, vscale(disk@, self.lens_radius@).x),
                    vscale(self.v@, vscale(disk@, self.lens_radius@).y),
                );
                origin@ == vadd(self.origin@, offs) && direction@ == cam_ray_direction(
                    self.origin@,
                    self.lower_left_corner@,
                    self.horizontal@,
                    self.vertical@,
                    s@,
                    t@,
                    offs,
                )
            });
            if self.lens_radius@ == 0 {
                use_type_invariant(&self.origin.x);
                use_type_invariant(&self.origin.y);
                use_type_invariant(&self.origin.z);
                self.origin.x.lemma_inv_range();
                self.origin.y.lemma_inv_range();
                self.origin.z.lemma_inv_range();
                crate::vec3::lemma_vscale_zero(disk@);
                assert(rd@ == vzero());
                crate::vec3::lemma_vscale_zero(self.u@);
                crate::vec3::lemma_vscale_zero(self.v@);
                assert(offset@ == vzero());
                assert(origin@ == self.origin@);
            }
        }
        Ray::new(origin, direction)
    }
}

/// Model of halving a vector, as the camera construction does.
pub open spec fn vdivs2(a: V3) -> V3 {
    crate::vec3::vdivs(a, 2 * SCALE)
}

} // verus!
