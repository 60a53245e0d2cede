//! Laws of the tracer, each proved against the models that the executable
//! functions' contracts are stated over.

use vstd::prelude::*;

use crate::fixed::{
    fadd, fdiv, fmin, fmul, fneg, fsqrt, fsub, lemma_fdiv_monotone, lemma_fmul_one,
    lemma_fmul_square_nonneg, lemma_fmul_zero, lemma_fsqrt_range, SCALE,
};
use crate::hittable_list::list_hit;
use crate::material::{dielectric_dir, lambertian_dir, metal_dir, schlick};
use crate::ray::RayV;
use crate::sphere::{
    sphere_a, sphere_disc, sphere_half_b, sphere_hit_t, sphere_root_far, sphere_root_near, Sphere,
};
use crate::vec3::{
    lemma_vlen2_nonneg, vdot, vnear_zero, vneg, vreflect, vrefract, vunit, V3,
};

verus! {

/// A ray that passes through a sphere within range is reported at exactly the
/// nearer of the two quadratic roots: whenever the discriminant is
/// nonnegative, the geometry is nondegenerate, and the nearer root lies in
/// `[t_min, t_max]`, the intersection is that root.
pub proof fn lemma_sphere_reports_near_root(s: Sphere, r: RayV, t_min: int, t_max: int)
    requires
        sphere_disc(s, r) >= 0,
        sphere_a(r) != 0,
        s.radius@ != 0,
        t_min <= sphere_root_near(s, r) <= t_max,
    ensures
        sphere_hit_t(s, r, t_min, t_max) == Some(sphere_root_near(s, r)),
{
}

/// A negative discriminant means no intersection, whatever the range.
pub proof fn lemma_sphere_misses_negative_discriminant(s: Sphere, r: RayV, t_min: int, t_max: int)
    requires
        sphere_disc(s, r) < 0,
    ensures
        sphere_hit_t(s, r, t_min, t_max) is None,
{
}

/// The two quadratic roots are ordered: the nearer root never exceeds the
/// farther one (for a nondegenerate direction).
pub proof fn lemma_sphere_roots_ordered(s: Sphere, r: RayV)
    requires
        sphere_a(r) != 0,
    ensures
        sphere_root_near(s, r) <= sphere_root_far(s, r),
{
    lemma_vlen2_nonneg(r.direction);
    lemma_fsqrt_range(sphere_disc(s, r));
    let hb = sphere_half_b(s, r);
    let sq = fsqrt(sphere_disc(s, r));
    assert(fsub(fneg(hb), sq) <= fadd(fneg(hb), sq));
    lemma_fdiv_monotone(fsub(fneg(hb), sq), fadd(fneg(hb), sq), sphere_a(r));
}

/// Tightening the upper bound of the range can only drop hits beyond the
/// bound: a hit within the tightened bound is reported unchanged, one beyond
/// it disappears, and a miss stays a miss.
pub proof fn lemma_sphere_hit_tightened(s: Sphere, r: RayV, t_min: int, b: int, t_max: int)
    requires
        b <= t_max,
    ensures
        sphere_hit_t(s, r, t_min, t_max) is None ==> sphere_hit_t(s, r, t_min, b) is None,
        sphere_hit_t(s, r, t_min, t_max) matches Some(t) ==> {
            &&& t <= b ==> sphere_hit_t(s, r, t_min, b) == Some(t)
            &&& t > b ==> sphere_hit_t(s, r, t_min, b) is None
        },
{
    if sphere_disc(s, r) >= 0 && sphere_a(r) != 0 && s.radius@ != 0 {
        lemma_sphere_roots_ordered(s, r);
    }
}

/// The best hit when every sphere is tested independently against the full
/// range `[t_min, t_max]`: the minimum of the reported parameters.
pub open spec fn best_independent_hit(
    spheres: Seq<Sphere>,
    r: RayV,
    t_min: int,
    t_max: int,
) -> Option<int>
    decreases spheres.len(),
{
    if spheres.len() == 0 {
        None
    } else {
        let prev = best_independent_hit(spheres.drop_last(), r, t_min, t_max);
        match sphere_hit_t(spheres.last(), r, t_min, t_max) {
            Some(t) => match prev {
                Some(pt) => Some(fmin(pt, t)),
                None => Some(t),
            },
            None => prev,
        }
    }
}

/// The scene's shrinking-bound fold reports a hit exactly when testing each
/// sphere independently over the full range does, and at the same parameter:
/// the minimum over the independent hits.
pub proof fn lemma_scene_hit_is_min(spheres: Seq<Sphere>, r: RayV, t_min: int, t_max: int)
    ensures
        (list_hit(spheres, r, t_min, t_max) is Some) == (best_independent_hit(
            spheres,
            r,
            t_min,
            t_max,
        ) is Some),
        list_hit(spheres, r, t_min, t_max) matches Some(pr) ==> t_min <= pr.1 <= t_max
            && best_independent_hit(spheres, r, t_min, t_max) == Some(pr.1),
    decreases spheres.len(),
{
    if spheres.len() > 0 {
        let prefix = spheres.drop_last();
        let last = spheres.last();
        lemma_scene_hit_is_min(prefix, r, t_min, t_max);
        let prev_fold = list_hit(prefix, r, t_min, t_max);
        let bound = match prev_fold {
            Some(pr) => pr.1,
            None => t_max,
        };
        lemma_sphere_hit_tightened(last, r, t_min, bound, t_max);
    }
}

/// A Lambertian scatter direction is never the zero vector: when the sum of
/// the normal and the sample cancels, the fallback is the (nonzero) normal.
pub proof fn lemma_lambertian_never_degenerate(normal: V3, unit_sample: V3)
    requires
        !vnear_zero(normal),
    ensures
        !vnear_zero(lambertian_dir(normal, unit_sample)),
{
}

/// A metal scatter that is reported (its direction leaves the surface) is
/// never the zero vector: the zero vector has zero projection on the normal.
pub proof fn lemma_metal_never_degenerate(direction: V3, normal: V3, fuzz: int, sphere_sample: V3)
    requires
        vdot(metal_dir(direction, normal, fuzz, sphere_sample), normal) > 0,
    ensures
        !vnear_zero(metal_dir(direction, normal, fuzz, sphere_sample)),
{
    let d = metal_dir(direction, normal, fuzz, sphere_sample);
    if vnear_zero(d) {
        lemma_fmul_zero(normal.x);
        lemma_fmul_zero(normal.y);
        lemma_fmul_zero(normal.z);
        assert(vdot(d, normal) == 0);
    }
}

/// A metal with zero fuzz is an exact mirror: the scatter direction is
/// precisely the reflection `d - 2*dot(d, n)*n` of the unit incoming
/// direction, with no perturbation.
pub proof fn lemma_metal_zero_fuzz_mirror(direction: V3, normal: V3, sphere_sample: V3)
    ensures
        metal_dir(direction, normal, 0, sphere_sample) == vreflect(vunit(direction), normal),
{
    crate::vec3::lemma_vscale_zero(sphere_sample);
}

/// A dielectric with refractive index one never reflects by total internal
/// reflection: whenever the random draw does not fall under Schlick's
/// reflectance, it refracts.
pub proof fn lemma_dielectric_unit_index_refracts(direction: V3, normal: V3, draw: int)
    requires
        schlick(
            fmin(vdot(vneg(vunit(direction)), normal), SCALE as int),
            SCALE as int,
        ) <= draw,
    ensures
        dielectric_dir(direction, normal, true, SCALE as int, draw) == vrefract(
            vunit(direction),
            normal,
            SCALE as int,
        ),
{
    assert(fdiv(SCALE as int, SCALE as int) == SCALE as int);
    let unit_in = vunit(direction);
    let cos = fmin(vdot(vneg(unit_in), normal), SCALE as int);
    lemma_fmul_square_nonneg(cos);
    let arg = fsub(SCALE as int, fmul(cos, cos));
    assert(arg <= SCALE as int);
    lemma_fsqrt_range(arg);
    let sin = fsqrt(arg);
    lemma_fmul_one(sin);
    assert(!(fmul(fdiv(SCALE as int, SCALE as int), sin) > SCALE as int));
}

} // verus!
