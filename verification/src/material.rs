//! The three material models and their scattering rules.
//!
//! Each material's decision logic is a deterministic function of the incoming
//! ray, the hit record, and one explicit random sample; the sample is drawn
//! by the dispatching [`Material::scatter`], so the rules themselves carry
//! exact contracts ([`lambertian_dir`], [`metal_dir`], [`dielectric_dir`],
//! [`schlick`]).

use vstd::prelude::*;

use crate::color::Color;
use crate::fixed::{fadd, fclamp, fdiv, fmin, fmul, fsqrt, fsub, lemma_tdivp_sign, Fixed, SCALE};
use crate::hittable::HitRecord;
use crate::ray::Ray;
use crate::sample::{is_unit_sample, random_fraction, random_in_unit_sphere, random_unit_vector};
use crate::vec3::{
    vadd, vcolor01, vdot, vlen2, vnear_zero, vneg, vnonneg, vone, vreflect, vrefract, vscale,
    vunit, Vec3, V3,
};

verus! {

/// An ideal diffuse (Lambertian) surface.
#[derive(Clone, Copy, PartialEq, Eq, Structural)]
pub struct Lambertian {
    pub albedo: Color,
}

/// A specular surface with a fuzz radius perturbing the reflection.
#[derive(Clone, Copy, PartialEq, Eq, Structural)]
pub struct Metal {
    pub albedo: Color,
    pub fuzz: Fixed,
}

/// A clear refractive material with a refractive index.
#[derive(Clone, Copy, PartialEq, Eq, Structural)]
pub struct Dielectric {
    pub ir: Fixed,
}

/// The closed set of material models, dispatched by variant.
#[derive(Clone, Copy, PartialEq, Eq, Structural)]
pub enum Material {
    Lambertian(Lambertian),
    Metal(Metal),
    Dielectric(Dielectric),
}

/// Model of the Lambertian scatter direction: the oriented normal plus a
/// random unit vector, falling back to the normal itself when the sum
/// vanishes at this resolution (which would make a degenerate ray).
pub open spec fn lambertian_dir(normal: V3, unit_sample: V3) -> V3 {
    let d = vadd(normal, unit_sample);
    if vnear_zero(d) {
        normal
    } else {
        d
    }
}

/// Model of the metal scatter direction: the mirror reflection of the
/// unit incoming direction, perturbed by `fuzz` times a point of the unit
/// sphere.
pub open spec fn metal_dir(direction: V3, normal: V3, fuzz: int, sphere_sample: V3) -> V3 {
    vadd(vreflect(vunit(direction), normal), vscale(sphere_sample, fuzz))
}

/// Model of Schlick's reflectance approximation:
/// `r0 + (1-r0)*(1-cosine)^5` with `r0 = ((1-ref_idx)/(1+ref_idx))^2`.
pub open spec fn schlick(cosine: int, ref_idx: int) -> int {
    let r0 = fdiv(fsub(SCALE as int, ref_idx), fadd(SCALE as int, ref_idx));
    let r0s = fmul(r0, r0);
    let omc = fsub(SCALE as int, cosine);
    let p2 = fmul(omc, omc);
    let p5 = fmul(fmul(p2, p2), omc);
    fadd(r0s, fmul(fsub(SCALE as int, r0s), p5))
}

/// Model of the ratio of refractive indices at the hit: entering the medium
/// divides by the index, leaving multiplies by it.
pub open spec fn refraction_ratio(front_face: bool, ir: int) -> int {
    if front_face {
        fdiv(SCALE as int, ir)
    } else {
        ir
    }
}

/// Model of the dielectric scatter direction: total internal reflection
/// forces a mirror reflection; otherwise Schlick's reflectance is compared
/// against the random draw to choose reflection or Snell refraction.
pub open spec fn dielectric_dir(
    direction: V3,
    normal: V3,
    front_face: bool,
    ir: int,
    draw: int,
) -> V3 {
    let ratio = refraction_ratio(front_face, ir);
    let unit_in = vunit(direction);
    let cos_theta = fmin(vdot(vneg(unit_in), normal), SCALE as int);
    let sin_theta = fsqrt(fsub(SCALE as int, fmul(cos_theta, cos_theta)));
    let cannot_refract = fmul(ratio, sin_theta) > SCALE as int;
    if cannot_refract || schlick(cos_theta, ratio) > draw {
        vreflect(unit_in, normal)
    } else {
        vrefract(unit_in, normal, ratio)
    }
}

impl Lambertian {
    /// Build a diffuse material from its albedo.
    pub fn new(color: Color) -> (r: Self)
        ensures
            r.albedo == color,
    {
        Self { albedo: color }
    }

    /// Scatter at a hit: the direction is the oriented normal plus the given
    /// unit sample (with the degenerate-sum fallback); the attenuation is the
    /// albedo; the ray is never absorbed.
    pub fn scatter(&self, _r_in: &Ray, hit_record: &HitRecord, unit_sample: Vec3) -> (result:
        Option<(Ray, Color)>)
        ensures
            result matches Some(pair) && pair.0.origin == hit_record.p && pair.0.direction@
                == lambertian_dir(hit_record.normal@, unit_sample@) && pair.1 == self.albedo,
    {
        let mut scatter_direction = hit_record.normal.add(unit_sample);
        if scatter_direction.near_zero() {
            scatter_direction = hit_record.normal;
        }
        let scattered = Ray::new(hit_record.p, scatter_direction);
        let attenuation = self.albedo;
        Some((scattered, attenuation))
    }
}

impl Metal {
    /// Build a metal; the fuzz radius is clamped into `[0, 1]` at
    /// construction.
    pub fn new(color: Color, fuzz: Fixed) -> (r: Self)
        ensures
            r.albedo == color,
            r.fuzz@ == fclamp(fuzz@, 0, SCALE as int),
    {
        Self { albedo: color, fuzz: fuzz.clamp(Fixed::zero(), Fixed::one()) }
    }

    /// Scatter at a hit: reflect the unit incoming direction about the
    /// oriented normal and perturb by `fuzz` times the given sphere sample.
    /// The ray is absorbed exactly when the perturbed direction does not
    /// leave the surface (its projection on the normal is not positive).
    pub fn scatter(&self, r_in: &Ray, hit_record: &HitRecord, sphere_sample: Vec3) -> (result:
        Option<(Ray, Color)>)
        ensures
            (result is Some) == (vdot(
                metal_dir(r_in@.direction, hit_record.normal@, self.fuzz@, sphere_sample@),
                hit_record.normal@,
            ) > 0),
            result matches Some(pair) ==> pair.0.origin == hit_record.p && pair.0.direction@
                == metal_dir(r_in@.direction, hit_record.normal@, self.fuzz@, sphere_sample@)
                && pair.1 == self.albedo,
    {
        let unit_ray_direction = Vec3::unit_vector(r_in.direction);
        let reflected = Vec3::reflect(unit_ray_direction, hit_record.normal);
        let direction = reflected.add(sphere_sample.scale(self.fuzz));
        let scattered = Ray::new(hit_record.p, direction);
        let attenuation = self.albedo;
        if Vec3::dot(scattered.direction, hit_record.normal).gt(Fixed::zero()) {
            Some((scattered, attenuation))
        } else {
            None
        }
    }
}

impl Dielectric {
    /// Build a dielectric from its refractive index.
    pub fn new(ir: Fixed) -> (r: Self)
        ensures
            r.ir == ir,
    {
        Self { ir }
    }

    /// Schlick's polynomial approximation of the Fresnel reflectance.
    pub fn reflectance(cosine: Fixed, ref_idx: Fixed) -> (r: Fixed)
        requires
            ref_idx@ != -(SCALE as int),
        ensures
            r@ == schlick(cosine@, ref_idx@),
    {
        let denom = Fixed::one().add(ref_idx);
        let r1 = Fixed::one().sub(ref_idx).div(denom);
        let r0 = r1.mul(r1);
        let omc = Fixed::one().sub(cosine);
        let p2 = omc.mul(omc);
        let p5 = p2.mul(p2).mul(omc);
        r0.add(Fixed::one().sub(r0).mul(p5))
    }

    /// Scatter at a hit: never absorbed, attenuation is the identity color,
    /// and the direction reflects or refracts as the model
    /// [`dielectric_dir`] says for the given random draw.
    pub fn scatter(&self, r_in: &Ray, hit_record: &HitRecord, reflect_draw: Fixed) -> (result:
        Option<(Ray, Color)>)
        requires
            self.ir@ > 0,
        ensures
            result matches Some(pair) && pair.0.origin == hit_record.p && pair.0.direction@
                == dielectric_dir(
                r_in@.direction,
                hit_record.normal@,
                hit_record.front_face,
                self.ir@,
                reflect_draw@,
            ) && pair.1@ == vone(),
    {
        let attenuation = Color::one();
        let refraction_ratio = if hit_record.front_face {
            proof {
                lemma_tdivp_sign(SCALE as int * SCALE as int, self.ir@);
            }
            Fixed::one().div(self.ir)
        } else {
            self.ir
        };
        let unit_in_direction = Vec3::unit_vector(r_in.direction);
        let cos_theta = Vec3::dot(unit_in_direction.neg(), hit_record.normal).min(Fixed::one());
        let sin_theta = Fixed::one().sub(cos_theta.mul(cos_theta)).sqrt();
        let cannot_refract = refraction_ratio.mul(sin_theta).gt(Fixed::one());
        let direction = if cannot_refract || Dielectric::reflectance(
            cos_theta,
            refraction_ratio,
        ).gt(reflect_draw) {
            Vec3::reflect(unit_in_direction, hit_record.normal)
        } else {
            Vec3::refract(unit_in_direction, hit_record.normal, refraction_ratio)
        };
        let scattered = Ray::new(hit_record.p, direction);
        Some((scattered, attenuation))
    }
}

impl Material {
    /// A material the tracer can shade with: colors within `[0, 1]`, a
    /// nonnegative fuzz, a positive refractive index.
    pub open spec fn wf(self) -> bool {
        match self {
            Material::Lambertian(l) => vcolor01(l.albedo@),
            Material::Metal(m) => vcolor01(m.albedo@) && 0 <= m.fuzz@,
            Material::Dielectric(d) => d.ir@ > 0,
        }
    }

    /// Decide how light scatters at a hit of this material, drawing the
    /// random sample the variant's rule needs. `None` means the ray is
    /// absorbed. Whatever was drawn, a returned ray starts at the hit point,
    /// the attenuation is nonnegative, and the direction is the variant's
    /// rule applied to some admissible sample.
    pub fn scatter(&self, r_in: &Ray, hit_record: &HitRecord) -> (result: Option<(Ray, Color)>)
        requires
            self.wf(),
        ensures
            result matches Some(pair) ==> pair.0.origin == hit_record.p && vnonneg(pair.1@),
            match *self {
                Material::Lambertian(l) => result matches Some(pair) && pair.1 == l.albedo
                    && exists|s: V3|
                    is_unit_sample(s) && pair.0.direction@ == lambertian_dir(
                        hit_record.normal@,
                        s,
                    ),
                Material::Metal(m) => {
                    &&& result matches Some(pair) ==> pair.1 == m.albedo && exists|s: V3|
                        0 < vlen2(s) < SCALE as int && pair.0.direction@ == metal_dir(
                            r_in@.direction,
                            hit_record.normal@,
                            m.fuzz@,
                            s,
                        ) && vdot(pair.0.direction@, hit_record.normal@) > 0
                },
                Material::Dielectric(d) => result matches Some(pair) && pair.1@ == vone()
                    && exists|draw: int|
                    0 <= draw < SCALE as int && pair.0.direction@ == dielectric_dir(
                        r_in@.direction,
                        hit_record.normal@,
                        hit_record.front_face,
                        d.ir@,
                        draw,
                    ),
            },
    {
        match self {
            Material::Lambertian(l) => {
                let sample = random_unit_vector();
                let result = l.scatter(r_in, hit_record, sample);
                proof {
                    let pair = result->Some_0;
                    assert(is_unit_sample(sample@) && pair.0.direction@ == lambertian_dir(
                        hit_record.normal@,
                        sample@,
                    ));
                }
                result
            },
            Material::Metal(m) => {
                let sample = random_in_unit_sphere();
                let result = m.scatter(r_in, hit_record, sample);
                proof {
                    if result is Some {
                        let pair = result->Some_0;
                        assert(0 < vlen2(sample@) < SCALE as int && pair.0.direction@
                            == metal_dir(
                            r_in@.direction,
                            hit_record.normal@,
                            m.fuzz@,
                            sample@,
                        ) && vdot(pair.0.direction@, hit_record.normal@) > 0);
                    }
                }
                result
            },
            Material::Dielectric(d) => {
                let draw = random_fraction();
                let result = d.scatter(r_in, hit_record, draw);
                proof {
                    let pair = result->Some_0;
                    assert(0 <= draw@ < SCALE as int && pair.0.direction@ == dielectric_dir(
                        r_in@.direction,
                        hit_record.normal@,
                        hit_record.front_face,
                        d.ir@,
                        draw@,
                    ));
                }
                result
            },
        }
    }
}

} // verus!
