//! Materials and color output: scatter rules on exactly representable hits,
//! Schlick reflectance, and the pixel-line formatting.

use raytrace::color::get_color_string;
use raytrace::fixed::Fixed;
use raytrace::hittable::HitRecord;
use raytrace::material::{Dielectric, Lambertian, Metal};
use raytrace::ray::Ray;
use raytrace::vec3::Vec3;

fn fx(n: i64, d: i64) -> Fixed {
    Fixed::from_ratio(n, d)
}

fn v(x: i64, y: i64, z: i64) -> Vec3 {
    Vec3::new(Fixed::from_int(x), Fixed::from_int(y), Fixed::from_int(z))
}

/// A head-on hit of the plane-like top of a sphere: point at the origin,
/// normal straight up, front face.
fn flat_hit(incoming: &Ray, material: raytrace::material::Material) -> HitRecord {
    HitRecord::new(v(0, 0, 0), fx(1, 2), v(0, 0, 1), *incoming, material)
}

#[test]
fn lambertian_falls_back_to_normal_on_cancellation() {
    // The regression input: the sampled unit vector is exactly the negation
    // of the normal, so the sum vanishes and the fallback must engage.
    let albedo = Vec3::new(fx(1, 2), fx(1, 2), fx(1, 2));
    let lambertian = Lambertian::new(albedo);
    let r_in = Ray::new(v(0, 0, 1), v(0, 0, -1));
    let hit = flat_hit(&r_in, raytrace::material::Material::Lambertian(lambertian));
    let (scattered, attenuation) = lambertian.scatter(&r_in, &hit, v(0, 0, -1)).unwrap();
    assert!(scattered.direction == v(0, 0, 1));
    assert!(!scattered.direction.near_zero());
    assert!(attenuation == albedo);
}

#[test]
fn lambertian_adds_sample_to_normal() {
    let albedo = Vec3::new(fx(1, 2), fx(1, 2), fx(1, 2));
    let lambertian = Lambertian::new(albedo);
    let r_in = Ray::new(v(0, 0, 1), v(0, 0, -1));
    let hit = flat_hit(&r_in, raytrace::material::Material::Lambertian(lambertian));
    let sample = Vec3::new(fx(3, 5), Fixed::zero(), fx(4, 5));
    let (scattered, _) = lambertian.scatter(&r_in, &hit, sample).unwrap();
    assert!(scattered.direction == Vec3::new(fx(3, 5), Fixed::zero(), fx(9, 5)));
    assert!(scattered.origin == hit.p);
}

#[test]
fn metal_with_zero_fuzz_is_an_exact_mirror() {
    let albedo = Vec3::new(fx(7, 10), fx(3, 5), fx(1, 2));
    let metal = Metal::new(albedo, Fixed::zero());
    // Unit incoming direction (0.6, 0, -0.8) against normal (0, 0, 1).
    let r_in = Ray::new(v(0, 0, 1), Vec3::new(fx(3, 5), Fixed::zero(), fx(-4, 5)));
    let hit = flat_hit(&r_in, raytrace::material::Material::Metal(metal));
    // Any sphere sample: zero fuzz must erase it.
    let sample = Vec3::new(fx(1, 10), fx(1, 5), fx(3, 10));
    let (scattered, attenuation) = metal.scatter(&r_in, &hit, sample).unwrap();
    assert!(scattered.direction == Vec3::new(fx(3, 5), Fixed::zero(), fx(4, 5)));
    assert!(attenuation == albedo);
}

#[test]
fn metal_absorbs_rays_scattered_into_the_surface() {
    let metal = Metal::new(Vec3::new(fx(1, 2), fx(1, 2), fx(1, 2)), Fixed::zero());
    // A grazing ray reflects to itself, with zero projection on the normal:
    // the scatter is rejected.
    let r_in = Ray::new(v(0, 0, 0), v(1, 0, 0));
    let hit = flat_hit(&r_in, raytrace::material::Material::Metal(metal));
    assert!(metal.scatter(&r_in, &hit, Vec3::zero()).is_none());
}

#[test]
fn metal_clamps_fuzz_into_unit_interval() {
    let albedo = Vec3::new(fx(1, 2), fx(1, 2), fx(1, 2));
    assert_eq!(Metal::new(albedo, Fixed::from_int(2)).fuzz.raw(), 1_000_000);
    assert_eq!(Metal::new(albedo, fx(3, 10)).fuzz.raw(), 300_000);
    assert_eq!(Metal::new(albedo, fx(-1, 2)).fuzz.raw(), 0);
    assert_eq!(Metal::new(albedo, Fixed::from_int(-3)).fuzz.raw(), 0);
}

#[test]
fn schlick_reflectance_exact_values() {
    // Grazing incidence (cosine 0) on glass of index 1.5 reflects fully:
    // r0 = 0.04, and r0 + (1 - r0) * 1 == 1.
    assert_eq!(Dielectric::reflectance(Fixed::zero(), fx(3, 2)).raw(), 1_000_000);
    // Head-on incidence (cosine 1) leaves only r0 = 0.04.
    assert_eq!(Dielectric::reflectance(Fixed::one(), fx(3, 2)).raw(), 40_000);
    // Index 1 reflects nothing head-on.
    assert_eq!(Dielectric::reflectance(Fixed::one(), Fixed::one()).raw(), 0);
}

#[test]
fn dielectric_with_unit_index_refracts_head_on_unchanged() {
    // ior = 1: a no-op lens. Head-on, Schlick's reflectance is exactly zero,
    // so any draw refracts, and the refracted direction is the incoming one.
    let dielectric = Dielectric::new(Fixed::one());
    let r_in = Ray::new(v(0, 0, 1), v(0, 0, -1));
    let hit = flat_hit(&r_in, raytrace::material::Material::Dielectric(dielectric));
    assert!(hit.front_face);
    let (scattered, attenuation) = dielectric.scatter(&r_in, &hit, Fixed::zero()).unwrap();
    assert!(scattered.direction == v(0, 0, -1));
    assert!(attenuation == Vec3::one());
}

#[test]
fn dielectric_with_unit_index_refracts_oblique_unchanged() {
    // A Pythagorean incidence, exactly representable: (0.6, 0, -0.8).
    let dielectric = Dielectric::new(Fixed::one());
    let dir = Vec3::new(fx(3, 5), Fixed::zero(), fx(-4, 5));
    let r_in = Ray::new(v(0, 0, 1), dir);
    let hit = flat_hit(&r_in, raytrace::material::Material::Dielectric(dielectric));
    // Draw above the tiny Schlick term (0.00032 at cosine 0.8) to refract.
    let (scattered, _) = dielectric.scatter(&r_in, &hit, fx(1, 2)).unwrap();
    assert!(scattered.direction == dir);
}

#[test]
fn dielectric_reflects_on_total_internal_reflection() {
    // Leaving glass (back face, ratio 1.5) at a grazing angle: the refracted
    // sine would exceed one, so the ray must reflect: (0.8, 0, 0.6) about
    // (0, 0, 1) gives (0.8, 0, -0.6).
    let dielectric = Dielectric::new(fx(3, 2));
    let dir = Vec3::new(fx(4, 5), Fixed::zero(), fx(3, 5));
    let r_in = Ray::new(v(0, 0, -1), dir);
    // Back face: the incoming direction runs with the outward normal.
    let hit = HitRecord::new(v(0, 0, 0), fx(1, 2), v(0, 0, 1), r_in, raytrace::material::Material::Dielectric(dielectric));
    assert!(!hit.front_face);
    let (scattered, _) = dielectric.scatter(&r_in, &hit, Fixed::one()).unwrap();
    assert!(scattered.direction == Vec3::new(fx(4, 5), Fixed::zero(), fx(-3, 5)));
}

#[test]
fn color_string_scales_clamps_and_truncates() {
    let c = Vec3::new(fx(1, 2), fx(7, 10), Fixed::one());
    assert_eq!(get_color_string(c, 1), "128 179 255\n");
    // Averaging over four samples of an accumulated (2, 2, 2).
    let acc = v(2, 2, 2);
    assert_eq!(get_color_string(acc, 4), "128 128 128\n");
    // Negative channels clamp to zero, overshooting ones to 0.999.
    let wild = Vec3::new(Fixed::from_int(-1), fx(1, 2), Fixed::from_int(2));
    assert_eq!(get_color_string(wild, 1), "0 128 255\n");
    // Black is rendered with single digits.
    assert_eq!(get_color_string(Vec3::zero(), 10), "0 0 0\n");
}
