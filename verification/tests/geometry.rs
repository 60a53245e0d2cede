//! Geometry: fixed-point arithmetic, vectors, rays, sphere intersection and
//! the scene's closest-hit rule, on exactly representable inputs.

use raytrace::fixed::Fixed;
use raytrace::hittable_list::HittableList;
use raytrace::material::{Lambertian, Material};
use raytrace::ray::Ray;
use raytrace::sample::random_between;
use raytrace::sphere::Sphere;
use raytrace::vec3::Vec3;

fn fx(n: i64, d: i64) -> Fixed {
    Fixed::from_ratio(n, d)
}

fn v(x: i64, y: i64, z: i64) -> Vec3 {
    Vec3::new(Fixed::from_int(x), Fixed::from_int(y), Fixed::from_int(z))
}

fn gray() -> Material {
    Material::Lambertian(Lambertian::new(Vec3::new(fx(1, 2), fx(1, 2), fx(1, 2))))
}

#[test]
fn fixed_arithmetic_is_exact_on_millionths() {
    assert_eq!(fx(1, 2).raw(), 500_000);
    assert_eq!(fx(7, 10).raw(), 700_000);
    assert_eq!(Fixed::from_int(2).mul(fx(3, 2)).raw(), 3_000_000);
    assert_eq!(Fixed::from_int(3).div(Fixed::from_int(2)).raw(), 1_500_000);
    assert_eq!(Fixed::from_int(-3).div(Fixed::from_int(2)).raw(), -1_500_000);
    assert_eq!(fx(1, 4).sqrt().raw(), 500_000);
    assert_eq!(Fixed::from_int(2).sqrt().raw(), 1_414_213);
    assert_eq!(Fixed::from_int(-1).sqrt().raw(), 0);
    assert_eq!(fx(3, 2).clamp(Fixed::zero(), Fixed::one()).raw(), 1_000_000);
}

#[test]
fn fixed_saturates_instead_of_overflowing() {
    let big = Fixed::from_raw(1_000_000_000_000_000_000);
    assert_eq!(big.mul(big).raw(), 1_000_000_000_000_000_000);
    assert_eq!(big.neg().mul(big).raw(), -1_000_000_000_000_000_000);
    assert_eq!(big.add(big).raw(), 1_000_000_000_000_000_000);
}

#[test]
fn vector_algebra_on_pythagorean_triple() {
    let d = Vec3::new(fx(3, 1), fx(4, 1), Fixed::zero());
    assert_eq!(d.length_squared().raw(), 25_000_000);
    assert_eq!(d.length().raw(), 5_000_000);
    let u = Vec3::unit_vector(d);
    assert_eq!(u.x.raw(), 600_000);
    assert_eq!(u.y.raw(), 800_000);
    assert_eq!(u.z.raw(), 0);
    let c = Vec3::cross(v(0, 1, 0), v(0, 0, 1));
    assert!(c == v(1, 0, 0));
    assert_eq!(Vec3::dot(d, v(1, 1, 1)).raw(), 7_000_000);
}

#[test]
fn reflect_is_the_mirror_formula() {
    // d - 2*dot(d, n)*n for d = (0.6, 0, -0.8), n = (0, 0, 1).
    let d = Vec3::new(fx(3, 5), Fixed::zero(), fx(-4, 5));
    let n = v(0, 0, 1);
    let r = Vec3::reflect(d, n);
    assert!(r == Vec3::new(fx(3, 5), Fixed::zero(), fx(4, 5)));
}

#[test]
fn ray_at_walks_the_parameter() {
    let r = Ray::new(v(1, 2, 3), v(0, 0, -2));
    let p = r.at(fx(1, 2));
    assert!(p == v(1, 2, 2));
}

#[test]
fn sphere_hit_reports_nearer_root_in_range() {
    // Through the center: roots at t = 0.5 and t = 1.5; the nearer is taken.
    let s = Sphere::new(v(0, 0, -1), fx(1, 2), gray());
    let r = Ray::new(v(0, 0, 0), v(0, 0, -1));
    let hr = s.hit(&r, fx(1, 1000), Fixed::from_int(100)).unwrap();
    assert_eq!(hr.t.raw(), 500_000);
    assert!(hr.p == Vec3::new(Fixed::zero(), Fixed::zero(), fx(-1, 2)));
    assert!(hr.normal == v(0, 0, 1));
    assert!(hr.front_face);
}

#[test]
fn sphere_hit_takes_farther_root_when_origin_is_inside() {
    // From the center, the nearer root is negative: the exit point at t = 0.5
    // is reported, on the inside of the surface.
    let s = Sphere::new(v(0, 0, -1), fx(1, 2), gray());
    let r = Ray::new(v(0, 0, -1), v(0, 0, -1));
    let hr = s.hit(&r, fx(1, 1000), Fixed::from_int(100)).unwrap();
    assert_eq!(hr.t.raw(), 500_000);
    assert!(!hr.front_face);
    assert!(hr.normal == v(0, 0, 1));
}

#[test]
fn sphere_miss_on_negative_discriminant() {
    let s = Sphere::new(v(0, 0, -1), fx(1, 2), gray());
    let up = Ray::new(v(0, 0, 0), v(0, 1, 0));
    assert!(s.hit(&up, fx(1, 1000), Fixed::from_int(100)).is_none());
}

#[test]
fn sphere_tangent_hit_is_accepted() {
    // Grazing ray: discriminant exactly zero, one root at t = 1.
    let s = Sphere::new(v(0, 0, -1), fx(1, 2), gray());
    let r = Ray::new(Vec3::new(Fixed::zero(), fx(1, 2), Fixed::zero()), v(0, 0, -1));
    let hr = s.hit(&r, fx(1, 1000), Fixed::from_int(100)).unwrap();
    assert_eq!(hr.t.raw(), 1_000_000);
}

#[test]
fn sphere_hit_respects_range() {
    let s = Sphere::new(v(0, 0, -1), fx(1, 2), gray());
    let r = Ray::new(v(0, 0, 0), v(0, 0, -1));
    // Both roots (0.5 and 1.5) fall below t_min or above t_max.
    assert!(s.hit(&r, Fixed::from_int(2), Fixed::from_int(100)).is_none());
    assert!(s.hit(&r, fx(1, 1000), fx(1, 4)).is_none());
    // Only the farther root (1.5) is in range.
    let hr = s.hit(&r, Fixed::one(), Fixed::from_int(100)).unwrap();
    assert_eq!(hr.t.raw(), 1_500_000);
}

#[test]
fn negative_radius_inverts_the_normal() {
    // A hollow shell: same geometry, outward normal pointing inward, so the
    // same stored normal arrives with the front-face flag flipped.
    let s = Sphere::new(v(0, 0, -1), fx(-1, 2), gray());
    let r = Ray::new(v(0, 0, 0), v(0, 0, -1));
    let hr = s.hit(&r, fx(1, 1000), Fixed::from_int(100)).unwrap();
    assert_eq!(hr.t.raw(), 500_000);
    assert!(!hr.front_face);
    assert!(hr.normal == v(0, 0, 1));
}

#[test]
fn zero_radius_sphere_never_hits() {
    let s = Sphere::new(v(0, 0, -1), Fixed::zero(), gray());
    let r = Ray::new(v(0, 0, 0), v(0, 0, -1));
    assert!(s.hit(&r, fx(1, 1000), Fixed::from_int(100)).is_none());
}

#[test]
fn scene_hit_is_minimum_over_members() {
    // The classic two-sphere scene: a small sphere in front of a huge ground
    // sphere. The central ray must strike the small sphere first, at t = 0.5,
    // with normal (0, 0, 1).
    let small = Sphere::new(v(0, 0, -1), fx(1, 2), gray());
    let ground = Sphere::new(
        Vec3::new(Fixed::zero(), fx(-201, 2), fx(-1, 1)),
        Fixed::from_int(100),
        gray(),
    );
    let mut world = HittableList::new();
    world.add(small);
    world.add(ground);

    let r = Ray::new(v(0, 0, 0), v(0, 0, -1));
    let t_min = fx(1, 1000);
    let t_max = Fixed::from_int(10_000);

    let scene_hit = world.hit(&r, t_min, t_max).unwrap();
    assert_eq!(scene_hit.t.raw(), 500_000);
    assert!(scene_hit.normal == v(0, 0, 1));
    assert!(scene_hit.front_face);

    // The same as the minimum over the members queried independently.
    let t_small = small.hit(&r, t_min, t_max).unwrap().t;
    assert!(ground.hit(&r, t_min, t_max).is_none());
    assert_eq!(scene_hit.t.raw(), t_small.raw());

    // Order of insertion does not change the reported parameter.
    let mut reversed = HittableList::new();
    reversed.add(ground);
    reversed.add(small);
    assert_eq!(reversed.hit(&r, t_min, t_max).unwrap().t.raw(), 500_000);
}

#[test]
fn sphere_hit_matches_discriminant_sign_on_random_inputs() {
    let lo = Fixed::from_int(-3);
    let hi = Fixed::from_int(3);
    let t_min = fx(1, 1000);
    let t_max = Fixed::from_int(100);
    for _ in 0..512 {
        let center = Vec3::new(
            random_between(lo, hi),
            random_between(lo, hi),
            random_between(lo, hi),
        );
        let radius = random_between(fx(1, 10), Fixed::from_int(2));
        let s = Sphere::new(center, radius, gray());
        let r = Ray::new(
            Vec3::new(random_between(lo, hi), random_between(lo, hi), random_between(lo, hi)),
            Vec3::new(random_between(lo, hi), random_between(lo, hi), random_between(lo, hi)),
        );

        // The discriminant of the half-b quadratic, recomputed from public
        // scalar operations.
        let oc = r.origin.sub(s.center);
        let a = r.direction.length_squared();
        let half_b = Vec3::dot(oc, r.direction);
        let c = oc.length_squared().sub(s.radius.mul(s.radius));
        let disc = half_b.mul(half_b).sub(a.mul(c));

        let hit = s.hit(&r, t_min, t_max);
        if disc.raw() < 0 {
            assert!(hit.is_none());
        }
        if let Some(hr) = hit {
            assert!(disc.raw() >= 0);
            assert!(a.raw() != 0);
            // The reported parameter is one of the two quadratic roots, and
            // in range.
            let sqrtd = disc.sqrt();
            let near = half_b.neg().sub(sqrtd).div(a);
            let far = half_b.neg().add(sqrtd).div(a);
            assert!(hr.t == near || hr.t == far);
            assert!(t_min.raw() <= hr.t.raw() && hr.t.raw() <= t_max.raw());
        }
    }
}

#[test]
fn scene_add_and_clear() {
    let mut world = HittableList::new();
    assert_eq!(world.hittable_list.len(), 0);
    world.add(Sphere::new(v(0, 0, -1), fx(1, 2), gray()));
    assert_eq!(world.hittable_list.len(), 1);
    let r = Ray::new(v(0, 0, 0), v(0, 0, -1));
    assert!(world.hit(&r, fx(1, 1000), Fixed::from_int(100)).is_some());
    world.clear();
    assert_eq!(world.hittable_list.len(), 0);
    assert!(world.hit(&r, fx(1, 1000), Fixed::from_int(100)).is_none());
}
