//! The camera, the recursive estimator, the samplers and the demo scene.

use raytrace::camera::Camera;
use raytrace::fixed::Fixed;
use raytrace::hittable_list::HittableList;
use raytrace::material::{Lambertian, Material, Metal};
use raytrace::ray::Ray;
use raytrace::render::{random_scene, ray_color};
use raytrace::sample::{
    random_between, random_fraction, random_in_unit_disk, random_in_unit_sphere,
    random_unit_vector,
};
use raytrace::sphere::Sphere;
use raytrace::vec3::Vec3;

fn fx(n: i64, d: i64) -> Fixed {
    Fixed::from_ratio(n, d)
}

fn v(x: i64, y: i64, z: i64) -> Vec3 {
    Vec3::new(Fixed::from_int(x), Fixed::from_int(y), Fixed::from_int(z))
}

fn pinhole_camera() -> Camera {
    Camera::new(
        v(0, 0, 0),
        v(0, 0, -1),
        v(0, 1, 0),
        Fixed::one(),      // tan of half of a 90-degree vertical field of view
        Fixed::from_int(2),
        Fixed::zero(),     // closed aperture: deterministic rays
        Fixed::one(),
    )
}

#[test]
fn camera_center_ray_looks_down_the_axis() {
    let cam = pinhole_camera();
    let r = cam.get_ray(fx(1, 2), fx(1, 2));
    assert!(r.origin == v(0, 0, 0));
    assert!(r.direction == v(0, 0, -1));
}

#[test]
fn camera_corner_rays_span_the_viewport() {
    let cam = pinhole_camera();
    let lower_left = cam.get_ray(Fixed::zero(), Fixed::zero());
    assert!(lower_left.direction == v(-2, -1, -1));
    let upper_right = cam.get_ray(Fixed::one(), Fixed::one());
    assert!(upper_right.direction == v(2, 1, -1));
}

#[test]
fn camera_aperture_offsets_stay_on_the_lens() {
    let cam = Camera::new(
        v(13, 2, 3),
        v(0, 0, 0),
        v(0, 1, 0),
        fx(176327, 1000000), // tan of half of a 20-degree field of view
        fx(16, 9),
        fx(1, 10),
        Fixed::from_int(10),
    );
    assert_eq!(cam.lens_radius.raw(), 50_000);
    // The jittered origin stays within the lens radius of the eye.
    for _ in 0..32 {
        let r = cam.get_ray(fx(1, 2), fx(1, 2));
        let offset = r.origin.sub(v(13, 2, 3));
        assert!(offset.length().raw() <= 50_000);
    }
}

#[test]
fn ray_color_with_zero_depth_is_black() {
    let mut world = HittableList::new();
    world.add(Sphere::new(
        v(0, 0, -1),
        fx(1, 2),
        Material::Lambertian(Lambertian::new(Vec3::new(fx(1, 2), fx(1, 2), fx(1, 2)))),
    ));
    let r = Ray::new(v(0, 0, 0), v(0, 0, -1));
    assert!(ray_color(&r, &world, 0) == Vec3::zero());
    assert!(ray_color(&r, &world, -3) == Vec3::zero());
}

#[test]
fn ray_color_background_endpoints() {
    let world = HittableList::new();
    // Straight up: exactly the sky color.
    let up = Ray::new(v(0, 0, 0), v(0, 1, 0));
    let sky = ray_color(&up, &world, 50);
    assert!(sky == Vec3::new(fx(1, 2), fx(7, 10), Fixed::one()));
    // Straight down: exactly white.
    let down = Ray::new(v(0, 0, 0), v(0, -1, 0));
    assert!(ray_color(&down, &world, 50) == Vec3::one());
}

#[test]
fn ray_color_background_midpoint_is_halfway() {
    let world = HittableList::new();
    // Horizontal: unit y = 0, blend 0.5: (0.75, 0.85, 1).
    let level = Ray::new(v(0, 0, 0), v(1, 0, 0));
    assert!(ray_color(&level, &world, 50) == Vec3::new(fx(3, 4), fx(17, 20), Fixed::one()));
}

#[test]
fn ray_color_depth_one_bounce_is_black() {
    // One bounce into the two-sphere scene: whatever the scatter draws, the
    // recursive estimate at depth zero is black, so the product is black.
    let mut world = HittableList::new();
    world.add(Sphere::new(
        v(0, 0, -1),
        fx(1, 2),
        Material::Metal(Metal::new(Vec3::new(fx(1, 2), fx(1, 2), fx(1, 2)), Fixed::zero())),
    ));
    world.add(Sphere::new(
        Vec3::new(Fixed::zero(), fx(-201, 2), Fixed::from_int(-1)),
        Fixed::from_int(100),
        Material::Lambertian(Lambertian::new(Vec3::new(fx(1, 2), fx(1, 2), fx(1, 2)))),
    ));
    let r = Ray::new(v(0, 0, 0), v(0, 0, -1));
    assert!(ray_color(&r, &world, 1) == Vec3::zero());
}

#[test]
fn ray_color_channels_never_go_negative() {
    let world = random_scene();
    let cam = pinhole_camera();
    for i in 0..16 {
        let s = Fixed::from_ratio(i, 16);
        let r = cam.get_ray(s, fx(1, 2));
        let c = ray_color(&r, &world, 8);
        assert!(c.x.raw() >= 0 && c.y.raw() >= 0 && c.z.raw() >= 0);
    }
}

#[test]
fn samplers_respect_their_ranges() {
    for _ in 0..256 {
        let f = random_fraction();
        assert!(0 <= f.raw() && f.raw() < 1_000_000);

        let b = random_between(fx(1, 2), Fixed::one());
        assert!(500_000 <= b.raw() && b.raw() <= 1_000_000);

        let p = random_in_unit_sphere();
        let l2 = p.length_squared().raw();
        assert!(0 < l2 && l2 < 1_000_000);

        let u = random_unit_vector();
        assert!(!u.near_zero());

        let d = random_in_unit_disk();
        assert_eq!(d.z.raw(), 0);
        assert!(d.length_squared().raw() < 1_000_000);
    }
}

#[test]
fn material_dispatch_draws_its_own_samples() {
    let albedo = Vec3::new(fx(1, 2), fx(1, 4), fx(1, 8));
    let material = Material::Lambertian(Lambertian::new(albedo));
    let r_in = Ray::new(v(0, 0, 1), v(0, 0, -1));
    let hit = raytrace::hittable::HitRecord::new(v(0, 0, 0), fx(1, 2), v(0, 0, 1), r_in, material);
    for _ in 0..64 {
        let (scattered, attenuation) = material.scatter(&r_in, &hit).unwrap();
        assert!(scattered.origin == hit.p);
        assert!(attenuation == albedo);
        assert!(!scattered.direction.near_zero());
    }
}

#[test]
fn random_scene_has_ground_and_the_three_big_spheres() {
    let world = random_scene();
    let n = world.hittable_list.len();
    assert!(n >= 4);

    let ground = &world.hittable_list[0];
    assert!(ground.center == v(0, -1000, 0));
    assert_eq!(ground.radius.raw(), 1_000_000_000);
    assert!(matches!(ground.material, Material::Lambertian(_)));

    // Everything between the ground and the three big spheres is a grid
    // sphere: radius 0.2 at height 0.2, clear of the spot the big metal
    // sphere occupies.
    assert!(n <= 488);
    for i in 1..n - 3 {
        let s = &world.hittable_list[i];
        assert_eq!(s.radius.raw(), 200_000);
        assert_eq!(s.center.y.raw(), 200_000);
        let clearing = Vec3::new(Fixed::from_int(4), fx(1, 5), Fixed::zero());
        assert!(s.center.sub(clearing).length().raw() > 900_000);
    }

    assert!(matches!(world.hittable_list[n - 3].material, Material::Dielectric(_)));
    assert!(matches!(world.hittable_list[n - 2].material, Material::Lambertian(_)));
    match world.hittable_list[n - 1].material {
        Material::Metal(m) => assert_eq!(m.fuzz.raw(), 0),
        _ => panic!("the last big sphere must be metal"),
    }
}
