//! The recursive color estimator, and the demo scene it is pointed at.

use vstd::prelude::*;

use crate::color::Color;
use crate::fixed::{
    fadd, fclamp, fmul, fsub, lemma_fmul_nonneg, lemma_fmul_unit_range, Fixed, MAX_RAW, SCALE,
};
use crate::hittable_list::{list_hit, HittableList};
use crate::material::{Dielectric, Lambertian, Material, Metal};
use crate::ray::Ray;
use crate::sample::{random_between, random_fraction};
use crate::sphere::Sphere;
use crate::vec3::{vadd, vlen, vnonneg, vone, vscale, vsub, vunit, vzero, Vec3, V3};

verus! {

/// Raw lower bound of the intersection range: one thousandth, suppressing
/// self-intersection of a bounce with the surface it just left.
pub const T_MIN_RAW: i128 = 1_000;

/// Model of the sky color at the top of the background gradient.
pub open spec fn sky_color() -> V3 {
    V3 { x: 500_000, y: 700_000, z: SCALE as int }
}

/// Model of the background gradient: white blended toward the sky color by
/// `0.5 * (unit_direction.y + 1)`. The blend parameter is clamped into
/// `[0, 1]`, which is only felt where rounding pushes a normalized component
/// out of that range; it keeps every returned channel nonnegative.
pub open spec fn background_color(direction: V3) -> V3 {
    let t = fclamp(fmul(500_000, fadd(vunit(direction).y, SCALE as int)), 0, SCALE as int);
    vadd(vscale(vone(), fsub(SCALE as int, t)), vscale(sky_color(), t))
}

/// Estimate the color carried along one ray by Monte-Carlo path tracing.
///
/// An exhausted depth budget returns black exactly; a ray that the scene's
/// closest-hit fold misses within `[0.001, MAX]` returns the background
/// gradient exactly; an absorbed scatter returns black; otherwise the result
/// is the scatter's attenuation times the recursive estimate. Whatever the
/// random draws, every channel of the result is nonnegative.
pub fn ray_color(r: &Ray, world: &HittableList, depth: i32) -> (result: Color)
    requires
        world.wf(),
    ensures
        depth <= 0 ==> result@ == vzero(),
        depth > 0 && list_hit(world@, r@, T_MIN_RAW as int, MAX_RAW as int) is None ==> result@
            == background_color(r@.direction),
        vnonneg(result@),
    decreases depth,
{
    if depth <= 0 {
        return Color::zero();
    }

    if let Some(hit_record) = world.hit(r, Fixed::from_raw(T_MIN_RAW), Fixed::from_raw(MAX_RAW)) {
        if let Some((scattered, attenuation)) = hit_record.material.scatter(r, &hit_record) {
            let rest = ray_color(&scattered, world, depth - 1);
            let result = attenuation.cmul(rest);
            proof {
                lemma_fmul_nonneg(attenuation@.x, rest@.x);
                lemma_fmul_nonneg(attenuation@.y, rest@.y);
                lemma_fmul_nonneg(attenuation@.z, rest@.z);
            }
            return result;
        } else {
            return Color::zero();
        }
    }

    let unit_direction = Vec3::unit_vector(r.direction);
    let t = Fixed::from_ratio(1, 2).mul(unit_direction.y.add(Fixed::one())).clamp(
        Fixed::zero(),
        Fixed::one(),
    );
    let white_part = Color::one().scale(Fixed::one().sub(t));
    let sky = Color::new(Fixed::from_ratio(1, 2), Fixed::from_ratio(7, 10), Fixed::one());
    let sky_part = sky.scale(t);
    let result = white_part.add(sky_part);
    proof {
        lemma_fmul_unit_range(SCALE as int, fsub(SCALE as int, t@));
        lemma_fmul_unit_range(sky@.x, t@);
        lemma_fmul_unit_range(sky@.y, t@);
        lemma_fmul_unit_range(sky@.z, t@);
        assert(result@ == background_color(r@.direction));
    }
    result
}

/// The center of the clearing the demo grid leaves empty: `(4, 0.2, 0)`.
pub open spec fn clearing_center() -> V3 {
    V3 { x: 4 * SCALE as int, y: 200_000, z: 0 }
}

/// A horizontal coordinate of a grid sphere: the whole-number cell
/// coordinate plus nine tenths of a fraction.
pub open spec fn grid_coord(cell: int, offset: int) -> int {
    fadd(cell * (SCALE as int), fmul(900_000, offset))
}

/// A small sphere of the demo grid: radius one fifth, center at height one
/// fifth with horizontal coordinates `(a + 0.9*x, b + 0.9*z)` for some grid
/// cell `(a, b)` and fractions `x`, `z`, lying farther than nine tenths from
/// the clearing, and shaded with a well-formed material.
pub open spec fn is_grid_sphere(s: Sphere) -> bool {
    &&& s.radius@ == 200_000
    &&& s.center@.y == 200_000
    &&& vlen(vsub(s.center@, clearing_center())) > 900_000
    &&& exists|cell_a: int, cell_b: int, xo: int, zo: int|
        #![trigger grid_coord(cell_a, xo), grid_coord(cell_b, zo)]
        -11 <= cell_a < 11 && -11 <= cell_b < 11 && 0 <= xo < SCALE as int && 0 <= zo < SCALE as int
            && s.center@.x == grid_coord(cell_a, xo) && s.center@.z == grid_coord(cell_b, zo)
    &&& s.material.wf()
}

/// A sphere whose center form, clearing distance, size and material have been
/// checked is a grid sphere.
proof fn lemma_is_grid_sphere(s: Sphere, cell_a: int, cell_b: int, xo: int, zo: int)
    requires
        -11 <= cell_a < 11,
        -11 <= cell_b < 11,
        0 <= xo < SCALE as int,
        0 <= zo < SCALE as int,
        s.center@.x == grid_coord(cell_a, xo),
        s.center@.z == grid_coord(cell_b, zo),
        s.radius@ == 200_000,
        s.center@.y == 200_000,
        vlen(vsub(s.center@, clearing_center())) > 900_000,
        s.material.wf(),
    ensures
        is_grid_sphere(s),
{
}

/// Build the demo scene: a large Lambertian ground sphere, a grid of small
/// randomly placed and randomly shaded spheres, and three large spheres of
/// glass, diffuse and metal. Every material is one the tracer can shade
/// with; the ground and the three large spheres are pinned exactly, and
/// every member in between is a grid sphere (so the scene holds at most the
/// ground, one sphere per grid cell, and the three).
pub fn random_scene() -> (world: HittableList)
    ensures
        world.wf(),
        4 <= world@.len() <= 488,
        forall|i: int| 1 <= i < world@.len() - 3 ==> is_grid_sphere(#[trigger] world@[i]),
        world@[0].center@ == (V3 { x: 0, y: -1000 * SCALE as int, z: 0 }),
        world@[0].radius@ == 1000 * SCALE as int,
        world@[0].material matches Material::Lambertian(g) && g.albedo@ == (V3 {
            x: 500_000,
            y: 500_000,
            z: 500_000,
        }),
        world@[world@.len() - 3].material matches Material::Dielectric(d) && d.ir@ == 1_500_000,
        world@[world@.len() - 2].material matches Material::Lambertian(l) && l.albedo@ == (V3 {
            x: 400_000,
            y: 200_000,
            z: 100_000,
        }),
        world@[world@.len() - 1].material matches Material::Metal(m) && m.albedo@ == (V3 {
            x: 700_000,
            y: 600_000,
            z: 500_000,
        }) && m.fuzz@ == 0,
{
    let mut world = HittableList::new();

    let half = Fixed::from_ratio(1, 2);
    let ground_material = Material::Lambertian(Lambertian::new(Color::new(half, half, half)));
    world.add(
        Sphere::new(
            Vec3::new(Fixed::zero(), Fixed::from_int(-1000), Fixed::zero()),
            Fixed::from_int(1000),
            ground_material,
        ),
    );

    let mut a: i32 = -11;
    while a < 11
        invariant
            -11 <= a <= 11,
            world.wf(),
            1 <= world@.len() <= 1 + 22 * (a + 11),
            forall|i: int| 1 <= i < world@.len() ==> is_grid_sphere(#[trigger] world@[i]),
            world@[0].center@ == (V3 { x: 0, y: -1000 * SCALE as int, z: 0 }),
            world@[0].radius@ == 1000 * SCALE as int,
            world@[0].material matches Material::Lambertian(g) && g.albedo@ == (V3 {
                x: 500_000,
                y: 500_000,
                z: 500_000,
            }),
        decreases 11 - a,
    {
        let mut b: i32 = -11;
        while b < 11
            invariant
                -11 <= a < 11,
                -11 <= b <= 11,
                world.wf(),
                1 <= world@.len() <= 1 + 22 * (a + 11) + (b + 11),
                forall|i: int| 1 <= i < world@.len() ==> is_grid_sphere(#[trigger] world@[i]),
                world@[0].center@ == (V3 { x: 0, y: -1000 * SCALE as int, z: 0 }),
                world@[0].radius@ == 1000 * SCALE as int,
                world@[0].material matches Material::Lambertian(g) && g.albedo@ == (V3 {
                    x: 500_000,
                    y: 500_000,
                    z: 500_000,
                }),
            decreases 11 - b,
        {
            let choose_mat = random_fraction();
            let x_offset = random_fraction();
            let z_offset = random_fraction();
            let nine_tenths = Fixed::from_ratio(9, 10);
            let center = Vec3::new(
                Fixed::from_int(a as i64).add(nine_tenths.mul(x_offset)),
                Fixed::from_ratio(1, 5),
                Fixed::from_int(b as i64).add(nine_tenths.mul(z_offset)),
            );

            let clearing = Vec3::new(Fixed::from_int(4), Fixed::from_ratio(1, 5), Fixed::zero());
            if center.sub(clearing).length().gt(nine_tenths) {
                let small_radius = Fixed::from_ratio(1, 5);
                proof {
                    assert(clearing@ == clearing_center());
                    assert(center@.x == grid_coord(a as int, x_offset@));
                    assert(center@.z == grid_coord(b as int, z_offset@));
                }
                if choose_mat.lt(Fixed::from_ratio(4, 5)) {
                    // Diffuse: albedo is a componentwise product of two
                    // random colors, so it stays within [0, 1].
                    let c1 = Color::new(random_fraction(), random_fraction(), random_fraction());
                    let c2 = Color::new(random_fraction(), random_fraction(), random_fraction());
                    let albedo = c1.cmul(c2);
                    proof {
                        lemma_fmul_unit_range(c1@.x, c2@.x);
                        lemma_fmul_unit_range(c1@.y, c2@.y);
                        lemma_fmul_unit_range(c1@.z, c2@.z);
                    }
                    let mat = Material::Lambertian(Lambertian::new(albedo));
                    let object = Sphere::new(center, small_radius, mat);
                    proof {
                        lemma_is_grid_sphere(object, a as int, b as int, x_offset@, z_offset@);
                    }
                    world.add(object);
                } else if choose_mat.lt(Fixed::from_ratio(19, 20)) {
                    // Metal: albedo in [0.5, 1) per channel, fuzz in [0, 0.5).
                    let lo = Fixed::from_ratio(1, 2);
                    let albedo = Color::new(
                        random_between(lo, Fixed::one()),
                        random_between(lo, Fixed::one()),
                        random_between(lo, Fixed::one()),
                    );
                    let fuzz = random_between(Fixed::zero(), lo);
                    let mat = Material::Metal(Metal::new(albedo, fuzz));
                    let object = Sphere::new(center, small_radius, mat);
                    proof {
                        lemma_is_grid_sphere(object, a as int, b as int, x_offset@, z_offset@);
                    }
                    world.add(object);
                } else {
                    // Glass.
                    let mat = Material::Dielectric(Dielectric::new(Fixed::from_ratio(3, 2)));
                    let object = Sphere::new(center, small_radius, mat);
                    proof {
                        lemma_is_grid_sphere(object, a as int, b as int, x_offset@, z_offset@);
                    }
                    world.add(object);
                }
            }
            b = b + 1;
        }
        a = a + 1;
    }

    let mat1 = Material::Dielectric(Dielectric::new(Fixed::from_ratio(3, 2)));
    world.add(
        Sphere::new(
            Vec3::new(Fixed::zero(), Fixed::one(), Fixed::zero()),
            Fixed::one(),
            mat1,
        ),
    );

    let mat2 = Material::Lambertian(
        Lambertian::new(
            Color::new(Fixed::from_ratio(2, 5), Fixed::from_ratio(1, 5), Fixed::from_ratio(1, 10)),
        ),
    );
    world.add(
        Sphere::new(
            Vec3::new(Fixed::from_int(-4), Fixed::one(), Fixed::zero()),
            Fixed::one(),
            mat2,
        ),
    );

    let mat3 = Material::Metal(
        Metal::new(
            Color::new(Fixed::from_ratio(7, 10), Fixed::from_ratio(3, 5), Fixed::from_ratio(1, 2)),
            Fixed::zero(),
        ),
    );
    world.add(
        Sphere::new(
            Vec3::new(Fixed::from_int(4), Fixed::one(), Fixed::zero()),
            Fixed::one(),
            mat3,
        ),
    );

    world
}

} // verus!
