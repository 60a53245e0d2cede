//! The scene: an insertion-ordered collection of spheres, intersected by
//! keeping a shrinking upper bound so that the reported hit is the globally
//! closest one within the queried range.

use vstd::prelude::*;

use crate::fixed::Fixed;
use crate::hittable::{is_front_face, oriented_normal, HitRecord};
use crate::ray::{ray_at, Ray, RayV};
use crate::sphere::{sphere_hit_t, sphere_outward_normal, Sphere};

verus! {

/// Model of the shrinking-bound fold: the hit reported after testing every
/// sphere of `spheres` in order, each against an upper bound tightened to the
/// best parameter found among the spheres before it. `Some((i, t))` names the
/// index of the reporting sphere and the parameter of the hit.
pub open spec fn list_hit(spheres: Seq<Sphere>, r: RayV, t_min: int, t_max: int) -> Option<
    (int, int),
>
    decreases spheres.len(),
{
    if spheres.len() == 0 {
        None
    } else {
        let prev = list_hit(spheres.drop_last(), r, t_min, t_max);
        let bound = match prev {
            Some(pr) => pr.1,
            None => t_max,
        };
        match sphere_hit_t(spheres.last(), r, t_min, bound) {
            Some(t) => Some((spheres.len() - 1, t)),
            None => prev,
        }
    }
}

/// An insertion-ordered collection of spheres.
pub struct HittableList {
    pub hittable_list: Vec<Sphere>,
}

impl View for HittableList {
    type V = Seq<Sphere>;

    open spec fn view(&self) -> Seq<Sphere> {
        self.hittable_list@
    }
}

impl HittableList {
    /// Every member's material is one the tracer can shade with.
    pub open spec fn wf(self) -> bool {
        forall|i: int| 0 <= i < self@.len() ==> #[trigger] self@[i].material.wf()
    }

    /// An empty scene.
    pub fn new() -> (r: Self)
        ensures
            r@ =~= Seq::<Sphere>::empty(),
            r.wf(),
    {
        Self { hittable_list: Vec::new() }
    }

    /// Append a surface.
    pub fn add(&mut self, object: Sphere)
        ensures
            final(self)@ =~= old(self)@.push(object),
            old(self).wf() && object.material.wf() ==> final(self).wf(),
    {
        self.hittable_list.push(object);
    }

    /// Remove every surface.
    pub fn clear(&mut self)
        ensures
            final(self)@ =~= Seq::<Sphere>::empty(),
            final(self).wf(),
    {
        self.hittable_list.clear();
    }

    /// Intersect a ray with every member and keep the closest valid hit.
    ///
    /// The result is exactly the model [`list_hit`]: `None` when no member
    /// reports a hit, otherwise the record built by the reporting sphere at
    /// the fold's parameter.
    pub fn hit(&self, r: &Ray, t_min: Fixed, t_max: Fixed) -> (result: Option<HitRecord>)
        ensures
            match list_hit(self@, r@, t_min@, t_max@) {
                None => result is None,
                Some(pr) => result matches Some(hr) && 0 <= pr.0 < self@.len() && hr.t@ == pr.1
                    && hr.p@ == ray_at(r@, pr.1) && hr.material == self@[pr.0].material
                    && hr.front_face == is_front_face(
                    r@.direction,
                    sphere_outward_normal(self@[pr.0], r@, pr.1),
                ) && hr.normal@ == oriented_normal(
                    r@.direction,
                    sphere_outward_normal(self@[pr.0], r@, pr.1),
                ),
            },
    {
        let mut result_hit_rec: Option<HitRecord> = None;
        let mut closest_so_far = t_max;
        let n = self.hittable_list.len();
        let mut i: usize = 0;
        while i < n
            invariant
                i <= n,
                n == self@.len(),
                match list_hit(self@.subrange(0, i as int), r@, t_min@, t_max@) {
                    None => result_hit_rec is None && closest_so_far@ == t_max@,
                    Some(pr) => result_hit_rec matches Some(hr) && 0 <= pr.0 < i && hr.t@ == pr.1
                        && closest_so_far@ == pr.1 && hr.p@ == ray_at(r@, pr.1) && hr.material
                        == self@[pr.0].material && hr.front_face == is_front_face(
                        r@.direction,
                        sphere_outward_normal(self@[pr.0], r@, pr.1),
                    ) && hr.normal@ == oriented_normal(
                        r@.direction,
                        sphere_outward_normal(self@[pr.0], r@, pr.1),
                    ),
                },
            decreases n - i,
        {
            let obj = &self.hittable_list[i];
            proof {
                assert(self@.subrange(0, i + 1 as int).drop_last() =~= self@.subrange(0, i as int));
                assert(self@.subrange(0, i + 1 as int).last() == self@[i as int]);
            }
            if let Some(hit_rec) = obj.hit(r, t_min, closest_so_far) {
                closest_so_far = hit_rec.t;
                result_hit_rec = Some(hit_rec);
            }
            i = i + 1;
        }
        proof {
            assert(self@.subrange(0, n as int) =~= self@);
        }
        result_hit_rec
    }
}

} // verus!
