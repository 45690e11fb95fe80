//! The flat-list scene path: typed lists of spheres, moving spheres and
//! cylinders, their nearest-hit fold, and the recursive `colour` integrator
//! over them.
//!
//! `HitList::hit` visits the spheres, then the moving spheres, then the
//! cylinders, shrinking the window's upper bound to the closest hit so far;
//! its contract is the flat-list counterpart of `is_best`: the record left
//! behind realizes some shape's canonical hit and its distance is least
//! among every shape's windowed hit.

use vstd::prelude::*;

use crate::algebra::{unit3, Colour, Normal3T, Point3T};
use crate::fx::{fmul, Fx, SCALE};
use crate::material::{scatter_post, HitRecord, Material, MaterialHit};
use crate::ray::Ray;
use crate::scene2::{sky3, MAX_DEPTH, SHADOW_T_MIN_RAW};
use crate::shapes::base::{clip_hit, HitSpec};
use crate::shapes::cylinder::{cyl_hit_raw, Cylinder};
use crate::shapes::sphere::{ms_centre, record_matches, sphere_c_hit_raw, MovingSphere, Sphere};

verus! {

/// Raw upper bound of the integrator's window: one hundred thousand world
/// units.
pub const WORLD_T_MAX_RAW: i64 = 6_553_600_000;

/// The typed shape lists of a scene.
#[derive(Clone)]
pub struct HitList {
    pub spheres: Vec<Sphere>,
    pub moving_spheres: Vec<MovingSphere>,
    pub cylinders: Vec<Cylinder>,
}

/// A scene on the flat-list path. (The camera lives with the application.)
#[derive(Clone)]
pub struct Scene {
    pub hitlist: HitList,
}

/// Number of shapes over all three lists.
pub open spec fn hl_count(hl: HitList) -> int {
    hl.spheres@.len() as int + hl.moving_spheres@.len() as int + hl.cylinders@.len() as int
}

/// Every shape is ready for its intersection test: radii are nonzero
/// and a moving sphere's time interval is not collapsed.
pub open spec fn hl_wf(hl: HitList) -> bool {
    (forall|i: int| 0 <= i < hl.spheres@.len() ==> (#[trigger] hl.spheres@[i]).radius@ != 0)
        && (forall|i: int|
        0 <= i < hl.moving_spheres@.len() ==> (#[trigger] hl.moving_spheres@[i]).radius@ != 0
            && crate::fx::fsub(hl.moving_spheres@[i].time1@, hl.moving_spheres@[i].time0@) != 0)
}

/// The canonical hit of the `k`-th shape (spheres first, then moving
/// spheres, then cylinders).
pub open spec fn hl_hit_at(hl: HitList, k: int, r: Ray, t_min: int) -> Option<HitSpec> {
    let ns = hl.spheres@.len() as int;
    let nm = hl.moving_spheres@.len() as int;
    if 0 <= k < ns {
        let s = hl.spheres@[k];
        sphere_c_hit_raw(
            s.centre.x@,
            s.centre.y@,
            s.centre.z@,
            s.radius@,
            r.a.x@,
            r.a.y@,
            r.a.z@,
            r.b.x@,
            r.b.y@,
            r.b.z@,
            t_min,
        )
    } else if ns <= k < ns + nm {
        let ms = hl.moving_spheres@[k - ns];
        let cc = ms_centre(ms, r.time@);
        sphere_c_hit_raw(
            cc.0,
            cc.1,
            cc.2,
            ms.radius@,
            r.a.x@,
            r.a.y@,
            r.a.z@,
            r.b.x@,
            r.b.y@,
            r.b.z@,
            t_min,
        )
    } else {
        cyl_hit_raw(
            hl.cylinders@[k - ns - nm],
            r.a.x@,
            r.a.y@,
            r.a.z@,
            r.b.x@,
            r.b.y@,
            r.b.z@,
            t_min,
        )
    }
}

/// The material of the `k`-th shape.
pub open spec fn hl_mat(hl: HitList, k: int) -> Material {
    let ns = hl.spheres@.len() as int;
    let nm = hl.moving_spheres@.len() as int;
    if 0 <= k < ns {
        hl.spheres@[k].material
    } else if ns <= k < ns + nm {
        hl.moving_spheres@[k - ns].material
    } else {
        hl.cylinders@[k - ns - nm].material
    }
}

/// Shape `k` hits strictly inside the window.
pub open spec fn hl_window_hit(hl: HitList, k: int, r: Ray, t_min: int, t_max: int) -> bool {
    match hl_hit_at(hl, k, r, t_min) {
        Some(h) => h.t < t_max,
        None => false,
    }
}

/// The parameter of shape `k`'s canonical hit.
pub open spec fn hl_hit_t(hl: HitList, k: int, r: Ray, t_min: int) -> int {
    hl_hit_at(hl, k, r, t_min)->Some_0.t
}

/// The record realizes shape `k`'s canonical hit, material included.
pub open spec fn hl_realizes(hl: HitList, k: int, r: Ray, t_min: int, rec: HitRecord) -> bool {
    match hl_hit_at(hl, k, r, t_min) {
        Some(h) => record_matches(rec, h, hl_mat(hl, k)),
        None => false,
    }
}

/// The nearest-hit answer over the first `kk` shapes: when `hit` is false,
/// none of them hits inside the window (and the record is untouched by the
/// caller's contract); when `hit` is true, the record realizes some shape's
/// canonical hit and its distance is least among every windowed hit.
pub open spec fn hl_best(
    hl: HitList,
    kk: int,
    r: Ray,
    t_min: int,
    t_max: int,
    hit: bool,
    rec: HitRecord,
) -> bool {
    if hit {
        t_min < rec.t@ < t_max && (exists|k: int| 0 <= k < kk && hl_realizes(hl, k, r, t_min, rec))
            && (forall|k: int|
            0 <= k < kk && hl_window_hit(hl, k, r, t_min, t_max) ==> rec.t@ <= hl_hit_t(
                hl,
                k,
                r,
                t_min,
            ))
    } else {
        forall|k: int| 0 <= k < kk ==> !hl_window_hit(hl, k, r, t_min, t_max)
    }
}

/// No shape of the list is hit inside the integrator's standard window.
pub open spec fn hl_misses(hl: HitList, r: Ray) -> bool {
    forall|k: int|
        0 <= k < hl_count(hl) ==> !hl_window_hit(
            hl,
            k,
            r,
            SHADOW_T_MIN_RAW as int,
            WORLD_T_MAX_RAW as int,
        )
}

impl HitList {
    /// The nearest hit over all three lists within the open window
    /// `(t_min, t_max)`; the record is written only when something is hit.
    #[verifier::rlimit(100)]
    pub fn hit(&self, ray: &Ray, t_min: Fx, t_max: Fx, rec: &mut HitRecord) -> (res: bool)
        requires
            hl_wf(*self),
        ensures
            res ==> hl_best(*self, hl_count(*self), *ray, t_min@, t_max@, true, *final(rec)),
            !res ==> hl_best(*self, hl_count(*self), *ray, t_min@, t_max@, false, *final(rec))
                && *final(rec) == *old(rec),
    {
        let ghost hl = *self;
        let ghost r = *ray;
        let mut hit_anything: bool = false;
        let mut closest_so_far: Fx = t_max;
        let ghost ns = self.spheres@.len() as int;
        let ghost nm = self.moving_spheres@.len() as int;
        let mut i: usize = 0;
        while i < self.spheres.len()
            invariant
                hl_wf(hl),
                *self == hl,
                i <= hl.spheres@.len(),
                ns == hl.spheres@.len() as int,
                if hit_anything {
                    closest_so_far == (*rec).t && hl_best(
                        hl,
                        i as int,
                        r,
                        t_min@,
                        t_max@,
                        true,
                        *rec,
                    )
                } else {
                    closest_so_far == t_max && *rec == *old(rec) && hl_best(
                        hl,
                        i as int,
                        r,
                        t_min@,
                        t_max@,
                        false,
                        *rec,
                    )
                },
                r == *ray,
            decreases hl.spheres@.len() - i,
        {
            let ghost prev_rec = *rec;
            let ghost prev_hit = hit_anything;
            let ghost prev_closest = closest_so_far;
            let sph = self.spheres[i];
            if sph.hit(ray, t_min, closest_so_far, rec) {
                proof {
                    hl_step_some(hl, i as int, r, t_min@, t_max@, prev_hit, prev_closest@, prev_rec, *rec);
                }
                hit_anything = true;
                closest_so_far = rec.t;
            } else {
                proof {
                    hl_step_none(hl, i as int, r, t_min@, t_max@, prev_hit, prev_closest@, *rec);
                }
            }
            i = i + 1;
        }
        let mut j: usize = 0;
        while j < self.moving_spheres.len()
            invariant
                hl_wf(hl),
                *self == hl,
                j <= hl.moving_spheres@.len(),
                ns == hl.spheres@.len() as int,
                nm == hl.moving_spheres@.len() as int,
                if hit_anything {
                    closest_so_far == (*rec).t && hl_best(
                        hl,
                        ns + j as int,
                        r,
                        t_min@,
                        t_max@,
                        true,
                        *rec,
                    )
                } else {
                    closest_so_far == t_max && *rec == *old(rec) && hl_best(
                        hl,
                        ns + j as int,
                        r,
                        t_min@,
                        t_max@,
                        false,
                        *rec,
                    )
                },
                r == *ray,
            decreases hl.moving_spheres@.len() - j,
        {
            let ghost prev_rec = *rec;
            let ghost prev_hit = hit_anything;
            let ghost prev_closest = closest_so_far;
            let ms = self.moving_spheres[j];
            if ms.hit(ray, t_min, closest_so_far, rec) {
                proof {
                    hl_step_some(hl, ns + j as int, r, t_min@, t_max@, prev_hit, prev_closest@, prev_rec, *rec);
                }
                hit_anything = true;
                closest_so_far = rec.t;
            } else {
                proof {
                    hl_step_none(hl, ns + j as int, r, t_min@, t_max@, prev_hit, prev_closest@, *rec);
                }
            }
            j = j + 1;
        }
        let mut m: usize = 0;
        while m < self.cylinders.len()
            invariant
                hl_wf(hl),
                *self == hl,
                m <= hl.cylinders@.len(),
                ns == hl.spheres@.len() as int,
                nm == hl.moving_spheres@.len() as int,
                if hit_anything {
                    closest_so_far == (*rec).t && hl_best(
                        hl,
                        ns + nm + m as int,
                        r,
                        t_min@,
                        t_max@,
                        true,
                        *rec,
                    )
                } else {
                    closest_so_far == t_max && *rec == *old(rec) && hl_best(
                        hl,
                        ns + nm + m as int,
                        r,
                        t_min@,
                        t_max@,
                        false,
                        *rec,
                    )
                },
                r == *ray,
            decreases hl.cylinders@.len() - m,
        {
            let ghost prev_rec = *rec;
            let ghost prev_hit = hit_anything;
            let ghost prev_closest = closest_so_far;
            let cyl = self.cylinders[m];
            if cyl.hit(ray, t_min, closest_so_far, rec) {
                proof {
                    hl_step_some(hl, ns + nm + m as int, r, t_min@, t_max@, prev_hit, prev_closest@, prev_rec, *rec);
                }
                hit_anything = true;
                closest_so_far = rec.t;
            } else {
                proof {
                    hl_step_none(hl, ns + nm + m as int, r, t_min@, t_max@, prev_hit, prev_closest@, *rec);
                }
            }
            m = m + 1;
        }
        hit_anything
    }
}

/// One fold step that found a closer hit: the record now realizes shape
/// `k`'s hit clipped at the previous closest bound, so it is best over the
/// first `k + 1` shapes.
proof fn hl_step_some(
    hl: HitList,
    k: int,
    r: Ray,
    t_min: int,
    t_max: int,
    prev_hit: bool,
    prev_closest: int,
    prev_rec: HitRecord,
    rec: HitRecord,
)
    requires
        0 <= k < hl_count(hl),
        prev_hit ==> prev_closest == prev_rec.t@ && hl_best(
            hl,
            k,
            r,
            t_min,
            t_max,
            true,
            prev_rec,
        ),
        !prev_hit ==> prev_closest == t_max && hl_best(hl, k, r, t_min, t_max, false, prev_rec),
        ({
            let ch = clip_hit(hl_hit_at(hl, k, r, t_min), prev_closest);
            ch is Some && record_matches(rec, ch->Some_0, hl_mat(hl, k))
        }),
    ensures
        hl_best(hl, k + 1, r, t_min, t_max, true, rec),
        rec.t@ < prev_closest,
{
    lemma_hl_hit_above(hl, k, r, t_min);
    let h = hl_hit_at(hl, k, r, t_min)->Some_0;
    assert(hl_realizes(hl, k, r, t_min, rec));
    assert(exists|kk: int| 0 <= kk < k + 1 && hl_realizes(hl, kk, r, t_min, rec));
    if prev_hit {
        assert forall|kk: int|
            0 <= kk < k + 1 && hl_window_hit(hl, kk, r, t_min, t_max) implies rec.t@ <= hl_hit_t(
            hl,
            kk,
            r,
            t_min,
        ) by {
            if kk < k {
                assert(prev_rec.t@ <= hl_hit_t(hl, kk, r, t_min));
            }
        }
    } else {
        assert forall|kk: int|
            0 <= kk < k + 1 && hl_window_hit(hl, kk, r, t_min, t_max) implies rec.t@ <= hl_hit_t(
            hl,
            kk,
            r,
            t_min,
        ) by {}
    }
}

/// One fold step that found nothing closer: the previous answer stays best
/// over the first `k + 1` shapes.
proof fn hl_step_none(
    hl: HitList,
    k: int,
    r: Ray,
    t_min: int,
    t_max: int,
    prev_hit: bool,
    prev_closest: int,
    rec: HitRecord,
)
    requires
        0 <= k < hl_count(hl),
        prev_hit ==> prev_closest == rec.t@ && hl_best(hl, k, r, t_min, t_max, true, rec),
        !prev_hit ==> prev_closest == t_max && hl_best(hl, k, r, t_min, t_max, false, rec),
        clip_hit(hl_hit_at(hl, k, r, t_min), prev_closest) is None,
    ensures
        prev_hit ==> hl_best(hl, k + 1, r, t_min, t_max, true, rec),
        !prev_hit ==> hl_best(hl, k + 1, r, t_min, t_max, false, rec),
{
    if prev_hit {
        assert forall|kk: int|
            0 <= kk < k + 1 && hl_window_hit(hl, kk, r, t_min, t_max) implies rec.t@ <= hl_hit_t(
            hl,
            kk,
            r,
            t_min,
        ) by {
            if kk == k {
                assert(!(hl_hit_t(hl, k, r, t_min) < prev_closest));
            }
        }
    } else {
        assert forall|kk: int| 0 <= kk < k + 1 implies !hl_window_hit(hl, kk, r, t_min, t_max) by {}
    }
}

/// A canonical flat-list hit always lies strictly beyond `t_min`.
proof fn lemma_hl_hit_above(hl: HitList, k: int, r: Ray, t_min: int)
    ensures
        match hl_hit_at(hl, k, r, t_min) {
            Some(h) => h.t > t_min,
            None => true,
        },
{
    reveal(sphere_c_hit_raw);
    reveal(cyl_hit_raw);
}

/// The material outcome `mh` is one that `scatter` allows at the ray's
/// nearest flat-list hit: some record is best over the whole list in the
/// standard window, and `mh` satisfies everything the scatter contract
/// states for that record's material at that record.
pub open spec fn world_scatter_linked(hl: HitList, r: Ray, mh: MaterialHit) -> bool {
    exists|rec: HitRecord|
        (#[trigger] hl_best(
            hl,
            hl_count(hl),
            r,
            SHADOW_T_MIN_RAW as int,
            WORLD_T_MAX_RAW as int,
            true,
            rec,
        )) && scatter_post(rec.material, r, rec, mh)
}

/// What a flat-list hit below the depth bound yields, for every random
/// outcome: black when the scatter absorbed the ray, else the scatter's
/// attenuation filtering some colour (the recursively traced light).
pub open spec fn world_traced_from_scatter(hl: HitList, r: Ray, c: Colour) -> bool {
    exists|mh: MaterialHit, sub: Colour|
        #![trigger world_scatter_linked(hl, r, mh), fmul(mh.atten.b@, sub.b@)]
        world_scatter_linked(hl, r, mh) && ((!mh.hit && c.r@ == 0 && c.g@ == 0 && c.b@ == 0) || (
        mh.hit && c.r@ == fmul(mh.atten.r@, sub.r@) && c.g@ == fmul(mh.atten.g@, sub.g@) && c.b@
            == fmul(mh.atten.b@, sub.b@)))
}

/// The recursive colour integrator over the flat-list scene: sky gradient
/// on a miss, black beyond the depth bound, and on a hit within the bound,
/// for every random outcome, black on absorption and otherwise the
/// scatter's attenuation filtering the recursively traced colour.
pub fn colour(ray: &Ray, world: &HitList, depth: i32) -> (c: Colour)
    requires
        hl_wf(*world),
    ensures
        hl_misses(*world, *ray) ==> (c.r@, c.g@, c.b@) == sky3(ray.b.x@, ray.b.y@, ray.b.z@),
        !hl_misses(*world, *ray) && depth >= MAX_DEPTH ==> c.r@ == 0 && c.g@ == 0 && c.b@ == 0,
        !hl_misses(*world, *ray) && depth < MAX_DEPTH ==> world_traced_from_scatter(
            *world,
            *ray,
            c,
        ),
    decreases MAX_DEPTH - depth,
{
    let mut hit_rec = HitRecord {
        t: Fx::from_int(10000),
        p: Point3T::origin(),
        normal: Normal3T { x: Fx::zero(), y: Fx::zero(), z: Fx::zero() },
        material: Material::make_dummy_material(),
    };
    proof {
        assert(crate::fx::sat(SHADOW_T_MIN_RAW as int) == SHADOW_T_MIN_RAW as int);
        assert(crate::fx::sat(WORLD_T_MAX_RAW as int) == WORLD_T_MAX_RAW as int);
    }
    if world.hit(ray, Fx::from_raw(SHADOW_T_MIN_RAW), Fx::from_raw(WORLD_T_MAX_RAW), &mut hit_rec) {
        proof {
            let kx = choose|k: int|
                0 <= k < hl_count(*world) && hl_realizes(
                    *world,
                    k,
                    *ray,
                    SHADOW_T_MIN_RAW as int,
                    hit_rec,
                );
            assert(hl_window_hit(
                *world,
                kx,
                *ray,
                SHADOW_T_MIN_RAW as int,
                WORLD_T_MAX_RAW as int,
            ));
            assert(!hl_misses(*world, *ray));
        }
        if depth >= MAX_DEPTH {
            return Colour::black();
        }
        let scatter_result: MaterialHit = hit_rec.material.scatter(ray, &hit_rec);
        proof {
            assert(hl_best(
                *world,
                hl_count(*world),
                *ray,
                SHADOW_T_MIN_RAW as int,
                WORLD_T_MAX_RAW as int,
                true,
                hit_rec,
            ) && scatter_post(hit_rec.material, *ray, hit_rec, scatter_result));
            assert(world_scatter_linked(*world, *ray, scatter_result));
        }
        if !scatter_result.hit {
            let black = Colour::black();
            proof {
                let ghost dark = fmul(scatter_result.atten.b@, black.b@);
                assert(world_scatter_linked(*world, *ray, scatter_result) && !scatter_result.hit
                    && black.r@ == 0 && black.g@ == 0 && black.b@ == 0);
                assert(world_traced_from_scatter(*world, *ray, black));
            }
            return black;
        }
        let sub = colour(&scatter_result.ray_out, world, depth + 1);
        let filtered = scatter_result.atten.times(sub);
        proof {
            assert(world_scatter_linked(*world, *ray, scatter_result) && scatter_result.hit
                && filtered.r@ == fmul(scatter_result.atten.r@, sub.r@) && filtered.g@ == fmul(
                scatter_result.atten.g@,
                sub.g@,
            ) && filtered.b@ == fmul(scatter_result.atten.b@, sub.b@));
            assert(world_traced_from_scatter(*world, *ray, filtered));
        }
        return filtered;
    }
    let unit_dir = ray.direction().unit_vector();
    let t = Fx::from_raw(32768).times(unit_dir.y.plus(Fx::one()));
    let one = Fx::one();
    let white = Colour::white();
    let sky_blue = Colour { r: Fx::from_raw(32768), g: Fx::from_raw(45875), b: Fx::one() };
    white.scale(one.minus(t)).plus(sky_blue.scale(t))
}

} // verus!
