//! The primitive-based scene and its colour integrator.
//!
//! `find_interaction` is the brute-force nearest-hit query: it walks every
//! primitive, shrinking the window's upper bound to the closest hit found so
//! far. Its contract is the same `is_best` predicate as the hierarchy's
//! `get_collision`, so `lemma_nearest_hit_unique` turns the pair into the
//! scan/hierarchy equivalence: same hit-or-miss answer, same distance.
//!
//! `calculate_colour` is the recursive path integrator: nearest interaction
//! over the standard window (the small lower bound keeps a scattered ray
//! from re-hitting its own origin surface), material scatter, recursion on
//! the scattered ray up to the depth bound of fifty, black on absorption or
//! exhaustion, and the vertical sky gradient on a miss.

use vstd::prelude::*;

use crate::algebra::{unit3, Colour};
use crate::fx::{fadd, fmul, fsub, Fx, SCALE};
use crate::material::{scatter_post, MaterialHit};
use crate::primative::{
    all_idx, has_window_hit, is_best, realizes, record_of, window_hit_t, Primative,
};
use crate::ray::Ray;
use crate::shapes::base::Interaction;

verus! {

/// Raw lower bound of every scene query: a small offset that stops a
/// scattered ray from immediately re-hitting its own origin surface.
pub const SHADOW_T_MIN_RAW: i64 = 66;

/// Upper bound of every scene query, in raw units: one million world units.
pub const T_MAX_RAW: i64 = 65_536_000_000;

/// The depth at which recursion stops contributing light.
pub const MAX_DEPTH: i32 = 50;

/// A scene: the primitives the integrator traces against. (The camera that
/// produces primary rays lives with the application around the tracer.)
pub struct Scene {
    pub primatives: Vec<Primative>,
}

/// A nearest hit paired with the index of the primitive that produced it.
pub struct PrimativeInteraction {
    pub primative: usize,
    pub interaction: Interaction,
}

/// No primitive of the scene is hit inside the standard query window.
pub open spec fn scene_misses(prims: Seq<Primative>, r: Ray) -> bool {
    forall|j: int|
        0 <= j < prims.len() ==> !has_window_hit(
            #[trigger] prims[j],
            r,
            SHADOW_T_MIN_RAW as int,
            T_MAX_RAW as int,
        )
}

/// Raw channels of the vertical sky gradient for a miss in direction
/// `(dx, dy, dz)`: a lerp from white to sky blue by half of the unit
/// direction's y plus one.
pub open spec fn sky3(dx: int, dy: int, dz: int) -> (int, int, int) {
    let u = unit3(dx, dy, dz);
    let sc = SCALE as int;
    let tt = fmul(32768, fadd(u.1, sc));
    let omt = fsub(sc, tt);
    (
        fadd(fmul(omt, sc), fmul(tt, 32768)),
        fadd(fmul(omt, sc), fmul(tt, 45875)),
        fadd(fmul(omt, sc), fmul(tt, sc)),
    )
}

/// The material outcome `mh` is one that `scatter` allows at the ray's
/// nearest interaction: some primitive's canonical hit is best over the
/// whole scene in the standard window, and `mh` satisfies everything the
/// scatter contract states for that primitive's material at that hit.
pub open spec fn scatter_linked(prims: Seq<Primative>, r: Ray, mh: MaterialHit) -> bool {
    exists|k: int, it: Interaction|
        0 <= k < prims.len() && (#[trigger] realizes(it, prims[k], r, SHADOW_T_MIN_RAW as int))
            && is_best(
            prims,
            all_idx(prims.len() as int),
            r,
            SHADOW_T_MIN_RAW as int,
            T_MAX_RAW as int,
            Some(it),
        ) && scatter_post(prims[k].material, r, record_of(prims[k].material, it), mh)
}

/// What a hit below the depth bound yields, for every random outcome: black
/// when the scatter absorbed the ray, else the scatter's attenuation
/// filtering some colour (the recursively traced light).
pub open spec fn traced_from_scatter(prims: Seq<Primative>, r: Ray, c: Colour) -> bool {
    exists|mh: MaterialHit, sub: Colour|
        #![trigger scatter_linked(prims, r, mh), fmul(mh.atten.b@, sub.b@)]
        scatter_linked(prims, r, mh) && ((!mh.hit && c.r@ == 0 && c.g@ == 0 && c.b@ == 0) || (
        mh.hit && c.r@ == fmul(mh.atten.r@, sub.r@) && c.g@ == fmul(mh.atten.g@, sub.g@) && c.b@
            == fmul(mh.atten.b@, sub.b@)))
}

impl Scene {
    /// The nearest interaction along the ray, by linear scan with a
    /// shrinking upper bound; best over every primitive of the scene in the
    /// standard window.
    #[verifier::rlimit(100)]
    pub fn find_interaction(&self, ray: &Ray) -> (res: Option<PrimativeInteraction>)
        ensures
            match res {
                Some(pi) => (pi.primative as int) < self.primatives@.len() && realizes(
                    pi.interaction,
                    self.primatives@[pi.primative as int],
                    *ray,
                    SHADOW_T_MIN_RAW as int,
                ) && is_best(
                    self.primatives@,
                    all_idx(self.primatives@.len() as int),
                    *ray,
                    SHADOW_T_MIN_RAW as int,
                    T_MAX_RAW as int,
                    Some(pi.interaction),
                ),
                None => is_best(
                    self.primatives@,
                    all_idx(self.primatives@.len() as int),
                    *ray,
                    SHADOW_T_MIN_RAW as int,
                    T_MAX_RAW as int,
                    None,
                ),
            },
    {
        let ghost ps = self.primatives@;
        let t_lo = Fx::from_raw(SHADOW_T_MIN_RAW);
        proof {
            assert(crate::fx::sat(SHADOW_T_MIN_RAW as int) == SHADOW_T_MIN_RAW as int);
        }
        let mut best: Option<PrimativeInteraction> = None;
        let mut index: usize = 0;
        while index < self.primatives.len()
            invariant
                index <= ps.len(),
                self.primatives@ == ps,
                t_lo@ == SHADOW_T_MIN_RAW as int,
                match best {
                    Some(pi) => (pi.primative as int) < index as int && realizes(
                        pi.interaction,
                        ps[pi.primative as int],
                        *ray,
                        SHADOW_T_MIN_RAW as int,
                    ) && is_best(
                        ps,
                        all_idx(index as int),
                        *ray,
                        SHADOW_T_MIN_RAW as int,
                        T_MAX_RAW as int,
                        Some(pi.interaction),
                    ),
                    None => is_best(
                        ps,
                        all_idx(index as int),
                        *ray,
                        SHADOW_T_MIN_RAW as int,
                        T_MAX_RAW as int,
                        None,
                    ),
                },
            decreases ps.len() - index,
        {
            let ghost lo = SHADOW_T_MIN_RAW as int;
            let t_max_now = match &best {
                Some(b) => b.interaction.t,
                None => Fx::from_raw(T_MAX_RAW),
            };
            let prima_clone = self.primatives[index].clone();
            let interaction_option = prima_clone.collide(ray, t_lo, t_max_now);
            proof {
                crate::primative::lemma_prim_hit_above(ps[index as int], *ray, lo);
            }
            match interaction_option {
                Some(interaction) => {
                    proof {
                        assert(all_idx(index as int + 1).contains(index as int));
                        assert(realizes(interaction, ps[index as int], *ray, lo));
                        if best is Some {
                            let pb = best->Some_0;
                            assert(interaction.t@ < pb.interaction.t@);
                            assert forall|m: int|
                                all_idx(index as int + 1).contains(m) && 0 <= m < ps.len()
                                    && has_window_hit(
                                    ps[m],
                                    *ray,
                                    lo,
                                    T_MAX_RAW as int,
                                ) implies interaction.t@ <= window_hit_t(ps[m], *ray, lo) by {
                                if m < index as int {
                                    assert(all_idx(index as int).contains(m));
                                    assert(pb.interaction.t@ <= window_hit_t(ps[m], *ray, lo));
                                }
                            }
                        } else {
                            assert(crate::fx::sat(T_MAX_RAW as int) == T_MAX_RAW as int);
                            assert forall|m: int|
                                all_idx(index as int + 1).contains(m) && 0 <= m < ps.len()
                                    && has_window_hit(
                                    ps[m],
                                    *ray,
                                    lo,
                                    T_MAX_RAW as int,
                                ) implies interaction.t@ <= window_hit_t(ps[m], *ray, lo) by {
                                if m < index as int {
                                    assert(all_idx(index as int).contains(m));
                                }
                            }
                        }
                    }
                    best = Some(PrimativeInteraction { primative: index, interaction });
                },
                None => {
                    proof {
                        if best is Some {
                            let pb = best->Some_0;
                            assert forall|m: int|
                                all_idx(index as int + 1).contains(m) && 0 <= m < ps.len()
                                    && has_window_hit(
                                    ps[m],
                                    *ray,
                                    lo,
                                    T_MAX_RAW as int,
                                ) implies pb.interaction.t@ <= window_hit_t(ps[m], *ray, lo) by {
                                if m < index as int {
                                    assert(all_idx(index as int).contains(m));
                                } else {
                                    assert(m == index as int);
                                    assert(!has_window_hit(ps[m], *ray, lo, pb.interaction.t@));
                                }
                            }
                        } else {
                            assert(crate::fx::sat(T_MAX_RAW as int) == T_MAX_RAW as int);
                            assert forall|m: int|
                                all_idx(index as int + 1).contains(m) && 0 <= m
                                    < ps.len() implies !has_window_hit(
                                ps[m],
                                *ray,
                                lo,
                                T_MAX_RAW as int,
                            ) by {
                                if m < index as int {
                                    assert(all_idx(index as int).contains(m));
                                }
                            }
                        }
                    }
                },
            }
            proof {
                if best is Some {
                    let pi = best->Some_0;
                    assert((pi.primative as int) < index as int + 1);
                    assert(realizes(pi.interaction, ps[pi.primative as int], *ray, lo));
                    assert(lo < pi.interaction.t@ < T_MAX_RAW as int);
                    assert(exists|j: int|
                        all_idx(index as int + 1).contains(j) && 0 <= j < ps.len() && realizes(
                            pi.interaction,
                            ps[j],
                            *ray,
                            lo,
                        ));
                    assert(is_best(
                        ps,
                        all_idx(index as int + 1),
                        *ray,
                        lo,
                        T_MAX_RAW as int,
                        Some(pi.interaction),
                    ));
                } else {
                    assert(is_best(
                        ps,
                        all_idx(index as int + 1),
                        *ray,
                        lo,
                        T_MAX_RAW as int,
                        None,
                    ));
                }
            }
            index = index + 1;
        }
        best
    }
}

/// The recursive colour integrator. A miss paints the vertical sky
/// gradient; a hit beyond the depth bound contributes exactly black; a hit
/// within the bound scatters at the nearest surface and, for every random
/// outcome, yields black on absorption and otherwise the scatter's
/// attenuation filtering the recursively traced colour.
pub fn calculate_colour(scene: &Scene, ray: &Ray, depth: i32) -> (c: Colour)
    ensures
        scene_misses(scene.primatives@, *ray) ==> (c.r@, c.g@, c.b@) == sky3(
            ray.b.x@,
            ray.b.y@,
            ray.b.z@,
        ),
        !scene_misses(scene.primatives@, *ray) && depth >= MAX_DEPTH ==> c.r@ == 0 && c.g@ == 0
            && c.b@ == 0,
        !scene_misses(scene.primatives@, *ray) && depth < MAX_DEPTH ==> traced_from_scatter(
            scene.primatives@,
            *ray,
            c,
        ),
    decreases MAX_DEPTH - depth,
{
    let ghost lo = SHADOW_T_MIN_RAW as int;
    let interaction_option = scene.find_interaction(ray);
    match interaction_option {
        Some(interaction) => {
            proof {
                assert(has_window_hit(
                    scene.primatives@[interaction.primative as int],
                    *ray,
                    lo,
                    T_MAX_RAW as int,
                ));
            }
            if depth >= MAX_DEPTH {
                return Colour::black();
            }
            let prima_clone = scene.primatives[interaction.primative].clone();
            let scatter_result = prima_clone.scatter(ray, &interaction.interaction);
            proof {
                let ghost k = interaction.primative as int;
                let ghost it = interaction.interaction;
                assert(realizes(it, scene.primatives@[k], *ray, lo) && is_best(
                    scene.primatives@,
                    all_idx(scene.primatives@.len() as int),
                    *ray,
                    lo,
                    T_MAX_RAW as int,
                    Some(it),
                ) && scatter_post(
                    scene.primatives@[k].material,
                    *ray,
                    record_of(scene.primatives@[k].material, it),
                    scatter_result,
                ));
                assert(scatter_linked(scene.primatives@, *ray, scatter_result));
            }
            if !scatter_result.hit {
                let black = Colour::black();
                proof {
                    let ghost dark = fmul(scatter_result.atten.b@, black.b@);
                    assert(scatter_linked(scene.primatives@, *ray, scatter_result)
                        && !scatter_result.hit && black.r@ == 0 && black.g@ == 0 && black.b@ == 0);
                    assert(traced_from_scatter(scene.primatives@, *ray, black));
                }
                return black;
            }
            let sub = calculate_colour(scene, &scatter_result.ray_out, depth + 1);
            let filtered = scatter_result.atten.times(sub);
            proof {
                assert(scatter_linked(scene.primatives@, *ray, scatter_result)
                    && scatter_result.hit && filtered.r@ == fmul(scatter_result.atten.r@, sub.r@)
                    && filtered.g@ == fmul(scatter_result.atten.g@, sub.g@) && filtered.b@ == fmul(
                    scatter_result.atten.b@,
                    sub.b@,
                ));
                assert(traced_from_scatter(scene.primatives@, *ray, filtered));
            }
            filtered
        },
        None => {
            let unit_dir = ray.direction().unit_vector();
            let t = Fx::from_raw(32768).times(unit_dir.y.plus(Fx::one()));
            let one = Fx::one();
            let white = Colour::white();
            let sky_blue = Colour { r: Fx::from_raw(32768), g: Fx::from_raw(45875), b: Fx::one() };
            proof {
                assert forall|j: int|
                    0 <= j < scene.primatives@.len() implies !has_window_hit(
                    #[trigger] scene.primatives@[j],
                    *ray,
                    lo,
                    T_MAX_RAW as int,
                ) by {
                    assert(all_idx(scene.primatives@.len() as int).contains(j));
                }
            }
            white.scale(one.minus(t)).plus(sky_blue.scale(t))
        },
    }
}

} // verus!
