//! The object-space sphere: centred at the origin of its own frame, defined
//! by its radius alone. Primitives place it in the world through a
//! `Transform` (see `primative`).

use vstd::prelude::*;

use crate::aabb::AABB;
use crate::algebra::{dot3, dot_vv, Normal3T, Point3T};
use crate::fx::{fadd, fdivr, fmul, fneg, fsub, sqrt_val, Fx, SCALE};
use crate::ray::{at3, Ray};
use crate::shapes::base::{clip_hit, matches_hit, HitSpec, Interaction};

verus! {

/// A sphere of the given radius about the object-space origin.
#[derive(Clone, Copy, Debug, PartialEq, Eq, Structural)]
pub struct Sphere {
    pub radius: Fx,
}

/// The interaction belonging to the root `t`: the point along the ray and
/// the raw radial normal (the hit point minus the origin, not normalized:
/// the primitive normalizes after mapping to world space).
pub open spec fn sphere_interaction(
    ox: int,
    oy: int,
    oz: int,
    dx: int,
    dy: int,
    dz: int,
    t: int,
) -> HitSpec {
    let p = at3(ox, oy, oz, dx, dy, dz, t);
    HitSpec {
        t,
        px: p.0,
        py: p.1,
        pz: p.2,
        nx: fsub(p.0, 0),
        ny: fsub(p.1, 0),
        nz: fsub(p.2, 0),
    }
}

/// The canonical sphere hit: quadratic coefficients from the half-b form,
/// the near root if it lies beyond `t_min`, else the far root (a ray that
/// starts inside the sphere only has a valid far root), else nothing. No
/// upper bound: executable tests clip this at their `t_max`.
#[verifier::opaque]
pub open spec fn sphere_hit_raw(
    radius: int,
    ox: int,
    oy: int,
    oz: int,
    dx: int,
    dy: int,
    dz: int,
    t_min: int,
) -> Option<HitSpec> {
    let a = dot3(dx, dy, dz, dx, dy, dz);
    let half_b = dot3(ox, oy, oz, dx, dy, dz);
    let c = fsub(dot3(ox, oy, oz, ox, oy, oz), fmul(radius, radius));
    let disc = fsub(fmul(half_b, half_b), fmul(a, c));
    if disc < 0 || a == 0 {
        None
    } else {
        let root = sqrt_val(disc * (SCALE as int));
        let near = fdivr(fsub(fneg(half_b), root), a);
        let far = fdivr(fadd(fneg(half_b), root), a);
        if near > t_min {
            Some(sphere_interaction(ox, oy, oz, dx, dy, dz, near))
        } else if far > t_min {
            Some(sphere_interaction(ox, oy, oz, dx, dy, dz, far))
        } else {
            None
        }
    }
}

impl Sphere {
    /// Intersect in object space: exactly the canonical hit, clipped at
    /// `t_max`.
    pub fn collide(&self, ray: &Ray, t_min: Fx, t_max: Fx) -> (res: Option<Interaction>)
        ensures
            matches_hit(
                res,
                clip_hit(
                    sphere_hit_raw(
                        self.radius@,
                        ray.a.x@,
                        ray.a.y@,
                        ray.a.z@,
                        ray.b.x@,
                        ray.b.y@,
                        ray.b.z@,
                        t_min@,
                    ),
                    t_max@,
                ),
            ),
    {
        proof {
            reveal(sphere_hit_raw);
        }
        let ray_o = ray.origin();
        let ray_d = ray.direction();
        let a = dot_vv(&ray_d, &ray_d);
        let half_b = ray_o.x.times(ray_d.x).plus(ray_o.y.times(ray_d.y)).plus(
            ray_o.z.times(ray_d.z),
        );
        let c = ray_o.x.times(ray_o.x).plus(ray_o.y.times(ray_o.y)).plus(
            ray_o.z.times(ray_o.z),
        ).minus(self.radius.times(self.radius));
        let discriminant = half_b.times(half_b).minus(a.times(c));
        if discriminant.lt(Fx::zero()) || a.raw() == 0 {
            return None;
        }
        let root = discriminant.sqrt();
        let near = half_b.neg().minus(root).over(a);
        if t_min.lt(near) {
            if near.lt(t_max) {
                return Some(self.interaction_at(ray, near));
            }
            return None;
        }
        let far = half_b.neg().plus(root).over(a);
        if t_min.lt(far) {
            if far.lt(t_max) {
                return Some(self.interaction_at(ray, far));
            }
            return None;
        }
        None
    }

    /// Build the interaction for a root.
    fn interaction_at(&self, ray: &Ray, t: Fx) -> (res: Interaction)
        ensures
            ({
                let h = sphere_interaction(
                    ray.a.x@,
                    ray.a.y@,
                    ray.a.z@,
                    ray.b.x@,
                    ray.b.y@,
                    ray.b.z@,
                    t@,
                );
                res.t == t && res.p.x@ == h.px && res.p.y@ == h.py && res.p.z@ == h.pz
                    && res.normal.x@ == h.nx && res.normal.y@ == h.ny && res.normal.z@ == h.nz
            }),
    {
        let interaction_point = ray.point_at_parameter(t);
        Interaction {
            t,
            p: interaction_point,
            normal: Normal3T::from_vector(interaction_point.minus_p(Point3T::origin())),
        }
    }

    /// The object-space bounding box: the cube of half-width `radius`.
    pub fn bounding_box(&self, _time_0: Fx, _time_1: Fx) -> (res: Option<AABB>)
        ensures
            res is Some,
            ({
                let bb = res->Some_0;
                bb.minimum.x@ == fneg(self.radius@) && bb.minimum.y@ == fneg(self.radius@)
                    && bb.minimum.z@ == fneg(self.radius@) && bb.maximum.x@ == self.radius@
                    && bb.maximum.y@ == self.radius@ && bb.maximum.z@ == self.radius@
            }),
    {
        Some(
            AABB {
                minimum: Point3T {
                    x: self.radius.neg(),
                    y: self.radius.neg(),
                    z: self.radius.neg(),
                },
                maximum: Point3T { x: self.radius, y: self.radius, z: self.radius },
            },
        )
    }
}

} // verus!
