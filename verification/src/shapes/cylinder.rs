//! The bounded cylinder: radius about the local z axis through its centre,
//! capped to `[z_min, z_max]`, with an angular-sweep parameter that scales
//! the parametric-derivative normal (it does not clip hits: the surface is
//! always the full revolution).
//!
//! The root choice follows the try-near-then-far rule: the near root is
//! taken unless it lies behind the origin; if the candidate's height falls
//! outside the caps the far root is tried once — and only if the candidate
//! was not already the far root.

use vstd::prelude::*;

use crate::algebra::{cross, cross3, unit3, Normal3T, Point3T, Vector3T};
use crate::fx::{fadd, fdivr, fmul, fneg, fsub, Fx, SCALE};
use crate::material::{HitRecord, Material};
use crate::ray::{at3, Ray};
use crate::shapes::base::{clip_hit, solve_quad_spec, solve_quadratic, HitSpec};
use crate::shapes::sphere::record_matches;

verus! {

/// A capped cylinder with a material.
#[derive(Clone, Copy)]
pub struct Cylinder {
    pub centre: Point3T,
    pub radius: Fx,
    pub phi_max: Fx,
    pub z_min: Fx,
    pub z_max: Fx,
    pub material: Material,
}

/// The hit record for parameter `t`: the point along the ray and the
/// parametric normal `unit(cross(dPdu, dPdv))` at the local offset.
pub open spec fn cyl_interaction(
    cyl: Cylinder,
    ox: int,
    oy: int,
    oz: int,
    dx: int,
    dy: int,
    dz: int,
    t: int,
) -> HitSpec {
    let p = at3(ox, oy, oz, dx, dy, dz, t);
    let ohx = fsub(p.0, cyl.centre.x@);
    let ohy = fsub(p.1, cyl.centre.y@);
    let oz_min = fsub(cyl.z_min@, cyl.centre.z@);
    let oz_max = fsub(cyl.z_max@, cyl.centre.z@);
    let du = (fmul(fneg(cyl.phi_max@), ohy), fmul(cyl.phi_max@, ohx), 0int);
    let dv = (0int, 0int, fsub(oz_max, oz_min));
    let cr = cross3(du.0, du.1, du.2, dv.0, dv.1, dv.2);
    let n = unit3(cr.0, cr.1, cr.2);
    HitSpec { t, px: p.0, py: p.1, pz: p.2, nx: n.0, ny: n.1, nz: n.2 }
}

/// The canonical cylinder hit: solve the planar quadratic, reject a far
/// root behind the origin, pick near-else-far, demand the candidate beyond
/// `t_min`, check the caps, and retry the far root once on a cap miss.
#[verifier::opaque]
pub open spec fn cyl_hit_raw(
    cyl: Cylinder,
    ox: int,
    oy: int,
    oz: int,
    dx: int,
    dy: int,
    dz: int,
    t_min: int,
) -> Option<HitSpec> {
    let ocx = fsub(ox, cyl.centre.x@);
    let ocy = fsub(oy, cyl.centre.y@);
    let oz_min = fsub(cyl.z_min@, cyl.centre.z@);
    let oz_max = fsub(cyl.z_max@, cyl.centre.z@);
    let a = fadd(fmul(dx, dx), fmul(dy, dy));
    let b = fmul(2 * (SCALE as int), fadd(fmul(ocx, dx), fmul(ocy, dy)));
    let c = fsub(fadd(fmul(ocx, ocx), fmul(ocy, ocy)), fmul(cyl.radius@, cyl.radius@));
    let q = solve_quad_spec(a, b, c);
    if !q.0 || q.2 <= 0 {
        None
    } else {
        let t0 = q.1;
        let t1 = q.2;
        let t_hit = if t0 <= 0 {
            t1
        } else {
            t0
        };
        if !(t_hit > t_min) {
            None
        } else {
            let z1 = fsub(at3(ox, oy, oz, dx, dy, dz, t_hit).2, cyl.centre.z@);
            if oz_min <= z1 && z1 <= oz_max {
                Some(cyl_interaction(cyl, ox, oy, oz, dx, dy, dz, t_hit))
            } else if t_hit == t1 {
                None
            } else {
                let z2 = fsub(at3(ox, oy, oz, dx, dy, dz, t1).2, cyl.centre.z@);
                if oz_min <= z2 && z2 <= oz_max {
                    Some(cyl_interaction(cyl, ox, oy, oz, dx, dy, dz, t1))
                } else {
                    None
                }
            }
        }
    }
}

impl Cylinder {
    /// Test the ray against this cylinder over the open window
    /// `(t_min, t_max)`: exactly the canonical hit, clipped; on a hit the
    /// record is filled, otherwise it is left untouched.
    pub fn hit(&self, ray: &Ray, t_min: Fx, t_max: Fx, rec: &mut HitRecord) -> (res: bool)
        ensures
            ({
                let ch = clip_hit(
                    cyl_hit_raw(
                        *self,
                        ray.a.x@,
                        ray.a.y@,
                        ray.a.z@,
                        ray.b.x@,
                        ray.b.y@,
                        ray.b.z@,
                        t_min@,
                    ),
                    t_max@,
                );
                res == (ch is Some) && (res ==> record_matches(
                    *final(rec),
                    ch->Some_0,
                    self.material,
                )) && (!res ==> *final(rec) == *old(rec))
            }),
    {
        proof {
            reveal(cyl_hit_raw);
        }
        let oc = ray.origin().minus_p(self.centre);
        let oz_min = self.z_min.minus(self.centre.z);
        let oz_max = self.z_max.minus(self.centre.z);
        let a = ray.b.x.times(ray.b.x).plus(ray.b.y.times(ray.b.y));
        let b = Fx::from_int(2).times(oc.x.times(ray.b.x).plus(oc.y.times(ray.b.y)));
        let c = oc.x.times(oc.x).plus(oc.y.times(oc.y)).minus(self.radius.times(self.radius));
        let (result, t0, t1) = solve_quadratic(a, b, c);
        if !result {
            return false;
        }
        if t_max.lt(t0) || t1.le(Fx::zero()) {
            return false;
        }
        let t_hit = if t0.le(Fx::zero()) {
            t1
        } else {
            t0
        };
        if t_min.lt(t_hit) && t_hit.lt(t_max) {
            let hit_point = ray.point_at_parameter(t_hit);
            let orig_hit_z = hit_point.z.minus(self.centre.z);
            if orig_hit_z.lt(oz_min) || oz_max.lt(orig_hit_z) {
                if t_hit.raw() == t1.raw() {
                    return false;
                }
                if t_max.le(t1) {
                    return false;
                }
                let hit2 = ray.point_at_parameter(t1);
                let z2 = hit2.z.minus(self.centre.z);
                if z2.lt(oz_min) || oz_max.lt(z2) {
                    return false;
                }
                self.write_hit(ray, t1, hit2, oz_min, oz_max, rec);
                return true;
            }
            self.write_hit(ray, t_hit, hit_point, oz_min, oz_max, rec);
            return true;
        }
        false
    }

    /// Fill the record with the interaction at `t`.
    fn write_hit(
        &self,
        ray: &Ray,
        t: Fx,
        hit_point: Point3T,
        oz_min: Fx,
        oz_max: Fx,
        rec: &mut HitRecord,
    )
        requires
            oz_min@ == fsub(self.z_min@, self.centre.z@),
            oz_max@ == fsub(self.z_max@, self.centre.z@),
            (hit_point.x@, hit_point.y@, hit_point.z@) == at3(
                ray.a.x@,
                ray.a.y@,
                ray.a.z@,
                ray.b.x@,
                ray.b.y@,
                ray.b.z@,
                t@,
            ),
        ensures
            record_matches(
                *final(rec),
                cyl_interaction(
                    *self,
                    ray.a.x@,
                    ray.a.y@,
                    ray.a.z@,
                    ray.b.x@,
                    ray.b.y@,
                    ray.b.z@,
                    t@,
                ),
                self.material,
            ),
    {
        let orig_hit = hit_point.minus_p(self.centre);
        let dpdu = Vector3T {
            x: self.phi_max.neg().times(orig_hit.y),
            y: self.phi_max.times(orig_hit.x),
            z: Fx::zero(),
        };
        let dpdv = Vector3T { x: Fx::zero(), y: Fx::zero(), z: oz_max.minus(oz_min) };
        let normal = cross(&dpdu, &dpdv).unit_vector();
        rec.t = t;
        rec.p = hit_point;
        rec.normal = Normal3T::from_vector(normal);
        rec.material = self.material;
    }
}

} // verus!
