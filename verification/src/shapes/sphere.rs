//! World-space spheres for the flat hit-list path: a sphere placed by its
//! centre, and a moving sphere whose centre is interpolated over the
//! shutter interval before the same quadratic solve.

use vstd::prelude::*;

use crate::algebra::{dot3, dot_vv, Normal3T, Point3T, Vector3T};
use crate::fx::{fadd, fdivr, fmul, fneg, fsub, sqrt_val, Fx, SCALE};
use crate::material::{HitRecord, Material};
use crate::ray::{at3, Ray};
use crate::shapes::base::{clip_hit, HitSpec};

verus! {

/// A sphere given by centre, radius and material.
#[derive(Clone, Copy)]
pub struct Sphere {
    pub centre: Point3T,
    pub radius: Fx,
    pub material: Material,
}

/// A sphere whose centre moves linearly from `centre0` at `time0` to
/// `centre1` at `time1`.
#[derive(Clone, Copy)]
pub struct MovingSphere {
    pub centre0: Point3T,
    pub time0: Fx,
    pub centre1: Point3T,
    pub time1: Fx,
    pub radius: Fx,
    pub material: Material,
}

/// The hit record for root `t` of a centred sphere: the point along the ray
/// and the radial normal scaled by the reciprocal radius.
pub open spec fn sphere_c_interaction(
    cx: int,
    cy: int,
    cz: int,
    radius: int,
    ox: int,
    oy: int,
    oz: int,
    dx: int,
    dy: int,
    dz: int,
    t: int,
) -> HitSpec {
    let p = at3(ox, oy, oz, dx, dy, dz, t);
    HitSpec {
        t,
        px: p.0,
        py: p.1,
        pz: p.2,
        nx: fdivr(fsub(p.0, cx), radius),
        ny: fdivr(fsub(p.1, cy), radius),
        nz: fdivr(fsub(p.2, cz), radius),
    }
}

/// The canonical hit of a centred sphere: quadratic in the origin offset
/// `o - c`; a negative discriminant is a miss (a tangent graze, discriminant
/// exactly zero, still counts), then the near root beyond `t_min`, else the
/// far root, else nothing.
#[verifier::opaque]
pub open spec fn sphere_c_hit_raw(
    cx: int,
    cy: int,
    cz: int,
    radius: int,
    ox: int,
    oy: int,
    oz: int,
    dx: int,
    dy: int,
    dz: int,
    t_min: int,
) -> Option<HitSpec> {
    let ocx = fsub(ox, cx);
    let ocy = fsub(oy, cy);
    let ocz = fsub(oz, cz);
    let a = dot3(dx, dy, dz, dx, dy, dz);
    let b = dot3(ocx, ocy, ocz, dx, dy, dz);
    let c = fsub(dot3(ocx, ocy, ocz, ocx, ocy, ocz), fmul(radius, radius));
    let disc = fsub(fmul(b, b), fmul(a, c));
    if disc < 0 || a == 0 {
        None
    } else {
        let root = sqrt_val(disc * (SCALE as int));
        let near = fdivr(fsub(fneg(b), root), a);
        let far = fdivr(fadd(fneg(b), root), a);
        if near > t_min {
            Some(sphere_c_interaction(cx, cy, cz, radius, ox, oy, oz, dx, dy, dz, near))
        } else if far > t_min {
            Some(sphere_c_interaction(cx, cy, cz, radius, ox, oy, oz, dx, dy, dz, far))
        } else {
            None
        }
    }
}

/// Write the hit fields of `h` and the material into the record.
fn write_record(rec: &mut HitRecord, t: Fx, p: Point3T, normal: Normal3T, material: Material)
    ensures
        final(rec).t == t,
        final(rec).p == p,
        final(rec).normal == normal,
        final(rec).material == material,
{
    rec.t = t;
    rec.p = p;
    rec.normal = normal;
    rec.material = material;
}

/// The executable record realizes the ghost hit with the given material.
pub open spec fn record_matches(rec: HitRecord, h: HitSpec, material: Material) -> bool {
    rec.t@ == h.t && rec.p.x@ == h.px && rec.p.y@ == h.py && rec.p.z@ == h.pz && rec.normal.x@
        == h.nx && rec.normal.y@ == h.ny && rec.normal.z@ == h.nz && rec.material == material
}

impl Sphere {
    /// Test the ray against this sphere over the open window
    /// `(t_min, t_max)`: exactly the canonical hit, clipped; on a hit the
    /// record is filled, otherwise it is left untouched.
    pub fn hit(&self, ray: &Ray, t_min: Fx, t_max: Fx, rec: &mut HitRecord) -> (res: bool)
        requires
            self.radius@ != 0,
        ensures
            ({
                let ch = clip_hit(
                    sphere_c_hit_raw(
                        self.centre.x@,
                        self.centre.y@,
                        self.centre.z@,
                        self.radius@,
                        ray.a.x@,
                        ray.a.y@,
                        ray.a.z@,
                        ray.b.x@,
                        ray.b.y@,
                        ray.b.z@,
                        t_min@,
                    ),
                    t_max@,
                );
                res == (ch is Some) && (res ==> record_matches(
                    *final(rec),
                    ch->Some_0,
                    self.material,
                )) && (!res ==> *final(rec) == *old(rec))
            }),
    {
        proof {
            reveal(sphere_c_hit_raw);
        }
        let oc = ray.origin().minus_p(self.centre);
        let direction_dot = ray.direction();
        let a = dot_vv(&direction_dot, &direction_dot);
        let b = oc.x.times(direction_dot.x).plus(oc.y.times(direction_dot.y)).plus(
            oc.z.times(direction_dot.z),
        );
        let c = oc.x.times(oc.x).plus(oc.y.times(oc.y)).plus(oc.z.times(oc.z)).minus(
            self.radius.times(self.radius),
        );
        let discriminant = b.times(b).minus(a.times(c));
        if discriminant.lt(Fx::zero()) || a.raw() == 0 {
            return false;
        }
        let root = discriminant.sqrt();
        let near = b.neg().minus(root).over(a);
        if t_min.lt(near) {
            if near.lt(t_max) {
                let p = ray.point_at_parameter(near);
                let n = Normal3T::from_vector(p.minus_p(self.centre).scale_recip(self.radius));
                write_record(rec, near, p, n, self.material);
                return true;
            }
            return false;
        }
        let far = b.neg().plus(root).over(a);
        if t_min.lt(far) {
            if far.lt(t_max) {
                let p = ray.point_at_parameter(far);
                let n = Normal3T::from_vector(p.minus_p(self.centre).scale_recip(self.radius));
                write_record(rec, far, p, n, self.material);
                return true;
            }
            return false;
        }
        false
    }
}

impl Vector3T {
    /// Divide every component by `k` (the `v / k` of the radial normal).
    pub fn scale_recip(self, k: Fx) -> (r: Vector3T)
        requires
            k@ != 0,
        ensures
            r.x@ == fdivr(self.x@, k@),
            r.y@ == fdivr(self.y@, k@),
            r.z@ == fdivr(self.z@, k@),
    {
        Vector3T { x: self.x.over(k), y: self.y.over(k), z: self.z.over(k) }
    }
}

/// The interpolated centre of a moving sphere at a given time.
pub open spec fn ms_centre(ms: MovingSphere, time: int) -> (int, int, int) {
    let fac = fdivr(fsub(time, ms.time0@), fsub(ms.time1@, ms.time0@));
    (
        fadd(ms.centre0.x@, fmul(fac, fsub(ms.centre1.x@, ms.centre0.x@))),
        fadd(ms.centre0.y@, fmul(fac, fsub(ms.centre1.y@, ms.centre0.y@))),
        fadd(ms.centre0.z@, fmul(fac, fsub(ms.centre1.z@, ms.centre0.z@))),
    )
}

impl MovingSphere {
    /// The centre at ray time `time`.
    fn centre(&self, time: Fx) -> (c: Point3T)
        requires
            fsub(self.time1@, self.time0@) != 0,
        ensures
            (c.x@, c.y@, c.z@) == ms_centre(*self, time@),
    {
        let time_fac = time.minus(self.time0).over(self.time1.minus(self.time0));
        self.centre0.plus_v(
            self.centre1.minus_p(self.centre0).scale(time_fac),
        )
    }

    /// Test the ray against the sphere at the ray's own time sample; the
    /// same canonical hit as a fixed sphere centred at the interpolated
    /// centre.
    pub fn hit(&self, ray: &Ray, t_min: Fx, t_max: Fx, rec: &mut HitRecord) -> (res: bool)
        requires
            self.radius@ != 0,
            fsub(self.time1@, self.time0@) != 0,
        ensures
            ({
                let cc = ms_centre(*self, ray.time@);
                let ch = clip_hit(
                    sphere_c_hit_raw(
                        cc.0,
                        cc.1,
                        cc.2,
                        self.radius@,
                        ray.a.x@,
                        ray.a.y@,
                        ray.a.z@,
                        ray.b.x@,
                        ray.b.y@,
                        ray.b.z@,
                        t_min@,
                    ),
                    t_max@,
                );
                res == (ch is Some) && (res ==> record_matches(
                    *final(rec),
                    ch->Some_0,
                    self.material,
                )) && (!res ==> *final(rec) == *old(rec))
            }),
    {
        let cc = self.centre(ray.time);
        let stand_in = Sphere { centre: cc, radius: self.radius, material: self.material };
        stand_in.hit(ray, t_min, t_max, rec)
    }
}

} // verus!
