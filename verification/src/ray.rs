//! Rays: an origin, a direction (not necessarily unit length) and a time
//! sample for motion blur, with the parametric point-at-distance operation.

use vstd::prelude::*;

use crate::algebra::{Point3T, Vector3T};
use crate::fx::{fadd, fmul, Fx};
use crate::matrix::{app_p, app_v, Matrix4x4};

verus! {

/// A ray `a + t * b`, tagged with the shutter time it samples.
#[derive(Clone, Copy, Debug, PartialEq, Eq, Structural)]
pub struct Ray {
    pub a: Point3T,
    pub b: Vector3T,
    pub time: Fx,
}

/// Raw components of the point at parameter `t` along the ray
/// `(ox, oy, oz) + t * (dx, dy, dz)`.
pub open spec fn at3(
    ox: int,
    oy: int,
    oz: int,
    dx: int,
    dy: int,
    dz: int,
    t: int,
) -> (int, int, int) {
    (fadd(ox, fmul(t, dx)), fadd(oy, fmul(t, dy)), fadd(oz, fmul(t, dz)))
}

impl Ray {
    /// The ray's origin.
    pub fn origin(&self) -> (r: Point3T)
        ensures
            r == self.a,
    {
        self.a
    }

    /// The ray's direction.
    pub fn direction(&self) -> (r: Vector3T)
        ensures
            r == self.b,
    {
        self.b
    }

    /// The point reached after travelling `point` units of the direction.
    pub fn point_at_parameter(&self, point: Fx) -> (r: Point3T)
        ensures
            (r.x@, r.y@, r.z@) == at3(
                self.a.x@,
                self.a.y@,
                self.a.z@,
                self.b.x@,
                self.b.y@,
                self.b.z@,
                point@,
            ),
    {
        self.a.plus_v(self.b.scale(point))
    }
}

impl Matrix4x4 {
    /// Map a ray through the affine map: the origin as a point, the direction
    /// as a vector; the time sample is untouched.
    pub fn mul_ray(self, rhs: &Ray) -> (r: Ray)
        ensures
            (r.a.x@, r.a.y@, r.a.z@) == app_p(self, rhs.a.x@, rhs.a.y@, rhs.a.z@),
            (r.b.x@, r.b.y@, r.b.z@) == app_v(self, rhs.b.x@, rhs.b.y@, rhs.b.z@),
            r.time == rhs.time,
    {
        Ray { a: self.mul_p(rhs.a), b: self.mul_v(rhs.b), time: rhs.time }
    }
}

} // verus!
