//! 4x4 affine matrices over the fixed-point scalar.
//!
//! A matrix carries an affine map: the upper-left 3x3 block acts on vectors
//! and normals, the fourth column translates points. Entries are raw `Fx`
//! values, `SCALE` standing for one.

use vstd::prelude::*;

use crate::algebra::{Normal3T, Point3T, Vector3T};
use crate::fx::{fadd, fmul, Fx, SCALE};

verus! {

/// A 4x4 matrix of fixed-point entries.
#[derive(Clone, Copy, Debug, PartialEq)]
pub struct Matrix4x4 {
    pub m: [[Fx; 4]; 4],
}

/// Raw value of the entry in row `r`, column `c`.
pub open spec fn ent(m: Matrix4x4, r: int, c: int) -> int {
    m.m[r][c]@
}

/// Raw values of row `r`.
pub open spec fn row_vals(m: Matrix4x4, r: int) -> (int, int, int, int) {
    (ent(m, r, 0), ent(m, r, 1), ent(m, r, 2), ent(m, r, 3))
}

/// Raw value of entry `(r, c)` of the matrix product `a * b`.
pub open spec fn mm_ent(a: Matrix4x4, b: Matrix4x4, r: int, c: int) -> int {
    fadd(
        fadd(
            fadd(fmul(ent(a, r, 0), ent(b, 0, c)), fmul(ent(a, r, 1), ent(b, 1, c))),
            fmul(ent(a, r, 2), ent(b, 2, c)),
        ),
        fmul(ent(a, r, 3), ent(b, 3, c)),
    )
}

/// Raw components of the image of the point `(px, py, pz)` under `m`
/// (the translation column applies).
pub open spec fn app_p(m: Matrix4x4, px: int, py: int, pz: int) -> (int, int, int) {
    (
        fadd(
            fadd(fadd(fmul(ent(m, 0, 0), px), fmul(ent(m, 0, 1), py)), fmul(ent(m, 0, 2), pz)),
            ent(m, 0, 3),
        ),
        fadd(
            fadd(fadd(fmul(ent(m, 1, 0), px), fmul(ent(m, 1, 1), py)), fmul(ent(m, 1, 2), pz)),
            ent(m, 1, 3),
        ),
        fadd(
            fadd(fadd(fmul(ent(m, 2, 0), px), fmul(ent(m, 2, 1), py)), fmul(ent(m, 2, 2), pz)),
            ent(m, 2, 3),
        ),
    )
}

/// Raw components of the image of the direction `(vx, vy, vz)` under `m`
/// (the translation column does not apply).
pub open spec fn app_v(m: Matrix4x4, vx: int, vy: int, vz: int) -> (int, int, int) {
    (
        fadd(fadd(fmul(ent(m, 0, 0), vx), fmul(ent(m, 0, 1), vy)), fmul(ent(m, 0, 2), vz)),
        fadd(fadd(fmul(ent(m, 1, 0), vx), fmul(ent(m, 1, 1), vy)), fmul(ent(m, 1, 2), vz)),
        fadd(fadd(fmul(ent(m, 2, 0), vx), fmul(ent(m, 2, 1), vy)), fmul(ent(m, 2, 2), vz)),
    )
}

impl Matrix4x4 {
    /// Exchange rows and columns.
    pub fn transpose(self) -> (r: Matrix4x4)
        ensures
            row_vals(r, 0) == (ent(self, 0, 0), ent(self, 1, 0), ent(self, 2, 0), ent(self, 3, 0)),
            row_vals(r, 1) == (ent(self, 0, 1), ent(self, 1, 1), ent(self, 2, 1), ent(self, 3, 1)),
            row_vals(r, 2) == (ent(self, 0, 2), ent(self, 1, 2), ent(self, 2, 2), ent(self, 3, 2)),
            row_vals(r, 3) == (ent(self, 0, 3), ent(self, 1, 3), ent(self, 2, 3), ent(self, 3, 3)),
    {
        Matrix4x4 {
            m: [
                [self.m[0][0], self.m[1][0], self.m[2][0], self.m[3][0]],
                [self.m[0][1], self.m[1][1], self.m[2][1], self.m[3][1]],
                [self.m[0][2], self.m[1][2], self.m[2][2], self.m[3][2]],
                [self.m[0][3], self.m[1][3], self.m[2][3], self.m[3][3]],
            ],
        }
    }

    /// Matrix product `self * rhs`, entry by entry in fixed point.
    pub fn mul_m(self, rhs: Matrix4x4) -> (r: Matrix4x4)
        ensures
            row_vals(r, 0) == (
                mm_ent(self, rhs, 0, 0),
                mm_ent(self, rhs, 0, 1),
                mm_ent(self, rhs, 0, 2),
                mm_ent(self, rhs, 0, 3),
            ),
            row_vals(r, 1) == (
                mm_ent(self, rhs, 1, 0),
                mm_ent(self, rhs, 1, 1),
                mm_ent(self, rhs, 1, 2),
                mm_ent(self, rhs, 1, 3),
            ),
            row_vals(r, 2) == (
                mm_ent(self, rhs, 2, 0),
                mm_ent(self, rhs, 2, 1),
                mm_ent(self, rhs, 2, 2),
                mm_ent(self, rhs, 2, 3),
            ),
            row_vals(r, 3) == (
                mm_ent(self, rhs, 3, 0),
                mm_ent(self, rhs, 3, 1),
                mm_ent(self, rhs, 3, 2),
                mm_ent(self, rhs, 3, 3),
            ),
    {
        let r0 = [
            self.row_dot(rhs, 0, 0),
            self.row_dot(rhs, 0, 1),
            self.row_dot(rhs, 0, 2),
            self.row_dot(rhs, 0, 3),
        ];
        let r1 = [
            self.row_dot(rhs, 1, 0),
            self.row_dot(rhs, 1, 1),
            self.row_dot(rhs, 1, 2),
            self.row_dot(rhs, 1, 3),
        ];
        let r2 = [
            self.row_dot(rhs, 2, 0),
            self.row_dot(rhs, 2, 1),
            self.row_dot(rhs, 2, 2),
            self.row_dot(rhs, 2, 3),
        ];
        let r3 = [
            self.row_dot(rhs, 3, 0),
            self.row_dot(rhs, 3, 1),
            self.row_dot(rhs, 3, 2),
            self.row_dot(rhs, 3, 3),
        ];
        Matrix4x4 { m: [r0, r1, r2, r3] }
    }

    /// One entry of the matrix product.
    fn row_dot(self, rhs: Matrix4x4, r: usize, c: usize) -> (e: Fx)
        requires
            r < 4,
            c < 4,
        ensures
            e@ == mm_ent(self, rhs, r as int, c as int),
    {
        self.m[r][0].times(rhs.m[0][c]).plus(self.m[r][1].times(rhs.m[1][c])).plus(
            self.m[r][2].times(rhs.m[2][c]),
        ).plus(self.m[r][3].times(rhs.m[3][c]))
    }

    /// Apply the affine map to a point (translation applies).
    pub fn mul_p(self, p: Point3T) -> (r: Point3T)
        ensures
            (r.x@, r.y@, r.z@) == app_p(self, p.x@, p.y@, p.z@),
    {
        Point3T {
            x: self.m[0][0].times(p.x).plus(self.m[0][1].times(p.y)).plus(
                self.m[0][2].times(p.z),
            ).plus(self.m[0][3]),
            y: self.m[1][0].times(p.x).plus(self.m[1][1].times(p.y)).plus(
                self.m[1][2].times(p.z),
            ).plus(self.m[1][3]),
            z: self.m[2][0].times(p.x).plus(self.m[2][1].times(p.y)).plus(
                self.m[2][2].times(p.z),
            ).plus(self.m[2][3]),
        }
    }

    /// Apply the linear part to a vector (translation does not apply).
    pub fn mul_v(self, v: Vector3T) -> (r: Vector3T)
        ensures
            (r.x@, r.y@, r.z@) == app_v(self, v.x@, v.y@, v.z@),
    {
        Vector3T {
            x: self.m[0][0].times(v.x).plus(self.m[0][1].times(v.y)).plus(self.m[0][2].times(v.z)),
            y: self.m[1][0].times(v.x).plus(self.m[1][1].times(v.y)).plus(self.m[1][2].times(v.z)),
            z: self.m[2][0].times(v.x).plus(self.m[2][1].times(v.y)).plus(self.m[2][2].times(v.z)),
        }
    }

    /// Apply the linear part to a normal.
    pub fn mul_n(self, n: Normal3T) -> (r: Normal3T)
        ensures
            (r.x@, r.y@, r.z@) == app_v(self, n.x@, n.y@, n.z@),
    {
        Normal3T {
            x: self.m[0][0].times(n.x).plus(self.m[0][1].times(n.y)).plus(self.m[0][2].times(n.z)),
            y: self.m[1][0].times(n.x).plus(self.m[1][1].times(n.y)).plus(self.m[1][2].times(n.z)),
            z: self.m[2][0].times(n.x).plus(self.m[2][1].times(n.y)).plus(self.m[2][2].times(n.z)),
        }
    }
}

/// The identity map.
pub fn indentity() -> (r: Matrix4x4)
    ensures
        row_vals(r, 0) == (SCALE as int, 0int, 0int, 0int),
        row_vals(r, 1) == (0int, SCALE as int, 0int, 0int),
        row_vals(r, 2) == (0int, 0int, SCALE as int, 0int),
        row_vals(r, 3) == (0int, 0int, 0int, SCALE as int),
{
    let o = Fx::one();
    let z = Fx::zero();
    Matrix4x4 { m: [[o, z, z, z], [z, o, z, z], [z, z, o, z], [z, z, z, o]] }
}

} // verus!
