//! Affine transform pairs and their generators.
//!
//! A `Transform` keeps a forward matrix together with its inverse, and the
//! pair composes with the rule `(A o B).m == A.m * B.m`,
//! `(A o B).m_inv == B.m_inv * A.m_inv`. Rotation generators take the sine
//! and cosine of the angle as fixed-point scalars (trigonometry itself is a
//! concern of the caller); the inverse rotation is built from the negated
//! sine, which for a rotation equals the transpose.

use vstd::prelude::*;

use crate::algebra::{unit3, Vector3T};
use crate::fx::{fmul, fneg, fsub, Fx, SCALE};
use crate::matrix::{ent, indentity, mm_ent, row_vals, Matrix4x4};

verus! {

/// A forward affine map and its inverse, kept consistent by construction.
#[derive(Clone, Copy, Debug, PartialEq)]
pub struct Transform {
    pub m: Matrix4x4,
    pub m_inv: Matrix4x4,
}

impl Transform {
    /// Composition: applying the result maps by `rhs` first, then by `self`.
    pub fn compose(self, rhs: Transform) -> (r: Transform)
        ensures
            row_vals(r.m, 0) == (
                mm_ent(self.m, rhs.m, 0, 0),
                mm_ent(self.m, rhs.m, 0, 1),
                mm_ent(self.m, rhs.m, 0, 2),
                mm_ent(self.m, rhs.m, 0, 3),
            ),
            row_vals(r.m, 1) == (
                mm_ent(self.m, rhs.m, 1, 0),
                mm_ent(self.m, rhs.m, 1, 1),
                mm_ent(self.m, rhs.m, 1, 2),
                mm_ent(self.m, rhs.m, 1, 3),
            ),
            row_vals(r.m, 2) == (
                mm_ent(self.m, rhs.m, 2, 0),
                mm_ent(self.m, rhs.m, 2, 1),
                mm_ent(self.m, rhs.m, 2, 2),
                mm_ent(self.m, rhs.m, 2, 3),
            ),
            row_vals(r.m, 3) == (
                mm_ent(self.m, rhs.m, 3, 0),
                mm_ent(self.m, rhs.m, 3, 1),
                mm_ent(self.m, rhs.m, 3, 2),
                mm_ent(self.m, rhs.m, 3, 3),
            ),
            row_vals(r.m_inv, 0) == (
                mm_ent(rhs.m_inv, self.m_inv, 0, 0),
                mm_ent(rhs.m_inv, self.m_inv, 0, 1),
                mm_ent(rhs.m_inv, self.m_inv, 0, 2),
                mm_ent(rhs.m_inv, self.m_inv, 0, 3),
            ),
            row_vals(r.m_inv, 1) == (
                mm_ent(rhs.m_inv, self.m_inv, 1, 0),
                mm_ent(rhs.m_inv, self.m_inv, 1, 1),
                mm_ent(rhs.m_inv, self.m_inv, 1, 2),
                mm_ent(rhs.m_inv, self.m_inv, 1, 3),
            ),
            row_vals(r.m_inv, 2) == (
                mm_ent(rhs.m_inv, self.m_inv, 2, 0),
                mm_ent(rhs.m_inv, self.m_inv, 2, 1),
                mm_ent(rhs.m_inv, self.m_inv, 2, 2),
                mm_ent(rhs.m_inv, self.m_inv, 2, 3),
            ),
            row_vals(r.m_inv, 3) == (
                mm_ent(rhs.m_inv, self.m_inv, 3, 0),
                mm_ent(rhs.m_inv, self.m_inv, 3, 1),
                mm_ent(rhs.m_inv, self.m_inv, 3, 2),
                mm_ent(rhs.m_inv, self.m_inv, 3, 3),
            ),
    {
        Transform { m: self.m.mul_m(rhs.m), m_inv: rhs.m_inv.mul_m(self.m_inv) }
    }
}

/// Translation by `delta`: the forward map adds `delta`, the inverse
/// subtracts it.
pub fn gen_translate(delta: Vector3T) -> (t: Transform)
    ensures
        row_vals(t.m, 0) == (SCALE as int, 0int, 0int, delta.x@),
        row_vals(t.m, 1) == (0int, SCALE as int, 0int, delta.y@),
        row_vals(t.m, 2) == (0int, 0int, SCALE as int, delta.z@),
        row_vals(t.m, 3) == (0int, 0int, 0int, SCALE as int),
        row_vals(t.m_inv, 0) == (SCALE as int, 0int, 0int, fneg(delta.x@)),
        row_vals(t.m_inv, 1) == (0int, SCALE as int, 0int, fneg(delta.y@)),
        row_vals(t.m_inv, 2) == (0int, 0int, SCALE as int, fneg(delta.z@)),
        row_vals(t.m_inv, 3) == (0int, 0int, 0int, SCALE as int),
{
    let o = Fx::one();
    let z = Fx::zero();
    Transform {
        m: Matrix4x4 {
            m: [
                [o, z, z, delta.x],
                [z, o, z, delta.y],
                [z, z, o, delta.z],
                [z, z, z, o],
            ],
        },
        m_inv: Matrix4x4 {
            m: [
                [o, z, z, delta.x.neg()],
                [z, o, z, delta.y.neg()],
                [z, z, o, delta.z.neg()],
                [z, z, z, o],
            ],
        },
    }
}

/// Scaling by `(x, y, z)`; the inverse scales by the reciprocals, so zero
/// factors are ruled out.
pub fn gen_scale(x: Fx, y: Fx, z: Fx) -> (t: Transform)
    requires
        x@ != 0,
        y@ != 0,
        z@ != 0,
    ensures
        row_vals(t.m, 0) == (x@, 0int, 0int, 0int),
        row_vals(t.m, 1) == (0int, y@, 0int, 0int),
        row_vals(t.m, 2) == (0int, 0int, z@, 0int),
        row_vals(t.m, 3) == (0int, 0int, 0int, SCALE as int),
        row_vals(t.m_inv, 0) == (crate::fx::fdivr(SCALE as int, x@), 0int, 0int, 0int),
        row_vals(t.m_inv, 1) == (0int, crate::fx::fdivr(SCALE as int, y@), 0int, 0int),
        row_vals(t.m_inv, 2) == (0int, 0int, crate::fx::fdivr(SCALE as int, z@), 0int),
        row_vals(t.m_inv, 3) == (0int, 0int, 0int, SCALE as int),
{
    let o = Fx::one();
    let n = Fx::zero();
    Transform {
        m: Matrix4x4 {
            m: [[x, n, n, n], [n, y, n, n], [n, n, z, n], [n, n, n, o]],
        },
        m_inv: Matrix4x4 {
            m: [
                [o.over(x), n, n, n],
                [n, o.over(y), n, n],
                [n, n, o.over(z), n],
                [n, n, n, o],
            ],
        },
    }
}

/// Rotation about the x axis, given the sine and cosine of the angle.
pub fn gen_rotate_x(sin_theta: Fx, cos_theta: Fx) -> (t: Transform)
    ensures
        row_vals(t.m, 0) == (SCALE as int, 0int, 0int, 0int),
        row_vals(t.m, 1) == (0int, cos_theta@, fneg(sin_theta@), 0int),
        row_vals(t.m, 2) == (0int, sin_theta@, cos_theta@, 0int),
        row_vals(t.m, 3) == (0int, 0int, 0int, SCALE as int),
        row_vals(t.m_inv, 0) == (SCALE as int, 0int, 0int, 0int),
        row_vals(t.m_inv, 1) == (0int, cos_theta@, sin_theta@, 0int),
        row_vals(t.m_inv, 2) == (0int, fneg(sin_theta@), cos_theta@, 0int),
        row_vals(t.m_inv, 3) == (0int, 0int, 0int, SCALE as int),
{
    let o = Fx::one();
    let z = Fx::zero();
    let ns = sin_theta.neg();
    Transform {
        m: Matrix4x4 {
            m: [
                [o, z, z, z],
                [z, cos_theta, ns, z],
                [z, sin_theta, cos_theta, z],
                [z, z, z, o],
            ],
        },
        m_inv: Matrix4x4 {
            m: [
                [o, z, z, z],
                [z, cos_theta, sin_theta, z],
                [z, ns, cos_theta, z],
                [z, z, z, o],
            ],
        },
    }
}

/// Rotation about the y axis, given the sine and cosine of the angle.
pub fn gen_rotate_y(sin_theta: Fx, cos_theta: Fx) -> (t: Transform)
    ensures
        row_vals(t.m, 0) == (cos_theta@, 0int, sin_theta@, 0int),
        row_vals(t.m, 1) == (0int, SCALE as int, 0int, 0int),
        row_vals(t.m, 2) == (fneg(sin_theta@), 0int, cos_theta@, 0int),
        row_vals(t.m, 3) == (0int, 0int, 0int, SCALE as int),
        row_vals(t.m_inv, 0) == (cos_theta@, 0int, fneg(sin_theta@), 0int),
        row_vals(t.m_inv, 1) == (0int, SCALE as int, 0int, 0int),
        row_vals(t.m_inv, 2) == (sin_theta@, 0int, cos_theta@, 0int),
        row_vals(t.m_inv, 3) == (0int, 0int, 0int, SCALE as int),
{
    let o = Fx::one();
    let z = Fx::zero();
    let ns = sin_theta.neg();
    Transform {
        m: Matrix4x4 {
            m: [
                [cos_theta, z, sin_theta, z],
                [z, o, z, z],
                [ns, z, cos_theta, z],
                [z, z, z, o],
            ],
        },
        m_inv: Matrix4x4 {
            m: [
                [cos_theta, z, ns, z],
                [z, o, z, z],
                [sin_theta, z, cos_theta, z],
                [z, z, z, o],
            ],
        },
    }
}

/// Rotation about the z axis, given the sine and cosine of the angle.
pub fn gen_rotate_z(sin_theta: Fx, cos_theta: Fx) -> (t: Transform)
    ensures
        row_vals(t.m, 0) == (cos_theta@, fneg(sin_theta@), 0int, 0int),
        row_vals(t.m, 1) == (sin_theta@, cos_theta@, 0int, 0int),
        row_vals(t.m, 2) == (0int, 0int, SCALE as int, 0int),
        row_vals(t.m, 3) == (0int, 0int, 0int, SCALE as int),
        row_vals(t.m_inv, 0) == (cos_theta@, sin_theta@, 0int, 0int),
        row_vals(t.m_inv, 1) == (fneg(sin_theta@), cos_theta@, 0int, 0int),
        row_vals(t.m_inv, 2) == (0int, 0int, SCALE as int, 0int),
        row_vals(t.m_inv, 3) == (0int, 0int, 0int, SCALE as int),
{
    let o = Fx::one();
    let z = Fx::zero();
    let ns = sin_theta.neg();
    Transform {
        m: Matrix4x4 {
            m: [
                [cos_theta, ns, z, z],
                [sin_theta, cos_theta, z, z],
                [z, z, o, z],
                [z, z, z, o],
            ],
        },
        m_inv: Matrix4x4 {
            m: [
                [cos_theta, sin_theta, z, z],
                [ns, cos_theta, z, z],
                [z, z, o, z],
                [z, z, z, o],
            ],
        },
    }
}

/// Raw entries of the Rodrigues rotation matrix for the unit axis
/// `(ax, ay, az)` and an angle with sine `s` and cosine `c`; row by row.
pub open spec fn rodrigues(ax: int, ay: int, az: int, s: int, c: int) -> (
    (int, int, int),
    (int, int, int),
    (int, int, int),
) {
    let sc = SCALE as int;
    (
        (
            crate::fx::fadd(fmul(ax, ax), fmul(fsub(sc, fmul(ax, ax)), c)),
            fsub(fmul(fmul(ax, ay), fsub(sc, c)), fmul(az, s)),
            crate::fx::fadd(fmul(fmul(ax, az), fsub(sc, c)), fmul(ay, s)),
        ),
        (
            crate::fx::fadd(fmul(fmul(ay, ax), fsub(sc, c)), fmul(az, s)),
            crate::fx::fadd(fmul(ay, ay), fmul(fsub(sc, fmul(ay, ay)), c)),
            fsub(fmul(fmul(ay, az), fsub(sc, c)), fmul(ax, s)),
        ),
        (
            fsub(fmul(fmul(az, ax), fsub(sc, c)), fmul(ay, s)),
            crate::fx::fadd(fmul(fmul(az, ay), fsub(sc, c)), fmul(ax, s)),
            crate::fx::fadd(fmul(az, az), fmul(fsub(sc, fmul(az, az)), c)),
        ),
    )
}

/// The Rodrigues matrix for a unit axis and a sine/cosine pair, with an
/// identity translation row and column.
fn general_rotate_matrix(sin_theta: Fx, cos_theta: Fx, unit_a: Vector3T) -> (r: Matrix4x4)
    ensures
        ({
            let rows = rodrigues(unit_a.x@, unit_a.y@, unit_a.z@, sin_theta@, cos_theta@);
            row_vals(r, 0) == (rows.0.0, rows.0.1, rows.0.2, 0int) && row_vals(r, 1) == (
                rows.1.0,
                rows.1.1,
                rows.1.2,
                0int,
            ) && row_vals(r, 2) == (rows.2.0, rows.2.1, rows.2.2, 0int) && row_vals(r, 3) == (
                0int,
                0int,
                0int,
                SCALE as int,
            )
        }),
{
    let o = Fx::one();
    let z = Fx::zero();
    let omc = o.minus(cos_theta);
    let ax = unit_a.x;
    let ay = unit_a.y;
    let az = unit_a.z;
    Matrix4x4 {
        m: [
            [
                ax.times(ax).plus(o.minus(ax.times(ax)).times(cos_theta)),
                ax.times(ay).times(omc).minus(az.times(sin_theta)),
                ax.times(az).times(omc).plus(ay.times(sin_theta)),
                z,
            ],
            [
                ay.times(ax).times(omc).plus(az.times(sin_theta)),
                ay.times(ay).plus(o.minus(ay.times(ay)).times(cos_theta)),
                ay.times(az).times(omc).minus(ax.times(sin_theta)),
                z,
            ],
            [
                az.times(ax).times(omc).minus(ay.times(sin_theta)),
                az.times(ay).times(omc).plus(ax.times(sin_theta)),
                az.times(az).plus(o.minus(az.times(az)).times(cos_theta)),
                z,
            ],
            [z, z, z, o],
        ],
    }
}

/// Rotation about an arbitrary axis, given the sine and cosine of the angle;
/// the axis is normalized internally and must not be the zero vector. The
/// inverse is the rotation by the negated angle.
pub fn gen_rotate(sin_theta: Fx, cos_theta: Fx, axis: Vector3T) -> (t: Transform)
    ensures
        ({
            let u = unit3(axis.x@, axis.y@, axis.z@);
            let fwd = rodrigues(u.0, u.1, u.2, sin_theta@, cos_theta@);
            let inv = rodrigues(u.0, u.1, u.2, fneg(sin_theta@), cos_theta@);
            row_vals(t.m, 0) == (fwd.0.0, fwd.0.1, fwd.0.2, 0int) && row_vals(t.m, 1) == (
                fwd.1.0,
                fwd.1.1,
                fwd.1.2,
                0int,
            ) && row_vals(t.m, 2) == (fwd.2.0, fwd.2.1, fwd.2.2, 0int) && row_vals(t.m, 3) == (
                0int,
                0int,
                0int,
                SCALE as int,
            ) && row_vals(t.m_inv, 0) == (inv.0.0, inv.0.1, inv.0.2, 0int) && row_vals(t.m_inv, 1)
                == (inv.1.0, inv.1.1, inv.1.2, 0int) && row_vals(t.m_inv, 2) == (
                inv.2.0,
                inv.2.1,
                inv.2.2,
                0int,
            ) && row_vals(t.m_inv, 3) == (0int, 0int, 0int, SCALE as int)
        }),
{
    let a = axis.unit_vector();
    let rotate_matrix = general_rotate_matrix(sin_theta, cos_theta, a);
    let inverse_matrix = general_rotate_matrix(sin_theta.neg(), cos_theta, a);
    Transform { m: rotate_matrix, m_inv: inverse_matrix }
}

} // verus!
