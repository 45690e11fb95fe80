//! Common ground of the intersection tests: the `Interaction` record, the
//! ghost-level hit description that every shape's contract is stated over,
//! and the shared quadratic solver.
//!
//! Each shape has a *canonical hit* specification: the nearest root beyond
//! `t_min`, with no upper bound. An executable test with a window
//! `(t_min, t_max)` returns exactly that canonical hit clipped at `t_max`
//! (`clip_hit`). Stating results this way makes the nearest-hit loops and the
//! hierarchy query compose: shrinking the window can only discard hits, never
//! change them.

use vstd::prelude::*;

use crate::algebra::{Normal3T, Point3T};
use crate::fx::{fadd, fdivr, fmul, fneg, fsub, sqrt_val, Fx, SCALE};

verus! {

/// The result of a successful ray-shape intersection, in the space the
/// caller queried in.
#[derive(Clone, Copy, Debug, PartialEq, Eq, Structural)]
pub struct Interaction {
    pub t: Fx,
    pub p: Point3T,
    pub normal: Normal3T,
}

/// Ghost description of a hit: the raw parameter, point and normal.
pub ghost struct HitSpec {
    pub t: int,
    pub px: int,
    pub py: int,
    pub pz: int,
    pub nx: int,
    pub ny: int,
    pub nz: int,
}

/// Keep a canonical hit only when it falls below the window's upper bound.
pub open spec fn clip_hit(h: Option<HitSpec>, t_max: int) -> Option<HitSpec> {
    match h {
        Some(hh) => if hh.t < t_max {
            Some(hh)
        } else {
            None
        },
        None => None,
    }
}

/// The executable result realizes the ghost hit, field by field.
pub open spec fn matches_hit(res: Option<Interaction>, h: Option<HitSpec>) -> bool {
    match res {
        Some(i) => h is Some && {
            let hh = h->Some_0;
            i.t@ == hh.t && i.p.x@ == hh.px && i.p.y@ == hh.py && i.p.z@ == hh.pz && i.normal.x@
                == hh.nx && i.normal.y@ == hh.ny && i.normal.z@ == hh.nz
        },
        None => h is None,
    }
}

/// Raw results of the quadratic `a t^2 + b t + c = 0` in fixed point:
/// validity, then the roots in ascending order. The solution is invalid when
/// the discriminant is negative or the leading coefficient is zero (a ray
/// parallel to the measured axes meets no finite root).
pub open spec fn solve_quad_spec(a: int, b: int, c: int) -> (bool, int, int) {
    let disc = fsub(fmul(b, b), fmul(fmul(4 * (SCALE as int), a), c));
    if disc < 0 || a == 0 {
        (false, 0int, 0int)
    } else {
        let root = sqrt_val(disc * (SCALE as int));
        let neg_half = -(SCALE as int) / 2;
        let t0 = fdivr(fmul(neg_half, fadd(b, root)), a);
        let t1 = fdivr(fmul(neg_half, fsub(b, root)), a);
        if t0 > t1 {
            (true, t1, t0)
        } else {
            (true, t0, t1)
        }
    }
}

/// Solve `a t^2 + b t + c = 0`; valid flag, then roots with `t0 <= t1`.
pub fn solve_quadratic(a: Fx, b: Fx, c: Fx) -> (r: (bool, Fx, Fx))
    ensures
        (r.0, r.1@, r.2@) == solve_quad_spec(a@, b@, c@),
{
    let four = Fx::from_int(4);
    let discriminant = b.times(b).minus(four.times(a).times(c));
    if discriminant.lt(Fx::zero()) || a.raw() == 0 {
        (false, Fx::zero(), Fx::zero())
    } else {
        let root = discriminant.sqrt();
        let neg_half = Fx::from_raw(-32768);
        let t0 = neg_half.times(b.plus(root)).over(a);
        let t1 = neg_half.times(b.minus(root)).over(a);
        if t1.lt(t0) {
            (true, t1, t0)
        } else {
            (true, t0, t1)
        }
    }
}

} // verus!
