//! Axis-aligned bounding boxes: the slab test used to prune intersection
//! queries, and the `join` that merges child boxes.
//!
//! The slab test decides emptiness of the slab intervals with exact 128-bit
//! cross multiplications, never dividing, so no rounding is involved. Its
//! contract is two-sided: the answer equals `slab_pass`, the spec-level
//! interval fold, step for step; and a `false` answer additionally carries
//! the certificate that no parameter `t` inside the queried window places
//! the exact (unrounded) point of the ray inside the box — the guarantee
//! the bounding-volume hierarchy needs, since pruning can then never
//! discard a real hit.

use vstd::prelude::*;

use crate::algebra::Point3T;
use crate::fx::{fmax, fmin, Fx, MAX_RAW, SCALE};
use crate::ray::Ray;

verus! {

/// An axis-aligned box, `minimum` componentwise at or below `maximum` for any
/// box a shape produces.
#[derive(Clone, Copy, Debug, PartialEq, Eq, Structural)]
pub struct AABB {
    pub minimum: Point3T,
    pub maximum: Point3T,
}

/// The exact point `o + (t/SCALE) * d` of one axis lies inside `[mn, mx]`
/// (everything scaled by `SCALE` to stay in integers).
pub open spec fn slab_contains(mn: int, mx: int, o: int, d: int, t: int) -> bool {
    mn * (SCALE as int) <= o * (SCALE as int) + t * d && o * (SCALE as int) + t * d <= mx * (
    SCALE as int)
}

/// The exact point of `r` at raw parameter `t` lies inside the box on all
/// three axes.
pub open spec fn in_box_at(bb: AABB, r: Ray, t: int) -> bool {
    slab_contains(bb.minimum.x@, bb.maximum.x@, r.a.x@, r.b.x@, t) && slab_contains(
        bb.minimum.y@,
        bb.maximum.y@,
        r.a.y@,
        r.b.y@,
        t,
    ) && slab_contains(bb.minimum.z@, bb.maximum.z@, r.a.z@, r.b.z@, t)
}

/// One step of the interval fold: narrow the running rational window
/// `[s.0/s.1, s.2/s.3]` (denominators positive) by the slab of one axis;
/// nothing when the narrowed window is certainly empty. A zero direction
/// component leaves the axis unbounded when the origin sits inside the slab
/// and empties it otherwise. This is the exact meaning of the executable
/// fold below, step for step.
pub open spec fn narrow_spec(
    s: (int, int, int, int),
    mn: int,
    mx: int,
    o: int,
    d: int,
) -> Option<(int, int, int, int)> {
    if d == 0 {
        if mn <= o && o <= mx {
            Some(s)
        } else {
            None
        }
    } else {
        let lo = if d > 0 {
            (mn - o) * (SCALE as int)
        } else {
            (o - mx) * (SCALE as int)
        };
        let hi = if d > 0 {
            (mx - o) * (SCALE as int)
        } else {
            (o - mn) * (SCALE as int)
        };
        let p = if d > 0 {
            d
        } else {
            -d
        };
        let ln2 = if lo * s.1 > s.0 * p {
            lo
        } else {
            s.0
        };
        let ld2 = if lo * s.1 > s.0 * p {
            p
        } else {
            s.1
        };
        let hn2 = if hi * s.3 < s.2 * p {
            hi
        } else {
            s.2
        };
        let hd2 = if hi * s.3 < s.2 * p {
            p
        } else {
            s.3
        };
        if ln2 * hd2 > hn2 * ld2 {
            None
        } else {
            Some((ln2, ld2, hn2, hd2))
        }
    }
}

/// The slab test accepts: starting from `[t_min, t_max]`, narrowing by the
/// three axis slabs in order never empties the window.
pub open spec fn slab_pass(bb: AABB, r: Ray, t_min: int, t_max: int) -> bool {
    match narrow_spec((t_min, 1int, t_max, 1int), bb.minimum.x@, bb.maximum.x@, r.a.x@, r.b.x@) {
        Some(s1) => match narrow_spec(s1, bb.minimum.y@, bb.maximum.y@, r.a.y@, r.b.y@) {
            Some(s2) => narrow_spec(s2, bb.minimum.z@, bb.maximum.z@, r.a.z@, r.b.z@) is Some,
            None => false,
        },
        None => false,
    }
}

/// Every point of `inner` lies inside `outer`.
pub open spec fn contains_box(outer: AABB, inner: AABB) -> bool {
    outer.minimum.x@ <= inner.minimum.x@ && inner.maximum.x@ <= outer.maximum.x@
        && outer.minimum.y@ <= inner.minimum.y@ && inner.maximum.y@ <= outer.maximum.y@
        && outer.minimum.z@ <= inner.minimum.z@ && inner.maximum.z@ <= outer.maximum.z@
}

/// `j` is the componentwise min/max merge of `a` and `b`.
pub open spec fn joined(a: AABB, b: AABB, j: AABB) -> bool {
    j.minimum.x@ == fmin(a.minimum.x@, b.minimum.x@) && j.minimum.y@ == fmin(
        a.minimum.y@,
        b.minimum.y@,
    ) && j.minimum.z@ == fmin(a.minimum.z@, b.minimum.z@) && j.maximum.x@ == fmax(
        a.maximum.x@,
        b.maximum.x@,
    ) && j.maximum.y@ == fmax(a.maximum.y@, b.maximum.y@) && j.maximum.z@ == fmax(
        a.maximum.z@,
        b.maximum.z@,
    )
}

/// The union law of `join`: the merged box contains both operands whole.
pub proof fn lemma_join_contains(a: AABB, b: AABB, j: AABB)
    requires
        joined(a, b, j),
    ensures
        contains_box(j, a),
        contains_box(j, b),
{
}

/// Containment carries the slab certificate outward: a point of the ray
/// inside an inner box is inside every box that contains it.
pub proof fn lemma_in_box_monotone(outer: AABB, inner: AABB, r: Ray, t: int)
    requires
        contains_box(outer, inner),
        in_box_at(inner, r, t),
    ensures
        in_box_at(outer, r, t),
{
    assert(outer.minimum.x@ * (SCALE as int) <= inner.minimum.x@ * (SCALE as int));
    assert(inner.maximum.x@ * (SCALE as int) <= outer.maximum.x@ * (SCALE as int));
    assert(outer.minimum.y@ * (SCALE as int) <= inner.minimum.y@ * (SCALE as int));
    assert(inner.maximum.y@ * (SCALE as int) <= outer.maximum.y@ * (SCALE as int));
    assert(outer.minimum.z@ * (SCALE as int) <= inner.minimum.z@ * (SCALE as int));
    assert(inner.maximum.z@ * (SCALE as int) <= outer.maximum.z@ * (SCALE as int));
}

/// Running slab interval `[ln/ld, hn/hd]`, denominators positive.
struct SlabState {
    ln: i128,
    ld: i128,
    hn: i128,
    hd: i128,
}

/// The running interval as the mathematical quadruple `narrow_spec` folds.
spec fn stv(s: SlabState) -> (int, int, int, int) {
    (s.ln as int, s.ld as int, s.hn as int, s.hd as int)
}

/// Magnitude bounds under which the cross products below stay far from the
/// 128-bit range.
spec fn st_wf(s: SlabState) -> bool {
    0 < s.ld <= 0x100_0000_0000 && 0 < s.hd <= 0x100_0000_0000 && -0x200_0000_0000_0000 <= s.ln
        <= 0x200_0000_0000_0000 && -0x200_0000_0000_0000 <= s.hn <= 0x200_0000_0000_0000
}

/// What the running interval demands of a raw parameter `t`.
spec fn st_bounds(s: SlabState, t: int) -> bool {
    t * s.ld >= s.ln && t * s.hd <= s.hn
}

proof fn lemma_cross_bound(t: int, ld: int, hd: int, ln: int, hn: int)
    requires
        ld > 0,
        hd > 0,
        t * ld >= ln,
        t * hd <= hn,
    ensures
        ln * hd <= hn * ld,
{
    assert(ln * hd <= hn * ld) by (nonlinear_arith)
        requires
            ld > 0,
            hd > 0,
            t * ld >= ln,
            t * hd <= hn,
    ;
}

/// Narrow the running interval by one axis slab; yields nothing when the
/// interval is certainly empty.
fn axis_narrow(s: SlabState, mn: Fx, mx: Fx, o: Fx, d: Fx) -> (r: Option<SlabState>)
    requires
        st_wf(s),
    ensures
        match r {
            Some(s2) => st_wf(s2) && narrow_spec(stv(s), mn@, mx@, o@, d@) == Some(stv(s2))
                && forall|t: int|
                st_bounds(s, t) && slab_contains(mn@, mx@, o@, d@, t) ==> st_bounds(s2, t),
            None => narrow_spec(stv(s), mn@, mx@, o@, d@) is None && forall|t: int|
                !(st_bounds(s, t) && slab_contains(mn@, mx@, o@, d@, t)),
        },
{
    let dv: i128 = d.raw() as i128;
    let mnv: i128 = mn.raw() as i128;
    let mxv: i128 = mx.raw() as i128;
    let ov: i128 = o.raw() as i128;
    if dv == 0 {
        if mnv <= ov && ov <= mxv {
            Some(SlabState { ln: s.ln, ld: s.ld, hn: s.hn, hd: s.hd })
        } else {
            assert forall|t: int| !(st_bounds(s, t) && slab_contains(mn@, mx@, o@, d@, t)) by {
                if slab_contains(mn@, mx@, o@, d@, t) {
                    assert(t * d@ == 0) by (nonlinear_arith)
                        requires
                            d@ == 0,
                    ;
                }
            }
            None
        }
    } else {
        let (lo, hi, p): (i128, i128, i128) = if dv > 0 {
            ((mnv - ov) * 65536, (mxv - ov) * 65536, dv)
        } else {
            ((ov - mxv) * 65536, (ov - mnv) * 65536, -dv)
        };
        proof {
            crate::fx::lemma_mul_bound(lo as int, s.ld as int, 0x200_0000_0000_0000);
            crate::fx::lemma_mul_bound(s.ln as int, p as int, 0x200_0000_0000_0000);
            crate::fx::lemma_mul_bound(hi as int, s.hd as int, 0x200_0000_0000_0000);
            crate::fx::lemma_mul_bound(s.hn as int, p as int, 0x200_0000_0000_0000);
        }
        let (ln2, ld2): (i128, i128) = if lo * s.ld > s.ln * p {
            (lo, p)
        } else {
            (s.ln, s.ld)
        };
        let (hn2, hd2): (i128, i128) = if hi * s.hd < s.hn * p {
            (hi, p)
        } else {
            (s.hn, s.hd)
        };
        let s2 = SlabState { ln: ln2, ld: ld2, hn: hn2, hd: hd2 };
        proof {
            assert forall|t: int|
                st_bounds(s, t) && slab_contains(mn@, mx@, o@, d@, t) implies st_bounds(s2, t) by {
                assert(t * (p as int) >= lo as int && t * (p as int) <= hi as int) by (
                nonlinear_arith)
                    requires
                        p as int == (if d@ > 0 {
                            d@
                        } else {
                            -(d@)
                        }),
                        lo as int == (if d@ > 0 {
                            (mn@ - o@) * 65536
                        } else {
                            (o@ - mx@) * 65536
                        }),
                        hi as int == (if d@ > 0 {
                            (mx@ - o@) * 65536
                        } else {
                            (o@ - mn@) * 65536
                        }),
                        d@ != 0,
                        mn@ * 65536 <= o@ * 65536 + t * d@,
                        o@ * 65536 + t * d@ <= mx@ * 65536,
                ;
            }
            crate::fx::lemma_mul_bound(ln2 as int, hd2 as int, 0x200_0000_0000_0000);
            crate::fx::lemma_mul_bound(hn2 as int, ld2 as int, 0x200_0000_0000_0000);
        }
        if s2.ln * s2.hd > s2.hn * s2.ld {
            assert forall|t: int| !(st_bounds(s, t) && slab_contains(mn@, mx@, o@, d@, t)) by {
                if st_bounds(s, t) && slab_contains(mn@, mx@, o@, d@, t) {
                    assert(st_bounds(s2, t));
                    lemma_cross_bound(t, s2.ld as int, s2.hd as int, s2.ln as int, s2.hn as int);
                }
            }
            None
        } else {
            Some(s2)
        }
    }
}

impl AABB {
    /// The slab test. The answer is pinned on both sides: it equals the
    /// exact interval fold `slab_pass`, and a `false` answer additionally
    /// certifies that no raw parameter in `[t_min, t_max]` places the exact
    /// point of `r` inside this box (the direction the hierarchy's pruning
    /// proof relies on).
    pub fn hit(self, r: &Ray, t_min: Fx, t_max: Fx) -> (res: bool)
        ensures
            res == slab_pass(self, *r, t_min@, t_max@),
            !res ==> forall|t: int| t_min@ <= t <= t_max@ ==> !in_box_at(self, *r, t),
    {
        let tn = t_min.raw();
        let tx = t_max.raw();
        let s0 = SlabState { ln: tn as i128, ld: 1, hn: tx as i128, hd: 1 };
        proof {
            assert forall|t: int| t_min@ <= t <= t_max@ implies st_bounds(s0, t) by {
                assert(t * 1 == t) by (nonlinear_arith);
            }
        }
        let s1 = match axis_narrow(s0, self.minimum.x, self.maximum.x, r.a.x, r.b.x) {
            Some(s) => s,
            None => {
                proof {
                    assert forall|t: int|
                        t_min@ <= t <= t_max@ implies !in_box_at(self, *r, t) by {
                        assert(st_bounds(s0, t));
                        if in_box_at(self, *r, t) {
                            assert(st_bounds(s0, t) && slab_contains(
                                self.minimum.x@,
                                self.maximum.x@,
                                r.a.x@,
                                r.b.x@,
                                t,
                            ));
                        }
                    }
                }
                return false;
            },
        };
        let s2 = match axis_narrow(s1, self.minimum.y, self.maximum.y, r.a.y, r.b.y) {
            Some(s) => s,
            None => {
                proof {
                    assert forall|t: int|
                        t_min@ <= t <= t_max@ implies !in_box_at(self, *r, t) by {
                        assert(st_bounds(s0, t));
                        if in_box_at(self, *r, t) {
                            assert(st_bounds(s1, t));
                            assert(st_bounds(s1, t) && slab_contains(
                                self.minimum.y@,
                                self.maximum.y@,
                                r.a.y@,
                                r.b.y@,
                                t,
                            ));
                        }
                    }
                }
                return false;
            },
        };
        let _s3 = match axis_narrow(s2, self.minimum.z, self.maximum.z, r.a.z, r.b.z) {
            Some(s) => s,
            None => {
                proof {
                    assert forall|t: int|
                        t_min@ <= t <= t_max@ implies !in_box_at(self, *r, t) by {
                        assert(st_bounds(s0, t));
                        if in_box_at(self, *r, t) {
                            assert(st_bounds(s1, t));
                            assert(st_bounds(s2, t));
                            assert(st_bounds(s2, t) && slab_contains(
                                self.minimum.z@,
                                self.maximum.z@,
                                r.a.z@,
                                r.b.z@,
                                t,
                            ));
                        }
                    }
                }
                return false;
            },
        };
        proof {
            assert(stv(s0) == (t_min@, 1int, t_max@, 1int));
            assert(slab_pass(self, *r, t_min@, t_max@));
        }
        true
    }

    /// Decide exactly whether the unrounded point of `r` at raw parameter `t`
    /// lies inside this box: the 128-bit certificate the primitive test
    /// attaches to each hit.
    pub fn point_in_box_exact(&self, r: &Ray, t: Fx) -> (res: bool)
        ensures
            res == in_box_at(*self, *r, t@),
    {
        let tv: i128 = t.raw() as i128;
        let checked = self.axis_in(self.minimum.x, self.maximum.x, r.a.x, r.b.x, tv) && self.axis_in(
            self.minimum.y,
            self.maximum.y,
            r.a.y,
            r.b.y,
            tv,
        ) && self.axis_in(self.minimum.z, self.maximum.z, r.a.z, r.b.z, tv);
        checked
    }

    /// One axis of the exact membership test.
    fn axis_in(&self, mn: Fx, mx: Fx, o: Fx, d: Fx, tv: i128) -> (res: bool)
        requires
            -0x100_0000_0000 <= tv <= 0x100_0000_0000,
        ensures
            res == slab_contains(mn@, mx@, o@, d@, tv as int),
    {
        let mnv: i128 = mn.raw() as i128;
        let mxv: i128 = mx.raw() as i128;
        let ov: i128 = o.raw() as i128;
        let dv: i128 = d.raw() as i128;
        proof {
            crate::fx::lemma_mul_bound(tv as int, dv as int, 0x100_0000_0000);
        }
        let reach: i128 = ov * 65536 + tv * dv;
        mnv * 65536 <= reach && reach <= mxv * 65536
    }

    /// Componentwise union: the smallest axis-aligned box containing both.
    pub fn join(box_a: &AABB, box_b: &AABB) -> (j: AABB)
        ensures
            joined(*box_a, *box_b, j),
            contains_box(j, *box_a),
            contains_box(j, *box_b),
    {
        let j = AABB {
            minimum: Point3T {
                x: box_a.minimum.x.min(box_b.minimum.x),
                y: box_a.minimum.y.min(box_b.minimum.y),
                z: box_a.minimum.z.min(box_b.minimum.z),
            },
            maximum: Point3T {
                x: box_a.maximum.x.max(box_b.maximum.x),
                y: box_a.maximum.y.max(box_b.maximum.y),
                z: box_a.maximum.z.max(box_b.maximum.z),
            },
        };
        proof {
            lemma_join_contains(*box_a, *box_b, j);
        }
        j
    }
}

} // verus!
