//! The primitive: one shape bound to one material and one transform.
//!
//! `collide` maps the incoming world-space ray into object space through the
//! transform's inverse, delegates to the shape, then maps the hit point back
//! with the forward matrix and the normal with the transpose of the inverse
//! (the inverse-transpose rule that keeps normals perpendicular under
//! non-uniform scale), re-normalizing afterwards.
//!
//! Every hit returned carries a certificate: the exact, unrounded point of
//! the world ray at the returned parameter lies inside the primitive's world
//! bounding box (checked with `AABB::point_in_box_exact`; a rounding-edge
//! hit that escapes its own box is reported as a miss). Together with the
//! conservative slab test this is what makes hierarchy pruning lossless.

use vstd::prelude::*;

use crate::aabb::{slab_contains, AABB};
use crate::fx::{fmax, fmin, fneg, Fx};
use crate::material::{scatter_post, HitRecord, Material, MaterialHit};
use crate::matrix::{app_p, app_v, ent, row_vals, Matrix4x4};
use crate::ray::Ray;
use crate::shapes::base::{clip_hit, HitSpec, Interaction};
use crate::shapes::sphere2::{sphere_hit_raw, Sphere};
use crate::transforms::Transform;
use crate::algebra::{unit3, Normal3T, Point3T, Vector3T};

verus! {

/// The closed set of shapes a primitive can carry.
#[derive(Clone, Copy, Debug)]
pub enum Shape {
    Sphere(Sphere),
}

/// A transform provider: yields the object-to-world transform to use at a
/// given shutter time, so a primitive can move rigidly over the exposure.
pub trait TransformTrait {
    /// The transform in effect at time `time_t`.
    fn generate_transform(&self, time_t: Fx) -> Transform;
}

impl TransformTrait for Transform {
    /// A bare transform is its own provider: constant over time.
    fn generate_transform(&self, _time_t: Fx) -> (r: Transform)
        ensures
            r == *self,
    {
        *self
    }
}

/// One shape with its material, placed by a transform.
#[derive(Clone, Copy)]
pub struct Primative {
    pub shape: Shape,
    pub material: Material,
    pub transform: Transform,
}

/// Raw component value of applying the *transpose* of `m`'s linear part to
/// `(vx, vy, vz)`: the inverse-transpose normal rule, without building the
/// transposed matrix.
pub open spec fn app_vt(m: Matrix4x4, vx: int, vy: int, vz: int) -> (int, int, int) {
    (
        crate::fx::fadd(
            crate::fx::fadd(
                crate::fx::fmul(ent(m, 0, 0), vx),
                crate::fx::fmul(ent(m, 1, 0), vy),
            ),
            crate::fx::fmul(ent(m, 2, 0), vz),
        ),
        crate::fx::fadd(
            crate::fx::fadd(
                crate::fx::fmul(ent(m, 0, 1), vx),
                crate::fx::fmul(ent(m, 1, 1), vy),
            ),
            crate::fx::fmul(ent(m, 2, 1), vz),
        ),
        crate::fx::fadd(
            crate::fx::fadd(
                crate::fx::fmul(ent(m, 0, 2), vx),
                crate::fx::fmul(ent(m, 1, 2), vy),
            ),
            crate::fx::fmul(ent(m, 2, 2), vz),
        ),
    )
}

/// The normal rule under non-uniform scale, in general: on a diagonal
/// inverse matrix the inverse-transpose mapping multiplies each normal
/// component by the matching reciprocal scale. Together with the normal
/// clause of `prim_hit_raw` — the returned world normal is exactly
/// `unit3(app_vt(m_inv, n))` with `n` the object-space radial vector — this
/// is the ellipsoid-gradient law: a sphere placed by `gen_scale(sx, sy, sz)`
/// reports the normalized direction `(n.x/sx, n.y/sy, n.z/sz)`, which is the
/// gradient of the ellipsoid's implicit equation at the hit point, not the
/// forward-mapped sphere normal.
pub proof fn lemma_scale_inverse_transpose(
    m_inv: Matrix4x4,
    ix: int,
    iy: int,
    iz: int,
    nx: int,
    ny: int,
    nz: int,
)
    requires
        row_vals(m_inv, 0) == (ix, 0int, 0int, 0int),
        row_vals(m_inv, 1) == (0int, iy, 0int, 0int),
        row_vals(m_inv, 2) == (0int, 0int, iz, 0int),
    ensures
        app_vt(m_inv, nx, ny, nz) == (
            crate::fx::fmul(ix, nx),
            crate::fx::fmul(iy, ny),
            crate::fx::fmul(iz, nz),
        ),
{
    assert(0int / 65536int == 0);
    assert(crate::fx::fmul(0, ny) == 0);
    assert(crate::fx::fmul(0, nz) == 0);
    assert(crate::fx::fmul(0, nx) == 0);
}

/// Raw corner values of the primitive's world bounding box: the eight
/// corners of the shape's object-space box pushed through the forward
/// matrix, then re-axis-aligned by componentwise min/max (a rotated box's
/// bounds must be recomputed from every corner, not relabeled from two).
#[verifier::opaque]
pub open spec fn prim_box_vals(p: Primative) -> ((int, int, int), (int, int, int)) {
    let rad = match p.shape {
        Shape::Sphere(s) => s.radius@,
    };
    let m = p.transform.m;
    let nr = fneg(rad);
    let c0 = app_p(m, nr, nr, nr);
    let c1 = app_p(m, nr, nr, rad);
    let c2 = app_p(m, nr, rad, nr);
    let c3 = app_p(m, nr, rad, rad);
    let c4 = app_p(m, rad, nr, nr);
    let c5 = app_p(m, rad, nr, rad);
    let c6 = app_p(m, rad, rad, nr);
    let c7 = app_p(m, rad, rad, rad);
    (
        (
            fmin(fmin(fmin(c0.0, c1.0), fmin(c2.0, c3.0)), fmin(fmin(c4.0, c5.0), fmin(c6.0, c7.0))),
            fmin(fmin(fmin(c0.1, c1.1), fmin(c2.1, c3.1)), fmin(fmin(c4.1, c5.1), fmin(c6.1, c7.1))),
            fmin(fmin(fmin(c0.2, c1.2), fmin(c2.2, c3.2)), fmin(fmin(c4.2, c5.2), fmin(c6.2, c7.2))),
        ),
        (
            fmax(fmax(fmax(c0.0, c1.0), fmax(c2.0, c3.0)), fmax(fmax(c4.0, c5.0), fmax(c6.0, c7.0))),
            fmax(fmax(fmax(c0.1, c1.1), fmax(c2.1, c3.1)), fmax(fmax(c4.1, c5.1), fmax(c6.1, c7.1))),
            fmax(fmax(fmax(c0.2, c1.2), fmax(c2.2, c3.2)), fmax(fmax(c4.2, c5.2), fmax(c6.2, c7.2))),
        ),
    )
}

/// The hit's exact point lies in the primitive's world box (the certificate
/// attached to every hit the primitive reports).
pub open spec fn cert_in_prim_box(p: Primative, r: Ray, t: int) -> bool {
    let bv = prim_box_vals(p);
    slab_contains(bv.0.0, bv.1.0, r.a.x@, r.b.x@, t) && slab_contains(
        bv.0.1,
        bv.1.1,
        r.a.y@,
        r.b.y@,
        t,
    ) && slab_contains(bv.0.2, bv.1.2, r.a.z@, r.b.z@, t)
}

/// The canonical world-space hit of a primitive: the shape's canonical hit
/// on the object-space ray, mapped back to world space, kept only with its
/// box certificate.
#[verifier::opaque]
pub open spec fn prim_hit_raw(p: Primative, r: Ray, t_min: int) -> Option<HitSpec> {
    let mi = p.transform.m_inv;
    let o = app_p(mi, r.a.x@, r.a.y@, r.a.z@);
    let d = app_v(mi, r.b.x@, r.b.y@, r.b.z@);
    let inner = match p.shape {
        Shape::Sphere(s) => sphere_hit_raw(s.radius@, o.0, o.1, o.2, d.0, d.1, d.2, t_min),
    };
    match inner {
        Some(h) => {
            let pw = app_p(p.transform.m, h.px, h.py, h.pz);
            let nt = app_vt(mi, h.nx, h.ny, h.nz);
            let nw = unit3(nt.0, nt.1, nt.2);
            if cert_in_prim_box(p, r, h.t) {
                Some(
                    HitSpec {
                        t: h.t,
                        px: pw.0,
                        py: pw.1,
                        pz: pw.2,
                        nx: nw.0,
                        ny: nw.1,
                        nz: nw.2,
                    },
                )
            } else {
                None
            }
        },
        None => None,
    }
}

/// The executable result realizes the clipped canonical primitive hit.
pub open spec fn prim_matches(
    res: Option<Interaction>,
    p: Primative,
    r: Ray,
    t_min: int,
    t_max: int,
) -> bool {
    crate::shapes::base::matches_hit(res, clip_hit(prim_hit_raw(p, r, t_min), t_max))
}

/// The hit record a primitive hands its material: the interaction's fields
/// together with the primitive's own material.
pub open spec fn record_of(m: Material, it: Interaction) -> HitRecord {
    HitRecord { t: it.t, p: it.p, normal: it.normal, material: m }
}

/// The primitive has a canonical hit strictly inside the window.
pub open spec fn has_window_hit(p: Primative, r: Ray, t_min: int, t_max: int) -> bool {
    match prim_hit_raw(p, r, t_min) {
        Some(h) => h.t < t_max,
        None => false,
    }
}

/// The parameter of the primitive's canonical hit (meaningful when one
/// exists).
pub open spec fn window_hit_t(p: Primative, r: Ray, t_min: int) -> int {
    prim_hit_raw(p, r, t_min)->Some_0.t
}

/// The interaction is, field for field, the primitive's canonical hit.
pub open spec fn realizes(it: Interaction, p: Primative, r: Ray, t_min: int) -> bool {
    match prim_hit_raw(p, r, t_min) {
        Some(h) => it.t@ == h.t && it.p.x@ == h.px && it.p.y@ == h.py && it.p.z@ == h.pz
            && it.normal.x@ == h.nx && it.normal.y@ == h.ny && it.normal.z@ == h.nz,
        None => false,
    }
}

/// The index set `{0, ..., n-1}`.
pub open spec fn all_idx(n: int) -> Set<int> {
    Set::new(|j: int| 0 <= j < n)
}

/// `res` is the nearest-hit answer over the primitives of `s`: nothing when
/// none of them hits inside the window, else an interaction that realizes
/// some member's canonical hit and whose parameter is least among every
/// member's windowed hit. This single predicate is the contract of both the
/// brute-force scan and the hierarchy query, which is what makes the two
/// provably interchangeable.
pub open spec fn is_best(
    prims: Seq<Primative>,
    s: Set<int>,
    r: Ray,
    t_min: int,
    t_max: int,
    res: Option<Interaction>,
) -> bool {
    match res {
        None => forall|j: int|
            s.contains(j) && 0 <= j < prims.len() ==> !has_window_hit(prims[j], r, t_min, t_max),
        Some(it) => t_min < it.t@ < t_max && (exists|j: int|
            s.contains(j) && 0 <= j < prims.len() && realizes(it, prims[j], r, t_min)) && (forall|
            j: int,
        |
            s.contains(j) && 0 <= j < prims.len() && has_window_hit(prims[j], r, t_min, t_max)
                ==> it.t@ <= window_hit_t(prims[j], r, t_min)),
    }
}

/// A canonical hit always lies strictly beyond `t_min`.
pub proof fn lemma_prim_hit_above(p: Primative, r: Ray, t_min: int)
    ensures
        match prim_hit_raw(p, r, t_min) {
            Some(h) => h.t > t_min,
            None => true,
        },
{
    reveal(prim_hit_raw);
    reveal(crate::shapes::sphere2::sphere_hit_raw);
}

/// Nearest-hit answers are unique up to the hit parameter: any two results
/// that are best over the same primitives, window and ray agree on whether
/// something was hit and at which distance. Applied to the linear scan and
/// the bounding-volume hierarchy, whose contracts are both `is_best`, this
/// is the equivalence of the two query paths.
#[verifier::rlimit(100)]
pub proof fn lemma_nearest_hit_unique(
    prims: Seq<Primative>,
    s: Set<int>,
    r: Ray,
    t_min: int,
    t_max: int,
    a: Option<Interaction>,
    b: Option<Interaction>,
)
    requires
        is_best(prims, s, r, t_min, t_max, a),
        is_best(prims, s, r, t_min, t_max, b),
    ensures
        a is Some <==> b is Some,
        a is Some && b is Some ==> a->Some_0.t@ == b->Some_0.t@,
{
    if a is Some {
        let it = a->Some_0;
        let j = choose|j: int|
            s.contains(j) && 0 <= j < prims.len() && realizes(it, prims[j], r, t_min);
        assert(has_window_hit(prims[j], r, t_min, t_max));
        assert(b is Some);
    }
    if b is Some {
        let it = b->Some_0;
        let j = choose|j: int|
            s.contains(j) && 0 <= j < prims.len() && realizes(it, prims[j], r, t_min);
        assert(has_window_hit(prims[j], r, t_min, t_max));
        assert(a is Some);
    }
    if a is Some && b is Some {
        let ia = a->Some_0;
        let ib = b->Some_0;
        let ja = choose|j: int|
            s.contains(j) && 0 <= j < prims.len() && realizes(ia, prims[j], r, t_min);
        let jb = choose|j: int|
            s.contains(j) && 0 <= j < prims.len() && realizes(ib, prims[j], r, t_min);
        assert(has_window_hit(prims[ja], r, t_min, t_max));
        assert(has_window_hit(prims[jb], r, t_min, t_max));
        assert(ib.t@ <= window_hit_t(prims[ja], r, t_min));
        assert(ia.t@ <= window_hit_t(prims[jb], r, t_min));
    }
}

impl Primative {
    /// Intersect the world-space ray against this primitive within the open
    /// window `(t_min, t_max)`: exactly the canonical hit, clipped.
    pub fn collide(self, ray: &Ray, t_min: Fx, t_max: Fx) -> (res: Option<Interaction>)
        ensures
            prim_matches(res, self, *ray, t_min@, t_max@),
    {
        proof {
            reveal(prim_hit_raw);
            reveal(crate::shapes::sphere2::sphere_hit_raw);
        }
        let object_to_world = self.transform.m;
        let world_to_object = self.transform.m_inv;
        let object_ray = world_to_object.mul_ray(ray);
        let interaction_result = match self.shape {
            Shape::Sphere(s) => s.collide(&object_ray, t_min, t_max),
        };
        match interaction_result {
            Some(interaction) => {
                let bb = match self.bounding_box(ray.time, ray.time) {
                    Some(bb) => bb,
                    None => {
                        return None;
                    },
                };
                if bb.point_in_box_exact(ray, interaction.t) {
                    Some(
                        Interaction {
                            t: interaction.t,
                            p: object_to_world.mul_p(interaction.p),
                            normal: world_to_object.transpose().mul_n(
                                interaction.normal,
                            ).unit_vector(),
                        },
                    )
                } else {
                    None
                }
            },
            None => None,
        }
    }

    /// The primitive's world bounding box: the shape's box pushed through
    /// the forward matrix corner by corner, then re-axis-aligned.
    pub fn bounding_box(&self, time_0: Fx, _time_1: Fx) -> (res: Option<AABB>)
        ensures
            res is Some,
            ({
                let bb = res->Some_0;
                let bv = prim_box_vals(*self);
                bb.minimum.x@ == bv.0.0 && bb.minimum.y@ == bv.0.1 && bb.minimum.z@ == bv.0.2
                    && bb.maximum.x@ == bv.1.0 && bb.maximum.y@ == bv.1.1 && bb.maximum.z@
                    == bv.1.2
            }),
    {
        proof {
            reveal(prim_box_vals);
        }
        let rad = match self.shape {
            Shape::Sphere(s) => s.radius,
        };
        let m = self.transform.generate_transform(time_0).m;
        let nr = rad.neg();
        let c0 = m.mul_p(Point3T { x: nr, y: nr, z: nr });
        let c1 = m.mul_p(Point3T { x: nr, y: nr, z: rad });
        let c2 = m.mul_p(Point3T { x: nr, y: rad, z: nr });
        let c3 = m.mul_p(Point3T { x: nr, y: rad, z: rad });
        let c4 = m.mul_p(Point3T { x: rad, y: nr, z: nr });
        let c5 = m.mul_p(Point3T { x: rad, y: nr, z: rad });
        let c6 = m.mul_p(Point3T { x: rad, y: rad, z: nr });
        let c7 = m.mul_p(Point3T { x: rad, y: rad, z: rad });
        Some(
            AABB {
                minimum: Point3T {
                    x: c0.x.min(c1.x).min(c2.x.min(c3.x)).min(c4.x.min(c5.x).min(c6.x.min(c7.x))),
                    y: c0.y.min(c1.y).min(c2.y.min(c3.y)).min(c4.y.min(c5.y).min(c6.y.min(c7.y))),
                    z: c0.z.min(c1.z).min(c2.z.min(c3.z)).min(c4.z.min(c5.z).min(c6.z.min(c7.z))),
                },
                maximum: Point3T {
                    x: c0.x.max(c1.x).max(c2.x.max(c3.x)).max(c4.x.max(c5.x).max(c6.x.max(c7.x))),
                    y: c0.y.max(c1.y).max(c2.y.max(c3.y)).max(c4.y.max(c5.y).max(c6.y.max(c7.y))),
                    z: c0.z.max(c1.z).max(c2.z.max(c3.z)).max(c4.z.max(c5.z).max(c6.z.max(c7.z))),
                },
            },
        )
    }

    /// Scatter the ray at an interaction using this primitive's material.
    pub fn scatter(self, ray: &Ray, interaction: &Interaction) -> (res: MaterialHit)
        ensures
            scatter_post(self.material, *ray, record_of(self.material, *interaction), res),
    {
        let rec = HitRecord {
            t: interaction.t,
            p: interaction.p,
            normal: interaction.normal,
            material: self.material,
        };
        self.material.scatter(ray, &rec)
    }
}

} // verus!
