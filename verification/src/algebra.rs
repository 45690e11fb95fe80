//! Vector, point, normal and colour algebra over the fixed-point scalar.
//!
//! Points translate under affine maps, vectors and normals do not; normals are
//! additionally mapped by the inverse transpose (see `transforms`). Every
//! operation is pure and its result is pinned componentwise to the exact
//! fixed-point arithmetic of `fx`.

use vstd::prelude::*;

use crate::fx::{fadd, fsub, fneg, fmul, fdivr, sqrt_val, lemma_fmul_self_nonneg, Fx, SCALE};

verus! {

/// Raw value of the 3-component dot product `a . b`.
pub open spec fn dot3(ax: int, ay: int, az: int, bx: int, by: int, bz: int) -> int {
    fadd(fadd(fmul(ax, bx), fmul(ay, by)), fmul(az, bz))
}

/// Raw value of the squared length of `(ax, ay, az)`.
pub open spec fn sq_len3(ax: int, ay: int, az: int) -> int {
    dot3(ax, ay, az, ax, ay, az)
}

/// Raw value of the length of `(ax, ay, az)`.
pub open spec fn len3(ax: int, ay: int, az: int) -> int {
    sqrt_val(sq_len3(ax, ay, az) * (SCALE as int))
}

/// Raw value of the squared length of the plane vector `(ax, ay)`.
pub open spec fn sq_len2(ax: int, ay: int) -> int {
    fadd(fmul(ax, ax), fmul(ay, ay))
}

/// Raw value of the length of the plane vector `(ax, ay)`.
pub open spec fn len2(ax: int, ay: int) -> int {
    sqrt_val(sq_len2(ax, ay) * (SCALE as int))
}

/// A squared length is never negative.
pub proof fn lemma_sq_len3_nonneg(ax: int, ay: int, az: int)
    ensures
        sq_len3(ax, ay, az) >= 0,
{
    lemma_fmul_self_nonneg(ax);
    lemma_fmul_self_nonneg(ay);
    lemma_fmul_self_nonneg(az);
}

/// A direction or displacement in the plane.
#[derive(Clone, Copy, Debug, PartialEq, Eq, Structural)]
pub struct Vector2T {
    pub x: Fx,
    pub y: Fx,
}

/// A direction or displacement in space.
#[derive(Clone, Copy, Debug, PartialEq, Eq, Structural)]
pub struct Vector3T {
    pub x: Fx,
    pub y: Fx,
    pub z: Fx,
}

/// A location in the plane.
#[derive(Clone, Copy, Debug, PartialEq, Eq, Structural)]
pub struct Point2T {
    pub x: Fx,
    pub y: Fx,
}

/// A location in space.
#[derive(Clone, Copy, Debug, PartialEq, Eq, Structural)]
pub struct Point3T {
    pub x: Fx,
    pub y: Fx,
    pub z: Fx,
}

/// A surface normal in the plane.
#[derive(Clone, Copy, Debug, PartialEq, Eq, Structural)]
pub struct Normal2T {
    pub x: Fx,
    pub y: Fx,
}

/// A surface normal in space; kept perpendicular under non-uniform scale by
/// mapping it with the inverse transpose of the active transform.
#[derive(Clone, Copy, Debug, PartialEq, Eq, Structural)]
pub struct Normal3T {
    pub x: Fx,
    pub y: Fx,
    pub z: Fx,
}

/// An RGB radiance triple; components may exceed one transiently.
#[derive(Clone, Copy, Debug, PartialEq, Eq, Structural)]
pub struct Colour {
    pub r: Fx,
    pub g: Fx,
    pub b: Fx,
}

impl Vector2T {
    /// Squared Euclidean length.
    pub fn squared_length(self) -> (r: Fx)
        ensures
            r@ == sq_len2(self.x@, self.y@),
    {
        self.x.times(self.x).plus(self.y.times(self.y))
    }

    /// Euclidean length.
    pub fn length(self) -> (r: Fx)
        ensures
            r@ == len2(self.x@, self.y@),
            r@ >= 0,
    {
        proof {
            lemma_fmul_self_nonneg(self.x@);
            lemma_fmul_self_nonneg(self.y@);
        }
        self.squared_length().sqrt()
    }
}

impl Point2T {
    /// Squared distance from the plane origin.
    pub fn squared_length(self) -> (r: Fx)
        ensures
            r@ == sq_len2(self.x@, self.y@),
    {
        self.x.times(self.x).plus(self.y.times(self.y))
    }

    /// Distance from the plane origin.
    pub fn length(self) -> (r: Fx)
        ensures
            r@ == len2(self.x@, self.y@),
            r@ >= 0,
    {
        proof {
            lemma_fmul_self_nonneg(self.x@);
            lemma_fmul_self_nonneg(self.y@);
        }
        self.squared_length().sqrt()
    }
}

impl Vector3T {
    /// Componentwise sum.
    pub fn plus(self, o: Vector3T) -> (r: Vector3T)
        ensures
            r.x@ == fadd(self.x@, o.x@),
            r.y@ == fadd(self.y@, o.y@),
            r.z@ == fadd(self.z@, o.z@),
    {
        Vector3T { x: self.x.plus(o.x), y: self.y.plus(o.y), z: self.z.plus(o.z) }
    }

    /// Componentwise difference.
    pub fn minus(self, o: Vector3T) -> (r: Vector3T)
        ensures
            r.x@ == fsub(self.x@, o.x@),
            r.y@ == fsub(self.y@, o.y@),
            r.z@ == fsub(self.z@, o.z@),
    {
        Vector3T { x: self.x.minus(o.x), y: self.y.minus(o.y), z: self.z.minus(o.z) }
    }

    /// Componentwise negation.
    pub fn neg(self) -> (r: Vector3T)
        ensures
            r.x@ == fneg(self.x@),
            r.y@ == fneg(self.y@),
            r.z@ == fneg(self.z@),
    {
        Vector3T { x: self.x.neg(), y: self.y.neg(), z: self.z.neg() }
    }

    /// Scale every component by `k`.
    pub fn scale(self, k: Fx) -> (r: Vector3T)
        ensures
            r.x@ == fmul(k@, self.x@),
            r.y@ == fmul(k@, self.y@),
            r.z@ == fmul(k@, self.z@),
    {
        Vector3T { x: k.times(self.x), y: k.times(self.y), z: k.times(self.z) }
    }

    /// Squared Euclidean length.
    pub fn squared_length(self) -> (r: Fx)
        ensures
            r@ == sq_len3(self.x@, self.y@, self.z@),
    {
        dot_vv(&self, &self)
    }

    /// Euclidean length (integer square root of the scaled squared length).
    pub fn length(self) -> (r: Fx)
        ensures
            r@ == len3(self.x@, self.y@, self.z@),
            r@ >= 0,
    {
        proof {
            lemma_sq_len3_nonneg(self.x@, self.y@, self.z@);
        }
        self.squared_length().sqrt()
    }

    /// Direction of this vector with length one.  A zero-length vector has no
    /// direction; it is handed back unchanged (the caller is expected to keep
    /// vectors non-degenerate, as the contracts of its callers state).
    pub fn unit_vector(self) -> (r: Vector3T)
        ensures
            ({
                let l = len3(self.x@, self.y@, self.z@);
                if l == 0 {
                    r == self
                } else {
                    r.x@ == fdivr(self.x@, l) && r.y@ == fdivr(self.y@, l) && r.z@ == fdivr(
                        self.z@,
                        l,
                    )
                }
            }),
    {
        let l = self.length();
        if l.raw() == 0 {
            self
        } else {
            Vector3T { x: self.x.over(l), y: self.y.over(l), z: self.z.over(l) }
        }
    }

    /// Reinterpret a normal as a plain vector.
    pub fn from_normal(n: Normal3T) -> (r: Vector3T)
        ensures
            r.x == n.x && r.y == n.y && r.z == n.z,
    {
        Vector3T { x: n.x, y: n.y, z: n.z }
    }

    /// Reinterpret a point as the displacement from the origin.
    pub fn from_point(p: Point3T) -> (r: Vector3T)
        ensures
            r.x == p.x && r.y == p.y && r.z == p.z,
    {
        Vector3T { x: p.x, y: p.y, z: p.z }
    }
}

impl Point3T {
    /// The origin of the current space.
    pub fn origin() -> (r: Point3T)
        ensures
            r.x@ == 0 && r.y@ == 0 && r.z@ == 0,
    {
        Point3T { x: Fx::zero(), y: Fx::zero(), z: Fx::zero() }
    }

    /// Translate by a displacement vector.
    pub fn plus_v(self, o: Vector3T) -> (r: Point3T)
        ensures
            r.x@ == fadd(self.x@, o.x@),
            r.y@ == fadd(self.y@, o.y@),
            r.z@ == fadd(self.z@, o.z@),
    {
        Point3T { x: self.x.plus(o.x), y: self.y.plus(o.y), z: self.z.plus(o.z) }
    }

    /// Displace along a surface normal.
    pub fn plus_n(self, o: Normal3T) -> (r: Point3T)
        ensures
            r.x@ == fadd(self.x@, o.x@),
            r.y@ == fadd(self.y@, o.y@),
            r.z@ == fadd(self.z@, o.z@),
    {
        Point3T { x: self.x.plus(o.x), y: self.y.plus(o.y), z: self.z.plus(o.z) }
    }

    /// The displacement that carries `o` to `self`.
    pub fn minus_p(self, o: Point3T) -> (r: Vector3T)
        ensures
            r.x@ == fsub(self.x@, o.x@),
            r.y@ == fsub(self.y@, o.y@),
            r.z@ == fsub(self.z@, o.z@),
    {
        Vector3T { x: self.x.minus(o.x), y: self.y.minus(o.y), z: self.z.minus(o.z) }
    }

    /// Squared distance to another point.
    pub fn squared_distance(self, o: Point3T) -> (r: Fx)
        ensures
            r@ == sq_len3(fsub(self.x@, o.x@), fsub(self.y@, o.y@), fsub(self.z@, o.z@)),
    {
        let d = self.minus_p(o);
        d.squared_length()
    }

    /// Distance to another point.
    pub fn distance(self, o: Point3T) -> (r: Fx)
        ensures
            r@ == len3(fsub(self.x@, o.x@), fsub(self.y@, o.y@), fsub(self.z@, o.z@)),
    {
        let d = self.minus_p(o);
        d.length()
    }
}

impl Normal3T {
    /// Componentwise negation (the outward normal flipped inward).
    pub fn neg(self) -> (r: Normal3T)
        ensures
            r.x@ == fneg(self.x@),
            r.y@ == fneg(self.y@),
            r.z@ == fneg(self.z@),
    {
        Normal3T { x: self.x.neg(), y: self.y.neg(), z: self.z.neg() }
    }

    /// Scale every component by `k`.
    pub fn scale(self, k: Fx) -> (r: Normal3T)
        ensures
            r.x@ == fmul(k@, self.x@),
            r.y@ == fmul(k@, self.y@),
            r.z@ == fmul(k@, self.z@),
    {
        Normal3T { x: k.times(self.x), y: k.times(self.y), z: k.times(self.z) }
    }

    /// Squared Euclidean length.
    pub fn squared_length(self) -> (r: Fx)
        ensures
            r@ == sq_len3(self.x@, self.y@, self.z@),
    {
        dot(&self, &self)
    }

    /// Euclidean length.
    pub fn length(self) -> (r: Fx)
        ensures
            r@ == len3(self.x@, self.y@, self.z@),
            r@ >= 0,
    {
        proof {
            lemma_sq_len3_nonneg(self.x@, self.y@, self.z@);
        }
        self.squared_length().sqrt()
    }

    /// Direction of this normal with length one; a zero normal is handed back
    /// unchanged, as in `Vector3T::unit_vector`.
    pub fn unit_vector(self) -> (r: Normal3T)
        ensures
            ({
                let l = len3(self.x@, self.y@, self.z@);
                if l == 0 {
                    r == self
                } else {
                    r.x@ == fdivr(self.x@, l) && r.y@ == fdivr(self.y@, l) && r.z@ == fdivr(
                        self.z@,
                        l,
                    )
                }
            }),
    {
        let l = self.length();
        if l.raw() == 0 {
            self
        } else {
            Normal3T { x: self.x.over(l), y: self.y.over(l), z: self.z.over(l) }
        }
    }

    /// Reinterpret a vector as a surface normal.
    pub fn from_vector(v: Vector3T) -> (r: Normal3T)
        ensures
            r.x == v.x && r.y == v.y && r.z == v.z,
    {
        Normal3T { x: v.x, y: v.y, z: v.z }
    }
}

impl Colour {
    /// The black radiance triple.
    pub fn black() -> (r: Colour)
        ensures
            r.r@ == 0 && r.g@ == 0 && r.b@ == 0,
    {
        Colour { r: Fx::zero(), g: Fx::zero(), b: Fx::zero() }
    }

    /// The white radiance triple.
    pub fn white() -> (r: Colour)
        ensures
            r.r@ == SCALE && r.g@ == SCALE && r.b@ == SCALE,
    {
        Colour { r: Fx::one(), g: Fx::one(), b: Fx::one() }
    }

    /// Componentwise sum.
    pub fn plus(self, o: Colour) -> (r: Colour)
        ensures
            r.r@ == fadd(self.r@, o.r@),
            r.g@ == fadd(self.g@, o.g@),
            r.b@ == fadd(self.b@, o.b@),
    {
        Colour { r: self.r.plus(o.r), g: self.g.plus(o.g), b: self.b.plus(o.b) }
    }

    /// Componentwise (filter) product, as applied by material attenuation.
    pub fn times(self, o: Colour) -> (r: Colour)
        ensures
            r.r@ == fmul(self.r@, o.r@),
            r.g@ == fmul(self.g@, o.g@),
            r.b@ == fmul(self.b@, o.b@),
    {
        Colour { r: self.r.times(o.r), g: self.g.times(o.g), b: self.b.times(o.b) }
    }

    /// Scale every channel by `k`.
    pub fn scale(self, k: Fx) -> (r: Colour)
        ensures
            r.r@ == fmul(k@, self.r@),
            r.g@ == fmul(k@, self.g@),
            r.b@ == fmul(k@, self.b@),
    {
        Colour { r: k.times(self.r), g: k.times(self.g), b: k.times(self.b) }
    }
}

/// Dot product of two vectors.
pub fn dot_vv(l: &Vector3T, r: &Vector3T) -> (d: Fx)
    ensures
        d@ == dot3(l.x@, l.y@, l.z@, r.x@, r.y@, r.z@),
{
    l.x.times(r.x).plus(l.y.times(r.y)).plus(l.z.times(r.z))
}

/// Dot product of a vector and a normal.
pub fn dot_vn(l: &Vector3T, r: &Normal3T) -> (d: Fx)
    ensures
        d@ == dot3(l.x@, l.y@, l.z@, r.x@, r.y@, r.z@),
{
    l.x.times(r.x).plus(l.y.times(r.y)).plus(l.z.times(r.z))
}

/// Dot product of a normal and a vector.
pub fn dot_nv(l: &Normal3T, r: &Vector3T) -> (d: Fx)
    ensures
        d@ == dot3(l.x@, l.y@, l.z@, r.x@, r.y@, r.z@),
{
    l.x.times(r.x).plus(l.y.times(r.y)).plus(l.z.times(r.z))
}

/// Dot product of two normals.
pub fn dot_nn(l: &Normal3T, r: &Normal3T) -> (d: Fx)
    ensures
        d@ == dot3(l.x@, l.y@, l.z@, r.x@, r.y@, r.z@),
{
    l.x.times(r.x).plus(l.y.times(r.y)).plus(l.z.times(r.z))
}

/// Dot product of two normals (the form the shape tests use).
pub fn dot(l: &Normal3T, r: &Normal3T) -> (d: Fx)
    ensures
        d@ == dot3(l.x@, l.y@, l.z@, r.x@, r.y@, r.z@),
{
    l.x.times(r.x).plus(l.y.times(r.y)).plus(l.z.times(r.z))
}

/// Raw components of the cross product of `(ax, ay, az)` and `(bx, by, bz)`.
pub open spec fn cross3(ax: int, ay: int, az: int, bx: int, by: int, bz: int) -> (int, int, int) {
    (
        fsub(fmul(ay, bz), fmul(az, by)),
        fsub(fmul(az, bx), fmul(ax, bz)),
        fsub(fmul(ax, by), fmul(ay, bx)),
    )
}

/// Cross product, right-handed: `cross(x_hat, y_hat) == z_hat`.
pub fn cross(l: &Vector3T, r: &Vector3T) -> (c: Vector3T)
    ensures
        c.x@ == fsub(fmul(l.y@, r.z@), fmul(l.z@, r.y@)),
        c.y@ == fsub(fmul(l.z@, r.x@), fmul(l.x@, r.z@)),
        c.z@ == fsub(fmul(l.x@, r.y@), fmul(l.y@, r.x@)),
{
    Vector3T {
        x: l.y.times(r.z).minus(l.z.times(r.y)),
        y: l.z.times(r.x).minus(l.x.times(r.z)),
        z: l.x.times(r.y).minus(l.y.times(r.x)),
    }
}

/// Raw components of the reflection of `v` about the unit normal `n`:
/// `v - 2 (v . n) n`.
pub open spec fn reflect_spec(vx: int, vy: int, vz: int, nx: int, ny: int, nz: int) -> (int, int, int) {
    let d2 = fmul(2 * (SCALE as int), dot3(vx, vy, vz, nx, ny, nz));
    (fsub(vx, fmul(d2, nx)), fsub(vy, fmul(d2, ny)), fsub(vz, fmul(d2, nz)))
}

/// Reflect `v` about the normal `n`.
pub fn reflect(v: &Vector3T, n: &Normal3T) -> (r: Vector3T)
    ensures
        (r.x@, r.y@, r.z@) == reflect_spec(v.x@, v.y@, v.z@, n.x@, n.y@, n.z@),
{
    let d = dot_vn(v, n);
    let d2 = Fx::from_int(2).times(d);
    v.minus(Vector3T::from_normal(n.scale(d2)))
}

/// Raw components of `(vx, vy, vz)` scaled to unit length (unchanged when the
/// length is zero).
pub open spec fn unit3(vx: int, vy: int, vz: int) -> (int, int, int) {
    let l = len3(vx, vy, vz);
    if l == 0 {
        (vx, vy, vz)
    } else {
        (fdivr(vx, l), fdivr(vy, l), fdivr(vz, l))
    }
}

/// Raw value of the Snell discriminant `1 - ni^2 (1 - (unit(v) . n)^2)`.
pub open spec fn refract_disc(
    vx: int,
    vy: int,
    vz: int,
    nx: int,
    ny: int,
    nz: int,
    ni: int,
) -> int {
    let u = unit3(vx, vy, vz);
    let dt = dot3(u.0, u.1, u.2, nx, ny, nz);
    fsub(SCALE as int, fmul(fmul(ni, ni), fsub(SCALE as int, fmul(dt, dt))))
}

/// Raw components of the refracted direction
/// `ni (unit(v) - n (unit(v) . n)) - n sqrt(disc)`.
pub open spec fn refract_vec(
    vx: int,
    vy: int,
    vz: int,
    nx: int,
    ny: int,
    nz: int,
    ni: int,
) -> (int, int, int) {
    let u = unit3(vx, vy, vz);
    let dt = dot3(u.0, u.1, u.2, nx, ny, nz);
    let rt = sqrt_val(refract_disc(vx, vy, vz, nx, ny, nz, ni) * (SCALE as int));
    (
        fsub(fmul(ni, fsub(u.0, fmul(dt, nx))), fmul(rt, nx)),
        fsub(fmul(ni, fsub(u.1, fmul(dt, ny))), fmul(rt, ny)),
        fsub(fmul(ni, fsub(u.2, fmul(dt, nz))), fmul(rt, nz)),
    )
}

/// Attempt Snell refraction of `v` at a surface with outward normal `n` and
/// refraction ratio `ni_over_nt`; yields no vector exactly when the
/// discriminant is not positive (total internal reflection).
pub fn refract(v: &Vector3T, n: &Normal3T, ni_over_nt: Fx) -> (res: (bool, Option<Vector3T>))
    ensures
        res.0 == res.1 is Some,
        res.1 is Some <==> refract_disc(v.x@, v.y@, v.z@, n.x@, n.y@, n.z@, ni_over_nt@) > 0,
        res.1 is Some ==> {
            let w = res.1->Some_0;
            (w.x@, w.y@, w.z@) == refract_vec(v.x@, v.y@, v.z@, n.x@, n.y@, n.z@, ni_over_nt@)
        },
{
    let uv = v.unit_vector();
    let dt = dot_vn(&uv, n);
    let one = Fx::one();
    let discriminant = one.minus(ni_over_nt.times(ni_over_nt).times(one.minus(dt.times(dt))));
    if Fx::zero().lt(discriminant) {
        let refracted = uv.minus(Vector3T::from_normal(n.scale(dt))).scale(ni_over_nt).minus(
            Vector3T::from_normal(n.scale(discriminant.sqrt())),
        );
        (true, Some(refracted))
    } else {
        (false, None)
    }
}

} // verus!
