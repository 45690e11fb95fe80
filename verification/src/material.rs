//! The material scattering model: Lambertian diffuse, fuzzy metal and
//! refractive dielectric, dispatched over a closed set of kinds.
//!
//! `scatter` takes an incoming ray and a hit record and yields an attenuation
//! colour and an outgoing ray, or declares absorption through the `hit`
//! flag. The scattered direction is randomized, so the contracts state what
//! holds of every outcome: the outgoing ray starts at the hit point and
//! inherits the parent's time; a Lambertian always scatters and attenuates
//! by its albedo; a metal attenuates by its albedo and counts as a hit
//! exactly when the scattered direction leaves the surface; a dielectric
//! always scatters and its attenuation is exactly white — glass absorbs no
//! colour in this model.

use vstd::prelude::*;

use crate::algebra::{
    dot3, dot_vn, reflect, reflect_spec, refract, sq_len3, unit3, Colour, Normal3T, Point3T,
    Vector3T,
};
use crate::fx::{fadd, fdivr, fmul, fsub, Fx, SCALE};
use crate::ray::Ray;

verus! {

#[derive(Clone, Copy, Debug)]
enum MaterialType {
    Lambertian,
    Metal,
    Dielectric,
}

/// The result of a scatter event: whether the ray survives, how it is
/// attenuated, and where it continues.
pub struct MaterialHit {
    pub hit: bool,
    pub atten: Colour,
    pub ray_out: Ray,
}

/// A surface material: one of the three kinds with its parameters.
#[derive(Clone, Copy, Debug)]
pub struct Material {
    mat_type: MaterialType,
    albedo: Colour,
    fuzz: Fx,
    ref_idx: Fx,
}

/// A successful nearest-hit query result handed to the integrator: the hit
/// distance, point, surface normal and the material struck.
#[derive(Clone, Copy)]
pub struct HitRecord {
    pub t: Fx,
    pub p: Point3T,
    pub normal: Normal3T,
    pub material: Material,
}

/// Raw value of the Schlick reflectance
/// `r0^2 + (1 - r0^2) (1 - cosine)^5` with `r0 = (1 - ref_idx)/(1 + ref_idx)`,
/// the fifth power computed by squaring twice and multiplying once.
pub open spec fn schlick_spec(cosine: int, ref_idx: int) -> int {
    let sc = SCALE as int;
    let r0 = fdivr(fsub(sc, ref_idx), fadd(sc, ref_idx));
    let r0_sqr = fmul(r0, r0);
    let omc = fsub(sc, cosine);
    let omc2 = fmul(omc, omc);
    let omc4 = fmul(omc2, omc2);
    let omc5 = fmul(omc4, omc);
    fadd(r0_sqr, fmul(fsub(sc, r0_sqr), omc5))
}

/// Raw components of a diffuse bounce direction built from the unit-ball
/// sample `(sx, sy, sz)`: `(p + n + s) - p`, in the fixed-point order the
/// scatter computes it.
pub open spec fn lambertian_dir(hit: HitRecord, sx: int, sy: int, sz: int) -> (int, int, int) {
    (
        fsub(fadd(fadd(hit.p.x@, hit.normal.x@), sx), hit.p.x@),
        fsub(fadd(fadd(hit.p.y@, hit.normal.y@), sy), hit.p.y@),
        fsub(fadd(fadd(hit.p.z@, hit.normal.z@), sz), hit.p.z@),
    )
}

/// Raw components of a metal bounce direction built from the unit-ball
/// sample `(sx, sy, sz)`: the reflection of the unit incoming direction
/// about the surface normal, perturbed by `fuzz` times the sample.
pub open spec fn metal_dir(
    ray_in: Ray,
    hit: HitRecord,
    fuzz: int,
    sx: int,
    sy: int,
    sz: int,
) -> (int, int, int) {
    let u = unit3(ray_in.b.x@, ray_in.b.y@, ray_in.b.z@);
    let rf = reflect_spec(u.0, u.1, u.2, hit.normal.x@, hit.normal.y@, hit.normal.z@);
    (fadd(rf.0, fmul(fuzz, sx)), fadd(rf.1, fmul(fuzz, sy)), fadd(rf.2, fmul(fuzz, sz)))
}

/// Everything `scatter` promises of its result, for every random outcome:
/// the outgoing ray starts at the hit point and inherits the parent's time;
/// a Lambertian always scatters, attenuates by its albedo, and its
/// direction is `normal + s` (based at the hit point) for some sample `s`
/// strictly inside the unit ball; a metal attenuates by its albedo, its
/// direction is the fuzz-perturbed reflection for some such sample, and it
/// counts as a hit exactly when that direction leaves the surface; a
/// dielectric always scatters and attenuates by exactly white.
pub open spec fn scatter_post(m: Material, ray_in: Ray, hit: HitRecord, res: MaterialHit) -> bool {
    &&& res.ray_out.a == hit.p
    &&& res.ray_out.time == ray_in.time
    &&& (m.is_lambertian() ==> res.hit && res.atten == m.albedo_spec() && (exists|
        sx: int,
        sy: int,
        sz: int,
    |
        (#[trigger] sq_len3(sx, sy, sz)) < SCALE && (
        res.ray_out.b.x@,
        res.ray_out.b.y@,
        res.ray_out.b.z@,
        ) == lambertian_dir(hit, sx, sy, sz)))
    &&& (m.is_metal() ==> res.atten == m.albedo_spec() && res.hit == (dot3(
        res.ray_out.b.x@,
        res.ray_out.b.y@,
        res.ray_out.b.z@,
        hit.normal.x@,
        hit.normal.y@,
        hit.normal.z@,
    ) > 0) && (exists|sx: int, sy: int, sz: int|
        (#[trigger] sq_len3(sx, sy, sz)) < SCALE && (
        res.ray_out.b.x@,
        res.ray_out.b.y@,
        res.ray_out.b.z@,
        ) == metal_dir(ray_in, hit, m.fuzz_spec()@, sx, sy, sz)))
    &&& (m.is_dielectric() ==> res.hit && res.atten.r@ == SCALE && res.atten.g@ == SCALE
        && res.atten.b@ == SCALE)
}

impl Material {
    #[verifier::type_invariant]
    spec fn inv(self) -> bool {
        self.mat_type is Dielectric ==> self.ref_idx@ != 0 && self.ref_idx@ != -(SCALE as int)
    }

    /// The material scatters diffusely.
    pub closed spec fn is_lambertian(self) -> bool {
        self.mat_type is Lambertian
    }

    /// The material reflects specularly with fuzz.
    pub closed spec fn is_metal(self) -> bool {
        self.mat_type is Metal
    }

    /// The material refracts.
    pub closed spec fn is_dielectric(self) -> bool {
        self.mat_type is Dielectric
    }

    /// The material's attenuation colour.
    pub closed spec fn albedo_spec(self) -> Colour {
        self.albedo
    }

    /// The metal roughness parameter.
    pub closed spec fn fuzz_spec(self) -> Fx {
        self.fuzz
    }

    /// The dielectric refractive index.
    pub closed spec fn ref_idx_spec(self) -> Fx {
        self.ref_idx
    }

    /// A diffuse material with the given albedo.
    pub fn make_lambertian(albedo: Colour) -> (m: Material)
        ensures
            m.is_lambertian(),
            !m.is_metal() && !m.is_dielectric(),
            m.albedo_spec() == albedo,
    {
        Material { mat_type: MaterialType::Lambertian, albedo, fuzz: Fx::zero(), ref_idx: Fx::zero() }
    }

    /// A specular material with the given albedo and roughness.
    pub fn make_metal(albedo: Colour, fuzz: Fx) -> (m: Material)
        ensures
            m.is_metal(),
            !m.is_lambertian() && !m.is_dielectric(),
            m.albedo_spec() == albedo,
            m.fuzz_spec() == fuzz,
    {
        Material { mat_type: MaterialType::Metal, albedo, fuzz, ref_idx: Fx::zero() }
    }

    /// A refractive material with the given index. An index of zero or minus
    /// one would divide by zero in Snell's law and Schlick's approximation,
    /// so both are ruled out.
    pub fn make_dielectric(ref_idx: Fx) -> (m: Material)
        requires
            ref_idx@ != 0,
            ref_idx@ != -(SCALE as int),
        ensures
            m.is_dielectric(),
            !m.is_lambertian() && !m.is_metal(),
            m.ref_idx_spec() == ref_idx,
    {
        Material {
            mat_type: MaterialType::Dielectric,
            albedo: Colour::black(),
            fuzz: Fx::zero(),
            ref_idx,
        }
    }

    /// A placeholder material: a black, perfectly smooth metal.
    pub fn make_dummy_material() -> (m: Material)
        ensures
            m.is_metal(),
            m.albedo_spec().r@ == 0 && m.albedo_spec().g@ == 0 && m.albedo_spec().b@ == 0,
    {
        Material {
            mat_type: MaterialType::Metal,
            albedo: Colour::black(),
            fuzz: Fx::zero(),
            ref_idx: Fx::zero(),
        }
    }

    /// The Schlick reflectance approximation.
    pub fn schlick(cosine: Fx, ref_idx: Fx) -> (r: Fx)
        requires
            fadd(SCALE as int, ref_idx@) != 0,
        ensures
            r@ == schlick_spec(cosine@, ref_idx@),
    {
        let one = Fx::one();
        let r0 = one.minus(ref_idx).over(one.plus(ref_idx));
        let r0_sqr = r0.times(r0);
        let omc = one.minus(cosine);
        let omc2 = omc.times(omc);
        let omc4 = omc2.times(omc2);
        let omc5 = omc4.times(omc);
        r0_sqr.plus(one.minus(r0_sqr).times(omc5))
    }

    /// Scatter the incoming ray at the recorded hit.
    pub fn scatter(self, ray_in: &Ray, hit: &HitRecord) -> (res: MaterialHit)
        ensures
            scatter_post(self, *ray_in, *hit, res),
    {
        proof {
            use_type_invariant(self);
        }
        match self.mat_type {
            MaterialType::Lambertian => {
                let samp = Vector3T::rnd_in_unit_sphere();
                let target = hit.p.plus_n(hit.normal).plus_v(samp);
                let res = MaterialHit {
                    hit: true,
                    atten: self.albedo,
                    ray_out: Ray { a: hit.p, b: target.minus_p(hit.p), time: ray_in.time },
                };
                proof {
                    assert(sq_len3(samp.x@, samp.y@, samp.z@) < SCALE && (
                    res.ray_out.b.x@,
                    res.ray_out.b.y@,
                    res.ray_out.b.z@,
                    ) == lambertian_dir(*hit, samp.x@, samp.y@, samp.z@));
                }
                res
            },
            MaterialType::Metal => {
                let reflected = reflect(&ray_in.direction().unit_vector(), &hit.normal);
                let samp = Vector3T::rnd_in_unit_sphere();
                let scattered = Ray {
                    a: hit.p,
                    b: reflected.plus(samp.scale(self.fuzz)),
                    time: ray_in.time,
                };
                let leaving = Fx::zero().lt(dot_vn(&scattered.direction(), &hit.normal));
                let res = MaterialHit { hit: leaving, atten: self.albedo, ray_out: scattered };
                proof {
                    assert(sq_len3(samp.x@, samp.y@, samp.z@) < SCALE && (
                    res.ray_out.b.x@,
                    res.ray_out.b.y@,
                    res.ray_out.b.z@,
                    ) == metal_dir(*ray_in, *hit, self.fuzz_spec()@, samp.x@, samp.y@, samp.z@));
                }
                res
            },
            MaterialType::Dielectric => {
                let reflected = reflect(&ray_in.direction(), &hit.normal);
                let atten = Colour::white();
                let dot_prod = dot_vn(&ray_in.direction(), &hit.normal);
                let dir_len = ray_in.direction().length();
                let (outward_normal, ni_over_nt, cosine) = if Fx::zero().lt(dot_prod) {
                    (
                        hit.normal.neg(),
                        self.ref_idx,
                        if dir_len.raw() == 0 {
                            Fx::zero()
                        } else {
                            self.ref_idx.times(dot_prod).over(dir_len)
                        },
                    )
                } else {
                    (
                        hit.normal,
                        Fx::one().over(self.ref_idx),
                        if dir_len.raw() == 0 {
                            Fx::zero()
                        } else {
                            dot_prod.neg().over(dir_len)
                        },
                    )
                };
                let (refracting, refracted) = refract(
                    &ray_in.direction(),
                    &outward_normal,
                    ni_over_nt,
                );
                let out_dir = if refracting {
                    let reflect_prob = Material::schlick(cosine, self.ref_idx);
                    let random = crate::sampling::rnd_unit();
                    if random.lt(reflect_prob) {
                        reflected
                    } else {
                        match refracted {
                            Some(v) => v,
                            None => reflected,
                        }
                    }
                } else {
                    reflected
                };
                MaterialHit {
                    hit: true,
                    atten,
                    ray_out: Ray { a: hit.p, b: out_dir, time: ray_in.time },
                }
            },
        }
    }
}

} // verus!
