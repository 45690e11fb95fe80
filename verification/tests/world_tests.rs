use rust_ray_tracing::algebra::{Colour, Normal3T, Point3T, Vector3T};
use rust_ray_tracing::fx::Fx;
use rust_ray_tracing::material::{HitRecord, Material};
use rust_ray_tracing::ray::Ray;
use rust_ray_tracing::scene::{colour, HitList};
use rust_ray_tracing::shapes::cylinder::Cylinder;
use rust_ray_tracing::shapes::sphere::{MovingSphere, Sphere};

fn fx(v: f64) -> Fx {
    Fx::from_raw((v * 65536.0).round() as i64)
}

fn p3(x: f64, y: f64, z: f64) -> Point3T {
    Point3T { x: fx(x), y: fx(y), z: fx(z) }
}

fn v3(x: f64, y: f64, z: f64) -> Vector3T {
    Vector3T { x: fx(x), y: fx(y), z: fx(z) }
}

fn blank_record() -> HitRecord {
    HitRecord {
        t: fx(10000.0),
        p: p3(0.0, 0.0, 0.0),
        normal: Normal3T { x: fx(0.0), y: fx(0.0), z: fx(0.0) },
        material: Material::make_dummy_material(),
    }
}

fn grey() -> Colour {
    Colour { r: fx(0.5), g: fx(0.5), b: fx(0.5) }
}

#[test]
fn world_sphere_hits_nearest_root() {
    let s = Sphere {
        centre: p3(0.0, 0.0, -3.0),
        radius: fx(1.0),
        material: Material::make_lambertian(grey()),
    };
    let ray = Ray { a: p3(0.0, 0.0, 0.0), b: v3(0.0, 0.0, -1.0), time: fx(0.0) };
    let mut rec = blank_record();
    assert!(s.hit(&ray, fx(0.001), fx(100.0), &mut rec));
    assert_eq!(rec.t, fx(2.0));
    assert_eq!(rec.p, p3(0.0, 0.0, -2.0));
    assert_eq!(rec.normal, Normal3T { x: fx(0.0), y: fx(0.0), z: fx(1.0) });
}

// Tangent case: a grazing ray's zero discriminant still counts as a hit,
// with the double root as its distance.
#[test]
fn world_sphere_tangent_hits_double_root() {
    let s = Sphere {
        centre: p3(0.0, 0.0, -3.0),
        radius: fx(1.0),
        material: Material::make_lambertian(grey()),
    };
    let ray = Ray { a: p3(0.0, 1.0, 0.0), b: v3(0.0, 0.0, -1.0), time: fx(0.0) };
    let mut rec = blank_record();
    assert!(s.hit(&ray, fx(0.001), fx(100.0), &mut rec));
    assert_eq!(rec.t, fx(3.0));
    assert_eq!(rec.normal, Normal3T { x: fx(0.0), y: fx(1.0), z: fx(0.0) });
}

// The tangent ray from (0, 1, -5) toward (0, 0, 1) against the unit sphere:
// one effective root, at exactly t = 5, on the flat path too.
#[test]
fn world_sphere_tangent_at_five() {
    let s = Sphere {
        centre: p3(0.0, 0.0, 0.0),
        radius: fx(1.0),
        material: Material::make_lambertian(grey()),
    };
    let ray = Ray { a: p3(0.0, 1.0, -5.0), b: v3(0.0, 0.0, 1.0), time: fx(0.0) };
    let mut rec = blank_record();
    assert!(s.hit(&ray, fx(4.999), fx(5.001), &mut rec));
    assert_eq!(rec.t, fx(5.0));
}

#[test]
fn moving_sphere_follows_its_centre() {
    let ms = MovingSphere {
        centre0: p3(0.0, 0.0, 0.0),
        time0: fx(0.0),
        centre1: p3(2.0, 0.0, 0.0),
        time1: fx(1.0),
        radius: fx(1.0),
        material: Material::make_lambertian(grey()),
    };
    let ray = Ray { a: p3(1.0, 0.0, -5.0), b: v3(0.0, 0.0, 1.0), time: fx(0.5) };
    let mut rec = blank_record();
    assert!(ms.hit(&ray, fx(0.001), fx(100.0), &mut rec));
    assert_eq!(rec.t, fx(4.0));
    assert_eq!(rec.normal, Normal3T { x: fx(0.0), y: fx(0.0), z: fx(-1.0) });
    // At the start of the exposure the sphere still sits at the origin and
    // the same ray grazes it tangentially: the double root at t = 5 counts.
    let early = Ray { a: p3(1.0, 0.0, -5.0), b: v3(0.0, 0.0, 1.0), time: fx(0.0) };
    let mut rec2 = blank_record();
    assert!(ms.hit(&early, fx(0.001), fx(100.0), &mut rec2));
    assert_eq!(rec2.t, fx(5.0));
    assert_eq!(rec2.normal, Normal3T { x: fx(1.0), y: fx(0.0), z: fx(0.0) });
}

#[test]
fn cylinder_hits_side_surface() {
    let c = Cylinder {
        centre: p3(0.0, 0.0, 0.0),
        radius: fx(0.5),
        phi_max: fx(2.0 * std::f64::consts::PI),
        z_min: fx(-0.25),
        z_max: fx(0.25),
        material: Material::make_lambertian(grey()),
    };
    let ray = Ray { a: p3(-5.0, 0.0, 0.0), b: v3(1.0, 0.0, 0.0), time: fx(0.0) };
    let mut rec = blank_record();
    assert!(c.hit(&ray, fx(0.001), fx(100.0), &mut rec));
    assert_eq!(rec.t, fx(4.5));
    assert_eq!(rec.p, p3(-0.5, 0.0, 0.0));
    // The parametric normal points back toward the ray origin.
    assert!((rec.normal.x.raw() + 65536).abs() <= 4);
    assert!(rec.normal.y.raw().abs() <= 4);
    assert!(rec.normal.z.raw().abs() <= 4);
}

#[test]
fn cylinder_rejects_beyond_caps() {
    let c = Cylinder {
        centre: p3(0.0, 0.0, 0.0),
        radius: fx(0.5),
        phi_max: fx(2.0 * std::f64::consts::PI),
        z_min: fx(-0.25),
        z_max: fx(0.25),
        material: Material::make_lambertian(grey()),
    };
    // Passes the infinite cylinder well above the caps.
    let ray = Ray { a: p3(-5.0, 0.0, 2.0), b: v3(1.0, 0.0, 0.0), time: fx(0.0) };
    let mut rec = blank_record();
    assert!(!c.hit(&ray, fx(0.001), fx(100.0), &mut rec));
}

#[test]
fn cylinder_retries_far_root_through_cap_window() {
    // Entering through the open top: the near root is above z_max, the far
    // root is inside the band.
    let c = Cylinder {
        centre: p3(0.0, 0.0, 0.0),
        radius: fx(1.0),
        phi_max: fx(2.0 * std::f64::consts::PI),
        z_min: fx(-8.0),
        z_max: fx(2.0),
        material: Material::make_lambertian(grey()),
    };
    // Steep diagonal ray: x goes -3 -> 3 while z goes 9 -> -9; the near
    // root at x = -1 has z = 6 (outside), the far root at x = 1 has z = 0.
    let ray = Ray { a: p3(-3.0, 0.0, 9.0), b: v3(1.0, 0.0, -3.0), time: fx(0.0) };
    let mut rec = blank_record();
    assert!(c.hit(&ray, fx(0.001), fx(100.0), &mut rec));
    assert_eq!(rec.t, fx(4.0));
}

fn one_sphere_world() -> HitList {
    HitList {
        spheres: vec![
            Sphere {
                centre: p3(0.0, 0.0, -3.0),
                radius: fx(1.0),
                material: Material::make_lambertian(grey()),
            },
        ],
        moving_spheres: vec![],
        cylinders: vec![],
    }
}

#[test]
fn hit_list_keeps_nearest_across_lists() {
    let world = HitList {
        spheres: vec![
            Sphere {
                centre: p3(3.0, 0.0, -3.0),
                radius: fx(1.0),
                material: Material::make_metal(grey(), fx(0.0)),
            },
        ],
        moving_spheres: vec![],
        cylinders: vec![
            Cylinder {
                centre: p3(0.0, 0.0, -3.0),
                radius: fx(0.5),
                phi_max: fx(2.0 * std::f64::consts::PI),
                z_min: fx(-3.5),
                z_max: fx(-2.5),
                material: Material::make_lambertian(grey()),
            },
        ],
    };
    // The ray runs along +x at the shapes' height: the sphere sits at
    // t = 7, the cylinder's side at t = 4.5; the cylinder must win even
    // though its list is visited last.
    let ray = Ray { a: p3(-5.0, 0.0, -3.0), b: v3(1.0, 0.0, 0.0), time: fx(0.0) };
    let mut rec = blank_record();
    assert!(world.hit(&ray, fx(0.001), fx(100.0), &mut rec));
    assert_eq!(rec.t, fx(4.5));
    assert_eq!(rec.p, p3(-0.5, 0.0, -3.0));
    let mut rec2 = blank_record();
    let miss_all = Ray { a: p3(30.0, 30.0, 0.0), b: v3(0.0, 0.0, -1.0), time: fx(0.0) };
    assert!(!world.hit(&miss_all, fx(0.001), fx(100.0), &mut rec2));
    assert_eq!(rec2.t, blank_record().t);
}

// Recursion termination: at the depth bound a hit contributes exactly black.
#[test]
fn trace_depth_bound_returns_black() {
    let world = one_sphere_world();
    let ray = Ray { a: p3(0.0, 0.0, 0.0), b: v3(0.0, 0.0, -1.0), time: fx(0.0) };
    let c = colour(&ray, &world, 50);
    assert_eq!(c, Colour { r: fx(0.0), g: fx(0.0), b: fx(0.0) });
    let deeper = colour(&ray, &world, 51);
    assert_eq!(deeper, Colour { r: fx(0.0), g: fx(0.0), b: fx(0.0) });
}

// A miss paints the sky gradient; straight along +x the unit direction has
// y = 0, so the blend sits exactly half way.
#[test]
fn trace_miss_paints_sky_gradient() {
    let world = one_sphere_world();
    let ray = Ray { a: p3(0.0, 0.0, 0.0), b: v3(1.0, 0.0, 0.0), time: fx(0.0) };
    let c = colour(&ray, &world, 0);
    assert_eq!(c.r.raw(), 49152);
    assert_eq!(c.g.raw(), 32768 + 22937);
    assert_eq!(c.b.raw(), 65536);
}

// Dielectric energy: the attenuation of a glass interaction is exactly
// white, whichever way the reflect-or-refract draw goes.
#[test]
fn dielectric_attenuation_always_white() {
    let glass = Material::make_dielectric(fx(1.5));
    let rec = HitRecord {
        t: fx(2.0),
        p: p3(0.0, 0.0, -2.0),
        normal: Normal3T { x: fx(0.0), y: fx(0.0), z: fx(1.0) },
        material: glass,
    };
    let ray = Ray { a: p3(0.3, 0.0, 0.0), b: v3(-0.1, 0.0, -1.0), time: fx(0.25) };
    for _ in 0..200 {
        let res = glass.scatter(&ray, &rec);
        assert!(res.hit);
        assert_eq!(res.atten, Colour { r: fx(1.0), g: fx(1.0), b: fx(1.0) });
        assert_eq!(res.ray_out.a, rec.p);
        assert_eq!(res.ray_out.time, ray.time);
    }
}

#[test]
fn lambertian_scatter_keeps_albedo_and_origin() {
    let mat = Material::make_lambertian(grey());
    let rec = HitRecord {
        t: fx(2.0),
        p: p3(0.0, 0.0, -2.0),
        normal: Normal3T { x: fx(0.0), y: fx(0.0), z: fx(1.0) },
        material: mat,
    };
    let ray = Ray { a: p3(0.0, 0.0, 0.0), b: v3(0.0, 0.0, -1.0), time: fx(0.125) };
    for _ in 0..50 {
        let res = mat.scatter(&ray, &rec);
        assert!(res.hit);
        assert_eq!(res.atten, grey());
        assert_eq!(res.ray_out.a, rec.p);
        assert_eq!(res.ray_out.time, ray.time);
    }
}

#[test]
fn metal_hit_flag_matches_outgoing_direction() {
    let mat = Material::make_metal(grey(), fx(0.3));
    let rec = HitRecord {
        t: fx(2.0),
        p: p3(0.0, 0.0, -2.0),
        normal: Normal3T { x: fx(0.0), y: fx(0.0), z: fx(1.0) },
        material: mat,
    };
    let ray = Ray { a: p3(0.0, 0.0, 0.0), b: v3(0.3, 0.0, -1.0), time: fx(0.0) };
    for _ in 0..50 {
        let res = mat.scatter(&ray, &rec);
        assert_eq!(res.atten, grey());
        let up = res.ray_out.b.z.raw() > 0;
        assert_eq!(res.hit, up);
    }
}

#[test]
fn schlick_extremes_are_exact() {
    // Grazing incidence: (1 - 0)^5 = 1, so the reflectance is one.
    let grazing = Material::schlick(fx(0.0), fx(1.5));
    assert_eq!(grazing, fx(1.0));
    // Head-on: only the r0^2 term remains.
    let head_on = Material::schlick(fx(1.0), fx(1.5));
    assert_eq!(head_on.raw(), 2621);
}
