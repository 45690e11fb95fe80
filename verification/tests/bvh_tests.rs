use rust_ray_tracing::algebra::{Colour, Point3T, Vector3T};
use rust_ray_tracing::bvh_tree::BVHTree;
use rust_ray_tracing::fx::Fx;
use rust_ray_tracing::material::Material;
use rust_ray_tracing::primative::{Primative, Shape};
use rust_ray_tracing::ray::Ray;
use rust_ray_tracing::sampling::rnd_unit;
use rust_ray_tracing::scene2::{calculate_colour, Scene};
use rust_ray_tracing::shapes::sphere2::Sphere;
use rust_ray_tracing::transforms::{gen_scale, gen_translate};

fn fx(v: f64) -> Fx {
    Fx::from_raw((v * 65536.0).round() as i64)
}

fn v3(x: f64, y: f64, z: f64) -> Vector3T {
    Vector3T { x: fx(x), y: fx(y), z: fx(z) }
}

fn p3(x: f64, y: f64, z: f64) -> Point3T {
    Point3T { x: fx(x), y: fx(y), z: fx(z) }
}

fn sphere_at(x: f64, y: f64, z: f64, radius: f64) -> Primative {
    Primative {
        shape: Shape::Sphere(Sphere { radius: fx(1.0) }),
        material: Material::make_lambertian(Colour { r: fx(0.5), g: fx(0.5), b: fx(0.5) }),
        transform: gen_translate(v3(x, y, z)).compose(gen_scale(fx(radius), fx(radius), fx(radius))),
    }
}

// A small deterministic value stream for scattering primitives and rays.
struct Lcg {
    state: u64,
}

impl Lcg {
    fn next_unit(&mut self) -> f64 {
        self.state = self.state.wrapping_mul(6364136223846793005).wrapping_add(1442695040888963407);
        ((self.state >> 33) as f64) / ((1u64 << 31) as f64)
    }

    fn range(&mut self, lo: f64, hi: f64) -> f64 {
        lo + (hi - lo) * self.next_unit()
    }
}

// Nearest-hit equivalence: over a cloud of primitives and a bundle of rays,
// the hierarchy must agree with the brute-force scan on whether anything is
// hit and at which distance. The hierarchy's axis choices are randomized,
// so every run exercises fresh tree shapes.
#[test]
fn bvh_matches_linear_scan() {
    let mut gen = Lcg { state: 0x5eed };
    let mut primatives: Vec<Primative> = Vec::new();
    for _ in 0..40 {
        primatives.push(
            sphere_at(
                gen.range(-20.0, 20.0),
                gen.range(-20.0, 20.0),
                gen.range(-20.0, 20.0),
                gen.range(0.3, 3.0),
            ),
        );
    }
    let scene = Scene { primatives: primatives.clone() };
    let tree = BVHTree::new(primatives, fx(0.0), fx(1.0));
    let t_max = Fx::from_raw(65_536_000_000);
    for _ in 0..200 {
        let ray = Ray {
            a: p3(gen.range(-25.0, 25.0), gen.range(-25.0, 25.0), -40.0),
            b: v3(gen.range(-0.5, 0.5), gen.range(-0.5, 0.5), 1.0),
            time: fx(0.0),
        };
        let scan = scene.find_interaction(&ray);
        let fast = tree.get_collision(&ray, Fx::from_raw(66), t_max);
        match (&scan, &fast) {
            (Some(s), Some(f)) => assert_eq!(s.interaction.t, f.t),
            (None, None) => {},
            _ => panic!("hierarchy and scan disagree on whether the ray hits"),
        }
    }
}

#[test]
fn bvh_single_primitive_roundtrip() {
    let tree = BVHTree::new(vec![sphere_at(0.0, 0.0, 5.0, 1.0)], fx(0.0), fx(1.0));
    let ray = Ray { a: p3(0.0, 0.0, 0.0), b: v3(0.0, 0.0, 1.0), time: fx(0.0) };
    let hit = tree.get_collision(&ray, fx(0.0), fx(100.0)).unwrap();
    assert_eq!(hit.t, fx(4.0));
    let miss = Ray { a: p3(0.0, 5.0, 0.0), b: v3(0.0, 0.0, 1.0), time: fx(0.0) };
    assert!(tree.get_collision(&miss, fx(0.0), fx(100.0)).is_none());
}

#[test]
fn bvh_blank_never_hits() {
    let tree = BVHTree::blank();
    let ray = Ray { a: p3(0.0, 0.0, 0.0), b: v3(0.0, 0.0, 1.0), time: fx(0.0) };
    assert!(tree.get_collision(&ray, fx(0.0), fx(100.0)).is_none());
}

// Recursion termination on the primitive path: a guaranteed hit at the
// depth bound contributes exactly black.
#[test]
fn calculate_colour_depth_bound_is_black() {
    let scene = Scene { primatives: vec![sphere_at(0.0, 0.0, 5.0, 1.0)] };
    let ray = Ray { a: p3(0.0, 0.0, 0.0), b: v3(0.0, 0.0, 1.0), time: fx(0.0) };
    let c = calculate_colour(&scene, &ray, 50);
    assert_eq!(c, Colour { r: fx(0.0), g: fx(0.0), b: fx(0.0) });
}

#[test]
fn calculate_colour_miss_is_sky() {
    let scene = Scene { primatives: vec![sphere_at(0.0, 0.0, 5.0, 1.0)] };
    let ray = Ray { a: p3(0.0, 0.0, 0.0), b: v3(0.0, -1.0, 0.0), time: fx(0.0) };
    // Straight down: unit y is minus one, the blend weight is zero, the
    // sky is pure white.
    let c = calculate_colour(&scene, &ray, 0);
    assert_eq!(c, Colour { r: fx(1.0), g: fx(1.0), b: fx(1.0) });
}

#[test]
fn unit_samples_stay_in_bounds() {
    for _ in 0..1000 {
        let u = rnd_unit();
        assert!(0 <= u.raw() && u.raw() < 65536);
    }
    for _ in 0..200 {
        let p = Vector3T::rnd_in_unit_sphere();
        assert!(p.squared_length().raw() < 65536);
        let d = Vector3T::rnd_in_unit_disc();
        assert!(d.squared_length().raw() < 65536);
        assert_eq!(d.z.raw(), 0);
    }
}
