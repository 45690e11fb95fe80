use rust_ray_tracing::algebra::{Point3T, Vector3T};
use rust_ray_tracing::fx::Fx;
use rust_ray_tracing::material::Material;
use rust_ray_tracing::primative::{Primative, Shape};
use rust_ray_tracing::ray::Ray;
use rust_ray_tracing::shapes::sphere2::Sphere;
use rust_ray_tracing::transforms::{
    gen_rotate, gen_rotate_x, gen_rotate_y, gen_rotate_z, gen_scale, gen_translate,
};

fn fx(v: f64) -> Fx {
    Fx::from_raw((v * 65536.0).round() as i64)
}

fn v3(x: f64, y: f64, z: f64) -> Vector3T {
    Vector3T { x: fx(x), y: fx(y), z: fx(z) }
}

fn p3(x: f64, y: f64, z: f64) -> Point3T {
    Point3T { x: fx(x), y: fx(y), z: fx(z) }
}

fn ray(a: Point3T, b: Vector3T) -> Ray {
    Ray { a, b, time: Fx::zero() }
}

// Scenario: A ray intersects a sphere at two points
// Given r <- ray(point(0, 0, -5), vector(0, 0, 1))
//   And s <- sphere()
// When xs <- intersect(s, r)
// Then the nearest root is 4.0
#[test]
fn simple_intersection() {
    let sphere = Sphere { radius: fx(1.0) };
    let result_option = sphere.collide(&ray(p3(0.0, 0.0, -5.0), v3(0.0, 0.0, 1.0)), fx(0.0), fx(20.0));
    assert_eq!(result_option.unwrap().t, fx(4.0));
}

// Scenario: A ray intersects a sphere at a tangent: one effective root at 5.0
#[test]
fn tangent_intersection() {
    let sphere = Sphere { radius: fx(1.0) };
    let result_option = sphere.collide(
        &ray(p3(0.0, 1.0, -5.0), v3(0.0, 0.0, 1.0)),
        fx(4.999),
        fx(5.001),
    );
    assert_eq!(result_option.unwrap().t, fx(5.0));
}

// Scenario: A ray misses a sphere
#[test]
fn missed_intersection() {
    let sphere = Sphere { radius: fx(1.0) };
    let result_option = sphere.collide(&ray(p3(0.0, 2.0, -5.0), v3(0.0, 0.0, 1.0)), fx(0.0), fx(20.0));
    assert!(result_option.is_none());
}

// Scenario: A ray originates inside a sphere: only the far root comes back
#[test]
fn internal_intersection() {
    let sphere = Sphere { radius: fx(1.0) };
    let result_option = sphere.collide(&ray(p3(0.0, 0.0, 0.0), v3(0.0, 0.0, 1.0)), fx(0.0), fx(20.0));
    match result_option {
        Some(result) => assert_eq!(result.t, fx(1.0)),
        None => assert!(false),
    }
}

fn prim_with(transform: rust_ray_tracing::transforms::Transform) -> Primative {
    Primative {
        shape: Shape::Sphere(Sphere { radius: fx(1.0) }),
        material: Material::make_dummy_material(),
        transform,
    }
}

// Scenario: Intersecting a scaled sphere with a ray aimed at its surface
#[test]
fn scaled_sphere() {
    let transform = gen_scale(fx(6.0), fx(6.0), fx(6.0));
    let camera_a = p3(-25.0, -25.0, -25.0);
    let look_at = v3(25.0, 25.0, 25.0);
    let val_1 = (43.301270189221932_f64 - 6.0) / 43.301270189221932_f64;
    let result_option = prim_with(transform).collide(
        &ray(camera_a, look_at),
        fx(0.99 * val_1),
        fx(1.01 * val_1),
    );
    assert!(result_option.is_some());
}

// Scenario: Intersecting a translated sphere with a ray that passes beside it
#[test]
fn translated_missed_sphere() {
    let transform = gen_translate(v3(5.0, 0.0, 0.0));
    let result_option = prim_with(transform).collide(
        &ray(p3(0.0, 0.0, -5.0), v3(0.0, 0.0, 1.0)),
        fx(0.0),
        fx(20.0),
    );
    assert!(result_option.is_none());
}

// Scenario: Intersecting a translated sphere head-on hits at t = 9
#[test]
fn translated_sphere() {
    let transform = gen_translate(v3(5.0, 0.0, 0.0));
    let result_option = prim_with(transform).collide(
        &ray(p3(-5.0, 0.0, 0.0), v3(1.0, 0.0, 0.0)),
        fx(0.0),
        fx(20.0),
    );
    match result_option {
        Some(result) => assert_eq!(result.t, fx(9.0)),
        None => assert!(false),
    }
}

// Scenario: A zero rotation about every axis leaves the hit untouched
#[test]
fn rotated_sphere() {
    let zero_s = fx(0.0_f64.sin());
    let zero_c = fx(0.0_f64.cos());
    let transform = gen_rotate_x(zero_s, zero_c).compose(gen_rotate_y(zero_s, zero_c)).compose(
        gen_rotate_z(zero_s, zero_c),
    );
    let result_option = prim_with(transform).collide(
        &ray(p3(0.0, 0.0, -5.0), v3(0.0, 0.0, 1.0)),
        fx(0.0),
        fx(20.0),
    );
    match result_option {
        Some(result) => assert_eq!(result.t, fx(4.0)),
        None => assert!(false),
    }
}

// Scenario: Translate by 25 in x, then rotate a quarter turn about z: the
// sphere sits at (0, 25, 0) and a ray up the y axis meets it at t = 24.
#[test]
fn moved_then_rotated_sphere() {
    let theta = 0.5 * std::f64::consts::PI;
    let translation = gen_translate(v3(25.0, 0.0, 0.0));
    let rotation = gen_rotate_z(fx(theta.sin()), fx(theta.cos()));
    let transform = rotation.compose(translation);
    let result_option = prim_with(transform).collide(
        &ray(p3(0.0, 0.0, 0.0), v3(0.0, 1.0, 0.0)),
        fx(0.0),
        fx(50.0),
    );
    assert_eq!(result_option.unwrap().t, fx(24.0));
}

// Scenario: Translate, then rotate a quarter turn about the diagonal axis
// (1, 1, 0); aim straight at the carried centre and expect a hit just in
// front of it.
#[test]
fn moved_then_axis_rotated_sphere() {
    let theta = 0.5 * std::f64::consts::PI;
    let translation = gen_translate(v3(25.0, 0.0, 0.0));
    let rotation = gen_rotate(fx(theta.sin()), fx(theta.cos()), v3(1.0, 1.0, 0.0));
    let transform = rotation.compose(translation);

    let x_pos = 12.5_f64;
    let y_pos = 12.5_f64;
    let z_pos = -(2.0 * x_pos * x_pos).sqrt();
    let look_at = v3(x_pos, y_pos, z_pos);
    let look_at_l = (x_pos * x_pos + y_pos * y_pos + z_pos * z_pos).sqrt();
    let t_val = (look_at_l - 1.0) / look_at_l;

    let result_option = prim_with(transform).collide(
        &ray(p3(0.0, 0.0, 0.0), look_at),
        fx(t_val * 0.99),
        fx(t_val * 1.01),
    );
    assert!(result_option.is_some());
}
