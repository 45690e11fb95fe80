use rust_ray_tracing::algebra::{Normal3T, Point3T, Vector3T};
use rust_ray_tracing::fx::Fx;
use rust_ray_tracing::material::Material;
use rust_ray_tracing::primative::{Primative, Shape};
use rust_ray_tracing::ray::Ray;
use rust_ray_tracing::shapes::sphere2::Sphere;
use rust_ray_tracing::transforms::{gen_rotate, gen_scale, gen_translate, Transform};

fn fx(v: f64) -> Fx {
    Fx::from_raw((v * 65536.0).round() as i64)
}

fn v3(x: f64, y: f64, z: f64) -> Vector3T {
    Vector3T { x: fx(x), y: fx(y), z: fx(z) }
}

fn p3(x: f64, y: f64, z: f64) -> Point3T {
    Point3T { x: fx(x), y: fx(y), z: fx(z) }
}

// Scale, rotate, translate, in the standard SRT order.
fn srt_transform(
    delta: Vector3T,
    scale_x: f64,
    scale_y: f64,
    scale_z: f64,
    theta: f64,
    axis: Vector3T,
) -> Transform {
    let scale = gen_scale(fx(scale_x), fx(scale_y), fx(scale_z));
    let rotate = gen_rotate(fx(theta.sin()), fx(theta.cos()), axis);
    let translate = gen_translate(delta);
    translate.compose(rotate).compose(scale)
}

fn unit_prim(scale_x: f64, scale_y: f64, scale_z: f64) -> Primative {
    Primative {
        shape: Shape::Sphere(Sphere { radius: fx(1.0) }),
        material: Material::make_dummy_material(),
        transform: srt_transform(
            v3(0.0, 0.0, 0.0),
            scale_x,
            scale_y,
            scale_z,
            0.0,
            v3(0.0, 1.0, 0.0),
        ),
    }
}

fn close(a: Fx, b: Fx, tol_raw: i64) -> bool {
    (a.raw() - b.raw()).abs() <= tol_raw
}

#[test]
fn test_instantiate() {
    let primative = unit_prim(1.0, 1.0, 1.0);
    let ray = Ray { a: p3(2.0, 0.0, 0.0), b: v3(-2.0, 0.0, 0.0), time: fx(0.0) };
    let interaction = primative.collide(&ray, fx(0.0), fx(10.0)).unwrap();
    assert_eq!(interaction.t, fx(0.5));
    assert_eq!(interaction.p, p3(1.0, 0.0, 0.0));
    assert_eq!(interaction.normal, Normal3T { x: fx(1.0), y: fx(0.0), z: fx(0.0) });
}

#[test]
fn test_unit_sphere_normals() {
    let primative = unit_prim(1.0, 1.0, 1.0);
    for yi in -6..6 {
        for xi in -6..6 {
            let x = Fx::from_int(xi).over(Fx::from_int(5));
            let y = Fx::from_int(yi).over(Fx::from_int(5));
            let ray = Ray {
                a: Point3T { x, y, z: fx(4.0) },
                b: v3(0.0, 0.0, -1.0),
                time: fx(0.0),
            };
            let interaction_result = primative.collide(&ray, fx(0.0), fx(10.0));
            let rr = x.times(x).plus(y.times(y));
            if Fx::one().lt(rr) {
                assert!(interaction_result.is_none(), "Expected failure from x:{:?}, y:{:?}", x, y);
            } else {
                let interaction = interaction_result.expect("Expected success");
                let z_point = Fx::one().minus(x.times(x)).minus(y.times(y)).max(Fx::zero()).sqrt();
                assert!(close(interaction.p.x, x, 4), "Point x failed");
                assert!(close(interaction.p.y, y, 4), "Point y failed");
                assert!(close(interaction.p.z, z_point, 4), "Point z failed");
                assert!(close(interaction.normal.x, x, 8), "Normal x failed");
                assert!(close(interaction.normal.y, y, 8), "Normal y failed");
                assert!(close(interaction.normal.z, z_point, 8), "Normal z failed");
            }
        }
    }
}

#[test]
fn test_regularly_scaled_sphere_normals() {
    let primative = unit_prim(2.0, 2.0, 2.0);
    for yi in -12..12 {
        for xi in -12..12 {
            let x = Fx::from_int(xi).over(Fx::from_int(10));
            let y = Fx::from_int(yi).over(Fx::from_int(10));
            let ray = Ray {
                a: Point3T { x, y, z: fx(4.0) },
                b: v3(0.0, 0.0, -1.0),
                time: fx(0.0),
            };
            let interaction_result = primative.collide(&ray, fx(0.0), fx(10.0));
            let four = Fx::from_int(4);
            let rr = x.times(x).over(four).plus(y.times(y).over(four));
            if Fx::one().lt(rr) {
                assert!(interaction_result.is_none(), "Expected failure from x:{:?}, y:{:?}", x, y);
            } else {
                let interaction = interaction_result.expect("Expected success");
                let z_point = four.minus(x.times(x)).minus(y.times(y)).max(Fx::zero()).sqrt();
                assert!(close(interaction.p.x, x, 16), "Point x failed");
                assert!(close(interaction.p.y, y, 16), "Point y failed");
                assert!(close(interaction.p.z, z_point, 16), "Point z failed");
                let returned = Vector3T::from_normal(interaction.normal).unit_vector();
                let expected = Vector3T { x: x.over(four), y: y.over(four), z: z_point.over(four) }
                    .unit_vector();
                assert!(close(returned.x, expected.x, 16), "Normal x failed");
                assert!(close(returned.y, expected.y, 16), "Normal y failed");
                assert!(close(returned.z, expected.z, 16), "Normal z failed");
            }
        }
    }
}

#[test]
fn test_irregularly_scaled_sphere_normals() {
    let primative = unit_prim(4.0, 0.5, 1.0);
    for yi in -6..7 {
        for xi in -11..11 {
            let two = Fx::from_int(2);
            let five = Fx::from_int(5);
            let x = Fx::from_int(xi).times(two).over(five);
            let y = Fx::from_int(yi).over(Fx::from_int(10));
            let ray = Ray {
                a: Point3T { x, y, z: fx(4.0) },
                b: v3(0.0, 0.0, -1.0),
                time: fx(0.0),
            };
            let interaction_result = primative.collide(&ray, fx(0.0), fx(10.0));
            let a_sqred = Fx::from_int(16);
            let b_sqred = fx(0.25);
            let rr = x.times(x).over(a_sqred).plus(y.times(y).over(b_sqred));
            if Fx::one().lt(rr) {
                assert!(interaction_result.is_none(), "Expected failure from x:{:?}, y:{:?}", x, y);
            } else {
                let interaction = interaction_result.expect("Expected success");
                let z_squared = Fx::one().minus(x.times(x).over(a_sqred)).minus(
                    y.times(y).over(b_sqred),
                ).max(Fx::zero());
                let z_point = z_squared.sqrt();
                assert!(close(interaction.p.x, x, 16), "Point x failed");
                assert!(close(interaction.p.y, y, 16), "Point y failed");
                // Near the silhouette the square root magnifies rounding, so
                // the height is checked through its square, which is stable.
                assert!(
                    close(interaction.p.z.times(interaction.p.z), z_squared, 64),
                    "Point z failed"
                );
                let returned = Vector3T::from_normal(interaction.normal).unit_vector();
                let expected = Vector3T {
                    x: x.over(a_sqred),
                    y: y.over(b_sqred),
                    z: z_point,
                }.unit_vector();
                assert!(close(returned.x, expected.x, 256), "Normal x failed");
                assert!(close(returned.y, expected.y, 256), "Normal y failed");
                assert!(close(returned.z, expected.z, 256), "Normal z failed");
            }
        }
    }
}
