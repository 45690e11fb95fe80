use rust_ray_tracing::aabb::AABB;
use rust_ray_tracing::algebra::{cross, dot, dot_nn, dot_nv, dot_vn, dot_vv, Colour, Normal3T, Point3T, Vector3T};
use rust_ray_tracing::fx::Fx;
use rust_ray_tracing::matrix::{indentity, Matrix4x4};
use rust_ray_tracing::ray::Ray;
use rust_ray_tracing::render::sample_range;
use rust_ray_tracing::transforms::{gen_scale, gen_translate};

fn fx(v: f64) -> Fx {
    Fx::from_raw((v * 65536.0).round() as i64)
}

fn m4(rows: [[f64; 4]; 4]) -> Matrix4x4 {
    let mut m = [[Fx::zero(); 4]; 4];
    let mut r = 0;
    while r < 4 {
        let mut c = 0;
        while c < 4 {
            m[r][c] = fx(rows[r][c]);
            c += 1;
        }
        r += 1;
    }
    Matrix4x4 { m }
}

// Scenario: Transposing a matrix
//   Given the following matrix A:
//     | 0 | 9 | 3 | 0 |
//     | 9 | 8 | 0 | 8 |
//     | 1 | 8 | 5 | 3 |
//     | 0 | 0 | 5 | 8 |
//   Then transpose(A) is the following matrix:
//     | 0 | 9 | 1 | 0 |
//     | 9 | 8 | 8 | 0 |
//     | 3 | 0 | 5 | 5 |
//     | 0 | 8 | 3 | 8 |
#[test]
fn tranpose() {
    let m = m4([
        [0.0, 9.0, 3.0, 0.0],
        [9.0, 8.0, 0.0, 8.0],
        [1.0, 8.0, 5.0, 3.0],
        [0.0, 0.0, 5.0, 8.0],
    ]);
    let transposed = m.transpose();
    assert_eq!(
        transposed,
        m4([
            [0.0, 9.0, 1.0, 0.0],
            [9.0, 8.0, 8.0, 0.0],
            [3.0, 0.0, 5.0, 5.0],
            [0.0, 8.0, 3.0, 8.0],
        ])
    );
}

#[test]
fn identity_maps_points_and_vectors() {
    let p = Point3T { x: fx(3.0), y: fx(-2.5), z: fx(7.0) };
    let v = Vector3T { x: fx(0.5), y: fx(1.0), z: fx(-4.0) };
    assert_eq!(indentity().mul_p(p), p);
    assert_eq!(indentity().mul_v(v), v);
}

#[test]
fn translate_then_invert_round_trips() {
    let t = gen_translate(Vector3T { x: fx(5.0), y: fx(-3.0), z: fx(0.25) });
    let p = Point3T { x: fx(1.0), y: fx(2.0), z: fx(3.0) };
    let moved = t.m.mul_p(p);
    assert_eq!(moved, Point3T { x: fx(6.0), y: fx(-1.0), z: fx(3.25) });
    assert_eq!(t.m_inv.mul_p(moved), p);
}

#[test]
fn scale_inverse_uses_reciprocals() {
    let s = gen_scale(fx(2.0), fx(4.0), fx(0.5));
    let v = Vector3T { x: fx(1.0), y: fx(1.0), z: fx(1.0) };
    assert_eq!(s.m.mul_v(v), Vector3T { x: fx(2.0), y: fx(4.0), z: fx(0.5) });
    assert_eq!(s.m_inv.mul_v(v), Vector3T { x: fx(0.5), y: fx(0.25), z: fx(2.0) });
}

#[test]
fn fixed_point_arithmetic_exact_values() {
    assert_eq!(Fx::from_int(3).plus(Fx::from_int(4)), Fx::from_int(7));
    assert_eq!(Fx::from_int(3).times(Fx::from_int(4)), Fx::from_int(12));
    assert_eq!(Fx::from_int(-3).over(Fx::from_int(2)).raw(), -98304);
    assert_eq!(Fx::from_int(1).over(Fx::from_int(3)).raw(), 21845);
    assert_eq!(Fx::from_int(4).sqrt(), Fx::from_int(2));
    assert_eq!(Fx::from_int(2).sqrt().raw(), 92681);
    assert_eq!(Fx::from_int(0).sqrt(), Fx::zero());
}

#[test]
fn fixed_point_saturates_at_bound() {
    let big = Fx::from_int(20_000_000);
    assert_eq!(big.raw(), 0x100_0000_0000);
    assert_eq!(big.neg().raw(), -0x100_0000_0000);
    assert_eq!(big.times(big).raw(), 0x100_0000_0000);
}

#[test]
fn dot_products_agree_across_kinds() {
    let v = Vector3T { x: fx(1.0), y: fx(2.0), z: fx(3.0) };
    let w = Vector3T { x: fx(-4.0), y: fx(0.5), z: fx(2.0) };
    let n = Normal3T { x: fx(-4.0), y: fx(0.5), z: fx(2.0) };
    let nv = Normal3T { x: fx(1.0), y: fx(2.0), z: fx(3.0) };
    let expect = fx(3.0);
    assert_eq!(dot_vv(&v, &w), expect);
    assert_eq!(dot_vn(&v, &n), expect);
    assert_eq!(dot_nv(&nv, &w), expect);
    assert_eq!(dot_nn(&nv, &n), expect);
    assert_eq!(dot(&nv, &n), expect);
}

#[test]
fn cross_follows_right_hand_rule() {
    let x_hat = Vector3T { x: fx(1.0), y: fx(0.0), z: fx(0.0) };
    let y_hat = Vector3T { x: fx(0.0), y: fx(1.0), z: fx(0.0) };
    let z_hat = Vector3T { x: fx(0.0), y: fx(0.0), z: fx(1.0) };
    assert_eq!(cross(&x_hat, &y_hat), z_hat);
    assert_eq!(cross(&y_hat, &x_hat), z_hat.neg());
}

#[test]
fn unit_vector_normalizes_length() {
    let v = Vector3T { x: fx(3.0), y: fx(4.0), z: fx(0.0) };
    let u = v.unit_vector();
    let three_fifths = Fx::from_int(3).over(Fx::from_int(5));
    let four_fifths = Fx::from_int(4).over(Fx::from_int(5));
    assert_eq!(u, Vector3T { x: three_fifths, y: four_fifths, z: fx(0.0) });
}

// The union law made concrete: every corner of both boxes lies inside the
// joined box.
#[test]
fn aabb_join_contains_both() {
    let a = AABB {
        minimum: Point3T { x: fx(-1.0), y: fx(0.0), z: fx(2.0) },
        maximum: Point3T { x: fx(1.0), y: fx(3.0), z: fx(5.0) },
    };
    let b = AABB {
        minimum: Point3T { x: fx(-4.0), y: fx(1.0), z: fx(3.0) },
        maximum: Point3T { x: fx(0.0), y: fx(2.0), z: fx(9.0) },
    };
    let j = AABB::join(&a, &b);
    assert_eq!(j.minimum, Point3T { x: fx(-4.0), y: fx(0.0), z: fx(2.0) });
    assert_eq!(j.maximum, Point3T { x: fx(1.0), y: fx(3.0), z: fx(9.0) });
    for bx in [&a, &b] {
        assert!(j.minimum.x.le(bx.minimum.x) && bx.maximum.x.le(j.maximum.x));
        assert!(j.minimum.y.le(bx.minimum.y) && bx.maximum.y.le(j.maximum.y));
        assert!(j.minimum.z.le(bx.minimum.z) && bx.maximum.z.le(j.maximum.z));
    }
}

#[test]
fn aabb_slab_test_behaviour() {
    let bb = AABB {
        minimum: Point3T { x: fx(-1.0), y: fx(-1.0), z: fx(-1.0) },
        maximum: Point3T { x: fx(1.0), y: fx(1.0), z: fx(1.0) },
    };
    let through = Ray {
        a: Point3T { x: fx(0.0), y: fx(0.0), z: fx(-5.0) },
        b: Vector3T { x: fx(0.0), y: fx(0.0), z: fx(1.0) },
        time: fx(0.0),
    };
    assert!(bb.hit(&through, fx(0.0), fx(20.0)));
    let beside = Ray {
        a: Point3T { x: fx(0.0), y: fx(3.0), z: fx(-5.0) },
        b: Vector3T { x: fx(0.0), y: fx(0.0), z: fx(1.0) },
        time: fx(0.0),
    };
    assert!(!bb.hit(&beside, fx(0.0), fx(20.0)));
    // A window entirely before the box is empty.
    assert!(!bb.hit(&through, fx(0.0), fx(1.0)));
    // A zero direction component inside the slab leaves the axis unbounded.
    let flat = Ray {
        a: Point3T { x: fx(0.5), y: fx(0.5), z: fx(-5.0) },
        b: Vector3T { x: fx(0.0), y: fx(0.0), z: fx(1.0) },
        time: fx(0.0),
    };
    assert!(bb.hit(&flat, fx(0.0), fx(20.0)));
}

#[test]
fn sample_range_splits_work_evenly() {
    assert_eq!(sample_range(0, 4, 100), (0, 25));
    assert_eq!(sample_range(1, 4, 100), (25, 50));
    assert_eq!(sample_range(3, 4, 100), (75, 100));
    assert_eq!(sample_range(0, 3, 10), (0, 3));
    assert_eq!(sample_range(2, 3, 10), (6, 10));
}

#[test]
fn colour_channels_multiply_componentwise() {
    let a = Colour { r: fx(0.5), g: fx(1.0), b: fx(0.25) };
    let b = Colour { r: fx(0.5), g: fx(0.75), b: fx(1.0) };
    let p = a.times(b);
    assert_eq!(p, Colour { r: fx(0.25), g: fx(0.75), b: fx(0.25) });
}
