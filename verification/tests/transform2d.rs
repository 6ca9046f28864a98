use transform2d::add_square_border::AddSquareBorder;
use transform2d::context::Context;
use transform2d::math::{
    identity, multiply, orient, rotate_radians, scale, shear, translate, Matrix2d, Primitive,
    Scalar, SCALAR_DEG_180, SCALAR_HALF, SCALAR_NEG_ONE, SCALAR_NEG_ZERO, SCALAR_ONE, SCALAR_PI,
    SCALAR_ZERO,
};
use transform2d::relative_transform2d::RelativeTransform2d;

use vecmath::{mat2x3_id, row_mat2x3_mul, Matrix2x3};

fn s(v: f64) -> Scalar {
    v.to_bits()
}

fn primitive_matrix(p: &Primitive) -> Matrix2x3<f64> {
    match p {
        Primitive::Translate { x, y } => [
            [1.0, 0.0, f64::from_bits(*x)],
            [0.0, 1.0, f64::from_bits(*y)],
        ],
        Primitive::Rotate { radians } => {
            let a = f64::from_bits(*radians);
            let (sin, cos) = (a.sin(), a.cos());
            [[cos, -sin, 0.0], [sin, cos, 0.0]]
        }
        Primitive::Orient { x, y } => {
            let (x, y) = (f64::from_bits(*x), f64::from_bits(*y));
            let len = (x * x + y * y).sqrt();
            let (cos, sin) = (x / len, y / len);
            [[cos, -sin, 0.0], [sin, cos, 0.0]]
        }
        Primitive::Scale { sx, sy } => [
            [f64::from_bits(*sx), 0.0, 0.0],
            [0.0, f64::from_bits(*sy), 0.0],
        ],
        Primitive::Shear { sx, sy } => [
            [1.0, f64::from_bits(*sx), 0.0],
            [f64::from_bits(*sy), 1.0, 0.0],
        ],
    }
}

fn eval(m: &Matrix2d) -> Matrix2x3<f64> {
    let mut acc: Matrix2x3<f64> = mat2x3_id();
    for p in m.factors.iter() {
        acc = row_mat2x3_mul(acc, primitive_matrix(p));
    }
    acc
}

fn assert_close(a: Matrix2x3<f64>, b: Matrix2x3<f64>) {
    for i in 0..2usize {
        for j in 0..3usize {
            assert!(
                (a[i][j] - b[i][j]).abs() <= 1e-9,
                "entry ({}, {}): {} vs {}",
                i,
                j,
                a[i][j],
                b[i][j]
            );
        }
    }
}

#[test]
fn scalar_constants_are_binary64_bit_patterns() {
    assert_eq!(SCALAR_ZERO, (0.0f64).to_bits());
    assert_eq!(SCALAR_NEG_ZERO, (-0.0f64).to_bits());
    assert_eq!(SCALAR_HALF, (0.5f64).to_bits());
    assert_eq!(SCALAR_ONE, (1.0f64).to_bits());
    assert_eq!(SCALAR_NEG_ONE, (-1.0f64).to_bits());
    assert_eq!(SCALAR_PI, std::f64::consts::PI.to_bits());
    assert_eq!(SCALAR_DEG_180, (180.0f64).to_bits());
}

#[test]
fn new_context_has_identity_transform_and_no_border() {
    let c = Context::new();
    assert!(c.transform.factors.is_empty());
    assert_eq!(c.border_radius(), None);
    assert!(identity().factors.is_empty());
}

#[test]
fn border_width_is_border_radius_of_half() {
    for r in [0.0f64, 1.5, 2.25, 7.0, 1.0e10] {
        let by_width = Context::new().square_border_width(s(2.0 * r));
        let by_radius = Context::new().square_border_radius(s(r));
        assert_eq!(by_width.border_radius(), by_radius.border_radius());
        assert_eq!(by_width.border_radius(), Some(s(r)));
    }
}

#[test]
fn border_width_halves_exactly() {
    let c = Context::new().square_border_width(s(6.0));
    assert_eq!(c.border_radius(), Some(s(3.0)));
}

#[test]
fn rot_deg_matches_rot_rad_of_converted_angle() {
    for deg in [90.0f64, 45.0, -30.0, 123.456, 0.0] {
        let by_deg = Context::new().rot_deg(s(deg));
        let by_rad = Context::new().rot_rad(s(deg * std::f64::consts::PI / 180.0));
        assert_eq!(by_deg.transform.factors, by_rad.transform.factors);
        assert_close(eval(&by_deg.transform), eval(&by_rad.transform));
    }
}

#[test]
fn zoom_matches_scale_of_same_factor_twice() {
    let zoomed = Context::new().trans(s(1.0), s(2.0)).zoom(s(2.5));
    let scaled = Context::new().trans(s(1.0), s(2.0)).scale(s(2.5), s(2.5));
    assert_eq!(zoomed.transform.factors, scaled.transform.factors);
}

#[test]
fn flip_v_is_scale_one_minus_one() {
    let flipped = Context::new().flip_v();
    let scaled = Context::new().scale(s(1.0), s(-1.0));
    assert_eq!(flipped.transform.factors, scaled.transform.factors);
    assert_close(eval(&flipped.transform), [[1.0, 0.0, 0.0], [0.0, -1.0, 0.0]]);
}

#[test]
fn flip_h_is_scale_minus_one_zero() {
    let flipped = Context::new().flip_h();
    let scaled = Context::new().scale(s(-1.0), s(0.0));
    assert_eq!(flipped.transform.factors, scaled.transform.factors);
    assert_close(eval(&flipped.transform), [[-1.0, 0.0, 0.0], [0.0, 0.0, 0.0]]);
}

#[test]
fn orient_toward_origin_leaves_transform_unchanged() {
    let c = Context::new().trans(s(3.0), s(4.0)).rot_rad(s(0.25));
    let oriented = c.orient(s(0.0), s(0.0));
    assert_eq!(oriented.transform.factors, c.transform.factors);
    let oriented_neg = c.orient(s(-0.0), s(-0.0));
    assert_eq!(oriented_neg.transform.factors, c.transform.factors);
}

#[test]
fn orient_toward_point_rotates_x_axis_toward_it() {
    let c = Context::new().orient(s(3.0), s(4.0));
    assert_eq!(
        c.transform.factors,
        vec![Primitive::Orient { x: s(3.0), y: s(4.0) }]
    );
    assert_close(eval(&c.transform), [[0.6, -0.8, 0.0], [0.8, 0.6, 0.0]]);
}

#[test]
fn trans_then_trans_composes_in_application_order() {
    let c = Context::new().trans(s(1.0), s(0.0)).trans(s(0.0), s(1.0));
    assert_eq!(
        c.transform.factors,
        vec![
            Primitive::Translate { x: s(1.0), y: s(0.0) },
            Primitive::Translate { x: s(0.0), y: s(1.0) },
        ]
    );
    let direct = row_mat2x3_mul(
        row_mat2x3_mul(mat2x3_id(), [[1.0, 0.0, 1.0], [0.0, 1.0, 0.0]]),
        [[1.0, 0.0, 0.0], [0.0, 1.0, 1.0]],
    );
    assert_close(eval(&c.transform), direct);
    assert_close(eval(&c.transform), [[1.0, 0.0, 1.0], [0.0, 1.0, 1.0]]);
}

#[test]
fn rot_deg_90_matches_quarter_turn_in_radians() {
    let c = Context::new().rot_deg(s(90.0));
    let half_pi = std::f64::consts::PI / 2.0;
    let direct = row_mat2x3_mul(
        mat2x3_id(),
        [
            [half_pi.cos(), -half_pi.sin(), 0.0],
            [half_pi.sin(), half_pi.cos(), 0.0],
        ],
    );
    assert_close(eval(&c.transform), direct);
}

#[test]
fn trans_then_scale_matches_direct_product() {
    let c = Context::new().trans(s(3.0), s(4.0)).scale(s(2.0), s(2.0));
    let direct = row_mat2x3_mul(
        row_mat2x3_mul(mat2x3_id(), [[1.0, 0.0, 3.0], [0.0, 1.0, 4.0]]),
        [[2.0, 0.0, 0.0], [0.0, 2.0, 0.0]],
    );
    assert_close(eval(&c.transform), direct);
}

#[test]
fn shear_appends_shear_factor() {
    let c = Context::new().shear(s(0.5), s(0.25));
    assert_eq!(
        c.transform.factors,
        vec![Primitive::Shear { sx: s(0.5), sy: s(0.25) }]
    );
    assert_close(eval(&c.transform), [[1.0, 0.5, 0.0], [0.25, 1.0, 0.0]]);
}

#[test]
fn multiply_concatenates_factors() {
    let product = multiply(&translate(s(1.0), s(2.0)), &scale(s(3.0), s(4.0)));
    assert_eq!(
        product.factors,
        vec![
            Primitive::Translate { x: s(1.0), y: s(2.0) },
            Primitive::Scale { sx: s(3.0), sy: s(4.0) },
        ]
    );
    let with_identity = multiply(&product, &identity());
    assert_eq!(with_identity.factors, product.factors);
}

#[test]
fn constructors_build_single_factor_matrices() {
    assert_eq!(
        translate(s(1.0), s(2.0)).factors,
        vec![Primitive::Translate { x: s(1.0), y: s(2.0) }]
    );
    assert_eq!(
        rotate_radians(s(0.5)).factors,
        vec![Primitive::Rotate { radians: s(0.5) }]
    );
    assert_eq!(
        scale(s(2.0), s(3.0)).factors,
        vec![Primitive::Scale { sx: s(2.0), sy: s(3.0) }]
    );
    assert_eq!(
        shear(s(2.0), s(3.0)).factors,
        vec![Primitive::Shear { sx: s(2.0), sy: s(3.0) }]
    );
    assert_eq!(
        orient(s(3.0), s(4.0)).factors,
        vec![Primitive::Orient { x: s(3.0), y: s(4.0) }]
    );
    assert!(orient(s(0.0), s(-0.0)).factors.is_empty());
    let m = translate(s(1.0), s(2.0));
    assert_eq!(m.duplicate().factors, m.factors);
}

#[test]
fn transform_installs_the_given_matrix() {
    let c = Context::new().trans(s(1.0), s(1.0));
    let installed = transform2d::relative_transform2d::CanTransform::transform(
        &c,
        rotate_radians(s(0.5)),
    );
    assert_eq!(
        installed.transform.factors,
        vec![Primitive::Rotate { radians: s(0.5) }]
    );
    let current = transform2d::relative_transform2d::HasTransform::get_transform(&c);
    assert_eq!(current.factors, vec![Primitive::Translate { x: s(1.0), y: s(1.0) }]);
}

#[test]
fn border_keeps_the_transform_factors() {
    let c = Context::new().trans(s(1.0), s(2.0)).square_border_radius(s(0.5));
    assert_eq!(
        c.transform.factors,
        vec![Primitive::Translate { x: s(1.0), y: s(2.0) }]
    );
    assert_eq!(c.border_radius(), Some(s(0.5)));
}
