//! The relative-transform capability: any context that can report its
//! current transform and install a replacement gains a full set of
//! local-coordinate transform operations, each of which multiplies a
//! primitive transform into the current one.

use vstd::prelude::*;
use crate::math::{
    Matrix2d,
    Primitive,
    Scalar,
    SCALAR_DEG_180,
    SCALAR_NEG_ONE,
    SCALAR_ONE,
    SCALAR_PI,
    SCALAR_ZERO,
    div_bits,
    mul_bits,
    multiply,
    orient,
    orient_factors,
    rotate_radians,
    scalar_div,
    scalar_mul,
    scale,
    shear,
    translate,
};

verus! {

/// Implemented by contexts that own a current transform.
pub trait HasTransform {
    /// The factors of the context's current transform.
    spec fn transform_view(&self) -> Seq<Primitive>;

    /// The context's current transform.
    fn get_transform(&self) -> (m: &Matrix2d)
        ensures
            m@ == self.transform_view(),
    ;
}

/// Implemented by contexts that can install a new current transform,
/// yielding a context that is the receiver but for its transform.
pub trait CanTransform: HasTransform + Sized {
    /// The context with the given transform installed as current.
    fn transform(&self, value: Matrix2d) -> (r: Self)
        ensures
            r.transform_view() == value@,
    ;
}

/// The angle in radians that the degree-based entry point converts to:
/// the degrees multiplied by pi, then divided by 180, in binary64.
pub open spec fn deg_to_rad(angle: Scalar) -> Scalar {
    div_bits(mul_bits(angle, SCALAR_PI), SCALAR_DEG_180)
}

/// The current transform after a translation by (x, y) in local coordinates.
pub open spec fn translated(t: Seq<Primitive>, x: Scalar, y: Scalar) -> Seq<Primitive> {
    t.push(Primitive::Translate { x, y })
}

/// The current transform after a rotation by an angle in radians in local
/// coordinates.
pub open spec fn rotated_rad(t: Seq<Primitive>, angle: Scalar) -> Seq<Primitive> {
    t.push(Primitive::Rotate { radians: angle })
}

/// The current transform after a rotation by an angle in degrees in local
/// coordinates.
pub open spec fn rotated_deg(t: Seq<Primitive>, angle: Scalar) -> Seq<Primitive> {
    rotated_rad(t, deg_to_rad(angle))
}

/// The current transform after orienting the x axis toward (x, y) in local
/// coordinates.
pub open spec fn oriented(t: Seq<Primitive>, x: Scalar, y: Scalar) -> Seq<Primitive> {
    t + orient_factors(x, y)
}

/// The current transform after scaling the axes by (sx, sy) in local
/// coordinates.
pub open spec fn scaled(t: Seq<Primitive>, sx: Scalar, sy: Scalar) -> Seq<Primitive> {
    t.push(Primitive::Scale { sx, sy })
}

/// The current transform after scaling both axes by s in local coordinates.
pub open spec fn zoomed(t: Seq<Primitive>, s: Scalar) -> Seq<Primitive> {
    scaled(t, s, s)
}

/// The current transform after an axis-aligned shear by (sx, sy) in local
/// coordinates.
pub open spec fn sheared(t: Seq<Primitive>, sx: Scalar, sy: Scalar) -> Seq<Primitive> {
    t.push(Primitive::Shear { sx, sy })
}

/// Implemented by contexts that can transform.
pub trait RelativeTransform2d: CanTransform {
    /// Translates by x and y in local coordinates.
    fn trans(&self, x: Scalar, y: Scalar) -> (r: Self)
        ensures
            r.transform_view() == translated(self.transform_view(), x, y),
    ;

    /// Rotates by an angle in degrees in local coordinates.
    fn rot_deg(&self, angle: Scalar) -> (r: Self)
        ensures
            r.transform_view() == rotated_deg(self.transform_view(), angle),
    ;

    /// Rotates by an angle in radians in local coordinates.
    fn rot_rad(&self, angle: Scalar) -> (r: Self)
        ensures
            r.transform_view() == rotated_rad(self.transform_view(), angle),
    ;

    /// Orients the x axis to look at a point locally.
    ///
    /// Leaves the transform unchanged if the point to look at is the origin.
    fn orient(&self, x: Scalar, y: Scalar) -> (r: Self)
        ensures
            r.transform_view() == oriented(self.transform_view(), x, y),
    ;

    /// Scales the axes by (sx, sy) in local coordinates.
    fn scale(&self, sx: Scalar, sy: Scalar) -> (r: Self)
        ensures
            r.transform_view() == scaled(self.transform_view(), sx, sy),
    ;

    /// Scales both axes by s in local coordinates.
    fn zoom(&self, s: Scalar) -> (r: Self)
        ensures
            r.transform_view() == zoomed(self.transform_view(), s),
    ;

    /// Flips vertically in local coordinates: scales the axes by (1, -1).
    fn flip_v(&self) -> (r: Self)
        ensures
            r.transform_view() == scaled(self.transform_view(), SCALAR_ONE, SCALAR_NEG_ONE),
    ;

    /// Flips horizontally in local coordinates: scales the axes by (-1, 0),
    /// which collapses the y axis to zero.
    fn flip_h(&self) -> (r: Self)
        ensures
            r.transform_view() == scaled(self.transform_view(), SCALAR_NEG_ONE, SCALAR_ZERO),
    ;

    /// Shears by (sx, sy) in local coordinates.
    fn shear(&self, sx: Scalar, sy: Scalar) -> (r: Self)
        ensures
            r.transform_view() == sheared(self.transform_view(), sx, sy),
    ;
}

impl<T: CanTransform> RelativeTransform2d for T {
    fn trans(&self, x: Scalar, y: Scalar) -> (r: Self) {
        let factor = translate(x, y);
        let r = self.transform(multiply(self.get_transform(), &factor));
        proof {
            assert(self.transform_view() + seq![Primitive::Translate { x, y }]
                =~= translated(self.transform_view(), x, y));
        }
        r
    }

    fn rot_deg(&self, angle: Scalar) -> (r: Self) {
        self.rot_rad(scalar_div(scalar_mul(angle, SCALAR_PI), SCALAR_DEG_180))
    }

    fn rot_rad(&self, angle: Scalar) -> (r: Self) {
        let factor = rotate_radians(angle);
        let r = self.transform(multiply(self.get_transform(), &factor));
        proof {
            assert(self.transform_view() + seq![Primitive::Rotate { radians: angle }]
                =~= rotated_rad(self.transform_view(), angle));
        }
        r
    }

    fn orient(&self, x: Scalar, y: Scalar) -> (r: Self) {
        let factor = orient(x, y);
        self.transform(multiply(self.get_transform(), &factor))
    }

    fn scale(&self, sx: Scalar, sy: Scalar) -> (r: Self) {
        let factor = scale(sx, sy);
        let r = self.transform(multiply(self.get_transform(), &factor));
        proof {
            assert(self.transform_view() + seq![Primitive::Scale { sx, sy }]
                =~= scaled(self.transform_view(), sx, sy));
        }
        r
    }

    fn zoom(&self, s: Scalar) -> (r: Self) {
        self.scale(s, s)
    }

    fn flip_v(&self) -> (r: Self) {
        self.scale(SCALAR_ONE, SCALAR_NEG_ONE)
    }

    fn flip_h(&self) -> (r: Self) {
        self.scale(SCALAR_NEG_ONE, SCALAR_ZERO)
    }

    fn shear(&self, sx: Scalar, sy: Scalar) -> (r: Self) {
        let factor = shear(sx, sy);
        let r = self.transform(multiply(self.get_transform(), &factor));
        proof {
            assert(self.transform_view() + seq![Primitive::Shear { sx, sy }]
                =~= sheared(self.transform_view(), sx, sy));
        }
        r
    }
}

/// Rotating by an angle in degrees is rotating by that angle converted to
/// radians: the same resulting transform, for every starting transform.
pub proof fn lemma_rot_deg_is_rot_rad(t: Seq<Primitive>, angle: Scalar)
    ensures
        rotated_deg(t, angle) == rotated_rad(t, deg_to_rad(angle)),
{
}

/// Zooming by s is scaling both axes by s: the same resulting transform,
/// for every starting transform.
pub proof fn lemma_zoom_is_scale(t: Seq<Primitive>, s: Scalar)
    ensures
        zoomed(t, s) == scaled(t, s, s),
{
}

/// Orienting toward the origin composes the identity: it leaves every
/// starting transform unchanged.
pub proof fn lemma_orient_origin_is_identity(t: Seq<Primitive>, x: Scalar, y: Scalar)
    requires
        crate::math::scalar_is_zero(x),
        crate::math::scalar_is_zero(y),
    ensures
        oriented(t, x, y) == t,
{
    assert(t + orient_factors(x, y) =~= t);
}

/// Two successive translations compose as the product of the two translation
/// matrices, in application order: the first translation stands left of the
/// second in the factors of the result.
pub proof fn lemma_trans_then_trans(t: Seq<Primitive>, x1: Scalar, y1: Scalar, x2: Scalar, y2: Scalar)
    ensures
        translated(translated(t, x1, y1), x2, y2)
            == t + seq![Primitive::Translate { x: x1, y: y1 }, Primitive::Translate { x: x2, y: y2 }],
{
    assert(translated(translated(t, x1, y1), x2, y2)
        =~= t + seq![Primitive::Translate { x: x1, y: y1 }, Primitive::Translate { x: x2, y: y2 }]);
}

} // verus!
