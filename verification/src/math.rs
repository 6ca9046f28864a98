//! Scalars, primitive transform factors, and the 2-D affine transform type.
//!
//! A scalar is carried as the bit pattern of an IEEE 754 binary64 value, so
//! that the composition logic can be verified while the numeric evaluation of
//! a transform stays with the unverified consumer that renders it.

use vstd::prelude::*;
use rustc_apfloat::Float;
use rustc_apfloat::ieee::Double;

verus! {

/// A scalar: the bit pattern of an IEEE 754 binary64 value.
pub type Scalar = u64;

/// Bit pattern of the binary64 value 0.0.
pub const SCALAR_ZERO: Scalar = 0x0000_0000_0000_0000;

/// Bit pattern of the binary64 value -0.0.
pub const SCALAR_NEG_ZERO: Scalar = 0x8000_0000_0000_0000;

/// Bit pattern of the binary64 value 0.5.
pub const SCALAR_HALF: Scalar = 0x3FE0_0000_0000_0000;

/// Bit pattern of the binary64 value 1.0.
pub const SCALAR_ONE: Scalar = 0x3FF0_0000_0000_0000;

/// Bit pattern of the binary64 value -1.0.
pub const SCALAR_NEG_ONE: Scalar = 0xBFF0_0000_0000_0000;

/// Bit pattern of the binary64 value closest to the constant pi.
pub const SCALAR_PI: Scalar = 0x4009_21FB_5444_2D18;

/// Bit pattern of the binary64 value 180.0.
pub const SCALAR_DEG_180: Scalar = 0x4066_8000_0000_0000;

/// Whether a scalar is a binary64 zero; IEEE 754 gives zero two encodings,
/// one for each sign.
pub open spec fn scalar_is_zero(s: Scalar) -> bool {
    s == SCALAR_ZERO || s == SCALAR_NEG_ZERO
}

/// The product of two binary64 values, as computed under round-to-nearest-even.
pub uninterp spec fn mul_bits(a: Scalar, b: Scalar) -> Scalar;

/// The quotient of two binary64 values, as computed under round-to-nearest-even.
pub uninterp spec fn div_bits(a: Scalar, b: Scalar) -> Scalar;

/// Relies on rustc_apfloat's `Mul` for `ieee::Double`: IEEE 754 binary64
/// multiplication under round-to-nearest-even, a function of the two operand
/// bit patterns alone.
#[verifier::external_body]
pub(crate) fn scalar_mul(a: Scalar, b: Scalar) -> (r: Scalar)
    ensures
        r == mul_bits(a, b),
{
    let product = Double::from_bits(a as u128) * Double::from_bits(b as u128);
    product.value.to_bits() as u64
}

/// Relies on rustc_apfloat's `Div` for `ieee::Double`: IEEE 754 binary64
/// division under round-to-nearest-even, a function of the two operand
/// bit patterns alone.
#[verifier::external_body]
pub(crate) fn scalar_div(a: Scalar, b: Scalar) -> (r: Scalar)
    ensures
        r == div_bits(a, b),
{
    let quotient = Double::from_bits(a as u128) / Double::from_bits(b as u128);
    quotient.value.to_bits() as u64
}

/// An elementary affine transform of the 2-D plane.
#[derive(Clone, Copy, Debug, PartialEq, Eq, Structural)]
pub enum Primitive {
    /// Translation by (x, y).
    Translate { x: Scalar, y: Scalar },
    /// Counter-clockwise rotation by an angle in radians.
    Rotate { radians: Scalar },
    /// Rotation taking the x axis toward the point (x, y); `orient` builds
    /// no such factor for the origin, where orienting is the identity.
    Orient { x: Scalar, y: Scalar },
    /// Independent scaling of the two axes.
    Scale { sx: Scalar, sy: Scalar },
    /// Axis-aligned shear.
    Shear { sx: Scalar, sy: Scalar },
}

/// A 2-D affine transform (a 2x3 matrix), kept as the ordered product of the
/// primitive factors it was composed from. The factor applied first to a
/// point stands last, matching the right-to-left application order of a
/// matrix product; a consumer evaluates the product numerically.
#[derive(Debug)]
pub struct Matrix2d {
    /// The factors of the product, leftmost first; empty for the identity.
    pub factors: Vec<Primitive>,
}

impl View for Matrix2d {
    type V = Seq<Primitive>;

    open spec fn view(&self) -> Seq<Primitive> {
        self.factors@
    }
}

impl Matrix2d {
    /// A transform with the same factors.
    pub fn duplicate(&self) -> (r: Matrix2d)
        ensures
            r@ == self@,
    {
        let mut factors: Vec<Primitive> = Vec::new();
        let mut i: usize = 0;
        while i < self.factors.len()
            invariant
                i <= self.factors.len(),
                factors@ == self.factors@.take(i as int),
            decreases self.factors.len() - i,
        {
            factors.push(self.factors[i]);
            proof {
                assert(self.factors@.take(i as int + 1)
                    =~= self.factors@.take(i as int).push(self.factors@[i as int]));
            }
            i = i + 1;
        }
        proof {
            assert(self.factors@.take(self.factors@.len() as int) =~= self.factors@);
        }
        Matrix2d { factors }
    }
}

/// The identity transform: an empty product.
pub fn identity() -> (r: Matrix2d)
    ensures
        r@ == Seq::<Primitive>::empty(),
{
    Matrix2d { factors: Vec::new() }
}

/// The translation matrix for (x, y).
pub fn translate(x: Scalar, y: Scalar) -> (r: Matrix2d)
    ensures
        r@ == seq![Primitive::Translate { x, y }],
{
    let mut factors: Vec<Primitive> = Vec::new();
    factors.push(Primitive::Translate { x, y });
    let r = Matrix2d { factors };
    proof {
        assert(r@ =~= seq![Primitive::Translate { x, y }]);
    }
    r
}

/// The matrix of a counter-clockwise rotation by an angle in radians.
pub fn rotate_radians(angle: Scalar) -> (r: Matrix2d)
    ensures
        r@ == seq![Primitive::Rotate { radians: angle }],
{
    let mut factors: Vec<Primitive> = Vec::new();
    factors.push(Primitive::Rotate { radians: angle });
    let r = Matrix2d { factors };
    proof {
        assert(r@ =~= seq![Primitive::Rotate { radians: angle }]);
    }
    r
}

/// The factors of the orientation matrix: none when (x, y) is the origin,
/// where orienting is the identity.
pub open spec fn orient_factors(x: Scalar, y: Scalar) -> Seq<Primitive> {
    if scalar_is_zero(x) && scalar_is_zero(y) {
        Seq::<Primitive>::empty()
    } else {
        seq![Primitive::Orient { x, y }]
    }
}

/// The matrix taking the x axis toward the point (x, y); the identity when
/// that point is the origin.
pub fn orient(x: Scalar, y: Scalar) -> (r: Matrix2d)
    ensures
        r@ == orient_factors(x, y),
{
    if (x == SCALAR_ZERO || x == SCALAR_NEG_ZERO) && (y == SCALAR_ZERO || y == SCALAR_NEG_ZERO) {
        identity()
    } else {
        let mut factors: Vec<Primitive> = Vec::new();
        factors.push(Primitive::Orient { x, y });
        let r = Matrix2d { factors };
        proof {
            assert(r@ =~= seq![Primitive::Orient { x, y }]);
        }
        r
    }
}

/// The matrix scaling the x axis by sx and the y axis by sy.
pub fn scale(sx: Scalar, sy: Scalar) -> (r: Matrix2d)
    ensures
        r@ == seq![Primitive::Scale { sx, sy }],
{
    let mut factors: Vec<Primitive> = Vec::new();
    factors.push(Primitive::Scale { sx, sy });
    let r = Matrix2d { factors };
    proof {
        assert(r@ =~= seq![Primitive::Scale { sx, sy }]);
    }
    r
}

/// The matrix of an axis-aligned shear by (sx, sy).
pub fn shear(sx: Scalar, sy: Scalar) -> (r: Matrix2d)
    ensures
        r@ == seq![Primitive::Shear { sx, sy }],
{
    let mut factors: Vec<Primitive> = Vec::new();
    factors.push(Primitive::Shear { sx, sy });
    let r = Matrix2d { factors };
    proof {
        assert(r@ =~= seq![Primitive::Shear { sx, sy }]);
    }
    r
}

/// The product of two transforms. Applied to a point, the product applies
/// the right operand first, then the left: its factors are the left
/// operand's followed by the right operand's.
pub fn multiply(a: &Matrix2d, b: &Matrix2d) -> (r: Matrix2d)
    ensures
        r@ == a@ + b@,
{
    let mut factors: Vec<Primitive> = Vec::new();
    let mut i: usize = 0;
    while i < a.factors.len()
        invariant
            i <= a.factors.len(),
            factors@ == a.factors@.take(i as int),
        decreases a.factors.len() - i,
    {
        factors.push(a.factors[i]);
        proof {
            assert(a.factors@.take(i as int + 1) =~= a.factors@.take(i as int).push(a.factors@[i as int]));
        }
        i = i + 1;
    }
    proof {
        assert(a.factors@.take(a.factors@.len() as int) =~= a.factors@);
    }
    let mut j: usize = 0;
    while j < b.factors.len()
        invariant
            j <= b.factors.len(),
            factors@ == a.factors@ + b.factors@.take(j as int),
        decreases b.factors.len() - j,
    {
        factors.push(b.factors[j]);
        proof {
            assert(b.factors@.take(j as int + 1) =~= b.factors@.take(j as int).push(b.factors@[j as int]));
        }
        j = j + 1;
    }
    proof {
        assert(b.factors@.take(b.factors@.len() as int) =~= b.factors@);
        assert(a.factors@ + b.factors@.take(0 as int) =~= a.factors@.take(a.factors@.len() as int));
    }
    Matrix2d { factors }
}

/// Multiplication of transforms is associative: grouping does not change the
/// factors of the product.
pub proof fn lemma_multiply_associative(a: Seq<Primitive>, b: Seq<Primitive>, c: Seq<Primitive>)
    ensures
        (a + b) + c == a + (b + c),
{
    assert((a + b) + c =~= a + (b + c));
}

} // verus!
