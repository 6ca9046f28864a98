//! The border capability: a context that can add a square border by radius
//! gains the same border by width, the radius being half the width.

use vstd::prelude::*;
use crate::math::{Scalar, SCALAR_HALF, mul_bits, scalar_mul};

verus! {

/// Implemented by contexts that can add square border.
pub trait AddSquareBorder: Sized {
    /// The border radius the context would draw with, if a border has been
    /// added; what a border means is owned by the implementing type.
    spec fn border_view(&self) -> Option<Scalar>;

    /// Adds a square border radius.
    fn square_border_radius(&self, radius: Scalar) -> (r: Self)
        ensures
            r.border_view() == Some(radius),
    ;

    /// Adds a square border width: the border radius half the width, the
    /// half taken in binary64.
    fn square_border_width(&self, width: Scalar) -> (r: Self)
        ensures
            r.border_view() == Some(mul_bits(SCALAR_HALF, width)),
    {
        self.square_border_radius(scalar_mul(SCALAR_HALF, width))
    }
}

} // verus!
