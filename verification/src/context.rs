//! A minimal drawing context: one current transform and an optional square
//! border radius. It adopts both capabilities, so every derived operation
//! of the crate can be exercised on it.

use vstd::prelude::*;
use crate::add_square_border::AddSquareBorder;
use crate::math::{Matrix2d, Primitive, Scalar, identity};
use crate::relative_transform2d::{CanTransform, HasTransform};

verus! {

/// A context owning a current transform and an optional square border
/// radius.
#[derive(Debug)]
pub struct Context {
    /// The current transform.
    pub transform: Matrix2d,
    /// The radius of the square border, if one has been added.
    pub border: Option<Scalar>,
}

impl Context {
    /// A fresh context: identity transform, no border.
    pub fn new() -> (c: Context)
        ensures
            c.transform_view() == Seq::<Primitive>::empty(),
            c.border_view() == None::<Scalar>,
    {
        Context { transform: identity(), border: None }
    }

    /// The radius of the square border, if one has been added.
    pub fn border_radius(&self) -> (r: Option<Scalar>)
        ensures
            r == self.border_view(),
    {
        self.border
    }
}

impl HasTransform for Context {
    open spec fn transform_view(&self) -> Seq<Primitive> {
        self.transform@
    }

    fn get_transform(&self) -> (m: &Matrix2d) {
        &self.transform
    }
}

impl CanTransform for Context {
    fn transform(&self, value: Matrix2d) -> (r: Context)
        ensures
            r.border_view() == self.border_view(),
    {
        Context { transform: value, border: self.border }
    }
}

impl AddSquareBorder for Context {
    open spec fn border_view(&self) -> Option<Scalar> {
        self.border
    }

    fn square_border_radius(&self, radius: Scalar) -> (r: Context)
        ensures
            r.transform_view() == self.transform_view(),
    {
        Context { transform: self.transform.duplicate(), border: Some(radius) }
    }
}

} // verus!
