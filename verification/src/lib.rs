//! Capability traits for composing 2-D affine transforms in local
//! coordinates: a context that owns a current transform gains translate,
//! rotate, orient, scale, zoom, flip and shear operations, each of which
//! multiplies a primitive transform into the current one; a context that can
//! add a square border by radius gains the same border by width.

pub mod add_square_border;
pub mod context;
pub mod math;
pub mod relative_transform2d;
