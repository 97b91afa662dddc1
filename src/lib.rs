//! Normalizes decoded still images into one canonical 8-bit RGB raster, and
//! chooses the decoder for an encoded buffer from a hint and its content.
use vstd::prelude::*;

pub mod dispatch;
pub mod normalize;

pub use dispatch::load_image;
pub use normalize::normalize;

verus! {

} // verus!
