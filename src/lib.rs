//! A drawing canvas: input events decide which colored squares are painted,
//! and each frame draws all of them in the order they were painted.

use vstd::prelude::*;

pub mod board;
pub mod color;
pub mod input;
pub mod laws;
pub mod pixel;

verus! {

} // verus!
