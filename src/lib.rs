//! CPU-side batching for a 2D sprite renderer.
//!
//! - [`batch`]: order-preserving grouping of sprites into maximal runs of one texture.
//! - [`layout`]: the vertices, indices, index ranges and uniform offsets of a frame.
//! - [`buffer`]: when a grow-only GPU buffer must be replaced and when it is updated in place.
//! - [`slice`]: bounds-checked sub-regions of textures.
use vstd::prelude::*;

pub mod batch;
pub mod buffer;
pub mod layout;
pub mod slice;

verus! {

} // verus!
