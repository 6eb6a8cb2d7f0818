//! Reconstructs a composite overworld map from game screenshots.
//!
//! Each screenshot shows a minimap overlay (bounded by a near-black
//! background) with a player-position cursor inside it. The pipeline locates
//! the minimap within a frame, measures its extent, finds and sizes the
//! cursor blob, derives the tile index the cursor occupies, and pastes the
//! frame into the matching cell of a larger output canvas.
//!
//! Decoding and encoding of image files is left to callers; the library works
//! on plain pixel grids.

use vstd::prelude::*;

pub mod compose;
pub mod detect;
pub mod grid;
pub mod pixel;
pub mod tiles;

verus! {

/// Failures of the pipeline.
#[derive(Clone, Copy, PartialEq, Eq, Structural, Debug)]
pub enum MapError {
    /// A detection scan ran out of image before finding what it scans for.
    BoundsOverrun,
    /// The computed tile offset would place the paste outside the canvas.
    CompositeOutOfBounds,
}

} // verus!
