//! Packing of 2D tile grids into fixed-capacity strips for batched drawing.
//!
//! A [`grid::TextureAtlasTilemap`] is a dense row-major grid of atlas-tile
//! indices. [`packer::pack_tilestrips`] partitions every row into chunks of
//! at most [`TILESTRIP_LEN`] tiles, resolves each tile's UV rectangle in an
//! [`atlas::ResolvedAtlas`], and emits one [`packer::StripDescriptor`] per
//! chunk: the packed UV rectangles, the strip's world placement rectangle
//! and the shared texture handle. A host renderer then issues one draw
//! primitive per descriptor instead of one per tile.

use vstd::prelude::*;

pub mod atlas;
pub mod error;
pub mod geom;
pub mod geometry;
pub mod grid;
pub mod laws;
pub mod packer;
pub mod uniform;

pub use crate::atlas::PixelRect;
pub use crate::atlas::ResolvedAtlas;
pub use crate::error::TilemapError;
pub use crate::geom::Frac;
pub use crate::geom::UvRect;
pub use crate::geom::WorldRect;
pub use crate::geometry::TextureAtlasTilemapGeometry;
pub use crate::grid::TextureAtlasTilemap;
pub use crate::packer::StripDescriptor;
pub use crate::packer::pack_tilestrips;
pub use crate::uniform::TilestripMaterial;
pub use crate::uniform::TilestripUniform;

verus! {

/// The fixed strip capacity: the hard upper bound on the number of tiles
/// one strip may carry, and the exact length of every packed UV array.
///
/// The bound is imposed by the fixed-size array in the shader-visible
/// uniform struct; the value must match between the packer and any
/// downstream consumer of the packed array, and a mismatch is a
/// build-level contract violation, not a runtime condition.
pub const TILESTRIP_LEN: usize = 1000;

} // verus!
