//! The failure conditions of grid construction, grid access and packing.

use vstd::prelude::*;

verus! {

/// A failure of grid construction, grid access or strip packing.
///
/// Every variant is deterministic in its inputs: retrying an operation
/// without changing its input cannot succeed.
#[derive(Clone, Copy, Debug, PartialEq, Eq, Structural)]
pub enum TilemapError {
    /// A grid was constructed with zero width or zero height.
    InvalidDimension,
    /// A coordinate access lay beyond the grid extent.
    OutOfBounds,
    /// During packing, a tile held an index with no atlas entry.
    /// Carries the grid coordinate of the offending tile.
    UnresolvedTileIndex { x: usize, y: usize },
}

impl TilemapError {
    /// A short description of the failure, for the host's log layer.
    pub fn describe(&self) -> String {
        match self {
            TilemapError::InvalidDimension => "grid dimensions must be positive".to_string(),
            TilemapError::OutOfBounds => "coordinate lies outside the grid".to_string(),
            TilemapError::UnresolvedTileIndex { x: _, y: _ } => {
                "tile index has no atlas entry".to_string()
            },
        }
    }
}

} // verus!
