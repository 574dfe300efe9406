//! Placement geometry of a tile grid: tile size and anchor.

use vstd::prelude::*;

use crate::geom::Frac;

verus! {

/// Where a grid sits in the world: the size of one tile in world units and
/// the grid's anchor.
///
/// The anchor is a normalized point in `[0, 1]` squared, measured within
/// the grid's own bounding box: `(0, 0)` is the bottom-left corner,
/// `(1/2, 1/2)` the center, `(1, 1)` the top-right corner. The grid's
/// local origin is placed so that the anchor point of the bounding box
/// falls on it: a grid of output size `s` starts at `(anchor - 1) * s`.
///
/// Immutable once attached to a grid.
#[derive(Clone, Copy, Debug)]
pub struct TextureAtlasTilemapGeometry {
    pub tile_size_x: i64,
    pub tile_size_y: i64,
    pub anchor_x: Frac,
    pub anchor_y: Frac,
}

impl TextureAtlasTilemapGeometry {
    /// Well-formed: both tile extents are positive and the anchor is a
    /// normalized point.
    pub open spec fn wf(self) -> bool {
        &&& self.tile_size_x >= 1
        &&& self.tile_size_y >= 1
        &&& self.anchor_x.is_normalized()
        &&& self.anchor_y.is_normalized()
    }
}

impl core::default::Default for TextureAtlasTilemapGeometry {
    /// Sixteen-unit square tiles, anchored at the bottom-left corner.
    fn default() -> (r: TextureAtlasTilemapGeometry)
        ensures
            r.wf(),
            r.tile_size_x == 16 && r.tile_size_y == 16,
            r.anchor_x == (Frac { num: 0, den: 1 }),
            r.anchor_y == (Frac { num: 0, den: 1 }),
    {
        TextureAtlasTilemapGeometry {
            tile_size_x: 16,
            tile_size_y: 16,
            anchor_x: Frac { num: 0, den: 1 },
            anchor_y: Frac { num: 0, den: 1 },
        }
    }
}

} // verus!
