//! The tile grid: a dense 2D array of atlas-tile indices.

use vstd::prelude::*;

use crate::error::TilemapError;

verus! {

/// A dense 2D grid of atlas-tile indices, stored row-major:
/// the tile at `(x, y)` sits at flat offset `y * width + x`.
///
/// A grid is built once with fixed dimensions and is read-only while it is
/// packed; there is no resize operation, a size change requires a new grid.
#[derive(Clone, Debug)]
pub struct TextureAtlasTilemap {
    pub width: usize,
    pub height: usize,
    pub atlas_indices: Vec<usize>,
}

impl TextureAtlasTilemap {
    /// Well-formed: both dimensions are positive and the flat storage holds
    /// exactly `width * height` entries.
    pub open spec fn wf(self) -> bool {
        &&& self.width >= 1
        &&& self.height >= 1
        &&& self.atlas_indices@.len() == self.width * self.height
    }

    /// The flat row-major offset of the coordinate `(x, y)`.
    pub open spec fn flat_index(self, x: int, y: int) -> int {
        y * self.width + x
    }

    /// The atlas-tile index stored at the coordinate `(x, y)`.
    pub open spec fn tile_at(self, x: int, y: int) -> usize {
        self.atlas_indices@[y * self.width + x]
    }

    /// Builds a `width` by `height` grid with every tile set to
    /// `initial_tile`. Rejects zero dimensions with
    /// [`TilemapError::InvalidDimension`].
    pub fn new(width: usize, height: usize, initial_tile: usize) -> (r: Result<
        TextureAtlasTilemap,
        TilemapError,
    >)
        requires
            width * height <= usize::MAX,
        ensures
            match r {
                Ok(g) => {
                    &&& width >= 1 && height >= 1
                    &&& g.wf()
                    &&& g.width == width && g.height == height
                    &&& forall|j: int|
                        0 <= j < g.atlas_indices@.len() ==> g.atlas_indices@[j] == initial_tile
                },
                Err(e) => {
                    &&& e == TilemapError::InvalidDimension
                    &&& width == 0 || height == 0
                },
            },
    {
        if width == 0 || height == 0 {
            return Err(TilemapError::InvalidDimension);
        }
        let total = width * height;
        let mut atlas_indices: Vec<usize> = Vec::new();
        while atlas_indices.len() < total
            invariant
                atlas_indices@.len() <= total,
                forall|j: int|
                    0 <= j < atlas_indices@.len() ==> atlas_indices@[j] == initial_tile,
            decreases total - atlas_indices@.len(),
        {
            atlas_indices.push(initial_tile);
        }
        Ok(TextureAtlasTilemap { width, height, atlas_indices })
    }

    /// The flat row-major offset of `(x, y)`; the inverse of splitting a
    /// flat offset into a row and a column.
    pub fn index(&self, x: usize, y: usize) -> (r: usize)
        requires
            self.wf(),
            x < self.width,
            y < self.height,
        ensures
            r == self.flat_index(x as int, y as int),
            r < self.atlas_indices@.len(),
    {
        proof {
            vstd::std_specs::vec::axiom_spec_len(&self.atlas_indices);
            assert(y * self.width + x < self.width * self.height) by (nonlinear_arith)
                requires
                    x < self.width,
                    y < self.height,
            ;
        }
        y * self.width + x
    }

    /// Reads the tile at `(x, y)`. Rejects a coordinate beyond the grid
    /// extent with [`TilemapError::OutOfBounds`]; nothing is ever clamped.
    pub fn get(&self, x: usize, y: usize) -> (r: Result<usize, TilemapError>)
        requires
            self.wf(),
        ensures
            match r {
                Ok(t) => {
                    &&& x < self.width && y < self.height
                    &&& t == self.tile_at(x as int, y as int)
                },
                Err(e) => {
                    &&& e == TilemapError::OutOfBounds
                    &&& x >= self.width || y >= self.height
                },
            },
    {
        if x >= self.width || y >= self.height {
            return Err(TilemapError::OutOfBounds);
        }
        let i = self.index(x, y);
        Ok(self.atlas_indices[i])
    }

    /// Writes the tile at `(x, y)`. Rejects a coordinate beyond the grid
    /// extent with [`TilemapError::OutOfBounds`], leaving the grid
    /// unchanged.
    pub fn set(&mut self, x: usize, y: usize, tile: usize) -> (r: Result<(), TilemapError>)
        requires
            old(self).wf(),
        ensures
            final(self).wf(),
            final(self).width == old(self).width,
            final(self).height == old(self).height,
            match r {
                Ok(()) => {
                    &&& x < old(self).width && y < old(self).height
                    &&& final(self).atlas_indices@ == old(self).atlas_indices@.update(
                        old(self).flat_index(x as int, y as int),
                        tile,
                    )
                },
                Err(e) => {
                    &&& e == TilemapError::OutOfBounds
                    &&& x >= old(self).width || y >= old(self).height
                    &&& *final(self) == *old(self)
                },
            },
    {
        if x >= self.width || y >= self.height {
            return Err(TilemapError::OutOfBounds);
        }
        let i = self.index(x, y);
        self.atlas_indices[i] = tile;
        Ok(())
    }
}

impl core::default::Default for TextureAtlasTilemap {
    /// The one-by-one grid holding the single tile index `0`.
    fn default() -> (r: TextureAtlasTilemap)
        ensures
            r.wf(),
            r.width == 1,
            r.height == 1,
            r.atlas_indices@ =~= seq![0usize],
    {
        let mut atlas_indices: Vec<usize> = Vec::new();
        atlas_indices.push(0);
        TextureAtlasTilemap { width: 1, height: 1, atlas_indices }
    }
}

} // verus!
