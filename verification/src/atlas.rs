//! The resolved texture atlas a grid is packed against.

use vstd::prelude::*;

use crate::geom::Frac;
use crate::geom::UvRect;

verus! {

/// A sub-rectangle of the atlas texture, in whole pixels.
#[derive(Clone, Copy, Debug, PartialEq, Eq, Structural)]
pub struct PixelRect {
    pub min_x: u32,
    pub min_y: u32,
    pub max_x: u32,
    pub max_y: u32,
}

/// A resolved texture atlas: the pixel size of the atlas texture, one
/// pixel sub-rectangle per tile, and the handle of the shared texture.
///
/// The atlas is read-only to the packer; normalized UV rectangles are
/// derived by dividing each pixel rectangle by the atlas size.
#[derive(Clone, Debug)]
pub struct ResolvedAtlas {
    pub size_x: u32,
    pub size_y: u32,
    pub textures: Vec<PixelRect>,
    pub texture_handle: u64,
}

impl ResolvedAtlas {
    /// Well-formed: the texture has positive extent and every tile
    /// rectangle lies within it.
    pub open spec fn wf(self) -> bool {
        &&& self.size_x >= 1
        &&& self.size_y >= 1
        &&& forall|t: int|
            0 <= t < self.textures@.len() ==> {
                let r = #[trigger] self.textures@[t];
                &&& r.min_x <= r.max_x <= self.size_x
                &&& r.min_y <= r.max_y <= self.size_y
            }
    }

    /// The number of tiles the atlas resolves.
    pub open spec fn spec_tile_count(self) -> nat {
        self.textures@.len()
    }

    /// The number of tiles the atlas resolves.
    pub fn tile_count(&self) -> (r: usize)
        ensures
            r == self.spec_tile_count(),
    {
        self.textures.len()
    }

    /// The normalized UV rectangle of tile `t`: its pixel rectangle
    /// divided by the atlas size.
    pub open spec fn spec_uv_of(self, t: int) -> UvRect {
        UvRect {
            min_x: Frac { num: self.textures@[t].min_x as i64, den: self.size_x as i64 },
            min_y: Frac { num: self.textures@[t].min_y as i64, den: self.size_y as i64 },
            max_x: Frac { num: self.textures@[t].max_x as i64, den: self.size_x as i64 },
            max_y: Frac { num: self.textures@[t].max_y as i64, den: self.size_y as i64 },
        }
    }

    /// The normalized UV rectangle of tile `t`.
    pub fn uv_of(&self, t: usize) -> (r: UvRect)
        requires
            t < self.textures@.len(),
        ensures
            r == self.spec_uv_of(t as int),
    {
        let p = self.textures[t];
        UvRect {
            min_x: Frac { num: p.min_x as i64, den: self.size_x as i64 },
            min_y: Frac { num: p.min_y as i64, den: self.size_y as i64 },
            max_x: Frac { num: p.max_x as i64, den: self.size_x as i64 },
            max_y: Frac { num: p.max_y as i64, den: self.size_y as i64 },
        }
    }
}

} // verus!
