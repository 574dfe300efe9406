//! The shader-visible payload of one strip: the packed UV array and the
//! material that carries it.

use vstd::prelude::*;

use crate::TILESTRIP_LEN;
use crate::geom::UvRect;

verus! {

/// The uniform payload of one strip: the live tile count and the packed
/// array of per-tile UV rectangles.
///
/// The array always holds exactly [`TILESTRIP_LEN`] entries; only the
/// first `len` are meaningful, and every later slot holds the neutral
/// full-texture rectangle, so unused slots are well-defined, never
/// garbage. A host shader slices the strip's quad into `len` equal
/// horizontal cells and samples cell `i` through `atlas_rects[i]`.
#[derive(Clone, Debug)]
pub struct TilestripUniform {
    pub len: usize,
    pub atlas_rects: Vec<UvRect>,
}

impl TilestripUniform {
    /// Well-formed: the array is at full capacity and the live count does
    /// not exceed it.
    pub open spec fn wf(self) -> bool {
        &&& self.atlas_rects@.len() == TILESTRIP_LEN
        &&& self.len <= TILESTRIP_LEN
    }

    /// A payload for `len` tiles with every slot still holding the
    /// neutral full-texture rectangle.
    pub fn new(len: usize) -> (r: TilestripUniform)
        requires
            len <= TILESTRIP_LEN,
        ensures
            r.wf(),
            r.len == len,
            forall|i: int| 0 <= i < TILESTRIP_LEN ==> r.atlas_rects@[i] == UvRect::spec_full(),
    {
        let mut atlas_rects: Vec<UvRect> = Vec::new();
        while atlas_rects.len() < TILESTRIP_LEN
            invariant
                atlas_rects@.len() <= TILESTRIP_LEN,
                forall|i: int|
                    0 <= i < atlas_rects@.len() ==> atlas_rects@[i] == UvRect::spec_full(),
            decreases TILESTRIP_LEN - atlas_rects@.len(),
        {
            atlas_rects.push(UvRect::full());
        }
        TilestripUniform { len, atlas_rects }
    }
}

/// The material of one strip: the shared atlas texture handle and the
/// strip's uniform payload.
#[derive(Clone, Debug)]
pub struct TilestripMaterial {
    pub texture_handle: u64,
    pub tilestrip_uniform: TilestripUniform,
}

} // verus!
