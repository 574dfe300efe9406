//! Laws of the packing: properties that relate whole packings to the
//! grid they came from, proved once and for all.

use vstd::arithmetic::div_mod::lemma_fundamental_div_mod;
use vstd::arithmetic::div_mod::lemma_fundamental_div_mod_converse;
use vstd::arithmetic::div_mod::lemma_mod_bound;
use vstd::prelude::*;

use crate::TILESTRIP_LEN;
use crate::atlas::ResolvedAtlas;
use crate::geom::UvRect;
use crate::geom::WorldRect;
use crate::geometry::TextureAtlasTilemapGeometry;
use crate::grid::TextureAtlasTilemap;
use crate::packer::StripDescriptor;
use crate::packer::descriptor_ok;
use crate::packer::lemma_strips_per_row_bounds;
use crate::packer::min_int;
use crate::packer::packed_ok;
use crate::packer::strips_per_row;

verus! {

/// The sum of the tile counts of the first `c` strips of row `y`.
pub open spec fn row_length_sum(descs: Seq<StripDescriptor>, y: int, spr: int, c: int) -> int
    decreases c,
{
    if c <= 0 {
        0
    } else {
        row_length_sum(descs, y, spr, c - 1) + descs[y * spr + (c - 1)].material.tilestrip_uniform.len
    }
}

/// The first `c` strips of a row cover exactly the lesser of `c`
/// capacities and the whole row.
proof fn lemma_row_sum_partial(
    descs: Seq<StripDescriptor>,
    grid: TextureAtlasTilemap,
    geom: TextureAtlasTilemapGeometry,
    atlas: ResolvedAtlas,
    y: int,
    c: int,
)
    requires
        grid.wf(),
        packed_ok(descs, grid, geom, atlas),
        0 <= y < grid.height,
        0 <= c <= strips_per_row(grid.width as int),
    ensures
        row_length_sum(descs, y, strips_per_row(grid.width as int), c) == min_int(
            c * (TILESTRIP_LEN as int),
            grid.width as int,
        ),
    decreases c,
{
    let width = grid.width as int;
    let spr = strips_per_row(width);
    lemma_strips_per_row_bounds(width);
    if c > 0 {
        lemma_row_sum_partial(descs, grid, geom, atlas, y, c - 1);
        let k = y * spr + (c - 1);
        assert(0 <= k && k < grid.height * spr) by (nonlinear_arith)
            requires
                k == y * spr + (c - 1),
                0 <= y < grid.height,
                0 <= c - 1 < spr,
                spr >= 1,
        ;
        assert(descriptor_ok(
            descs[k],
            grid,
            geom,
            atlas,
            k / spr,
            (k % spr) * (TILESTRIP_LEN as int),
        ));
        lemma_fundamental_div_mod_converse(k, spr, y, c - 1);
    }
}

/// Sum of the tile counts across all descriptors of one row equals the
/// grid width: each row is covered completely, nothing dropped, nothing
/// counted twice.
pub proof fn lemma_row_length_sum(
    descs: Seq<StripDescriptor>,
    grid: TextureAtlasTilemap,
    geom: TextureAtlasTilemapGeometry,
    atlas: ResolvedAtlas,
    y: int,
)
    requires
        grid.wf(),
        packed_ok(descs, grid, geom, atlas),
        0 <= y < grid.height,
    ensures
        row_length_sum(
            descs,
            y,
            strips_per_row(grid.width as int),
            strips_per_row(grid.width as int),
        ) == grid.width,
{
    lemma_strips_per_row_bounds(grid.width as int);
    lemma_row_sum_partial(descs, grid, geom, atlas, y, strips_per_row(grid.width as int));
}

/// Everything one descriptor exposes, as one mathematical value.
pub open spec fn strip_model(d: StripDescriptor) -> (int, Seq<UvRect>, WorldRect, u64) {
    (
        d.material.tilestrip_uniform.len as int,
        d.material.tilestrip_uniform.atlas_rects@,
        d.world_rect,
        d.material.texture_handle,
    )
}

/// Packing is deterministic and its order is fixed: any two complete
/// packings of the same grid, geometry and atlas have the same number of
/// descriptors and agree on every descriptor, position by position.
pub proof fn lemma_pack_deterministic(
    d1: Seq<StripDescriptor>,
    d2: Seq<StripDescriptor>,
    grid: TextureAtlasTilemap,
    geom: TextureAtlasTilemapGeometry,
    atlas: ResolvedAtlas,
)
    requires
        grid.wf(),
        packed_ok(d1, grid, geom, atlas),
        packed_ok(d2, grid, geom, atlas),
    ensures
        d1.len() == d2.len(),
        forall|k: int| 0 <= k < d1.len() ==> strip_model(#[trigger] d1[k]) == strip_model(d2[k]),
{
    let c = TILESTRIP_LEN as int;
    let spr = strips_per_row(grid.width as int);
    assert forall|k: int| 0 <= k < d1.len() implies strip_model(d1[k]) == strip_model(d2[k]) by {
        assert(descriptor_ok(d1[k], grid, geom, atlas, k / spr, (k % spr) * c));
        assert(descriptor_ok(d2[k], grid, geom, atlas, k / spr, (k % spr) * c));
        let r1 = d1[k].material.tilestrip_uniform.atlas_rects@;
        let r2 = d2[k].material.tilestrip_uniform.atlas_rects@;
        let l = crate::packer::spec_strip_len(grid.width as int, (k % spr) * c);
        assert forall|i: int| 0 <= i < c implies r1[i] == r2[i] by {
            if i < l {
                assert(r1[i] == r2[i]);
            } else {
                assert(r1[i] == UvRect::spec_full());
                assert(r2[i] == UvRect::spec_full());
            }
        }
        assert(r1 =~= r2);
        assert(d1[k].world_rect =~= d2[k].world_rect);
    }
}

/// Round trip: for any tile coordinate, the UV rectangle stored in the
/// descriptor covering that coordinate — strip `x / capacity` of row
/// `y`, slot `x % capacity` — is exactly the atlas's UV rectangle for
/// the tile index stored there.
pub proof fn lemma_uv_round_trip(
    descs: Seq<StripDescriptor>,
    grid: TextureAtlasTilemap,
    geom: TextureAtlasTilemapGeometry,
    atlas: ResolvedAtlas,
    x: int,
    y: int,
)
    requires
        grid.wf(),
        packed_ok(descs, grid, geom, atlas),
        0 <= x < grid.width,
        0 <= y < grid.height,
    ensures
        ({
            let c = TILESTRIP_LEN as int;
            let k = y * strips_per_row(grid.width as int) + x / c;
            descs[k].material.tilestrip_uniform.atlas_rects@[x % c] == atlas.spec_uv_of(
                grid.tile_at(x, y) as int,
            )
        }),
{
    let c = TILESTRIP_LEN as int;
    let width = grid.width as int;
    let spr = strips_per_row(width);
    lemma_strips_per_row_bounds(width);
    lemma_fundamental_div_mod(x, c);
    lemma_mod_bound(x, c);
    let chunk = x / c;
    let i = x % c;
    assert(0 <= chunk && chunk < spr);
    let k = y * spr + chunk;
    assert(0 <= k && k < grid.height * spr) by (nonlinear_arith)
        requires
            k == y * spr + chunk,
            0 <= y < grid.height,
            0 <= chunk < spr,
            spr >= 1,
    ;
    assert(descriptor_ok(descs[k], grid, geom, atlas, k / spr, (k % spr) * c));
    lemma_fundamental_div_mod_converse(k, spr, y, chunk);
}

/// A grid exactly at capacity packs as one full strip per row.
pub proof fn lemma_width_at_capacity(
    descs: Seq<StripDescriptor>,
    grid: TextureAtlasTilemap,
    geom: TextureAtlasTilemapGeometry,
    atlas: ResolvedAtlas,
)
    requires
        grid.wf(),
        packed_ok(descs, grid, geom, atlas),
        grid.width == TILESTRIP_LEN,
    ensures
        descs.len() == grid.height,
        forall|k: int|
            0 <= k < descs.len() ==> (#[trigger] descs[k]).material.tilestrip_uniform.len
                == TILESTRIP_LEN,
{
    let c = TILESTRIP_LEN as int;
    let spr = strips_per_row(grid.width as int);
    assert(spr == 1);
    assert forall|k: int|
        0 <= k < descs.len() implies (#[trigger] descs[k]).material.tilestrip_uniform.len
        == TILESTRIP_LEN by {
        assert(descriptor_ok(descs[k], grid, geom, atlas, k / spr, (k % spr) * c));
        lemma_fundamental_div_mod(k, 1);
        lemma_mod_bound(k, 1);
    }
}

/// A grid one past capacity packs every row as a full strip followed by
/// a single-tile strip.
pub proof fn lemma_width_capacity_plus_one(
    descs: Seq<StripDescriptor>,
    grid: TextureAtlasTilemap,
    geom: TextureAtlasTilemapGeometry,
    atlas: ResolvedAtlas,
)
    requires
        grid.wf(),
        packed_ok(descs, grid, geom, atlas),
        grid.width == TILESTRIP_LEN + 1,
    ensures
        descs.len() == 2 * grid.height,
        forall|k: int|
            0 <= k < descs.len() && k % 2 == 0 ==> (
            #[trigger] descs[k]).material.tilestrip_uniform.len == TILESTRIP_LEN,
        forall|k: int|
            0 <= k < descs.len() && k % 2 == 1 ==> (
            #[trigger] descs[k]).material.tilestrip_uniform.len == 1,
{
    let c = TILESTRIP_LEN as int;
    let spr = strips_per_row(grid.width as int);
    assert(spr == 2);
    assert(descs.len() == grid.height * 2);
    assert forall|k: int| 0 <= k < descs.len() implies ((k % 2 == 0 ==> (
    #[trigger] descs[k]).material.tilestrip_uniform.len == TILESTRIP_LEN) && (k % 2 == 1
        ==> descs[k].material.tilestrip_uniform.len == 1)) by {
        assert(descriptor_ok(descs[k], grid, geom, atlas, k / spr, (k % spr) * c));
        lemma_mod_bound(k, 2);
    }
}

} // verus!

