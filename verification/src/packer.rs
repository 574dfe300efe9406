//! The strip packer: partitions a tile grid into fixed-capacity strips
//! and resolves every tile's UV rectangle.
//!
//! For each row, the packer scans the columns left to right in chunks of
//! at most [`TILESTRIP_LEN`] tiles and emits one [`StripDescriptor`] per
//! chunk, in row-major then left-to-right order. A tile index with no
//! atlas entry aborts the whole grid: no descriptor is emitted, and the
//! offending coordinate is reported.

use vstd::arithmetic::div_mod::lemma_fundamental_div_mod;
use vstd::arithmetic::div_mod::lemma_fundamental_div_mod_converse;
use vstd::arithmetic::div_mod::lemma_mod_bound;
use vstd::prelude::*;

use crate::TILESTRIP_LEN;
use crate::atlas::ResolvedAtlas;
use crate::error::TilemapError;
use crate::geom::UvRect;
use crate::geom::WorldRect;
use crate::geometry::TextureAtlasTilemapGeometry;
use crate::grid::TextureAtlasTilemap;
use crate::uniform::TilestripMaterial;
use crate::uniform::TilestripUniform;

verus! {

/// One packed strip: a contiguous run of tiles from one grid row, ready
/// to be drawn as a single primitive.
///
/// Produced by [`pack_tilestrips`] and consumed once by a host renderer,
/// which turns the material and the placement rectangle into one draw
/// primitive and discards the descriptor.
#[derive(Clone, Debug)]
pub struct StripDescriptor {
    pub material: TilestripMaterial,
    pub world_rect: WorldRect,
}

/// The smaller of two integers.
pub open spec fn min_int(a: int, b: int) -> int {
    if a < b {
        a
    } else {
        b
    }
}

/// How many strips one row of `width` tiles needs: `width / capacity`,
/// rounded up.
pub open spec fn strips_per_row(width: int) -> int {
    (width + (TILESTRIP_LEN as int) - 1) / (TILESTRIP_LEN as int)
}

/// The tile count of the strip that starts at column `start_x`: the rest
/// of the row, capped at the strip capacity.
pub open spec fn spec_strip_len(width: int, start_x: int) -> int {
    min_int(width - start_x, TILESTRIP_LEN as int)
}

/// The first `n` tiles of the grid, in row-major order, all resolve in
/// the atlas.
pub open spec fn resolves_up_to(grid: TextureAtlasTilemap, atlas: ResolvedAtlas, n: int) -> bool {
    forall|j: int|
        0 <= j < n ==> (#[trigger] grid.atlas_indices@[j]) < atlas.spec_tile_count()
}

/// Every tile of the grid resolves in the atlas.
pub open spec fn all_tiles_resolve(grid: TextureAtlasTilemap, atlas: ResolvedAtlas) -> bool {
    resolves_up_to(grid, atlas, grid.atlas_indices@.len() as int)
}

/// The products formed by the placement math fit in a signed 64-bit
/// word — a machine limit on the exact arithmetic, not a property of the
/// packing itself.
pub open spec fn geometry_fits(grid: TextureAtlasTilemap, geom: TextureAtlasTilemapGeometry) -> bool {
    &&& geom.anchor_x.den * (grid.width * geom.tile_size_x) <= i64::MAX
    &&& geom.anchor_y.den * (grid.height * geom.tile_size_y) <= i64::MAX
}

/// `r` is the world placement rectangle of the strip of `len` tiles that
/// starts at column `start_x` of row `y`.
///
/// The grid's output size is `tile_size * (width, height)`; its origin
/// sits at `(anchor - 1) * output_size`, so that the anchor point of its
/// own bounding box falls on the local origin; a strip is offset from
/// that origin by `(start_x * tile_size_x, y * tile_size_y)` and spans
/// `(len * tile_size_x, tile_size_y)`.
pub open spec fn world_rect_ok(
    r: WorldRect,
    width: int,
    height: int,
    geom: TextureAtlasTilemapGeometry,
    y: int,
    start_x: int,
    len: int,
) -> bool {
    &&& r.origin_x.num == (geom.anchor_x.num - geom.anchor_x.den) * (width * geom.tile_size_x)
        + start_x * geom.tile_size_x * geom.anchor_x.den
    &&& r.origin_x.den == geom.anchor_x.den
    &&& r.origin_y.num == (geom.anchor_y.num - geom.anchor_y.den) * (height * geom.tile_size_y)
        + y * geom.tile_size_y * geom.anchor_y.den
    &&& r.origin_y.den == geom.anchor_y.den
    &&& r.size_x == len * geom.tile_size_x
    &&& r.size_y == geom.tile_size_y
}

/// `d` is exactly the descriptor of the strip that starts at column
/// `start_x` of row `y`: the live count, every packed UV rectangle, the
/// padding, the texture handle and the world rectangle.
pub open spec fn descriptor_ok(
    d: StripDescriptor,
    grid: TextureAtlasTilemap,
    geom: TextureAtlasTilemapGeometry,
    atlas: ResolvedAtlas,
    y: int,
    start_x: int,
) -> bool {
    let l = spec_strip_len(grid.width as int, start_x);
    &&& d.material.tilestrip_uniform.len == l
    &&& d.material.tilestrip_uniform.atlas_rects@.len() == TILESTRIP_LEN
    &&& forall|i: int|
        0 <= i < l ==> #[trigger] d.material.tilestrip_uniform.atlas_rects@[i]
            == atlas.spec_uv_of(grid.tile_at(start_x + i, y) as int)
    &&& forall|i: int|
        l <= i < TILESTRIP_LEN ==> #[trigger] d.material.tilestrip_uniform.atlas_rects@[i]
            == UvRect::spec_full()
    &&& d.material.texture_handle == atlas.texture_handle
    &&& world_rect_ok(d.world_rect, grid.width as int, grid.height as int, geom, y, start_x, l)
}

/// `descs` is the complete packing of the grid: one descriptor per chunk,
/// in row-major then left-to-right order — descriptor `k` covers the
/// chunk `k % strips_per_row` of row `k / strips_per_row`.
pub open spec fn packed_ok(
    descs: Seq<StripDescriptor>,
    grid: TextureAtlasTilemap,
    geom: TextureAtlasTilemapGeometry,
    atlas: ResolvedAtlas,
) -> bool {
    let spr = strips_per_row(grid.width as int);
    &&& descs.len() == grid.height * spr
    &&& forall|k: int|
        0 <= k < descs.len() ==> descriptor_ok(
            #[trigger] descs[k],
            grid,
            geom,
            atlas,
            k / spr,
            (k % spr) * (TILESTRIP_LEN as int),
        )
}

/// A row of `width >= 1` tiles needs at least one strip, and
/// `strips_per_row` is the least count whose strips cover the row.
pub proof fn lemma_strips_per_row_bounds(width: int)
    requires
        width >= 1,
    ensures
        strips_per_row(width) >= 1,
        (strips_per_row(width) - 1) * (TILESTRIP_LEN as int) < width,
        width <= strips_per_row(width) * (TILESTRIP_LEN as int),
{
    let c = TILESTRIP_LEN as int;
    let x = width + c - 1;
    lemma_fundamental_div_mod(x, c);
    lemma_mod_bound(x, c);
}

/// Computes `strips_per_row` without forming `width + capacity` (which
/// could exceed the machine word).
fn strips_per_row_exec(width: usize) -> (r: usize)
    requires
        width >= 1,
    ensures
        r == strips_per_row(width as int),
{
    let q = width / TILESTRIP_LEN;
    let rem = width % TILESTRIP_LEN;
    proof {
        let c = TILESTRIP_LEN as int;
        lemma_fundamental_div_mod(width as int, c);
        lemma_mod_bound(width as int, c);
        if rem == 0 {
            // width + c - 1 == c * q + (c - 1)
            lemma_fundamental_div_mod_converse(width as int + c - 1, c, q as int, c - 1);
        } else {
            // width + c - 1 == c * (q + 1) + (rem - 1)
            lemma_fundamental_div_mod_converse(width as int + c - 1, c, q as int + 1, rem as int - 1);
        }
    }
    if rem == 0 {
        q
    } else {
        q + 1
    }
}

/// Builds the world placement rectangle of one strip, with exact
/// fraction arithmetic.
fn strip_world_rect(
    width: usize,
    height: usize,
    geom: &TextureAtlasTilemapGeometry,
    y: usize,
    start_x: usize,
    strip_len: usize,
) -> (r: WorldRect)
    requires
        geom.wf(),
        1 <= width,
        1 <= height,
        y < height,
        start_x < width,
        1 <= strip_len <= width - start_x,
        geom.anchor_x.den * (width * geom.tile_size_x) <= i64::MAX,
        geom.anchor_y.den * (height * geom.tile_size_y) <= i64::MAX,
    ensures
        world_rect_ok(
            r,
            width as int,
            height as int,
            *geom,
            y as int,
            start_x as int,
            strip_len as int,
        ),
{
    let tx = geom.tile_size_x;
    let ty = geom.tile_size_y;
    let ax = geom.anchor_x;
    let ay = geom.anchor_y;
    proof {
        assert(width <= i64::MAX && width * tx <= i64::MAX) by (nonlinear_arith)
            requires
                width >= 1,
                tx >= 1,
                ax.den >= 1,
                ax.den * (width * tx) <= i64::MAX,
        ;
        assert(height <= i64::MAX && height * ty <= i64::MAX) by (nonlinear_arith)
            requires
                height >= 1,
                ty >= 1,
                ay.den >= 1,
                ay.den * (height * ty) <= i64::MAX,
        ;
    }
    let out_w: i64 = (width as i64) * tx;
    let out_h: i64 = (height as i64) * ty;
    proof {
        assert((ax.num - ax.den) * out_w >= -(ax.den * out_w) && (ax.num - ax.den) * out_w <= 0)
            by (nonlinear_arith)
            requires
                0 <= ax.num <= ax.den,
                out_w >= 0,
        ;
        assert(ax.den * out_w <= i64::MAX && ax.den * out_w == ax.den * (width * tx))
            by (nonlinear_arith)
            requires
                out_w == width * tx,
                ax.den * (width * tx) <= i64::MAX,
        ;
        assert((ay.num - ay.den) * out_h >= -(ay.den * out_h) && (ay.num - ay.den) * out_h <= 0)
            by (nonlinear_arith)
            requires
                0 <= ay.num <= ay.den,
                out_h >= 0,
        ;
        assert(ay.den * out_h <= i64::MAX && ay.den * out_h == ay.den * (height * ty))
            by (nonlinear_arith)
            requires
                out_h == height * ty,
                ay.den * (height * ty) <= i64::MAX,
        ;
    }
    let ox_a: i64 = (ax.num - ax.den) * out_w;
    let oy_a: i64 = (ay.num - ay.den) * out_h;
    proof {
        assert(0 <= start_x * tx * ax.den && start_x * tx * ax.den < ax.den * (width * tx))
            by (nonlinear_arith)
            requires
                0 <= start_x < width,
                tx >= 1,
                ax.den >= 1,
        ;
        assert(0 <= y * ty * ay.den && y * ty * ay.den < ay.den * (height * ty))
            by (nonlinear_arith)
            requires
                0 <= y < height,
                ty >= 1,
                ay.den >= 1,
        ;
        assert(start_x * tx <= start_x * tx * ax.den) by (nonlinear_arith)
            requires
                0 <= start_x,
                tx >= 1,
                ax.den >= 1,
        ;
        assert(y * ty <= y * ty * ay.den) by (nonlinear_arith)
            requires
                0 <= y,
                ty >= 1,
                ay.den >= 1,
        ;
    }
    let sx_t: i64 = (start_x as i64) * tx;
    let ox_b: i64 = sx_t * ax.den;
    let y_t: i64 = (y as i64) * ty;
    let oy_b: i64 = y_t * ay.den;
    let ox_num: i64 = ox_a + ox_b;
    let oy_num: i64 = oy_a + oy_b;
    proof {
        assert(strip_len * tx <= width * tx) by (nonlinear_arith)
            requires
                strip_len <= width,
                tx >= 1,
        ;
        assert(strip_len * tx >= 0) by (nonlinear_arith)
            requires
                strip_len >= 0,
                tx >= 0,
        ;
    }
    let size_x: i64 = (strip_len as i64) * tx;
    WorldRect {
        origin_x: crate::geom::Frac { num: ox_num, den: ax.den },
        origin_y: crate::geom::Frac { num: oy_num, den: ay.den },
        size_x,
        size_y: ty,
    }
}

/// Packs one strip: resolves the UV rectangle of every tile of the chunk
/// that starts at `(start_x, y)`, pads the array to capacity, and builds
/// the descriptor. Fails fast on the first tile whose index has no atlas
/// entry, reporting that tile's coordinate.
fn pack_strip(
    grid: &TextureAtlasTilemap,
    geom: &TextureAtlasTilemapGeometry,
    atlas: &ResolvedAtlas,
    y: usize,
    start_x: usize,
) -> (r: Result<StripDescriptor, TilemapError>)
    requires
        grid.wf(),
        geom.wf(),
        atlas.wf(),
        geometry_fits(*grid, *geom),
        y < grid.height,
        start_x < grid.width,
    ensures
        match r {
            Ok(d) => {
                &&& descriptor_ok(d, *grid, *geom, *atlas, y as int, start_x as int)
                &&& forall|j: int|
                    y * grid.width + start_x <= j < y * grid.width + start_x + spec_strip_len(
                        grid.width as int,
                        start_x as int,
                    ) ==> (#[trigger] grid.atlas_indices@[j]) < atlas.spec_tile_count()
            },
            Err(e) => match e {
                TilemapError::UnresolvedTileIndex { x: bx, y: by } => {
                    &&& by == y
                    &&& start_x <= bx
                    &&& bx < start_x + spec_strip_len(grid.width as int, start_x as int)
                    &&& grid.atlas_indices@[y * grid.width + bx] >= atlas.spec_tile_count()
                    &&& forall|j: int|
                        y * grid.width + start_x <= j < y * grid.width + bx
                            ==> (#[trigger] grid.atlas_indices@[j]) < atlas.spec_tile_count()
                },
                _ => false,
            },
        },
{
    let width = grid.width;
    let remaining = width - start_x;
    let strip_len = if remaining < TILESTRIP_LEN {
        remaining
    } else {
        TILESTRIP_LEN
    };
    let base = grid.index(start_x, y);
    proof {
        vstd::std_specs::vec::axiom_spec_len(&grid.atlas_indices);
        assert(base + strip_len <= grid.atlas_indices@.len()) by (nonlinear_arith)
            requires
                base == y * grid.width + start_x,
                strip_len <= grid.width - start_x,
                y < grid.height,
                grid.atlas_indices@.len() == grid.width * grid.height,
        ;
    }
    let mut rects: Vec<UvRect> = Vec::new();
    let mut i: usize = 0;
    while i < strip_len
        invariant
            grid.wf(),
            atlas.wf(),
            y < grid.height,
            start_x < grid.width,
            strip_len == spec_strip_len(grid.width as int, start_x as int),
            base == y * grid.width + start_x,
            base + strip_len <= grid.atlas_indices@.len(),
            grid.atlas_indices@.len() <= usize::MAX,
            i <= strip_len,
            rects@.len() == i,
            forall|j: int|
                0 <= j < i ==> #[trigger] rects@[j] == atlas.spec_uv_of(
                    grid.atlas_indices@[base + j] as int,
                ),
            forall|j: int|
                base <= j < base + i ==> (#[trigger] grid.atlas_indices@[j])
                    < atlas.spec_tile_count(),
        decreases strip_len - i,
    {
        let t = grid.atlas_indices[base + i];
        if t >= atlas.tile_count() {
            return Err(TilemapError::UnresolvedTileIndex { x: start_x + i, y });
        }
        rects.push(atlas.uv_of(t));
        i += 1;
    }
    while rects.len() < TILESTRIP_LEN
        invariant
            atlas.wf(),
            strip_len <= TILESTRIP_LEN,
            strip_len <= rects@.len() <= TILESTRIP_LEN,
            forall|j: int|
                0 <= j < strip_len ==> #[trigger] rects@[j] == atlas.spec_uv_of(
                    grid.atlas_indices@[base + j] as int,
                ),
            forall|j: int|
                strip_len <= j < rects@.len() ==> #[trigger] rects@[j] == UvRect::spec_full(),
        decreases TILESTRIP_LEN - rects@.len(),
    {
        rects.push(UvRect::full());
    }
    let world_rect = strip_world_rect(width, grid.height, geom, y, start_x, strip_len);
    let uniform = TilestripUniform { len: strip_len, atlas_rects: rects };
    let material = TilestripMaterial {
        texture_handle: atlas.texture_handle,
        tilestrip_uniform: uniform,
    };
    Ok(StripDescriptor { material, world_rect })
}

/// Packs the whole grid: one descriptor per chunk of at most
/// [`TILESTRIP_LEN`] tiles, in row-major then left-to-right order.
///
/// Succeeds if and only if every tile of the grid resolves in the atlas,
/// and then returns exactly `height * strips_per_row(width)` descriptors,
/// each pinned by [`packed_ok`]. Otherwise no descriptor is emitted: the
/// error carries the coordinate of the first unresolved tile in row-major
/// order.
pub fn pack_tilestrips(
    grid: &TextureAtlasTilemap,
    geom: &TextureAtlasTilemapGeometry,
    atlas: &ResolvedAtlas,
) -> (r: Result<Vec<StripDescriptor>, TilemapError>)
    requires
        grid.wf(),
        geom.wf(),
        atlas.wf(),
        geometry_fits(*grid, *geom),
    ensures
        match r {
            Ok(descs) => {
                &&& all_tiles_resolve(*grid, *atlas)
                &&& packed_ok(descs@, *grid, *geom, *atlas)
                &&& descs@.len() == grid.height * strips_per_row(grid.width as int)
            },
            Err(e) => {
                &&& !all_tiles_resolve(*grid, *atlas)
                &&& match e {
                    TilemapError::UnresolvedTileIndex { x: bx, y: by } => {
                        &&& bx < grid.width
                        &&& by < grid.height
                        &&& grid.tile_at(bx as int, by as int) >= atlas.spec_tile_count()
                        &&& resolves_up_to(*grid, *atlas, by * grid.width + bx)
                    },
                    _ => false,
                }
            },
        },
{
    let width = grid.width;
    let height = grid.height;
    let spr = strips_per_row_exec(width);
    proof {
        lemma_strips_per_row_bounds(width as int);
        assert(width <= i64::MAX) by (nonlinear_arith)
            requires
                width >= 1,
                geom.tile_size_x >= 1,
                geom.anchor_x.den >= 1,
                geom.anchor_x.den * (width * geom.tile_size_x) <= i64::MAX,
        ;
    }
    let mut descs: Vec<StripDescriptor> = Vec::new();
    let mut y: usize = 0;
    while y < height
        invariant
            grid.wf(),
            geom.wf(),
            atlas.wf(),
            geometry_fits(*grid, *geom),
            width == grid.width,
            height == grid.height,
            width <= i64::MAX,
            spr == strips_per_row(width as int),
            1 <= spr,
            (spr - 1) * (TILESTRIP_LEN as int) < width <= spr * (TILESTRIP_LEN as int),
            y <= height,
            descs@.len() == y * spr,
            resolves_up_to(*grid, *atlas, y * width),
            forall|k: int|
                0 <= k < descs@.len() ==> descriptor_ok(
                    #[trigger] descs@[k],
                    *grid,
                    *geom,
                    *atlas,
                    k / (spr as int),
                    (k % (spr as int)) * (TILESTRIP_LEN as int),
                ),
        decreases height - y,
    {
        let mut start_x: usize = 0;
        let mut chunk: usize = 0;
        while start_x < width
            invariant
                grid.wf(),
                geom.wf(),
                atlas.wf(),
                geometry_fits(*grid, *geom),
                width == grid.width,
                height == grid.height,
                width <= i64::MAX,
                spr == strips_per_row(width as int),
                1 <= spr,
                (spr - 1) * (TILESTRIP_LEN as int) < width <= spr * (TILESTRIP_LEN as int),
                y < height,
                start_x == min_int(chunk * (TILESTRIP_LEN as int), width as int),
                start_x <= width,
                chunk <= spr,
                descs@.len() == y * spr + chunk,
                resolves_up_to(*grid, *atlas, y * width + start_x),
                forall|k: int|
                    0 <= k < descs@.len() ==> descriptor_ok(
                        #[trigger] descs@[k],
                        *grid,
                        *geom,
                        *atlas,
                        k / (spr as int),
                        (k % (spr as int)) * (TILESTRIP_LEN as int),
                    ),
            decreases width - start_x,
        {
            let d = match pack_strip(grid, geom, atlas, y, start_x) {
                Ok(d) => d,
                Err(e) => {
                    proof {
                        match e {
                            TilemapError::UnresolvedTileIndex { x: bx, y: by } => {
                                let f = y * width + bx;
                                assert(resolves_up_to(*grid, *atlas, f));
                                assert(f < grid.atlas_indices@.len()) by (nonlinear_arith)
                                    requires
                                        f == y * width + bx,
                                        bx < width,
                                        y < height,
                                        grid.atlas_indices@.len() == width * height,
                                ;
                                assert(!all_tiles_resolve(*grid, *atlas));
                            },
                            _ => {
                                assert(false);
                            },
                        }
                    }
                    return Err(e);
                },
            };
            descs.push(d);
            proof {
                // The new descriptor landed at position y * spr + chunk;
                // that position decomposes back into this row and chunk.
                assert(start_x == chunk * (TILESTRIP_LEN as int));
                assert(chunk < spr);
                let p = y * (spr as int) + chunk;
                lemma_fundamental_div_mod_converse(p, spr as int, y as int, chunk as int);
                assert(descs@[p] == d);
                assert(descriptor_ok(
                    descs@[p],
                    *grid,
                    *geom,
                    *atlas,
                    p / (spr as int),
                    (p % (spr as int)) * (TILESTRIP_LEN as int),
                ));
            }
            start_x = if width - start_x <= TILESTRIP_LEN {
                width
            } else {
                start_x + TILESTRIP_LEN
            };
            chunk = chunk + 1;
            proof {
                assert(start_x == min_int(chunk * (TILESTRIP_LEN as int), width as int));
                assert(resolves_up_to(*grid, *atlas, y * width + start_x));
            }
        }
        proof {
            // The row is complete: the last chunk reached the row's end,
            // so exactly `spr` descriptors were appended for this row.
            assert(chunk == spr);
            assert((y + 1) * (spr as int) == y * (spr as int) + spr) by (nonlinear_arith);
            assert((y + 1) * (width as int) == y * (width as int) + width) by (nonlinear_arith);
        }
        y = y + 1;
    }
    proof {
        assert(y == height);
        assert((width as int) * (height as int) == (height as int) * (width as int))
            by (nonlinear_arith);
    }
    Ok(descs)
}

} // verus!
