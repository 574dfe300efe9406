use texture_atlas_tilemap::pack_tilestrips;
use texture_atlas_tilemap::Frac;
use texture_atlas_tilemap::PixelRect;
use texture_atlas_tilemap::ResolvedAtlas;
use texture_atlas_tilemap::StripDescriptor;
use texture_atlas_tilemap::TextureAtlasTilemap;
use texture_atlas_tilemap::TextureAtlasTilemapGeometry;
use texture_atlas_tilemap::TilemapError;
use texture_atlas_tilemap::UvRect;
use texture_atlas_tilemap::TILESTRIP_LEN;

/// An atlas of two tiles, each covering one horizontal half of a 2 by 1
/// pixel texture.
fn atlas_two_half_tiles() -> ResolvedAtlas {
    ResolvedAtlas {
        size_x: 2,
        size_y: 1,
        textures: vec![
            PixelRect { min_x: 0, min_y: 0, max_x: 1, max_y: 1 },
            PixelRect { min_x: 1, min_y: 0, max_x: 2, max_y: 1 },
        ],
        texture_handle: 42,
    }
}

/// An atlas of one tile covering a whole 4 by 4 pixel texture.
fn atlas_single_tile() -> ResolvedAtlas {
    ResolvedAtlas {
        size_x: 4,
        size_y: 4,
        textures: vec![PixelRect { min_x: 0, min_y: 0, max_x: 4, max_y: 4 }],
        texture_handle: 7,
    }
}

fn centered_geometry(tile: i64) -> TextureAtlasTilemapGeometry {
    TextureAtlasTilemapGeometry {
        tile_size_x: tile,
        tile_size_y: tile,
        anchor_x: Frac { num: 1, den: 2 },
        anchor_y: Frac { num: 1, den: 2 },
    }
}

fn strip_lengths(descs: &[StripDescriptor]) -> Vec<usize> {
    descs.iter().map(|d| d.material.tilestrip_uniform.len).collect()
}

#[test]
fn descriptor_count_is_rows_times_chunks() {
    let atlas = atlas_single_tile();
    let geom = TextureAtlasTilemapGeometry::default();
    let grid = TextureAtlasTilemap::new(3, 2, 0).unwrap();
    let descs = pack_tilestrips(&grid, &geom, &atlas).unwrap();
    assert_eq!(descs.len(), 2);

    let wide = TextureAtlasTilemap::new(2500, 1, 0).unwrap();
    let descs = pack_tilestrips(&wide, &geom, &atlas).unwrap();
    assert_eq!(descs.len(), 3);
    assert_eq!(strip_lengths(&descs), vec![1000, 1000, 500]);
}

#[test]
fn row_lengths_sum_to_width() {
    let atlas = atlas_single_tile();
    let geom = TextureAtlasTilemapGeometry::default();
    let grid = TextureAtlasTilemap::new(2500, 2, 0).unwrap();
    let descs = pack_tilestrips(&grid, &geom, &atlas).unwrap();
    assert_eq!(descs.len(), 6);
    let lens = strip_lengths(&descs);
    assert_eq!(lens[0] + lens[1] + lens[2], 2500);
    assert_eq!(lens[3] + lens[4] + lens[5], 2500);
}

#[test]
fn width_at_capacity_is_one_full_strip_per_row() {
    let atlas = atlas_single_tile();
    let geom = TextureAtlasTilemapGeometry::default();
    let grid = TextureAtlasTilemap::new(TILESTRIP_LEN, 2, 0).unwrap();
    let descs = pack_tilestrips(&grid, &geom, &atlas).unwrap();
    assert_eq!(strip_lengths(&descs), vec![TILESTRIP_LEN, TILESTRIP_LEN]);
}

#[test]
fn width_one_past_capacity_adds_a_single_tile_strip() {
    let atlas = atlas_single_tile();
    let geom = TextureAtlasTilemapGeometry::default();
    let grid = TextureAtlasTilemap::new(TILESTRIP_LEN + 1, 2, 0).unwrap();
    let descs = pack_tilestrips(&grid, &geom, &atlas).unwrap();
    assert_eq!(
        strip_lengths(&descs),
        vec![TILESTRIP_LEN, 1, TILESTRIP_LEN, 1]
    );
}

#[test]
fn single_row_grid_one_past_capacity() {
    let atlas = atlas_single_tile();
    let geom = TextureAtlasTilemapGeometry::default();
    let grid = TextureAtlasTilemap::new(1001, 1, 0).unwrap();
    let descs = pack_tilestrips(&grid, &geom, &atlas).unwrap();
    assert_eq!(strip_lengths(&descs), vec![1000, 1]);
}

#[test]
fn two_by_two_grid_packs_per_row_uv_rects() {
    let atlas = atlas_two_half_tiles();
    let geom = TextureAtlasTilemapGeometry::default();
    let mut grid = TextureAtlasTilemap::new(2, 2, 0).unwrap();
    grid.set(1, 0, 1).unwrap();
    grid.set(0, 1, 1).unwrap();
    let descs = pack_tilestrips(&grid, &geom, &atlas).unwrap();
    assert_eq!(descs.len(), 2);
    assert_eq!(strip_lengths(&descs), vec![2, 2]);

    let uv_left = UvRect {
        min_x: Frac { num: 0, den: 2 },
        min_y: Frac { num: 0, den: 1 },
        max_x: Frac { num: 1, den: 2 },
        max_y: Frac { num: 1, den: 1 },
    };
    let uv_right = UvRect {
        min_x: Frac { num: 1, den: 2 },
        min_y: Frac { num: 0, den: 1 },
        max_x: Frac { num: 2, den: 2 },
        max_y: Frac { num: 1, den: 1 },
    };
    let row0 = &descs[0].material.tilestrip_uniform.atlas_rects;
    let row1 = &descs[1].material.tilestrip_uniform.atlas_rects;
    assert_eq!(row0[0], uv_left);
    assert_eq!(row0[1], uv_right);
    assert_eq!(row1[0], uv_right);
    assert_eq!(row1[1], uv_left);
    // Unused slots hold the neutral full-texture rectangle.
    assert_eq!(row0[2], UvRect::full());
    assert_eq!(row0[TILESTRIP_LEN - 1], UvRect::full());
    // Both strips carry the shared texture handle.
    assert_eq!(descs[0].material.texture_handle, 42);
    assert_eq!(descs[1].material.texture_handle, 42);
}

#[test]
fn unresolved_tile_reports_first_bad_coordinate() {
    let atlas = atlas_two_half_tiles();
    let geom = TextureAtlasTilemapGeometry::default();
    let mut grid = TextureAtlasTilemap::new(2, 2, 0).unwrap();
    grid.set(1, 0, 5).unwrap();
    grid.set(0, 1, 9).unwrap();
    let r = pack_tilestrips(&grid, &geom, &atlas);
    assert_eq!(r.err(), Some(TilemapError::UnresolvedTileIndex { x: 1, y: 0 }));
}

#[test]
fn unresolved_tile_in_second_row() {
    let atlas = atlas_two_half_tiles();
    let geom = TextureAtlasTilemapGeometry::default();
    let mut grid = TextureAtlasTilemap::new(2, 2, 1).unwrap();
    grid.set(0, 1, 2).unwrap();
    let r = pack_tilestrips(&grid, &geom, &atlas);
    assert_eq!(r.err(), Some(TilemapError::UnresolvedTileIndex { x: 0, y: 1 }));
}

#[test]
fn centered_two_by_two_world_placement() {
    let atlas = atlas_single_tile();
    let geom = centered_geometry(8);
    let grid = TextureAtlasTilemap::new(2, 2, 0).unwrap();
    let descs = pack_tilestrips(&grid, &geom, &atlas).unwrap();
    assert_eq!(descs.len(), 2);

    // Output size is 16 by 16, so a centered grid starts at (-8, -8).
    let row0 = &descs[0].world_rect;
    assert!(row0.origin_x.eq_int(-8));
    assert!(row0.origin_y.eq_int(-8));
    assert_eq!(row0.size_x, 16);
    assert_eq!(row0.size_y, 8);

    // The second row sits one tile higher.
    let row1 = &descs[1].world_rect;
    assert!(row1.origin_x.eq_int(-8));
    assert!(row1.origin_y.eq_int(0));
    assert_eq!(row1.size_x, 16);
    assert_eq!(row1.size_y, 8);
}

#[test]
fn bottom_left_anchor_starts_at_minus_output_size() {
    let atlas = atlas_single_tile();
    let geom = TextureAtlasTilemapGeometry::default();
    let grid = TextureAtlasTilemap::new(3, 1, 0).unwrap();
    let descs = pack_tilestrips(&grid, &geom, &atlas).unwrap();
    assert_eq!(descs.len(), 1);
    // Output size is 48 by 16; a bottom-left anchor starts at (-48, -16).
    assert!(descs[0].world_rect.origin_x.eq_int(-48));
    assert!(descs[0].world_rect.origin_y.eq_int(-16));
    assert_eq!(descs[0].world_rect.size_x, 48);
    assert_eq!(descs[0].world_rect.size_y, 16);
}

#[test]
fn packing_twice_gives_identical_descriptors() {
    let atlas = atlas_two_half_tiles();
    let geom = centered_geometry(8);
    let mut grid = TextureAtlasTilemap::new(1001, 2, 0).unwrap();
    grid.set(1000, 1, 1).unwrap();
    let first = pack_tilestrips(&grid, &geom, &atlas).unwrap();
    let second = pack_tilestrips(&grid, &geom, &atlas).unwrap();
    assert_eq!(first.len(), second.len());
    for (a, b) in first.iter().zip(second.iter()) {
        assert_eq!(a.material.tilestrip_uniform.len, b.material.tilestrip_uniform.len);
        assert_eq!(a.material.tilestrip_uniform.atlas_rects, b.material.tilestrip_uniform.atlas_rects);
        assert_eq!(a.material.texture_handle, b.material.texture_handle);
        assert_eq!(a.world_rect, b.world_rect);
    }
}
