use texture_atlas_tilemap::TextureAtlasTilemap;
use texture_atlas_tilemap::TilemapError;

#[test]
fn new_rejects_zero_width() {
    assert_eq!(
        TextureAtlasTilemap::new(0, 5, 0).err(),
        Some(TilemapError::InvalidDimension)
    );
}

#[test]
fn new_rejects_zero_height() {
    assert_eq!(
        TextureAtlasTilemap::new(5, 0, 0).err(),
        Some(TilemapError::InvalidDimension)
    );
}

#[test]
fn new_fills_initial_tile() {
    let grid = TextureAtlasTilemap::new(3, 2, 7).unwrap();
    assert_eq!(grid.width, 3);
    assert_eq!(grid.height, 2);
    assert_eq!(grid.atlas_indices.len(), 6);
    for y in 0..2 {
        for x in 0..3 {
            assert_eq!(grid.get(x, y), Ok(7));
        }
    }
}

#[test]
fn index_is_row_major() {
    let grid = TextureAtlasTilemap::new(4, 3, 0).unwrap();
    assert_eq!(grid.index(0, 0), 0);
    assert_eq!(grid.index(3, 0), 3);
    assert_eq!(grid.index(0, 1), 4);
    assert_eq!(grid.index(2, 2), 10);
}

#[test]
fn set_then_get_round_trip() {
    let mut grid = TextureAtlasTilemap::new(2, 2, 0).unwrap();
    assert_eq!(grid.set(1, 0, 5), Ok(()));
    assert_eq!(grid.get(1, 0), Ok(5));
    assert_eq!(grid.get(0, 0), Ok(0));
    assert_eq!(grid.atlas_indices, vec![0, 5, 0, 0]);
}

#[test]
fn get_out_of_bounds() {
    let grid = TextureAtlasTilemap::new(2, 2, 0).unwrap();
    assert_eq!(grid.get(2, 0), Err(TilemapError::OutOfBounds));
    assert_eq!(grid.get(0, 2), Err(TilemapError::OutOfBounds));
}

#[test]
fn set_out_of_bounds_leaves_grid_unchanged() {
    let mut grid = TextureAtlasTilemap::new(2, 2, 3).unwrap();
    assert_eq!(grid.set(2, 0, 9), Err(TilemapError::OutOfBounds));
    assert_eq!(grid.set(0, 5, 9), Err(TilemapError::OutOfBounds));
    assert_eq!(grid.atlas_indices, vec![3, 3, 3, 3]);
}

#[test]
fn default_grid_is_one_by_one() {
    let grid = TextureAtlasTilemap::default();
    assert_eq!(grid.width, 1);
    assert_eq!(grid.height, 1);
    assert_eq!(grid.atlas_indices, vec![0]);
}

#[test]
fn error_descriptions_are_distinct() {
    let a = TilemapError::InvalidDimension.describe();
    let b = TilemapError::OutOfBounds.describe();
    let c = TilemapError::UnresolvedTileIndex { x: 1, y: 2 }.describe();
    assert_ne!(a, b);
    assert_ne!(b, c);
    assert_ne!(a, c);
}
