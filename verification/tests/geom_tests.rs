use texture_atlas_tilemap::Frac;
use texture_atlas_tilemap::TextureAtlasTilemapGeometry;
use texture_atlas_tilemap::TilestripUniform;
use texture_atlas_tilemap::UvRect;
use texture_atlas_tilemap::TILESTRIP_LEN;

#[test]
fn frac_from_int_has_unit_denominator() {
    let f = Frac::from_int(-3);
    assert_eq!(f, Frac { num: -3, den: 1 });
}

#[test]
fn frac_eq_int_compares_values() {
    let half_of_minus_sixteen = Frac { num: -16, den: 2 };
    assert!(half_of_minus_sixteen.eq_int(-8));
    assert!(!half_of_minus_sixteen.eq_int(-7));
    assert!(Frac { num: 0, den: 5 }.eq_int(0));
}

#[test]
fn default_geometry_is_sixteen_units_bottom_left() {
    let geom = TextureAtlasTilemapGeometry::default();
    assert_eq!(geom.tile_size_x, 16);
    assert_eq!(geom.tile_size_y, 16);
    assert_eq!(geom.anchor_x, Frac { num: 0, den: 1 });
    assert_eq!(geom.anchor_y, Frac { num: 0, den: 1 });
}

#[test]
fn uniform_new_is_padded_with_full_rectangles() {
    let uniform = TilestripUniform::new(3);
    assert_eq!(uniform.len, 3);
    assert_eq!(uniform.atlas_rects.len(), TILESTRIP_LEN);
    let full = UvRect::full();
    for rect in &uniform.atlas_rects {
        assert_eq!(*rect, full);
    }
}

#[test]
fn full_rect_spans_the_whole_texture() {
    let full = UvRect::full();
    assert_eq!(full.min_x, Frac { num: 0, den: 1 });
    assert_eq!(full.min_y, Frac { num: 0, den: 1 });
    assert_eq!(full.max_x, Frac { num: 1, den: 1 });
    assert_eq!(full.max_y, Frac { num: 1, den: 1 });
}
