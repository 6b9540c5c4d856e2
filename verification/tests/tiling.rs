use horizon::renderer::primitives::uniforms::TileInfo;

#[test]
fn tile_info_default_values() {
    let info = TileInfo::default();
    assert_eq!(info.tile_size, 16);
    assert_eq!(info.num_tile_light_slot, 128);
    assert_eq!(info.tile_count_x, 0);
    assert_eq!(info.tile_count_y, 0);
    assert_eq!(info.num_tiles, 0);
}

#[test]
fn light_id_buffer_size_for_initial_canvas() {
    let mut info = TileInfo::default();
    let size = info.calculate_light_id_buffer_size(600, 800);
    assert_eq!(info.tile_count_x, 38);
    assert_eq!(info.tile_count_y, 50);
    assert_eq!(info.num_tiles, 1900);
    assert_eq!(size, 4 * 129 * 1900);
    assert_eq!(size, 980400);
}

#[test]
fn light_id_buffer_size_exact_multiple() {
    let mut info = TileInfo::default();
    let size = info.calculate_light_id_buffer_size(640, 480);
    assert_eq!(info.tile_count_x, 40);
    assert_eq!(info.tile_count_y, 30);
    assert_eq!(info.num_tiles, 1200);
    assert_eq!(size, 619200);
}

#[test]
fn tile_grid_covers_partial_tiles() {
    let mut info = TileInfo::default();
    info.calculate_light_id_buffer_size(17, 1);
    assert_eq!(info.tile_count_x, 2);
    assert_eq!(info.tile_count_y, 1);
    assert_eq!(info.num_tiles, 2);
}

#[test]
fn empty_canvas_has_no_tiles() {
    let mut info = TileInfo::default();
    let size = info.calculate_light_id_buffer_size(0, 0);
    assert_eq!(info.tile_count_x, 0);
    assert_eq!(info.tile_count_y, 0);
    assert_eq!(info.num_tiles, 0);
    assert_eq!(size, 0);
}

#[test]
fn negative_tile_size_rounds_down() {
    let mut info = TileInfo { tile_size: -16, ..TileInfo::default() };
    let size = info.calculate_light_id_buffer_size(600, 800);
    assert_eq!(info.tile_count_x, -37);
    assert_eq!(info.tile_count_y, -49);
    assert_eq!(info.num_tiles, 1813);
    assert_eq!(size, 4 * 129 * 1813);
}

#[test]
fn negative_tile_product_wraps_into_u32() {
    let mut info = TileInfo { tile_size: -1, num_tile_light_slot: 0, ..TileInfo::default() };
    let size = info.calculate_light_id_buffer_size(0, 5);
    assert_eq!(info.tile_count_x, 2);
    assert_eq!(info.tile_count_y, -3);
    assert_eq!(info.num_tiles, (-6i32) as u32);
    assert_eq!(size, 4 * ((-6i32) as u32) as u64);
}

#[test]
fn tile_count_saturates_at_i32_max() {
    let mut info = TileInfo { tile_size: 1, ..TileInfo::default() };
    let size = info.calculate_light_id_buffer_size(u32::MAX, 0);
    assert_eq!(info.tile_count_x, i32::MAX);
    assert_eq!(info.tile_count_y, 0);
    assert_eq!(info.num_tiles, 0);
    assert_eq!(size, 0);
}

#[test]
fn tile_count_matches_float_formula() {
    for (w, h) in [(1u32, 1u32), (15, 16), (16, 17), (1920, 1080), (2560, 1440)] {
        let mut info = TileInfo::default();
        info.calculate_light_id_buffer_size(w, h);
        let fx = ((w as f32 + 15.0) / 16.0).floor() as i32;
        let fy = ((h as f32 + 15.0) / 16.0).floor() as i32;
        assert_eq!(info.tile_count_x, fx);
        assert_eq!(info.tile_count_y, fy);
        assert_eq!(info.num_tiles, (fx * fy) as u32);
    }
}

#[test]
fn zero_tile_size_follows_float_division() {
    let mut info = TileInfo { tile_size: 0, ..TileInfo::default() };
    let size = info.calculate_light_id_buffer_size(1, 5);
    assert_eq!(info.tile_count_x, 0);
    assert_eq!(info.tile_count_y, i32::MAX);
    assert_eq!(info.num_tiles, 0);
    assert_eq!(size, 0);
    let mut empty = TileInfo { tile_size: 0, ..TileInfo::default() };
    empty.calculate_light_id_buffer_size(0, 1);
    assert_eq!(empty.tile_count_x, i32::MIN);
    assert_eq!(empty.tile_count_y, 0);
    let fx = ((1.0f32 + (0 - 1) as f32) / 0.0f32).floor() as i32;
    let fy = ((0.0f32 + (0 - 1) as f32) / 0.0f32).floor() as i32;
    assert_eq!(fx, 0);
    assert_eq!(fy, i32::MIN);
}
