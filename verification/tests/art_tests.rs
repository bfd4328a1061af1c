use voxparty::sprite_gen::generate_characters_sprite_sheet;
use voxparty::tiles::{
    generate_tile_sprites, is_point_in_star, tile_atlas_index, tile_kind, TileKind, GOAL_OUTLINE, TILE_NAMES,
};

fn px(data: &[u8], w: usize, x: usize, y: usize) -> [u8; 4] {
    let i = (y * w + x) * 4;
    [data[i], data[i + 1], data[i + 2], data[i + 3]]
}

#[test]
fn test_generate_characters_sprite_sheet_size() {
    let data = generate_characters_sprite_sheet();
    assert_eq!(data.len(), 192 * 192 * 4);
}

#[test]
fn test_generate_characters_returns_valid_rgba() {
    let data = generate_characters_sprite_sheet();
    assert!(data[0] != 0 || data[1] != 0 || data[2] != 0 || data[3] != 0,
        "Generated sprite sheet should not be all transparent");
}

#[test]
fn character_sheet_glyphs() {
    let data = generate_characters_sprite_sheet();
    let bg = [0x20, 0x20, 0x40, 0xFF];
    let blue = [0x44, 0x88, 0xFF, 0xFF];
    let red = [0xFF, 0x44, 0x44, 0xFF];
    let purple = [0xAA, 0x44, 0xFF, 0xFF];
    // ring of '@' 18 to the left of its centre (32, 28) in each frame
    assert_eq!(px(&data, 192, 14, 28), blue);
    assert_eq!(px(&data, 192, 64 + 14, 28), blue);
    assert_eq!(px(&data, 192, 14, 64 + 28), red);
    // hole and tail of '@'
    assert_eq!(px(&data, 192, 32, 28), bg);
    assert_eq!(px(&data, 192, 40, 40), blue);
    // '?' dot centre and stem, only in the first NPC frame
    assert_eq!(px(&data, 192, 32, 128 + 48), purple);
    assert_eq!(px(&data, 192, 28, 128 + 35), purple);
    assert_eq!(px(&data, 192, 64 + 32, 128 + 48), bg);
    // the ring test: squared distance 18*18 - 194 = 130 is in, 129 is out
    assert_eq!(px(&data, 192, 32 + 11, 28 + 3), blue); // 121 + 9 = 130
    assert_eq!(px(&data, 192, 32 + 10, 28 + 5), bg); // 100 + 25 = 125: outside both ring and hole
}

#[test]
fn tile_sheet_dimensions() {
    let (w, h, data) = generate_tile_sprites();
    assert_eq!((w, h), (640, 32));
    assert_eq!(data.len(), 640 * 32 * 4);
}

#[test]
fn tile_sheet_pixels() {
    let (_, _, data) = generate_tile_sprites();
    // corners outside the diamond stay transparent
    assert_eq!(px(&data, 640, 0, 0), [0, 0, 0, 0]);
    // grass passable: diamond centre background, a pattern dot, an edge
    assert_eq!(px(&data, 640, 33, 20), [30, 80, 30, 255]);
    assert_eq!(px(&data, 640, 32, 14), [50, 120, 50, 255]);
    assert_eq!(px(&data, 640, 31, 0), [60, 140, 60, 255]);
    assert_eq!(px(&data, 640, 8, 4), [50, 120, 50, 255]);
    // stone: every third pixel of a row from its left end
    assert_eq!(px(&data, 640, 128 + 16, 16), [100, 100, 105, 255]);
    assert_eq!(px(&data, 640, 128 + 17, 16), [80, 80, 85, 255]);
    // checkpoint: outline corner and the bright centre
    assert_eq!(px(&data, 640, 512 + 32, 6), [180, 150, 0, 255]);
    assert_eq!(px(&data, 640, 512 + 31, 15), [255, 240, 100, 255]);
    assert_eq!(px(&data, 640, 512 + 31, 16), [30, 80, 30, 255]);
    // goal: bright centre of the star
    assert_eq!(px(&data, 640, 576 + 32, 16), [255, 255, 200, 255]);
}

#[test]
fn goal_outline_matches_sampled_circles() {
    for slot in 0..10u32 {
        let off = slot * 64;
        let cx = off + 32;
        let cy = 16u32;
        let mut pts: Vec<(u32, u32)> = Vec::new();
        for r in 8..=11 {
            for angle in 0..360 {
                let rad = (angle as f64) * std::f64::consts::PI / 180.0;
                let fx = cx as f64 + (r as f64 * rad.cos());
                let fy = cy as f64 + (r as f64 * rad.sin());
                if fx >= off as f64 && fx < (off + 64) as f64 && fy >= 0.0 && fy < 32.0 {
                    let (ix, iy) = (fx as u32, fy as u32);
                    if is_point_in_star(ix, iy, cx, cy, 12, 5) && !pts.contains(&(ix - off, iy)) {
                        pts.push((ix - off, iy));
                    }
                }
            }
        }
        pts.sort();
        let mut table: Vec<(u32, u32)> = GOAL_OUTLINE.to_vec();
        table.sort();
        assert_eq!(pts, table, "slot {}", slot);
    }
}

#[test]
fn star_test() {
    assert!(is_point_in_star(32, 16, 32, 16, 12, 5));
    assert!(is_point_in_star(20, 16, 32, 16, 12, 5));
    assert!(is_point_in_star(38, 22, 32, 16, 12, 5));
    assert!(!is_point_in_star(39, 22, 32, 16, 12, 5));
}

#[test]
fn test_tile_name_to_index_contains_all_tiles() {
    assert_eq!(tile_atlas_index("grass_passable"), Some(0));
    assert_eq!(tile_atlas_index("grass_solid"), Some(1));
    assert_eq!(tile_atlas_index("stone_solid"), Some(2));
    assert_eq!(tile_atlas_index("lava_trap"), Some(3));
    assert_eq!(tile_atlas_index("goal"), Some(9));
    assert_eq!(tile_atlas_index("water"), None);
    assert_eq!(TILE_NAMES.len(), 10);
    assert_eq!(tile_kind(8), TileKind::Checkpoint);
}
