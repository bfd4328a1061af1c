use voxparty::debug::{
    badge_rect, char_cells, panel_height, text_layout, DebugInputState, DebugOverlay, RingBuffer, CHAR_H,
    CHAR_W,
};
use voxparty::font::font_8x12;
use voxparty::touch::ScreenRect;

#[test]
fn test_ring_buffer_push_and_iter() {
    let mut rb: RingBuffer<f32, 5> = RingBuffer::new();
    assert_eq!(rb.len(), 0);
    rb.push(1.0);
    rb.push(2.0);
    rb.push(3.0);
    let collected: Vec<f32> = rb.iter();
    assert_eq!(collected, vec![1.0, 2.0, 3.0]);
    assert_eq!(rb.len(), 3);
}

#[test]
fn test_ring_buffer_overwrite() {
    let mut rb: RingBuffer<f32, 3> = RingBuffer::new();
    rb.push(1.0);
    rb.push(2.0);
    rb.push(3.0);
    rb.push(4.0);
    let collected: Vec<f32> = rb.iter();
    assert_eq!(collected, vec![2.0, 3.0, 4.0]);
    assert_eq!(rb.len(), 3);
}

#[test]
fn test_ring_buffer_empty() {
    let rb: RingBuffer<f32, 5> = RingBuffer::new();
    assert_eq!(rb.len(), 0);
    let collected: Vec<f32> = rb.iter();
    assert!(collected.is_empty());
}

#[test]
fn ring_buffer_keeps_last_n_over_many_wraps() {
    let mut rb: RingBuffer<u32, 4> = RingBuffer::new();
    for v in 0..11u32 {
        rb.push(v);
    }
    assert_eq!(rb.iter(), vec![7, 8, 9, 10]);
    assert_eq!(rb.len(), 4);
}

#[test]
fn test_toggle() {
    let mut overlay = DebugOverlay::new();
    assert!(!overlay.is_visible());
    overlay.toggle();
    assert!(overlay.is_visible());
    overlay.toggle();
    assert!(!overlay.is_visible());
}

#[test]
fn test_visible_default_false() {
    assert!(!DebugOverlay::new().is_visible());
}

#[test]
fn test_minimap_renders_without_panic() {
    let overlay = DebugOverlay::new();
    assert!(!overlay.is_minimap_visible(), "minimap should default to hidden");
    assert!(!overlay.is_visible(), "debug overlay should default to hidden");
}

#[test]
fn overlay_switches_toggle_independently() {
    let mut o = DebugOverlay::new();
    o.toggle_fps();
    assert!(o.is_fps_visible());
    assert!(!o.is_frame_graph_visible());
    o.toggle_frame_graph();
    o.toggle_minimap();
    assert!(o.is_frame_graph_visible() && o.is_minimap_visible() && o.is_fps_visible());
    o.set_draw_calls(17);
    assert_eq!(o.draw_call_count(), 17);
    o.set_mouse_grid(4, 2);
    assert_eq!((o.mouse_grid_x, o.mouse_grid_y, o.mouse_depth), (4, 2, 6));
}

#[test]
fn test_bitmap_for_space() {
    let b = font_8x12(' ');
    assert_eq!(b[0], [0x00, 0]);
}

#[test]
fn test_bitmap_for_digit() {
    let b = font_8x12('1');
    assert_eq!(b[5], [0x0C, 0]);
}

#[test]
fn test_bitmap_for_uppercase() {
    let b = font_8x12('A');
    assert_eq!(b[1], [0x1C, 0]);
}

#[test]
fn test_bitmap_for_lowercase() {
    let b = font_8x12('a');
    assert_eq!(b[3], [0x1E, 0]);
}

#[test]
fn test_char_w_and_h() {
    assert_eq!(CHAR_W, 8);
    assert_eq!(CHAR_H, 12);
}

#[test]
fn test_draw_text_does_not_panic() {
    let layout = text_layout("FPS: 60.0", 8);
    assert_eq!(layout.len(), 9);
}

#[test]
fn test_8x12_font_has_box_drawing() {
    let _ = font_8x12('╔');
    let _ = font_8x12('═');
    let _ = font_8x12('║');
    let _ = font_8x12('╠');
    let _ = font_8x12('╣');
    let _ = font_8x12('╚');
}

#[test]
fn test_8x12_font_unknown_char_gives_blank() {
    let b = font_8x12('\x7F');
    for row in &b {
        assert_eq!(row[0], 0);
    }
}

#[test]
fn panel_height_value() {
    assert_eq!(panel_height(), 323);
}

#[test]
fn badge_geometry() {
    assert_eq!(badge_rect(1280, false), ScreenRect { x: 1162, y: 8, w: 110, h: 24 });
    assert_eq!(badge_rect(1280, true), ScreenRect { x: 1052, y: 8, w: 220, h: 36 });
}

#[test]
fn char_cells_of_one() {
    // '1' row 5 is 0x0C: columns 4 and 5 lit.
    let cells = char_cells('1', 100, 200);
    assert!(cells.contains(&ScreenRect { x: 112, y: 215, w: 3, h: 3 }));
    assert!(cells.contains(&ScreenRect { x: 115, y: 215, w: 3, h: 3 }));
    assert!(!cells.contains(&ScreenRect { x: 109, y: 215, w: 3, h: 3 }));
    let expected: usize = font_8x12('1').iter().map(|r| r[0].count_ones() as usize).sum();
    assert_eq!(cells.len(), expected);
    assert!(char_cells(' ', 0, 0).is_empty());
}

#[test]
fn text_layout_stops_at_edge() {
    let layout = text_layout("ABCDEFGHIJ", 1200);
    // 1200 + 24 <= 1280 fits, 1227 + 24 <= 1280 fits, 1254 + 24 <= 1280 fits, 1281 does not
    assert_eq!(layout, vec![('A', 1200), ('B', 1227), ('C', 1254)]);
    assert_eq!(text_layout("", 0), vec![]);
}

#[test]
fn debug_input_state_default_is_empty() {
    let s = DebugInputState::default();
    assert!(s.p1_dirs.is_empty() && s.p2_dirs.is_empty());
}
