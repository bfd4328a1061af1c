//! Debug overlay support: frame-time ring buffer, overlay switches and the
//! bitmap font metrics.
use vstd::prelude::*;
use vstd::string::StringExecFns;
use crate::font::{font_8x12, glyph_index, FONT_GLYPHS};
use crate::touch::ScreenRect;
use crate::health::Color;
use crate::world::TileType;
use crate::text::{contains_str, has_sub};

verus! {

/// Width of a font character cell in pixels.
pub const CHAR_W: i32 = 8;

/// Height of a font character cell in pixels.
pub const CHAR_H: i32 = 12;

/// Horizontal gap between characters.
pub const CHAR_SPACING: i32 = 1;

/// Total cell width including spacing.
pub const CELL_W: i32 = 9;

/// Pixel scale applied to the bitmap font.
pub const FONT_SCALE: i32 = 3;

/// Overlay padding in pixels.
pub const PAD: i32 = 8;

/// Fixed-capacity buffer that keeps the last `N` values pushed.
pub struct RingBuffer<T, const N: usize> {
    data: Vec<Option<T>>,
    head: usize,
    len: usize,
}

/// Contents after pushing `v` onto a buffer of capacity `n` holding `s`:
/// once full, the oldest value is evicted.
pub open spec fn ring_push<T>(s: Seq<T>, v: T, n: nat) -> Seq<T> {
    if s.len() < n {
        s.push(v)
    } else {
        s.drop_first().push(v)
    }
}

impl<T: Copy, const N: usize> RingBuffer<T, N> {
    /// Slot of the oldest value.
    closed spec fn start(&self) -> int {
        if self.len < N {
            0
        } else {
            self.head as int
        }
    }

    /// The slots hold `len` values; while not full they fill `0..len` and the
    /// next write goes to `len`, once full the next write overwrites the oldest.
    pub closed spec fn wf(&self) -> bool {
        &&& self.data@.len() == N
        &&& self.len <= N
        &&& (N > 0 ==> self.head < N)
        &&& (self.len < N ==> self.head == self.len)
        &&& forall|k: int| 0 <= k < self.len ==> (#[trigger] self.data@[(self.start() + k) % (N as int)]) is Some
    }

    /// The stored values, oldest first.
    pub closed spec fn contents(&self) -> Seq<T> {
        Seq::new(self.len as nat, |k: int| self.data@[(self.start() + k) % (N as int)]->0)
    }

    /// An empty buffer.
    pub fn new() -> (r: Self)
        ensures
            r.wf(),
            r.contents() == Seq::<T>::empty(),
    {
        let mut data: Vec<Option<T>> = Vec::new();
        let mut i: usize = 0;
        while i < N
            invariant
                i <= N,
                data@.len() == i,
            decreases N - i,
        {
            data.push(None);
            i = i + 1;
        }
        let r = RingBuffer { data, head: 0, len: 0 };
        assert(r.contents() =~= Seq::<T>::empty());
        r
    }

    /// Push a value; once the buffer is full the oldest value is evicted.
    pub fn push(&mut self, val: T)
        requires
            old(self).wf(),
            N > 0,
        ensures
            final(self).wf(),
            final(self).contents() == ring_push(old(self).contents(), val, N as nat),
    {
        let ghost old_contents = self.contents();
        let ghost old_start = self.start();
        let ghost n = N as int;
        let h = self.head;
        self.data.set(h, Some(val));
        self.head = (h + 1) % N;
        if self.len < N {
            self.len = self.len + 1;
            proof {
                if h as int + 1 < n {
                    vstd::arithmetic::div_mod::lemma_small_mod((h + 1) as nat, n as nat);
                } else {
                    vstd::arithmetic::div_mod::lemma_mod_self_0(n);
                }
                assert(self.start() == 0);
                assert forall|k: int| 0 <= k < self.len implies (#[trigger] self.data@[(self.start() + k)
                    % n]) is Some && self.data@[(self.start() + k) % n]->0 == old_contents.push(val)[k] by {
                    vstd::arithmetic::div_mod::lemma_small_mod(k as nat, n as nat);
                    if k < old(self).len {
                        vstd::arithmetic::div_mod::lemma_small_mod(k as nat, n as nat);
                    }
                }
                assert(self.contents() =~= old_contents.push(val));
            }
        } else {
            proof {
                assert(self.start() == (h as int + 1) % n);
                assert forall|k: int| 0 <= k < self.len implies (#[trigger] self.data@[(self.start() + k)
                    % n]) is Some && self.data@[(self.start() + k) % n]->0 == old_contents.drop_first().push(
                    val,
                )[k] by {
                    lemma_ring_slot(h as int, k, n);
                    if k < n - 1 {
                        lemma_ring_slot(h as int, k, n);
                        assert(old(self).data@[(old_start + (k + 1)) % n] is Some);
                    }
                }
                assert(self.contents() =~= old_contents.drop_first().push(val));
            }
        }
    }

    /// Number of values stored.
    pub fn len(&self) -> (r: usize)
        requires
            self.wf(),
        ensures
            r == self.contents().len(),
    {
        self.len
    }

    /// All stored values in insertion order (oldest to newest).
    pub fn iter(&self) -> (r: Vec<T>)
        requires
            self.wf(),
        ensures
            r@ == self.contents(),
    {
        let start = if self.len < N {
            0
        } else {
            self.head
        };
        let mut out: Vec<T> = Vec::new();
        let mut k: usize = 0;
        while k < self.len
            invariant
                self.wf(),
                start == self.start(),
                k <= self.len,
                out@ =~= self.contents().subrange(0, k as int),
            decreases self.len - k,
        {
            proof {
                lemma_wrap_index(start as int, k as int, N as int);
            }
            let idx = if k < N - start {
                start + k
            } else {
                k - (N - start)
            };
            match self.data[idx] {
                Some(v) => {
                    out.push(v);
                },
                None => {
                    assert(false);
                },
            }
            k = k + 1;
        }
        out
    }
}

/// Wrapping index `(s + k) % n` without overflow.
proof fn lemma_wrap_index(s: int, k: int, n: int)
    requires
        0 <= s < n,
        0 <= k < n,
    ensures
        (s + k) % n == if k < n - s {
            s + k
        } else {
            k - (n - s)
        },
{
    if s + k < n {
        vstd::arithmetic::div_mod::lemma_small_mod((s + k) as nat, n as nat);
    } else {
        vstd::arithmetic::div_mod::lemma_mod_sub_multiples_vanish(s + k, n);
        vstd::arithmetic::div_mod::lemma_small_mod((s + k - n) as nat, n as nat);
    }
}

/// Slot arithmetic of a full ring of `n` slots whose head is `h`.
proof fn lemma_ring_slot(h: int, k: int, n: int)
    requires
        0 <= h < n,
        0 <= k < n,
    ensures
        ((h + 1) % n + k) % n == (h + 1 + k) % n,
        0 <= (h + 1 + k) % n < n,
        ((h + 1 + k) % n == h) == (k == n - 1),
        k < n - 1 ==> (h + 1 + k) % n == (h + (k + 1)) % n,
{
    vstd::arithmetic::div_mod::lemma_small_mod(k as nat, n as nat);
    vstd::arithmetic::div_mod::lemma_add_mod_noop(h + 1, k, n);
    let x = h + 1 + k;
    if x < n {
        vstd::arithmetic::div_mod::lemma_small_mod(x as nat, n as nat);
    } else {
        vstd::arithmetic::div_mod::lemma_mod_sub_multiples_vanish(x, n);
        vstd::arithmetic::div_mod::lemma_small_mod((x - n) as nat, n as nat);
    }
}

/// Current input directions of both players, as shown in the overlay.
#[derive(Debug, Clone)]
pub struct DebugInputState {
    pub p1_dirs: String,
    pub p2_dirs: String,
}

impl Default for DebugInputState {
    fn default() -> (r: Self)
        ensures
            r.p1_dirs@.len() == 0,
            r.p2_dirs@.len() == 0,
    {
        DebugInputState { p1_dirs: String::new(), p2_dirs: String::new() }
    }
}

/// The overlay's switches and the mouse hover readout. Frame-rate figures
/// are continuous and kept by the caller.
#[derive(Debug, Clone, Copy, PartialEq, Eq, Structural)]
pub struct DebugOverlay {
    pub visible: bool,
    pub fps_visible: bool,
    pub frame_graph_visible: bool,
    pub show_minimap: bool,
    pub mouse_grid_x: i32,
    pub mouse_grid_y: i32,
    pub mouse_depth: i32,
    pub draw_calls: usize,
}

impl DebugOverlay {
    /// Everything hidden, readouts at zero.
    pub fn new() -> (r: Self)
        ensures
            r == (DebugOverlay {
                visible: false,
                fps_visible: false,
                frame_graph_visible: false,
                show_minimap: false,
                mouse_grid_x: 0,
                mouse_grid_y: 0,
                mouse_depth: 0,
                draw_calls: 0,
            }),
    {
        DebugOverlay {
            visible: false,
            fps_visible: false,
            frame_graph_visible: false,
            show_minimap: false,
            mouse_grid_x: 0,
            mouse_grid_y: 0,
            mouse_depth: 0,
            draw_calls: 0,
        }
    }

    pub fn is_visible(&self) -> (r: bool)
        ensures
            r == self.visible,
    {
        self.visible
    }

    pub fn toggle(&mut self)
        ensures
            *final(self) == (DebugOverlay { visible: !old(self).visible, ..*old(self) }),
    {
        self.visible = !self.visible;
    }

    pub fn toggle_fps(&mut self)
        ensures
            *final(self) == (DebugOverlay { fps_visible: !old(self).fps_visible, ..*old(self) }),
    {
        self.fps_visible = !self.fps_visible;
    }

    pub fn is_fps_visible(&self) -> (r: bool)
        ensures
            r == self.fps_visible,
    {
        self.fps_visible
    }

    pub fn toggle_frame_graph(&mut self)
        ensures
            *final(self) == (DebugOverlay {
                frame_graph_visible: !old(self).frame_graph_visible,
                ..*old(self)
            }),
    {
        self.frame_graph_visible = !self.frame_graph_visible;
    }

    pub fn is_frame_graph_visible(&self) -> (r: bool)
        ensures
            r == self.frame_graph_visible,
    {
        self.frame_graph_visible
    }

    pub fn toggle_minimap(&mut self)
        ensures
            *final(self) == (DebugOverlay { show_minimap: !old(self).show_minimap, ..*old(self) }),
    {
        self.show_minimap = !self.show_minimap;
    }

    pub fn is_minimap_visible(&self) -> (r: bool)
        ensures
            r == self.show_minimap,
    {
        self.show_minimap
    }

    /// Record the draw calls of the last frame.
    pub fn set_draw_calls(&mut self, count: usize)
        ensures
            *final(self) == (DebugOverlay { draw_calls: count, ..*old(self) }),
    {
        self.draw_calls = count;
    }

    pub fn draw_call_count(&self) -> (r: usize)
        ensures
            r == self.draw_calls,
    {
        self.draw_calls
    }

    /// Record the grid cell under the mouse and its depth key.
    pub fn set_mouse_grid(&mut self, gx: i32, gy: i32)
        requires
            i32::MIN <= gx + gy <= i32::MAX,
        ensures
            *final(self) == (DebugOverlay {
                mouse_grid_x: gx,
                mouse_grid_y: gy,
                mouse_depth: crate::isom::spec_depth_key(gx as int, gy as int, 0) as i32,
                ..*old(self)
            }),
    {
        self.mouse_grid_x = gx;
        self.mouse_grid_y = gy;
        self.mouse_depth = crate::isom::depth_key(gx, gy, 0);
    }
}

/// Lines in the overlay panel: SYSTEM 9, PLAYERS 5, CAMERA 3, WORLD 3,
/// INPUT 2, HEALTH 3.
pub const PANEL_LINES: i32 = 25;

/// Height of the overlay panel: its lines, one pixel per divider between
/// the six sections, the two border rows and the padding.
pub fn panel_height() -> (r: i32)
    ensures
        r == PANEL_LINES * CHAR_H + 5 + 2 + PAD * 2,
        r == 323,
{
    PANEL_LINES * CHAR_H + 5 + 2 + PAD * 2
}

/// The corner badge shown while the overlay is hidden: wider and taller
/// when it holds the frame graph.
pub fn badge_rect(screen_w: u32, frame_graph_visible: bool) -> (r: ScreenRect)
    requires
        screen_w <= i32::MAX,
    ensures
        r == (if frame_graph_visible {
            ScreenRect { x: (screen_w - 228) as i32, y: 8, w: 220, h: 36 }
        } else {
            ScreenRect { x: (screen_w - 118) as i32, y: 8, w: 110, h: 24 }
        }),
{
    let badge_h: i32 = if frame_graph_visible { 36 } else { 24 };
    let badge_w: i32 = if frame_graph_visible { 220 } else { 110 };
    let badge_x = screen_w as i32 - badge_w - 8;
    ScreenRect { x: badge_x, y: 8, w: badge_w as u32, h: badge_h as u32 }
}

/// Row `r` of the bitmap of `ch` (blank for characters missing from the font).
pub open spec fn glyph_byte(ch: char, r: int) -> u8 {
    if glyph_index(ch) == -1 {
        0
    } else {
        FONT_GLYPHS[glyph_index(ch)].1[r]
    }
}

/// Whether column `col` (0 = leftmost) of row `r` of `ch` is lit.
pub open spec fn glyph_lit(ch: char, r: int, col: int) -> bool {
    (glyph_byte(ch, r) >> ((7 - col) as u8)) & 1u8 != 0u8
}

/// The squares drawn for `ch` at `(x, y)`, for the first `k` cells in row
/// order (8 cells per row): one `FONT_SCALE` square per lit cell.
pub open spec fn glyph_cells(ch: char, x: int, y: int, k: nat) -> Seq<ScreenRect>
    decreases k,
{
    if k == 0 {
        Seq::empty()
    } else {
        let j = k - 1;
        let r = j / 8;
        let col = j % 8;
        let rest = glyph_cells(ch, x, y, j as nat);
        if glyph_lit(ch, r, col) {
            rest.push(ScreenRect { x: (x + col * 3) as i32, y: (y + r * 3) as i32, w: 3, h: 3 })
        } else {
            rest
        }
    }
}

/// The squares that draw `ch` with its top-left corner at `(x, y)`.
pub fn char_cells(ch: char, x: i32, y: i32) -> (r: Vec<ScreenRect>)
    requires
        -0x4000_0000 <= x <= 0x4000_0000,
        -0x4000_0000 <= y <= 0x4000_0000,
    ensures
        r@ == glyph_cells(ch, x as int, y as int, 96),
{
    let bitmap = font_8x12(ch);
    let mut out: Vec<ScreenRect> = Vec::new();
    let mut row: usize = 0;
    while row < 12
        invariant
            row <= 12,
            -0x4000_0000 <= x <= 0x4000_0000,
            -0x4000_0000 <= y <= 0x4000_0000,
            forall|r: int| 0 <= r < 12 ==> (#[trigger] bitmap[r])[0] == glyph_byte(ch, r),
            out@ == glyph_cells(ch, x as int, y as int, (row * 8) as nat),
        decreases 12 - row,
    {
        let bits = bitmap[row][0];
        let mut col: usize = 0;
        while col < 8
            invariant
                row < 12,
                col <= 8,
                -0x4000_0000 <= x <= 0x4000_0000,
                -0x4000_0000 <= y <= 0x4000_0000,
                bits == glyph_byte(ch, row as int),
                out@ == glyph_cells(ch, x as int, y as int, (row * 8 + col) as nat),
            decreases 8 - col,
        {
            proof {
                let j = (row * 8 + col) as int;
                assert(j / 8 == row as int && j % 8 == col as int);
            }
            if (bits >> ((7 - col) as u8)) & 1u8 != 0u8 {
                out.push(
                    ScreenRect {
                        x: x + (col as i32) * FONT_SCALE,
                        y: y + (row as i32) * FONT_SCALE,
                        w: FONT_SCALE as u32,
                        h: FONT_SCALE as u32,
                    },
                );
            }
            col = col + 1;
        }
        row = row + 1;
    }
    out
}

/// Where each character of a text drawn from `x` goes: characters advance
/// by one scaled cell, and drawing stops at the first that would cross the
/// 1280-pixel edge.
pub open spec fn text_positions(cs: Seq<char>, x: int, k: nat) -> Seq<(char, i32)>
    decreases k,
{
    if k == 0 {
        Seq::empty()
    } else {
        let j = k - 1;
        let rest = text_positions(cs, x, j as nat);
        let px = x + j * 27;
        if j < cs.len() && px + 24 <= 1280 && rest.len() == j {
            rest.push((cs[j], px as i32))
        } else {
            rest
        }
    }
}

/// The characters of `s` drawn from `x`, each with its left edge.
pub fn text_layout(s: &str, x: i32) -> (r: Vec<(char, i32)>)
    requires
        -0x4000_0000 <= x <= 1280,
    ensures
        r@ == text_positions(s@, x as int, s@.len()),
{
    let cs = crate::text::chars_of(s);
    let mut out: Vec<(char, i32)> = Vec::new();
    let mut px: i32 = x;
    let mut i: usize = 0;
    while i < cs.len()
        invariant
            cs@ == s@,
            i <= cs@.len(),
            -0x4000_0000 <= x <= 1280,
            px == x + i * 27,
            px <= 1283,
            out@ == text_positions(s@, x as int, i as nat),
            out@.len() == i,
        decreases cs@.len() - i,
    {
        if px + CHAR_W * FONT_SCALE > 1280 {
            proof {
                assert forall|k: nat| i <= k <= s@.len() implies text_positions(s@, x as int, k)
                    == text_positions(s@, x as int, i as nat) by {
                    lemma_text_positions_stop(s@, x as int, i as nat, k);
                }
            }
            return out;
        }
        out.push((cs[i], px));
        px = px + CELL_W * FONT_SCALE;
        i = i + 1;
    }
    out
}

proof fn lemma_text_positions_stop(cs: Seq<char>, x: int, i: nat, k: nat)
    requires
        i <= k,
        x + i * 27 + 24 > 1280,
        text_positions(cs, x, i).len() == i,
    ensures
        text_positions(cs, x, k) == text_positions(cs, x, i),
    decreases k - i,
{
    if k > i {
        lemma_text_positions_stop(cs, x, i, (k - 1) as nat);
        let j = k - 1;
        assert(x + j * 27 + 24 > 1280);
    }
}

/// The contents of a buffer of capacity `n` after pushing `vals` in order
/// onto an empty one.
pub open spec fn ring_fill<T>(vals: Seq<T>, n: nat) -> Seq<T>
    decreases vals.len(),
{
    if vals.len() == 0 {
        Seq::empty()
    } else {
        ring_push(ring_fill(vals.drop_last(), n), vals.last(), n)
    }
}

/// A ring buffer keeps the last `n` values pushed, oldest first: after
/// pushing `vals` onto an empty buffer of capacity `n` it holds all of them
/// if there are at most `n`, else the last `n`.
pub proof fn lemma_ring_keeps_last<T>(vals: Seq<T>, n: nat)
    requires
        n > 0,
    ensures
        ring_fill(vals, n) == if vals.len() <= n {
            vals
        } else {
            vals.subrange(vals.len() - n, vals.len() as int)
        },
    decreases vals.len(),
{
    if vals.len() > 0 {
        let dl = vals.drop_last();
        lemma_ring_keeps_last(dl, n);
        if dl.len() < n {
            assert(dl.push(vals.last()) =~= vals);
        } else {
            let kept = dl.subrange(dl.len() - n, dl.len() as int);
            assert(kept.len() == n);
            assert(kept.drop_first().push(vals.last()) =~= vals.subrange(
                vals.len() - n,
                vals.len() as int,
            ));
        }
    }
}


/// A push onto a buffer that has received `vals` since it was made leaves
/// it holding the last `min(k + 1, n)` of `vals` followed by `v` (with `k`
/// the number of earlier pushes), oldest first, and never more than `n`
/// values: `RingBuffer::new` starts from the empty contents, `push` applies
/// `ring_push`, and `iter` and `len` read the contents.
pub proof fn lemma_push_keeps_last<T>(before: Seq<T>, vals: Seq<T>, v: T, n: nat)
    requires
        n > 0,
        before == ring_fill(vals, n),
    ensures
        ring_push(before, v, n) == ring_fill(vals.push(v), n),
        ring_push(before, v, n).len() == if vals.len() + 1 <= n {
            vals.len() + 1
        } else {
            n
        },
        ring_push(before, v, n).len() <= n,
        ring_push(before, v, n) == if vals.len() + 1 <= n {
            vals.push(v)
        } else {
            vals.push(v).subrange(vals.len() + 1 - n, vals.len() + 1 as int)
        },
{
    assert(vals.push(v).drop_last() =~= vals);
    lemma_ring_keeps_last(vals.push(v), n);
}


/// The minimap colour of a cell of kind `tile` whose tile is named `name`:
/// open ground takes its theme from the name (lava or volcanic red, ice,
/// snow or frozen pale blue, water or ocean blue, else grass green); walls
/// are grey, traps red, checkpoints amber and the goal gold.
pub open spec fn spec_minimap_color(tile: TileType, name: Seq<char>) -> Color {
    match tile {
        TileType::Passable => if has_sub(name, "lava"@) || has_sub(name, "volcanic"@) {
            Color { r: 200, g: 60, b: 30, a: 255 }
        } else if has_sub(name, "ice"@) || has_sub(name, "snow"@) || has_sub(name, "frozen"@) {
            Color { r: 150, g: 200, b: 220, a: 255 }
        } else if has_sub(name, "water"@) || has_sub(name, "ocean"@) {
            Color { r: 60, g: 120, b: 200, a: 255 }
        } else {
            Color { r: 60, g: 180, b: 60, a: 255 }
        },
        TileType::Solid => Color { r: 100, g: 100, b: 100, a: 255 },
        TileType::Trap => Color { r: 200, g: 60, b: 30, a: 255 },
        TileType::Checkpoint => Color { r: 255, g: 200, b: 0, a: 255 },
        TileType::Goal => Color { r: 255, g: 215, b: 0, a: 255 },
    }
}

pub fn minimap_color(tile: TileType, name: &str) -> (r: Color)
    ensures
        r == spec_minimap_color(tile, name@),
{
    match tile {
        TileType::Passable => {
            if contains_str(name, "lava") || contains_str(name, "volcanic") {
                Color { r: 200, g: 60, b: 30, a: 255 }
            } else if contains_str(name, "ice") || contains_str(name, "snow") || contains_str(name, "frozen") {
                Color { r: 150, g: 200, b: 220, a: 255 }
            } else if contains_str(name, "water") || contains_str(name, "ocean") {
                Color { r: 60, g: 120, b: 200, a: 255 }
            } else {
                Color { r: 60, g: 180, b: 60, a: 255 }
            }
        },
        TileType::Solid => Color { r: 100, g: 100, b: 100, a: 255 },
        TileType::Trap => Color { r: 200, g: 60, b: 30, a: 255 },
        TileType::Checkpoint => Color { r: 255, g: 200, b: 0, a: 255 },
        TileType::Goal => Color { r: 255, g: 215, b: 0, a: 255 },
    }
}

} // verus!
