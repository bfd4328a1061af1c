//! Character sprites drawn into a 3x3 grid of 64x64 frames: the two players
//! as `@` (blue, red) and the NPC as `?` (purple), on a dark background.
use vstd::prelude::*;
use crate::canvas::{Px, RgbaCanvas, canvas_dims, canvas_pixels, raw_bytes};
use crate::tiles::{at, shaped, paint};

verus! {

/// Side of one frame in pixels.
pub const FRAME_SIZE: u32 = 64;
/// Side of the whole sheet in pixels (three frames).
pub const SHEET_SIZE: u32 = 192;

/// The background colour of the sheet.
pub open spec fn backdrop() -> Px {
    (0x20u8, 0x20u8, 0x40u8, 0xFFu8)
}

/// `c` is the character sheet's canvas.
pub open spec fn square(c: RgbaCanvas) -> bool {
    shaped(c, SHEET_SIZE as int, SHEET_SIZE as int)
}

/// A pixel of the sheet.
pub open spec fn on_sheet(x: int, y: int) -> bool {
    0 <= x < SHEET_SIZE && 0 <= y < SHEET_SIZE
}

proof fn lemma_put(before: RgbaCanvas, after: RgbaCanvas, px: int, py: int, color: Px)
    requires
        square(before),
        on_sheet(px, py),
        canvas_dims(after) == canvas_dims(before),
        canvas_pixels(after) == canvas_pixels(before).update(py * SHEET_SIZE + px, color),
    ensures
        square(after),
        forall|x: int, y: int| on_sheet(x, y) ==> #[trigger] at(after, x, y) == if x == px && y == py {
            color
        } else {
            at(before, x, y)
        },
{
    assert forall|x: int, y: int| on_sheet(x, y) implies #[trigger] at(after, x, y) == if x == px && y
        == py {
        color
    } else {
        at(before, x, y)
    } by {
        assert(0 <= y * 192 + x < 192 * 192);
        if x != px || y != py {
            assert(y * 192 + x != py * 192 + px);
        }
    }
}

/// `|v|`.
pub open spec fn abs(v: int) -> int {
    if v >= 0 {
        v
    } else {
        -v
    }
}

/// The ring of `@`, relative to its centre: the squared distance `d` from
/// the centre differs from `18 * 18` by less than six tenths of it.
pub open spec fn in_at_ring(dx: int, dy: int) -> bool {
    abs(dx) <= 18 && abs(dy) <= 18 && 5 * abs(dx * dx + dy * dy - 324) < 3 * 324
}

/// The hole of `@`, relative to its centre.
pub open spec fn in_at_hole(dx: int, dy: int) -> bool {
    abs(dx) <= 10 && abs(dy) <= 10 && dx * dx + dy * dy < 100
}

/// The open curve of `?`, relative to its centre: squared distance within
/// seven tenths of `14 * 14`, and left of `dx = 4`.
pub open spec fn in_q_curve(dx: int, dy: int) -> bool {
    abs(dx) <= 14 && abs(dy) <= 14 && 10 * abs(dx * dx + dy * dy - 196) < 7 * 196 && dx < 4
}

/// The dot of `?`, relative to its centre.
pub open spec fn in_q_dot(dx: int, dy: int) -> bool {
    abs(dx) <= 4 && abs(dy) <= 4 && dx * dx + dy * dy < 16
}

/// The colour a glyph gives the frame-local pixel `(lx, ly)`; `None` where
/// it leaves the pixel as it was. Other characters draw nothing.
pub open spec fn glyph_color(ch: char, color: Px, lx: int, ly: int) -> Option<Px> {
    if ch == '@' {
        if lx == 40 && 36 <= ly < 44 {
            Some(color)
        } else if in_at_hole(lx - 32, ly - 28) {
            Some(backdrop())
        } else if in_at_ring(lx - 32, ly - 28) {
            Some(color)
        } else {
            None
        }
    } else if ch == '?' {
        if in_q_dot(lx - 32, ly - 48) || (lx == 28 && 30 <= ly < 44) || in_q_curve(lx - 32, ly - 22) {
            Some(color)
        } else {
            None
        }
    } else {
        None
    }
}

/// The colour a glyph drawn in frame `(col, row)` gives the sheet pixel `(x, y)`.
pub open spec fn frame_color(col: int, row: int, ch: char, color: Px, x: int, y: int) -> Option<Px> {
    let lx = x - col * 64;
    let ly = y - row * 64;
    if 0 <= lx < 64 && 0 <= ly < 64 {
        glyph_color(ch, color, lx, ly)
    } else {
        None
    }
}

/// Write, for each `(dx, dy)` with `|dx|, |dy| <= r` and `shape(dx, dy)`,
/// the pixel `(cx + dx, cy + dy)`. `kind` picks the shape: 0 the ring of
/// `@`, 1 its hole, 2 the curve of `?`, 3 the dot of `?`.
pub open spec fn blob(kind: int, dx: int, dy: int) -> bool {
    if kind == 0 {
        in_at_ring(dx, dy)
    } else if kind == 1 {
        in_at_hole(dx, dy)
    } else if kind == 2 {
        in_q_curve(dx, dy)
    } else {
        in_q_dot(dx, dy)
    }
}

/// Whether `(dx, dy)` belongs to shape `kind` (see `blob`).
fn blob_has(kind: u32, dx: i32, dy: i32) -> (r: bool)
    requires
        -20 <= dx <= 20,
        -20 <= dy <= 20,
    ensures
        r == blob(kind as int, dx as int, dy as int),
{
    let adx = if dx >= 0 { dx } else { -dx };
    let ady = if dy >= 0 { dy } else { -dy };
    proof {
        assert(0 <= dx * dx <= 400) by (nonlinear_arith)
            requires
                -20 <= dx <= 20,
        ;
        assert(0 <= dy * dy <= 400) by (nonlinear_arith)
            requires
                -20 <= dy <= 20,
        ;
    }
    let d = dx * dx + dy * dy;
    if kind == 0 {
        let diff = if d >= 324 { d - 324 } else { 324 - d };
        adx <= 18 && ady <= 18 && 5 * diff < 3 * 324
    } else if kind == 1 {
        adx <= 10 && ady <= 10 && d < 100
    } else if kind == 2 {
        let diff = if d >= 196 { d - 196 } else { 196 - d };
        adx <= 14 && ady <= 14 && 10 * diff < 7 * 196 && dx < 4
    } else {
        adx <= 4 && ady <= 4 && d < 16
    }
}

/// Write `color` at `(cx + dx, cy + dy)` for every `(dx, dy)` in the square
/// `|dx|, |dy| <= r` that lies in shape `kind` and inside the frame whose
/// corner is `(ox, oy)`.
fn draw_blob(img: &mut RgbaCanvas, ox: u32, oy: u32, cx: i32, cy: i32, r: i32, kind: u32, color: Px)
    requires
        square(*old(img)),
        ox + 64 <= SHEET_SIZE,
        oy + 64 <= SHEET_SIZE,
        0 <= cx - r,
        0 <= cy - r,
        cx + r < 1000,
        cy + r < 1000,
        0 < r <= 18,
    ensures
        square(*final(img)),
        forall|x: int, y: int| on_sheet(x, y) ==> #[trigger] at(*final(img), x, y) == if abs(x - cx)
            <= r && abs(y - cy) <= r && blob(kind as int, x - cx, y - cy) && ox <= x < ox + 64 && oy <= y
            < oy + 64 {
            color
        } else {
            at(*old(img), x, y)
        },
{
    let ghost img0 = *old(img);
    let mut dy: i32 = -r;
    while dy <= r
        invariant
            square(img0),
            square(*img),
            ox + 64 <= SHEET_SIZE,
            oy + 64 <= SHEET_SIZE,
            0 <= cx - r,
            0 <= cy - r,
            cx + r < 1000,
            cy + r < 1000,
            0 < r <= 18,
            -r <= dy <= r + 1,
            forall|x: int, y: int| on_sheet(x, y) ==> #[trigger] at(*img, x, y) == if abs(x - cx) <= r
                && -r <= y - cy < dy && blob(kind as int, x - cx, y - cy) && ox <= x < ox + 64 && oy <= y
                < oy + 64 {
                color
            } else {
                at(img0, x, y)
            },
        decreases r + 1 - dy,
    {
        let ghost row0 = *img;
        let mut dx: i32 = -r;
        while dx <= r
            invariant
                square(img0),
                square(row0),
                square(*img),
                ox + 64 <= SHEET_SIZE,
                oy + 64 <= SHEET_SIZE,
                0 <= cx - r,
                0 <= cy - r,
                cx + r < 1000,
                cy + r < 1000,
                0 < r <= 18,
                -r <= dy <= r,
                -r <= dx <= r + 1,
                forall|x: int, y: int| on_sheet(x, y) ==> #[trigger] at(*img, x, y) == if y - cy == dy
                    && -r <= x - cx < dx && blob(kind as int, x - cx, y - cy) && ox <= x < ox + 64 && oy
                    <= y < oy + 64 {
                    color
                } else {
                    at(row0, x, y)
                },
            decreases r + 1 - dx,
        {
            let ghost before = *img;
            if blob_has(kind, dx, dy) {
                let px = cx + dx;
                let py = cy + dy;
                if px >= ox as i32 && px < (ox + 64) as i32 && py >= oy as i32 && py < (oy + 64) as i32 {
                    img.put_pixel(px as u32, py as u32, color);
                    proof {
                        lemma_put(before, *img, px as int, py as int, color);
                    }
                }
            }
            dx = dx + 1;
        }
        dy = dy + 1;
    }
}

/// Write `color` on the vertical run `(x, y0 .. y0 + n)`, inside the frame
/// whose top is `oy`.
fn draw_column(img: &mut RgbaCanvas, x: u32, y0: u32, n: u32, oy: u32, color: Px)
    requires
        square(*old(img)),
        x < SHEET_SIZE,
        oy + 64 <= SHEET_SIZE,
        y0 + n < 1000,
    ensures
        square(*final(img)),
        forall|xx: int, yy: int| on_sheet(xx, yy) ==> #[trigger] at(*final(img), xx, yy) == if xx == x
            && y0 <= yy < y0 + n && oy <= yy < oy + 64 {
            color
        } else {
            at(*old(img), xx, yy)
        },
{
    let ghost img0 = *old(img);
    let mut i: u32 = 0;
    while i < n
        invariant
            square(img0),
            square(*img),
            x < SHEET_SIZE,
            oy + 64 <= SHEET_SIZE,
            y0 + n < 1000,
            i <= n,
            forall|xx: int, yy: int| on_sheet(xx, yy) ==> #[trigger] at(*img, xx, yy) == if xx == x && y0
                <= yy < y0 + i && oy <= yy < oy + 64 {
                color
            } else {
                at(img0, xx, yy)
            },
        decreases n - i,
    {
        let ghost before = *img;
        let py = y0 + i;
        if py >= oy && py < oy + 64 {
            img.put_pixel(x, py, color);
            proof {
                lemma_put(before, *img, x as int, py as int, color);
            }
        }
        i = i + 1;
    }
}

/// Draw character `ch` into frame `(col, row)`: `@` as a ring with a hole
/// and a tail, `?` as an open curve, a stem and a dot; other characters
/// draw nothing.
fn draw_character(img: &mut RgbaCanvas, col: u32, row: u32, ch: char, color: Px)
    requires
        square(*old(img)),
        col < 3,
        row < 3,
    ensures
        square(*final(img)),
        forall|x: int, y: int| on_sheet(x, y) ==> #[trigger] at(*final(img), x, y) == paint(
            frame_color(col as int, row as int, ch, color, x, y),
            at(*old(img), x, y),
        ),
{
    let ox = col * FRAME_SIZE;
    let oy = row * FRAME_SIZE;
    let cx = ox + FRAME_SIZE / 2;
    let cy = oy + FRAME_SIZE / 2;
    let ghost s0 = *old(img);
    if ch == '@' {
        draw_blob(img, ox, oy, cx as i32, cy as i32 - 4, 18, 0, color);
        let ghost s1 = *img;
        draw_blob(img, ox, oy, cx as i32, cy as i32 - 4, 10, 1, (0x20, 0x20, 0x40, 0xFF));
        let ghost s2 = *img;
        draw_column(img, cx + 8, cy + 4, 8, oy, color);
        proof {
            assert forall|x: int, y: int| on_sheet(x, y) implies #[trigger] at(*img, x, y) == paint(
                frame_color(col as int, row as int, ch, color, x, y),
                at(s0, x, y),
            ) by {
                let _a = at(s1, x, y);
                let _b = at(s2, x, y);
            }
        }
    } else if ch == '?' {
        draw_blob(img, ox, oy, cx as i32, cy as i32 - 10, 14, 2, color);
        let ghost s1 = *img;
        draw_column(img, cx - 4, cy - 2, 14, oy, color);
        let ghost s2 = *img;
        draw_blob(img, ox, oy, cx as i32, cy as i32 + 16, 4, 3, color);
        proof {
            assert forall|x: int, y: int| on_sheet(x, y) implies #[trigger] at(*img, x, y) == paint(
                frame_color(col as int, row as int, ch, color, x, y),
                at(s0, x, y),
            ) by {
                let _a = at(s1, x, y);
                let _b = at(s2, x, y);
            }
        }
    }
}

/// The sheet's pixel at `(x, y)`: the glyph of its frame over the backdrop.
pub open spec fn character_pixel(x: int, y: int) -> Px {
    let col = x / 64;
    let row = y / 64;
    let o = if row == 0 && col <= 2 {
        frame_color(col, 0, '@', (0x44, 0x88, 0xFF, 0xFF), x, y)
    } else if row == 1 && col <= 2 {
        frame_color(col, 1, '@', (0xFF, 0x44, 0x44, 0xFF), x, y)
    } else if row == 2 && col == 0 {
        frame_color(0, 2, '?', (0xAA, 0x44, 0xFF, 0xFF), x, y)
    } else {
        None
    };
    paint(o, backdrop())
}

/// All pixels of the character sheet, row by row.
pub open spec fn character_pixels() -> Seq<Px> {
    Seq::new((SHEET_SIZE * SHEET_SIZE) as nat, |i: int| character_pixel(i % 192, i / 192))
}

/// The character sheet as RGBA bytes, 192x192: row 0 player 1 (idle and two
/// run frames), row 1 player 2, row 2 the NPC in its first frame.
pub fn generate_characters_sprite_sheet() -> (r: Vec<u8>)
    ensures
        r@ == raw_bytes(character_pixels()),
{
    let mut img = RgbaCanvas::new(SHEET_SIZE, SHEET_SIZE);
    let mut y: u32 = 0;
    while y < SHEET_SIZE
        invariant
            square(img),
            y <= SHEET_SIZE,
            forall|xx: int, yy: int| on_sheet(xx, yy) ==> #[trigger] at(img, xx, yy) == if yy < y {
                backdrop()
            } else {
                (0u8, 0u8, 0u8, 0u8)
            },
        decreases SHEET_SIZE - y,
    {
        let mut x: u32 = 0;
        let ghost row0 = img;
        while x < SHEET_SIZE
            invariant
                square(row0),
                square(img),
                y < SHEET_SIZE,
                x <= SHEET_SIZE,
                forall|xx: int, yy: int| on_sheet(xx, yy) ==> #[trigger] at(img, xx, yy) == if yy == y
                    && xx < x {
                    backdrop()
                } else {
                    at(row0, xx, yy)
                },
            decreases SHEET_SIZE - x,
        {
            let ghost before = img;
            img.put_pixel(x, y, (0x20, 0x20, 0x40, 0xFF));
            proof {
                lemma_put(before, img, x as int, y as int, (0x20, 0x20, 0x40, 0xFF));
            }
            x = x + 1;
        }
        y = y + 1;
    }
    let ghost s0 = img;
    draw_character(&mut img, 0, 0, '@', (0x44, 0x88, 0xFF, 0xFF));
    let ghost s1 = img;
    draw_character(&mut img, 1, 0, '@', (0x44, 0x88, 0xFF, 0xFF));
    let ghost s2 = img;
    draw_character(&mut img, 2, 0, '@', (0x44, 0x88, 0xFF, 0xFF));
    let ghost s3 = img;
    draw_character(&mut img, 0, 1, '@', (0xFF, 0x44, 0x44, 0xFF));
    let ghost s4 = img;
    draw_character(&mut img, 1, 1, '@', (0xFF, 0x44, 0x44, 0xFF));
    let ghost s5 = img;
    draw_character(&mut img, 2, 1, '@', (0xFF, 0x44, 0x44, 0xFF));
    let ghost s6 = img;
    draw_character(&mut img, 0, 2, '?', (0xAA, 0x44, 0xFF, 0xFF));
    proof {
        assert forall|x: int, y: int| on_sheet(x, y) implies #[trigger] at(img, x, y) == character_pixel(
            x,
            y,
        ) by {
            let _a = (at(s0, x, y), at(s1, x, y), at(s2, x, y), at(s3, x, y));
            let _b = (at(s4, x, y), at(s5, x, y), at(s6, x, y));
        }
        assert forall|k: int| 0 <= k < SHEET_SIZE * SHEET_SIZE implies #[trigger] canvas_pixels(img)[k]
            == character_pixels()[k] by {
            let x = k % 192;
            let y = k / 192;
            assert(k == y * 192 + x);
            let _a = at(img, x, y);
        }
        assert(canvas_pixels(img) =~= character_pixels());
    }
    img.into_raw()
}

} // verus!
