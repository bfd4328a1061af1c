//! Procedural tile sprites: ten isometric 64x32 tiles drawn side by side
//! into one RGBA strip.
use vstd::prelude::*;
use crate::canvas::{Px, RgbaCanvas, canvas_dims, canvas_pixels, raw_bytes};

verus! {

/// The colour of pixel `(x, y)` of a canvas.
pub open spec fn at(c: RgbaCanvas, x: int, y: int) -> Px {
    canvas_pixels(c)[y * canvas_dims(c).0 + x]
}

/// The canvas is `w` x `h` and holds one pixel per position.
pub open spec fn shaped(c: RgbaCanvas, w: int, h: int) -> bool {
    &&& canvas_dims(c).0 == w
    &&& canvas_dims(c).1 == h
    &&& canvas_pixels(c).len() == w * h
}

// ---------------------------------------------------------------------
// Bresenham lines
// ---------------------------------------------------------------------

/// The fixed data of a line walk: end point, extents and step signs.
pub struct LineParams {
    pub x1: int,
    pub y1: int,
    pub dx: int,
    pub dy: int,
    pub sx: int,
    pub sy: int,
}

/// The walk's data for a line from `(x0, y0)` to `(x1, y1)`.
pub open spec fn line_params(x0: int, y0: int, x1: int, y1: int) -> LineParams {
    LineParams {
        x1,
        y1,
        dx: if x1 >= x0 { x1 - x0 } else { x0 - x1 },
        dy: if y1 >= y0 { y1 - y0 } else { y0 - y1 },
        sx: if x0 < x1 { 1 } else { -1 },
        sy: if y0 < y1 { 1 } else { -1 },
    }
}

/// One step of Bresenham's walk on `(x, y, err)`; the end point stays put.
pub open spec fn line_step(s: (int, int, int), p: LineParams) -> (int, int, int) {
    if s.0 == p.x1 && s.1 == p.y1 {
        s
    } else {
        let e2 = 2 * s.2;
        let x = if e2 > -p.dy { s.0 + p.sx } else { s.0 };
        let err = if e2 > -p.dy { s.2 - p.dy } else { s.2 };
        let y = if e2 < p.dx { s.1 + p.sy } else { s.1 };
        let err2 = if e2 < p.dx { err + p.dx } else { err };
        (x, y, err2)
    }
}

/// The walk's state after `n` steps from `s`.
pub open spec fn line_state(s: (int, int, int), p: LineParams, n: nat) -> (int, int, int)
    decreases n,
{
    if n == 0 {
        s
    } else {
        line_step(line_state(s, p, (n - 1) as nat), p)
    }
}

/// The positions of the first `n` states of the walk.
pub open spec fn line_visited(s: (int, int, int), p: LineParams, n: nat) -> Set<(int, int)>
    decreases n,
{
    if n == 0 {
        Set::empty()
    } else {
        let t = line_state(s, p, (n - 1) as nat);
        line_visited(s, p, (n - 1) as nat).insert((t.0, t.1))
    }
}

/// The pixels of Bresenham's line from `(x0, y0)` to `(x1, y1)`, both ends
/// included.
pub open spec fn line_points(x0: int, y0: int, x1: int, y1: int) -> Set<(int, int)> {
    let p = line_params(x0, y0, x1, y1);
    line_visited((x0, y0, p.dx - p.dy), p, (p.dx + p.dy + 1) as nat)
}

proof fn lemma_end_stays(s: (int, int, int), p: LineParams, n: nat, m: nat)
    requires
        line_state(s, p, n).0 == p.x1,
        line_state(s, p, n).1 == p.y1,
        n <= m,
    ensures
        line_state(s, p, m) == line_state(s, p, n),
    decreases m - n,
{
    if m > n {
        lemma_end_stays(s, p, n, (m - 1) as nat);
    }
}

proof fn lemma_visited_after_end(s: (int, int, int), p: LineParams, n: nat, m: nat)
    requires
        line_state(s, p, n).0 == p.x1,
        line_state(s, p, n).1 == p.y1,
        n < m,
    ensures
        line_visited(s, p, m) == line_visited(s, p, n + 1),
    decreases m - n,
{
    if m > n + 1 {
        lemma_visited_after_end(s, p, n, (m - 1) as nat);
        lemma_end_stays(s, p, n, (m - 1) as nat);
        let t = line_state(s, p, (m - 1) as nat);
        assert(line_visited(s, p, (m - 1) as nat).contains((t.0, t.1)));
        assert(line_visited(s, p, m) =~= line_visited(s, p, (m - 1) as nat));
    }
}

/// `pt` lies in the bounding box of `(x0, y0)` and `(x1, y1)`.
pub open spec fn in_box(pt: (int, int), x0: int, y0: int, x1: int, y1: int) -> bool {
    &&& (if x0 <= x1 { x0 <= pt.0 <= x1 } else { x1 <= pt.0 <= x0 })
    &&& (if y0 <= y1 { y0 <= pt.1 <= y1 } else { y1 <= pt.1 <= y0 })
}

/// Largest coordinate the line walk takes: its error term is doubled in
/// `i32` arithmetic.
pub const LINE_COORD_MAX: u32 = 0x1FFF_FFFF;

/// Draw Bresenham's line from `(x0, y0)` to `(x1, y1)`; points outside the
/// canvas are skipped.
fn bresenham_line(img: &mut RgbaCanvas, x0: u32, y0: u32, x1: u32, y1: u32, color: Px)
    requires
        x0 <= LINE_COORD_MAX,
        y0 <= LINE_COORD_MAX,
        x1 <= LINE_COORD_MAX,
        y1 <= LINE_COORD_MAX,
        canvas_pixels(*old(img)).len() == canvas_dims(*old(img)).0 * canvas_dims(*old(img)).1,
    ensures
        canvas_dims(*final(img)) == canvas_dims(*old(img)),
        canvas_pixels(*final(img)).len() == canvas_pixels(*old(img)).len(),
        forall|x: int, y: int|
            0 <= x < canvas_dims(*old(img)).0 && 0 <= y < canvas_dims(*old(img)).1 ==> #[trigger] at(
                *final(img),
                x,
                y,
            ) == if line_points(x0 as int, y0 as int, x1 as int, y1 as int).contains((x, y)) {
                color
            } else {
                at(*old(img), x, y)
            },
        forall|pt: (int, int)| #[trigger]
            line_points(x0 as int, y0 as int, x1 as int, y1 as int).contains(pt) ==> in_box(
                pt,
                x0 as int,
                y0 as int,
                x1 as int,
                y1 as int,
            ),
{
    let ghost w = canvas_dims(*old(img)).0 as int;
    let ghost h = canvas_dims(*old(img)).1 as int;
    let ghost p = line_params(x0 as int, y0 as int, x1 as int, y1 as int);
    let ghost start = (x0 as int, y0 as int, p.dx - p.dy);
    let ghost img0 = *old(img);
    let mut cx = x0 as i32;
    let mut cy = y0 as i32;
    let tx = x1 as i32;
    let ty = y1 as i32;
    let dx = if tx >= cx { tx - cx } else { cx - tx };
    let dy = if ty >= cy { ty - cy } else { cy - ty };
    let sx: i32 = if cx < tx { 1 } else { -1 };
    let sy: i32 = if cy < ty { 1 } else { -1 };
    let mut err = dx - dy;
    let ghost mut i: nat = 0;
    let ghost mut px: int = 0;
    let ghost mut qy: int = 0;
    loop
        invariant_except_break
            forall|x: int, y: int|
                0 <= x < w && 0 <= y < h ==> #[trigger] at(*img, x, y) == if line_visited(
                    start,
                    p,
                    i,
                ).contains((x, y)) {
                    color
                } else {
                    at(img0, x, y)
                },
        invariant
            w == canvas_dims(img0).0,
            h == canvas_dims(img0).1,
            canvas_dims(*img) == canvas_dims(img0),
            canvas_pixels(img0).len() == w * h,
            canvas_pixels(*img).len() == w * h,
            p == line_params(x0 as int, y0 as int, x1 as int, y1 as int),
            start == (x0 as int, y0 as int, p.dx - p.dy),
            dx == p.dx,
            dy == p.dy,
            sx == p.sx,
            sy == p.sy,
            tx == p.x1,
            ty == p.y1,
            x0 <= LINE_COORD_MAX,
            y0 <= LINE_COORD_MAX,
            x1 <= LINE_COORD_MAX,
            y1 <= LINE_COORD_MAX,
            line_state(start, p, i) == (cx as int, cy as int, err as int),
            0 <= px <= dx,
            0 <= qy <= dy,
            cx == if sx == 1 { x0 + px } else { x0 - px },
            cy == if sy == 1 { y0 + qy } else { y0 - qy },
            err == dx - dy - px * dy + qy * dx,
            -3 * dy <= 2 * err <= 3 * dx,
            i + (dx - px) + (dy - qy) <= dx + dy,
            forall|pt: (int, int)| #[trigger]
                line_visited(start, p, i).contains(pt) ==> in_box(
                    pt,
                    x0 as int,
                    y0 as int,
                    x1 as int,
                    y1 as int,
                ),
        ensures
            canvas_dims(*img) == canvas_dims(img0),
            canvas_pixels(*img).len() == w * h,
            forall|x: int, y: int|
                0 <= x < w && 0 <= y < h ==> #[trigger] at(*img, x, y) == if line_points(
                    x0 as int,
                    y0 as int,
                    x1 as int,
                    y1 as int,
                ).contains((x, y)) {
                    color
                } else {
                    at(img0, x, y)
                },
            forall|pt: (int, int)| #[trigger]
                line_points(x0 as int, y0 as int, x1 as int, y1 as int).contains(pt) ==> in_box(
                    pt,
                    x0 as int,
                    y0 as int,
                    x1 as int,
                    y1 as int,
                ),
        decreases (dx - px) + (dy - qy),
    {
        let ghost before = *img;
        let iw = img.width();
        let ih = img.height();
        let in_x = cx >= 0 && (cx as u32) < iw;
        let in_y = cy >= 0 && (cy as u32) < ih;
        if in_x && in_y {
            proof {
                assert(0 <= cy * w + cx < w * h) by (nonlinear_arith)
                    requires
                        0 <= cx < w,
                        0 <= cy < h,
                ;
            }
            img.put_pixel(cx as u32, cy as u32, color);
            assert(canvas_pixels(*img) == canvas_pixels(before).update(cy * w + cx, color));
        } else {
            assert(*img == before);
        }
        proof {
            assert(line_visited(start, p, i + 1) == line_visited(start, p, i).insert((cx as int, cy as int)));
            assert forall|x: int, y: int| 0 <= x < w && 0 <= y < h implies #[trigger] at(*img, x, y)
                == if line_visited(start, p, i + 1).contains((x, y)) {
                color
            } else {
                at(img0, x, y)
            } by {
                if in_x && in_y {
                    if x != cx || y != cy {
                        assert(y * w + x != cy * w + cx) by (nonlinear_arith)
                            requires
                                0 <= x < w,
                                0 <= cx < w,
                                x != cx || y != cy,
                        ;
                        assert(0 <= y * w + x < w * h) by (nonlinear_arith)
                            requires
                                0 <= x < w,
                                0 <= y < h,
                        ;
                        assert(canvas_pixels(*img)[y * w + x] == canvas_pixels(before)[y * w + x]);
                        assert(at(*img, x, y) == at(before, x, y));
                    }
                } else {
                    assert(at(*img, x, y) == at(before, x, y));
                }
            }
        }
        if cx == tx && cy == ty {
            proof {
                lemma_visited_after_end(start, p, i, (p.dx + p.dy + 1) as nat);
            }
            break;
        }
        let e2 = 2 * err;
        proof {
            if px == dx && qy < dy {
                assert(dx * (qy - dy) <= -dx) by (nonlinear_arith)
                    requires
                        qy - dy <= -1,
                        dx >= 0,
                ;
                assert(dx * (qy - dy) == qy * dx - px * dy) by (nonlinear_arith)
                    requires
                        px == dx,
                ;
            }
            if qy == dy && px < dx {
                assert(dy * (dx - px) >= dy) by (nonlinear_arith)
                    requires
                        dx - px >= 1,
                        dy >= 0,
                ;
                assert(dy * (dx - px) == qy * dx - px * dy) by (nonlinear_arith)
                    requires
                        qy == dy,
                ;
            }
        }
        let ghost old_err = err as int;
        if e2 > -dy {
            err = err - dy;
            cx = cx + sx;
            proof {
                px = px + 1;
            }
        }
        if e2 < dx {
            err = err + dx;
            cy = cy + sy;
            proof {
                qy = qy + 1;
            }
        }
        proof {
            i = i + 1;
            assert(err == dx - dy - px * dy + qy * dx) by (nonlinear_arith)
                requires
                    old_err == dx - dy - (if e2 > -dy { px - 1 } else { px }) * dy + (if e2 < dx {
                        qy - 1
                    } else {
                        qy
                    }) * dx,
                    err == old_err - (if e2 > -dy { dy } else { 0 }) + (if e2 < dx { dx } else { 0 }),
            ;
        }
    }
}

// ---------------------------------------------------------------------
// The tile strip
// ---------------------------------------------------------------------

/// Width of one tile in pixels.
pub const TILE_W: u32 = 64;
/// Height of one tile in pixels.
pub const TILE_H: u32 = 32;
/// Number of tiles in the strip.
pub const TILE_COUNT: u32 = 10;
/// Width of the whole strip in pixels.
pub const SHEET_W: u32 = 640;

/// `c` is the tile strip's canvas.
pub open spec fn sheet(c: RgbaCanvas) -> bool {
    shaped(c, SHEET_W as int, TILE_H as int)
}

/// A pixel of the strip.
pub open spec fn in_sheet(x: int, y: int) -> bool {
    0 <= x < SHEET_W && 0 <= y < TILE_H
}

/// `o` painted over `base`.
pub open spec fn paint(o: Option<Px>, base: Px) -> Px {
    match o {
        Some(c) => c,
        None => base,
    }
}

proof fn lemma_step_mod(a: int, d: int, m: int)
    requires
        a % m == 0,
        0 <= d < m,
    ensures
        (a + d) % m == d,
{
    vstd::arithmetic::div_mod::lemma_add_mod_noop(a, d, m);
    vstd::arithmetic::div_mod::lemma_small_mod(d as nat, m as nat);
}

proof fn lemma_step_mod_wrap(a: int, m: int)
    requires
        a % m == 0,
        0 < m,
    ensures
        (a + m) % m == 0,
{
    vstd::arithmetic::div_mod::lemma_mod_add_multiples_vanish(a, m);
}

/// One strip pixel written: everything else stays.
proof fn lemma_put_other(before: RgbaCanvas, after: RgbaCanvas, px: int, py: int, color: Px)
    requires
        sheet(before),
        in_sheet(px, py),
        canvas_dims(after) == canvas_dims(before),
        canvas_pixels(after) == canvas_pixels(before).update(py * SHEET_W + px, color),
    ensures
        sheet(after),
        forall|x: int, y: int| in_sheet(x, y) ==> #[trigger] at(after, x, y) == if x == px && y == py {
            color
        } else {
            at(before, x, y)
        },
{
    assert forall|x: int, y: int| in_sheet(x, y) implies #[trigger] at(after, x, y) == if x == px && y
        == py {
        color
    } else {
        at(before, x, y)
    } by {
        assert(0 <= y * 640 + x < 640 * 32);
        if x != px || y != py {
            assert(y * 640 + x != py * 640 + px);
        }
    }
}

/// Write the pixels `x = start, start + step, ...` below `end` and inside
/// the tile at `off`, on row `y`.
fn fill_row(img: &mut RgbaCanvas, y: u32, start: u32, end: u32, step: u32, off: u32, color: Px)
    requires
        sheet(*old(img)),
        y < TILE_H,
        off <= start,
        off + TILE_W <= SHEET_W,
        end <= SHEET_W,
        0 < step <= 4,
    ensures
        sheet(*final(img)),
        forall|x: int, yy: int| in_sheet(x, yy) ==> #[trigger] at(*final(img), x, yy) == if yy == y
            && start <= x < end && x < off + TILE_W && (x - start) % (step as int) == 0 {
            color
        } else {
            at(*old(img), x, yy)
        },
{
    let ghost img0 = *old(img);
    let mut x = start;
    proof {
        vstd::arithmetic::div_mod::lemma_small_mod(0, step as nat);
    }
    while x < end
        invariant
            sheet(img0),
            sheet(*img),
            y < TILE_H,
            off <= start <= x,
            off + TILE_W <= SHEET_W,
            end <= SHEET_W,
            x == start || x < end + step,
            0 < step <= 4,
            (x - start) % (step as int) == 0,
            forall|xx: int, yy: int| in_sheet(xx, yy) ==> #[trigger] at(*img, xx, yy) == if yy == y
                && start <= xx < x && xx < end && xx < off + TILE_W && (xx - start) % (step as int)
                == 0 {
                color
            } else {
                at(img0, xx, yy)
            },
        decreases end + step - x,
    {
        let ghost before = *img;
        if x < off + TILE_W {
            img.put_pixel(x, y, color);
            proof {
                lemma_put_other(before, *img, x as int, y as int, color);
            }
        }
        proof {
            assert forall|xx: int, yy: int| in_sheet(xx, yy) implies #[trigger] at(*img, xx, yy) == if yy
                == y && start <= xx < x + step && xx < end && xx < off + TILE_W && (xx - start) % (
            step as int) == 0 {
                color
            } else {
                at(img0, xx, yy)
            } by {
                if x <= xx < x + step {
                    lemma_step_mod(x - start, xx - x, step as int);
                }
            }
            lemma_step_mod_wrap(x - start, step as int);
        }
        x = x + step;
    }
}

/// Write the pixels `start <= x < end` inside the tile at `off`, on row `y`.
fn fill_span(img: &mut RgbaCanvas, y: u32, start: u32, end: u32, off: u32, color: Px)
    requires
        sheet(*old(img)),
        y < TILE_H,
        off <= start,
        off + TILE_W <= SHEET_W,
        end <= SHEET_W,
    ensures
        sheet(*final(img)),
        forall|x: int, yy: int| in_sheet(x, yy) ==> #[trigger] at(*final(img), x, yy) == if yy == y
            && start <= x < end && x < off + TILE_W {
            color
        } else {
            at(*old(img), x, yy)
        },
{
    let ghost img0 = *old(img);
    let mut x = start;
    while x < end
        invariant
            sheet(img0),
            sheet(*img),
            y < TILE_H,
            off <= start <= x,
            off + TILE_W <= SHEET_W,
            end <= SHEET_W,
            x == start || x <= end,
            forall|xx: int, yy: int| in_sheet(xx, yy) ==> #[trigger] at(*img, xx, yy) == if yy == y
                && start <= xx < x && xx < end && xx < off + TILE_W {
                color
            } else {
                at(img0, xx, yy)
            },
        decreases end - x,
    {
        let ghost before = *img;
        if x < off + TILE_W {
            img.put_pixel(x, y, color);
            proof {
                lemma_put_other(before, *img, x as int, y as int, color);
            }
        }
        x = x + 1;
    }
}

/// Whether `(lx, ly)` is one of `pts`.
pub open spec fn has_point(pts: Seq<(u32, u32)>, lx: int, ly: int) -> bool
    decreases pts.len(),
{
    if pts.len() == 0 {
        false
    } else {
        (pts.last().0 == lx && pts.last().1 == ly) || has_point(pts.drop_last(), lx, ly)
    }
}

/// Write the tile-local points `pts` of the tile at `off`.
fn put_points(img: &mut RgbaCanvas, off: u32, pts: &[(u32, u32)], color: Px)
    requires
        sheet(*old(img)),
        off + TILE_W <= SHEET_W,
    ensures
        sheet(*final(img)),
        forall|x: int, y: int| in_sheet(x, y) ==> #[trigger] at(*final(img), x, y) == if off <= x < off
            + TILE_W && has_point(pts@, x - off, y) {
            color
        } else {
            at(*old(img), x, y)
        },
{
    let ghost img0 = *old(img);
    let mut i: usize = 0;
    while i < pts.len()
        invariant
            sheet(img0),
            sheet(*img),
            off + TILE_W <= SHEET_W,
            i <= pts@.len(),
            forall|x: int, y: int| in_sheet(x, y) ==> #[trigger] at(*img, x, y) == if off <= x < off
                + TILE_W && has_point(pts@.take(i as int), x - off, y) {
                color
            } else {
                at(img0, x, y)
            },
        decreases pts@.len() - i,
    {
        let ghost before = *img;
        let (px, py) = pts[i];
        if px < TILE_W && py < TILE_H {
            img.put_pixel(off + px, py, color);
            proof {
                lemma_put_other(before, *img, off + px, py as int, color);
            }
        }
        proof {
            let t = pts@.take(i + 1);
            assert(t.drop_last() =~= pts@.take(i as int));
            assert(t.last() == (px, py));
        }
        i = i + 1;
    }
    assert(pts@.take(pts@.len() as int) =~= pts@);
}

/// Write the upper-left edge of the tile at `off` (and the upper-right one
/// when `both`).
fn edge_highlight(img: &mut RgbaCanvas, off: u32, both: bool, color: Px)
    requires
        sheet(*old(img)),
        off + TILE_W <= SHEET_W,
    ensures
        sheet(*final(img)),
        forall|x: int, y: int| in_sheet(x, y) ==> #[trigger] at(*final(img), x, y) == if y < 16 && (x
            == off + 31 - y || (both && x == off + 32 + y)) {
            color
        } else {
            at(*old(img), x, y)
        },
{
    let ghost img0 = *old(img);
    let mut y: u32 = 0;
    while y < 16
        invariant
            sheet(img0),
            sheet(*img),
            off + TILE_W <= SHEET_W,
            y <= 16,
            forall|xx: int, yy: int| in_sheet(xx, yy) ==> #[trigger] at(*img, xx, yy) == if yy < y && (xx
                == off + 31 - yy || (both && xx == off + 32 + yy)) {
                color
            } else {
                at(img0, xx, yy)
            },
        decreases 16 - y,
    {
        let half_w = y + 1;
        let left_x = off + (TILE_W / 2) - half_w;
        let right_x = off + (TILE_W / 2) + half_w - 1;
        let ghost before = *img;
        if left_x < off + TILE_W {
            img.put_pixel(left_x, y, color);
            proof {
                lemma_put_other(before, *img, left_x as int, y as int, color);
            }
        }
        let ghost mid = *img;
        if both && right_x < off + TILE_W && right_x >= off {
            img.put_pixel(right_x, y, color);
            proof {
                lemma_put_other(mid, *img, right_x as int, y as int, color);
            }
        }
        y = y + 1;
    }
}

/// Where a row of the diamond starts, in tile coordinates.
pub open spec fn row_start(ly: int) -> int {
    if ly < 16 {
        31 - ly
    } else {
        ly
    }
}

/// The isometric diamond of a tile, in tile coordinates.
pub open spec fn in_diamond(lx: int, ly: int) -> bool {
    0 <= ly < TILE_H && row_start(ly) <= lx < 64 - row_start(ly)
}

/// Fill the isometric diamond of the tile at `off`.
fn fill_diamond(img: &mut RgbaCanvas, off: u32, color: Px)
    requires
        sheet(*old(img)),
        off + TILE_W <= SHEET_W,
    ensures
        sheet(*final(img)),
        forall|x: int, y: int| in_sheet(x, y) ==> #[trigger] at(*final(img), x, y) == if off <= x
            && in_diamond(x - off, y) {
            color
        } else {
            at(*old(img), x, y)
        },
{
    let ghost img0 = *old(img);
    let mut y: u32 = 0;
    while y < 32
        invariant
            sheet(img0),
            sheet(*img),
            off + TILE_W <= SHEET_W,
            y <= 32,
            forall|xx: int, yy: int| in_sheet(xx, yy) ==> #[trigger] at(*img, xx, yy) == if yy < y && off
                <= xx && in_diamond(xx - off, yy) {
                color
            } else {
                at(img0, xx, yy)
            },
        decreases 32 - y,
    {
        let half_w = if y < 16 { y + 1 } else { 32 - y };
        let start_x = off + (TILE_W / 2) - half_w;
        fill_span(img, y, start_x, start_x + half_w * 2, off, color);
        y = y + 1;
    }
}

/// The star of the goal tile: within `12` steps of its centre, counting
/// horizontal and vertical steps.
pub open spec fn in_star(dx: int, dy: int) -> bool {
    (if dx >= 0 { dx } else { -dx }) + (if dy >= 0 { dy } else { -dy }) <= 12
}

/// Whether `(px, py)` is within `outer_r` steps of `(cx, cy)`, counting
/// horizontal and vertical steps. The last argument is not used.
pub fn is_point_in_star(px: u32, py: u32, cx: u32, cy: u32, outer_r: u32, _inner_r: u32) -> (r: bool)
    requires
        px <= i32::MAX,
        py <= i32::MAX,
        cx <= i32::MAX,
        cy <= i32::MAX,
    ensures
        r == ((if px >= cx { px - cx } else { cx - px }) + (if py >= cy { py - cy } else { cy - py })
            <= outer_r),
{
    let dx = if px >= cx { px - cx } else { cx - px };
    let dy = if py >= cy { py - cy } else { cy - py };
    (dx as u64) + (dy as u64) <= outer_r as u64
}

/// Write the star pixels of the square `|x - cx| < half`, `|y - 16| <
/// half` (upper and left bounds included) of the goal tile at `off`.
fn fill_star_block(img: &mut RgbaCanvas, off: u32, half: u32, color: Px)
    requires
        sheet(*old(img)),
        off + TILE_W <= SHEET_W,
        0 < half <= 16,
    ensures
        sheet(*final(img)),
        forall|x: int, y: int| in_sheet(x, y) ==> #[trigger] at(*final(img), x, y) == if 16 - half <= y
            < 16 + half && off + 32 - half <= x < off + 32 + half && in_star(x - off - 32, y - 16) {
            color
        } else {
            at(*old(img), x, y)
        },
{
    let ghost img0 = *old(img);
    let cx = off + 32;
    let cy: u32 = 16;
    let mut y = cy - half;
    while y < cy + half
        invariant
            sheet(img0),
            sheet(*img),
            off + TILE_W <= SHEET_W,
            0 < half <= 16,
            cx == off + 32,
            cy == 16,
            cy - half <= y <= cy + half,
            forall|xx: int, yy: int| in_sheet(xx, yy) ==> #[trigger] at(*img, xx, yy) == if 16 - half
                <= yy < y && off + 32 - half <= xx < off + 32 + half && in_star(xx - off - 32, yy - 16) {
                color
            } else {
                at(img0, xx, yy)
            },
        decreases cy + half - y,
    {
        let ghost row0 = *img;
        let mut x = cx - half;
        while x < cx + half
            invariant
                sheet(img0),
                sheet(row0),
                sheet(*img),
                off + TILE_W <= SHEET_W,
                0 < half <= 16,
                cx == off + 32,
                cy == 16,
                cy - half <= y < cy + half,
                cx - half <= x <= cx + half,
                forall|xx: int, yy: int| in_sheet(xx, yy) ==> #[trigger] at(*img, xx, yy) == if yy == y
                    && cx - half <= xx < x && in_star(xx - off - 32, yy - 16) {
                    color
                } else {
                    at(row0, xx, yy)
                },
            decreases cx + half - x,
        {
            let ghost before = *img;
            if x >= off && x < off + TILE_W && y < TILE_H {
                if is_point_in_star(x, y, cx, cy, 12, 5) {
                    img.put_pixel(x, y, color);
                    proof {
                        lemma_put_other(before, *img, x as int, y as int, color);
                    }
                }
            }
            x = x + 1;
        }
        y = y + 1;
    }
}

/// Write every `step`-th pixel of the diamond rows `y_lo <= y < y_hi` of
/// the tile at `off`, counting from the left end of each row.
fn dot_rows(img: &mut RgbaCanvas, off: u32, y_lo: u32, y_hi: u32, step: u32, color: Px)
    requires
        sheet(*old(img)),
        off + TILE_W <= SHEET_W,
        y_lo <= y_hi <= TILE_H,
        0 < step <= 4,
    ensures
        sheet(*final(img)),
        forall|x: int, y: int| in_sheet(x, y) ==> #[trigger] at(*final(img), x, y) == if y_lo <= y < y_hi
            && off <= x && in_diamond(x - off, y) && (x - off - row_start(y)) % (step as int) == 0 {
            color
        } else {
            at(*old(img), x, y)
        },
{
    let ghost img0 = *old(img);
    let mut y = y_lo;
    while y < y_hi
        invariant
            sheet(img0),
            sheet(*img),
            off + TILE_W <= SHEET_W,
            y_lo <= y <= y_hi <= TILE_H,
            0 < step <= 4,
            forall|xx: int, yy: int| in_sheet(xx, yy) ==> #[trigger] at(*img, xx, yy) == if y_lo <= yy < y
                && off <= xx && in_diamond(xx - off, yy) && (xx - off - row_start(yy)) % (step as int)
                == 0 {
                color
            } else {
                at(img0, xx, yy)
            },
        decreases y_hi - y,
    {
        let half_w = if y < 16 { y + 1 } else { 32 - y };
        let start_x = off + (TILE_W / 2) - half_w;
        fill_row(img, y, start_x, start_x + half_w * 2, step, off, color);
        y = y + 1;
    }
}

/// The plank rows of the bridge tile, from row 4 down: rows `y` with
/// `y % 4` in {0, 1} are planks, the others background.
fn plank_rows(img: &mut RgbaCanvas, off: u32, plank: Px, bg: Px)
    requires
        sheet(*old(img)),
        off + TILE_W <= SHEET_W,
    ensures
        sheet(*final(img)),
        forall|x: int, y: int| in_sheet(x, y) ==> #[trigger] at(*final(img), x, y) == if 4 <= y && off
            <= x && in_diamond(x - off, y) {
            if y % 4 == 0 || y % 4 == 1 {
                plank
            } else {
                bg
            }
        } else {
            at(*old(img), x, y)
        },
{
    let ghost img0 = *old(img);
    let mut y: u32 = 4;
    while y < TILE_H
        invariant
            sheet(img0),
            sheet(*img),
            off + TILE_W <= SHEET_W,
            4 <= y <= TILE_H,
            forall|xx: int, yy: int| in_sheet(xx, yy) ==> #[trigger] at(*img, xx, yy) == if 4 <= yy < y
                && off <= xx && in_diamond(xx - off, yy) {
                if yy % 4 == 0 || yy % 4 == 1 {
                    plank
                } else {
                    bg
                }
            } else {
                at(img0, xx, yy)
            },
        decreases TILE_H - y,
    {
        let half_w = if y < 16 { y + 1 } else { 32 - y };
        let start_x = off + (TILE_W / 2) - half_w;
        let in_plank_row = y % 4 == 0 || y % 4 == 1;
        fill_span(img, y, start_x, start_x + half_w * 2, off, if in_plank_row { plank } else { bg });
        y = y + 1;
    }
}

/// A small diamond around the centre of the tile at `off`: rows
/// `|y - 16| < reach`, each `32 - |y - 16| <= x - off < 32 + |y - 16|`.
pub open spec fn in_center_diamond(lx: int, ly: int, reach: int) -> bool {
    let d = if ly >= 16 { ly - 16 } else { 16 - ly };
    16 - reach <= ly < 16 + reach && 32 - d <= lx < 32 + d
}

/// Fill `in_center_diamond(.., reach)` of the tile at `off`.
fn fill_center_diamond(img: &mut RgbaCanvas, off: u32, reach: u32, color: Px)
    requires
        sheet(*old(img)),
        off + TILE_W <= SHEET_W,
        0 < reach <= 16,
    ensures
        sheet(*final(img)),
        forall|x: int, y: int| in_sheet(x, y) ==> #[trigger] at(*final(img), x, y) == if off <= x
            && in_center_diamond(x - off, y, reach as int) {
            color
        } else {
            at(*old(img), x, y)
        },
{
    let ghost img0 = *old(img);
    let cx = off + 32;
    let cy: u32 = 16;
    let mut y = cy - reach;
    while y < cy + reach
        invariant
            sheet(img0),
            sheet(*img),
            off + TILE_W <= SHEET_W,
            0 < reach <= 16,
            cx == off + 32,
            cy == 16,
            cy - reach <= y <= cy + reach,
            forall|xx: int, yy: int| in_sheet(xx, yy) ==> #[trigger] at(*img, xx, yy) == if yy < y && off
                <= xx && in_center_diamond(xx - off, yy, reach as int) {
                color
            } else {
                at(img0, xx, yy)
            },
        decreases cy + reach - y,
    {
        let dist = if y < cy { cy - y } else { y - cy };
        if y < TILE_H {
            fill_span(img, y, cx - dist, cx + dist, off, color);
        }
        y = y + 1;
    }
}

/// Light shade dots of the passable grass tile.
pub const GRASS_PATTERN: [(u32, u32); 19] = [
    (8, 4),
    (16, 6),
    (24, 4),
    (40, 4),
    (48, 6),
    (56, 4),
    (12, 10),
    (20, 12),
    (28, 10),
    (36, 12),
    (44, 10),
    (52, 12),
    (8, 18),
    (16, 16),
    (24, 18),
    (32, 14),
    (40, 18),
    (48, 16),
    (56, 18),
];

/// Flow texture of the lava trap.
pub const LAVA_PATTERN: [(u32, u32); 16] = [
    (20, 6),
    (36, 8),
    (52, 6),
    (28, 12),
    (44, 14),
    (16, 18),
    (40, 20),
    (56, 18),
    (24, 24),
    (48, 26),
    (12, 8),
    (32, 10),
    (60, 12),
    (20, 16),
    (44, 22),
    (52, 28),
];

/// Bright spots of the lava trap.
pub const LAVA_BRIGHT: [(u32, u32); 7] = [
    (28, 8),
    (44, 10),
    (24, 16),
    (48, 18),
    (36, 24),
    (20, 12),
    (52, 20),
];

/// Yellow hot spots of the lava trap.
pub const LAVA_YELLOW: [(u32, u32); 4] = [
    (32, 10),
    (40, 16),
    (28, 20),
    (48, 24),
];

/// Crystal dots of the passable ice tile.
pub const ICE_PATTERN: [(u32, u32); 12] = [
    (16, 4),
    (32, 6),
    (48, 4),
    (24, 10),
    (40, 12),
    (56, 10),
    (12, 16),
    (28, 14),
    (44, 16),
    (20, 20),
    (36, 22),
    (52, 20),
];

/// Crystal shards of the ice trap.
pub const ICE_TRAP_PATTERN: [(u32, u32); 12] = [
    (20, 4),
    (36, 8),
    (52, 4),
    (16, 12),
    (32, 14),
    (48, 12),
    (24, 18),
    (40, 20),
    (56, 18),
    (12, 22),
    (28, 24),
    (44, 22),
];

/// Bright crystal tips of the ice trap.
pub const ICE_TRAP_BRIGHT: [(u32, u32); 5] = [
    (28, 8),
    (44, 12),
    (24, 16),
    (40, 20),
    (52, 24),
];

/// Outline of the goal star: the circles of radius 8 to 11 around the tile
/// centre, sampled at every whole degree and truncated to pixels, where they
/// fall inside the star.
pub const GOAL_OUTLINE: [(u32, u32); 141] = [
    (21, 15),
    (21, 16),
    (21, 17),
    (22, 14),
    (22, 15),
    (22, 16),
    (22, 17),
    (22, 18),
    (23, 13),
    (23, 14),
    (23, 15),
    (23, 16),
    (23, 17),
    (23, 18),
    (23, 19),
    (24, 12),
    (24, 13),
    (24, 14),
    (24, 15),
    (24, 16),
    (24, 17),
    (24, 18),
    (24, 19),
    (24, 20),
    (25, 11),
    (25, 12),
    (25, 19),
    (25, 20),
    (25, 21),
    (26, 10),
    (26, 21),
    (26, 22),
    (27, 9),
    (27, 22),
    (27, 23),
    (28, 8),
    (28, 9),
    (28, 22),
    (28, 23),
    (28, 24),
    (29, 7),
    (29, 8),
    (29, 23),
    (29, 24),
    (29, 25),
    (30, 6),
    (30, 7),
    (30, 8),
    (30, 23),
    (30, 24),
    (30, 25),
    (30, 26),
    (31, 5),
    (31, 6),
    (31, 7),
    (31, 8),
    (31, 23),
    (31, 24),
    (31, 25),
    (31, 26),
    (32, 5),
    (32, 6),
    (32, 7),
    (32, 8),
    (32, 23),
    (32, 24),
    (32, 25),
    (32, 26),
    (32, 27),
    (33, 5),
    (33, 6),
    (33, 7),
    (33, 8),
    (33, 23),
    (33, 24),
    (33, 25),
    (33, 26),
    (34, 6),
    (34, 7),
    (34, 8),
    (34, 23),
    (34, 24),
    (34, 25),
    (34, 26),
    (35, 7),
    (35, 8),
    (35, 9),
    (35, 22),
    (35, 23),
    (35, 24),
    (35, 25),
    (36, 8),
    (36, 9),
    (36, 22),
    (36, 23),
    (36, 24),
    (37, 9),
    (37, 10),
    (37, 21),
    (37, 22),
    (37, 23),
    (38, 10),
    (38, 11),
    (38, 12),
    (38, 19),
    (38, 20),
    (38, 21),
    (38, 22),
    (39, 11),
    (39, 12),
    (39, 13),
    (39, 14),
    (39, 15),
    (39, 16),
    (39, 17),
    (39, 18),
    (39, 19),
    (39, 20),
    (39, 21),
    (40, 12),
    (40, 13),
    (40, 14),
    (40, 15),
    (40, 16),
    (40, 17),
    (40, 18),
    (40, 19),
    (40, 20),
    (41, 13),
    (41, 14),
    (41, 15),
    (41, 16),
    (41, 17),
    (41, 18),
    (41, 19),
    (42, 14),
    (42, 15),
    (42, 16),
    (42, 17),
    (42, 18),
    (43, 16),
];

/// The kinds of tile in the strip.
#[derive(Debug, Clone, Copy, PartialEq, Eq, Structural)]
pub enum TileKind {
    GrassPassable,
    GrassSolid,
    StoneSolid,
    LavaTrap,
    IcePassable,
    BridgePassable,
    SnowSolid,
    IceTrap,
    Checkpoint,
    Goal,
}

/// The tile in slot `i` of the strip, left to right.
pub open spec fn kind_at(i: int) -> TileKind {
    if i == 0 {
        TileKind::GrassPassable
    } else if i == 1 {
        TileKind::GrassSolid
    } else if i == 2 {
        TileKind::StoneSolid
    } else if i == 3 {
        TileKind::LavaTrap
    } else if i == 4 {
        TileKind::IcePassable
    } else if i == 5 {
        TileKind::BridgePassable
    } else if i == 6 {
        TileKind::SnowSolid
    } else if i == 7 {
        TileKind::IceTrap
    } else if i == 8 {
        TileKind::Checkpoint
    } else {
        TileKind::Goal
    }
}

/// The name of each tile, in strip order.
pub const TILE_NAMES: [&'static str; 10] = [
    "grass_passable",
    "grass_solid",
    "stone_solid",
    "lava_trap",
    "ice_passable",
    "bridge_passable",
    "snow_solid",
    "ice_trap",
    "checkpoint",
    "goal",
];

/// The tile in slot `i` of the strip, left to right.
pub fn tile_kind(i: u32) -> (k: TileKind)
    requires
        i < TILE_COUNT,
    ensures
        k == kind_at(i as int),
{
    if i == 0 {
        TileKind::GrassPassable
    } else if i == 1 {
        TileKind::GrassSolid
    } else if i == 2 {
        TileKind::StoneSolid
    } else if i == 3 {
        TileKind::LavaTrap
    } else if i == 4 {
        TileKind::IcePassable
    } else if i == 5 {
        TileKind::BridgePassable
    } else if i == 6 {
        TileKind::SnowSolid
    } else if i == 7 {
        TileKind::IceTrap
    } else if i == 8 {
        TileKind::Checkpoint
    } else {
        TileKind::Goal
    }
}

/// Both upper edges of the diamond.
pub open spec fn both_edges(lx: int, ly: int) -> bool {
    ly < 16 && (lx == 31 - ly || lx == 32 + ly)
}

/// The upper-left edge of the diamond.
pub open spec fn left_edge(lx: int, ly: int) -> bool {
    ly < 16 && lx == 31 - ly
}

/// Every `step`-th pixel of a diamond row, from its left end.
pub open spec fn dotted(lx: int, ly: int, step: int) -> bool {
    in_diamond(lx, ly) && (lx - row_start(ly)) % step == 0
}

/// The colour a tile gives the strip pixel `(x, y)` when drawn at `off`;
/// `None` where it leaves the pixel as it was.
pub open spec fn tile_color(kind: TileKind, off: int, x: int, y: int) -> Option<Px> {
    let lx = x - off;
    let ly = y;
    if !(0 <= lx < TILE_W) {
        None
    } else {
        match kind {
            TileKind::GrassPassable => if both_edges(lx, ly) {
                Some((60, 140, 60, 255))
            } else if has_point(GRASS_PATTERN@, lx, ly) {
                Some((50, 120, 50, 255))
            } else if in_diamond(lx, ly) {
                Some((30, 80, 30, 255))
            } else {
                None
            },
            TileKind::GrassSolid => if both_edges(lx, ly) {
                Some((40, 100, 40, 255))
            } else if ly < 16 && dotted(lx, ly, 2) {
                Some((30, 80, 30, 255))
            } else if in_diamond(lx, ly) {
                Some((20, 60, 20, 255))
            } else {
                None
            },
            TileKind::StoneSolid => if left_edge(lx, ly) {
                Some((130, 130, 135, 255))
            } else if dotted(lx, ly, 3) {
                Some((100, 100, 105, 255))
            } else if in_diamond(lx, ly) {
                Some((80, 80, 85, 255))
            } else {
                None
            },
            TileKind::LavaTrap => if has_point(LAVA_YELLOW@, lx, ly) {
                Some((255, 200, 0, 255))
            } else if has_point(LAVA_BRIGHT@, lx, ly) {
                Some((255, 120, 0, 255))
            } else if has_point(LAVA_PATTERN@, lx, ly) {
                Some((220, 80, 0, 255))
            } else if in_diamond(lx, ly) {
                Some((180, 50, 0, 255))
            } else {
                None
            },
            TileKind::IcePassable => if both_edges(lx, ly) {
                Some((220, 240, 250, 255))
            } else if has_point(ICE_PATTERN@, lx, ly) {
                Some((180, 220, 240, 255))
            } else if in_diamond(lx, ly) {
                Some((150, 200, 220, 255))
            } else {
                None
            },
            TileKind::BridgePassable => if both_edges(lx, ly) {
                Some((140, 100, 60, 255))
            } else if 4 <= ly && in_diamond(lx, ly) && (ly % 4 == 0 || ly % 4 == 1) {
                Some((120, 85, 50, 255))
            } else if in_diamond(lx, ly) {
                Some((100, 70, 40, 255))
            } else {
                None
            },
            TileKind::SnowSolid => if left_edge(lx, ly) {
                Some((255, 255, 255, 255))
            } else if dotted(lx, ly, 4) {
                Some((220, 230, 240, 255))
            } else if in_diamond(lx, ly) {
                Some((200, 210, 220, 255))
            } else {
                None
            },
            TileKind::IceTrap => if both_edges(lx, ly) || has_point(ICE_TRAP_BRIGHT@, lx, ly) {
                Some((100, 240, 255, 255))
            } else if has_point(ICE_TRAP_PATTERN@, lx, ly) {
                Some((0, 200, 220, 255))
            } else if in_diamond(lx, ly) {
                Some((0, 150, 180, 255))
            } else {
                None
            },
            TileKind::Checkpoint => {
                let cx = off + 32;
                if line_points(cx, 6, cx + 10, 16).contains((x, y)) || line_points(cx + 10, 16, cx, 26).contains(
                    (x, y),
                ) || line_points(cx, 26, cx - 10, 16).contains((x, y)) || line_points(
                    cx - 10,
                    16,
                    cx,
                    6,
                ).contains((x, y)) {
                    Some((180, 150, 0, 255))
                } else if in_center_diamond(lx, ly, 5) {
                    Some((255, 240, 100, 255))
                } else if in_center_diamond(lx, ly, 10) {
                    Some((255, 215, 0, 255))
                } else if in_diamond(lx, ly) {
                    Some((30, 80, 30, 255))
                } else {
                    None
                }
            },
            TileKind::Goal => if has_point(GOAL_OUTLINE@, lx, ly) {
                Some((200, 180, 0, 255))
            } else if 12 <= ly < 20 && 28 <= lx < 36 && in_star(lx - 32, ly - 16) {
                Some((255, 255, 200, 255))
            } else if 4 <= ly < 28 && 20 <= lx < 44 && in_star(lx - 32, ly - 16) {
                Some((255, 255, 100, 255))
            } else if in_diamond(lx, ly) {
                Some((30, 80, 30, 255))
            } else {
                None
            },
        }
    }
}

/// Green diamond with light dots and lit upper edges.
fn draw_grass_passable(img: &mut RgbaCanvas, off: u32)
    requires
        sheet(*old(img)),
        off + TILE_W <= SHEET_W,
    ensures
        sheet(*final(img)),
        forall|x: int, y: int| in_sheet(x, y) ==> #[trigger] at(*final(img), x, y) == paint(
            tile_color(TileKind::GrassPassable, off as int, x, y),
            at(*old(img), x, y),
        ),
{
    let ghost s0 = *old(img);
    fill_diamond(img, off, (30, 80, 30, 255));
    let ghost s1 = *img;
    put_points(img, off, &GRASS_PATTERN, (50, 120, 50, 255));
    let ghost s2 = *img;
    edge_highlight(img, off, true, (60, 140, 60, 255));
    let ghost s3 = *img;
    assert forall|x: int, y: int| in_sheet(x, y) implies #[trigger] at(*img, x, y) == paint(
        tile_color(TileKind::GrassPassable, off as int, x, y),
        at(s0, x, y),
    ) by {
        let _p0 = at(s0, x, y);
        let _p1 = at(s1, x, y);
        let _p2 = at(s2, x, y);
        let _p3 = at(s3, x, y);
    }
}

/// Dark green diamond, every second pixel lighter in the upper half, lit upper edges.
fn draw_grass_solid(img: &mut RgbaCanvas, off: u32)
    requires
        sheet(*old(img)),
        off + TILE_W <= SHEET_W,
    ensures
        sheet(*final(img)),
        forall|x: int, y: int| in_sheet(x, y) ==> #[trigger] at(*final(img), x, y) == paint(
            tile_color(TileKind::GrassSolid, off as int, x, y),
            at(*old(img), x, y),
        ),
{
    let ghost s0 = *old(img);
    fill_diamond(img, off, (20, 60, 20, 255));
    let ghost s1 = *img;
    dot_rows(img, off, 0, 16, 2, (30, 80, 30, 255));
    let ghost s2 = *img;
    edge_highlight(img, off, true, (40, 100, 40, 255));
    let ghost s3 = *img;
    assert forall|x: int, y: int| in_sheet(x, y) implies #[trigger] at(*img, x, y) == paint(
        tile_color(TileKind::GrassSolid, off as int, x, y),
        at(s0, x, y),
    ) by {
        let _p0 = at(s0, x, y);
        let _p1 = at(s1, x, y);
        let _p2 = at(s2, x, y);
        let _p3 = at(s3, x, y);
    }
}

/// Grey diamond, every third pixel lighter, lit upper-left edge.
fn draw_stone_solid(img: &mut RgbaCanvas, off: u32)
    requires
        sheet(*old(img)),
        off + TILE_W <= SHEET_W,
    ensures
        sheet(*final(img)),
        forall|x: int, y: int| in_sheet(x, y) ==> #[trigger] at(*final(img), x, y) == paint(
            tile_color(TileKind::StoneSolid, off as int, x, y),
            at(*old(img), x, y),
        ),
{
    let ghost s0 = *old(img);
    fill_diamond(img, off, (80, 80, 85, 255));
    let ghost s1 = *img;
    dot_rows(img, off, 0, TILE_H, 3, (100, 100, 105, 255));
    let ghost s2 = *img;
    edge_highlight(img, off, false, (130, 130, 135, 255));
    let ghost s3 = *img;
    assert forall|x: int, y: int| in_sheet(x, y) implies #[trigger] at(*img, x, y) == paint(
        tile_color(TileKind::StoneSolid, off as int, x, y),
        at(s0, x, y),
    ) by {
        let _p0 = at(s0, x, y);
        let _p1 = at(s1, x, y);
        let _p2 = at(s2, x, y);
        let _p3 = at(s3, x, y);
    }
}

/// Red-orange diamond with flow texture, bright and yellow hot spots.
fn draw_lava_trap(img: &mut RgbaCanvas, off: u32)
    requires
        sheet(*old(img)),
        off + TILE_W <= SHEET_W,
    ensures
        sheet(*final(img)),
        forall|x: int, y: int| in_sheet(x, y) ==> #[trigger] at(*final(img), x, y) == paint(
            tile_color(TileKind::LavaTrap, off as int, x, y),
            at(*old(img), x, y),
        ),
{
    let ghost s0 = *old(img);
    fill_diamond(img, off, (180, 50, 0, 255));
    let ghost s1 = *img;
    put_points(img, off, &LAVA_PATTERN, (220, 80, 0, 255));
    let ghost s2 = *img;
    put_points(img, off, &LAVA_BRIGHT, (255, 120, 0, 255));
    let ghost s3 = *img;
    put_points(img, off, &LAVA_YELLOW, (255, 200, 0, 255));
    let ghost s4 = *img;
    assert forall|x: int, y: int| in_sheet(x, y) implies #[trigger] at(*img, x, y) == paint(
        tile_color(TileKind::LavaTrap, off as int, x, y),
        at(s0, x, y),
    ) by {
        let _p0 = at(s0, x, y);
        let _p1 = at(s1, x, y);
        let _p2 = at(s2, x, y);
        let _p3 = at(s3, x, y);
        let _p4 = at(s4, x, y);
    }
}

/// Light blue diamond with crystal dots and lit upper edges.
fn draw_ice_passable(img: &mut RgbaCanvas, off: u32)
    requires
        sheet(*old(img)),
        off + TILE_W <= SHEET_W,
    ensures
        sheet(*final(img)),
        forall|x: int, y: int| in_sheet(x, y) ==> #[trigger] at(*final(img), x, y) == paint(
            tile_color(TileKind::IcePassable, off as int, x, y),
            at(*old(img), x, y),
        ),
{
    let ghost s0 = *old(img);
    fill_diamond(img, off, (150, 200, 220, 255));
    let ghost s1 = *img;
    put_points(img, off, &ICE_PATTERN, (180, 220, 240, 255));
    let ghost s2 = *img;
    edge_highlight(img, off, true, (220, 240, 250, 255));
    let ghost s3 = *img;
    assert forall|x: int, y: int| in_sheet(x, y) implies #[trigger] at(*img, x, y) == paint(
        tile_color(TileKind::IcePassable, off as int, x, y),
        at(s0, x, y),
    ) by {
        let _p0 = at(s0, x, y);
        let _p1 = at(s1, x, y);
        let _p2 = at(s2, x, y);
        let _p3 = at(s3, x, y);
    }
}

/// Brown diamond with horizontal planks and lit upper edges.
fn draw_bridge_passable(img: &mut RgbaCanvas, off: u32)
    requires
        sheet(*old(img)),
        off + TILE_W <= SHEET_W,
    ensures
        sheet(*final(img)),
        forall|x: int, y: int| in_sheet(x, y) ==> #[trigger] at(*final(img), x, y) == paint(
            tile_color(TileKind::BridgePassable, off as int, x, y),
            at(*old(img), x, y),
        ),
{
    let ghost s0 = *old(img);
    fill_diamond(img, off, (100, 70, 40, 255));
    let ghost s1 = *img;
    plank_rows(img, off, (120, 85, 50, 255), (100, 70, 40, 255));
    let ghost s2 = *img;
    edge_highlight(img, off, true, (140, 100, 60, 255));
    let ghost s3 = *img;
    assert forall|x: int, y: int| in_sheet(x, y) implies #[trigger] at(*img, x, y) == paint(
        tile_color(TileKind::BridgePassable, off as int, x, y),
        at(s0, x, y),
    ) by {
        let _p0 = at(s0, x, y);
        let _p1 = at(s1, x, y);
        let _p2 = at(s2, x, y);
        let _p3 = at(s3, x, y);
    }
}

/// Pale diamond, every fourth pixel lighter, white upper-left edge.
fn draw_snow_solid(img: &mut RgbaCanvas, off: u32)
    requires
        sheet(*old(img)),
        off + TILE_W <= SHEET_W,
    ensures
        sheet(*final(img)),
        forall|x: int, y: int| in_sheet(x, y) ==> #[trigger] at(*final(img), x, y) == paint(
            tile_color(TileKind::SnowSolid, off as int, x, y),
            at(*old(img), x, y),
        ),
{
    let ghost s0 = *old(img);
    fill_diamond(img, off, (200, 210, 220, 255));
    let ghost s1 = *img;
    dot_rows(img, off, 0, TILE_H, 4, (220, 230, 240, 255));
    let ghost s2 = *img;
    edge_highlight(img, off, false, (255, 255, 255, 255));
    let ghost s3 = *img;
    assert forall|x: int, y: int| in_sheet(x, y) implies #[trigger] at(*img, x, y) == paint(
        tile_color(TileKind::SnowSolid, off as int, x, y),
        at(s0, x, y),
    ) by {
        let _p0 = at(s0, x, y);
        let _p1 = at(s1, x, y);
        let _p2 = at(s2, x, y);
        let _p3 = at(s3, x, y);
    }
}

/// Cyan diamond with crystal shards, bright tips and bright upper edges.
fn draw_ice_trap(img: &mut RgbaCanvas, off: u32)
    requires
        sheet(*old(img)),
        off + TILE_W <= SHEET_W,
    ensures
        sheet(*final(img)),
        forall|x: int, y: int| in_sheet(x, y) ==> #[trigger] at(*final(img), x, y) == paint(
            tile_color(TileKind::IceTrap, off as int, x, y),
            at(*old(img), x, y),
        ),
{
    let ghost s0 = *old(img);
    fill_diamond(img, off, (0, 150, 180, 255));
    let ghost s1 = *img;
    put_points(img, off, &ICE_TRAP_PATTERN, (0, 200, 220, 255));
    let ghost s2 = *img;
    put_points(img, off, &ICE_TRAP_BRIGHT, (100, 240, 255, 255));
    let ghost s3 = *img;
    edge_highlight(img, off, true, (100, 240, 255, 255));
    let ghost s4 = *img;
    assert forall|x: int, y: int| in_sheet(x, y) implies #[trigger] at(*img, x, y) == paint(
        tile_color(TileKind::IceTrap, off as int, x, y),
        at(s0, x, y),
    ) by {
        let _p0 = at(s0, x, y);
        let _p1 = at(s1, x, y);
        let _p2 = at(s2, x, y);
        let _p3 = at(s3, x, y);
        let _p4 = at(s4, x, y);
    }
}

/// Green diamond with a golden diamond marker, a bright centre and a dark
/// gold outline.
fn draw_checkpoint(img: &mut RgbaCanvas, off: u32)
    requires
        sheet(*old(img)),
        off + TILE_W <= SHEET_W,
    ensures
        sheet(*final(img)),
        forall|x: int, y: int| in_sheet(x, y) ==> #[trigger] at(*final(img), x, y) == paint(
            tile_color(TileKind::Checkpoint, off as int, x, y),
            at(*old(img), x, y),
        ),
{
    let ghost s0 = *old(img);
    fill_diamond(img, off, (30, 80, 30, 255));
    let ghost s1 = *img;
    fill_center_diamond(img, off, 10, (255, 215, 0, 255));
    let ghost s2 = *img;
    fill_center_diamond(img, off, 5, (255, 240, 100, 255));
    let ghost s3 = *img;
    bresenham_line(img, off + 32, 6, off + 42, 16, (180, 150, 0, 255));
    let ghost s4 = *img;
    bresenham_line(img, off + 42, 16, off + 32, 26, (180, 150, 0, 255));
    let ghost s5 = *img;
    bresenham_line(img, off + 32, 26, off + 22, 16, (180, 150, 0, 255));
    let ghost s6 = *img;
    bresenham_line(img, off + 22, 16, off + 32, 6, (180, 150, 0, 255));
    let ghost s7 = *img;
    assert forall|x: int, y: int| in_sheet(x, y) implies #[trigger] at(*img, x, y) == paint(
        tile_color(TileKind::Checkpoint, off as int, x, y),
        at(s0, x, y),
    ) by {
        let _p0 = at(s0, x, y);
        let _p1 = at(s1, x, y);
        let _p2 = at(s2, x, y);
        let _p3 = at(s3, x, y);
        let _p4 = at(s4, x, y);
        let _p5 = at(s5, x, y);
        let _p6 = at(s6, x, y);
        let _p7 = at(s7, x, y);
    }
}

/// Green diamond with a yellow star, a bright centre and a dark outline.
fn draw_goal(img: &mut RgbaCanvas, off: u32)
    requires
        sheet(*old(img)),
        off + TILE_W <= SHEET_W,
    ensures
        sheet(*final(img)),
        forall|x: int, y: int| in_sheet(x, y) ==> #[trigger] at(*final(img), x, y) == paint(
            tile_color(TileKind::Goal, off as int, x, y),
            at(*old(img), x, y),
        ),
{
    let ghost s0 = *old(img);
    fill_diamond(img, off, (30, 80, 30, 255));
    let ghost s1 = *img;
    fill_star_block(img, off, 12, (255, 255, 100, 255));
    let ghost s2 = *img;
    fill_star_block(img, off, 4, (255, 255, 200, 255));
    let ghost s3 = *img;
    put_points(img, off, &GOAL_OUTLINE, (200, 180, 0, 255));
    let ghost s4 = *img;
    assert forall|x: int, y: int| in_sheet(x, y) implies #[trigger] at(*img, x, y) == paint(
        tile_color(TileKind::Goal, off as int, x, y),
        at(s0, x, y),
    ) by {
        let _p0 = at(s0, x, y);
        let _p1 = at(s1, x, y);
        let _p2 = at(s2, x, y);
        let _p3 = at(s3, x, y);
        let _p4 = at(s4, x, y);
    }
}

/// Draw one tile at `off` in the strip.
fn draw_tile(img: &mut RgbaCanvas, off: u32, kind: TileKind)
    requires
        sheet(*old(img)),
        off + TILE_W <= SHEET_W,
    ensures
        sheet(*final(img)),
        forall|x: int, y: int| in_sheet(x, y) ==> #[trigger] at(*final(img), x, y) == paint(
            tile_color(kind, off as int, x, y),
            at(*old(img), x, y),
        ),
{
    match kind {
        TileKind::GrassPassable => draw_grass_passable(img, off),
        TileKind::GrassSolid => draw_grass_solid(img, off),
        TileKind::StoneSolid => draw_stone_solid(img, off),
        TileKind::LavaTrap => draw_lava_trap(img, off),
        TileKind::IcePassable => draw_ice_passable(img, off),
        TileKind::BridgePassable => draw_bridge_passable(img, off),
        TileKind::SnowSolid => draw_snow_solid(img, off),
        TileKind::IceTrap => draw_ice_trap(img, off),
        TileKind::Checkpoint => draw_checkpoint(img, off),
        TileKind::Goal => draw_goal(img, off),
    }
}

/// Transparent black, the colour of a fresh canvas.
pub open spec fn clear() -> Px {
    (0u8, 0u8, 0u8, 0u8)
}

/// The strip's pixel at `(x, y)`: the colour of the tile in that slot, or
/// transparent where the tile leaves it.
pub open spec fn sheet_pixel(x: int, y: int) -> Px {
    paint(tile_color(kind_at(x / 64), (x / 64) * 64, x, y), clear())
}

/// All pixels of the strip, row by row.
pub open spec fn sheet_pixels() -> Seq<Px> {
    Seq::new((SHEET_W * TILE_H) as nat, |i: int| sheet_pixel(i % 640, i / 640))
}

/// The tile strip: ten 64x32 tiles side by side, returned as
/// `(width, height, RGBA bytes)`.
pub fn generate_tile_sprites() -> (r: (u32, u32, Vec<u8>))
    ensures
        r.0 == SHEET_W,
        r.1 == TILE_H,
        r.2@ == raw_bytes(sheet_pixels()),
{
    let mut img = RgbaCanvas::new(SHEET_W, TILE_H);
    let mut i: u32 = 0;
    while i < TILE_COUNT
        invariant
            sheet(img),
            i <= TILE_COUNT,
            forall|x: int, y: int| in_sheet(x, y) ==> #[trigger] at(img, x, y) == if x < i * 64 {
                sheet_pixel(x, y)
            } else {
                clear()
            },
        decreases TILE_COUNT - i,
    {
        let ghost before = img;
        let off = i * TILE_W;
        draw_tile(&mut img, off, tile_kind(i));
        proof {
            assert forall|x: int, y: int| in_sheet(x, y) implies #[trigger] at(img, x, y) == if x < (i
                + 1) * 64 {
                sheet_pixel(x, y)
            } else {
                clear()
            } by {
                let _b = at(before, x, y);
                if off <= x < off + 64 {
                    assert(x / 64 == i);
                }
            }
        }
        i = i + 1;
    }
    proof {
        assert forall|k: int| 0 <= k < SHEET_W * TILE_H implies #[trigger] canvas_pixels(img)[k]
            == sheet_pixels()[k] by {
            let x = k % 640;
            let y = k / 640;
            assert(k == y * 640 + x);
            let _a = at(img, x, y);
        }
        assert(canvas_pixels(img) =~= sheet_pixels());
    }
    (SHEET_W, TILE_H, img.into_raw())
}

/// The slot of the tile named `name` in the strip, if any.
pub fn tile_atlas_index(name: &str) -> (r: Option<usize>)
    ensures
        r matches Some(i) ==> i < 10 && TILE_NAMES[i as int]@ == name@,
        r is None ==> forall|i: int| 0 <= i < 10 ==> TILE_NAMES[i]@ != name@,
{
    let mut i: usize = 0;
    while i < 10
        invariant
            i <= 10,
            forall|j: int| 0 <= j < i ==> TILE_NAMES[j]@ != name@,
        decreases 10 - i,
    {
        if crate::text::str_eq(TILE_NAMES[i], name) {
            return Some(i);
        }
        i = i + 1;
    }
    None
}

} // verus!
