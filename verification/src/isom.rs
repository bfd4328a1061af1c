//! Integer parts of the isometric grid: draw order and the eight directions.
use vstd::prelude::*;

verus! {

/// The 8 cardinal + diagonal directions on the isometric grid, as `(dx, dy)`.
/// 0=N, 1=NE, 2=E, 3=SE, 4=S, 5=SW, 6=W, 7=NW.
pub const DIRECTIONS: [(i32, i32); 8] = [
    (0, -1),
    (1, -1),
    (1, 0),
    (1, 1),
    (0, 1),
    (-1, 1),
    (-1, 0),
    (-1, -1),
];

/// Grid offset `(dx, dy)` of direction `dir` (0 = N, clockwise).
pub open spec fn direction_offset(dir: int) -> (int, int) {
    if dir == 0 {
        (0, -1)
    } else if dir == 1 {
        (1, -1)
    } else if dir == 2 {
        (1, 0)
    } else if dir == 3 {
        (1, 1)
    } else if dir == 4 {
        (0, 1)
    } else if dir == 5 {
        (-1, 1)
    } else if dir == 6 {
        (-1, 0)
    } else {
        (-1, -1)
    }
}

/// Looks up the offset of direction `dir` in `DIRECTIONS`.
pub fn direction(dir: usize) -> (d: (i32, i32))
    requires
        dir < 8,
    ensures
        d.0 == direction_offset(dir as int).0,
        d.1 == direction_offset(dir as int).1,
{
    DIRECTIONS[dir]
}

/// The draw-order key of a cell: `gx + gy + 1000 * z`.
pub open spec fn spec_depth_key(gx: int, gy: int, z: int) -> int {
    gx + gy + z * 1000
}

/// Depth key for sorting: lower depth is drawn first.
/// `z = 0` for floor tiles, `z = 1` for elevated sprites.
pub fn depth_key(gx: i32, gy: i32, z: i32) -> (r: i32)
    requires
        i32::MIN <= gx + gy <= i32::MAX,
        i32::MIN <= z * 1000 <= i32::MAX,
        i32::MIN <= gx + gy + z * 1000 <= i32::MAX,
    ensures
        r == spec_depth_key(gx as int, gy as int, z as int),
{
    gx + gy + z * 1000
}

/// An elevated sprite (`z = 1`) is drawn after every floor cell whose
/// coordinates sum to less than 1000.
pub proof fn lemma_elevated_after_floor(ax: int, ay: int, bx: int, by: int)
    requires
        bx + by < 1000 + ax + ay,
    ensures
        spec_depth_key(ax, ay, 1) > spec_depth_key(bx, by, 0),
{
}

/// On one layer the key grows with each coordinate.
pub proof fn lemma_depth_monotone(gx: int, gy: int, z: int, dx: int, dy: int)
    requires
        dx >= 0,
        dy >= 0,
        dx + dy > 0,
    ensures
        spec_depth_key(gx, gy, z) < spec_depth_key(gx + dx, gy + dy, z),
{
}

/// A position on the grid with its layer (`z = 0` floor, `z = 1` elevated).
#[derive(Debug, Clone, Copy, PartialEq, Eq, Structural)]
pub struct GridPos {
    pub x: i32,
    pub y: i32,
    pub z: i32,
}

impl GridPos {
    pub fn new(x: i32, y: i32, z: i32) -> (r: Self)
        ensures
            r == (GridPos { x, y, z }),
    {
        GridPos { x, y, z }
    }

    /// The position's draw-order key.
    pub fn depth_key(&self) -> (r: i32)
        requires
            i32::MIN <= self.x + self.y + self.z * 1000 <= i32::MAX,
            i32::MIN <= self.x + self.y <= i32::MAX,
            i32::MIN <= self.z * 1000 <= i32::MAX,
        ensures
            r == spec_depth_key(self.x as int, self.y as int, self.z as int),
    {
        depth_key(self.x, self.y, self.z)
    }
}

/// The step asked for by held direction keys: right minus left across,
/// down minus up along; none when they cancel out.
pub open spec fn held_offset(left: bool, right: bool, up: bool, down: bool) -> (int, int) {
    ((if right { 1int } else { 0 }) - (if left { 1int } else { 0 }), (if down { 1int } else { 0 }) - (if up {
        1int
    } else {
        0
    }))
}

/// The direction index of the held direction keys, if they ask for a step.
pub fn held_to_direction(left: bool, right: bool, up: bool, down: bool) -> (r: Option<usize>)
    ensures
        r is None <==> held_offset(left, right, up, down) == (0int, 0int),
        r matches Some(d) ==> d < 8 && direction_offset(d as int) == held_offset(left, right, up, down),
{
    let h: i8 = (if right { 1i8 } else { 0i8 }) - (if left { 1i8 } else { 0i8 });
    let v: i8 = (if down { 1i8 } else { 0i8 }) - (if up { 1i8 } else { 0i8 });
    if h == 0 && v == 0 {
        return None;
    }
    if h == 0 && v == -1 {
        Some(0)
    } else if h == 1 && v == -1 {
        Some(1)
    } else if h == 1 && v == 0 {
        Some(2)
    } else if h == 1 && v == 1 {
        Some(3)
    } else if h == 0 && v == 1 {
        Some(4)
    } else if h == -1 && v == 1 {
        Some(5)
    } else if h == -1 && v == 0 {
        Some(6)
    } else {
        Some(7)
    }
}

/// The sign of `v`: -1, 0 or 1.
pub open spec fn sign(v: int) -> int {
    if v < 0 {
        -1
    } else if v > 0 {
        1
    } else {
        0
    }
}

/// The grid step one eighth of a turn clockwise from `(x, y)` (x grows to
/// the east, y to the south).
pub open spec fn turn_clockwise(o: (int, int)) -> (int, int) {
    (sign(o.0 - o.1), sign(o.0 + o.1))
}

/// The eight directions start at north and go round clockwise, an eighth
/// of a turn each: direction 0 is `(0, -1)` and each next direction is the
/// one before turned clockwise, back to north after the eighth. So
/// opposite indices are opposite steps, and every step is to a neighbour.
pub proof fn lemma_directions_clockwise(d: int)
    requires
        0 <= d < 8,
    ensures
        direction_offset(0) == (0int, -1int),
        direction_offset((d + 1) % 8) == turn_clockwise(direction_offset(d)),
        direction_offset((d + 4) % 8) == (-direction_offset(d).0, -direction_offset(d).1),
        -1 <= direction_offset(d).0 <= 1 && -1 <= direction_offset(d).1 <= 1,
        direction_offset(d) != (0int, 0int),
{
}

/// `direction` reads the `DIRECTIONS` table: every index gives the offset
/// the table lists under it.
pub proof fn lemma_directions_table(d: int)
    requires
        0 <= d < 8,
    ensures
        direction_offset(d) == (DIRECTIONS[d].0 as int, DIRECTIONS[d].1 as int),
{
}

} // verus!
