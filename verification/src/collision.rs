//! Grid movement with solid-tile collision.
use vstd::prelude::*;
use crate::isom::{direction, direction_offset};

verus! {

/// Read access to a grid world during collision checks.
pub trait WorldAccess {
    /// Width of the grid in cells.
    spec fn spec_grid_w(&self) -> i32;

    /// Height of the grid in cells.
    spec fn spec_grid_h(&self) -> i32;

    /// Whether the cell `(x, y)` blocks movement.
    spec fn spec_is_solid(&self, x: i32, y: i32) -> bool;

    fn grid_w(&self) -> (r: i32)
        ensures
            r == self.spec_grid_w(),
    ;

    fn grid_h(&self) -> (r: i32)
        ensures
            r == self.spec_grid_h(),
    ;

    /// Asked only of cells inside the grid.
    fn is_solid(&self, x: i32, y: i32) -> (r: bool)
        requires
            0 <= x < self.spec_grid_w(),
            0 <= y < self.spec_grid_h(),
        ensures
            r == self.spec_is_solid(x, y),
    ;
}

/// The cell reached from `(x, y)` by one step in direction `dir`.
pub open spec fn step_target(x: int, y: int, dir: int) -> (int, int) {
    (x + direction_offset(dir).0, y + direction_offset(dir).1)
}

/// Whether `(x, y)` lies outside a `w` by `h` grid.
pub open spec fn out_of_bounds(x: int, y: int, w: int, h: int) -> bool {
    x < 0 || y < 0 || x >= w || y >= h
}

/// The outcome of one grid step: leaving the grid is allowed (the entity
/// falls off), entering a solid cell is refused, anything else succeeds.
pub open spec fn spec_try_move<W: WorldAccess>(x: int, y: int, dir: int, world: &W) -> Option<(int, int)> {
    let t = step_target(x, y, dir);
    if out_of_bounds(t.0, t.1, world.spec_grid_w() as int, world.spec_grid_h() as int) {
        Some(t)
    } else if world.spec_is_solid(t.0 as i32, t.1 as i32) {
        None
    } else {
        Some(t)
    }
}

/// Try to move a grid entity in the given direction.
/// Returns the new position if valid, or None if blocked.
pub fn try_move<W: WorldAccess>(from_x: i32, from_y: i32, dir_idx: usize, world: &W) -> (r: Option<(i32, i32)>)
    requires
        dir_idx < 8,
        i32::MIN <= from_x + direction_offset(dir_idx as int).0 <= i32::MAX,
        i32::MIN <= from_y + direction_offset(dir_idx as int).1 <= i32::MAX,
    ensures
        match r {
            Some(p) => spec_try_move(from_x as int, from_y as int, dir_idx as int, world) == Some(
                (p.0 as int, p.1 as int),
            ),
            None => spec_try_move(from_x as int, from_y as int, dir_idx as int, world) is None,
        },
{
    let (dx, dy) = direction(dir_idx);
    let to_x = from_x + dx;
    let to_y = from_y + dy;

    // Out of bounds is allowed (player falls off)
    if to_x < 0 || to_y < 0 || to_x >= world.grid_w() || to_y >= world.grid_h() {
        return Some((to_x, to_y));
    }
    // Solid tiles block movement
    if world.is_solid(to_x, to_y) {
        return None;
    }
    Some((to_x, to_y))
}

} // verus!
