//! The playable grid of an episode: tile kinds, trap cooldowns, checkpoints.
use vstd::prelude::*;
use crate::collision::{WorldAccess, out_of_bounds};
use crate::episode::{Episode, TileDef};
use crate::isom::depth_key;
use crate::text::{ends_with, seq_ends_with};

verus! {

/// What a grid cell does to a player standing on it.
#[derive(Debug, Clone, Copy, PartialEq, Eq, Structural)]
pub enum TileType {
    Passable,
    Solid,
    Trap,
    Checkpoint,
    Goal,
}

/// Frames a trap stays disarmed after it fires (3 seconds at 60 fps).
pub const TRAP_COOLDOWN_FRAMES: u32 = 180;

/// The kind of a tile named in an episode file, decided by its suffix.
pub open spec fn classify_tile_name(name: Seq<char>) -> TileType {
    if seq_ends_with(name, "_solid"@) {
        TileType::Solid
    } else if seq_ends_with(name, "_trap"@) {
        TileType::Trap
    } else if seq_ends_with(name, "_checkpoint"@) {
        TileType::Checkpoint
    } else if seq_ends_with(name, "_goal"@) {
        TileType::Goal
    } else {
        TileType::Passable
    }
}

/// The kind of cell `(x, y)` after placing `defs` in order: the last
/// definition at that cell wins, a cell without one is passable.
pub open spec fn tile_from_defs(defs: Seq<TileDef>, x: int, y: int) -> TileType
    decreases defs.len(),
{
    if defs.len() == 0 {
        TileType::Passable
    } else if defs.last().x as int == x && defs.last().y as int == y {
        classify_tile_name(defs.last().tile_type@)
    } else {
        tile_from_defs(defs.drop_last(), x, y)
    }
}

/// The name of the tile that `defs` place at `(x, y)`: the last
/// definition there wins; empty where there is none.
pub open spec fn tile_name_from_defs(defs: Seq<TileDef>, x: int, y: int) -> Seq<char>
    decreases defs.len(),
{
    if defs.len() == 0 {
        Seq::empty()
    } else if defs.last().x as int == x && defs.last().y as int == y {
        defs.last().tile_type@
    } else {
        tile_name_from_defs(defs.drop_last(), x, y)
    }
}

/// Row-major index of cell `(x, y)` in a grid `w` cells wide.
pub open spec fn cell_index(x: int, y: int, w: int) -> int {
    y * w + x
}

/// Within the grid, cell indices are in range and distinct.
pub proof fn lemma_cell_index(x: int, y: int, x2: int, y2: int, w: int, h: int)
    requires
        0 <= x < w,
        0 <= y < h,
        0 <= x2 < w,
        0 <= y2 < h,
    ensures
        0 <= cell_index(x, y, w) < w * h,
        cell_index(x, y, w) == cell_index(x2, y2, w) ==> x == x2 && y == y2,
{
    assert(0 <= y * w) by (nonlinear_arith)
        requires
            0 <= y,
            0 <= w,
    ;
    assert(y * w + x < w * h) by (nonlinear_arith)
        requires
            0 <= x < w,
            0 <= y < h,
    ;
    if cell_index(x, y, w) == cell_index(x2, y2, w) {
        if y < y2 {
            assert(y * w + x < y2 * w + x2) by (nonlinear_arith)
                requires
                    y < y2,
                    0 <= x < w,
                    0 <= x2,
            ;
        } else if y2 < y {
            assert(y2 * w + x2 < y * w + x) by (nonlinear_arith)
                requires
                    y2 < y,
                    0 <= x2 < w,
                    0 <= x,
            ;
        }
    }
}

/// The first checkpoint at or after index `i` that sits at `(x, y)` and has
/// not been reached yet, or -1 if there is none.
pub open spec fn find_open_checkpoint(cps: Seq<(i32, i32, bool)>, x: int, y: int, i: int) -> int
    decreases cps.len() - i,
{
    if i < 0 || i >= cps.len() {
        -1
    } else if cps[i].0 as int == x && cps[i].1 as int == y && !cps[i].2 {
        i
    } else {
        find_open_checkpoint(cps, x, y, i + 1)
    }
}

proof fn lemma_find_open_checkpoint(cps: Seq<(i32, i32, bool)>, x: int, y: int, i: int)
    requires
        0 <= i <= cps.len(),
    ensures
        find_open_checkpoint(cps, x, y, i) == -1 || (i <= find_open_checkpoint(cps, x, y, i) < cps.len()),
        find_open_checkpoint(cps, x, y, i) != -1 ==> ({
            let k = find_open_checkpoint(cps, x, y, i);
            &&& cps[k].0 as int == x
            &&& cps[k].1 as int == y
            &&& !cps[k].2
            &&& forall|j: int|
                i <= j < k ==> !(cps[j].0 as int == x && cps[j].1 as int == y && !cps[j].2)
        }),
        find_open_checkpoint(cps, x, y, i) == -1 ==> forall|j: int|
            i <= j < cps.len() ==> !(cps[j].0 as int == x && cps[j].1 as int == y && !cps[j].2),
    decreases cps.len() - i,
{
    if i < cps.len() {
        lemma_find_open_checkpoint(cps, x, y, i + 1);
    }
}

/// The grid world of a running episode.
pub struct World {
    pub grid_w: i32,
    pub grid_h: i32,
    /// Flat array of `(kind, trap cooldown in frames)`, indexed `y * grid_w + x`.
    cells: Vec<(TileType, u32)>,
    /// `(x, y, reached)` for each checkpoint of the episode.
    pub checkpoints: Vec<(i32, i32, bool)>,
    pub episode: Episode,
}

impl World {
    /// Width of the grid in cells.
    pub closed spec fn width(&self) -> i32 {
        self.grid_w
    }

    /// Height of the grid in cells.
    pub closed spec fn height(&self) -> i32 {
        self.grid_h
    }

    /// `(x, y, reached)` for each checkpoint.
    pub closed spec fn checkpoint_states(&self) -> Seq<(i32, i32, bool)> {
        self.checkpoints@
    }

    /// The episode this world was built from.
    pub closed spec fn episode_data(&self) -> Episode {
        self.episode
    }

    /// The grid has `grid_w * grid_h` cells, a number that fits in `i32`, and
    /// the cell array has one entry per cell.
    pub closed spec fn wf(&self) -> bool {
        &&& 0 <= self.grid_w as int * self.grid_h as int <= i32::MAX
        &&& self.cells@.len() == self.grid_w as int * self.grid_h as int
    }

    /// Whether `(x, y)` is a cell of the grid that has storage.
    closed spec fn stored(&self, x: int, y: int) -> bool {
        !out_of_bounds(x, y, self.grid_w as int, self.grid_h as int) && cell_index(
            x,
            y,
            self.grid_w as int,
        ) < self.cells@.len()
    }

    /// The kind of cell `(x, y)`; every cell outside the grid is passable.
    pub closed spec fn tile_at(&self, x: int, y: int) -> TileType {
        if self.stored(x, y) {
            self.cells@[cell_index(x, y, self.grid_w as int)].0
        } else {
            TileType::Passable
        }
    }

    /// Frames left before the trap at `(x, y)` can fire again (0 outside the grid).
    pub closed spec fn cooldown_at(&self, x: int, y: int) -> u32 {
        if self.stored(x, y) {
            self.cells@[cell_index(x, y, self.grid_w as int)].1
        } else {
            0
        }
    }

    /// Whether stepping on `(x, y)` now sets off a trap.
    pub open spec fn trap_fires(&self, x: int, y: int) -> bool {
        self.tile_at(x, y) == TileType::Trap && self.cooldown_at(x, y) == 0
    }

    /// The storage slot of in-bounds cell `(x, y)`, if it has one.
    fn slot(&self, x: i32, y: i32) -> (r: Option<usize>)
        requires
            !out_of_bounds(x as int, y as int, self.grid_w as int, self.grid_h as int),
        ensures
            r is Some <==> self.stored(x as int, y as int),
            r matches Some(i) ==> i as int == cell_index(x as int, y as int, self.grid_w as int),
    {
        assert(0 <= y as int * self.grid_w as int <= 0x4000_0000_0000_0000) by (nonlinear_arith)
            requires
                0 <= y < 0x8000_0000,
                0 <= self.grid_w < 0x8000_0000,
        ;
        let idx: u64 = y as u64 * self.grid_w as u64 + x as u64;
        if idx < self.cells.len() as u64 {
            Some(idx as usize)
        } else {
            None
        }
    }

    /// Build the world of an episode: every in-bounds cell takes the kind of
    /// the last tile definition placed on it, all traps start armed, and no
    /// checkpoint is reached.
    pub fn from_episode(episode: Episode) -> (w: World)
        requires
            0 <= episode.grid_width as int * episode.grid_height as int <= i32::MAX,
        ensures
            w.wf(),
            w.width() == episode.grid_width,
            w.height() == episode.grid_height,
            w.episode_data() == episode,
            forall|x: int, y: int|
                !out_of_bounds(x, y, w.width() as int, w.height() as int) ==> #[trigger] w.tile_at(x, y)
                    == tile_from_defs(episode.tiles@, x, y),
            forall|x: int, y: int| #[trigger] w.cooldown_at(x, y) == 0,
            w.checkpoint_states().len() == episode.checkpoints@.len(),
            forall|i: int|
                0 <= i < w.checkpoint_states().len() ==> #[trigger] w.checkpoint_states()[i] == (
                    episode.checkpoints@[i].x,
                    episode.checkpoints@[i].y,
                    false,
                ),
    {
        let gw = episode.grid_width;
        let gh = episode.grid_height;
        let grid_size = (gw * gh) as usize;
        let mut cells: Vec<(TileType, u32)> = Vec::new();
        let mut k: usize = 0;
        while k < grid_size
            invariant
                k <= grid_size,
                cells@.len() == k,
                forall|j: int| 0 <= j < k ==> cells@[j] == (TileType::Passable, 0u32),
            decreases grid_size - k,
        {
            cells.push((TileType::Passable, 0));
            k = k + 1;
        }
        proof {
            assert forall|x: int, y: int| !out_of_bounds(x, y, gw as int, gh as int) implies 0 <= cell_index(
                x,
                y,
                gw as int,
            ) < grid_size && cells@[cell_index(x, y, gw as int)].0 == tile_from_defs(
                episode.tiles@.subrange(0, 0),
                x,
                y,
            ) by {
                lemma_cell_index(x, y, x, y, gw as int, gh as int);
            }
        }

        let n = episode.tiles.len();
        let mut i: usize = 0;
        while i < n
            invariant
                gw == episode.grid_width,
                gh == episode.grid_height,
                0 <= gw as int * gh as int <= i32::MAX,
                grid_size == gw as int * gh as int,
                n == episode.tiles@.len(),
                i <= n,
                cells@.len() == grid_size,
                forall|j: int| 0 <= j < grid_size ==> #[trigger] cells@[j].1 == 0,
                forall|x: int, y: int|
                    !out_of_bounds(x, y, gw as int, gh as int) ==> cells@[cell_index(x, y, gw as int)].0
                        == tile_from_defs(episode.tiles@.subrange(0, i as int), x, y),
            decreases n - i,
        {
            let tile = &episode.tiles[i];
            let ghost defs = episode.tiles@.subrange(0, i as int + 1);
            assert(defs.drop_last() =~= episode.tiles@.subrange(0, i as int));
            assert(defs.last() == episode.tiles@[i as int]);
            if tile.x < 0 || tile.y < 0 || tile.x >= gw || tile.y >= gh {
            } else {
                proof {
                    lemma_cell_index(tile.x as int, tile.y as int, tile.x as int, tile.y as int, gw as int, gh as int);
                }
                let idx = (tile.y * gw + tile.x) as usize;
                let t = if ends_with(tile.tile_type.as_str(), "_solid") {
                    TileType::Solid
                } else if ends_with(tile.tile_type.as_str(), "_trap") {
                    TileType::Trap
                } else if ends_with(tile.tile_type.as_str(), "_checkpoint") {
                    TileType::Checkpoint
                } else if ends_with(tile.tile_type.as_str(), "_goal") {
                    TileType::Goal
                } else {
                    TileType::Passable
                };
                cells.set(idx, (t, 0));
                assert forall|x: int, y: int| !out_of_bounds(x, y, gw as int, gh as int) implies cells@[cell_index(
                    x,
                    y,
                    gw as int,
                )].0 == tile_from_defs(defs, x, y) by {
                    lemma_cell_index(x, y, tile.x as int, tile.y as int, gw as int, gh as int);
                }
            }
            i = i + 1;
        }
        assert(episode.tiles@.subrange(0, n as int) =~= episode.tiles@);

        let mut checkpoints: Vec<(i32, i32, bool)> = Vec::new();
        let m = episode.checkpoints.len();
        let mut c: usize = 0;
        while c < m
            invariant
                m == episode.checkpoints@.len(),
                c <= m,
                checkpoints@.len() == c,
                forall|j: int|
                    0 <= j < c ==> #[trigger] checkpoints@[j] == (
                        episode.checkpoints@[j].x,
                        episode.checkpoints@[j].y,
                        false,
                    ),
            decreases m - c,
        {
            let cp = &episode.checkpoints[c];
            checkpoints.push((cp.x, cp.y, false));
            c = c + 1;
        }

        let w = World { grid_w: gw, grid_h: gh, cells, checkpoints, episode };
        assert forall|x: int, y: int|
            !out_of_bounds(x, y, w.width() as int, w.height() as int) implies #[trigger] w.tile_at(x, y)
                == tile_from_defs(w.episode.tiles@, x, y) by {
            lemma_cell_index(x, y, x, y, gw as int, gh as int);
        }
        assert forall|x: int, y: int| #[trigger] w.cooldown_at(x, y) == 0 by {
            if !out_of_bounds(x, y, w.grid_w as int, w.grid_h as int) {
                lemma_cell_index(x, y, x, y, gw as int, gh as int);
            }
        }
        w
    }

    /// The kind of tile at `(x, y)`; out of bounds is passable (fall off).
    pub fn get_tile(&self, x: i32, y: i32) -> (t: TileType)
        ensures
            t == self.tile_at(x as int, y as int),
    {
        if x < 0 || y < 0 || x >= self.grid_w || y >= self.grid_h {
            return TileType::Passable;
        }
        match self.slot(x, y) {
            Some(idx) => self.cells[idx].0,
            None => TileType::Passable,
        }
    }

    /// The episode's name for the tile at `(x, y)` (such as
    /// `"lava_trap"`), empty where the episode places none.
    pub fn tile_name(&self, x: i32, y: i32) -> (r: String)
        ensures
            r@ == tile_name_from_defs(self.episode_data().tiles@, x as int, y as int),
    {
        let tiles = &self.episode.tiles;
        let mut name = String::new();
        let mut i: usize = 0;
        while i < tiles.len()
            invariant
                i <= tiles@.len(),
                tiles@ == self.episode.tiles@,
                name@ == tile_name_from_defs(tiles@.take(i as int), x as int, y as int),
            decreases tiles@.len() - i,
        {
            assert(tiles@.take(i + 1).drop_last() =~= tiles@.take(i as int));
            if tiles[i].x == x && tiles[i].y == y {
                name = tiles[i].tile_type.clone();
            }
            i = i + 1;
        }
        assert(tiles@.take(i as int) =~= tiles@);
        name
    }

    /// Whether `(x, y)` blocks movement.
    pub fn is_solid(&self, x: i32, y: i32) -> (r: bool)
        ensures
            r == (self.tile_at(x as int, y as int) == TileType::Solid),
    {
        match self.get_tile(x, y) {
            TileType::Solid => true,
            _ => false,
        }
    }

    /// Check and trigger a trap at `(x, y)`. Returns true if triggered; a
    /// triggered trap is disarmed for `TRAP_COOLDOWN_FRAMES` frames.
    pub fn check_trap(&mut self, x: i32, y: i32) -> (r: bool)
        ensures
            final(self).wf() == old(self).wf(),
            r == old(self).trap_fires(x as int, y as int),
            final(self).width() == old(self).width(),
            final(self).height() == old(self).height(),
            final(self).checkpoint_states() == old(self).checkpoint_states(),
            final(self).episode_data() == old(self).episode_data(),
            forall|cx: int, cy: int| #[trigger] final(self).tile_at(cx, cy) == old(self).tile_at(cx, cy),
            forall|cx: int, cy: int|
                #[trigger] final(self).cooldown_at(cx, cy) == if r && cx == x && cy == y {
                    TRAP_COOLDOWN_FRAMES
                } else {
                    old(self).cooldown_at(cx, cy)
                },
    {
        match self.get_tile(x, y) {
            TileType::Trap => {},
            _ => {
                return false;
            },
        }
        let idx = match self.slot(x, y) {
            Some(i) => i,
            None => {
                return false;
            },
        };
        if self.cells[idx].1 == 0 {
            self.cells.set(idx, (TileType::Trap, TRAP_COOLDOWN_FRAMES));
            proof {
                assert forall|cx: int, cy: int|
                    old(self).stored(cx, cy) && !(cx == x && cy == y) implies cell_index(
                    cx,
                    cy,
                    self.grid_w as int,
                ) != idx by {
                    lemma_cell_index(cx, cy, x as int, y as int, self.grid_w as int, self.grid_h as int);
                }
            }
            return true;
        }
        false
    }

    /// Decrement every trap cooldown that is above zero. Call once per frame.
    pub fn tick_trap_cooldowns(&mut self)
        ensures
            final(self).wf() == old(self).wf(),
            final(self).width() == old(self).width(),
            final(self).height() == old(self).height(),
            final(self).checkpoint_states() == old(self).checkpoint_states(),
            final(self).episode_data() == old(self).episode_data(),
            forall|cx: int, cy: int| #[trigger] final(self).tile_at(cx, cy) == old(self).tile_at(cx, cy),
            forall|cx: int, cy: int|
                #[trigger] final(self).cooldown_at(cx, cy) == tick_cd(old(self).cooldown_at(cx, cy)),
    {
        let n = self.cells.len();
        let mut i: usize = 0;
        while i < n
            invariant
                n == self.cells@.len(),
                n == old(self).cells@.len(),
                i <= n,
                self.grid_w == old(self).grid_w,
                self.grid_h == old(self).grid_h,
                self.checkpoints == old(self).checkpoints,
                self.episode == old(self).episode,
                forall|j: int| 0 <= j < n ==> #[trigger] self.cells@[j].0 == old(self).cells@[j].0,
                forall|j: int|
                    0 <= j < i ==> #[trigger] self.cells@[j].1 == if old(self).cells@[j].1 > 0 {
                        (old(self).cells@[j].1 - 1) as u32
                    } else {
                        0
                    },
                forall|j: int| i <= j < n ==> #[trigger] self.cells@[j] == old(self).cells@[j],
            decreases n - i,
        {
            let c = self.cells[i];
            if c.1 > 0 {
                self.cells.set(i, (c.0, c.1 - 1));
            }
            i = i + 1;
        }
    }

    /// Check and activate a checkpoint at `(x, y)`. Returns true if newly
    /// reached: the first unreached checkpoint at `(x, y)` becomes reached.
    pub fn check_checkpoint(&mut self, x: i32, y: i32) -> (r: bool)
        ensures
            final(self).wf() == old(self).wf(),
            final(self).width() == old(self).width(),
            final(self).height() == old(self).height(),
            final(self).episode_data() == old(self).episode_data(),
            forall|cx: int, cy: int| #[trigger] final(self).tile_at(cx, cy) == old(self).tile_at(cx, cy),
            forall|cx: int, cy: int| #[trigger] final(self).cooldown_at(cx, cy) == old(self).cooldown_at(cx, cy),
            r == (find_open_checkpoint(old(self).checkpoint_states(), x as int, y as int, 0) != -1),
            r ==> final(self).checkpoint_states() == old(self).checkpoint_states().update(
                find_open_checkpoint(old(self).checkpoint_states(), x as int, y as int, 0),
                (x, y, true),
            ),
            !r ==> final(self).checkpoint_states() == old(self).checkpoint_states(),
    {
        let n = self.checkpoints.len();
        let mut i: usize = 0;
        proof {
            lemma_find_open_checkpoint(self.checkpoints@, x as int, y as int, 0);
        }
        while i < n
            invariant
                n == self.checkpoints@.len(),
                i <= n,
                self == old(self),
                forall|j: int|
                    0 <= j < i ==> !(self.checkpoints@[j].0 == x && self.checkpoints@[j].1 == y
                        && !self.checkpoints@[j].2),
            decreases n - i,
        {
            let cp = self.checkpoints[i];
            if cp.0 == x && cp.1 == y && !cp.2 {
                proof {
                    lemma_find_open_checkpoint(self.checkpoints@, x as int, y as int, 0);
                    let k = find_open_checkpoint(self.checkpoints@, x as int, y as int, 0);
                    if k == -1 || k < i || k > i {
                        assert(false);
                    }
                }
                self.checkpoints.set(i, (x, y, true));
                return true;
            }
            i = i + 1;
        }
        proof {
            lemma_find_open_checkpoint(self.checkpoints@, x as int, y as int, 0);
            let k = find_open_checkpoint(self.checkpoints@, x as int, y as int, 0);
            if k != -1 {
                assert(!(self.checkpoints@[k].0 == x && self.checkpoints@[k].1 == y && !self.checkpoints@[k].2));
            }
        }
        false
    }

    /// Whether `(x, y)` is a goal tile.
    pub fn check_goal(&self, x: i32, y: i32) -> (r: bool)
        ensures
            r == (self.tile_at(x as int, y as int) == TileType::Goal),
    {
        match self.get_tile(x, y) {
            TileType::Goal => true,
            _ => false,
        }
    }

    /// All non-passable cells `(x, y)` of the grid with `x + y == depth`, in
    /// row-major order, each with its kind. Used for back-to-front rendering.
    pub fn tiles_at_depth(&self, depth: i32) -> (r: Vec<(i32, i32, TileType)>)
        ensures
            forall|i: int|
                0 <= i < r@.len() ==> {
                    let e = #[trigger] r@[i];
                    &&& !out_of_bounds(e.0 as int, e.1 as int, self.width() as int, self.height() as int)
                    &&& e.0 + e.1 == depth
                    &&& e.2 == self.tile_at(e.0 as int, e.1 as int)
                    &&& e.2 != TileType::Passable
                },
            forall|x: int, y: int|
                !out_of_bounds(x, y, self.width() as int, self.height() as int) && x + y == depth
                    && self.tile_at(x, y) != TileType::Passable ==> exists|i: int|
                    0 <= i < r@.len() && #[trigger] r@[i].0 == x && r@[i].1 == y,
            forall|i: int, j: int|
                0 <= i < j < r@.len() ==> (#[trigger] r@[i].1 < #[trigger] r@[j].1 || (r@[i].1 == r@[j].1
                    && r@[i].0 < r@[j].0)),
    {
        let mut result: Vec<(i32, i32, TileType)> = Vec::new();
        let gw = self.grid_w;
        let gh = self.grid_h;
        let mut y: i32 = 0;
        while y < gh
            invariant
                gw == self.grid_w,
                gh == self.grid_h,
                0 <= y,
                y <= gh || y == 0,
                forall|i: int|
                    0 <= i < result@.len() ==> {
                        let e = #[trigger] result@[i];
                        &&& !out_of_bounds(e.0 as int, e.1 as int, gw as int, gh as int)
                        &&& e.0 + e.1 == depth
                        &&& e.2 == self.tile_at(e.0 as int, e.1 as int)
                        &&& e.2 != TileType::Passable
                        &&& e.1 < y
                    },
                forall|cx: int, cy: int|
                    !out_of_bounds(cx, cy, gw as int, gh as int) && cy < y && cx + cy == depth
                        && self.tile_at(cx, cy) != TileType::Passable ==> exists|i: int|
                        0 <= i < result@.len() && #[trigger] result@[i].0 == cx && result@[i].1 == cy,
                forall|i: int, j: int|
                    0 <= i < j < result@.len() ==> (#[trigger] result@[i].1 < #[trigger] result@[j].1 || (
                    result@[i].1 == result@[j].1 && result@[i].0 < result@[j].0)),
            decreases gh - y,
        {
            let mut x: i32 = 0;
            while x < gw
                invariant
                    gw == self.grid_w,
                    gh == self.grid_h,
                    0 <= y < gh,
                    0 <= x,
                    x <= gw || x == 0,
                    forall|i: int|
                        0 <= i < result@.len() ==> {
                            let e = #[trigger] result@[i];
                            &&& !out_of_bounds(e.0 as int, e.1 as int, gw as int, gh as int)
                            &&& e.0 + e.1 == depth
                            &&& e.2 == self.tile_at(e.0 as int, e.1 as int)
                            &&& e.2 != TileType::Passable
                            &&& (e.1 < y || (e.1 == y && e.0 < x))
                        },
                    forall|cx: int, cy: int|
                        !out_of_bounds(cx, cy, gw as int, gh as int) && (cy < y || (cy == y && cx < x))
                            && cx + cy == depth && self.tile_at(cx, cy) != TileType::Passable
                            ==> exists|i: int|
                            0 <= i < result@.len() && #[trigger] result@[i].0 == cx && result@[i].1 == cy,
                    forall|i: int, j: int|
                        0 <= i < j < result@.len() ==> (#[trigger] result@[i].1 < #[trigger] result@[j].1
                            || (result@[i].1 == result@[j].1 && result@[i].0 < result@[j].0)),
                decreases gw - x,
            {
                let at_depth = if x as i64 + y as i64 <= i32::MAX as i64 {
                    depth_key(x, y, 0) == depth
                } else {
                    false
                };
                if at_depth {
                    let t = self.get_tile(x, y);
                    match t {
                        TileType::Passable => {},
                        _ => {
                            let ghost old_result = result@;
                            result.push((x, y, t));
                            assert forall|cx: int, cy: int|
                                !out_of_bounds(cx, cy, gw as int, gh as int) && (cy < y || (cy == y && cx
                                    < x + 1)) && cx + cy == depth && self.tile_at(cx, cy)
                                    != TileType::Passable implies exists|i: int|
                                0 <= i < result@.len() && #[trigger] result@[i].0 == cx && result@[i].1
                                    == cy by {
                                if cy == y && cx == x {
                                    assert(result@[old_result.len() as int].0 == cx);
                                } else {
                                    let i = choose|i: int|
                                        0 <= i < old_result.len() && #[trigger] old_result[i].0 == cx
                                            && old_result[i].1 == cy;
                                    assert(result@[i] == old_result[i]);
                                }
                            }
                        },
                    }
                }
                x = x + 1;
            }
            y = y + 1;
        }
        result
    }
}

impl WorldAccess for World {
    closed spec fn spec_grid_w(&self) -> i32 {
        self.grid_w
    }

    closed spec fn spec_grid_h(&self) -> i32 {
        self.grid_h
    }

    closed spec fn spec_is_solid(&self, x: i32, y: i32) -> bool {
        self.tile_at(x as int, y as int) == TileType::Solid
    }

    fn grid_w(&self) -> (r: i32) {
        self.grid_w
    }

    fn grid_h(&self) -> (r: i32) {
        self.grid_h
    }

    fn is_solid(&self, x: i32, y: i32) -> (r: bool) {
        World::is_solid(self, x, y)
    }
}

/// A trap cooldown after one frame: it counts down to zero and stays there.
pub open spec fn tick_cd(c: u32) -> u32 {
    if c > 0 {
        (c - 1) as u32
    } else {
        0
    }
}

/// A trap cooldown after `n` frames.
pub open spec fn ticks_cd(c: u32, n: nat) -> u32
    decreases n,
{
    if n == 0 {
        c
    } else {
        tick_cd(ticks_cd(c, (n - 1) as nat))
    }
}

/// A trap that has just fired (its cooldown set to `TRAP_COOLDOWN_FRAMES`)
/// is armed again after exactly `TRAP_COOLDOWN_FRAMES` frames: before that
/// its cooldown is positive, from then on it is zero.
pub proof fn lemma_trap_rearms(n: nat)
    ensures
        ticks_cd(TRAP_COOLDOWN_FRAMES, n) == if n < TRAP_COOLDOWN_FRAMES {
            (TRAP_COOLDOWN_FRAMES - n) as u32
        } else {
            0u32
        },
    decreases n,
{
    if n > 0 {
        lemma_trap_rearms((n - 1) as nat);
    }
}

/// A trap that fired and has since seen `n` cooldown ticks (its cooldown is
/// `ticks_cd(TRAP_COOLDOWN_FRAMES, n)`, as `check_trap` and
/// `tick_trap_cooldowns` leave it) sets off again exactly when `n` has
/// reached `TRAP_COOLDOWN_FRAMES`; in particular an immediate second check
/// (`n == 0`) does not fire.
pub proof fn lemma_trap_blocked_until_rearmed(w: World, x: int, y: int, n: nat)
    requires
        w.tile_at(x, y) == TileType::Trap,
        w.cooldown_at(x, y) == ticks_cd(TRAP_COOLDOWN_FRAMES, n),
    ensures
        w.trap_fires(x, y) <==> n >= TRAP_COOLDOWN_FRAMES,
{
    lemma_trap_rearms(n);
}

/// A checkpoint entry is reached at most once: after the entry found for
/// `(x, y)` is marked reached, the next search at `(x, y)` finds none or a
/// later entry.
pub proof fn lemma_checkpoint_once(cps: Seq<(i32, i32, bool)>, x: i32, y: i32)
    requires
        find_open_checkpoint(cps, x as int, y as int, 0) != -1,
    ensures
        ({
            let k = find_open_checkpoint(cps, x as int, y as int, 0);
            let next = find_open_checkpoint(cps.update(k, (x, y, true)), x as int, y as int, 0);
            next == -1 || next > k
        }),
{
    let k = find_open_checkpoint(cps, x as int, y as int, 0);
    lemma_find_open_checkpoint(cps, x as int, y as int, 0);
    let u = cps.update(k, (x, y, true));
    lemma_find_open_checkpoint(u, x as int, y as int, 0);
    let next = find_open_checkpoint(u, x as int, y as int, 0);
    if next != -1 && next <= k {
        if next < k {
            assert(u[next] == cps[next]);
        }
    }
}

proof fn lemma_ends_with_last(s: Seq<char>, t: Seq<char>)
    requires
        seq_ends_with(s, t),
        t.len() > 0,
    ensures
        s.last() == t.last(),
{
    assert(s.subrange(s.len() - t.len(), s.len() as int)[t.len() - 1] == s.last());
}

/// A tile name's suffix decides its kind, whatever comes before it:
/// `_solid` walls, `_trap` traps, `_checkpoint` checkpoints, `_goal` the
/// goal; any other name is open ground. The suffixes end in different
/// letters, so no name has two of them.
pub proof fn lemma_tile_kind_by_suffix(name: Seq<char>)
    ensures
        seq_ends_with(name, "_solid"@) ==> classify_tile_name(name) == TileType::Solid,
        seq_ends_with(name, "_trap"@) ==> classify_tile_name(name) == TileType::Trap,
        seq_ends_with(name, "_checkpoint"@) ==> classify_tile_name(name) == TileType::Checkpoint,
        seq_ends_with(name, "_goal"@) ==> classify_tile_name(name) == TileType::Goal,
        classify_tile_name(name) == TileType::Passable <==> !seq_ends_with(name, "_solid"@) && !seq_ends_with(
            name,
            "_trap"@,
        ) && !seq_ends_with(name, "_checkpoint"@) && !seq_ends_with(name, "_goal"@),
{
    reveal_strlit("_solid");
    reveal_strlit("_trap");
    reveal_strlit("_checkpoint");
    reveal_strlit("_goal");
    if seq_ends_with(name, "_solid"@) {
        lemma_ends_with_last(name, "_solid"@);
    }
    if seq_ends_with(name, "_trap"@) {
        lemma_ends_with_last(name, "_trap"@);
    }
    if seq_ends_with(name, "_checkpoint"@) {
        lemma_ends_with_last(name, "_checkpoint"@);
    }
    if seq_ends_with(name, "_goal"@) {
        lemma_ends_with_last(name, "_goal"@);
    }
}

/// The kind of a cell is the kind its tile's name gives (the name the
/// last definition at the cell carries); a cell without a definition has
/// the empty name and is open ground.
pub proof fn lemma_cell_kind_from_name(defs: Seq<TileDef>, x: int, y: int)
    ensures
        tile_from_defs(defs, x, y) == classify_tile_name(tile_name_from_defs(defs, x, y)),
    decreases defs.len(),
{
    if defs.len() == 0 {
        reveal_strlit("_solid");
        reveal_strlit("_trap");
        reveal_strlit("_checkpoint");
        reveal_strlit("_goal");
        assert(!seq_ends_with(Seq::<char>::empty(), "_solid"@));
        assert(!seq_ends_with(Seq::<char>::empty(), "_trap"@));
        assert(!seq_ends_with(Seq::<char>::empty(), "_checkpoint"@));
        assert(!seq_ends_with(Seq::<char>::empty(), "_goal"@));
    } else {
        lemma_cell_kind_from_name(defs.drop_last(), x, y);
    }
}

} // verus!
