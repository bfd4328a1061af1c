//! Grid movement and game rules for one player: walls block, traps
//! eliminate, checkpoints set the respawn point, the goal wins.
use vstd::prelude::*;
use crate::collision::{try_move, spec_try_move};
use crate::isom::direction_offset;
use crate::touch::GameInput;
use crate::world::{World, TileType, TRAP_COOLDOWN_FRAMES, find_open_checkpoint};

verus! {

/// What a player is doing.
#[derive(Debug, Clone, Copy, PartialEq, Eq, Structural)]
pub enum PlayerState {
    Idle,
    Moving,
    Eliminated,
    Won,
}

/// The animation a step asks the renderer to switch to.
#[derive(Debug, Clone, Copy, PartialEq, Eq, Structural)]
pub enum AnimRequest {
    /// Keep the current animation.
    Keep,
    /// Switch to the run animation.
    Run,
    /// Switch to the idle animation.
    Idle,
}

/// What one movement step did.
#[derive(Debug, Clone, Copy, PartialEq, Eq, Structural)]
pub struct StepOutcome {
    /// The player changed cell (movement cooldown restarts).
    pub moved: bool,
    pub anim: AnimRequest,
}

/// One player on the grid.
#[derive(Debug, Clone, Copy, PartialEq, Eq, Structural)]
pub struct Player {
    pub id: u8,
    pub grid_x: i32,
    pub grid_y: i32,
    /// Current facing direction index (0-7).
    pub facing_dir: usize,
    pub state: PlayerState,
    /// Last checkpoint position.
    pub checkpoint_x: i32,
    pub checkpoint_y: i32,
}

/// The direction index an input asks for, if it is a movement input.
pub open spec fn input_dir(i: GameInput) -> Option<usize> {
    match i {
        GameInput::MoveLeft => Some(6usize),
        GameInput::MoveRight => Some(2usize),
        GameInput::MoveUp => Some(0usize),
        GameInput::MoveDown => Some(4usize),
        _ => None,
    }
}

/// The direction the player wants: that of the last movement input.
pub open spec fn wanted_dir(inputs: Seq<GameInput>) -> Option<usize>
    decreases inputs.len(),
{
    if inputs.len() == 0 {
        None
    } else if input_dir(inputs.last()) is Some {
        input_dir(inputs.last())
    } else {
        wanted_dir(inputs.drop_last())
    }
}

/// The grid step an arrow input points at on screen: left and right move
/// along x, up and down along y (y grows downward). Other inputs do not
/// move.
pub open spec fn arrow_step(i: GameInput) -> Option<(int, int)> {
    match i {
        GameInput::MoveLeft => Some((-1int, 0int)),
        GameInput::MoveRight => Some((1int, 0int)),
        GameInput::MoveUp => Some((0int, -1int)),
        GameInput::MoveDown => Some((0int, 1int)),
        _ => None,
    }
}

/// The last arrow input among `inputs`, if any.
pub open spec fn last_arrow(inputs: Seq<GameInput>) -> Option<GameInput>
    decreases inputs.len(),
{
    if inputs.len() == 0 {
        None
    } else if arrow_step(inputs.last()) is Some {
        Some(inputs.last())
    } else {
        last_arrow(inputs.drop_last())
    }
}

/// The wanted direction steps the way the last arrow input points: with no
/// arrow input there is none, otherwise its grid offset is exactly that
/// arrow's step (down is south, `(0, 1)`; up north; left west; right east).
pub proof fn lemma_wanted_dir_follows_last_arrow(inputs: Seq<GameInput>)
    ensures
        last_arrow(inputs) is None ==> wanted_dir(inputs) is None,
        last_arrow(inputs) matches Some(a) ==> wanted_dir(inputs) matches Some(d) && d < 8
            && direction_offset(d as int) == arrow_step(a)->0,
    decreases inputs.len(),
{
    if inputs.len() > 0 {
        lemma_wanted_dir_follows_last_arrow(inputs.drop_last());
    }
}

proof fn lemma_wanted_dir_range(inputs: Seq<GameInput>)
    ensures
        wanted_dir(inputs) is Some ==> wanted_dir(inputs)->0 < 8,
    decreases inputs.len(),
{
    if inputs.len() > 0 {
        lemma_wanted_dir_range(inputs.drop_last());
    }
}

/// The name of the run or idle animation of player `id`.
pub fn anim_name(id: u8, run: bool) -> (r: &'static str)
    ensures
        r@ == if run {
            if id == 1 {
                "run_p1"@
            } else {
                "run_p2"@
            }
        } else {
            if id == 1 {
                "idle_p1"@
            } else {
                "idle_p2"@
            }
        },
{
    if run {
        if id == 1 {
            "run_p1"
        } else {
            "run_p2"
        }
    } else {
        if id == 1 {
            "idle_p1"
        } else {
            "idle_p2"
        }
    }
}

impl Player {
    pub fn new(id: u8, x: i32, y: i32) -> (p: Self)
        ensures
            p == (Player {
                id,
                grid_x: x,
                grid_y: y,
                facing_dir: 0,
                state: PlayerState::Idle,
                checkpoint_x: x,
                checkpoint_y: y,
            }),
    {
        Player {
            id,
            grid_x: x,
            grid_y: y,
            facing_dir: 0,
            state: PlayerState::Idle,
            checkpoint_x: x,
            checkpoint_y: y,
        }
    }

    /// Whether the player is out of play (eliminated or won).
    pub open spec fn finished(&self) -> bool {
        self.state == PlayerState::Eliminated || self.state == PlayerState::Won
    }

    /// The direction asked for by `inputs`: the last movement input wins.
    pub fn wanted_direction(inputs: &[GameInput]) -> (r: Option<usize>)
        ensures
            r == wanted_dir(inputs@),
            r is Some ==> r->0 < 8,
    {
        proof {
            lemma_wanted_dir_range(inputs@);
        }
        let mut want: Option<usize> = None;
        let mut i: usize = 0;
        while i < inputs.len()
            invariant
                i <= inputs@.len(),
                wanted_dir(inputs@.subrange(0, i as int)) is Some ==> want == wanted_dir(
                    inputs@.subrange(0, i as int),
                ),
                wanted_dir(inputs@.subrange(0, i as int)) is None ==> want is None,
            decreases inputs@.len() - i,
        {
            let d = match inputs[i] {
                GameInput::MoveLeft => Some(6usize),
                GameInput::MoveRight => Some(2usize),
                GameInput::MoveUp => Some(0usize),
                GameInput::MoveDown => Some(4usize),
                _ => None,
            };
            let ghost pre = inputs@.subrange(0, i as int);
            if d.is_some() {
                want = d;
            }
            i = i + 1;
            assert(inputs@.subrange(0, i as int).drop_last() =~= pre);
        }
        assert(inputs@.subrange(0, inputs@.len() as int) =~= inputs@);
        want
    }

    /// One movement step after the cooldown has run out: move in the wanted
    /// direction unless a wall blocks, then apply the tile at the new cell (a
    /// trap eliminates, a checkpoint becomes the respawn point, the goal wins).
    /// Without a successful move a moving player goes idle. Eliminated and
    /// won players do nothing.
    pub fn step(&mut self, inputs: &[GameInput], world: &mut World) -> (out: StepOutcome)
        requires
            !old(self).finished() && wanted_dir(inputs@) is Some ==> i32::MIN <= old(self).grid_x
                + direction_offset(wanted_dir(inputs@)->0 as int).0 <= i32::MAX && i32::MIN <= old(
                self,
            ).grid_y + direction_offset(wanted_dir(inputs@)->0 as int).1 <= i32::MAX,
        ensures
            final(self).id == old(self).id,
            final(world).wf() == old(world).wf(),
            final(world).width() == old(world).width(),
            final(world).height() == old(world).height(),
            final(world).episode_data() == old(world).episode_data(),
            forall|cx: int, cy: int| #[trigger] final(world).tile_at(cx, cy) == old(world).tile_at(cx, cy),
            ({
                let dir = wanted_dir(inputs@);
                let target = if dir is Some {
                    spec_try_move(old(self).grid_x as int, old(self).grid_y as int, dir->0 as int, &*old(world))
                } else {
                    None
                };
                if old(self).finished() {
                    &&& *final(self) == *old(self)
                    &&& *final(world) == *old(world)
                    &&& out == StepOutcome { moved: false, anim: AnimRequest::Keep }
                } else if target is None {
                    &&& final(self).grid_x == old(self).grid_x
                    &&& final(self).grid_y == old(self).grid_y
                    &&& final(self).facing_dir == old(self).facing_dir
                    &&& final(self).checkpoint_x == old(self).checkpoint_x
                    &&& final(self).checkpoint_y == old(self).checkpoint_y
                    &&& final(self).state == if old(self).state == PlayerState::Moving {
                        PlayerState::Idle
                    } else {
                        old(self).state
                    }
                    &&& out == StepOutcome {
                        moved: false,
                        anim: if old(self).state == PlayerState::Moving {
                            AnimRequest::Idle
                        } else {
                            AnimRequest::Keep
                        },
                    }
                    &&& *final(world) == *old(world)
                } else {
                    let pos = target->0;
                    let nx = pos.0;
                    let ny = pos.1;
                    let trapped = old(world).trap_fires(nx, ny);
                    let cp = find_open_checkpoint(old(world).checkpoint_states(), nx, ny, 0);
                    &&& final(self).grid_x == nx
                    &&& final(self).grid_y == ny
                    &&& final(self).facing_dir == dir->0
                    &&& out.moved
                    &&& forall|cx: int, cy: int|
                        #[trigger] final(world).cooldown_at(cx, cy) == if trapped && cx == nx && cy == ny {
                            TRAP_COOLDOWN_FRAMES
                        } else {
                            old(world).cooldown_at(cx, cy)
                        }
                    &&& if trapped {
                        &&& final(self).state == PlayerState::Eliminated
                        &&& final(self).checkpoint_x == old(self).checkpoint_x
                        &&& final(self).checkpoint_y == old(self).checkpoint_y
                        &&& final(world).checkpoint_states() == old(world).checkpoint_states()
                        &&& out.anim == AnimRequest::Keep
                    } else {
                        &&& final(world).checkpoint_states() == if cp != -1 {
                            old(world).checkpoint_states().update(cp, (nx as i32, ny as i32, true))
                        } else {
                            old(world).checkpoint_states()
                        }
                        &&& final(self).checkpoint_x == if cp != -1 {
                            nx
                        } else {
                            old(self).checkpoint_x as int
                        }
                        &&& final(self).checkpoint_y == if cp != -1 {
                            ny
                        } else {
                            old(self).checkpoint_y as int
                        }
                        &&& if old(world).tile_at(nx, ny) == TileType::Goal {
                            final(self).state == PlayerState::Won && out.anim == AnimRequest::Keep
                        } else {
                            final(self).state == PlayerState::Moving && out.anim == AnimRequest::Run
                        }
                    }
                }
            }),
    {
        match self.state {
            PlayerState::Eliminated | PlayerState::Won => {
                return StepOutcome { moved: false, anim: AnimRequest::Keep };
            },
            _ => {},
        }
        let want = Player::wanted_direction(inputs);
        let target = match want {
            Some(dir) => try_move(self.grid_x, self.grid_y, dir, &*world),
            None => None,
        };
        match target {
            Some((new_x, new_y)) => {
                self.grid_x = new_x;
                self.grid_y = new_y;
                self.facing_dir = match want {
                    Some(d) => d,
                    None => self.facing_dir,
                };
                // Traps are checked after moving: the player stands on the trap.
                if world.check_trap(new_x, new_y) {
                    self.state = PlayerState::Eliminated;
                    return StepOutcome { moved: true, anim: AnimRequest::Keep };
                }
                if world.check_checkpoint(new_x, new_y) {
                    self.checkpoint_x = new_x;
                    self.checkpoint_y = new_y;
                }
                if world.check_goal(new_x, new_y) {
                    self.state = PlayerState::Won;
                    return StepOutcome { moved: true, anim: AnimRequest::Keep };
                }
                self.state = PlayerState::Moving;
                StepOutcome { moved: true, anim: AnimRequest::Run }
            },
            None => {
                match self.state {
                    PlayerState::Moving => {
                        self.state = PlayerState::Idle;
                        StepOutcome { moved: false, anim: AnimRequest::Idle }
                    },
                    _ => StepOutcome { moved: false, anim: AnimRequest::Keep },
                }
            },
        }
    }

    /// Respawn at the last checkpoint (after elimination).
    pub fn respawn(&mut self)
        ensures
            *final(self) == (Player {
                grid_x: old(self).checkpoint_x,
                grid_y: old(self).checkpoint_y,
                state: PlayerState::Idle,
                ..*old(self)
            }),
    {
        self.grid_x = self.checkpoint_x;
        self.grid_y = self.checkpoint_y;
        self.state = PlayerState::Idle;
    }
}

} // verus!
