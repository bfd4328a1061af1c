//! Episode (level) description: grid size, tiles, NPCs, checkpoints, spawns.
use vstd::prelude::*;

verus! {

/// Where a player starts.
#[derive(Debug, Clone)]
pub struct SpawnPoint {
    pub x: i32,
    pub y: i32,
    pub player: u8,
}

/// An NPC placed on the grid with its dialogue lines.
#[derive(Debug, Clone)]
pub struct NpcDef {
    pub x: i32,
    pub y: i32,
    pub name: String,
    pub dialogue: Vec<String>,
}

/// A tile placed on the grid; `tile_type` is a name such as `"stone_solid"`.
#[derive(Debug, Clone)]
pub struct TileDef {
    pub x: i32,
    pub y: i32,
    pub tile_type: String,
}

/// A checkpoint cell.
#[derive(Debug, Clone)]
pub struct CheckpointDef {
    pub x: i32,
    pub y: i32,
}

/// How an episode is won (e.g. `"reach_goal"`).
#[derive(Debug, Clone)]
pub struct WinCondition {
    pub cond_type: String,
}

/// How an episode is lost (e.g. `"fall_off_map"`).
#[derive(Debug, Clone)]
pub struct FailCondition {
    pub cond_type: String,
}

/// A complete episode description.
#[derive(Debug, Clone)]
pub struct Episode {
    pub id: String,
    pub title: String,
    pub mode: String,
    pub theme: String,
    pub duration_target_seconds: u32,
    pub tile_width: u32,
    pub tile_height: u32,
    pub grid_width: i32,
    pub grid_height: i32,
    pub tiles: Vec<TileDef>,
    pub npcs: Vec<NpcDef>,
    pub checkpoints: Vec<CheckpointDef>,
    pub spawn_points: Vec<SpawnPoint>,
    pub win_condition: WinCondition,
    pub fail_condition: FailCondition,
}

} // verus!
