use voxparty::episode::{CheckpointDef, Episode, FailCondition, TileDef, WinCondition};
use voxparty::world::{TileType, World, TRAP_COOLDOWN_FRAMES};
use voxparty::collision::try_move;

fn tile(x: i32, y: i32, t: &str) -> TileDef {
    TileDef { x, y, tile_type: t.to_string() }
}

fn episode(id: &str, w: i32, h: i32, tiles: Vec<TileDef>, checkpoints: Vec<CheckpointDef>) -> Episode {
    Episode {
        id: id.to_string(),
        title: "Test".to_string(),
        mode: "solo".to_string(),
        theme: "cave".to_string(),
        duration_target_seconds: 60,
        tile_width: 64,
        tile_height: 32,
        grid_width: w,
        grid_height: h,
        tiles,
        npcs: vec![],
        checkpoints,
        spawn_points: vec![],
        win_condition: WinCondition { cond_type: "reach_goal".to_string() },
        fail_condition: FailCondition { cond_type: "fall_off_map".to_string() },
    }
}

fn make_world_with_tiles() -> World {
    World::from_episode(episode(
        "ep_test",
        5,
        5,
        vec![
            tile(1, 1, "stone_solid"),
            tile(2, 2, "lava_trap"),
            tile(3, 3, "save_checkpoint"),
            tile(4, 4, "exit_goal"),
        ],
        vec![CheckpointDef { x: 3, y: 3 }],
    ))
}

#[test]
fn test_get_tile_out_of_bounds_returns_passable() {
    let world = make_world_with_tiles();
    assert_eq!(world.get_tile(-1, 0), TileType::Passable);
    assert_eq!(world.get_tile(0, -1), TileType::Passable);
    assert_eq!(world.get_tile(5, 0), TileType::Passable);
    assert_eq!(world.get_tile(0, 5), TileType::Passable);
}

#[test]
fn test_get_tile_unknown_type_defaults_to_passable() {
    let world = World::from_episode(episode("ep_test2", 3, 3, vec![tile(1, 1, "unknown_type")], vec![]));
    assert_eq!(world.get_tile(1, 1), TileType::Passable);
}

#[test]
fn test_is_solid() {
    let world = make_world_with_tiles();
    assert!(world.is_solid(1, 1));
    assert!(!world.is_solid(0, 0));
    assert!(!world.is_solid(2, 2));
}

#[test]
fn test_check_trap_first_trigger() {
    let mut world = make_world_with_tiles();
    assert!(world.check_trap(2, 2));
}

#[test]
fn test_check_trap_cooldown_blocks_retrigger() {
    let mut world = make_world_with_tiles();
    assert!(world.check_trap(2, 2));
    assert!(!world.check_trap(2, 2), "trap should be on cooldown");
}

#[test]
fn test_check_trap_non_trap_tile_returns_false() {
    let mut world = make_world_with_tiles();
    assert!(!world.check_trap(1, 1));
    assert!(!world.check_trap(0, 0));
}

#[test]
fn test_tick_trap_cooldowns_decrements() {
    let mut world = make_world_with_tiles();
    assert!(world.check_trap(2, 2));
    world.tick_trap_cooldowns();
    assert!(!world.check_trap(2, 2));
}

#[test]
fn test_tick_trap_cooldowns_does_not_below_zero() {
    let mut world = World::from_episode(episode("ep_test3", 3, 3, vec![tile(1, 1, "lava_trap")], vec![]));
    world.tick_trap_cooldowns();
    assert!(world.check_trap(1, 1));
}

#[test]
fn test_check_checkpoint_first_activation() {
    let mut world = make_world_with_tiles();
    assert!(world.check_checkpoint(3, 3));
}

#[test]
fn test_check_checkpoint_already_activated_returns_false() {
    let mut world = make_world_with_tiles();
    world.check_checkpoint(3, 3);
    assert!(!world.check_checkpoint(3, 3));
}

#[test]
fn test_check_checkpoint_non_checkpoint_returns_false() {
    let mut world = make_world_with_tiles();
    assert!(!world.check_checkpoint(1, 1));
    assert!(!world.check_checkpoint(0, 0));
}

#[test]
fn test_check_goal() {
    let world = make_world_with_tiles();
    assert!(world.check_goal(4, 4));
    assert!(!world.check_goal(0, 0));
}

#[test]
fn test_tiles_at_depth_filters_by_depth() {
    let world = make_world_with_tiles();
    let at_depth_2 = world.tiles_at_depth(2);
    assert!(at_depth_2.iter().any(|(x, y, _)| *x == 1 && *y == 1));
    let at_depth_4 = world.tiles_at_depth(4);
    assert!(at_depth_4.iter().any(|(x, y, _)| *x == 2 && *y == 2));
    let empty = world.tiles_at_depth(100);
    assert!(empty.is_empty());
}

#[test]
fn test_tiles_at_depth_excludes_passable() {
    let world = make_world_with_tiles();
    let at_depth_0 = world.tiles_at_depth(0);
    for (x, y, t) in at_depth_0 {
        assert_ne!(t, TileType::Passable, "tile at ({}, {}) should not be Passable", x, y);
    }
}

fn make_episode() -> Episode {
    episode(
        "ep_test",
        5,
        5,
        vec![tile(1, 1, "stone_solid"), tile(2, 2, "lava_trap"), tile(3, 3, "grass_goal")],
        vec![CheckpointDef { x: 3, y: 3 }],
    )
}

#[test]
fn test_voxparty_world_get_tile() {
    let world = World::from_episode(make_episode());
    assert_eq!(world.get_tile(1, 1), TileType::Solid);
    assert_eq!(world.get_tile(2, 2), TileType::Trap);
    assert_eq!(world.get_tile(3, 3), TileType::Goal);
    assert_eq!(world.get_tile(0, 0), TileType::Passable);
}

#[test]
fn test_voxparty_world_is_solid() {
    let world = World::from_episode(make_episode());
    assert!(world.is_solid(1, 1));
    assert!(!world.is_solid(0, 0));
    assert!(!world.is_solid(2, 2));
}

#[test]
fn test_voxparty_world_check_trap() {
    let mut world = World::from_episode(make_episode());
    assert!(world.check_trap(2, 2));
    assert!(!world.check_trap(2, 2), "trap should be on cooldown");
}

#[test]
fn test_voxparty_world_check_checkpoint() {
    let mut world = World::from_episode(make_episode());
    assert!(world.check_checkpoint(3, 3));
    assert!(!world.check_checkpoint(3, 3), "checkpoint already activated");
    assert!(!world.check_checkpoint(1, 1));
}

#[test]
fn test_voxparty_world_is_goal() {
    let world = World::from_episode(make_episode());
    assert!(!world.check_goal(0, 0));
    assert!(!world.check_goal(1, 1));
}

#[test]
fn trap_rearms_after_cooldown() {
    let mut world = make_world_with_tiles();
    assert!(world.check_trap(2, 2));
    for _ in 0..(TRAP_COOLDOWN_FRAMES - 1) {
        world.tick_trap_cooldowns();
        assert!(!world.check_trap(2, 2));
    }
    world.tick_trap_cooldowns();
    assert!(world.check_trap(2, 2));
}

#[test]
fn later_tile_definition_wins() {
    let world = World::from_episode(episode(
        "ep_over",
        3,
        3,
        vec![tile(1, 1, "stone_solid"), tile(1, 1, "lava_trap"), tile(7, 7, "exit_goal")],
        vec![],
    ));
    assert_eq!(world.get_tile(1, 1), TileType::Trap);
    assert_eq!(world.get_tile(2, 2), TileType::Passable);
}

#[test]
fn tiles_at_depth_lists_row_major() {
    let world = World::from_episode(episode(
        "ep_depth",
        4,
        4,
        vec![tile(2, 0, "stone_solid"), tile(0, 2, "exit_goal"), tile(1, 1, "lava_trap")],
        vec![],
    ));
    let d = world.tiles_at_depth(2);
    assert_eq!(d, vec![(2, 0, TileType::Solid), (1, 1, TileType::Trap), (0, 2, TileType::Goal)]);
}

#[test]
fn try_move_blocks_solid_allows_falling_off() {
    let world = make_world_with_tiles();
    // from (0, 0): south-east (direction 3) is the solid cell (1, 1)
    assert_eq!(try_move(0, 0, 3, &world), None);
    // north leaves the grid: allowed, the player falls off
    assert_eq!(try_move(0, 0, 0, &world), Some((0, -1)));
    // east is open
    assert_eq!(try_move(0, 0, 2, &world), Some((1, 0)));
}

#[test]
fn try_move_from_the_edge_of_the_integer_range() {
    let world = make_world_with_tiles();
    // far outside the grid, a step that does not overflow is taken
    assert_eq!(try_move(i32::MAX, 0, 6, &world), Some((i32::MAX - 1, 0)));
    assert_eq!(try_move(i32::MIN, i32::MAX, 0, &world), Some((i32::MIN, i32::MAX - 1)));
    assert_eq!(try_move(i32::MAX, 3, 4, &world), Some((i32::MAX, 4)));
}
