use voxparty::debug::{minimap_color, DebugInputState, DebugOverlay};
use voxparty::episode::{Episode, FailCondition, TileDef, WinCondition};
use voxparty::health::{CheckResult, Color, HealthResults};
use voxparty::overlay_text::{
    draw_calls_line, health_labels, input_line, player_lines, scene_line, state_summary, time_line, world_lines,
};
use voxparty::player::{Player, PlayerState};
use voxparty::scene::SceneState;
use voxparty::sprite_store::SpriteStore;
use voxparty::text::contains_str;
use voxparty::world::{TileType, World};

fn episode_with(tiles: Vec<TileDef>) -> Episode {
    Episode {
        id: "ep_overlay".to_string(),
        title: "Test".to_string(),
        mode: "solo".to_string(),
        theme: "cave".to_string(),
        duration_target_seconds: 60,
        tile_width: 64,
        tile_height: 32,
        grid_width: 4,
        grid_height: 4,
        tiles,
        npcs: vec![],
        checkpoints: vec![],
        spawn_points: vec![],
        win_condition: WinCondition { cond_type: "reach_goal".to_string() },
        fail_condition: FailCondition { cond_type: "fall_off_map".to_string() },
    }
}

#[test]
fn overlay_system_lines() {
    assert_eq!(draw_calls_line(7), "  DC.....   7");
    assert_eq!(draw_calls_line(12345), "  DC.....12345");
    assert_eq!(scene_line(SceneState::EpisodeSelect), "  SCENE..EpisodeSelect");
    assert_eq!(time_line(0), "  TIME...00:00");
    assert_eq!(time_line(75), "  TIME...01:15");
    assert_eq!(time_line(6000), "  TIME...100:00");
}

#[test]
fn overlay_player_and_world_lines() {
    let mut p1 = Player::new(1, 4, 3);
    let mut p2 = Player::new(2, -2, 4);
    p2.state = PlayerState::Eliminated;
    p1.state = PlayerState::Moving;
    let lines = player_lines(&p1, &p2, (-416, -152), (10, 20));
    assert_eq!(
        lines,
        vec![
            "  P1 grid=(4,3) [Moving]".to_string(),
            "  P1 scr=(-416,-152)".to_string(),
            "  P2 grid=(-2,4) [Elim]".to_string(),
            "  P2 scr=(10,20)".to_string(),
        ]
    );
    let mut o = DebugOverlay::new();
    o.set_mouse_grid(4, 2);
    assert_eq!(
        world_lines(&o, (320, 180)),
        vec!["  HOVER grid=(4,2) depth=6".to_string(), "  MOUSE scr=(320,180)".to_string()]
    );
    let input = DebugInputState { p1_dirs: "L---".to_string(), p2_dirs: "----".to_string() };
    assert_eq!(input_line(&input), "  P1:[L---]  P2:[----]");
}

#[test]
fn overlay_health_labels() {
    let h = HealthResults {
        camera: CheckResult::Pass,
        fps: CheckResult::Warn,
        player1: CheckResult::Pass,
        player2: CheckResult::Fail,
    };
    assert_eq!(
        health_labels(&h),
        vec!["CAM..[OK]".to_string(), "FPS..[WARN]".to_string(), "PLR..[FAIL]".to_string()]
    );
}

#[test]
fn console_state_summary_lines() {
    let p1 = Player::new(1, 3, 5);
    let mut p2 = Player::new(2, 0, -1);
    p2.state = PlayerState::Won;
    let lines = state_summary(
        SceneState::Playing,
        &Some("ep1".to_string()),
        &p1,
        &p2,
        true,
        false,
        "12.5",
        "(1.0, -2.5)",
    );
    assert_eq!(
        lines,
        vec![
            "=== Game State ===".to_string(),
            "Scene: Playing".to_string(),
            "Time: 12.5s".to_string(),
            "Episode: ep1".to_string(),
            "God mode: true".to_string(),
            "FPS visible: false".to_string(),
            "P1: (3, 5) Idle".to_string(),
            "P2: (0, -1) Won".to_string(),
            "Camera: (1.0, -2.5)".to_string(),
        ]
    );
    let none = state_summary(SceneState::Menu, &None, &p1, &p2, false, true, "0.0", "(0.0, 0.0)");
    assert_eq!(none[3], "Episode: none");
}

#[test]
fn minimap_colours_follow_tile_names() {
    let c = |r, g, b| Color { r, g, b, a: 255 };
    assert_eq!(minimap_color(TileType::Passable, "lava_floor_passable"), c(200, 60, 30));
    assert_eq!(minimap_color(TileType::Passable, "volcanic_rock"), c(200, 60, 30));
    assert_eq!(minimap_color(TileType::Passable, "ice_passable"), c(150, 200, 220));
    assert_eq!(minimap_color(TileType::Passable, "frozen_lake"), c(150, 200, 220));
    assert_eq!(minimap_color(TileType::Passable, "ocean_shallow"), c(60, 120, 200));
    assert_eq!(minimap_color(TileType::Passable, "grass_passable"), c(60, 180, 60));
    assert_eq!(minimap_color(TileType::Passable, ""), c(60, 180, 60));
    assert_eq!(minimap_color(TileType::Solid, "lava_solid"), c(100, 100, 100));
    assert_eq!(minimap_color(TileType::Trap, "ice_trap"), c(200, 60, 30));
    assert_eq!(minimap_color(TileType::Checkpoint, "x"), c(255, 200, 0));
    assert_eq!(minimap_color(TileType::Goal, "x"), c(255, 215, 0));
}

#[test]
fn world_tile_names_last_definition_wins() {
    let world = World::from_episode(episode_with(vec![
        TileDef { x: 1, y: 1, tile_type: "grass_passable".to_string() },
        TileDef { x: 1, y: 1, tile_type: "snow_passable".to_string() },
        TileDef { x: 2, y: 0, tile_type: "stone_solid".to_string() },
    ]));
    assert_eq!(world.tile_name(1, 1), "snow_passable");
    assert_eq!(world.tile_name(2, 0), "stone_solid");
    assert_eq!(world.tile_name(3, 3), "");
}

#[test]
fn substring_search() {
    assert!(contains_str("lava_trap", "lava"));
    assert!(contains_str("deep_water", "water"));
    assert!(contains_str("abc", ""));
    assert!(!contains_str("ic", "ice"));
    assert!(!contains_str("grass", "snow"));
}

#[test]
fn sprite_store_lookup_and_missing_name() {
    let mut store: SpriteStore<u32> = SpriteStore::new();
    assert_eq!(store.get("hero").unwrap_err(), "Sprite not found: hero");
    store.insert("hero".to_string(), 1);
    store.insert("tiles".to_string(), 2);
    store.insert("hero".to_string(), 3);
    assert_eq!(*store.get("hero").unwrap(), 3);
    assert_eq!(*store.get("tiles").unwrap(), 2);
    assert_eq!(store.get("npc").unwrap_err(), "Sprite not found: npc");
}
