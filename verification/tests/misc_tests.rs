use voxparty::episode::{Episode, FailCondition, NpcDef, WinCondition};
use voxparty::npc::{EpisodeNpcs, Npc, NpcComponent, NpcDialogueState, BUBBLE_MS};
use voxparty::particles::{
    burst_size, particle_size, spawn_count, sparkle_is_white, ParticleColor, ParticleSpawner, ParticleType,
    MAX_PARTICLES,
};
use voxparty::player::{Player, PlayerState};
use voxparty::sprites::{find_frame, resolve_frames, AnimPlayer, SpriteFrame};
use voxparty::touch::{axis_inputs, gamepad_rects, quick_enough, AxisDir, FingerTracker, GameInput, ScreenRect};

#[test]
fn test_particle_color_golden() {
    let c = ParticleColor::golden();
    assert_eq!(c.0, 255);
    assert_eq!(c.1, 215);
    assert_eq!(c.2, 80);
}

#[test]
fn test_particle_color_white() {
    let c = ParticleColor::white();
    assert_eq!(c.0, 255);
    assert_eq!(c.1, 255);
    assert_eq!(c.2, 255);
}

#[test]
fn test_particle_color_grey() {
    let c = ParticleColor::grey();
    assert_eq!(c.0, 180);
    assert_eq!(c.1, 180);
    assert_eq!(c.2, 180);
}

#[test]
fn test_particle_color_red() {
    let c = ParticleColor::red();
    assert_eq!(c.0, 255);
    assert_eq!(c.1, 60);
    assert_eq!(c.2, 60);
}

#[test]
fn test_particle_spawner_default() {
    let spawner = ParticleSpawner::new();
    assert_eq!(spawner.dust_color, ParticleColor::grey());
    assert_eq!(spawner.sparkle_color, ParticleColor::golden());
    assert_eq!(spawner.flash_color, ParticleColor::red());
}

#[test]
fn burst_counts_respect_cap() {
    assert_eq!(spawn_count(0, ParticleType::CheckpointSparkle), 8);
    assert_eq!(spawn_count(0, ParticleType::TrapFlash), 16);
    assert_eq!(spawn_count(0, ParticleType::MovementDust), 4);
    assert_eq!(spawn_count(45, ParticleType::TrapFlash), 5);
    assert_eq!(spawn_count(50, ParticleType::MovementDust), 0);
    assert_eq!(spawn_count(70, ParticleType::MovementDust), 0);
    let mut live = 0usize;
    for _ in 0..10 {
        live += spawn_count(live, ParticleType::TrapFlash);
        assert!(live <= MAX_PARTICLES);
    }
    assert_eq!(live, MAX_PARTICLES);
    assert_eq!(burst_size(ParticleType::MovementDust), 4);
    assert_eq!(particle_size(ParticleType::TrapFlash), 6);
    assert!(sparkle_is_white(0) && !sparkle_is_white(3));
}

#[test]
fn joystick_axes_to_inputs() {
    assert!(axis_inputs(AxisDir::Neutral, AxisDir::Neutral).is_empty());
    assert_eq!(axis_inputs(AxisDir::Negative, AxisDir::Neutral), vec![GameInput::MoveLeft]);
    assert_eq!(axis_inputs(AxisDir::Positive, AxisDir::Negative), vec![GameInput::MoveRight, GameInput::MoveUp]);
    assert_eq!(axis_inputs(AxisDir::Negative, AxisDir::Positive), vec![GameInput::MoveLeft, GameInput::MoveDown]);
}

#[test]
fn fingers_keep_their_player() {
    let mut t = FingerTracker::new();
    assert_eq!(t.get_player(7, true), 1);
    assert_eq!(t.get_player(9, false), 2);
    assert_eq!(t.player_of(7), Some(1));
    assert_eq!(t.release(7), Some(1));
    assert_eq!(t.release(7), None);
    assert_eq!(t.player_of(9), Some(2));
}

#[test]
fn tap_duration() {
    assert!(quick_enough(1_000, 201_000));
    assert!(!quick_enough(1_000, 201_001));
    assert!(quick_enough(5_000, 1_000));
}

#[test]
fn gamepad_layout_geometry() {
    let r = gamepad_rects(1280, 720, true, false, false, true, false);
    assert_eq!(r.len(), 11);
    assert_eq!(r[0].0, ScreenRect { x: 0, y: 520, w: 1280, h: 200 });
    assert_eq!(r[1].0, ScreenRect { x: 84, y: 595, w: 50, h: 50 });
    assert_eq!(r[4].0, ScreenRect { x: 60, y: 595, w: 24, h: 50 });
    assert_eq!((r[4].1.r, r[4].1.g), (255, 200));
    assert_eq!((r[5].1.r, r[5].1.g), (80, 80));
    assert_eq!(r[6].0, ScreenRect { x: 1168, y: 608, w: 25, h: 25 });
    assert_eq!(r[10].0, ScreenRect { x: 1167, y: 617, w: 26, h: 6 });
    let small = gamepad_rects(300, 100, false, false, false, false, true);
    assert_eq!(small[0].0.y, 0);
}

#[test]
fn sprite_frames_resolve_in_order() {
    let frames = vec![
        ("idle".to_string(), SpriteFrame { x: 0, y: 0, w: 64, h: 64 }),
        ("run0".to_string(), SpriteFrame { x: 64, y: 0, w: 64, h: 64 }),
    ];
    assert_eq!(find_frame(&frames, "run0"), Some(SpriteFrame { x: 64, y: 0, w: 64, h: 64 }));
    assert_eq!(find_frame(&frames, "jump"), None);
    let names = vec!["run0".to_string(), "missing".to_string(), "idle".to_string()];
    assert_eq!(resolve_frames(&frames, &names), vec![frames[1].1, frames[0].1]);
}

#[test]
fn anim_player_restarts_only_when_asked() {
    let mut a = AnimPlayer::new();
    assert!(a.play("run", false));
    a.advance(3);
    a.advance(3);
    assert_eq!(a.frame_index, 2);
    assert!(!a.play("run", false));
    assert_eq!(a.frame_index, 2);
    a.advance(3);
    assert_eq!(a.frame_index, 0);
    a.advance(3);
    assert!(a.play("run", true));
    assert_eq!(a.frame_index, 0);
    assert!(a.play("idle", false));
    assert_eq!(a.current_anim, Some("idle".to_string()));
}

#[test]
fn npc_dialogue_cycles() {
    let mut n = Npc::new(1, 2, "Sage".to_string(), vec!["Hello".to_string(), "Bye".to_string()]);
    assert_eq!(n.current_line_text(), Some("Bye"));
    assert_eq!(n.interact(), Some("Hello"));
    assert_eq!(n.current_line_text(), Some("Hello"));
    assert_eq!(n.interact(), Some("Bye"));
    assert_eq!(n.interact(), Some("Hello"));
    let mut quiet = Npc::new(0, 0, "Mute".to_string(), vec![]);
    assert_eq!(quiet.interact(), None);
    assert_eq!(quiet.current_line_text(), None);
}

#[test]
fn player_respawns_at_checkpoint() {
    let mut p = Player::new(1, 2, 3);
    assert_eq!(p.state, PlayerState::Idle);
    p.grid_x = 9;
    p.state = PlayerState::Eliminated;
    p.respawn();
    assert_eq!((p.grid_x, p.grid_y, p.state), (2, 3, PlayerState::Idle));
    assert_eq!(Player::wanted_direction(&[GameInput::MoveUp, GameInput::Jump, GameInput::MoveLeft]), Some(6));
    assert_eq!(Player::wanted_direction(&[GameInput::Jump]), None);
}

fn npc_def(x: i32, y: i32, name: &str, lines: &[&str]) -> NpcDef {
    NpcDef { x, y, name: name.to_string(), dialogue: lines.iter().map(|l| l.to_string()).collect() }
}

#[test]
fn npc_component_steps_through_lines_then_closes() {
    let def = npc_def(4, 7, "Sage", &["Hello", "Beware the lava", "Good luck"]);
    let mut npc = NpcComponent::from_def(&def, 3);
    assert_eq!(npc.npc_id, 3);
    assert_eq!((npc.grid_x, npc.grid_y), (4, 7));
    assert_eq!(npc.name, "Sage");
    assert_eq!(npc.dialogue_state, NpcDialogueState::Hidden);
    assert!(!npc.bubble_visible());
    assert_eq!(npc.current_line_text(), Some("Hello"));

    npc.show_dialogue();
    assert!(npc.bubble_visible());
    assert_eq!(npc.bubble_ms, BUBBLE_MS);

    assert!(npc.advance_dialogue());
    assert_eq!(npc.current_line_text(), Some("Beware the lava"));
    assert!(npc.bubble_visible());
    assert!(npc.advance_dialogue());
    assert_eq!(npc.current_line_text(), Some("Good luck"));
    assert!(!npc.seen_by_player);

    assert!(!npc.advance_dialogue());
    assert_eq!(npc.current_line_text(), Some("Hello"));
    assert_eq!(npc.dialogue_state, NpcDialogueState::Hidden);
    assert_eq!(npc.bubble_ms, 0);
    assert!(npc.seen_by_player);
    assert!(!npc.bubble_visible());
}

#[test]
fn npc_component_without_lines_stays_hidden() {
    let mut npc = NpcComponent::from_def(&npc_def(0, 0, "Mute", &[]), 0);
    npc.show_dialogue();
    assert!(!npc.bubble_visible());
    assert!(!npc.advance_dialogue());
    assert_eq!(npc.current_line_text(), None);
    npc.dismiss_dialogue();
    assert!(npc.seen_by_player);
    assert_eq!(npc.dialogue_state, NpcDialogueState::Hidden);
}

#[test]
fn episode_npcs_keyed_by_index() {
    let mut ep = voxparty_episode();
    ep.npcs = vec![npc_def(1, 1, "A", &["a"]), npc_def(2, 2, "B", &["b"])];
    let table = EpisodeNpcs::from_episode(&ep);
    assert_eq!(table.npcs.len(), 2);
    assert_eq!(table.npcs[&0].name, "A");
    assert_eq!(table.npcs[&1].name, "B");
    assert_eq!(table.npcs[&1].npc_id, 1);
    assert_eq!((table.npcs[&1].grid_x, table.npcs[&1].grid_y), (2, 2));
}

#[test]
fn episode_npcs_index_wraps_past_255() {
    let mut ep = voxparty_episode();
    ep.npcs = (0..258).map(|i| npc_def(i, 0, &format!("n{}", i), &[])).collect();
    let table = EpisodeNpcs::from_episode(&ep);
    assert_eq!(table.npcs.len(), 256);
    assert_eq!(table.npcs[&0].name, "n256");
    assert_eq!(table.npcs[&1].name, "n257");
    assert_eq!(table.npcs[&2].name, "n2");
}

fn voxparty_episode() -> Episode {
    Episode {
        id: "ep_npc".to_string(),
        title: "Test".to_string(),
        mode: "solo".to_string(),
        theme: "cave".to_string(),
        duration_target_seconds: 60,
        tile_width: 64,
        tile_height: 32,
        grid_width: 4,
        grid_height: 4,
        tiles: vec![],
        npcs: vec![],
        checkpoints: vec![],
        spawn_points: vec![],
        win_condition: WinCondition { cond_type: "reach_goal".to_string() },
        fail_condition: FailCondition { cond_type: "fall_off_map".to_string() },
    }
}

#[test]
fn steps_at_the_edge_of_the_integer_range() {
    let mut world = voxparty::world::World::from_episode(voxparty_episode());
    let mut done = Player::new(1, i32::MAX, i32::MIN);
    done.state = PlayerState::Eliminated;
    let out = done.step(&[GameInput::MoveRight], &mut world);
    assert!(!out.moved);
    assert_eq!((done.grid_x, done.grid_y), (i32::MAX, i32::MIN));
    assert_eq!(done.state, PlayerState::Eliminated);

    let mut far = Player::new(2, i32::MAX, 0);
    let out = far.step(&[GameInput::MoveLeft], &mut world);
    assert!(out.moved);
    assert_eq!((far.grid_x, far.grid_y), (i32::MAX - 1, 0));
}
