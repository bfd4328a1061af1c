use voxparty::scene::{game_state_of, GameState, SaveData, SceneFlow, SceneState};

fn scene() -> SceneFlow {
    SceneFlow::new(SaveData::new())
}

#[test]
fn test_scene_state_enum_variants() {
    let states = [
        SceneState::Menu,
        SceneState::EpisodeSelect,
        SceneState::TitleCard,
        SceneState::Playing,
        SceneState::Victory,
        SceneState::GameOver,
        SceneState::Paused,
    ];
    assert_eq!(states.len(), 7);
}

#[test]
fn test_scene_state_to_game_state_mapping() {
    assert_eq!(SceneState::Menu, SceneState::Menu);
    assert_eq!(SceneState::EpisodeSelect, SceneState::EpisodeSelect);
    assert_eq!(SceneState::TitleCard, SceneState::TitleCard);
    assert_eq!(SceneState::Playing, SceneState::Playing);
    assert_eq!(SceneState::Paused, SceneState::Paused);
    assert_eq!(SceneState::Victory, SceneState::Victory);
    assert_eq!(SceneState::GameOver, SceneState::GameOver);
}

#[test]
fn test_game_state_default_is_menu() {
    let gs: GameState = GameState::default();
    assert_eq!(gs, GameState::Menu, "GameState::default() should be Menu");
}

#[test]
fn test_game_state_all_variants_exist() {
    let states = [
        GameState::Menu,
        GameState::EpisodeSelect,
        GameState::TitleCard,
        GameState::Playing,
        GameState::Paused,
        GameState::Victory,
        GameState::GameOver,
    ];
    assert_eq!(states.len(), 7);
}

#[test]
fn game_state_of_each_screen() {
    assert_eq!(game_state_of(SceneState::Menu), GameState::Menu);
    assert_eq!(game_state_of(SceneState::EpisodeSelect), GameState::EpisodeSelect);
    assert_eq!(game_state_of(SceneState::TitleCard), GameState::TitleCard);
    assert_eq!(game_state_of(SceneState::Playing), GameState::Playing);
    assert_eq!(game_state_of(SceneState::Paused), GameState::Paused);
    assert_eq!(game_state_of(SceneState::Victory), GameState::Victory);
    assert_eq!(game_state_of(SceneState::GameOver), GameState::GameOver);
}

#[test]
fn test_update_best_time_records_new_best() {
    let mut scene = scene();
    scene.save_data.best_times.clear();
    let result = scene.update_best_time("demo", 5000);
    assert!(result, "first time should be recorded as best");
    assert_eq!(scene.get_best_time_ms("demo"), Some(5000));
}

#[test]
fn test_update_best_time_replaces_slower_time() {
    let mut scene = scene();
    scene.save_data.best_times.clear();
    scene.update_best_time("demo", 5000);
    let result = scene.update_best_time("demo", 4000);
    assert!(result, "faster time should replace slower");
    assert_eq!(scene.get_best_time_ms("demo"), Some(4000));
}

#[test]
fn test_update_best_time_keeps_faster_time() {
    let mut scene = scene();
    scene.save_data.best_times.clear();
    scene.update_best_time("demo", 4000);
    let result = scene.update_best_time("demo", 5000);
    assert!(!result, "slower time should not replace faster");
    assert_eq!(scene.get_best_time_ms("demo"), Some(4000));
}

#[test]
fn best_time_is_minimum_per_episode() {
    let mut scene = scene();
    for t in [9000u64, 7000, 8000, 6500, 6500, 12000] {
        scene.update_best_time("demo", t);
    }
    scene.update_best_time("other", 100);
    assert_eq!(scene.get_best_time_ms("demo"), Some(6500));
    assert_eq!(scene.get_best_time_ms("other"), Some(100));
    assert_eq!(scene.get_best_time_ms("missing"), None);
}

#[test]
fn test_episode_select_up_wraps() {
    let mut scene = scene();
    scene.selected_episode_index = 0;
    scene.episode_select_up(5);
    assert_eq!(scene.selected_episode_index, 4);
}

#[test]
fn test_episode_select_down_wraps() {
    let mut scene = scene();
    scene.selected_episode_index = 4;
    scene.episode_select_down(5);
    assert_eq!(scene.selected_episode_index, 0);
}

#[test]
fn test_is_first_run_when_tutorial_not_shown() {
    let mut scene = scene();
    scene.save_data.tutorial_shown = false;
    assert!(scene.is_first_run());
}

#[test]
fn test_is_first_run_when_tutorial_shown() {
    let mut scene = scene();
    scene.save_data.tutorial_shown = true;
    assert!(!scene.is_first_run());
}

#[test]
fn test_request_tutorial_sets_visible() {
    let mut scene = scene();
    scene.save_data.tutorial_shown = false;
    scene.tutorial_visible = false;
    scene.request_tutorial();
    assert!(scene.tutorial_visible);
}

#[test]
fn test_request_tutorial_does_nothing_if_already_shown() {
    let mut scene = scene();
    scene.save_data.tutorial_shown = true;
    scene.tutorial_visible = false;
    scene.request_tutorial();
    assert!(!scene.tutorial_visible);
}

#[test]
fn test_dismiss_tutorial_sets_flag_and_saves() {
    let mut scene = scene();
    scene.save_data.tutorial_shown = false;
    scene.tutorial_visible = true;
    scene.dismiss_tutorial();
    assert!(!scene.tutorial_visible);
    assert!(scene.save_data.tutorial_shown);
}

#[test]
fn test_new_starts_with_default_values() {
    let scene = scene();
    assert_eq!(scene.state, SceneState::Menu);
    assert_eq!(scene.winner, None);
}

#[test]
fn pause_toggles_only_in_play() {
    let mut scene = scene();
    scene.toggle_pause();
    assert_eq!(scene.state, SceneState::Menu);
    scene.start_game();
    assert_eq!(scene.state, SceneState::TitleCard);
    scene.begin_tick();
    scene.finish_title_card();
    assert_eq!(scene.state, SceneState::Playing);
    assert!(scene.just_entered_playing());
    assert!(!scene.just_entered_playing());
    scene.toggle_pause();
    assert_eq!(scene.state, SceneState::Paused);
    scene.toggle_pause();
    assert_eq!(scene.state, SceneState::Playing);
    scene.trigger_victory(Some(2));
    assert_eq!((scene.state, scene.winner), (SceneState::Victory, Some(2)));
    scene.return_to_menu();
    assert_eq!((scene.state, scene.winner), (SceneState::Menu, None));
}

#[test]
fn episode_select_round_trip() {
    let mut scene = scene();
    scene.start_episode_select();
    assert_eq!(scene.state, SceneState::EpisodeSelect);
    for _ in 0..3 {
        scene.episode_select_down(4);
    }
    assert_eq!(scene.selected_episode_index, 3);
    scene.episode_select_down(4);
    assert_eq!(scene.selected_episode_index, 0);
    scene.episode_select_up(4);
    scene.episode_select_down(4);
    assert_eq!(scene.selected_episode_index, 0);
    scene.set_last_episode("episode2");
    assert_eq!(scene.save_data.last_episode, Some("episode2".to_string()));
}
