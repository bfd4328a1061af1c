use voxparty::audio::{
    audio_cue, music_mood, step_material, synth_sfx, AudioCue, AudioEvent, AudioPlugin, MusicMood,
    StepMaterial, SynthSfx,
};

#[test]
fn test_audio_event_move_constructible() {
    let event = AudioEvent::Move;
    assert!(matches!(event, AudioEvent::Move));
}

#[test]
fn test_audio_event_step_grass() {
    let event = AudioEvent::Step("grass".to_string());
    assert!(matches!(event, AudioEvent::Step(s) if s == "grass"));
}

#[test]
fn test_audio_event_step_lava() {
    let event = AudioEvent::Step("lava_trap".to_string());
    assert!(matches!(event, AudioEvent::Step(s) if s == "lava_trap"));
}

#[test]
fn test_audio_event_step_distinct() {
    let grass = AudioEvent::Step("grass".to_string());
    let lava = AudioEvent::Step("lava".to_string());
    assert_eq!(std::mem::discriminant(&grass), std::mem::discriminant(&lava));
    assert_ne!(grass, lava);
    let trap = AudioEvent::Trap;
    assert_ne!(std::mem::discriminant(&grass), std::mem::discriminant(&trap));
}

#[test]
fn test_audio_event_trap() {
    let event = AudioEvent::Trap;
    assert!(matches!(event, AudioEvent::Trap));
}

#[test]
fn test_audio_event_checkpoint() {
    let event = AudioEvent::Checkpoint;
    assert!(matches!(event, AudioEvent::Checkpoint));
}

#[test]
fn test_audio_event_victory() {
    let event = AudioEvent::Victory;
    assert!(matches!(event, AudioEvent::Victory));
}

#[test]
fn test_audio_event_gameover() {
    let event = AudioEvent::GameOver;
    assert!(matches!(event, AudioEvent::GameOver));
}

#[test]
fn test_audio_event_music_episode() {
    let event = AudioEvent::MusicEpisode("grassland".to_string());
    assert!(matches!(event, AudioEvent::MusicEpisode(s) if s == "grassland"));
}

#[test]
fn test_audio_event_clone() {
    let event = AudioEvent::Trap;
    let cloned = event.clone();
    assert!(matches!(cloned, AudioEvent::Trap));
}

#[test]
fn test_audio_event_debug() {
    let event = AudioEvent::Step("stone".to_string());
    let debug_str = format!("{:?}", event);
    assert!(debug_str.contains("Step"));
    assert!(debug_str.contains("stone"));
}

#[test]
fn audio_plugin_constructs() {
    let _p = AudioPlugin::new();
}

#[test]
fn step_material_by_prefix() {
    assert_eq!(step_material("grass_passable"), StepMaterial::Grass);
    assert_eq!(step_material("stone_solid"), StepMaterial::Stone);
    assert_eq!(step_material("ice_trap"), StepMaterial::Ice);
    assert_eq!(step_material("snow_solid"), StepMaterial::Ice);
    assert_eq!(step_material("lava_trap"), StepMaterial::Lava);
    assert_eq!(step_material("bridge_passable"), StepMaterial::Bridge);
    assert_eq!(step_material("wood_floor"), StepMaterial::Bridge);
    assert_eq!(step_material("exit_goal"), StepMaterial::Default);
    assert_eq!(step_material("gras"), StepMaterial::Default);
    assert_eq!(step_material(""), StepMaterial::Default);
}

#[test]
fn synth_sfx_names() {
    assert_eq!(synth_sfx("jump"), Some(SynthSfx::Move));
    assert_eq!(synth_sfx("move"), Some(SynthSfx::Move));
    assert_eq!(synth_sfx("eliminate"), Some(SynthSfx::Trap));
    assert_eq!(synth_sfx("trap"), Some(SynthSfx::Trap));
    assert_eq!(synth_sfx("checkpoint"), Some(SynthSfx::Checkpoint));
    assert_eq!(synth_sfx("win"), Some(SynthSfx::Victory));
    assert_eq!(synth_sfx("victory"), Some(SynthSfx::Victory));
    assert_eq!(synth_sfx("Move"), None);
    assert_eq!(synth_sfx("splash"), None);
}

#[test]
fn music_moods_by_theme() {
    assert_eq!(music_mood("demo"), MusicMood::Festive);
    assert_eq!(music_mood("grass"), MusicMood::Festive);
    assert_eq!(music_mood("episode2"), MusicMood::Tense);
    assert_eq!(music_mood("lava"), MusicMood::Tense);
    assert_eq!(music_mood("episode3"), MusicMood::Ethereal);
    assert_eq!(music_mood("ice"), MusicMood::Ethereal);
    assert_eq!(music_mood("episode4"), MusicMood::Mysterious);
    assert_eq!(music_mood("night"), MusicMood::Mysterious);
    assert_eq!(music_mood("grassland"), MusicMood::Ambient);
}

#[test]
fn cues_for_events() {
    assert!(matches!(audio_cue(&AudioEvent::Move), AudioCue::Sfx(s) if s == "move"));
    assert!(matches!(audio_cue(&AudioEvent::Trap), AudioCue::Sfx(s) if s == "trap"));
    assert!(matches!(audio_cue(&AudioEvent::Checkpoint), AudioCue::Sfx(s) if s == "checkpoint"));
    assert!(matches!(
        audio_cue(&AudioEvent::Step("lava_trap".to_string())),
        AudioCue::Step(StepMaterial::Lava)
    ));
    assert!(matches!(audio_cue(&AudioEvent::Victory), AudioCue::VictoryJingle));
    assert!(matches!(audio_cue(&AudioEvent::GameOver), AudioCue::GameOverSound));
    assert!(matches!(audio_cue(&AudioEvent::MusicEpisode("x".to_string())), AudioCue::MusicStub));
}
