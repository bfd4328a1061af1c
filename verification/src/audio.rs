//! Sound requests and the choice of sound they lead to: the footstep
//! material of a tile, the synthesized fallback for a named effect, and the
//! music mood of an episode theme. Producing the waveforms is the caller's.
use vstd::prelude::*;
use vstd::string::StringExecFns;
use crate::text::{seq_starts_with, starts_with, str_eq};

verus! {

/// A sound request raised by the game.
#[derive(Debug, Clone, PartialEq)]
pub enum AudioEvent {
    /// Basic movement blip.
    Move,
    /// Material-aware footstep; the string is the tile type ("grass", "lava_trap", ...).
    Step(String),
    /// Trap triggered.
    Trap,
    /// Checkpoint reached.
    Checkpoint,
    /// Player won.
    Victory,
    /// Game over.
    GameOver,
    /// Switch ambient music to match an episode theme.
    MusicEpisode(String),
}

/// The audio feature of the game; it holds no state of its own.
pub struct AudioPlugin;

impl AudioPlugin {
    pub fn new() -> (r: Self) {
        AudioPlugin
    }
}

/// The material a footstep sounds like.
#[derive(Debug, Clone, Copy, PartialEq, Eq, Structural)]
pub enum StepMaterial {
    Grass,
    Stone,
    Ice,
    Lava,
    Bridge,
    Default,
}

/// The footstep material of a tile type, by the prefix of its name.
pub open spec fn spec_step_material(tile_type: Seq<char>) -> StepMaterial {
    if seq_starts_with(tile_type, "grass"@) {
        StepMaterial::Grass
    } else if seq_starts_with(tile_type, "stone"@) {
        StepMaterial::Stone
    } else if seq_starts_with(tile_type, "ice"@) || seq_starts_with(tile_type, "snow"@) {
        StepMaterial::Ice
    } else if seq_starts_with(tile_type, "lava"@) {
        StepMaterial::Lava
    } else if seq_starts_with(tile_type, "bridge"@) || seq_starts_with(tile_type, "wood"@) {
        StepMaterial::Bridge
    } else {
        StepMaterial::Default
    }
}

/// The footstep material of a tile type, by the prefix of its name.
pub fn step_material(tile_type: &str) -> (r: StepMaterial)
    ensures
        r == spec_step_material(tile_type@),
{
    if starts_with(tile_type, "grass") {
        StepMaterial::Grass
    } else if starts_with(tile_type, "stone") {
        StepMaterial::Stone
    } else if starts_with(tile_type, "ice") || starts_with(tile_type, "snow") {
        StepMaterial::Ice
    } else if starts_with(tile_type, "lava") {
        StepMaterial::Lava
    } else if starts_with(tile_type, "bridge") || starts_with(tile_type, "wood") {
        StepMaterial::Bridge
    } else {
        StepMaterial::Default
    }
}

/// A synthesized sound effect, played when no sound file is loaded.
#[derive(Debug, Clone, Copy, PartialEq, Eq, Structural)]
pub enum SynthSfx {
    Move,
    Trap,
    Checkpoint,
    Victory,
}

/// The synthesized effect for a sound name, if it has one.
pub open spec fn spec_synth_sfx(name: Seq<char>) -> Option<SynthSfx> {
    if name == "jump"@ || name == "move"@ {
        Some(SynthSfx::Move)
    } else if name == "eliminate"@ || name == "trap"@ {
        Some(SynthSfx::Trap)
    } else if name == "checkpoint"@ {
        Some(SynthSfx::Checkpoint)
    } else if name == "victory"@ || name == "win"@ {
        Some(SynthSfx::Victory)
    } else {
        None
    }
}

/// The synthesized effect for a sound name, if it has one.
pub fn synth_sfx(name: &str) -> (r: Option<SynthSfx>)
    ensures
        r == spec_synth_sfx(name@),
{
    if str_eq(name, "jump") || str_eq(name, "move") {
        Some(SynthSfx::Move)
    } else if str_eq(name, "eliminate") || str_eq(name, "trap") {
        Some(SynthSfx::Trap)
    } else if str_eq(name, "checkpoint") {
        Some(SynthSfx::Checkpoint)
    } else if str_eq(name, "victory") || str_eq(name, "win") {
        Some(SynthSfx::Victory)
    } else {
        None
    }
}

/// The mood of an episode's ambient music.
#[derive(Debug, Clone, Copy, PartialEq, Eq, Structural)]
pub enum MusicMood {
    /// Upbeat major arpeggio (demo, grass).
    Festive,
    /// Low pulsing drone (episode2, lava).
    Tense,
    /// High slow tremolo (episode3, ice).
    Ethereal,
    /// Alternating low tones (episode4, night).
    Mysterious,
    /// Soft drone for any other theme.
    Ambient,
}

/// The music mood of an episode theme.
pub open spec fn spec_music_mood(theme: Seq<char>) -> MusicMood {
    if theme == "demo"@ || theme == "grass"@ {
        MusicMood::Festive
    } else if theme == "episode2"@ || theme == "lava"@ {
        MusicMood::Tense
    } else if theme == "episode3"@ || theme == "ice"@ {
        MusicMood::Ethereal
    } else if theme == "episode4"@ || theme == "night"@ {
        MusicMood::Mysterious
    } else {
        MusicMood::Ambient
    }
}

/// The music mood of an episode theme.
pub fn music_mood(theme: &str) -> (r: MusicMood)
    ensures
        r == spec_music_mood(theme@),
{
    if str_eq(theme, "demo") || str_eq(theme, "grass") {
        MusicMood::Festive
    } else if str_eq(theme, "episode2") || str_eq(theme, "lava") {
        MusicMood::Tense
    } else if str_eq(theme, "episode3") || str_eq(theme, "ice") {
        MusicMood::Ethereal
    } else if str_eq(theme, "episode4") || str_eq(theme, "night") {
        MusicMood::Mysterious
    } else {
        MusicMood::Ambient
    }
}

/// What the audio player is asked to do for an event.
#[derive(Debug, Clone)]
pub enum AudioCue {
    /// Play the named effect (from its file, else synthesized).
    Sfx(String),
    /// Play a footstep of this material.
    Step(StepMaterial),
    VictoryJingle,
    GameOverSound,
    /// The ambient music loop.
    MusicStub,
}

/// What the audio player is asked to do for an event.
pub open spec fn spec_audio_cue_is(e: AudioEvent, c: AudioCue) -> bool {
    match e {
        AudioEvent::Move => c matches AudioCue::Sfx(s) && s@ == "move"@,
        AudioEvent::Step(t) => c matches AudioCue::Step(m) && m == spec_step_material(t@),
        AudioEvent::Trap => c matches AudioCue::Sfx(s) && s@ == "trap"@,
        AudioEvent::Checkpoint => c matches AudioCue::Sfx(s) && s@ == "checkpoint"@,
        AudioEvent::Victory => c is VictoryJingle,
        AudioEvent::GameOver => c is GameOverSound,
        AudioEvent::MusicEpisode(_) => c is MusicStub,
    }
}

/// What the audio player is asked to do for an event.
pub fn audio_cue(event: &AudioEvent) -> (r: AudioCue)
    ensures
        spec_audio_cue_is(*event, r),
{
    match event {
        AudioEvent::Move => AudioCue::Sfx(String::from_str("move")),
        AudioEvent::Step(t) => AudioCue::Step(step_material(t.as_str())),
        AudioEvent::Trap => AudioCue::Sfx(String::from_str("trap")),
        AudioEvent::Checkpoint => AudioCue::Sfx(String::from_str("checkpoint")),
        AudioEvent::Victory => AudioCue::VictoryJingle,
        AudioEvent::GameOver => AudioCue::GameOverSound,
        AudioEvent::MusicEpisode(_) => AudioCue::MusicStub,
    }
}

} // verus!
