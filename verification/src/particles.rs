//! Particle bursts: how many particles each kind of burst adds, under the
//! cap on live particles, and the fixed look of each kind. Motion and
//! fading are continuous and stay with the caller.
use vstd::prelude::*;

verus! {

/// Most particles alive at once.
pub const MAX_PARTICLES: usize = 50;

/// The kinds of particle burst.
#[derive(Debug, Clone, Copy, PartialEq, Eq, Structural)]
pub enum ParticleType {
    /// Golden/white sparkle burst rising from a checkpoint.
    CheckpointSparkle,
    /// Red ring that expands and fades on a trap.
    TrapFlash,
    /// Small grey puff at a player's feet.
    MovementDust,
}

/// Particles in one full burst of a kind.
pub open spec fn spec_burst_size(t: ParticleType) -> nat {
    match t {
        ParticleType::CheckpointSparkle => 8,
        ParticleType::TrapFlash => 16,
        ParticleType::MovementDust => 4,
    }
}

/// Particles in one full burst of a kind.
pub fn burst_size(t: ParticleType) -> (r: usize)
    ensures
        r == spec_burst_size(t),
{
    match t {
        ParticleType::CheckpointSparkle => 8,
        ParticleType::TrapFlash => 16,
        ParticleType::MovementDust => 4,
    }
}

/// Side of a particle's square in pixels.
pub fn particle_size(t: ParticleType) -> (r: u32)
    ensures
        r == match t {
            ParticleType::CheckpointSparkle => 4u32,
            ParticleType::TrapFlash => 6u32,
            ParticleType::MovementDust => 3u32,
        },
{
    match t {
        ParticleType::CheckpointSparkle => 4,
        ParticleType::TrapFlash => 6,
        ParticleType::MovementDust => 3,
    }
}

/// How many particles a burst adds to `live` particles: the whole burst,
/// cut short at the cap; none once the cap is reached.
pub open spec fn spec_spawn_count(live: nat, t: ParticleType) -> nat {
    if live >= MAX_PARTICLES {
        0
    } else if live + spec_burst_size(t) > MAX_PARTICLES {
        (MAX_PARTICLES - live) as nat
    } else {
        spec_burst_size(t)
    }
}

/// How many particles a burst adds to `live` particles (see
/// `spec_spawn_count`).
pub fn spawn_count(live: usize, t: ParticleType) -> (r: usize)
    ensures
        r == spec_spawn_count(live as nat, t),
{
    let burst = burst_size(t);
    if live >= MAX_PARTICLES {
        0
    } else if burst > MAX_PARTICLES - live {
        MAX_PARTICLES - live
    } else {
        burst
    }
}

/// Live particles never exceed the cap: a burst added to at most
/// `MAX_PARTICLES` live ones leaves at most `MAX_PARTICLES`, and one added
/// below the cap is never empty.
pub proof fn lemma_spawn_respects_cap(live: nat, t: ParticleType)
    requires
        live <= MAX_PARTICLES,
    ensures
        live + spec_spawn_count(live, t) <= MAX_PARTICLES,
        live < MAX_PARTICLES ==> spec_spawn_count(live, t) > 0,
{
}

/// Sparkle `i` of a checkpoint burst is white when `i` is even, golden
/// otherwise.
pub fn sparkle_is_white(i: usize) -> (r: bool)
    ensures
        r == (i % 2 == 0),
{
    i % 2 == 0
}

/// A particle colour: red, green, blue, alpha.
#[derive(Debug, Clone, Copy, PartialEq, Eq, Structural)]
pub struct ParticleColor(pub u8, pub u8, pub u8, pub u8);

impl ParticleColor {
    pub fn golden() -> (r: Self)
        ensures
            r == ParticleColor(255, 215, 80, 255),
    {
        ParticleColor(255, 215, 80, 255)
    }

    pub fn white() -> (r: Self)
        ensures
            r == ParticleColor(255, 255, 255, 255),
    {
        ParticleColor(255, 255, 255, 255)
    }

    pub fn grey() -> (r: Self)
        ensures
            r == ParticleColor(180, 180, 180, 200),
    {
        ParticleColor(180, 180, 180, 200)
    }

    pub fn red() -> (r: Self)
        ensures
            r == ParticleColor(255, 60, 60, 255),
    {
        ParticleColor(255, 60, 60, 255)
    }
}

/// The colours bursts are spawned with.
#[derive(Debug, Clone, Copy, PartialEq, Eq, Structural)]
pub struct ParticleSpawner {
    pub dust_color: ParticleColor,
    pub sparkle_color: ParticleColor,
    pub flash_color: ParticleColor,
}

impl ParticleSpawner {
    /// Grey dust, golden sparkles, red flashes.
    pub fn new() -> (r: Self)
        ensures
            r.dust_color == ParticleColor(180, 180, 180, 200),
            r.sparkle_color == ParticleColor(255, 215, 80, 255),
            r.flash_color == ParticleColor(255, 60, 60, 255),
    {
        ParticleSpawner {
            dust_color: ParticleColor::grey(),
            sparkle_color: ParticleColor::golden(),
            flash_color: ParticleColor::red(),
        }
    }
}

} // verus!
