//! Vibration requests and the pulse each one asks for.
use vstd::prelude::*;

verus! {

/// A vibration request raised by the game.
#[derive(Debug, Clone, Copy, PartialEq, Eq, Structural)]
pub enum HapticEvent {
    /// Light tap on movement.
    Move,
    /// Softer checkpoint vibration.
    Checkpoint,
    /// Heavy elimination vibration.
    Trap,
    /// Menu/UI button press.
    Button,
}

/// The haptic feature of the game; it holds no state of its own.
pub struct HapticPlugin;

impl HapticPlugin {
    pub fn new() -> (r: Self) {
        HapticPlugin
    }
}

/// A vibration pulse: its length in milliseconds and its strength in
/// percent of full intensity.
#[derive(Debug, Clone, Copy, PartialEq, Eq, Structural)]
pub struct HapticPulse {
    pub millis: u32,
    pub intensity_percent: u8,
}

/// The pulse an event asks for.
pub open spec fn spec_pulse(e: HapticEvent) -> HapticPulse {
    match e {
        HapticEvent::Move => HapticPulse { millis: 30, intensity_percent: 50 },
        HapticEvent::Checkpoint => HapticPulse { millis: 50, intensity_percent: 30 },
        HapticEvent::Trap => HapticPulse { millis: 200, intensity_percent: 100 },
        HapticEvent::Button => HapticPulse { millis: 20, intensity_percent: 50 },
    }
}

/// The pulse an event asks for.
pub fn pulse_for(e: HapticEvent) -> (r: HapticPulse)
    ensures
        r == spec_pulse(e),
{
    match e {
        HapticEvent::Move => HapticPulse { millis: 30, intensity_percent: 50 },
        HapticEvent::Checkpoint => HapticPulse { millis: 50, intensity_percent: 30 },
        HapticEvent::Trap => HapticPulse { millis: 200, intensity_percent: 100 },
        HapticEvent::Button => HapticPulse { millis: 20, intensity_percent: 50 },
    }
}

} // verus!
