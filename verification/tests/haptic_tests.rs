use voxparty::haptic::{pulse_for, HapticEvent, HapticPlugin, HapticPulse};

#[test]
fn test_haptic_event_move_constructible() {
    let event = HapticEvent::Move;
    assert!(matches!(event, HapticEvent::Move));
}

#[test]
fn test_haptic_event_trap_constructible() {
    let event = HapticEvent::Trap;
    assert!(matches!(event, HapticEvent::Trap));
}

#[test]
fn test_haptic_event_checkpoint_constructible() {
    let event = HapticEvent::Checkpoint;
    assert!(matches!(event, HapticEvent::Checkpoint));
}

#[test]
fn test_haptic_event_button_constructible() {
    let event = HapticEvent::Button;
    assert!(matches!(event, HapticEvent::Button));
}

#[test]
fn test_haptic_event_clone() {
    let event = HapticEvent::Trap;
    let cloned = event.clone();
    assert!(matches!(cloned, HapticEvent::Trap));
}

#[test]
fn test_haptic_event_debug() {
    let event = HapticEvent::Move;
    let debug_str = format!("{:?}", event);
    assert!(debug_str.contains("Move"));
}

#[test]
fn test_haptic_event_distinct_discriminants() {
    let move_evt = HapticEvent::Move;
    let trap_evt = HapticEvent::Trap;
    assert_ne!(std::mem::discriminant(&move_evt), std::mem::discriminant(&trap_evt));
}

#[test]
fn haptic_pulses() {
    let _p = HapticPlugin::new();
    assert_eq!(pulse_for(HapticEvent::Move), HapticPulse { millis: 30, intensity_percent: 50 });
    assert_eq!(pulse_for(HapticEvent::Checkpoint), HapticPulse { millis: 50, intensity_percent: 30 });
    assert_eq!(pulse_for(HapticEvent::Trap), HapticPulse { millis: 200, intensity_percent: 100 });
    assert_eq!(pulse_for(HapticEvent::Button), HapticPulse { millis: 20, intensity_percent: 50 });
}
