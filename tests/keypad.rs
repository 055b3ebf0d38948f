use chip8::{key_to_string, Instruction, Key, KeyboardBlockerState};

#[test]
fn key_codes_round_trip() {
    for code in 0..16u8 {
        assert_eq!(Key::from_code(code).code(), code);
    }
    assert_eq!(Key::from_code(0xA), Key::A);
    assert_eq!(Key::F.code(), 15);
}

#[test]
fn key_labels() {
    assert_eq!(key_to_string(Key::Key0), "0");
    assert_eq!(key_to_string(Key::Key9), "9");
    assert_eq!(key_to_string(Key::A), "A");
    assert_eq!(key_to_string(Key::F), "F");
}

#[test]
fn blocker_transitions() {
    assert_eq!(KeyboardBlockerState::Idle.on_wait_tick(false), KeyboardBlockerState::Locked);
    assert_eq!(KeyboardBlockerState::Locked.on_wait_tick(true), KeyboardBlockerState::Locked);
    assert_eq!(KeyboardBlockerState::Locked.on_press(), KeyboardBlockerState::WaitingForRelease);
    assert_eq!(KeyboardBlockerState::Idle.on_press(), KeyboardBlockerState::Idle);
    assert_eq!(KeyboardBlockerState::WaitingForRelease.on_wait_tick(true), KeyboardBlockerState::WaitingForRelease);
    assert_eq!(KeyboardBlockerState::WaitingForRelease.on_wait_tick(false), KeyboardBlockerState::Unlocked);
    assert_eq!(KeyboardBlockerState::Unlocked.on_wait_tick(true), KeyboardBlockerState::Idle);
    assert!(KeyboardBlockerState::Unlocked.completes());
    assert!(!KeyboardBlockerState::Locked.completes());
}

#[test]
fn instruction_fields() {
    let i = Instruction::new(0xD3A7);
    assert_eq!(i.raw(), 0xD3A7);
    assert_eq!(i.addr(), 0x3A7);
    assert_eq!(i.nibble(), 0x7);
    assert_eq!(i.x(), 0x3);
    assert_eq!(i.y(), 0xA);
    assert_eq!(i.byte(), 0xA7);
}
