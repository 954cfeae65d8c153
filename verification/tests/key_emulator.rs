use ule4jis::key_condition::KeyCondition;
use ule4jis::key_emulator::{
    input_for_event, is_legacy_extended_key, is_send_input_extended_key, legacy_event_flags,
    scan_from_mapped, EmulatorInner, InputBackend, KeyEmulator,
};
use ule4jis::key_hooker::{get_vkey, is_key_up, KBDLLHOOKSTRUCT};
use ule4jis::vkeys::{VK_DIVIDE, VK_LSHIFT, VK_RSHIFT};

#[test]
fn test_modifier_tracking_and_restoration() {
    let mut inner = EmulatorInner {
        key_condition: KeyCondition::default(),
        emulator_id: 1,
        input_backend: InputBackend::SendInput,
        logical_lshift_released: false,
        logical_rshift_released: false,
        logical_lshift_pressed: false,
        logical_rshift_pressed: false,
        active_emulation_key: None,
    };

    // 1. Simulate physical shift held down
    inner
        .key_condition
        .change_key_state(VK_LSHIFT, false);

    // 2. Simulate mapping where LSHIFT was logically released (e.g. from ShiftRelease)
    KeyEmulator::<()>::update_modifier_tracking(&mut inner, VK_LSHIFT, true);
    assert!(inner.logical_lshift_released);
    assert!(!inner.logical_lshift_pressed);

    // 3. Verify restoration logic generates the correct event (press LSHIFT down) and clears state
    inner.active_emulation_key = Some(b'2');
    let events = KeyEmulator::<()>::restore_modifiers(&mut inner);
    assert_eq!(events, vec![(VK_LSHIFT, false)]);
    assert!(!inner.logical_lshift_released);
    assert!(inner.active_emulation_key.is_none());
}

fn key(vkey: u8, up: bool) -> KBDLLHOOKSTRUCT {
    KBDLLHOOKSTRUCT {
        vkCode: vkey as u32,
        scanCode: 0,
        flags: if up { 0x80 } else { 0 },
        time: 0,
        dwExtraInfo: 0,
    }
}

const LS: u8 = VK_LSHIFT;

#[test]
fn hook_struct_accessors() {
    let k = KBDLLHOOKSTRUCT { vkCode: 0x1A0, scanCode: 0, flags: 0x81, time: 0, dwExtraInfo: 0 };
    assert_eq!(get_vkey(&k), 0xA0);
    assert!(is_key_up(&k));
    assert!(!is_key_up(&key(0x41, false)));
}

#[test]
fn shift_two_types_at_sign() {
    let mut emu: KeyEmulator<()> = KeyEmulator::new(7);
    let r = emu.handle_hook_event(&key(LS, false));
    assert!(!r.swallow);
    assert!(r.events.is_empty());
    let r = emu.handle_hook_event(&key(b'2', false));
    assert!(r.swallow);
    assert_eq!(r.events, vec![(LS, true), (0xC0, false), (LS, false)]);
    assert_eq!(r.emulator_id, 7);
    assert_eq!(r.input_backend, InputBackend::SendInput);
    let r = emu.handle_hook_event(&key(b'2', true));
    assert!(r.swallow);
    assert_eq!(r.events, vec![(0xC0, true)]);
}

#[test]
fn quote_without_shift_types_shifted_minus() {
    let mut emu: KeyEmulator<()> = KeyEmulator::new(3);
    let r = emu.handle_hook_event(&key(0xDE, false));
    assert!(r.swallow);
    assert_eq!(r.events, vec![(LS, false), (0xBD, false), (LS, true)]);
}

#[test]
fn unmapped_keys_and_own_events_pass_through() {
    let mut emu: KeyEmulator<()> = KeyEmulator::new(9);
    let r = emu.handle_hook_event(&key(b'A', false));
    assert!(!r.swallow);
    assert!(r.events.is_empty());
    let mut own = key(b'2', false);
    own.dwExtraInfo = 9;
    let r = emu.handle_hook_event(&own);
    assert!(!r.swallow);
    assert!(r.events.is_empty());
}

#[test]
fn alt_keys_are_not_rewritten() {
    let mut emu: KeyEmulator<()> = KeyEmulator::new(1);
    emu.handle_hook_event(&key(0xA4, false));
    let r = emu.handle_hook_event(&key(0xDE, false));
    assert!(!r.swallow);
}

#[test]
fn pending_adjustment_is_restored_before_another_key() {
    let mut inner = EmulatorInner {
        key_condition: KeyCondition::default(),
        emulator_id: 1,
        input_backend: InputBackend::KeybdEvent,
        logical_lshift_released: false,
        logical_rshift_released: false,
        logical_lshift_pressed: true,
        logical_rshift_pressed: false,
        active_emulation_key: Some(0xDE),
    };
    let map = ule4jis::strategy::us_on_jis_map();
    let r = KeyEmulator::<()>::process_hook_event(&mut inner, &map, &key(b'A', false));
    assert!(r.swallow);
    assert_eq!(r.events, vec![(LS, true), (b'A', false)]);
    assert!(!inner.logical_lshift_pressed);
    assert_eq!(inner.active_emulation_key, None);
    assert_eq!(r.input_backend, InputBackend::KeybdEvent);
}

#[test]
fn start_and_stop() {
    let mut emu: KeyEmulator<u32> = KeyEmulator::new(1);
    assert!(!emu.is_started());
    let r: Result<(), String> = emu.start(|| Err("no hook".to_string()));
    assert_eq!(r, Err("no hook".to_string()));
    assert!(!emu.is_started());
    let r: Result<(), String> = emu.start(|| Ok(5));
    assert!(r.is_ok());
    assert!(emu.is_started());
    let r: Result<(), String> = emu.start(|| panic!("must not install twice"));
    assert!(r.is_ok());
    emu.stop();
    assert!(!emu.is_started());
}

#[test]
fn input_backend_toggles_back_and_forth() {
    let mut emu: KeyEmulator<()> = KeyEmulator::new(1);
    assert_eq!(emu.input_backend(), InputBackend::SendInput);
    assert_eq!(emu.toggle_input_backend(), InputBackend::KeybdEvent);
    assert_eq!(emu.input_backend(), InputBackend::KeybdEvent);
    assert_eq!(emu.toggle_input_backend(), InputBackend::SendInput);
    assert_eq!(InputBackend::SendInput.toggled().toggled(), InputBackend::SendInput);
}

#[test]
fn extended_key_tables() {
    assert!(is_send_input_extended_key(VK_DIVIDE));
    assert!(!is_send_input_extended_key(VK_RSHIFT));
    assert!(is_legacy_extended_key(VK_RSHIFT));
    assert!(is_legacy_extended_key(0x2E));
    assert!(!is_legacy_extended_key(b'A'));
    assert_eq!(legacy_event_flags(VK_RSHIFT, true), 3);
    assert_eq!(legacy_event_flags(b'A', false), 0);
}

#[test]
fn send_input_records() {
    assert_eq!(scan_from_mapped(0xE01D), (0x1D, true));
    assert_eq!(scan_from_mapped(0x0010), (0x10, false));
    let ki = input_for_event(b'Q', true, 42, 0x10);
    assert_eq!((ki.vk, ki.scan, ki.flags, ki.extra_info), (0, 0x10, 2 | 8, 42));
    let ki = input_for_event(0x26, false, 1, 0xE048);
    assert_eq!((ki.vk, ki.scan, ki.flags), (0, 0x48, 8 | 1));
    let ki = input_for_event(0xFF, false, 1, 0);
    assert_eq!((ki.vk, ki.scan, ki.flags), (0xFF, 0, 0));
}
