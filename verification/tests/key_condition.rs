use ule4jis::key_condition::KeyCondition;
use ule4jis::vkeys::{
    VK_CONTROL, VK_LCONTROL, VK_LMENU, VK_LSHIFT, VK_MENU, VK_RCONTROL, VK_RMENU, VK_RSHIFT,
    VK_SHIFT,
};

#[test]
fn cmp_value_cases() {
    let cases = [
        (b'A', &[][..], 0x0041),
        (b'2', &[VK_LSHIFT], 0x0232),
        (b'2', &[VK_RSHIFT], 0x0232),
        (0x10, &[VK_LMENU], 0x0110),
        (0x05, &[VK_LSHIFT, VK_RMENU], 0x0305),
    ];

    for (last_vkey, held, expected) in cases {
        let mut kc = KeyCondition::default();
        for vkey in held {
            kc.change_key_state(*vkey, false);
        }
        kc.last_vkey = last_vkey;
        assert_eq!(kc.cmp_value(), expected);
    }
}

#[test]
fn modifier_state_cases() {
    let mut kc = KeyCondition::with_shift(b'2', true);
    assert!(kc.get_mod_key_state(VK_LSHIFT as u16));
    assert_eq!(kc.last_vkey, b'2');

    kc.change_key_state(VK_LSHIFT, true);
    assert!(!kc.get_mod_key_state(VK_LSHIFT as u16));
    assert!(!KeyCondition::with_shift(b'8', false).get_mod_key_state(VK_LSHIFT as u16));
    assert!(!kc.get_mod_key_state(0xFFFF));
}

#[test]
fn generic_modifier_codes_count_as_left_keys() {
    let mut kc = KeyCondition::default();
    kc.change_key_state(VK_SHIFT, false);
    assert!(kc.get_mod_key_state(VK_LSHIFT as u16));
    assert!(!kc.get_mod_key_state(VK_RSHIFT as u16));
    kc.change_key_state(VK_CONTROL, false);
    assert!(kc.get_mod_key_state(VK_LCONTROL as u16));
    assert!(!kc.get_mod_key_state(VK_RCONTROL as u16));
    kc.change_key_state(VK_MENU, false);
    assert!(kc.get_mod_key_state(VK_LMENU as u16));
    assert_eq!(kc.last_vkey, VK_MENU);
    assert_eq!(kc.mod_bits, 1 | 4 | 16);
}

#[test]
fn press_then_release_restores_modifiers() {
    let mut kc = KeyCondition::with_shift(b'A', false);
    kc.change_key_state(VK_RCONTROL, false);
    kc.change_key_state(VK_RMENU, false);
    assert!(kc.get_mod_key_state(VK_RMENU as u16));
    kc.change_key_state(VK_RMENU, true);
    assert!(!kc.get_mod_key_state(VK_RMENU as u16));
    assert!(kc.get_mod_key_state(VK_RCONTROL as u16));
    assert_eq!(kc.mod_bits, 8);
    // a key that is no modifier changes only the last key
    kc.change_key_state(b'Z', false);
    assert_eq!(kc.mod_bits, 8);
    assert_eq!(kc.last_vkey, b'Z');
}

#[test]
fn table_index_with_both_shift_and_alt() {
    let mut kc = KeyCondition::default();
    kc.change_key_state(VK_RSHIFT, false);
    kc.change_key_state(VK_LMENU, false);
    kc.last_vkey = 0xFF;
    assert_eq!(kc.table_index(), 0x3FF);
}
