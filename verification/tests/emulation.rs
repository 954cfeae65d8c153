use ule4jis::emulation::Emulation;
use ule4jis::key_condition::KeyCondition;
use ule4jis::vkeys::{VK_LSHIFT, VK_RSHIFT};

const LS: u8 = VK_LSHIFT;
const RS: u8 = VK_RSHIFT;
const L_HELD: u8 = 1;
const R_HELD: u8 = 2;
const N: Emulation = Emulation::Nop;

const fn normal(vkey: u8) -> Emulation {
    Emulation::Normal { vkey }
}

const fn shift_press(vkey: u8) -> Emulation {
    Emulation::ShiftPress { vkey }
}

const fn shift_release(vkey: u8) -> Emulation {
    Emulation::ShiftRelease { vkey }
}

const fn press_and_release(vkey: u8) -> Emulation {
    Emulation::PressAndRelease { vkey }
}

const fn press_and_release_shift(vkey: u8) -> Emulation {
    Emulation::PressAndReleaseShift { vkey }
}

fn collect(emu: &Emulation, up: bool, cond: &KeyCondition) -> Vec<(u8, bool)> {
    emu.execute(up, cond)
}

fn condition(shift: u8) -> KeyCondition {
    let mut cond = KeyCondition::default();
    if shift & L_HELD != 0 {
        cond.change_key_state(LS, false);
    }
    if shift & R_HELD != 0 {
        cond.change_key_state(RS, false);
    }
    cond
}

#[test]
fn execute_cases() {
    let cases = [
        (normal(0x41), false, 0, &[(0x41, false)][..]),
        (normal(0x41), true, 0, &[(0x41, true)]),
        (N, false, 0, &[]),
        (
            shift_press(0x41),
            false,
            0,
            &[(LS, false), (0x41, false), (LS, true)],
        ),
        (shift_press(0x41), true, 0, &[(0x41, true)]),
        (shift_release(0x30), false, 0, &[(0x30, false)]),
        (
            shift_release(0x30),
            false,
            L_HELD,
            &[(LS, true), (0x30, false), (LS, false)],
        ),
        (
            shift_release(0x30),
            false,
            R_HELD,
            &[(RS, true), (0x30, false), (RS, false)],
        ),
        (
            shift_release(0x30),
            false,
            L_HELD | R_HELD,
            &[
                (LS, true),
                (RS, true),
                (0x30, false),
                (LS, false),
                (RS, false),
            ],
        ),
        (shift_release(0x30), true, 0, &[(0x30, true)]),
        (
            press_and_release(0x41),
            false,
            0,
            &[(0x41, false), (0x41, true)],
        ),
        (
            press_and_release_shift(0x41),
            false,
            0,
            &[(LS, false), (0x41, false), (LS, true), (0x41, true)],
        ),
    ];

    for (i, (emulation, up, shift, expected)) in cases.into_iter().enumerate() {
        assert_eq!(
            collect(&emulation, up, &condition(shift)),
            expected,
            "case {i}"
        );
    }
}

#[test]
fn press_and_release_ignores_edge_direction() {
    let cond = KeyCondition::default();
    let e = Emulation::PressAndRelease { vkey: 0x41 };
    assert_eq!(e.execute(true, &cond), e.execute(false, &cond));
    let e = Emulation::PressAndReleaseShift { vkey: 0x41 };
    assert_eq!(e.execute(true, &cond), vec![(LS, false), (0x41, false), (LS, true), (0x41, true)]);
}

#[test]
fn nop_sends_nothing_on_release() {
    assert!(Emulation::Nop.execute(true, &condition(L_HELD | R_HELD)).is_empty());
}
