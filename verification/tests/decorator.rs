use ule4jis::decorator::{
    EmulationSteps, PressAndReleaseDecorator, ShiftPressDecorator, ShiftReleaseDecorator,
};
use ule4jis::emulation::Emulation;
use ule4jis::key_condition::KeyCondition;

const LS: u8 = 0xA0;
const RS: u8 = 0xA1;

fn down<E: EmulationSteps>(e: &E, cond: &KeyCondition) -> Vec<(u8, bool)> {
    let mut out = Vec::new();
    e.execute_down(cond, &mut out);
    out
}

fn up<E: EmulationSteps>(e: &E, cond: &KeyCondition) -> Vec<(u8, bool)> {
    let mut out = Vec::new();
    e.execute_up(cond, &mut out);
    out
}

#[test]
fn decorators_match_the_emulations_they_mirror() {
    let mut held = KeyCondition::default();
    held.change_key_state(LS, false);
    held.change_key_state(RS, false);
    for cond in [KeyCondition::default(), held] {
        let v = 0x30;
        let d = ShiftPressDecorator::new(Emulation::Normal { vkey: v });
        let e = Emulation::ShiftPress { vkey: v };
        assert_eq!(down(&d, &cond), down(&e, &cond));
        assert_eq!(up(&d, &cond), up(&e, &cond));

        let d = ShiftReleaseDecorator::new(Emulation::Normal { vkey: v });
        let e = Emulation::ShiftRelease { vkey: v };
        assert_eq!(down(&d, &cond), down(&e, &cond));
        assert_eq!(up(&d, &cond), up(&e, &cond));

        let d = PressAndReleaseDecorator::new(Emulation::Normal { vkey: v });
        let e = Emulation::PressAndRelease { vkey: v };
        assert_eq!(down(&d, &cond), down(&e, &cond));
        assert_eq!(up(&d, &cond), up(&e, &cond));

        let d = PressAndReleaseDecorator::new(ShiftPressDecorator::new(Emulation::Normal {
            vkey: v,
        }));
        let e = Emulation::PressAndReleaseShift { vkey: v };
        assert_eq!(down(&d, &cond), down(&e, &cond));
        assert_eq!(up(&d, &cond), up(&e, &cond));
    }
}

#[test]
fn shift_release_decorator_lifts_held_shifts() {
    let mut cond = KeyCondition::default();
    cond.change_key_state(RS, false);
    let d = ShiftReleaseDecorator::new(Emulation::PressAndRelease { vkey: 0x41 });
    assert_eq!(
        down(&d, &cond),
        vec![(RS, true), (0x41, false), (0x41, true), (RS, false)]
    );
}

#[test]
fn execute_appends_to_existing_events() {
    let mut out = vec![(1u8, true)];
    Emulation::Normal { vkey: 2 }.execute_down(&KeyCondition::default(), &mut out);
    assert_eq!(out, vec![(1, true), (2, false)]);
}
