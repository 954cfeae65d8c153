//! What is sent in place of a key that the table rewrites.

use vstd::prelude::*;
use crate::key_condition::KeyCondition;
use crate::vkeys::{VK_LSHIFT, VK_RSHIFT};

verus! {

#[derive(Debug, Clone, Copy, PartialEq, Eq, Structural)]
pub enum Emulation {
    /// Send `vkey` in the same direction as the physical key.
    Normal { vkey: u8 },
    /// Swallow the key.
    Nop,
    /// On press: shift down, `vkey` down, shift up. On release: `vkey` up.
    ShiftPress { vkey: u8 },
    /// On press: lift the held shifts, `vkey` down, put them back. On release: `vkey` up.
    ShiftRelease { vkey: u8 },
    /// On either edge: `vkey` down then up.
    PressAndRelease { vkey: u8 },
    /// On either edge: shift down, `vkey` down, shift up, `vkey` up.
    PressAndReleaseShift { vkey: u8 },
}

/// One event when `held`, none otherwise.
pub open spec fn event_if(held: bool, vkey: u8, up: bool) -> Seq<(u8, bool)> {
    if held {
        seq![(vkey, up)]
    } else {
        Seq::empty()
    }
}

/// The events (virtual key, key up) that `e` sends for a physical key edge
/// `up`, given what the hook has seen so far.
pub open spec fn spec_execute(e: Emulation, up: bool, cond: KeyCondition) -> Seq<(u8, bool)> {
    match e {
        Emulation::Normal { vkey } => seq![(vkey, up)],
        Emulation::Nop => Seq::empty(),
        Emulation::ShiftPress { vkey } => if !up {
            seq![(VK_LSHIFT, false), (vkey, false), (VK_LSHIFT, true)]
        } else {
            seq![(vkey, true)]
        },
        Emulation::ShiftRelease { vkey } => if !up {
            let l = cond.spec_mod_key_state(VK_LSHIFT as u16);
            let r = cond.spec_mod_key_state(VK_RSHIFT as u16);
            event_if(l, VK_LSHIFT, true) + event_if(r, VK_RSHIFT, true) + seq![(vkey, false)]
                + event_if(l, VK_LSHIFT, false) + event_if(r, VK_RSHIFT, false)
        } else {
            seq![(vkey, true)]
        },
        Emulation::PressAndRelease { vkey } => seq![(vkey, false), (vkey, true)],
        Emulation::PressAndReleaseShift { vkey } => seq![
            (VK_LSHIFT, false),
            (vkey, false),
            (VK_LSHIFT, true),
            (vkey, true),
        ],
    }
}

impl Emulation {
    /// The events to inject for a physical key edge `up`, in order.
    pub fn execute(&self, up: bool, cond: &KeyCondition) -> (events: Vec<(u8, bool)>)
        ensures
            events@ == spec_execute(*self, up, *cond),
            events@.len() <= 5,
    {
        let mut v: Vec<(u8, bool)> = Vec::new();
        match self {
            Emulation::Normal { vkey } => {
                v.push((*vkey, up));
            },
            Emulation::Nop => {},
            Emulation::ShiftPress { vkey } => {
                if !up {
                    v.push((VK_LSHIFT, false));
                    v.push((*vkey, false));
                    v.push((VK_LSHIFT, true));
                } else {
                    v.push((*vkey, true));
                }
            },
            Emulation::ShiftRelease { vkey } => {
                if !up {
                    let lshift = cond.get_mod_key_state(VK_LSHIFT as u16);
                    let rshift = cond.get_mod_key_state(VK_RSHIFT as u16);
                    let ghost s1 = event_if(lshift, VK_LSHIFT, true);
                    let ghost s2 = event_if(rshift, VK_RSHIFT, true);
                    let ghost s3 = event_if(lshift, VK_LSHIFT, false);
                    let ghost s4 = event_if(rshift, VK_RSHIFT, false);
                    if lshift {
                        v.push((VK_LSHIFT, true));
                    }
                    assert(v@ == s1);
                    if rshift {
                        v.push((VK_RSHIFT, true));
                    }
                    assert(v@ == s1 + s2);
                    v.push((*vkey, false));
                    assert(v@ == s1 + s2 + seq![(*vkey, false)]);
                    if lshift {
                        v.push((VK_LSHIFT, false));
                    }
                    assert(v@ == s1 + s2 + seq![(*vkey, false)] + s3);
                    if rshift {
                        v.push((VK_RSHIFT, false));
                    }
                    assert(v@ == s1 + s2 + seq![(*vkey, false)] + s3 + s4);
                } else {
                    v.push((*vkey, true));
                }
            },
            Emulation::PressAndRelease { vkey } => {
                v.push((*vkey, false));
                v.push((*vkey, true));
            },
            Emulation::PressAndReleaseShift { vkey } => {
                v.push((VK_LSHIFT, false));
                v.push((*vkey, false));
                v.push((VK_LSHIFT, true));
                v.push((*vkey, true));
            },
        }
        v
    }
}

/// On a release edge the plain, shift-press and shift-release emulations
/// send exactly one event, the release of their key, whatever is held.
pub proof fn lemma_release_sends_key_up(vkey: u8, cond: KeyCondition)
    ensures
        spec_execute(Emulation::Normal { vkey }, true, cond) == seq![(vkey, true)],
        spec_execute(Emulation::ShiftPress { vkey }, true, cond) == seq![(vkey, true)],
        spec_execute(Emulation::ShiftRelease { vkey }, true, cond) == seq![(vkey, true)],
        spec_execute(Emulation::Nop, true, cond).len() == 0,
{
}

/// On a press edge a plain emulation sends the press of its key, and the
/// press-and-release emulations send the same on either edge: their key
/// goes down and up again.
pub proof fn lemma_press_events(vkey: u8, up: bool, cond: KeyCondition)
    ensures
        spec_execute(Emulation::Normal { vkey }, false, cond) == seq![(vkey, false)],
        spec_execute(Emulation::PressAndRelease { vkey }, up, cond) == seq![
            (vkey, false),
            (vkey, true),
        ],
        spec_execute(Emulation::PressAndReleaseShift { vkey }, up, cond) == seq![
            (0xA0u8, false),
            (vkey, false),
            (0xA0u8, true),
            (vkey, true),
        ],
{
}

/// On a press edge: shift-press wraps its key in a left-shift press and
/// release; shift-release lifts exactly the shift keys that are held
/// (left first), presses its key, and puts them back in the same order.
pub proof fn lemma_press_edge_shifts(vkey: u8, cond: KeyCondition)
    ensures
        spec_execute(Emulation::ShiftPress { vkey }, false, cond) == seq![
            (0xA0u8, false),
            (vkey, false),
            (0xA0u8, true),
        ],
        !cond.spec_mod_key_state(0xA0) && !cond.spec_mod_key_state(0xA1) ==> spec_execute(
            Emulation::ShiftRelease { vkey },
            false,
            cond,
        ) == seq![(vkey, false)],
        cond.spec_mod_key_state(0xA0) && !cond.spec_mod_key_state(0xA1) ==> spec_execute(
            Emulation::ShiftRelease { vkey },
            false,
            cond,
        ) == seq![(0xA0u8, true), (vkey, false), (0xA0u8, false)],
        !cond.spec_mod_key_state(0xA0) && cond.spec_mod_key_state(0xA1) ==> spec_execute(
            Emulation::ShiftRelease { vkey },
            false,
            cond,
        ) == seq![(0xA1u8, true), (vkey, false), (0xA1u8, false)],
        cond.spec_mod_key_state(0xA0) && cond.spec_mod_key_state(0xA1) ==> spec_execute(
            Emulation::ShiftRelease { vkey },
            false,
            cond,
        ) == seq![(0xA0u8, true), (0xA1u8, true), (vkey, false), (0xA0u8, false), (0xA1u8, false)],
{
    let l = cond.spec_mod_key_state(0xA0);
    let r = cond.spec_mod_key_state(0xA1);
    let e = spec_execute(Emulation::ShiftRelease { vkey }, false, cond);
    if !l && !r {
        assert(e =~= seq![(vkey, false)]);
    } else if l && !r {
        assert(e =~= seq![(0xA0u8, true), (vkey, false), (0xA0u8, false)]);
    } else if !l && r {
        assert(e =~= seq![(0xA1u8, true), (vkey, false), (0xA1u8, false)]);
    } else {
        assert(e =~= seq![(0xA0u8, true), (0xA1u8, true), (vkey, false), (0xA0u8, false), (0xA1u8, false)]);
    }
}

} // verus!
