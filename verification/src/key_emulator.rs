//! The emulator's decisions: for each key event that the hook reports, which
//! events to inject in its place, whether to swallow it, and how the logical
//! state of the shift keys drifts from the physical one and is restored.

use vstd::prelude::*;
use crate::emulation::{Emulation, spec_execute, event_if};
use crate::key_condition::{
    KeyCondition, updated_mods, lemma_change_key_state_mods, spec_table_index, alt_held,
    mod_state,
};
use crate::key_hooker::{KBDLLHOOKSTRUCT, get_vkey, is_key_up, spec_is_key_up};
use crate::strategy::{
    EmulationMap, spec_us_on_jis_map, us_on_jis_map, spec_mappings, mapping_key,
    lemma_us_on_jis_map_contents,
};
use crate::vkeys::{
    VK_CANCEL, VK_DELETE, VK_DIVIDE, VK_DOWN, VK_END, VK_HOME, VK_INSERT, VK_LEFT, VK_LSHIFT,
    VK_NEXT, VK_NUMLOCK, VK_PRIOR, VK_RCONTROL, VK_RIGHT, VK_RMENU, VK_RSHIFT, VK_SHIFT,
    VK_SNAPSHOT, VK_UP,
};

verus! {

/// The most events one hook event can produce; the injection buffer has
/// this many slots.
pub const MAX_EMULATION_EVENTS: usize = 10;

#[derive(Clone, Copy, Debug, PartialEq, Eq, Structural)]
pub enum InputBackend {
    SendInput,
    KeybdEvent,
}

impl InputBackend {
    pub open spec fn spec_toggled(self) -> InputBackend {
        match self {
            InputBackend::SendInput => InputBackend::KeybdEvent,
            InputBackend::KeybdEvent => InputBackend::SendInput,
        }
    }

    /// The other backend.
    pub fn toggled(self) -> (r: Self)
        ensures
            r == self.spec_toggled(),
            r != self,
    {
        match self {
            Self::SendInput => Self::KeybdEvent,
            Self::KeybdEvent => Self::SendInput,
        }
    }
}

/// Toggling twice gives the backend back.
pub proof fn lemma_toggled_twice(b: InputBackend)
    ensures
        b.spec_toggled().spec_toggled() == b,
{
}

/// The emulator's state.
#[derive(Clone, Copy, Debug, PartialEq, Eq, Structural)]
pub struct EmulatorInner {
    /// What the hook has seen of the physical keyboard.
    pub key_condition: KeyCondition,
    /// The tag the emulator puts on the events it injects.
    pub emulator_id: usize,
    pub input_backend: InputBackend,
    /// The left shift is physically held but was logically released.
    pub logical_lshift_released: bool,
    /// The right shift is physically held but was logically released.
    pub logical_rshift_released: bool,
    /// The left shift is physically up but was logically pressed.
    pub logical_lshift_pressed: bool,
    /// The right shift is physically up but was logically pressed.
    pub logical_rshift_pressed: bool,
    /// The key whose emulation left the shift keys adjusted.
    pub active_emulation_key: Option<u8>,
}

/// A fresh emulator state.
pub open spec fn initial_inner(emulator_id: usize) -> EmulatorInner {
    EmulatorInner {
        key_condition: KeyCondition { last_vkey: 0, mod_bits: 0 },
        emulator_id,
        input_backend: InputBackend::SendInput,
        logical_lshift_released: false,
        logical_rshift_released: false,
        logical_lshift_pressed: false,
        logical_rshift_pressed: false,
        active_emulation_key: None,
    }
}

/// Some shift key is logically adjusted.
pub open spec fn any_adjusted(s: EmulatorInner) -> bool {
    s.logical_lshift_released || s.logical_rshift_released || s.logical_lshift_pressed
        || s.logical_rshift_pressed
}

/// The shift adjustments agree with the physical keyboard: a side is never
/// both logically released and logically pressed, only a physically held
/// shift can be logically released, and only a physically free one can be
/// logically pressed.
pub open spec fn flags_consistent(s: EmulatorInner) -> bool {
    let l = s.key_condition.spec_mod_key_state(VK_LSHIFT as u16);
    let r = s.key_condition.spec_mod_key_state(VK_RSHIFT as u16);
    &&& !(s.logical_lshift_released && s.logical_lshift_pressed)
    &&& !(s.logical_rshift_released && s.logical_rshift_pressed)
    &&& (s.logical_lshift_released ==> l)
    &&& (s.logical_lshift_pressed ==> !l)
    &&& (s.logical_rshift_released ==> r)
    &&& (s.logical_rshift_pressed ==> !r)
}

/// The state that every operation keeps: the adjustments agree with the
/// keyboard, and a key is named as the active emulation only while some
/// shift is adjusted.
pub open spec fn inner_consistent(s: EmulatorInner) -> bool {
    &&& flags_consistent(s)
    &&& (s.active_emulation_key is Some ==> any_adjusted(s))
}

pub open spec fn is_left_shift(vkey: u8) -> bool {
    vkey == VK_LSHIFT || vkey == VK_SHIFT
}

/// The state after the emulator injected `(vkey, key_up)`: an injected
/// shift event that differs from the physical shift marks that side as
/// logically released or pressed; one that agrees clears the marks.
pub open spec fn spec_track(s: EmulatorInner, vkey: u8, key_up: bool) -> EmulatorInner {
    if is_left_shift(vkey) {
        let physical_down = s.key_condition.spec_mod_key_state(VK_LSHIFT as u16);
        EmulatorInner {
            logical_lshift_released: key_up && physical_down,
            logical_lshift_pressed: !key_up && !physical_down,
            ..s
        }
    } else if vkey == VK_RSHIFT {
        let physical_down = s.key_condition.spec_mod_key_state(VK_RSHIFT as u16);
        EmulatorInner {
            logical_rshift_released: key_up && physical_down,
            logical_rshift_pressed: !key_up && !physical_down,
            ..s
        }
    } else {
        s
    }
}

/// The state after the emulator injected `events` in order.
pub open spec fn spec_track_all(s: EmulatorInner, events: Seq<(u8, bool)>) -> EmulatorInner
    decreases events.len(),
{
    if events.len() == 0 {
        s
    } else {
        let last = events.last();
        spec_track(spec_track_all(s, events.drop_last()), last.0, last.1)
    }
}

/// The events that undo the logical shift adjustments.
pub open spec fn restore_events(s: EmulatorInner) -> Seq<(u8, bool)> {
    event_if(s.logical_lshift_released, VK_LSHIFT, false) + event_if(
        s.logical_rshift_released,
        VK_RSHIFT,
        false,
    ) + event_if(s.logical_lshift_pressed, VK_LSHIFT, true) + event_if(
        s.logical_rshift_pressed,
        VK_RSHIFT,
        true,
    )
}

/// The state once the adjustments are undone.
pub open spec fn restored(s: EmulatorInner) -> EmulatorInner {
    EmulatorInner {
        logical_lshift_released: false,
        logical_rshift_released: false,
        logical_lshift_pressed: false,
        logical_rshift_pressed: false,
        active_emulation_key: None,
        ..s
    }
}

/// The state after the hook saw physical key `vkey` move: the condition is
/// updated, and a physical shift event drops that side's adjustments.
pub open spec fn observed(s: EmulatorInner, vkey: u8, up: bool) -> EmulatorInner {
    let s1 = EmulatorInner {
        key_condition: KeyCondition {
            last_vkey: vkey,
            mod_bits: updated_mods(s.key_condition.mod_bits, vkey as u16, up),
        },
        ..s
    };
    if is_left_shift(vkey) {
        EmulatorInner {
            logical_lshift_released: false,
            logical_lshift_pressed: false,
            active_emulation_key: None,
            ..s1
        }
    } else if vkey == VK_RSHIFT {
        EmulatorInner {
            logical_rshift_released: false,
            logical_rshift_pressed: false,
            active_emulation_key: None,
            ..s1
        }
    } else {
        s1
    }
}

/// Whether a pending adjustment must be undone before `vkey` is handled:
/// another key moved while an emulation had the shifts adjusted.
pub open spec fn must_restore(s: EmulatorInner, vkey: u8) -> bool {
    s.active_emulation_key matches Some(k) && k != vkey
}

/// The state after emulation `e` ran for key `vkey`: its injected events
/// are tracked, and `vkey` is the active emulation while a shift is left
/// adjusted.
pub open spec fn after_emulation(s: EmulatorInner, e: Emulation, up: bool, vkey: u8) -> EmulatorInner {
    let s4 = spec_track_all(s, spec_execute(e, up, s.key_condition));
    EmulatorInner { active_emulation_key: if any_adjusted(s4) { Some(vkey) } else { None }, ..s4 }
}

/// What the emulator does with one hook event: the next state, whether
/// the physical event is swallowed, and the events to inject in order.
pub open spec fn spec_process(
    s: EmulatorInner,
    map: Seq<Option<Emulation>>,
    khs: KBDLLHOOKSTRUCT,
) -> (EmulatorInner, bool, Seq<(u8, bool)>) {
    if khs.dwExtraInfo == s.emulator_id {
        (s, false, Seq::empty())
    } else {
        let vkey = (khs.vkCode as int % 256) as u8;
        let up = spec_is_key_up(khs.flags);
        let s2 = observed(s, vkey, up);
        let mapping = map[s2.key_condition.table_index_spec() as int];
        let restore = must_restore(s2, vkey);
        let s3 = if restore { restored(s2) } else { s2 };
        let rest = if restore { restore_events(s2) } else { Seq::empty() };
        match mapping {
            Some(e) => (after_emulation(s3, e, up, vkey), true, rest + spec_execute(
                e,
                up,
                s3.key_condition,
            )),
            None => if rest.len() > 0 {
                (s3, true, rest.push((vkey, up)))
            } else {
                (s3, false, Seq::empty())
            },
        }
    }
}

/// What the emulator hands back for one hook event: whether to swallow it,
/// and the events to inject with the emulator's tag through its backend.
pub struct HookResponse {
    pub swallow: bool,
    pub events: Vec<(u8, bool)>,
    pub emulator_id: usize,
    pub input_backend: InputBackend,
}

/// The emulator: its state, the rewriting table, and the hook handle `H`
/// while it runs (dropping the handle uninstalls the hook).
pub struct KeyEmulator<H> {
    inner: EmulatorInner,
    map: EmulationMap,
    hooker: Option<H>,
}

proof fn lemma_track_consistent(s: EmulatorInner, vkey: u8, key_up: bool)
    requires
        flags_consistent(s),
    ensures
        flags_consistent(spec_track(s, vkey, key_up)),
        spec_track(s, vkey, key_up).key_condition == s.key_condition,
        spec_track(s, vkey, key_up).emulator_id == s.emulator_id,
        spec_track(s, vkey, key_up).input_backend == s.input_backend,
{
}

proof fn lemma_track_all_consistent(s: EmulatorInner, events: Seq<(u8, bool)>)
    requires
        flags_consistent(s),
    ensures
        flags_consistent(spec_track_all(s, events)),
        spec_track_all(s, events).key_condition == s.key_condition,
        spec_track_all(s, events).emulator_id == s.emulator_id,
        spec_track_all(s, events).input_backend == s.input_backend,
    decreases events.len(),
{
    if events.len() > 0 {
        lemma_track_all_consistent(s, events.drop_last());
        let last = events.last();
        lemma_track_consistent(spec_track_all(s, events.drop_last()), last.0, last.1);
    }
}

/// Seeing a physical key keeps the adjustments consistent.
proof fn lemma_observed_consistent(s: EmulatorInner, vkey: u8, up: bool)
    requires
        inner_consistent(s),
    ensures
        inner_consistent(observed(s, vkey, up)),
{
    lemma_change_key_state_mods(s.key_condition.mod_bits, vkey, up, VK_LSHIFT as u16);
    lemma_change_key_state_mods(s.key_condition.mod_bits, vkey, up, VK_RSHIFT as u16);
}

/// Every hook event keeps the state consistent, whatever the table holds.
#[verifier::rlimit(40)]
pub proof fn lemma_process_keeps_consistent(
    s: EmulatorInner,
    map: Seq<Option<Emulation>>,
    khs: KBDLLHOOKSTRUCT,
)
    requires
        inner_consistent(s),
    ensures
        inner_consistent(spec_process(s, map, khs).0),
        spec_process(s, map, khs).0.emulator_id == s.emulator_id,
        spec_process(s, map, khs).0.input_backend == s.input_backend,
{
    if khs.dwExtraInfo != s.emulator_id {
        let vkey = (khs.vkCode as int % 256) as u8;
        let up = spec_is_key_up(khs.flags);
        lemma_observed_consistent(s, vkey, up);
        let s2 = observed(s, vkey, up);
        let restore = must_restore(s2, vkey);
        let s3 = if restore { restored(s2) } else { s2 };
        match map[s2.key_condition.table_index_spec() as int] {
            Some(e) => {
                lemma_track_all_consistent(s3, spec_execute(e, up, s3.key_condition));
            },
            None => {},
        }
    }
}

/// An event the emulator injected itself passes through: it is not
/// swallowed, nothing is injected and the state does not change.
pub proof fn lemma_own_events_pass_through(
    s: EmulatorInner,
    map: Seq<Option<Emulation>>,
    khs: KBDLLHOOKSTRUCT,
)
    requires
        khs.dwExtraInfo == s.emulator_id,
    ensures
        spec_process(s, map, khs) == (s, false, Seq::<(u8, bool)>::empty()),
{
}

/// A key that the table rewrites is always swallowed, and what is
/// injected for it is the undoing of pending adjustments followed by its
/// emulation.
pub proof fn lemma_mapped_keys_swallowed(
    s: EmulatorInner,
    map: Seq<Option<Emulation>>,
    khs: KBDLLHOOKSTRUCT,
)
    requires
        khs.dwExtraInfo != s.emulator_id,
        ({
            let vkey = (khs.vkCode as int % 256) as u8;
            let up = spec_is_key_up(khs.flags);
            map[observed(s, vkey, up).key_condition.table_index_spec() as int] is Some
        }),
    ensures
        spec_process(s, map, khs).1,
{
}

/// A key that the table does not rewrite, while nothing is to be undone,
/// passes through and only the condition changes.
pub proof fn lemma_unmapped_keys_pass_through(
    s: EmulatorInner,
    map: Seq<Option<Emulation>>,
    khs: KBDLLHOOKSTRUCT,
)
    requires
        khs.dwExtraInfo != s.emulator_id,
        inner_consistent(s),
        ({
            let vkey = (khs.vkCode as int % 256) as u8;
            let up = spec_is_key_up(khs.flags);
            &&& map[observed(s, vkey, up).key_condition.table_index_spec() as int] is None
            &&& !must_restore(observed(s, vkey, up), vkey)
        }),
    ensures
        !spec_process(s, map, khs).1,
        spec_process(s, map, khs).2.len() == 0,
        spec_process(s, map, khs).0 == observed(
            s,
            (khs.vkCode as int % 256) as u8,
            spec_is_key_up(khs.flags),
        ),
{
}

/// Injected events never change what the hook has seen of the keyboard.
proof fn lemma_track_all_keeps_condition(s: EmulatorInner, events: Seq<(u8, bool)>)
    ensures
        spec_track_all(s, events).key_condition == s.key_condition,
        spec_track_all(s, events).emulator_id == s.emulator_id,
    decreases events.len(),
{
    if events.len() > 0 {
        lemma_track_all_keeps_condition(s, events.drop_last());
    }
}

/// Every event that the emulator did not inject itself becomes the last
/// key of the condition, whether the key went down or up.
pub proof fn lemma_last_key_is_event_key(
    s: EmulatorInner,
    map: Seq<Option<Emulation>>,
    khs: KBDLLHOOKSTRUCT,
)
    requires
        khs.dwExtraInfo != s.emulator_id,
    ensures
        spec_process(s, map, khs).0.key_condition.last_vkey as int == khs.vkCode as int % 256,
{
    let vkey = (khs.vkCode as int % 256) as u8;
    let up = spec_is_key_up(khs.flags);
    let s2 = observed(s, vkey, up);
    let s3 = if must_restore(s2, vkey) { restored(s2) } else { s2 };
    match map[s2.key_condition.table_index_spec() as int] {
        Some(e) => {
            lemma_track_all_keeps_condition(s3, spec_execute(e, up, s3.key_condition));
        },
        None => {},
    }
}

/// With no emulation pending, an event whose own key, with the Shift and
/// Alt keys held after it, has no table entry passes through untouched:
/// it is not swallowed and nothing is injected, whatever key came before.
pub proof fn lemma_unmapped_key_event_passes(
    s: EmulatorInner,
    map: Seq<Option<Emulation>>,
    khs: KBDLLHOOKSTRUCT,
)
    requires
        khs.dwExtraInfo != s.emulator_id,
        s.active_emulation_key is None,
        map[spec_table_index(
            (khs.vkCode as int % 256) as u8,
            updated_mods(
                s.key_condition.mod_bits,
                ((khs.vkCode as int % 256) as u8) as u16,
                spec_is_key_up(khs.flags),
            ),
        )] is None,
    ensures
        !spec_process(s, map, khs).1,
        spec_process(s, map, khs).2.len() == 0,
{
}

/// With no emulation pending, an event whose own key, with the Shift and
/// Alt keys held after it, has a table entry is swallowed and replaced by
/// exactly that entry's events, computed on the updated condition.
pub proof fn lemma_mapped_key_event_emulates(
    s: EmulatorInner,
    map: Seq<Option<Emulation>>,
    khs: KBDLLHOOKSTRUCT,
    e: Emulation,
)
    requires
        khs.dwExtraInfo != s.emulator_id,
        s.active_emulation_key is None,
        map[spec_table_index(
            (khs.vkCode as int % 256) as u8,
            updated_mods(
                s.key_condition.mod_bits,
                ((khs.vkCode as int % 256) as u8) as u16,
                spec_is_key_up(khs.flags),
            ),
        )] == Some(e),
    ensures
        spec_process(s, map, khs).1,
        spec_process(s, map, khs).2 == spec_execute(
            e,
            spec_is_key_up(khs.flags),
            KeyCondition {
                last_vkey: (khs.vkCode as int % 256) as u8,
                mod_bits: updated_mods(
                    s.key_condition.mod_bits,
                    ((khs.vkCode as int % 256) as u8) as u16,
                    spec_is_key_up(khs.flags),
                ),
            },
        ),
{
    let vkey = (khs.vkCode as int % 256) as u8;
    let up = spec_is_key_up(khs.flags);
    let s2 = observed(s, vkey, up);
    assert(Seq::<(u8, bool)>::empty() + spec_execute(e, up, s2.key_condition) =~= spec_execute(
        e,
        up,
        s2.key_condition,
    ));
}

/// An injected left-shift event marks the left shift as logically released
/// when it releases a physically held shift, as logically pressed when it
/// presses a physically free one, and clears both marks otherwise; right
/// shift likewise; any other injected key changes nothing.
pub proof fn lemma_track_marks(s: EmulatorInner, vkey: u8, key_up: bool)
    ensures
        ({
            let t = spec_track(s, vkey, key_up);
            let l = mod_state(s.key_condition.mod_bits, 0xA0);
            let r = mod_state(s.key_condition.mod_bits, 0xA1);
            &&& (vkey == 0xA0 || vkey == 0x10) ==> t == (EmulatorInner {
                logical_lshift_released: key_up && l,
                logical_lshift_pressed: !key_up && !l,
                ..s
            })
            &&& vkey == 0xA1 ==> t == (EmulatorInner {
                logical_rshift_released: key_up && r,
                logical_rshift_pressed: !key_up && !r,
                ..s
            })
            &&& (vkey != 0xA0 && vkey != 0x10 && vkey != 0xA1) ==> t == s
        }),
{
}

/// Undoing a single adjustment sends the one event that reverses it: a
/// logically released shift is pressed again, a logically pressed one is
/// released.
pub proof fn lemma_restore_single(s: EmulatorInner)
    ensures
        s.logical_lshift_released && !s.logical_rshift_released && !s.logical_lshift_pressed
            && !s.logical_rshift_pressed ==> restore_events(s) == seq![(0xA0u8, false)],
        !s.logical_lshift_released && s.logical_rshift_released && !s.logical_lshift_pressed
            && !s.logical_rshift_pressed ==> restore_events(s) == seq![(0xA1u8, false)],
        !s.logical_lshift_released && !s.logical_rshift_released && s.logical_lshift_pressed
            && !s.logical_rshift_pressed ==> restore_events(s) == seq![(0xA0u8, true)],
        !s.logical_lshift_released && !s.logical_rshift_released && !s.logical_lshift_pressed
            && s.logical_rshift_pressed ==> restore_events(s) == seq![(0xA1u8, true)],
        !any_adjusted(s) ==> restore_events(s).len() == 0,
{
    let e = restore_events(s);
    if s.logical_lshift_released && !s.logical_rshift_released && !s.logical_lshift_pressed
        && !s.logical_rshift_pressed {
        assert(e =~= seq![(0xA0u8, false)]);
    }
    if !s.logical_lshift_released && s.logical_rshift_released && !s.logical_lshift_pressed
        && !s.logical_rshift_pressed {
        assert(e =~= seq![(0xA1u8, false)]);
    }
    if !s.logical_lshift_released && !s.logical_rshift_released && s.logical_lshift_pressed
        && !s.logical_rshift_pressed {
        assert(e =~= seq![(0xA0u8, true)]);
    }
    if !s.logical_lshift_released && !s.logical_rshift_released && !s.logical_lshift_pressed
        && s.logical_rshift_pressed {
        assert(e =~= seq![(0xA1u8, true)]);
    }
}

/// Undoing the adjustments injects, for each adjusted side, the one event
/// that brings the logical shift back to the physical one, and leaves
/// nothing adjusted.
#[verifier::rlimit(40)]
pub proof fn lemma_restore_undoes(s: EmulatorInner)
    requires
        inner_consistent(s),
    ensures
        !any_adjusted(restored(s)),
        restored(s).active_emulation_key is None,
        inner_consistent(restored(s)),
        restore_events(s).len() <= 2,
        !any_adjusted(spec_track_all(s, restore_events(s))),
{
    let l = s.key_condition.spec_mod_key_state(VK_LSHIFT as u16);
    let r = s.key_condition.spec_mod_key_state(VK_RSHIFT as u16);
    let e1 = event_if(s.logical_lshift_released, VK_LSHIFT, false);
    let e2 = event_if(s.logical_rshift_released, VK_RSHIFT, false);
    let e3 = event_if(s.logical_lshift_pressed, VK_LSHIFT, true);
    let e4 = event_if(s.logical_rshift_pressed, VK_RSHIFT, true);
    lemma_track_all_append(s, e1 + e2 + e3, e4);
    lemma_track_all_append(s, e1 + e2, e3);
    lemma_track_all_append(s, e1, e2);
    lemma_track_all_append(s, Seq::empty(), e1);
    assert(Seq::<(u8, bool)>::empty() + e1 =~= e1);
    reveal_with_fuel(spec_track_all, 2);
}

/// Tracking a concatenation tracks the parts in turn.
pub proof fn lemma_track_all_append(s: EmulatorInner, a: Seq<(u8, bool)>, b: Seq<(u8, bool)>)
    ensures
        spec_track_all(s, a + b) == spec_track_all(spec_track_all(s, a), b),
    decreases b.len(),
{
    if b.len() == 0 {
        assert(a + b =~= a);
    } else {
        lemma_track_all_append(s, a, b.drop_last());
        assert((a + b).drop_last() =~= a + b.drop_last());
    }
}

/// While an Alt key is held nothing is rewritten: the table has no entry
/// for any key with Alt.
pub proof fn lemma_alt_keys_not_rewritten(c: KeyCondition)
    requires
        alt_held(c.mod_bits),
    ensures
        spec_us_on_jis_map()[c.table_index_spec() as int] is None,
{
    let k = spec_table_index(c.last_vkey, c.mod_bits);
    lemma_us_on_jis_map_contents();
    assert forall|i: int| 0 <= i < spec_mappings().len() implies mapping_key(
        #[trigger] spec_mappings()[i],
    ) != k by {}
}

impl<H> KeyEmulator<H> {
    /// The emulator's state.
    pub closed spec fn state(&self) -> EmulatorInner {
        self.inner
    }

    /// Whether the hook is installed.
    pub closed spec fn started(&self) -> bool {
        self.hooker is Some
    }

    /// The hook handle while the hook is installed.
    pub closed spec fn hook(&self) -> Option<H> {
        self.hooker
    }

    /// The emulator holds the US-on-JIS table and a consistent state.
    pub closed spec fn wf(&self) -> bool {
        &&& self.map@ == spec_us_on_jis_map()
        &&& inner_consistent(self.inner)
    }

    /// A stopped emulator whose injected events carry `emulator_id`.
    pub fn new(emulator_id: usize) -> (e: Self)
        ensures
            e.wf(),
            e.state() == initial_inner(emulator_id),
            !e.started(),
    {
        KeyEmulator {
            inner: EmulatorInner {
                key_condition: KeyCondition { last_vkey: 0, mod_bits: 0 },
                emulator_id,
                input_backend: InputBackend::SendInput,
                logical_lshift_released: false,
                logical_rshift_released: false,
                logical_lshift_pressed: false,
                logical_rshift_pressed: false,
                active_emulation_key: None,
            },
            map: us_on_jis_map(),
            hooker: None,
        }
    }

    /// Installs the hook with `install` unless it is installed already.
    /// On success the emulator keeps the handle; on failure it stays stopped
    /// and the error is returned.
    pub fn start<E, F: FnOnce() -> Result<H, E>>(&mut self, install: F) -> (r: Result<(), E>)
        requires
            call_requires(install, ()),
        ensures
            final(self).state() == old(self).state(),
            final(self).wf() == old(self).wf(),
            old(self).started() ==> r is Ok && final(self).hook() == old(self).hook(),
            !old(self).started() ==> exists|res: Result<H, E>|
                call_ensures(install, (), res) && match res {
                    Ok(h) => r is Ok && final(self).hook() == Some(h),
                    Err(e) => r == Err::<(), E>(e) && final(self).hook() is None,
                },
            final(self).started() == r is Ok,
    {
        if self.hooker.is_some() {
            return Ok(());
        }
        match install() {
            Ok(h) => {
                self.hooker = Some(h);
                Ok(())
            },
            Err(e) => Err(e),
        }
    }

    /// Uninstalls the hook (drops its handle).
    pub fn stop(&mut self)
        ensures
            final(self).state() == old(self).state(),
            final(self).wf() == old(self).wf(),
            !final(self).started(),
    {
        self.hooker = None;
    }

    pub fn is_started(&self) -> (r: bool)
        ensures
            r == self.started(),
    {
        self.hooker.is_some()
    }

    pub fn input_backend(&self) -> (r: InputBackend)
        ensures
            r == self.state().input_backend,
    {
        self.inner.input_backend
    }

    /// Switches to the other backend and returns it.
    pub fn toggle_input_backend(&mut self) -> (r: InputBackend)
        ensures
            r == old(self).state().input_backend.spec_toggled(),
            final(self).state() == (EmulatorInner { input_backend: r, ..old(self).state() }),
            final(self).wf() == old(self).wf(),
            final(self).started() == old(self).started(),
    {
        self.inner.input_backend = self.inner.input_backend.toggled();
        self.inner.input_backend
    }

    /// Handles one event that the hook reports.
    pub fn handle_hook_event(&mut self, khs: &KBDLLHOOKSTRUCT) -> (resp: HookResponse)
        requires
            old(self).wf(),
        ensures
            final(self).wf(),
            final(self).started() == old(self).started(),
            (final(self).state(), resp.swallow, resp.events@) == spec_process(
                old(self).state(),
                spec_us_on_jis_map(),
                *khs,
            ),
            resp.events@.len() <= MAX_EMULATION_EVENTS,
            resp.emulator_id == old(self).state().emulator_id,
            resp.input_backend == old(self).state().input_backend,
    {
        let resp = Self::process_hook_event(&mut self.inner, &self.map, khs);
        proof {
            lemma_process_keeps_consistent(old(self).inner, self.map@, *khs);
        }
        resp
    }

    /// One hook event against the table `map`.
    #[verifier::rlimit(40)]
    pub fn process_hook_event(
        inner: &mut EmulatorInner,
        map: &EmulationMap,
        khs: &KBDLLHOOKSTRUCT,
    ) -> (resp: HookResponse)
        requires
            map@.len() == 0x400,
        ensures
            (*final(inner), resp.swallow, resp.events@) == spec_process(*old(inner), map@, *khs),
            resp.events@.len() <= MAX_EMULATION_EVENTS,
            resp.emulator_id == old(inner).emulator_id,
            resp.input_backend == old(inner).input_backend,
    {
        let id = inner.emulator_id;
        let backend = inner.input_backend;
        if khs.dwExtraInfo == inner.emulator_id {
            return HookResponse {
                swallow: false,
                events: Vec::new(),
                emulator_id: id,
                input_backend: backend,
            };
        }
        let vkey = get_vkey(khs);
        let up = is_key_up(khs);

        inner.key_condition.change_key_state(vkey, up);

        if vkey == VK_LSHIFT || vkey == VK_SHIFT {
            inner.logical_lshift_released = false;
            inner.logical_lshift_pressed = false;
            inner.active_emulation_key = None;
        } else if vkey == VK_RSHIFT {
            inner.logical_rshift_released = false;
            inner.logical_rshift_pressed = false;
            inner.active_emulation_key = None;
        }
        let ghost s2 = *inner;
        assert(s2 == observed(*old(inner), vkey, up));

        let idx = inner.key_condition.table_index() as usize;
        let mapping = map[idx];

        let mut restoration_events: Vec<(u8, bool)> = Vec::new();
        let restore = match inner.active_emulation_key {
            Some(k) => k != vkey,
            None => false,
        };
        if restore {
            restoration_events = Self::restore_modifiers(inner);
        }
        match mapping {
            Some(emulation) => {
                let events = Self::run_emulation(inner, emulation, up, vkey, restoration_events);
                HookResponse { swallow: true, events, emulator_id: id, input_backend: backend }
            },
            None => {
                if restoration_events.len() > 0 {
                    let mut events = restoration_events;
                    events.push((vkey, up));
                    HookResponse { swallow: true, events, emulator_id: id, input_backend: backend }
                } else {
                    HookResponse {
                        swallow: false,
                        events: Vec::new(),
                        emulator_id: id,
                        input_backend: backend,
                    }
                }
            },
        }
    }

    /// Runs `emulation` for key `vkey`, appending its events to `events`.
    #[verifier::rlimit(40)]
    fn run_emulation(
        inner: &mut EmulatorInner,
        emulation: Emulation,
        up: bool,
        vkey: u8,
        events: Vec<(u8, bool)>,
    ) -> (out: Vec<(u8, bool)>)
        requires
            events@.len() <= 4,
        ensures
            out@ == events@ + spec_execute(emulation, up, old(inner).key_condition),
            *final(inner) == after_emulation(*old(inner), emulation, up, vkey),
            out@.len() <= MAX_EMULATION_EVENTS,
    {
        let ghost s3 = *inner;
        let mut events = events;
        let key_condition = inner.key_condition;
        let evs = emulation.execute(up, &key_condition);
        let ghost rest = events@;
        let mut i: usize = 0;
        while i < evs.len()
            invariant
                i <= evs@.len(),
                evs@ == spec_execute(emulation, up, s3.key_condition),
                evs@.len() <= 5,
                rest.len() <= 4,
                events@ == rest + evs@.take(i as int),
                *inner == spec_track_all(s3, evs@.take(i as int)),
            decreases evs@.len() - i,
        {
            let (ev_vkey, ev_key_up) = evs[i];
            events.push((ev_vkey, ev_key_up));
            Self::update_modifier_tracking(inner, ev_vkey, ev_key_up);
            proof {
                let t = evs@.take(i + 1);
                assert(t.drop_last() =~= evs@.take(i as int));
                assert(events@ =~= rest + t);
            }
            i = i + 1;
        }
        assert(evs@.take(evs@.len() as int) =~= evs@);
        if inner.logical_lshift_released || inner.logical_rshift_released
            || inner.logical_lshift_pressed || inner.logical_rshift_pressed {
            inner.active_emulation_key = Some(vkey);
        } else {
            inner.active_emulation_key = None;
        }
        events
    }

    /// Undoes the logical shift adjustments and returns the events that do it.
    pub fn restore_modifiers(inner: &mut EmulatorInner) -> (events: Vec<(u8, bool)>)
        ensures
            events@ == restore_events(*old(inner)),
            *final(inner) == restored(*old(inner)),
            events@.len() <= 4,
    {
        let ghost s = *inner;
        let mut events: Vec<(u8, bool)> = Vec::new();
        if inner.logical_lshift_released {
            events.push((VK_LSHIFT, false));
            inner.logical_lshift_released = false;
        }
        assert(events@ == event_if(s.logical_lshift_released, VK_LSHIFT, false));
        if inner.logical_rshift_released {
            events.push((VK_RSHIFT, false));
            inner.logical_rshift_released = false;
        }
        assert(events@ == event_if(s.logical_lshift_released, VK_LSHIFT, false) + event_if(
            s.logical_rshift_released,
            VK_RSHIFT,
            false,
        ));
        if inner.logical_lshift_pressed {
            events.push((VK_LSHIFT, true));
            inner.logical_lshift_pressed = false;
        }
        assert(events@ == event_if(s.logical_lshift_released, VK_LSHIFT, false) + event_if(
            s.logical_rshift_released,
            VK_RSHIFT,
            false,
        ) + event_if(s.logical_lshift_pressed, VK_LSHIFT, true));
        if inner.logical_rshift_pressed {
            events.push((VK_RSHIFT, true));
            inner.logical_rshift_pressed = false;
        }
        inner.active_emulation_key = None;
        events
    }

    /// Records that the emulator injected `(vkey, key_up)`.
    pub fn update_modifier_tracking(inner: &mut EmulatorInner, vkey: u8, key_up: bool)
        ensures
            *final(inner) == spec_track(*old(inner), vkey, key_up),
    {
        if vkey == VK_LSHIFT || vkey == VK_SHIFT {
            let physical_down = inner.key_condition.get_mod_key_state(VK_LSHIFT as u16);
            if key_up {
                if physical_down {
                    inner.logical_lshift_released = true;
                    inner.logical_lshift_pressed = false;
                } else {
                    inner.logical_lshift_released = false;
                    inner.logical_lshift_pressed = false;
                }
            } else {
                if !physical_down {
                    inner.logical_lshift_pressed = true;
                    inner.logical_lshift_released = false;
                } else {
                    inner.logical_lshift_pressed = false;
                    inner.logical_lshift_released = false;
                }
            }
        } else if vkey == VK_RSHIFT {
            let physical_down = inner.key_condition.get_mod_key_state(VK_RSHIFT as u16);
            if key_up {
                if physical_down {
                    inner.logical_rshift_released = true;
                    inner.logical_rshift_pressed = false;
                } else {
                    inner.logical_rshift_released = false;
                    inner.logical_rshift_pressed = false;
                }
            } else {
                if !physical_down {
                    inner.logical_rshift_pressed = true;
                    inner.logical_rshift_released = false;
                } else {
                    inner.logical_rshift_pressed = false;
                    inner.logical_rshift_released = false;
                }
            }
        }
    }
}

pub const KEYEVENTF_EXTENDEDKEY: u32 = 0x1;
pub const KEYEVENTF_KEYUP: u32 = 0x2;
pub const KEYEVENTF_SCANCODE: u32 = 0x8;

/// Keys that are sent as extended keys by either backend.
pub open spec fn is_extended_base(vkey: u8) -> bool {
    vkey == VK_RCONTROL || vkey == VK_RMENU || vkey == VK_INSERT || vkey == VK_DELETE || vkey
        == VK_HOME || vkey == VK_END || vkey == VK_PRIOR || vkey == VK_NEXT || vkey == VK_UP
        || vkey == VK_DOWN || vkey == VK_RIGHT || vkey == VK_LEFT || vkey == VK_NUMLOCK || vkey
        == VK_CANCEL || vkey == VK_SNAPSHOT || vkey == VK_DIVIDE
}

/// Whether `SendInput` marks `vkey` as an extended key.
pub fn is_send_input_extended_key(vkey: u8) -> (r: bool)
    ensures
        r == is_extended_base(vkey),
{
    vkey == VK_RCONTROL || vkey == VK_RMENU || vkey == VK_INSERT || vkey == VK_DELETE || vkey
        == VK_HOME || vkey == VK_END || vkey == VK_PRIOR || vkey == VK_NEXT || vkey == VK_UP
        || vkey == VK_DOWN || vkey == VK_RIGHT || vkey == VK_LEFT || vkey == VK_NUMLOCK || vkey
        == VK_CANCEL || vkey == VK_SNAPSHOT || vkey == VK_DIVIDE
}

/// Whether `keybd_event` marks `vkey` as an extended key: the same keys,
/// and the right shift.
pub fn is_legacy_extended_key(vkey: u8) -> (r: bool)
    ensures
        r == (is_extended_base(vkey) || vkey == VK_RSHIFT),
{
    is_send_input_extended_key(vkey) || vkey == VK_RSHIFT
}

/// The flags `keybd_event` is called with for `(vkey, key_up)`.
pub fn legacy_event_flags(vkey: u8, key_up: bool) -> (f: u32)
    ensures
        f == (if key_up { KEYEVENTF_KEYUP } else { 0 }) + (if is_extended_base(vkey) || vkey
            == VK_RSHIFT {
            KEYEVENTF_EXTENDEDKEY
        } else {
            0
        }),
{
    let mut flags: u32 = 0;
    if key_up {
        flags = flags + KEYEVENTF_KEYUP;
    }
    if is_legacy_extended_key(vkey) {
        flags = flags + KEYEVENTF_EXTENDEDKEY;
    }
    flags
}

/// The keyboard part of one `SendInput` record.
#[derive(Debug, Clone, Copy, PartialEq, Eq, Structural)]
pub struct KeyboardInput {
    /// The virtual key; 0 when the event is sent by scan code.
    pub vk: u16,
    pub scan: u16,
    pub flags: u32,
    /// The tag the emulator recognises its own events by.
    pub extra_info: usize,
}

/// The scan code and its extended-key bit out of the value the layout's
/// virtual-key-to-scan-code mapping returned: the low byte, and whether the
/// next byte is set.
pub fn scan_from_mapped(mapped: u32) -> (r: (u16, bool))
    ensures
        r.0 as int == mapped as int % 0x100,
        r.1 == ((mapped as int / 0x100) % 0x100 != 0),
{
    let lo = mapped & 0xFF;
    let hi = mapped & 0xFF00;
    assert(lo == mapped % 0x100 && (hi != 0) == ((mapped / 0x100) % 0x100 != 0) && lo < 0x100) by (bit_vector)
        requires
            lo == mapped & 0xFF,
            hi == mapped & 0xFF00,
    ;
    (lo as u16, hi != 0)
}

/// The `SendInput` record for `(vkey, key_up)`, given what the keyboard
/// layout maps `vkey` to: sent by scan code when the layout knows one, by
/// virtual key otherwise, extended when the layout or the key calls for it.
pub fn input_for_event(vkey: u8, key_up: bool, emulator_id: usize, mapped: u32) -> (ki:
    KeyboardInput)
    ensures
        ki.scan as int == mapped as int % 0x100,
        ki.vk == (if ki.scan == 0 { vkey as u16 } else { 0u16 }),
        ki.flags == (if key_up { KEYEVENTF_KEYUP } else { 0 }) + (if ki.scan != 0 {
            KEYEVENTF_SCANCODE
        } else {
            0
        }) + (if (mapped as int / 0x100) % 0x100 != 0 || is_extended_base(vkey) {
            KEYEVENTF_EXTENDEDKEY
        } else {
            0
        }),
        ki.extra_info == emulator_id,
{
    let (scan_code, scan_is_extended) = scan_from_mapped(mapped);
    let mut flags: u32 = 0;
    if key_up {
        flags = flags + KEYEVENTF_KEYUP;
    }
    if scan_code != 0 {
        flags = flags + KEYEVENTF_SCANCODE;
    }
    if scan_is_extended || is_send_input_extended_key(vkey) {
        flags = flags + KEYEVENTF_EXTENDEDKEY;
    }
    KeyboardInput {
        vk: if scan_code == 0 { vkey as u16 } else { 0 },
        scan: scan_code,
        flags,
        extra_info: emulator_id,
    }
}

} // verus!
