//! Decorators that build an emulation out of another one: press a shift
//! around it, lift the held shifts around it, or play it down and up at once.

use vstd::prelude::*;
use crate::emulation::{Emulation, spec_execute, event_if};
use crate::key_condition::KeyCondition;
use crate::vkeys::{VK_LSHIFT, VK_RSHIFT};

verus! {

/// Something that, for a physical key going down or up, sends a sequence of
/// key events (virtual key, key up) into `out`.
pub trait EmulationSteps {
    /// The events sent when the physical key goes down.
    spec fn down_events(&self, cond: KeyCondition) -> Seq<(u8, bool)>;

    /// The events sent when the physical key goes up.
    spec fn up_events(&self, cond: KeyCondition) -> Seq<(u8, bool)>;

    fn execute_down(&self, cond: &KeyCondition, out: &mut Vec<(u8, bool)>)
        ensures
            final(out)@ == old(out)@ + self.down_events(*cond),
    ;

    fn execute_up(&self, cond: &KeyCondition, out: &mut Vec<(u8, bool)>)
        ensures
            final(out)@ == old(out)@ + self.up_events(*cond),
    ;
}

fn emit(out: &mut Vec<(u8, bool)>, vkey: u8, up: bool)
    ensures
        final(out)@ == old(out)@.push((vkey, up)),
{
    out.push((vkey, up));
}

fn emit_all(out: &mut Vec<(u8, bool)>, events: &Vec<(u8, bool)>)
    ensures
        final(out)@ == old(out)@ + events@,
{
    let mut i: usize = 0;
    while i < events.len()
        invariant
            i <= events@.len(),
            out@ == old(out)@ + events@.take(i as int),
        decreases events@.len() - i,
    {
        out.push(events[i]);
        proof {
            assert(events@.take(i + 1) =~= events@.take(i as int).push(events@[i as int]));
        }
        i = i + 1;
    }
    assert(events@.take(events@.len() as int) =~= events@);
}

impl EmulationSteps for Emulation {
    open spec fn down_events(&self, cond: KeyCondition) -> Seq<(u8, bool)> {
        spec_execute(*self, false, cond)
    }

    open spec fn up_events(&self, cond: KeyCondition) -> Seq<(u8, bool)> {
        spec_execute(*self, true, cond)
    }

    fn execute_down(&self, cond: &KeyCondition, out: &mut Vec<(u8, bool)>) {
        let events = self.execute(false, cond);
        emit_all(out, &events);
    }

    fn execute_up(&self, cond: &KeyCondition, out: &mut Vec<(u8, bool)>) {
        let events = self.execute(true, cond);
        emit_all(out, &events);
    }
}

/// Presses the left shift around the inner emulation's key-down events.
pub struct ShiftPressDecorator<E> {
    inner: E,
}

impl<E> ShiftPressDecorator<E> {
    pub closed spec fn inner(&self) -> E {
        self.inner
    }

    pub fn new(inner: E) -> (d: Self)
        ensures
            d.inner() == inner,
    {
        Self { inner }
    }
}

impl<E: EmulationSteps> EmulationSteps for ShiftPressDecorator<E> {
    open spec fn down_events(&self, cond: KeyCondition) -> Seq<(u8, bool)> {
        seq![(VK_LSHIFT, false)] + self.inner().down_events(cond) + seq![(VK_LSHIFT, true)]
    }

    open spec fn up_events(&self, cond: KeyCondition) -> Seq<(u8, bool)> {
        self.inner().up_events(cond)
    }

    fn execute_down(&self, cond: &KeyCondition, out: &mut Vec<(u8, bool)>) {
        emit(out, VK_LSHIFT, false);
        self.inner.execute_down(cond, out);
        emit(out, VK_LSHIFT, true);
        assert(out@ =~= old(out)@ + self.down_events(*cond));
    }

    fn execute_up(&self, cond: &KeyCondition, out: &mut Vec<(u8, bool)>) {
        self.inner.execute_up(cond, out);
    }
}

/// Lifts the physically held shift keys around the inner emulation's
/// key-down events and puts them back afterwards.
pub struct ShiftReleaseDecorator<E> {
    inner: E,
}

impl<E> ShiftReleaseDecorator<E> {
    pub closed spec fn inner(&self) -> E {
        self.inner
    }

    pub fn new(inner: E) -> (d: Self)
        ensures
            d.inner() == inner,
    {
        Self { inner }
    }
}

impl<E: EmulationSteps> EmulationSteps for ShiftReleaseDecorator<E> {
    open spec fn down_events(&self, cond: KeyCondition) -> Seq<(u8, bool)> {
        let l = cond.spec_mod_key_state(VK_LSHIFT as u16);
        let r = cond.spec_mod_key_state(VK_RSHIFT as u16);
        event_if(l, VK_LSHIFT, true) + event_if(r, VK_RSHIFT, true) + self.inner().down_events(
            cond,
        ) + event_if(l, VK_LSHIFT, false) + event_if(r, VK_RSHIFT, false)
    }

    open spec fn up_events(&self, cond: KeyCondition) -> Seq<(u8, bool)> {
        self.inner().up_events(cond)
    }

    fn execute_down(&self, cond: &KeyCondition, out: &mut Vec<(u8, bool)>) {
        let lshift = cond.get_mod_key_state(VK_LSHIFT as u16);
        let rshift = cond.get_mod_key_state(VK_RSHIFT as u16);
        let ghost o = out@;
        let ghost s1 = event_if(lshift, VK_LSHIFT, true);
        let ghost s2 = event_if(rshift, VK_RSHIFT, true);
        let ghost s3 = self.inner().down_events(*cond);
        let ghost s4 = event_if(lshift, VK_LSHIFT, false);
        let ghost s5 = event_if(rshift, VK_RSHIFT, false);

        if lshift {
            emit(out, VK_LSHIFT, true);
        }
        assert(out@ =~= o + s1);
        if rshift {
            emit(out, VK_RSHIFT, true);
        }
        assert(out@ =~= o + s1 + s2);

        self.inner.execute_down(cond, out);
        assert(out@ =~= o + s1 + s2 + s3);

        if lshift {
            emit(out, VK_LSHIFT, false);
        }
        assert(out@ =~= o + s1 + s2 + s3 + s4);
        if rshift {
            emit(out, VK_RSHIFT, false);
        }
        assert(out@ =~= o + s1 + s2 + s3 + s4 + s5);
        assert(s1 + s2 + s3 + s4 + s5 =~= self.down_events(*cond));
        assert(out@ =~= o + self.down_events(*cond));
    }

    fn execute_up(&self, cond: &KeyCondition, out: &mut Vec<(u8, bool)>) {
        self.inner.execute_up(cond, out);
    }
}

/// Plays the inner emulation's key-down and key-up events on either edge of
/// the physical key.
pub struct PressAndReleaseDecorator<E> {
    inner: E,
}

impl<E> PressAndReleaseDecorator<E> {
    pub closed spec fn inner(&self) -> E {
        self.inner
    }

    pub fn new(inner: E) -> (d: Self)
        ensures
            d.inner() == inner,
    {
        Self { inner }
    }
}

impl<E: EmulationSteps> EmulationSteps for PressAndReleaseDecorator<E> {
    open spec fn down_events(&self, cond: KeyCondition) -> Seq<(u8, bool)> {
        self.inner().down_events(cond) + self.inner().up_events(cond)
    }

    open spec fn up_events(&self, cond: KeyCondition) -> Seq<(u8, bool)> {
        self.inner().down_events(cond) + self.inner().up_events(cond)
    }

    fn execute_down(&self, cond: &KeyCondition, out: &mut Vec<(u8, bool)>) {
        self.inner.execute_down(cond, out);
        self.inner.execute_up(cond, out);
        assert(out@ =~= old(out)@ + self.down_events(*cond));
    }

    fn execute_up(&self, cond: &KeyCondition, out: &mut Vec<(u8, bool)>) {
        self.inner.execute_down(cond, out);
        self.inner.execute_up(cond, out);
        assert(out@ =~= old(out)@ + self.up_events(*cond));
    }
}

/// A shift press around a plain key is the shift-press emulation of that key.
pub proof fn lemma_shift_press_decorator_is_shift_press(
    d: ShiftPressDecorator<Emulation>,
    vkey: u8,
    cond: KeyCondition,
)
    requires
        d.inner() == (Emulation::Normal { vkey }),
    ensures
        d.down_events(cond) == (Emulation::ShiftPress { vkey }).down_events(cond),
        d.up_events(cond) == (Emulation::ShiftPress { vkey }).up_events(cond),
{
    assert(d.down_events(cond) =~= (Emulation::ShiftPress { vkey }).down_events(cond));
}

/// A shift release around a plain key is the shift-release emulation of that key.
pub proof fn lemma_shift_release_decorator_is_shift_release(
    d: ShiftReleaseDecorator<Emulation>,
    vkey: u8,
    cond: KeyCondition,
)
    requires
        d.inner() == (Emulation::Normal { vkey }),
    ensures
        d.down_events(cond) == (Emulation::ShiftRelease { vkey }).down_events(cond),
        d.up_events(cond) == (Emulation::ShiftRelease { vkey }).up_events(cond),
{
}

/// Pressing and releasing a plain key is the press-and-release emulation
/// of that key.
pub proof fn lemma_press_and_release_decorator_is_press_and_release(
    d: PressAndReleaseDecorator<Emulation>,
    vkey: u8,
    cond: KeyCondition,
)
    requires
        d.inner() == (Emulation::Normal { vkey }),
    ensures
        d.down_events(cond) == (Emulation::PressAndRelease { vkey }).down_events(cond),
        d.up_events(cond) == (Emulation::PressAndRelease { vkey }).up_events(cond),
{
    assert(d.down_events(cond) =~= (Emulation::PressAndRelease { vkey }).down_events(cond));
    assert(d.up_events(cond) =~= (Emulation::PressAndRelease { vkey }).up_events(cond));
}

/// Pressing and releasing a shift-pressed plain key is the
/// press-and-release-with-shift emulation of that key.
pub proof fn lemma_press_and_release_shift_press_is_press_and_release_shift(
    d: PressAndReleaseDecorator<ShiftPressDecorator<Emulation>>,
    vkey: u8,
    cond: KeyCondition,
)
    requires
        d.inner().inner() == (Emulation::Normal { vkey }),
    ensures
        d.down_events(cond) == (Emulation::PressAndReleaseShift { vkey }).down_events(cond),
        d.up_events(cond) == (Emulation::PressAndReleaseShift { vkey }).up_events(cond),
{
    assert(d.down_events(cond) =~= (Emulation::PressAndReleaseShift { vkey }).down_events(cond));
    assert(d.up_events(cond) =~= (Emulation::PressAndReleaseShift { vkey }).up_events(cond));
}

/// On the release edge the shift decorators add nothing: they send
/// exactly what the inner emulation sends, whatever is held.
pub proof fn lemma_shift_decorators_release_is_inner<E: EmulationSteps>(
    p: ShiftPressDecorator<E>,
    r: ShiftReleaseDecorator<E>,
    cond: KeyCondition,
)
    ensures
        p.up_events(cond) == p.inner().up_events(cond),
        r.up_events(cond) == r.inner().up_events(cond),
{
}

/// Around a plain key, the shift decorators release exactly that key on the
/// release edge, whatever is held.
pub proof fn lemma_shift_decorators_release_plain_key(
    p: ShiftPressDecorator<Emulation>,
    r: ShiftReleaseDecorator<Emulation>,
    vkey: u8,
    cond: KeyCondition,
)
    requires
        p.inner() == (Emulation::Normal { vkey }),
        r.inner() == (Emulation::Normal { vkey }),
    ensures
        p.up_events(cond) == seq![(vkey, true)],
        r.up_events(cond) == seq![(vkey, true)],
{
}

/// The press-and-release decorator sends the same on either edge: the
/// inner emulation's press events followed by its release events.
pub proof fn lemma_press_and_release_decorator_edges<E: EmulationSteps>(
    d: PressAndReleaseDecorator<E>,
    cond: KeyCondition,
)
    ensures
        d.down_events(cond) == d.up_events(cond),
        d.down_events(cond) == d.inner().down_events(cond) + d.inner().up_events(cond),
{
}

/// On the press edge the shift-press decorator wraps the inner events in
/// a left-shift press and release, and the shift-release decorator, with
/// no shift held, sends the inner events unchanged.
pub proof fn lemma_shift_decorators_press_edge<E: EmulationSteps>(
    p: ShiftPressDecorator<E>,
    r: ShiftReleaseDecorator<E>,
    cond: KeyCondition,
)
    ensures
        p.down_events(cond) == seq![(0xA0u8, false)] + p.inner().down_events(cond) + seq![
            (0xA0u8, true),
        ],
        !cond.spec_mod_key_state(0xA0) && !cond.spec_mod_key_state(0xA1) ==> r.down_events(cond)
            == r.inner().down_events(cond),
{
    if !cond.spec_mod_key_state(0xA0) && !cond.spec_mod_key_state(0xA1) {
        assert(r.down_events(cond) =~= r.inner().down_events(cond));
    }
}

} // verus!
