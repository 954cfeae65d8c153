//! The low-level keyboard hook's record of one key event, as plain values.

use vstd::prelude::*;

verus! {

/// The fields of the record that the low-level keyboard hook receives.
#[derive(Debug, Clone, Copy, PartialEq, Eq, Structural)]
#[allow(non_snake_case)]
pub struct KBDLLHOOKSTRUCT {
    pub vkCode: u32,
    pub scanCode: u32,
    pub flags: u32,
    pub time: u32,
    pub dwExtraInfo: usize,
}

/// The flag bit that marks a key release.
pub const LLKHF_UP: u32 = 0x80;

/// The virtual key of the event: the low byte of its key code.
pub fn get_vkey(khs: &KBDLLHOOKSTRUCT) -> (v: u8)
    ensures
        v as int == khs.vkCode as int % 256,
{
    let c: u32 = khs.vkCode;
    assert(c as u8 as int == c as int % 256) by (bit_vector);
    c as u8
}

/// Whether flag bit 7, the release flag, is set.
pub open spec fn spec_is_key_up(flags: u32) -> bool {
    (flags / 0x80) % 2 == 1
}

/// Whether the event is a key release.
pub fn is_key_up(khs: &KBDLLHOOKSTRUCT) -> (up: bool)
    ensures
        up == spec_is_key_up(khs.flags),
{
    let f = khs.flags;
    assert((f & 0x80 != 0) == ((f / 0x80) % 2 == 1)) by (bit_vector);
    (f & LLKHF_UP) != 0
}

} // verus!
