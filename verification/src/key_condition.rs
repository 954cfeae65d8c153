//! What the hook has seen of the keyboard: the last key and which modifier
//! keys are physically held.

use vstd::prelude::*;
use crate::vkeys::{
    VK_CONTROL, VK_LCONTROL, VK_LMENU, VK_LSHIFT, VK_MENU, VK_RCONTROL, VK_RMENU, VK_RSHIFT, VK_SHIFT,
};

verus! {

pub const MOD_LSHIFT: u8 = 1;
pub const MOD_RSHIFT: u8 = 2;
pub const MOD_LCTRL: u8 = 4;
pub const MOD_RCTRL: u8 = 8;
pub const MOD_LALT: u8 = 16;
pub const MOD_RALT: u8 = 32;

/// The modifier bit that a virtual key drives, if it is a modifier key.
/// The generic SHIFT, CONTROL and MENU codes count as the left-hand key.
pub open spec fn spec_mod_key_bit(vkey: u16) -> Option<u8> {
    if vkey == VK_LSHIFT as u16 || vkey == VK_SHIFT as u16 {
        Some(MOD_LSHIFT)
    } else if vkey == VK_RSHIFT as u16 {
        Some(MOD_RSHIFT)
    } else if vkey == VK_LCONTROL as u16 || vkey == VK_CONTROL as u16 {
        Some(MOD_LCTRL)
    } else if vkey == VK_RCONTROL as u16 {
        Some(MOD_RCTRL)
    } else if vkey == VK_LMENU as u16 || vkey == VK_MENU as u16 {
        Some(MOD_LALT)
    } else if vkey == VK_RMENU as u16 {
        Some(MOD_RALT)
    } else {
        None
    }
}

/// Whether the single bit `bit` is set in `bits`.
pub open spec fn has_bit(bits: u8, bit: u8) -> bool {
    (bits / bit) % 2 == 1
}

/// The modifier bits after `vkey` went up or down: its bit cleared or set.
pub open spec fn updated_mods(bits: u8, vkey: u16, up: bool) -> u8 {
    match spec_mod_key_bit(vkey) {
        Some(bit) => if up {
            if has_bit(bits, bit) {
                (bits - bit) as u8
            } else {
                bits
            }
        } else {
            if has_bit(bits, bit) {
                bits
            } else {
                (bits + bit) as u8
            }
        },
        None => bits,
    }
}

/// Whether the modifier that `vkey` names is held, given the modifier bits.
pub open spec fn mod_state(bits: u8, vkey: u16) -> bool {
    match spec_mod_key_bit(vkey) {
        Some(bit) => has_bit(bits, bit),
        None => false,
    }
}

/// Some shift key is held.
pub open spec fn shift_held(bits: u8) -> bool {
    has_bit(bits, MOD_LSHIFT) || has_bit(bits, MOD_RSHIFT)
}

/// Some alt key is held.
pub open spec fn alt_held(bits: u8) -> bool {
    has_bit(bits, MOD_LALT) || has_bit(bits, MOD_RALT)
}

/// The key the emulation table is indexed by: bit 9 for a held shift,
/// bit 8 for a held alt, the low byte for the last key.
pub open spec fn spec_table_index(last_vkey: u8, bits: u8) -> int {
    (if shift_held(bits) { 0x200int } else { 0int }) + (if alt_held(bits) {
        0x100int
    } else {
        0int
    }) + last_vkey as int
}

/// The bitwise operations on a single modifier bit, in arithmetic terms.
proof fn lemma_bit_ops(x: u8, m: u8)
    by (bit_vector)
    requires
        m == 1u8 || m == 2u8 || m == 4u8 || m == 8u8 || m == 16u8 || m == 32u8,
    ensures
        (x & m != 0) == ((x / m) % 2 == 1),
        (x / m) % 2 == 1 ==> (x | m) == x && (x & !m) == x - m,
        (x / m) % 2 != 1 ==> (x | m) == x + m && (x & !m) == x,
{
}

/// The masks of both shifts and of both alts, in arithmetic terms.
proof fn lemma_pair_masks(x: u8)
    by (bit_vector)
    ensures
        (x & (MOD_LSHIFT | MOD_RSHIFT) != 0) == (has_bit(x, MOD_LSHIFT) || has_bit(x, MOD_RSHIFT)),
        (x & (MOD_LALT | MOD_RALT) != 0) == (has_bit(x, MOD_LALT) || has_bit(x, MOD_RALT)),
{
}

#[derive(Debug, Clone, Copy, PartialEq, Eq, Structural)]
pub struct KeyCondition {
    pub last_vkey: u8,
    /// The held modifiers, one `MOD_*` bit each.
    pub mod_bits: u8,
}

impl Default for KeyCondition {
    fn default() -> (r: Self)
        ensures
            r.last_vkey == 0,
            r.mod_bits == 0,
    {
        KeyCondition { last_vkey: 0, mod_bits: 0 }
    }
}

fn mod_key_bit(vkey: u16) -> (r: Option<u8>)
    ensures
        r == spec_mod_key_bit(vkey),
{
    if vkey == VK_LSHIFT as u16 || vkey == VK_SHIFT as u16 {
        Some(MOD_LSHIFT)
    } else if vkey == VK_RSHIFT as u16 {
        Some(MOD_RSHIFT)
    } else if vkey == VK_LCONTROL as u16 || vkey == VK_CONTROL as u16 {
        Some(MOD_LCTRL)
    } else if vkey == VK_RCONTROL as u16 {
        Some(MOD_RCTRL)
    } else if vkey == VK_LMENU as u16 || vkey == VK_MENU as u16 {
        Some(MOD_LALT)
    } else if vkey == VK_RMENU as u16 {
        Some(MOD_RALT)
    } else {
        None
    }
}

impl KeyCondition {
    /// Whether the modifier that `vkey` names is held.
    pub open spec fn spec_mod_key_state(&self, vkey: u16) -> bool {
        mod_state(self.mod_bits, vkey)
    }

    /// A condition whose last key is `vkey`, with the left shift held or not.
    pub fn with_shift(vkey: u8, shift: bool) -> (kc: Self)
        ensures
            kc.last_vkey == vkey,
            kc.mod_bits == (if shift { MOD_LSHIFT } else { 0u8 }),
    {
        let mut kc = KeyCondition { last_vkey: vkey, mod_bits: 0 };
        if shift {
            kc.mod_bits = kc.mod_bits | MOD_LSHIFT;
            assert(0u8 | 1u8 == 1u8) by (bit_vector);
        }
        kc
    }

    /// Records that `vkey` went up (`up`) or down.
    pub fn change_key_state(&mut self, vkey: u8, up: bool)
        ensures
            final(self).last_vkey == vkey,
            final(self).mod_bits == updated_mods(old(self).mod_bits, vkey as u16, up),
    {
        self.last_vkey = vkey;
        if let Some(bit) = mod_key_bit(vkey as u16) {
            proof {
                lemma_bit_ops(self.mod_bits, bit);
            }
            if up {
                self.mod_bits = self.mod_bits & !bit;
            } else {
                self.mod_bits = self.mod_bits | bit;
            }
        }
    }

    /// Whether the modifier that `vkey` names is physically held; false for
    /// a key that is no modifier.
    pub fn get_mod_key_state(&self, vkey: u16) -> (r: bool)
        ensures
            r == self.spec_mod_key_state(vkey),
    {
        match mod_key_bit(vkey) {
            Some(bit) => {
                proof {
                    lemma_bit_ops(self.mod_bits, bit);
                }
                self.mod_bits & bit != 0
            },
            None => false,
        }
    }

    /// The index of this condition in the emulation table.
    pub fn table_index(&self) -> (r: u16)
        ensures
            r as int == spec_table_index(self.last_vkey, self.mod_bits),
            r < 0x400,
    {
        proof {
            lemma_pair_masks(self.mod_bits);
        }
        let shift = self.mod_bits & (MOD_LSHIFT | MOD_RSHIFT) != 0;
        let alt = self.mod_bits & (MOD_LALT | MOD_RALT) != 0;
        let s: u16 = if shift { 1 } else { 0 };
        let a: u16 = if alt { 1 } else { 0 };
        let l: u16 = self.last_vkey as u16;
        assert((s << 9u16) | (a << 8u16) | l == s * 0x200 + a * 0x100 + l) by (bit_vector)
            requires
                s <= 1,
                a <= 1,
                l < 256,
        ;
        (s << 9) | (a << 8) | l
    }

    /// The index of this condition in the emulation table (see `table_index`).
    pub fn cmp_value(&self) -> (r: u16)
        ensures
            r == self.table_index_spec(),
            r < 0x400,
    {
        self.table_index()
    }

    /// `spec_table_index` of this condition.
    pub open spec fn table_index_spec(&self) -> u16 {
        spec_table_index(self.last_vkey, self.mod_bits) as u16
    }
}

proof fn lemma_single_bit(bits: u8, m: u8, n: u8)
    by (bit_vector)
    requires
        m == 1u8 || m == 2u8 || m == 4u8 || m == 8u8 || m == 16u8 || m == 32u8,
        n == 1u8 || n == 2u8 || n == 4u8 || n == 8u8 || n == 16u8 || n == 32u8,
    ensures
        (((bits | m) / n) % 2 == 1) == (m == n || (bits / n) % 2 == 1),
        (((bits & !m) / n) % 2 == 1) == (m != n && (bits / n) % 2 == 1),
{
}

/// After a modifier key goes down it is held, after it goes up it is not,
/// and no other modifier changes: the state of a key `other` that shares
/// `vkey`'s modifier is `!up`, the state of any other key is unchanged.
pub proof fn lemma_change_key_state_mods(bits: u8, vkey: u8, up: bool, other: u16)
    ensures
        ({
            let after = updated_mods(bits, vkey as u16, up);
            match (spec_mod_key_bit(vkey as u16), spec_mod_key_bit(other)) {
                (Some(b), Some(c)) => mod_state(after, other) == if b == c {
                    !up
                } else {
                    mod_state(bits, other)
                },
                _ => mod_state(after, other) == mod_state(bits, other),
            }
        }),
{
    match (spec_mod_key_bit(vkey as u16), spec_mod_key_bit(other)) {
        (Some(b), Some(c)) => {
            lemma_single_bit(bits, b, c);
            lemma_bit_ops(bits, b);
        },
        _ => {},
    }
}

/// Only Shift and Alt select the table entry: two conditions with the
/// same last key whose Shift and Alt bits agree have the same table index,
/// whatever else (such as Ctrl) is held.
pub proof fn lemma_table_index_ignores_other_modifiers(v: u8, b1: u8, b2: u8)
    requires
        has_bit(b1, MOD_LSHIFT) == has_bit(b2, MOD_LSHIFT),
        has_bit(b1, MOD_RSHIFT) == has_bit(b2, MOD_RSHIFT),
        has_bit(b1, MOD_LALT) == has_bit(b2, MOD_LALT),
        has_bit(b1, MOD_RALT) == has_bit(b2, MOD_RALT),
    ensures
        spec_table_index(v, b1) == spec_table_index(v, b2),
{
}

/// With neither Shift nor Alt held the table index is the last key itself,
/// with Shift it is the key plus 0x200, with Alt the key plus 0x100; the
/// low byte is always the last key.
pub proof fn lemma_table_index_parts(v: u8, b: u8)
    ensures
        spec_table_index(v, b) % 0x100 == v as int,
        !has_bit(b, MOD_LSHIFT) && !has_bit(b, MOD_RSHIFT) && !has_bit(b, MOD_LALT) && !has_bit(
            b,
            MOD_RALT,
        ) ==> spec_table_index(v, b) == v as int,
        (spec_table_index(v, b) >= 0x200) == (has_bit(b, MOD_LSHIFT) || has_bit(b, MOD_RSHIFT)),
        (spec_table_index(v, b) % 0x200 >= 0x100) == (has_bit(b, MOD_LALT) || has_bit(b, MOD_RALT)),
{
}

/// Holding a Ctrl key does not change the table index.
pub proof fn lemma_ctrl_keeps_table_index(v: u8, b: u8, ctrl: u16, up: bool)
    requires
        ctrl == VK_LCONTROL as u16 || ctrl == VK_RCONTROL as u16 || ctrl == VK_CONTROL as u16,
    ensures
        spec_table_index(v, updated_mods(b, ctrl, up)) == spec_table_index(v, b),
{
    let c = spec_mod_key_bit(ctrl).unwrap();
    lemma_bit_ops(b, c);
    lemma_single_bit(b, c, MOD_LSHIFT);
    lemma_single_bit(b, c, MOD_RSHIFT);
    lemma_single_bit(b, c, MOD_LALT);
    lemma_single_bit(b, c, MOD_RALT);
}

/// Which modifier each virtual key drives: the generic and left Shift,
/// Ctrl and Alt codes drive the left bits, the right-hand codes the right
/// bits, and every other key drives none.
pub proof fn lemma_mod_key_bits()
    ensures
        spec_mod_key_bit(0x10) == Some(1u8),
        spec_mod_key_bit(0xA0) == Some(1u8),
        spec_mod_key_bit(0xA1) == Some(2u8),
        spec_mod_key_bit(0x11) == Some(4u8),
        spec_mod_key_bit(0xA2) == Some(4u8),
        spec_mod_key_bit(0xA3) == Some(8u8),
        spec_mod_key_bit(0x12) == Some(16u8),
        spec_mod_key_bit(0xA4) == Some(16u8),
        spec_mod_key_bit(0xA5) == Some(32u8),
        forall|v: u16|
            v != 0x10 && v != 0x11 && v != 0x12 && !(0xA0 <= v <= 0xA5) ==> #[trigger] spec_mod_key_bit(
                v,
            ) is None,
{
}

/// Pressing a modifier key sets its bit and releasing it clears it, as
/// plain arithmetic on the bits.
pub proof fn lemma_updated_mods_arith(bits: u8, vkey: u16, up: bool)
    requires
        spec_mod_key_bit(vkey) is Some,
    ensures
        ({
            let b = spec_mod_key_bit(vkey).unwrap();
            let held = (bits as int / b as int) % 2 == 1;
            updated_mods(bits, vkey, up) as int == if up && held {
                bits - b
            } else if !up && !held {
                bits + b
            } else {
                bits as int
            }
        }),
{
    let b = spec_mod_key_bit(vkey).unwrap();
    lemma_bit_ops(bits, b);
}

} // verus!
