//! The US-on-JIS rewriting table: which physical key, with or without
//! shift, is replaced by which emulation.

use vstd::prelude::*;
use crate::emulation::Emulation;
use crate::vkeys::{
    VK_OEM_1, VK_OEM_102, VK_OEM_3, VK_OEM_4, VK_OEM_5, VK_OEM_6, VK_OEM_7, VK_OEM_AUTO,
    VK_OEM_ENLW, VK_OEM_MINUS, VK_OEM_PLUS,
};

verus! {

pub const EMULATION_MAP_LEN: usize = 1024;

/// The table, indexed by `map_key`: 1024 entries.
pub type EmulationMap = Vec<Option<Emulation>>;

#[derive(Debug, Clone, Copy, PartialEq, Eq, Structural)]
pub struct Mapping {
    pub source: u8,
    pub shift: bool,
    pub emulation: Emulation,
}

pub open spec fn spec_map_key(source: u8, shift: bool) -> int {
    (if shift { 0x200int } else { 0int }) + source as int
}

pub open spec fn mapping_key(m: Mapping) -> int {
    spec_map_key(m.source, m.shift)
}

pub open spec fn mk(source: u8, shift: bool, emulation: Emulation) -> Mapping {
    Mapping { source, shift, emulation }
}

/// The declared mappings, in order.
pub open spec fn mapping_at(i: int) -> Mapping {
    if i == 0 { mk(0x32, true, Emulation::ShiftRelease { vkey: VK_OEM_3 }) }
    else if i == 1 { mk(0x36, true, Emulation::ShiftRelease { vkey: VK_OEM_7 }) }
    else if i == 2 { mk(0x37, true, Emulation::Normal { vkey: 0x36 }) }
    else if i == 3 { mk(0x38, true, Emulation::Normal { vkey: VK_OEM_1 }) }
    else if i == 4 { mk(0x39, true, Emulation::Normal { vkey: 0x38 }) }
    else if i == 5 { mk(0x30, true, Emulation::Normal { vkey: 0x39 }) }
    else if i == 6 { mk(VK_OEM_MINUS, true, Emulation::Normal { vkey: VK_OEM_102 }) }
    else if i == 7 { mk(VK_OEM_7, false, Emulation::ShiftPress { vkey: VK_OEM_MINUS }) }
    else if i == 8 { mk(VK_OEM_7, true, Emulation::Normal { vkey: VK_OEM_PLUS }) }
    else if i == 9 { mk(VK_OEM_AUTO, false, Emulation::Nop) }
    else if i == 10 { mk(VK_OEM_ENLW, false, Emulation::PressAndReleaseShift { vkey: VK_OEM_3 }) }
    else if i == 11 { mk(VK_OEM_AUTO, true, Emulation::Nop) }
    else if i == 12 { mk(VK_OEM_ENLW, true, Emulation::PressAndRelease { vkey: VK_OEM_7 }) }
    else if i == 13 { mk(VK_OEM_3, false, Emulation::Normal { vkey: VK_OEM_4 }) }
    else if i == 14 { mk(VK_OEM_4, false, Emulation::Normal { vkey: VK_OEM_6 }) }
    else if i == 15 { mk(VK_OEM_3, true, Emulation::Normal { vkey: VK_OEM_4 }) }
    else if i == 16 { mk(VK_OEM_4, true, Emulation::Normal { vkey: VK_OEM_6 }) }
    else if i == 17 { mk(VK_OEM_PLUS, true, Emulation::ShiftRelease { vkey: VK_OEM_1 }) }
    else if i == 18 { mk(VK_OEM_1, false, Emulation::ShiftPress { vkey: 0x37 }) }
    else if i == 19 { mk(VK_OEM_1, true, Emulation::Normal { vkey: 0x32 }) }
    else if i == 20 { mk(VK_OEM_6, false, Emulation::Normal { vkey: VK_OEM_102 }) }
    else { mk(VK_OEM_6, true, Emulation::Normal { vkey: VK_OEM_5 }) }
}

pub open spec fn spec_mappings() -> Seq<Mapping> {
    Seq::new(22, |i: int| mapping_at(i))
}

/// The entry at `k` of a table built by writing `ms` in order.
pub open spec fn built_entry(ms: Seq<Mapping>, k: int) -> Option<Emulation>
    decreases ms.len(),
{
    if ms.len() == 0 {
        None
    } else if mapping_key(ms.last()) == k {
        Some(ms.last().emulation)
    } else {
        built_entry(ms.drop_last(), k)
    }
}

/// The whole table.
pub open spec fn spec_us_on_jis_map() -> Seq<Option<Emulation>> {
    Seq::new(EMULATION_MAP_LEN as nat, |k: int| built_entry(spec_mappings(), k))
}

/// How many entries of `s` are set.
pub open spec fn count_some(s: Seq<Option<Emulation>>) -> nat
    decreases s.len(),
{
    if s.len() == 0 {
        0
    } else {
        count_some(s.drop_last()) + if s.last() is Some { 1nat } else { 0nat }
    }
}

pub fn map(source: u8, shift: bool, emulation: Emulation) -> (m: Mapping)
    ensures
        m == mk(source, shift, emulation),
{
    Mapping { source, shift, emulation }
}

pub fn normal(source: u8, shift: bool, vkey: u8) -> (m: Mapping)
    ensures
        m == mk(source, shift, Emulation::Normal { vkey }),
{
    map(source, shift, Emulation::Normal { vkey })
}

pub fn nop(source: u8, shift: bool) -> (m: Mapping)
    ensures
        m == mk(source, shift, Emulation::Nop),
{
    map(source, shift, Emulation::Nop)
}

pub fn shift_press(source: u8, shift: bool, vkey: u8) -> (m: Mapping)
    ensures
        m == mk(source, shift, Emulation::ShiftPress { vkey }),
{
    map(source, shift, Emulation::ShiftPress { vkey })
}

pub fn shift_release(source: u8, shift: bool, vkey: u8) -> (m: Mapping)
    ensures
        m == mk(source, shift, Emulation::ShiftRelease { vkey }),
{
    map(source, shift, Emulation::ShiftRelease { vkey })
}

pub fn press_and_release(source: u8, shift: bool, vkey: u8) -> (m: Mapping)
    ensures
        m == mk(source, shift, Emulation::PressAndRelease { vkey }),
{
    map(source, shift, Emulation::PressAndRelease { vkey })
}

pub fn press_and_release_shift(source: u8, shift: bool, vkey: u8) -> (m: Mapping)
    ensures
        m == mk(source, shift, Emulation::PressAndReleaseShift { vkey }),
{
    map(source, shift, Emulation::PressAndReleaseShift { vkey })
}

/// The declared mappings.
pub fn mappings() -> (ms: Vec<Mapping>)
    ensures
        ms@ == spec_mappings(),
{
    let ms: Vec<Mapping> = vec![
        shift_release(0x32, true, VK_OEM_3), shift_release(0x36, true, VK_OEM_7),
        normal(0x37, true, 0x36), normal(0x38, true, VK_OEM_1),
        normal(0x39, true, 0x38), normal(0x30, true, 0x39),
        normal(VK_OEM_MINUS, true, VK_OEM_102), shift_press(VK_OEM_7, false, VK_OEM_MINUS),
        normal(VK_OEM_7, true, VK_OEM_PLUS), nop(VK_OEM_AUTO, false),
        press_and_release_shift(VK_OEM_ENLW, false, VK_OEM_3), nop(VK_OEM_AUTO, true),
        press_and_release(VK_OEM_ENLW, true, VK_OEM_7), normal(VK_OEM_3, false, VK_OEM_4),
        normal(VK_OEM_4, false, VK_OEM_6), normal(VK_OEM_3, true, VK_OEM_4),
        normal(VK_OEM_4, true, VK_OEM_6), shift_release(VK_OEM_PLUS, true, VK_OEM_1),
        shift_press(VK_OEM_1, false, 0x37), normal(VK_OEM_1, true, 0x32),
        normal(VK_OEM_6, false, VK_OEM_102), normal(VK_OEM_6, true, VK_OEM_5),
    ];
    assert(ms@ =~= spec_mappings());
    ms
}

/// The table index of `source` with or without shift: bit 9 for shift.
pub fn map_key(source: u8, shift: bool) -> (k: usize)
    ensures
        k as int == spec_map_key(source, shift),
        k < EMULATION_MAP_LEN,
{
    let base: usize = if shift { 0x200 } else { 0 };
    let s: usize = source as usize;
    assert(base | s == base + s) by (bit_vector)
        requires
            base == 0 || base == 0x200,
            s < 256,
    ;
    base | s
}

/// No two declared mappings share a table index.
#[verifier::rlimit(40)]
pub proof fn lemma_mapping_keys_distinct()
    ensures
        forall|i: int, j: int|
            0 <= i < 22 && 0 <= j < 22 && i != j ==> mapping_key(#[trigger] mapping_at(i))
                != mapping_key(#[trigger] mapping_at(j)),
{
}

proof fn lemma_count_some_update(s: Seq<Option<Emulation>>, j: int, e: Emulation)
    requires
        0 <= j < s.len(),
        s[j] is None,
    ensures
        count_some(s.update(j, Some(e))) == count_some(s) + 1,
    decreases s.len(),
{
    let t = s.update(j, Some(e));
    if j == s.len() - 1 {
        assert(t.drop_last() =~= s.drop_last());
    } else {
        lemma_count_some_update(s.drop_last(), j, e);
        assert(t.drop_last() =~= s.drop_last().update(j, Some(e)));
    }
}

proof fn lemma_count_some_none(n: nat)
    ensures
        count_some(Seq::new(n, |k: int| None::<Emulation>)) == 0,
    decreases n,
{
    if n > 0 {
        lemma_count_some_none((n - 1) as nat);
        assert(Seq::new(n, |k: int| None::<Emulation>).drop_last() =~= Seq::new(
            (n - 1) as nat,
            |k: int| None::<Emulation>,
        ));
    }
}

/// Writing distinct keys in order leaves each mapping at its own key.
proof fn lemma_built_entry_present(ms: Seq<Mapping>, i: int)
    requires
        0 <= i < ms.len(),
        forall|a: int, b: int|
            0 <= a < ms.len() && 0 <= b < ms.len() && a != b ==> mapping_key(#[trigger] ms[a])
                != mapping_key(#[trigger] ms[b]),
    ensures
        built_entry(ms, mapping_key(ms[i])) == Some(ms[i].emulation),
    decreases ms.len(),
{
    if i < ms.len() - 1 {
        assert(mapping_key(ms[i]) != mapping_key(ms[ms.len() - 1]));
        lemma_built_entry_present(ms.drop_last(), i);
    }
}

/// Builds the table from the declared mappings.
#[verifier::rlimit(40)]
pub fn build_us_on_jis_map() -> (dest: EmulationMap)
    ensures
        dest@ == spec_us_on_jis_map(),
        count_some(dest@) == spec_mappings().len(),
{
    let ms = mappings();
    let mut dest: EmulationMap = Vec::new();
    let mut k: usize = 0;
    while k < EMULATION_MAP_LEN
        invariant
            k <= EMULATION_MAP_LEN,
            dest@ =~= Seq::new(k as nat, |j: int| None::<Emulation>),
        decreases EMULATION_MAP_LEN - k,
    {
        dest.push(None);
        k = k + 1;
    }
    proof {
        lemma_count_some_none(EMULATION_MAP_LEN as nat);
        lemma_mapping_keys_distinct();
    }
    let mut i: usize = 0;
    while i < ms.len()
        invariant
            ms@ == spec_mappings(),
            i <= ms@.len(),
            dest@.len() == EMULATION_MAP_LEN,
            forall|j: int| 0 <= j < EMULATION_MAP_LEN ==> #[trigger] dest@[j] == built_entry(ms@.take(i as int), j),
            count_some(dest@) == i,
        decreases ms@.len() - i,
    {
        let mapping = ms[i];
        let key = map_key(mapping.source, mapping.shift);
        proof {
            assert forall|a: int| 0 <= a < i implies mapping_key(#[trigger] ms@[a]) != key by {
                assert(ms@[a] == mapping_at(a));
                assert(ms@[i as int] == mapping_at(i as int));
            }
            lemma_built_entry_absent(ms@.take(i as int), key as int);
            lemma_count_some_update(dest@, key as int, mapping.emulation);
        }
        dest.set(key, Some(mapping.emulation));
        proof {
            let t = ms@.take(i + 1);
            assert(t.drop_last() =~= ms@.take(i as int));
            assert(t.last() == mapping);
        }
        i = i + 1;
    }
    proof {
        assert(ms@.take(ms@.len() as int) =~= ms@);
        assert(dest@ =~= spec_us_on_jis_map());
    }
    dest
}

/// A key that no written mapping has stays empty.
proof fn lemma_built_entry_absent(ms: Seq<Mapping>, k: int)
    requires
        forall|a: int| 0 <= a < ms.len() ==> mapping_key(#[trigger] ms[a]) != k,
    ensures
        built_entry(ms, k) is None,
    decreases ms.len(),
{
    if ms.len() > 0 {
        lemma_built_entry_absent(ms.drop_last(), k);
    }
}

/// The US-on-JIS table.
pub fn us_on_jis_map() -> (m: EmulationMap)
    ensures
        m@ == spec_us_on_jis_map(),
{
    build_us_on_jis_map()
}

/// Every declared mapping is in the table at its own key, the table has
/// exactly as many entries set as there are mappings, and every other key
/// is empty.
#[verifier::rlimit(40)]
pub proof fn lemma_us_on_jis_map_contents()
    ensures
        spec_us_on_jis_map().len() == EMULATION_MAP_LEN,
        forall|i: int|
            0 <= i < spec_mappings().len() ==> spec_us_on_jis_map()[mapping_key(
                #[trigger] spec_mappings()[i],
            )] == Some(spec_mappings()[i].emulation),
        forall|k: int|
            0 <= k < EMULATION_MAP_LEN && (forall|i: int|
                0 <= i < spec_mappings().len() ==> mapping_key(#[trigger] spec_mappings()[i]) != k)
                ==> #[trigger] spec_us_on_jis_map()[k] is None,
{
    let ms = spec_mappings();
    lemma_mapping_keys_distinct();
    assert forall|i: int| 0 <= i < ms.len() implies spec_us_on_jis_map()[mapping_key(
        #[trigger] ms[i],
    )] == Some(ms[i].emulation) by {
        assert forall|a: int, b: int|
            0 <= a < ms.len() && 0 <= b < ms.len() && a != b implies mapping_key(#[trigger] ms[a])
                != mapping_key(#[trigger] ms[b]) by {
            assert(ms[a] == mapping_at(a));
            assert(ms[b] == mapping_at(b));
        }
        lemma_built_entry_present(ms, i);
        assert(0 <= mapping_key(ms[i]) < EMULATION_MAP_LEN);
    }
    assert forall|k: int|
        0 <= k < EMULATION_MAP_LEN && (forall|i: int|
            0 <= i < ms.len() ==> mapping_key(#[trigger] ms[i]) != k) implies #[trigger] spec_us_on_jis_map()[k] is None by {
        lemma_built_entry_absent(ms, k);
    }
}

/// The US-on-JIS table, entry by entry. Index bit 9 is Shift; each entry
/// names what the JIS key at that position sends so that the US symbol
/// comes out (for example Shift+2 lifts Shift and sends the JIS '@' key,
/// Shift+8 sends the JIS ':' key, which is '*' with Shift). Every other
/// index is empty.
#[verifier::rlimit(60)]
pub proof fn lemma_us_on_jis_map_entries()
    ensures
        spec_us_on_jis_map().len() == 0x400,
        spec_us_on_jis_map()[0x232] == Some(Emulation::ShiftRelease { vkey: 0xC0 }),
        spec_us_on_jis_map()[0x236] == Some(Emulation::ShiftRelease { vkey: 0xDE }),
        spec_us_on_jis_map()[0x237] == Some(Emulation::Normal { vkey: 0x36 }),
        spec_us_on_jis_map()[0x238] == Some(Emulation::Normal { vkey: 0xBA }),
        spec_us_on_jis_map()[0x239] == Some(Emulation::Normal { vkey: 0x38 }),
        spec_us_on_jis_map()[0x230] == Some(Emulation::Normal { vkey: 0x39 }),
        spec_us_on_jis_map()[0x2BD] == Some(Emulation::Normal { vkey: 0xE2 }),
        spec_us_on_jis_map()[0x0DE] == Some(Emulation::ShiftPress { vkey: 0xBD }),
        spec_us_on_jis_map()[0x2DE] == Some(Emulation::Normal { vkey: 0xBB }),
        spec_us_on_jis_map()[0x0F3] == Some(Emulation::Nop),
        spec_us_on_jis_map()[0x0F4] == Some(Emulation::PressAndReleaseShift { vkey: 0xC0 }),
        spec_us_on_jis_map()[0x2F3] == Some(Emulation::Nop),
        spec_us_on_jis_map()[0x2F4] == Some(Emulation::PressAndRelease { vkey: 0xDE }),
        spec_us_on_jis_map()[0x0C0] == Some(Emulation::Normal { vkey: 0xDB }),
        spec_us_on_jis_map()[0x0DB] == Some(Emulation::Normal { vkey: 0xDD }),
        spec_us_on_jis_map()[0x2C0] == Some(Emulation::Normal { vkey: 0xDB }),
        spec_us_on_jis_map()[0x2DB] == Some(Emulation::Normal { vkey: 0xDD }),
        spec_us_on_jis_map()[0x2BB] == Some(Emulation::ShiftRelease { vkey: 0xBA }),
        spec_us_on_jis_map()[0x0BA] == Some(Emulation::ShiftPress { vkey: 0x37 }),
        spec_us_on_jis_map()[0x2BA] == Some(Emulation::Normal { vkey: 0x32 }),
        spec_us_on_jis_map()[0x0DD] == Some(Emulation::Normal { vkey: 0xE2 }),
        spec_us_on_jis_map()[0x2DD] == Some(Emulation::Normal { vkey: 0xDC }),
        forall|k: int|
            0 <= k < 0x400 && (k != 0x232 && k != 0x236 && k != 0x237 && k != 0x238 && k != 0x239 && k != 0x230 && k != 0x2BD && k != 0x0DE && k != 0x2DE && k != 0x0F3 && k != 0x0F4 && k != 0x2F3 && k != 0x2F4 && k != 0x0C0 && k != 0x0DB && k != 0x2C0 && k != 0x2DB && k != 0x2BB && k != 0x0BA && k != 0x2BA && k != 0x0DD && k != 0x2DD) ==> #[trigger] spec_us_on_jis_map()[k] is None,
{
    let ms = spec_mappings();
    lemma_us_on_jis_map_contents();
    assert(ms[0] == mapping_at(0));
    assert(ms[1] == mapping_at(1));
    assert(ms[2] == mapping_at(2));
    assert(ms[3] == mapping_at(3));
    assert(ms[4] == mapping_at(4));
    assert(ms[5] == mapping_at(5));
    assert(ms[6] == mapping_at(6));
    assert(ms[7] == mapping_at(7));
    assert(ms[8] == mapping_at(8));
    assert(ms[9] == mapping_at(9));
    assert(ms[10] == mapping_at(10));
    assert(ms[11] == mapping_at(11));
    assert(ms[12] == mapping_at(12));
    assert(ms[13] == mapping_at(13));
    assert(ms[14] == mapping_at(14));
    assert(ms[15] == mapping_at(15));
    assert(ms[16] == mapping_at(16));
    assert(ms[17] == mapping_at(17));
    assert(ms[18] == mapping_at(18));
    assert(ms[19] == mapping_at(19));
    assert(ms[20] == mapping_at(20));
    assert(ms[21] == mapping_at(21));
    assert forall|k: int|
        0 <= k < 0x400 && (k != 0x232 && k != 0x236 && k != 0x237 && k != 0x238 && k != 0x239 && k != 0x230 && k != 0x2BD && k != 0x0DE && k != 0x2DE && k != 0x0F3 && k != 0x0F4 && k != 0x2F3 && k != 0x2F4 && k != 0x0C0 && k != 0x0DB && k != 0x2C0 && k != 0x2DB && k != 0x2BB && k != 0x0BA && k != 0x2BA && k != 0x0DD && k != 0x2DD) implies #[trigger] spec_us_on_jis_map()[k] is None by {
        assert forall|i: int| 0 <= i < ms.len() implies mapping_key(#[trigger] ms[i]) != k by {
            assert(ms[i] == mapping_at(i));
        }
    }
}

/// The table index of a key is the key itself, plus 0x200 with Shift.
pub proof fn lemma_map_key_arith(source: u8, shift: bool)
    ensures
        spec_map_key(source, shift) == source as int + if shift { 0x200int } else { 0int },
        !shift ==> spec_map_key(source, shift) == source as int,
{
}

} // verus!
