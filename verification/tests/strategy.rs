use ule4jis::emulation::Emulation;
use ule4jis::strategy::{map_key, mappings, us_on_jis_map, EMULATION_MAP_LEN};

#[test]
fn all_declared_mappings_are_present_once() {
    let map = us_on_jis_map();
    assert_eq!(map.iter().flatten().count(), mappings().len());
    for mapping in mappings() {
        assert_eq!(
            map[map_key(mapping.source, mapping.shift)],
            Some(mapping.emulation)
        );
    }
}

#[test]
fn table_has_fixed_length_and_known_entries() {
    let map = us_on_jis_map();
    assert_eq!(map.len(), EMULATION_MAP_LEN);
    assert_eq!(mappings().len(), 22);
    // shift+2 gives '@' (VK_OEM_3 on JIS) without shift
    assert_eq!(map[0x232], Some(Emulation::ShiftRelease { vkey: 0xC0 }));
    // plain 'A' is not rewritten
    assert_eq!(map[0x41], None);
    // nothing with Alt held
    assert!(map[0x100..0x200].iter().all(|e| e.is_none()));
    assert!(map[0x300..0x400].iter().all(|e| e.is_none()));
}

#[test]
fn map_key_sets_bit_nine_for_shift() {
    assert_eq!(map_key(0x41, false), 0x41);
    assert_eq!(map_key(0x41, true), 0x241);
    assert_eq!(map_key(0xFF, true), 0x2FF);
}
