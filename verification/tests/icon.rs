use ule4jis::icon::{ico_image_range, le_u32};

fn entry(w: u8, h: u8, size: u32, offset: u32) -> Vec<u8> {
    let mut e = vec![w, h, 0, 0, 1, 0, 32, 0];
    e.extend_from_slice(&size.to_le_bytes());
    e.extend_from_slice(&offset.to_le_bytes());
    e
}

fn ico(entries: &[(u8, u8, u32, u32)], total: usize) -> Vec<u8> {
    let mut d = vec![0, 0, 1, 0, entries.len() as u8, 0];
    for &(w, h, s, o) in entries {
        d.extend(entry(w, h, s, o));
    }
    d.resize(total, 0);
    d
}

#[test]
fn little_endian_words() {
    assert_eq!(le_u32(&[0x78, 0x56, 0x34, 0x12, 0xFF], 0), 0x12345678);
    assert_eq!(le_u32(&[0, 0xFF, 0xFF, 0xFF, 0xFF], 1), 0xFFFF_FFFF);
}

#[test]
fn prefers_32_by_32() {
    let d = ico(&[(16, 16, 10, 100), (32, 32, 20, 110), (0, 0, 30, 130)], 200);
    assert_eq!(ico_image_range(&d), Some((110, 130)));
}

#[test]
fn otherwise_the_largest() {
    let d = ico(&[(16, 16, 10, 100), (48, 48, 20, 110), (0, 0, 30, 130)], 200);
    assert_eq!(ico_image_range(&d), Some((130, 160)));
}

#[test]
fn malformed_icons_are_rejected() {
    assert_eq!(ico_image_range(&[0, 0, 1, 0, 1]), None);
    // directory entry cut short
    let d = ico(&[(16, 16, 10, 100)], 20);
    assert_eq!(ico_image_range(&d), None);
    // image beyond the end of the file
    let d = ico(&[(16, 16, 200, 100)], 200);
    assert_eq!(ico_image_range(&d), None);
    // empty image
    let d = ico(&[(16, 16, 0, 100)], 200);
    assert_eq!(ico_image_range(&d), None);
    // no images
    let d = ico(&[], 6);
    assert_eq!(ico_image_range(&d), None);
    // offset plus size overflows
    let d = ico(&[(16, 16, 0xFFFF_FFFF, 2)], 40);
    assert_eq!(ico_image_range(&d), None);
}
