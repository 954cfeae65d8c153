//! Picking the image to show out of an .ico file.

use vstd::prelude::*;

verus! {

/// The little-endian 32-bit value at `off`.
pub open spec fn spec_le_u32(d: Seq<u8>, off: int) -> int {
    d[off] + 0x100 * d[off + 1] + 0x10000 * d[off + 2] + 0x1000000 * d[off + 3]
}

/// An icon directory dimension byte: 0 stands for 256.
pub open spec fn dim(b: u8) -> int {
    if b == 0 {
        256
    } else {
        b as int
    }
}

/// The number of images the icon directory declares.
pub open spec fn icon_count(d: Seq<u8>) -> int {
    d[4] + 0x100 * d[5]
}

/// The position of the directory entry of image `i`.
pub open spec fn entry_offset(i: int) -> int {
    6 + 16 * i
}

/// The (image offset, image size, area) of the preferred image among the
/// first `n` directory entries: the first entry, then any entry that is
/// 32 by 32 or larger than the one kept so far, unless a 32 by 32 one is kept.
pub open spec fn spec_best(d: Seq<u8>, n: int) -> (int, int, int)
    decreases n,
{
    if n <= 0 {
        (0, 0, 0)
    } else {
        let b = spec_best(d, n - 1);
        let off = entry_offset(n - 1);
        let w = dim(d[off]);
        let h = dim(d[off + 1]);
        let area = w * h;
        let is_32 = w == 32 && h == 32;
        let better = b.2 == 0 || (b.2 != 1024 && (is_32 || area > b.2));
        if better {
            (spec_le_u32(d, off + 12), spec_le_u32(d, off + 8), area)
        } else {
            b
        }
    }
}

/// The byte range of the image to show out of the .ico file `d`, or `None`
/// when the file is too short for its directory, declares no usable image,
/// or the chosen image does not lie inside the file.
pub open spec fn spec_ico_image_range(d: Seq<u8>) -> Option<(int, int)> {
    if d.len() < 6 {
        None
    } else if icon_count(d) > 0 && entry_offset(icon_count(d)) > d.len() {
        None
    } else {
        let b = spec_best(d, icon_count(d));
        if b.1 == 0 {
            None
        } else if b.0 + b.1 > 0xffff_ffff {
            None
        } else if b.0 + b.1 > d.len() {
            None
        } else {
            Some((b.0, b.0 + b.1))
        }
    }
}

/// The little-endian 32-bit value at `off` in `data`.
pub fn le_u32(data: &[u8], off: usize) -> (v: u32)
    requires
        off + 4 <= data@.len(),
    ensures
        v as int == spec_le_u32(data@, off as int),
{
    data[off] as u32 + (data[off + 1] as u32) * 0x100 + (data[off + 2] as u32) * 0x10000 + (
    data[off + 3] as u32) * 0x1000000
}

proof fn lemma_area_bound(w: int, h: int)
    by (nonlinear_arith)
    requires
        1 <= w <= 256,
        1 <= h <= 256,
    ensures
        1 <= w * h <= 65536,
{
}

/// The byte range of the image to show out of the .ico file `data`.
#[verifier::rlimit(40)]
pub fn ico_image_range(data: &[u8]) -> (r: Option<(usize, usize)>)
    ensures
        match spec_ico_image_range(data@) {
            Some((a, b)) => r == Some((a as usize, b as usize)) && a < b <= data@.len(),
            None => r is None,
        },
{
    if data.len() < 6 {
        return None;
    }
    let count: usize = data[4] as usize + (data[5] as usize) * 0x100;
    let ghost d = data@;
    let mut best: (u32, u32, u32) = (0, 0, 0);
    let mut i: usize = 0;
    while i < count
        invariant
            d == data@,
            d.len() >= 6,
            count == icon_count(d),
            i <= count,
            i > 0 ==> entry_offset(i as int) <= d.len(),
            (best.0 as int, best.1 as int, best.2 as int) == spec_best(d, i as int),
            best.2 <= 65536,
        decreases count - i,
    {
        let off = 6 + i * 16;
        if off + 16 > data.len() {
            assert(entry_offset(icon_count(d)) > d.len());
            return None;
        }
        let w0 = data[off] as u32;
        let h0 = data[off + 1] as u32;
        let w: u32 = if w0 == 0 { 256 } else { w0 };
        let h: u32 = if h0 == 0 { 256 } else { h0 };
        proof {
            lemma_area_bound(w as int, h as int);
        }
        let area = w * h;
        let img_size = le_u32(data, off + 8);
        let img_offset = le_u32(data, off + 12);

        let is_32 = w == 32 && h == 32;
        let better = best.2 == 0 || (best.2 != 1024 && (is_32 || area > best.2));

        if better {
            best = (img_offset, img_size, area);
        }
        i = i + 1;
    }
    let (offset, size, _) = best;
    if size == 0 {
        return None;
    }
    let end = match offset.checked_add(size) {
        Some(e) => e,
        None => {
            return None;
        },
    };
    if end as usize > data.len() {
        return None;
    }
    Some((offset as usize, end as usize))
}

/// The width times height of directory entry `i`.
pub open spec fn entry_area(d: Seq<u8>, i: int) -> int {
    dim(d[entry_offset(i)]) * dim(d[entry_offset(i) + 1])
}

proof fn lemma_best_not_32_before(d: Seq<u8>, n: int)
    requires
        forall|i: int| 0 <= i < n ==> entry_area(d, i) != 1024,
    ensures
        spec_best(d, n).2 != 1024,
    decreases n,
{
    if n > 0 {
        lemma_best_not_32_before(d, n - 1);
        assert(entry_area(d, n - 1) != 1024);
    }
}

proof fn lemma_best_kept_after(d: Seq<u8>, j: int, n: int)
    requires
        0 <= j < n,
        spec_best(d, j + 1).2 == 1024,
    ensures
        spec_best(d, n) == spec_best(d, j + 1),
    decreases n,
{
    if n > j + 1 {
        lemma_best_kept_after(d, j, n - 1);
    }
}

/// A 32 by 32 image is preferred wherever it stands in the directory: when
/// entry `j` is 32 by 32 and no earlier entry has that area, the image
/// shown is entry `j`'s (if it is non-empty and lies inside the file).
#[verifier::rlimit(40)]
pub proof fn lemma_first_32_by_32_wins(d: Seq<u8>, j: int)
    requires
        d.len() >= 6,
        0 <= j < icon_count(d),
        entry_offset(icon_count(d)) <= d.len(),
        dim(d[entry_offset(j)]) == 32,
        dim(d[entry_offset(j) + 1]) == 32,
        forall|i: int| 0 <= i < j ==> entry_area(d, i) != 1024,
    ensures
        ({
            let o = spec_le_u32(d, entry_offset(j) + 12);
            let z = spec_le_u32(d, entry_offset(j) + 8);
            spec_ico_image_range(d) == if z == 0 || o + z > 0xffff_ffff || o + z > d.len() {
                None::<(int, int)>
            } else {
                Some((o, o + z))
            }
        }),
{
    lemma_best_not_32_before(d, j);
    let off = entry_offset(j);
    assert(dim(d[off]) * dim(d[off + 1]) == 1024);
    assert(spec_best(d, j + 1) == (spec_le_u32(d, off + 12), spec_le_u32(d, off + 8), 1024int));
    lemma_best_kept_after(d, j, icon_count(d));
}

/// The (image offset, image size, area) of directory entry `k`.
pub open spec fn entry_choice(d: Seq<u8>, k: int) -> (int, int, int) {
    (spec_le_u32(d, entry_offset(k) + 12), spec_le_u32(d, entry_offset(k) + 8), entry_area(d, k))
}

proof fn lemma_best_is_first_largest(d: Seq<u8>, n: int)
    requires
        n >= 1,
        forall|i: int| 0 <= i < n ==> entry_area(d, i) != 1024,
    ensures
        exists|k: int|
            #![trigger entry_choice(d, k)]
            0 <= k < n && spec_best(d, n) == entry_choice(d, k) && (forall|i: int|
                0 <= i < n ==> entry_area(d, i) <= entry_area(d, k)) && (forall|i: int|
                0 <= i < k ==> entry_area(d, i) < entry_area(d, k)),
    decreases n,
{
    let off = entry_offset(n - 1);
    lemma_area_bound(dim(d[off]), dim(d[off + 1]));
    if n == 1 {
        assert(spec_best(d, 1) == entry_choice(d, 0));
    } else {
        lemma_best_is_first_largest(d, n - 1);
        let k = choose|k: int|
            #![trigger entry_choice(d, k)]
            0 <= k < n - 1 && spec_best(d, n - 1) == entry_choice(d, k) && (forall|i: int|
                0 <= i < n - 1 ==> entry_area(d, i) <= entry_area(d, k)) && (forall|i: int|
                0 <= i < k ==> entry_area(d, i) < entry_area(d, k));
        let ko = entry_offset(k);
        lemma_area_bound(dim(d[ko]), dim(d[ko + 1]));
        assert(entry_area(d, n - 1) != 1024);
        if entry_area(d, n - 1) > entry_area(d, k) {
            assert(spec_best(d, n) == entry_choice(d, n - 1));
        } else {
            assert(spec_best(d, n) == entry_choice(d, k));
        }
    }
}

/// With no 32 by 32 image (no entry of that area), the image shown is the
/// first one of the largest area (if it is non-empty and lies inside the file).
#[verifier::rlimit(40)]
pub proof fn lemma_largest_wins_without_32_by_32(d: Seq<u8>)
    requires
        d.len() >= 6,
        icon_count(d) >= 1,
        entry_offset(icon_count(d)) <= d.len(),
        forall|i: int| 0 <= i < icon_count(d) ==> entry_area(d, i) != 1024,
    ensures
        exists|k: int|
            #![trigger entry_choice(d, k)]
            0 <= k < icon_count(d) && (forall|i: int|
                0 <= i < icon_count(d) ==> entry_area(d, i) <= entry_area(d, k)) && (forall|i: int|
                0 <= i < k ==> entry_area(d, i) < entry_area(d, k)) && ({
                let o = spec_le_u32(d, entry_offset(k) + 12);
                let z = spec_le_u32(d, entry_offset(k) + 8);
                spec_ico_image_range(d) == if z == 0 || o + z > 0xffff_ffff || o + z > d.len() {
                    None::<(int, int)>
                } else {
                    Some((o, o + z))
                }
            }),
{
    lemma_best_is_first_largest(d, icon_count(d));
    let k = choose|k: int|
        #![trigger entry_choice(d, k)]
        0 <= k < icon_count(d) && spec_best(d, icon_count(d)) == entry_choice(d, k) && (forall|i: int|
            0 <= i < icon_count(d) ==> entry_area(d, i) <= entry_area(d, k)) && (forall|i: int|
            0 <= i < k ==> entry_area(d, i) < entry_area(d, k));
    assert(entry_choice(d, k) == entry_choice(d, k));
}

} // verus!
