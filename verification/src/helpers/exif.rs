//! Minimal EXIF orientation parser.
//!
//! Reads the Orientation tag (0x0112) from IFD0 of TIFF-structured EXIF
//! data, with or without the `Exif\0\0` prefix of a JPEG APP1 segment.
//! Every read is bounds-checked, the IFD entry count is capped, and the
//! scan stops at the first tag past 0x0112 (IFD entries are sorted).

use vstd::prelude::*;
use crate::orientation::{Orientation, orientation_of_code};

verus! {

/// EXIF Orientation tag.
pub const TAG_ORIENTATION: u16 = 0x0112;
/// TIFF type SHORT.
pub const TIFF_SHORT: u16 = 3;
/// TIFF type LONG.
pub const TIFF_LONG: u16 = 4;
/// Most IFD entries scanned before the data is rejected.
pub const MAX_IFD_ENTRIES: u16 = 1000;

/// The JPEG APP1 prefix `Exif\0\0`.
pub open spec fn exif_prefix() -> Seq<u8> {
    seq![0x45u8, 0x78, 0x69, 0x66, 0x00, 0x00]
}

/// The TIFF bytes: `data` without a leading `Exif\0\0`, if it has one.
pub open spec fn tiff_payload(data: Seq<u8>) -> Seq<u8> {
    if data.len() >= 6 && data.subrange(0, 6) == exif_prefix() {
        data.subrange(6, data.len() as int)
    } else {
        data
    }
}

/// 16-bit value at `off` in the given byte order.
pub open spec fn read16(t: Seq<u8>, off: int, big_endian: bool) -> int {
    if big_endian {
        256 * t[off] + t[off + 1]
    } else {
        t[off] + 256 * t[off + 1]
    }
}

/// 32-bit value at `off` in the given byte order.
pub open spec fn read32(t: Seq<u8>, off: int, big_endian: bool) -> int {
    if big_endian {
        16777216 * t[off] + 65536 * t[off + 1] + 256 * t[off + 2] + t[off + 3]
    } else {
        t[off] + 256 * t[off + 1] + 65536 * t[off + 2] + 16777216 * t[off + 3]
    }
}

/// The orientation an IFD entry at `off` holds: a count of at least one,
/// a SHORT or LONG value stored inline, and that value in 1 to 8.
pub open spec fn entry_orientation(t: Seq<u8>, off: int, big_endian: bool) -> Option<Orientation> {
    let type_id = read16(t, off + 2, big_endian);
    if read32(t, off + 4, big_endian) < 1 {
        None
    } else if type_id == TIFF_SHORT {
        orientation_of_code(read16(t, off + 8, big_endian))
    } else if type_id == TIFF_LONG {
        orientation_of_code(read32(t, off + 8, big_endian))
    } else {
        None
    }
}

/// Scan of the IFD entries `i..n` starting at `start`: stops at the first
/// entry that does not fit, or whose tag is past the orientation tag.
pub open spec fn scan_ifd(t: Seq<u8>, big_endian: bool, start: int, i: nat, n: nat) -> Option<Orientation>
    decreases n - i,
{
    if i >= n {
        None
    } else {
        let off = start + 12 * i;
        if off + 12 > t.len() {
            None
        } else {
            let tag = read16(t, off, big_endian);
            if tag > TAG_ORIENTATION {
                None
            } else if tag == TAG_ORIENTATION {
                entry_orientation(t, off, big_endian)
            } else {
                scan_ifd(t, big_endian, start, i + 1, n)
            }
        }
    }
}

/// The orientation of TIFF bytes: byte order mark `II` or `MM`, magic 42,
/// IFD0 inside the data with at most the capped number of entries.
pub open spec fn tiff_orientation(t: Seq<u8>) -> Option<Orientation> {
    if t.len() < 8 {
        None
    } else if !((t[0] == 0x4Du8 && t[1] == 0x4Du8) || (t[0] == 0x49u8 && t[1] == 0x49u8)) {
        None
    } else {
        let be = t[0] == 0x4Du8;
        let ifd0 = read32(t, 4, be);
        if read16(t, 2, be) != 42 {
            None
        } else if ifd0 + 2 > t.len() {
            None
        } else if read16(t, ifd0, be) > MAX_IFD_ENTRIES {
            None
        } else {
            scan_ifd(t, be, ifd0 + 2, 0, read16(t, ifd0, be) as nat)
        }
    }
}

/// The orientation that EXIF data records.
pub open spec fn exif_orientation(data: Seq<u8>) -> Option<Orientation> {
    tiff_orientation(tiff_payload(data))
}

pub(crate) fn rd16(t: &[u8], off: usize, big_endian: bool) -> (r: u16)
    requires
        off + 2 <= t@.len(),
    ensures
        r == read16(t@, off as int, big_endian),
{
    let b0 = t[off] as u16;
    let b1 = t[off + 1] as u16;
    if big_endian {
        b0 * 256 + b1
    } else {
        b1 * 256 + b0
    }
}

pub(crate) fn rd32(t: &[u8], off: usize, big_endian: bool) -> (r: u32)
    requires
        off + 4 <= t@.len(),
    ensures
        r == read32(t@, off as int, big_endian),
{
    let b0 = t[off] as u32;
    let b1 = t[off + 1] as u32;
    let b2 = t[off + 2] as u32;
    let b3 = t[off + 3] as u32;
    if big_endian {
        b0 * 16777216 + b1 * 65536 + b2 * 256 + b3
    } else {
        b3 * 16777216 + b2 * 65536 + b1 * 256 + b0
    }
}

/// Whether `data` starts with `Exif\0\0`.
fn has_exif_prefix(data: &[u8]) -> (r: bool)
    ensures
        r == (data@.len() >= 6 && data@.subrange(0, 6) == exif_prefix()),
{
    if data.len() < 6 {
        return false;
    }
    let r = data[0] == 0x45 && data[1] == 0x78 && data[2] == 0x69 && data[3] == 0x66
        && data[4] == 0 && data[5] == 0;
    proof {
        if r {
            assert(data@.subrange(0, 6) =~= exif_prefix());
        } else {
            assert(data@.subrange(0, 6) != exif_prefix() ) by {
                if data@.subrange(0, 6) == exif_prefix() {
                    assert(data@.subrange(0, 6)[0] == data@[0]);
                    assert(data@.subrange(0, 6)[1] == data@[1]);
                    assert(data@.subrange(0, 6)[2] == data@[2]);
                    assert(data@.subrange(0, 6)[3] == data@[3]);
                    assert(data@.subrange(0, 6)[4] == data@[4]);
                    assert(data@.subrange(0, 6)[5] == data@[5]);
                }
            }
        }
    }
    r
}

/// Orientation stored in the entry at `off`.
fn read_entry_orientation(t: &[u8], off: usize, big_endian: bool) -> (r: Option<Orientation>)
    requires
        off + 12 <= t@.len(),
    ensures
        r == entry_orientation(t@, off as int, big_endian),
{
    let _len = t.len();
    let type_id = rd16(t, off + 2, big_endian);
    let count = rd32(t, off + 4, big_endian);
    if count < 1 {
        return None;
    }
    let raw: u32 = if type_id == TIFF_SHORT {
        rd16(t, off + 8, big_endian) as u32
    } else if type_id == TIFF_LONG {
        rd32(t, off + 8, big_endian)
    } else {
        return None;
    };
    if raw > 8 {
        return None;
    }
    Orientation::from_exif(raw as u8)
}

/// Parse the EXIF orientation from TIFF-structured EXIF data, with or
/// without the `Exif\0\0` prefix. `None` for missing, invalid or
/// truncated data.
pub fn parse_exif_orientation(data: &[u8]) -> (r: Option<Orientation>)
    ensures
        r == exif_orientation(data@),
{
    let tiff: &[u8] = if has_exif_prefix(data) {
        vstd::slice::slice_subrange(data, 6, data.len())
    } else {
        data
    };
    let len = tiff.len();
    if len < 8 {
        return None;
    }
    let be = if tiff[0] == 0x4D && tiff[1] == 0x4D {
        true
    } else if tiff[0] == 0x49 && tiff[1] == 0x49 {
        false
    } else {
        return None;
    };
    if rd16(tiff, 2, be) != 42 {
        return None;
    }
    let ifd0 = rd32(tiff, 4, be) as usize;
    if ifd0 > len || len - ifd0 < 2 {
        return None;
    }
    let entry_count = rd16(tiff, ifd0, be);
    if entry_count > MAX_IFD_ENTRIES {
        return None;
    }
    let start = ifd0 + 2;
    let remaining = len - start;
    let n = entry_count as usize;
    let ghost t = tiff@;
    let ghost full = exif_orientation(data@);
    assert(full == scan_ifd(t, be, start as int, 0, n as nat));
    let mut i: usize = 0;
    while i < n
        invariant
            t == tiff@,
            full == exif_orientation(data@),
            len == t.len(),
            start + remaining == len,
            n <= MAX_IFD_ENTRIES,
            i <= n,
            scan_ifd(t, be, start as int, i as nat, n as nat) == full,
        decreases n - i,
    {
        if 12 * i + 12 > remaining {
            return None;
        }
        let off = start + 12 * i;
        let tag = rd16(tiff, off, be);
        if tag > TAG_ORIENTATION {
            return None;
        }
        if tag == TAG_ORIENTATION {
            return read_entry_orientation(tiff, off, be);
        }
        i = i + 1;
    }
    None
}

/// TIFF data reads the same with or without the `Exif\0\0` prefix of a
/// JPEG APP1 segment (TIFF data starts with `II` or `MM`, never `Exif`).
pub proof fn lemma_exif_prefix_transparent(t: Seq<u8>)
    requires
        t.len() >= 1,
        t[0] == 0x49u8 || t[0] == 0x4Du8,
    ensures
        exif_orientation(exif_prefix() + t) == exif_orientation(t),
{
    let d = exif_prefix() + t;
    assert(d.subrange(0, 6) =~= exif_prefix());
    assert(d.subrange(6, d.len() as int) =~= t);
    assert(t.len() >= 6 ==> t.subrange(0, 6)[0] == t[0]);
    assert(t.len() >= 6 ==> t.subrange(0, 6) != exif_prefix());
}

/// Whether `t` has a valid TIFF header: byte order mark `II` or `MM`,
/// magic 42, and an IFD0 whose entry count lies in the data and is at
/// most the cap.
pub open spec fn tiff_header_valid(t: Seq<u8>) -> bool {
    &&& t.len() >= 8
    &&& ((t[0] == 0x4Du8 && t[1] == 0x4Du8) || (t[0] == 0x49u8 && t[1] == 0x49u8))
    &&& read16(t, 2, t[0] == 0x4Du8) == 42
    &&& read32(t, 4, t[0] == 0x4Du8) + 2 <= t.len()
    &&& read16(t, read32(t, 4, t[0] == 0x4Du8), t[0] == 0x4Du8) <= MAX_IFD_ENTRIES
}

proof fn lemma_scan_reaches(t: Seq<u8>, be: bool, start: int, i: nat, n: nat, k: nat)
    requires
        i <= k < n,
        start + 12 * k + 12 <= t.len(),
        forall|j: int| i <= j < k ==> #[trigger] read16(t, start + 12 * j, be) < TAG_ORIENTATION,
        read16(t, start + 12 * k, be) == TAG_ORIENTATION,
    ensures
        scan_ifd(t, be, start, i, n) == entry_orientation(t, start + 12 * k, be),
    decreases k - i,
{
    if i < k {
        assert(read16(t, start + 12 * i, be) < TAG_ORIENTATION);
        lemma_scan_reaches(t, be, start, i + 1, n, k);
    }
}

proof fn lemma_scan_misses(t: Seq<u8>, be: bool, start: int, i: nat, n: nat)
    requires
        i <= n,
        start + 12 * n <= t.len(),
        forall|j: int| i <= j < n ==> #[trigger] read16(t, start + 12 * j, be) != TAG_ORIENTATION,
    ensures
        scan_ifd(t, be, start, i, n) is None,
    decreases n - i,
{
    if i < n {
        lemma_scan_misses(t, be, start, i + 1, n);
    }
}

/// Every IFD0 entry counts: in valid TIFF data whose IFD0 has `count`
/// entries, an Orientation entry at index `k < count` that lies in the
/// data and follows only entries with lower tags (IFD entries are sorted)
/// gives the orientation that entry holds; when none of the `count`
/// entries, all in the data, is an Orientation entry, there is none.
pub proof fn lemma_tiff_scans_every_entry(t: Seq<u8>, k: nat)
    requires
        tiff_header_valid(t),
    ensures
        ({
            let be = t[0] == 0x4Du8;
            let ifd0 = read32(t, 4, be);
            let count = read16(t, ifd0, be);
            let start = ifd0 + 2;
            &&& (k < count && start + 12 * k + 12 <= t.len()
                && (forall|j: int| 0 <= j < k ==> #[trigger] read16(t, start + 12 * j, be) < TAG_ORIENTATION)
                && read16(t, start + 12 * k, be) == TAG_ORIENTATION)
                ==> tiff_orientation(t) == entry_orientation(t, start + 12 * k, be)
            &&& (start + 12 * count <= t.len()
                && (forall|j: int| 0 <= j < count ==> #[trigger] read16(t, start + 12 * j, be) != TAG_ORIENTATION))
                ==> tiff_orientation(t) is None
        }),
{
    let be = t[0] == 0x4Du8;
    let ifd0 = read32(t, 4, be);
    let count = read16(t, ifd0, be);
    let start = ifd0 + 2;
    assert(tiff_orientation(t) == scan_ifd(t, be, start, 0, count as nat));
    if k < count && start + 12 * k + 12 <= t.len()
        && (forall|j: int| 0 <= j < k ==> #[trigger] read16(t, start + 12 * j, be) < TAG_ORIENTATION)
        && read16(t, start + 12 * k, be) == TAG_ORIENTATION {
        lemma_scan_reaches(t, be, start, 0, count as nat, k);
    }
    if start + 12 * count <= t.len()
        && (forall|j: int| 0 <= j < count ==> #[trigger] read16(t, start + 12 * j, be) != TAG_ORIENTATION) {
        lemma_scan_misses(t, be, start, 0, count as nat);
    }
}

} // verus!
