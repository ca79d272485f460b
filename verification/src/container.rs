//! Container signature checks: ISOBMFF `ftyp` brands for AVIF and HEIC
//! (major brand, or a compatible brand behind a generic `mif1`/`msf1`
//! major brand) and the two JPEG XL signatures.

use vstd::prelude::*;

verus! {

/// The four bytes at `off`.
pub open spec fn brand_at(d: Seq<u8>, off: int) -> Seq<u8> {
    d.subrange(off, off + 4)
}

/// Whether `b` is one of the brands in `list`.
pub open spec fn in_brands(b: Seq<u8>, list: Seq<[u8; 4]>) -> bool {
    exists|j: int| 0 <= j < list.len() && #[trigger] list[j]@ == b
}

/// An `ftyp` box at offset 4 of data at least 12 bytes long.
pub open spec fn has_ftyp_spec(d: Seq<u8>) -> bool {
    d.len() >= 12 && brand_at(d, 4) == seq![0x66u8, 0x74, 0x79, 0x70]
}

/// End of the compatible-brand list: the box size, capped at the data.
pub open spec fn ftyp_end(d: Seq<u8>) -> int {
    let size = 16777216 * d[0] + 65536 * d[1] + 256 * d[2] + d[3];
    if size < d.len() { size } else { d.len() as int }
}

/// Whether a compatible brand (4-byte words from offset 16 up to the
/// end of the box) is in `list`.
pub open spec fn compat_brand_in(d: Seq<u8>, list: Seq<[u8; 4]>) -> bool {
    exists|k: int| 0 <= k && 16 + 4 * k + 4 <= ftyp_end(d) && #[trigger] in_brands(brand_at(d, 16 + 4 * k), list)
}

/// `avif`, `avis`.
pub open spec fn avif_brands() -> Seq<[u8; 4]> {
    seq![[0x61u8, 0x76, 0x69, 0x66], [0x61u8, 0x76, 0x69, 0x73]]
}

/// `mif1`, `msf1`: generic HEIF major brands.
pub open spec fn generic_brands() -> Seq<[u8; 4]> {
    seq![[0x6Du8, 0x69, 0x66, 0x31], [0x6Du8, 0x73, 0x66, 0x31]]
}

/// The HEVC-based HEIC brands.
pub open spec fn heic_brands() -> Seq<[u8; 4]> {
    seq![
        [0x68u8, 0x65, 0x69, 0x63], [0x68u8, 0x65, 0x69, 0x78], [0x68u8, 0x65, 0x76, 0x63], [0x68u8, 0x65, 0x76, 0x78],
        [0x68u8, 0x65, 0x69, 0x6D], [0x68u8, 0x65, 0x69, 0x73], [0x68u8, 0x65, 0x76, 0x6D], [0x68u8, 0x65, 0x76, 0x73],
    ]
}

/// AVIF: `ftyp` with an AVIF major brand, or a generic major brand and an
/// AVIF compatible brand.
pub open spec fn is_avif_spec(d: Seq<u8>) -> bool {
    has_ftyp_spec(d) && (in_brands(brand_at(d, 8), avif_brands())
        || (in_brands(brand_at(d, 8), generic_brands()) && compat_brand_in(d, avif_brands())))
}

/// HEIC: `ftyp` with a HEIC major brand, or a generic major brand and a
/// HEIC compatible brand.
pub open spec fn is_heic_spec(d: Seq<u8>) -> bool {
    has_ftyp_spec(d) && (in_brands(brand_at(d, 8), heic_brands())
        || (in_brands(brand_at(d, 8), generic_brands()) && compat_brand_in(d, heic_brands())))
}

/// JPEG XL: bare codestream `FF 0A`, or the twelve-byte container
/// signature.
pub open spec fn is_jxl_spec(d: Seq<u8>) -> bool {
    ||| d.len() >= 2 && d[0] == 0xFFu8 && d[1] == 0x0Au8
    ||| d.len() >= 12 && d.subrange(0, 12) == seq![0x00u8, 0x00, 0x00, 0x0C, 0x4A, 0x58, 0x4C, 0x20, 0x0D, 0x0A, 0x87, 0x0A]
}

/// Whether the four bytes at `off` equal `b`.
fn bytes_eq4(d: &[u8], off: usize, b: &[u8; 4]) -> (r: bool)
    requires
        off + 4 <= d@.len(),
    ensures
        r == (brand_at(d@, off as int) == b@),
{
    let r = d[off] == b[0] && d[off + 1] == b[1] && d[off + 2] == b[2] && d[off + 3] == b[3];
    proof {
        if r {
            assert(brand_at(d@, off as int) =~= b@);
        } else if brand_at(d@, off as int) == b@ {
            assert(brand_at(d@, off as int)[0] == b@[0]);
            assert(brand_at(d@, off as int)[1] == b@[1]);
            assert(brand_at(d@, off as int)[2] == b@[2]);
            assert(brand_at(d@, off as int)[3] == b@[3]);
        }
    }
    r
}

/// Whether the four bytes at `off` are one of `list`.
fn brand_in(d: &[u8], off: usize, list: &[[u8; 4]]) -> (r: bool)
    requires
        off + 4 <= d@.len(),
    ensures
        r == in_brands(brand_at(d@, off as int), list@),
{
    let mut j: usize = 0;
    while j < list.len()
        invariant
            off + 4 <= d@.len(),
            j <= list@.len(),
            forall|i: int| 0 <= i < j ==> #[trigger] list@[i]@ != brand_at(d@, off as int),
        decreases list@.len() - j,
    {
        if bytes_eq4(d, off, &list[j]) {
            assert(list@[j as int]@ == brand_at(d@, off as int));
            return true;
        }
        j = j + 1;
    }
    false
}

/// Whether `d` has an `ftyp` box at offset 4 (and at least 12 bytes).
pub fn has_ftyp(d: &[u8]) -> (r: bool)
    ensures
        r == has_ftyp_spec(d@),
{
    if d.len() < 12 {
        return false;
    }
    let ftyp: [u8; 4] = [0x66, 0x74, 0x79, 0x70];
    let r = bytes_eq4(d, 4, &ftyp);
    assert(ftyp@ =~= seq![0x66u8, 0x74, 0x79, 0x70]);
    r
}

/// Whether a compatible brand of the `ftyp` box is in `list`; the box
/// size in the first four bytes bounds the scan.
pub fn scan_compat_brands(d: &[u8], list: &[[u8; 4]]) -> (r: bool)
    requires
        d@.len() >= 4,
    ensures
        r == compat_brand_in(d@, list@),
{
    let box_size = (d[0] as u32) * 16777216 + (d[1] as u32) * 65536 + (d[2] as u32) * 256 + (d[3] as u32);
    let len = d.len();
    let end: usize = if (box_size as u64) < (len as u64) { box_size as usize } else { len };
    assert(end == ftyp_end(d@));
    let mut offset: usize = 16;
    let mut k: usize = 0;
    while end >= 4 && offset <= end - 4
        invariant
            end == ftyp_end(d@),
            end <= d@.len(),
            offset == 16 + 4 * k,
            forall|m: int| 0 <= m < k ==> !#[trigger] in_brands(brand_at(d@, 16 + 4 * m), list@),
        decreases end - offset,
    {
        if brand_in(d, offset, list) {
            return true;
        }
        offset = offset + 4;
        k = k + 1;
    }
    proof {
        assert forall|m: int| 0 <= m && 16 + 4 * m + 4 <= ftyp_end(d@)
            implies !#[trigger] in_brands(brand_at(d@, 16 + 4 * m), list@) by {
            assert(m < k);
        }
    }
    false
}

/// AVIF detection by `ftyp` brands.
pub fn detect_avif(d: &[u8]) -> (r: bool)
    ensures
        r == is_avif_spec(d@),
{
    if !has_ftyp(d) {
        return false;
    }
    let avif: [[u8; 4]; 2] = [[0x61, 0x76, 0x69, 0x66], [0x61, 0x76, 0x69, 0x73]];
    let generic: [[u8; 4]; 2] = [[0x6D, 0x69, 0x66, 0x31], [0x6D, 0x73, 0x66, 0x31]];
    assert(avif@ =~= avif_brands());
    assert(generic@ =~= generic_brands());
    if brand_in(d, 8, &avif) {
        return true;
    }
    if brand_in(d, 8, &generic) {
        scan_compat_brands(d, &avif)
    } else {
        false
    }
}

/// HEIC detection by `ftyp` brands.
pub fn detect_heic(d: &[u8]) -> (r: bool)
    ensures
        r == is_heic_spec(d@),
{
    if !has_ftyp(d) {
        return false;
    }
    let heic: [[u8; 4]; 8] = [
        [0x68, 0x65, 0x69, 0x63], [0x68, 0x65, 0x69, 0x78], [0x68, 0x65, 0x76, 0x63], [0x68, 0x65, 0x76, 0x78],
        [0x68, 0x65, 0x69, 0x6D], [0x68, 0x65, 0x69, 0x73], [0x68, 0x65, 0x76, 0x6D], [0x68, 0x65, 0x76, 0x73],
    ];
    let generic: [[u8; 4]; 2] = [[0x6D, 0x69, 0x66, 0x31], [0x6D, 0x73, 0x66, 0x31]];
    assert(heic@ =~= heic_brands());
    assert(generic@ =~= generic_brands());
    if brand_in(d, 8, &heic) {
        return true;
    }
    if brand_in(d, 8, &generic) {
        scan_compat_brands(d, &heic)
    } else {
        false
    }
}

/// JPEG XL detection: codestream or container signature.
pub fn detect_jxl(d: &[u8]) -> (r: bool)
    ensures
        r == is_jxl_spec(d@),
{
    if d.len() >= 2 && d[0] == 0xFF && d[1] == 0x0A {
        return true;
    }
    if d.len() < 12 {
        return false;
    }
    let sig: [u8; 12] = [0x00, 0x00, 0x00, 0x0C, 0x4A, 0x58, 0x4C, 0x20, 0x0D, 0x0A, 0x87, 0x0A];
    let mut i: usize = 0;
    while i < 12
        invariant
            d@.len() >= 12,
            !(d@[0] == 0xFFu8 && d@[1] == 0x0Au8),
            i <= 12,
            sig@ == seq![0x00u8, 0x00, 0x00, 0x0C, 0x4A, 0x58, 0x4C, 0x20, 0x0D, 0x0A, 0x87, 0x0A],
            forall|m: int| 0 <= m < i ==> d@[m] == sig@[m],
        decreases 12 - i,
    {
        if d[i] != sig[i] {
            proof {
                let sub = d@.subrange(0, 12);
                assert(sub[i as int] != sig@[i as int]);
                if sub == sig@ {
                    assert(sub[i as int] == sig@[i as int]);
                }
                assert(sub != seq![0x00u8, 0x00, 0x00, 0x0C, 0x4A, 0x58, 0x4C, 0x20, 0x0D, 0x0A, 0x87, 0x0A]);
            }
            return false;
        }
        i = i + 1;
    }
    assert(d@.subrange(0, 12) =~= sig@);
    true
}

} // verus!
