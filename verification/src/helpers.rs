//! Helpers for codec implementations: EXIF orientation parsing and
//! identification of well-known ICC profiles by hash.

pub mod exif;
pub mod icc;

use vstd::prelude::*;
use crate::descriptor::{ColorPrimaries, PixelDescriptor, PixelFormat, TransferFunction};
use crate::info::{Cicp, SourceColor, cicp, cicp_descriptor};

pub use exif::parse_exif_orientation;

verus! {

/// FNV-1a 64-bit offset basis.
pub const FNV_OFFSET: u64 = 0xcbf29ce484222325;
/// FNV-1a 64-bit prime.
pub const FNV_PRIME: u64 = 0x100000001b3;

/// One FNV-1a step: xor in the byte, then multiply modulo 2^64.
pub open spec fn fnv1a_step(h: u64, b: u8) -> u64 {
    (((h ^ (b as u64)) as nat * FNV_PRIME as nat) % 0x1_0000_0000_0000_0000nat) as u64
}

/// FNV-1a 64-bit hash of a byte sequence.
pub open spec fn fnv1a_spec(s: Seq<u8>) -> u64
    decreases s.len(),
{
    if s.len() == 0 {
        FNV_OFFSET
    } else {
        fnv1a_step(fnv1a_spec(s.drop_last()), s.last())
    }
}

/// FNV-1a 64-bit hash; the same on every platform.
pub fn fnv1a_64(data: &[u8]) -> (r: u64)
    ensures
        r == fnv1a_spec(data@),
{
    let mut hash: u64 = FNV_OFFSET;
    let mut i: usize = 0;
    while i < data.len()
        invariant
            i <= data@.len(),
            hash == fnv1a_spec(data@.subrange(0, i as int)),
        decreases data@.len() - i,
    {
        proof {
            let pre = data@.subrange(0, i as int + 1);
            assert(pre.drop_last() =~= data@.subrange(0, i as int));
            assert(pre.last() == data@[i as int]);
        }
        hash = (hash ^ (data[i] as u64)).wrapping_mul(FNV_PRIME);
        i = i + 1;
    }
    assert(data@.subrange(0, data@.len() as int) =~= data@);
    hash
}

/// Well-known ICC profiles as (FNV-1a hash, CICP primaries, CICP transfer),
/// sorted by hash: 22 sRGB, 2 Display P3 and 2 BT.709 profiles whose curves
/// match the claimed transfer function closely.
pub open spec fn known_icc_table() -> Seq<(u64, u8, u8)> {
    seq![
        (0x01b2_7967_14a9_5fd5u64, 1u8, 13u8),
        (0x038b_a989_75d3_6160u64, 1u8, 13u8),
        (0x131b_e18b_256c_1005u64, 1u8, 13u8),
        (0x190f_0cbe_0744_3404u64, 1u8, 13u8),
        (0x1b89_293e_8c83_89adu64, 1u8, 13u8),
        (0x203c_34c1_fba5_38d2u64, 1u8, 13u8),
        (0x358f_d60d_2c26_341bu64, 1u8, 1u8),
        (0x43f7_b099_aa77_a523u64, 1u8, 13u8),
        (0x4b41_6441_92da_c35cu64, 1u8, 13u8),
        (0x569a_1a2b_b183_597au64, 1u8, 13u8),
        (0x56d2_cbfc_a6b5_4318u64, 1u8, 13u8),
        (0x70d6_01da_f84f_28ffu64, 1u8, 13u8),
        (0x717b_5b97_bad9_374du64, 1u8, 1u8),
        (0x7271_2df1_0196_b1dbu64, 1u8, 13u8),
        (0x78cb_2b5d_cdf4_e965u64, 1u8, 13u8),
        (0x7aa2_2d54_73ad_99bdu64, 12u8, 13u8),
        (0x7f3b_a380_1001_a58bu64, 1u8, 13u8),
        (0x869a_3fee_fd88_a489u64, 1u8, 13u8),
        (0x9b9c_0685_797a_bfdbu64, 1u8, 13u8),
        (0xa52c_7f17_7bff_1392u64, 12u8, 13u8),
        (0xb5fe_02fb_0e03_d19bu64, 1u8, 13u8),
        (0xbd30_9056_9601_1a32u64, 1u8, 13u8),
        (0xc54d_44a1_49a7_d61au64, 1u8, 13u8),
        (0xca3e_5c85_c24b_4889u64, 1u8, 13u8),
        (0xcd42_2ac4_b90b_32b3u64, 1u8, 13u8),
        (0xe8a3_3e37_d747_9a46u64, 1u8, 13u8),
    ]
}

/// The table of well-known ICC profiles (see [`known_icc_table`]).
pub fn known_icc_profiles() -> (r: [(u64, u8, u8); 26])
    ensures
        r@ == known_icc_table(),
{
    let r = [
        (0x01b2_7967_14a9_5fd5u64, 1u8, 13u8),
        (0x038b_a989_75d3_6160u64, 1u8, 13u8),
        (0x131b_e18b_256c_1005u64, 1u8, 13u8),
        (0x190f_0cbe_0744_3404u64, 1u8, 13u8),
        (0x1b89_293e_8c83_89adu64, 1u8, 13u8),
        (0x203c_34c1_fba5_38d2u64, 1u8, 13u8),
        (0x358f_d60d_2c26_341bu64, 1u8, 1u8),
        (0x43f7_b099_aa77_a523u64, 1u8, 13u8),
        (0x4b41_6441_92da_c35cu64, 1u8, 13u8),
        (0x569a_1a2b_b183_597au64, 1u8, 13u8),
        (0x56d2_cbfc_a6b5_4318u64, 1u8, 13u8),
        (0x70d6_01da_f84f_28ffu64, 1u8, 13u8),
        (0x717b_5b97_bad9_374du64, 1u8, 1u8),
        (0x7271_2df1_0196_b1dbu64, 1u8, 13u8),
        (0x78cb_2b5d_cdf4_e965u64, 1u8, 13u8),
        (0x7aa2_2d54_73ad_99bdu64, 12u8, 13u8),
        (0x7f3b_a380_1001_a58bu64, 1u8, 13u8),
        (0x869a_3fee_fd88_a489u64, 1u8, 13u8),
        (0x9b9c_0685_797a_bfdbu64, 1u8, 13u8),
        (0xa52c_7f17_7bff_1392u64, 12u8, 13u8),
        (0xb5fe_02fb_0e03_d19bu64, 1u8, 13u8),
        (0xbd30_9056_9601_1a32u64, 1u8, 13u8),
        (0xc54d_44a1_49a7_d61au64, 1u8, 13u8),
        (0xca3e_5c85_c24b_4889u64, 1u8, 13u8),
        (0xcd42_2ac4_b90b_32b3u64, 1u8, 13u8),
        (0xe8a3_3e37_d747_9a46u64, 1u8, 13u8),
    ];
    assert(r@ =~= known_icc_table());
    r
}

/// The table's hashes strictly increase, so each hash occurs at most once
/// and binary search finds it.
pub proof fn lemma_known_icc_table_sorted()
    ensures
        known_icc_table().len() == 26,
        forall|i: int, j: int| 0 <= i < j < 26 ==> known_icc_table()[i].0 < known_icc_table()[j].0,
{
    let t = known_icc_table();
    assert(t.len() == 26);
    assert forall|i: int| 0 <= i < 25 implies #[trigger] t[i].0 < t[i + 1].0 by {
        if i == 0 {} else if i == 1 {} else if i == 2 {} else if i == 3 {} else if i == 4 {}
        else if i == 5 {} else if i == 6 {} else if i == 7 {} else if i == 8 {} else if i == 9 {}
        else if i == 10 {} else if i == 11 {} else if i == 12 {} else if i == 13 {} else if i == 14 {}
        else if i == 15 {} else if i == 16 {} else if i == 17 {} else if i == 18 {} else if i == 19 {}
        else if i == 20 {} else if i == 21 {} else if i == 22 {} else if i == 23 {} else {}
    }
    assert forall|i: int, j: int| 0 <= i < j < 26 implies t[i].0 < t[j].0 by {
        lemma_adjacent_chain(t, i, j);
    }
}

proof fn lemma_adjacent_chain(t: Seq<(u64, u8, u8)>, i: int, j: int)
    requires
        0 <= i < j <= t.len(),
        j < t.len(),
        forall|k: int| 0 <= k < t.len() - 1 ==> #[trigger] t[k].0 < t[k + 1].0,
    ensures
        t[i].0 < t[j].0,
    decreases j - i,
{
    if j > i + 1 {
        lemma_adjacent_chain(t, i, j - 1);
        assert(t[j - 1].0 < t[j].0);
    }
}

/// Whether some table entry has hash `h`.
pub open spec fn known_hash(h: u64) -> bool {
    exists|i: int| 0 <= i < 26 && #[trigger] known_icc_table()[i].0 == h
}

/// Binary search of the sorted table for hash `h`.
fn find_known_hash(table: &[(u64, u8, u8); 26], h: u64) -> (r: Option<usize>)
    requires
        table@ == known_icc_table(),
    ensures
        match r {
            Some(i) => i < 26 && known_icc_table()[i as int].0 == h,
            None => !known_hash(h),
        },
{
    proof {
        lemma_known_icc_table_sorted();
    }
    let ghost t = known_icc_table();
    let mut lo: usize = 0;
    let mut hi: usize = 26;
    while lo < hi
        invariant
            table@ == t,
            t == known_icc_table(),
            t.len() == 26,
            lo <= hi <= 26,
            forall|i: int, j: int| 0 <= i < j < 26 ==> t[i].0 < t[j].0,
            forall|k: int| 0 <= k < lo ==> #[trigger] t[k].0 < h,
            forall|k: int| hi <= k < 26 ==> #[trigger] t[k].0 > h,
        decreases hi - lo,
    {
        let mid = lo + (hi - lo) / 2;
        let key = table[mid].0;
        if key == h {
            return Some(mid);
        } else if key < h {
            lo = mid + 1;
        } else {
            hi = mid;
        }
    }
    proof {
        assert forall|i: int| 0 <= i < 26 implies #[trigger] t[i].0 != h by {
            if i < lo {
                assert(t[i].0 < h);
            } else {
                assert(t[i].0 > h);
            }
        }
    }
    None
}

/// The CICP code points of the well-known profile whose bytes have this
/// hash, if the table lists it.
pub open spec fn well_known_icc_cicp(icc: Seq<u8>) -> Option<Cicp> {
    if known_hash(fnv1a_spec(icc)) {
        let i = choose|i: int| 0 <= i < 26 && #[trigger] known_icc_table()[i].0 == fnv1a_spec(icc);
        Some(cicp(known_icc_table()[i].1, known_icc_table()[i].2, 0, true))
    } else {
        None
    }
}

/// Identify a well-known ICC profile by its FNV-1a hash: the CICP code
/// points of the table entry with that hash (matrix 0, full range), or
/// `None` for a profile the table does not list.
pub fn identify_well_known_icc(icc_bytes: &[u8]) -> (r: Option<Cicp>)
    ensures
        r is None <==> !known_hash(fnv1a_spec(icc_bytes@)),
        forall|i: int| 0 <= i < 26 && #[trigger] known_icc_table()[i].0 == fnv1a_spec(icc_bytes@)
            ==> r == Some(cicp(known_icc_table()[i].1, known_icc_table()[i].2, 0, true)),
        r == well_known_icc_cicp(icc_bytes@),
{
    let hash = fnv1a_64(icc_bytes);
    let table = known_icc_profiles();
    proof {
        lemma_known_icc_table_sorted();
    }
    match find_known_hash(&table, hash) {
        Some(idx) => {
            let (_, cp, tc) = table[idx];
            proof {
                let h = fnv1a_spec(icc_bytes@);
                assert(known_icc_table()[idx as int].0 == h);
                let i = choose|i: int| 0 <= i < 26 && #[trigger] known_icc_table()[i].0 == h;
                if i != idx as int {
                    if i < idx as int {
                        assert(known_icc_table()[i].0 < known_icc_table()[idx as int].0);
                    } else {
                        assert(known_icc_table()[idx as int].0 < known_icc_table()[i].0);
                    }
                }
            }
            Some(Cicp::new(cp, tc, 0, true))
        },
        None => None,
    }
}

/// Whether an ICC profile is one of the well-known sRGB profiles
/// (primaries 1, transfer 13).
pub fn icc_profile_is_srgb(icc_bytes: &[u8]) -> (r: bool)
    ensures
        r == exists|i: int| 0 <= i < 26 && #[trigger] known_icc_table()[i].0 == fnv1a_spec(icc_bytes@)
            && known_icc_table()[i].1 == 1 && known_icc_table()[i].2 == 13,
{
    match identify_well_known_icc(icc_bytes) {
        Some(c) => c.color_primaries == 1 && c.transfer_characteristics == 13,
        None => false,
    }
}

/// Descriptor of decoded pixels: the correction target when the pixels
/// were color-managed; else the source CICP; else, with an ICC profile,
/// the well-known profile's CICP, or unknown transfer and primaries for
/// an unlisted profile; with no color metadata, sRGB.
pub open spec fn decoded_descriptor_spec(format: PixelFormat, sc: SourceColor, corrected_to: Option<Cicp>) -> PixelDescriptor {
    match corrected_to {
        Some(t) => cicp_descriptor(t, format),
        None => match sc.cicp {
            Some(c) => cicp_descriptor(c, format),
            None => match sc.icc_profile {
                Some(icc) => match well_known_icc_cicp(icc@) {
                    Some(c) => cicp_descriptor(c, format),
                    None => PixelDescriptor {
                        transfer: TransferFunction::Unknown,
                        primaries: ColorPrimaries::Unknown,
                        ..cicp_descriptor(cicp(1, 13, 0, true), format)
                    },
                },
                None => cicp_descriptor(cicp(1, 13, 0, true), format),
            },
        },
    }
}

/// Derive the descriptor that describes decoded pixel data (see
/// [`decoded_descriptor_spec`] for the priority order).
pub fn descriptor_for_decoded_pixels(format: PixelFormat, source_color: &SourceColor, corrected_to: Option<&Cicp>) -> (r: PixelDescriptor)
    ensures
        r == decoded_descriptor_spec(format, *source_color, match corrected_to {
            Some(t) => Some(*t),
            None => None,
        }),
{
    if let Some(target) = corrected_to {
        return target.to_descriptor(format);
    }
    if let Some(c) = source_color.cicp {
        return c.to_descriptor(format);
    }
    if let Some(icc) = &source_color.icc_profile {
        if let Some(c) = identify_well_known_icc(icc.as_slice()) {
            return c.to_descriptor(format);
        }
        let d = Cicp::srgb().to_descriptor(format);
        return PixelDescriptor { transfer: TransferFunction::Unknown, primaries: ColorPrimaries::Unknown, ..d };
    }
    Cicp::srgb().to_descriptor(format)
}

} // verus!
