//! Lightweight ICC profile inspection.

use vstd::prelude::*;
use crate::info::{extract_icc_cicp, icc_cicp_offsets_fit, icc_cicp_of};

verus! {

/// The four CICP fields (primaries, transfer, matrix, full range) of the
/// `cicp` tag of an ICC profile, if it has a readable one.
pub fn icc_extract_cicp(data: &[u8]) -> (r: Option<(u8, u8, u8, bool)>)
    requires
        icc_cicp_offsets_fit(data@),
    ensures
        r == match icc_cicp_of(data@) {
            Some(c) => Some((c.color_primaries, c.transfer_characteristics, c.matrix_coefficients, c.full_range)),
            None => None,
        },
{
    match extract_icc_cicp(data) {
        Some(c) => Some((c.color_primaries, c.transfer_characteristics, c.matrix_coefficients, c.full_range)),
        None => None,
    }
}

} // verus!
