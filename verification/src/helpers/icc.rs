//! ICC profile identification through the profile tables of the
//! `zenpixels` crate (normalized-hash lookup of RGB and gray profiles).

use vstd::prelude::*;
use crate::descriptor::{ColorPrimaries, TransferFunction};
use zenpixels::ColorPrimaries as ZenPrimaries;
use zenpixels::TransferFunction as ZenTransfer;

verus! {

/// Maximum curve error accepted when identifying an ICC profile. Kept for
/// callers of the older API: identification always uses the loosest
/// (`Intent`) tolerance. Ordered from strictest to loosest.
#[derive(Clone, Copy, Debug, PartialEq, Eq, PartialOrd, Ord, Hash)]
pub enum IccMatchTolerance {
    /// ±1 in u16: parametric v4 profiles only.
    Exact,
    /// ±3 in u16: also parametric approximations.
    Precise,
    /// ±13 in u16: also small LUT profiles.
    Approximate,
    /// ±56 in u16: honors encoder intent.
    Intent,
}

/// What `zenpixels::icc::identify_common` recognises in an ICC profile:
/// its primaries and transfer function as the library's enums (a variant
/// the library does not know becomes `Unknown`), or `None` for a profile
/// missing from its tables.
pub uninterp spec fn common_icc_identity(icc: Seq<u8>) -> Option<(ColorPrimaries, TransferFunction)>;

/// Calls `zenpixels::icc::identify_common` and converts the primaries and
/// transfer function of the result variant by variant. Trusted: its
/// result is `common_icc_identity` of the profile bytes (the lookup hashes
/// the bytes against fixed tables).
#[verifier::external_body]
fn identify_common_icc(icc: &[u8]) -> (r: Option<(ColorPrimaries, TransferFunction)>)
    ensures
        r == common_icc_identity(icc@),
{
    let id = zenpixels::icc::identify_common(icc)?;
    let p = match id.primaries {
        ZenPrimaries::Bt709 => ColorPrimaries::Bt709, ZenPrimaries::Bt2020 => ColorPrimaries::Bt2020,
        ZenPrimaries::DisplayP3 => ColorPrimaries::DisplayP3, ZenPrimaries::AdobeRgb => ColorPrimaries::AdobeRgb,
        _ => ColorPrimaries::Unknown,
    };
    let t = match id.transfer {
        ZenTransfer::Linear => TransferFunction::Linear, ZenTransfer::Srgb => TransferFunction::Srgb,
        ZenTransfer::Bt709 => TransferFunction::Bt709, ZenTransfer::Pq => TransferFunction::Pq,
        ZenTransfer::Hlg => TransferFunction::Hlg, ZenTransfer::Gamma22 => TransferFunction::Gamma22,
        _ => TransferFunction::Unknown,
    };
    Some((p, t))
}

/// Calls `zenpixels::icc::is_common_srgb`. Trusted: by its source it is
/// true exactly when `identify_common` recognises the profile with BT.709
/// primaries and the sRGB transfer function.
#[verifier::external_body]
fn is_common_srgb_icc(icc: &[u8]) -> (r: bool)
    ensures
        r == (common_icc_identity(icc@) == Some((ColorPrimaries::Bt709, TransferFunction::Srgb))),
{
    zenpixels::icc::is_common_srgb(icc)
}

/// Identify a well-known ICC profile by normalized hash lookup in the
/// `zenpixels` tables. The tolerance is accepted and ignored.
pub fn identify_well_known_icc(icc_bytes: &[u8], _tolerance: IccMatchTolerance) -> (r: Option<(ColorPrimaries, TransferFunction)>)
    ensures
        r == common_icc_identity(icc_bytes@),
{
    identify_common_icc(icc_bytes)
}

/// Whether an ICC profile is a known sRGB profile of the `zenpixels`
/// tables.
pub fn icc_profile_is_srgb(icc_bytes: &[u8]) -> (r: bool)
    ensures
        r == (common_icc_identity(icc_bytes@) == Some((ColorPrimaries::Bt709, TransferFunction::Srgb))),
{
    is_common_srgb_icc(icc_bytes)
}

} // verus!
