//! Color profile references for handing decoded pixels to a color
//! management system: ICC bytes, CICP code points or a named profile.

use vstd::prelude::*;
use std::sync::Arc;
use crate::info::{Cicp, cicp};

verus! {

/// A source color profile.
#[derive(Clone, Copy, Debug, PartialEq, Eq)]
pub enum ColorProfileSource<'a> {
    /// Raw ICC profile data.
    Icc(&'a [u8]),
    /// CICP parameters.
    Cicp(Cicp),
    /// A well-known named profile.
    Named(NamedProfile),
}

/// Well-known color profiles.
#[derive(Clone, Copy, Debug, PartialEq, Eq, Hash, Structural)]
pub enum NamedProfile {
    /// sRGB (IEC 61966-2-1).
    Srgb,
    /// Display P3 with the sRGB curve.
    DisplayP3,
    /// BT.2020 with the BT.709 curve.
    Bt2020,
    /// BT.2020 with PQ.
    Bt2020Pq,
    /// BT.2020 with HLG.
    Bt2020Hlg,
    /// Adobe RGB (1998).
    AdobeRgb,
    /// sRGB primaries with linear transfer.
    LinearSrgb,
}

impl Default for NamedProfile {
    fn default() -> (r: Self)
        ensures
            r == NamedProfile::Srgb,
    {
        NamedProfile::Srgb
    }
}

/// CICP code points of a named profile; none for Adobe RGB.
pub open spec fn named_profile_cicp(p: NamedProfile) -> Option<Cicp> {
    match p {
        NamedProfile::Srgb => Some(cicp(1, 13, 0, true)),
        NamedProfile::DisplayP3 => Some(cicp(12, 13, 0, true)),
        NamedProfile::Bt2020 => Some(cicp(9, 1, 0, true)),
        NamedProfile::Bt2020Pq => Some(cicp(9, 16, 9, true)),
        NamedProfile::Bt2020Hlg => Some(cicp(9, 18, 9, true)),
        NamedProfile::AdobeRgb => None,
        NamedProfile::LinearSrgb => Some(cicp(1, 8, 0, true)),
    }
}

/// The color metadata (ICC profile, CICP, luminance anchor) that travels
/// with pixel data: the `zenpixels::ColorContext` type, shared by `Arc`.
#[verifier::external_type_specification]
#[verifier::external_body]
pub struct ExColorContext(zenpixels::ColorContext);

/// Shares a color context with `Arc::clone`. Trusted: std documents that
/// the clone is another pointer to the same allocation, so it holds the
/// same context.
#[verifier::external_body]
pub(crate) fn share_color_context(ctx: &Arc<zenpixels::ColorContext>) -> (r: Arc<zenpixels::ColorContext>)
    ensures
        r == *ctx,
{
    Arc::clone(ctx)
}

/// The color space that pixel values are held in while an image is
/// processed.
#[derive(Clone, Copy, Debug, PartialEq, Eq, Hash, Structural)]
pub enum WorkingColorSpace {
    /// The encoding the pixel descriptor names (its transfer function and
    /// primaries).
    Native,
    /// Linear light with sRGB / BT.709 primaries.
    LinearSrgb,
}

impl Default for WorkingColorSpace {
    fn default() -> (r: Self)
        ensures
            r == WorkingColorSpace::Native,
    {
        WorkingColorSpace::Native
    }
}

impl NamedProfile {
    /// CICP parameters of the profile, if a standard mapping exists.
    pub fn to_cicp(self) -> (r: Option<Cicp>)
        ensures
            r == named_profile_cicp(self),
    {
        match self {
            NamedProfile::Srgb => Some(Cicp::srgb()),
            NamedProfile::DisplayP3 => Some(Cicp::display_p3()),
            NamedProfile::Bt2020 => Some(Cicp::new(9, 1, 0, true)),
            NamedProfile::Bt2020Pq => Some(Cicp::bt2100_pq()),
            NamedProfile::Bt2020Hlg => Some(Cicp::bt2100_hlg()),
            NamedProfile::AdobeRgb => None,
            NamedProfile::LinearSrgb => Some(Cicp::new(1, 8, 0, true)),
        }
    }
}

} // verus!
