//! Image description types: CICP color code points, HDR metadata, image
//! sequence kind, supplements, embedded metadata blobs and the source
//! color description of a file, and the probe result of an image.

use vstd::prelude::*;
use crate::descriptor::{
    AlphaMode, ColorPrimaries, PixelDescriptor, PixelFormat, SignalRange, TransferFunction, layout_has_alpha,
    primaries_of_cicp, transfer_of_cicp,
};
use crate::format::ImageFormat;
use crate::metadata::Metadata;
use crate::orientation::{Orientation, orientation_swaps_axes};

verus! {

/// CICP color description (ITU-T H.273).
#[derive(Clone, Copy, Debug, PartialEq, Eq, Hash, Structural)]
pub struct Cicp {
    /// Color primaries code (1 = BT.709, 9 = BT.2020, 12 = Display P3).
    pub color_primaries: u8,
    /// Transfer characteristics code (1 = BT.709, 13 = sRGB, 16 = PQ, 18 = HLG).
    pub transfer_characteristics: u8,
    /// Matrix coefficients code (0 = identity / RGB).
    pub matrix_coefficients: u8,
    /// Full range (true) or narrow video range (false).
    pub full_range: bool,
}

/// The CICP value with the given code points.
pub open spec fn cicp(cp: u8, tc: u8, mc: u8, full: bool) -> Cicp {
    Cicp { color_primaries: cp, transfer_characteristics: tc, matrix_coefficients: mc, full_range: full }
}

/// Primaries of a CICP value, `Unknown` for unrecognised codes.
pub open spec fn cicp_primaries(c: Cicp) -> ColorPrimaries {
    match primaries_of_cicp(c.color_primaries) {
        Some(p) => p,
        None => ColorPrimaries::Unknown,
    }
}

/// Transfer function of a CICP value, `Unknown` for unrecognised codes.
pub open spec fn cicp_transfer(c: Cicp) -> TransferFunction {
    match transfer_of_cicp(c.transfer_characteristics) {
        Some(t) => t,
        None => TransferFunction::Unknown,
    }
}

/// The descriptor of pixels in format `f` described by CICP code points:
/// their transfer function and primaries (`Unknown` when unrecognised),
/// full or narrow range, straight alpha when the layout has alpha.
pub open spec fn cicp_descriptor(c: Cicp, f: PixelFormat) -> PixelDescriptor {
    PixelDescriptor {
        channel_type: f.channel_type,
        layout: f.layout,
        transfer: cicp_transfer(c),
        primaries: cicp_primaries(c),
        signal_range: if c.full_range { SignalRange::Full } else { SignalRange::Narrow },
        alpha: if layout_has_alpha(f.layout) { Some(AlphaMode::Straight) } else { None },
    }
}

/// Whether the transfer code is PQ (16) or HLG (18).
pub open spec fn is_hdr_transfer_code(tc: u8) -> bool {
    tc == 16 || tc == 18
}

impl Cicp {
    /// CICP value from raw code points.
    pub fn new(color_primaries: u8, transfer_characteristics: u8, matrix_coefficients: u8, full_range: bool) -> (r: Self)
        ensures
            r == cicp(color_primaries, transfer_characteristics, matrix_coefficients, full_range),
    {
        Cicp { color_primaries, transfer_characteristics, matrix_coefficients, full_range }
    }

    /// sRGB: BT.709 primaries, sRGB transfer, identity matrix, full range.
    pub fn srgb() -> (r: Self)
        ensures
            r == cicp(1, 13, 0, true),
    {
        Cicp::new(1, 13, 0, true)
    }

    /// BT.2100 PQ: BT.2020 primaries, PQ transfer, BT.2020 matrix, full range.
    pub fn bt2100_pq() -> (r: Self)
        ensures
            r == cicp(9, 16, 9, true),
    {
        Cicp::new(9, 16, 9, true)
    }

    /// BT.2100 HLG: BT.2020 primaries, HLG transfer, BT.2020 matrix, full range.
    pub fn bt2100_hlg() -> (r: Self)
        ensures
            r == cicp(9, 18, 9, true),
    {
        Cicp::new(9, 18, 9, true)
    }

    /// Display P3: P3 primaries, sRGB transfer, identity matrix, full range.
    pub fn display_p3() -> (r: Self)
        ensures
            r == cicp(12, 13, 0, true),
    {
        Cicp::new(12, 13, 0, true)
    }

    /// Primaries of the `color_primaries` code, `Unknown` if unrecognised.
    pub fn color_primaries_enum(&self) -> (r: ColorPrimaries)
        ensures
            r == cicp_primaries(*self),
    {
        match ColorPrimaries::from_cicp(self.color_primaries) {
            Some(p) => p,
            None => ColorPrimaries::Unknown,
        }
    }

    /// Descriptor of pixels in `format` described by these code points.
    pub fn to_descriptor(&self, format: PixelFormat) -> (r: PixelDescriptor)
        ensures
            r == cicp_descriptor(*self, format),
    {
        PixelDescriptor {
            channel_type: format.channel_type,
            layout: format.layout,
            transfer: self.transfer_function_enum(),
            primaries: self.color_primaries_enum(),
            signal_range: if self.full_range { SignalRange::Full } else { SignalRange::Narrow },
            alpha: if format.layout.has_alpha() { Some(AlphaMode::Straight) } else { None },
        }
    }

    /// Transfer function of the `transfer_characteristics` code, `Unknown`
    /// if unrecognised.
    pub fn transfer_function_enum(&self) -> (r: TransferFunction)
        ensures
            r == cicp_transfer(*self),
    {
        match TransferFunction::from_cicp(self.transfer_characteristics) {
            Some(t) => t,
            None => TransferFunction::Unknown,
        }
    }
}

/// HDR content light level (CEA-861.3), in cd/m².
#[derive(Clone, Copy, Debug, PartialEq, Eq, Hash, Structural)]
pub struct ContentLightLevel {
    /// Peak luminance of any single pixel (MaxCLL).
    pub max_content_light_level: u16,
    /// Peak average luminance of any single frame (MaxFALL).
    pub max_frame_average_light_level: u16,
}

impl ContentLightLevel {
    /// Content light level from MaxCLL and MaxFALL.
    pub fn new(max_content_light_level: u16, max_frame_average_light_level: u16) -> (r: Self)
        ensures
            r.max_content_light_level == max_content_light_level,
            r.max_frame_average_light_level == max_frame_average_light_level,
    {
        ContentLightLevel { max_content_light_level, max_frame_average_light_level }
    }
}

impl Default for ContentLightLevel {
    fn default() -> (r: Self)
        ensures
            r.max_content_light_level == 0,
            r.max_frame_average_light_level == 0,
    {
        ContentLightLevel { max_content_light_level: 0, max_frame_average_light_level: 0 }
    }
}

/// Mastering display color volume (SMPTE ST 2086). Its chromaticities and
/// luminances are floating point, so the library carries the value
/// through without reading it.
#[verifier::external_type_specification]
#[verifier::external_body]
pub struct ExMasteringDisplay(zenpixels::MasteringDisplay);

/// What kind of image sequence a file holds.
#[derive(Clone, Copy, Debug, PartialEq, Eq, Structural)]
pub enum ImageSequence {
    /// A single image.
    Single,
    /// Temporal animation.
    Animation {
        /// Displayed frames, if known.
        frame_count: Option<u32>,
        /// Loop count (0 = infinite), if specified.
        loop_count: Option<u32>,
        /// Whether frame N renders without decoding frames before it.
        random_access: bool,
    },
    /// Several independent images in one container.
    Multi {
        /// Primary-level images, if known.
        image_count: Option<u32>,
        /// Whether image N decodes without decoding images before it.
        random_access: bool,
    },
}

impl Default for ImageSequence {
    fn default() -> (r: Self)
        ensures
            r == ImageSequence::Single,
    {
        ImageSequence::Single
    }
}

impl ImageSequence {
    /// Frame or image count: 1 for a single image, else the stored count.
    pub fn count(&self) -> (r: Option<u32>)
        ensures
            r == match *self {
                ImageSequence::Single => Some(1u32),
                ImageSequence::Animation { frame_count, .. } => frame_count,
                ImageSequence::Multi { image_count, .. } => image_count,
            },
    {
        match self {
            ImageSequence::Single => Some(1),
            ImageSequence::Animation { frame_count, .. } => *frame_count,
            ImageSequence::Multi { image_count, .. } => *image_count,
        }
    }

    /// Whether frames or images can be accessed without decoding all
    /// earlier ones; always true for a single image.
    pub fn random_access(&self) -> (r: bool)
        ensures
            r == match *self {
                ImageSequence::Single => true,
                ImageSequence::Animation { random_access, .. } => random_access,
                ImageSequence::Multi { random_access, .. } => random_access,
            },
    {
        match self {
            ImageSequence::Single => true,
            ImageSequence::Animation { random_access, .. } => *random_access,
            ImageSequence::Multi { random_access, .. } => *random_access,
        }
    }

    /// Whether this is an animation.
    pub fn is_animation(&self) -> (r: bool)
        ensures
            r == (*self is Animation),
    {
        matches!(self, ImageSequence::Animation { .. })
    }

    /// Whether this holds several independent images.
    pub fn is_multi(&self) -> (r: bool)
        ensures
            r == (*self is Multi),
    {
        matches!(self, ImageSequence::Multi { .. })
    }
}

/// Supplemental content that accompanies the primary image(s).
#[derive(Clone, Copy, Debug, PartialEq, Eq, Structural)]
pub struct Supplements {
    /// Reduced-resolution versions (pyramid, thumbnails).
    pub pyramid: bool,
    /// HDR gain map.
    pub gain_map: bool,
    /// Depth map.
    pub depth_map: bool,
    /// Segmentation mattes.
    pub segmentation_mattes: bool,
    /// Other auxiliary images.
    pub auxiliary: bool,
}

impl Default for Supplements {
    fn default() -> (r: Self)
        ensures
            !r.pyramid && !r.gain_map && !r.depth_map && !r.segmentation_mattes && !r.auxiliary,
    {
        Supplements { pyramid: false, gain_map: false, depth_map: false, segmentation_mattes: false, auxiliary: false }
    }
}

/// Unit of a physical pixel resolution.
#[derive(Clone, Copy, Debug, PartialEq, Eq, Hash, Structural)]
pub enum ResolutionUnit {
    /// Dots per inch.
    Inch,
    /// Dots per centimeter.
    Centimeter,
    /// Pixels per meter.
    Meter,
    /// Not specified.
    Unknown,
}

impl Default for ResolutionUnit {
    fn default() -> (r: Self)
        ensures
            r == ResolutionUnit::Unknown,
    {
        ResolutionUnit::Unknown
    }
}

/// Embedded non-color metadata blobs (EXIF, XMP).
#[derive(Clone, Debug, PartialEq, Eq)]
pub struct EmbeddedMetadata {
    /// EXIF blob.
    pub exif: Option<Vec<u8>>,
    /// XMP blob.
    pub xmp: Option<Vec<u8>>,
}

impl Default for EmbeddedMetadata {
    fn default() -> (r: Self)
        ensures
            r.exif is None,
            r.xmp is None,
    {
        EmbeddedMetadata { exif: None, xmp: None }
    }
}

impl EmbeddedMetadata {
    /// Set the EXIF blob.
    pub fn with_exif(self, exif: Vec<u8>) -> (r: Self)
        ensures
            r.exif == Some(exif),
            r.xmp == self.xmp,
    {
        EmbeddedMetadata { exif: Some(exif), ..self }
    }

    /// Set the XMP blob.
    pub fn with_xmp(self, xmp: Vec<u8>) -> (r: Self)
        ensures
            r.xmp == Some(xmp),
            r.exif == self.exif,
    {
        EmbeddedMetadata { xmp: Some(xmp), ..self }
    }

    /// Whether neither blob is present.
    pub fn is_empty(&self) -> (r: bool)
        ensures
            r == (self.exif is None && self.xmp is None),
    {
        self.exif.is_none() && self.xmp.is_none()
    }
}

/// Which color field is authoritative for color management.
#[derive(Clone, Copy, Debug, PartialEq, Eq, Hash, Structural)]
pub enum ColorAuthority {
    /// The ICC profile takes precedence.
    Icc,
    /// The CICP code points take precedence.
    Cicp,
}

impl Default for ColorAuthority {
    fn default() -> (r: Self)
        ensures
            r == ColorAuthority::Icc,
    {
        ColorAuthority::Icc
    }
}

/// Big-endian `u32` at byte `i`.
pub open spec fn icc_be32(s: Seq<u8>, i: int) -> int {
    s[i] * 0x100_0000 + s[i + 1] * 0x1_0000 + s[i + 2] * 0x100 + s[i + 3]
}

/// Whether the four bytes at `at` spell `cicp`.
pub open spec fn icc_entry_is_cicp(s: Seq<u8>, at: int) -> bool {
    s[at] == 0x63 && s[at + 1] == 0x69 && s[at + 2] == 0x63 && s[at + 3] == 0x70
}

/// Whether the profile has the fixed-size header and the `acsp`
/// signature at byte 36.
pub open spec fn icc_header_ok(s: Seq<u8>) -> bool {
    s.len() >= 132 && s[36] == 0x61 && s[37] == 0x63 && s[38] == 0x73 && s[39] == 0x70
}

/// Tag-table entries read: the tag count at byte 128, at most 200.
pub open spec fn icc_scan_count(s: Seq<u8>) -> int {
    if icc_be32(s, 128) < 200 { icc_be32(s, 128) } else { 200 }
}

/// Byte offset of tag-table entry `i` (the table starts at byte 132,
/// twelve bytes per entry: signature, data offset, data size).
pub open spec fn icc_entry_at(i: int) -> int {
    132 + 12 * i
}

/// What the first `cicp` entry, at byte `e`, yields: `None` when its
/// data is shorter than 12 bytes, lies past the end, or is not typed
/// `cicp`; else the four code points at bytes 8 to 11 of the data.
pub open spec fn icc_cicp_entry(s: Seq<u8>, e: int) -> Option<Cicp> {
    let off = icc_be32(s, e + 4);
    if icc_be32(s, e + 8) < 12 {
        None
    } else if off + 12 > s.len() {
        None
    } else if !icc_entry_is_cicp(s, off) {
        None
    } else {
        Some(cicp(s[off + 8], s[off + 9], s[off + 10], s[off + 11] != 0))
    }
}

/// The scan of entries `i` to `n - 1`: it stops with `None` at the first
/// entry past the end of the data, and the first `cicp` entry decides.
pub open spec fn icc_scan_from(s: Seq<u8>, i: int, n: int) -> Option<Cicp>
    decreases n - i,
{
    if i >= n {
        None
    } else if icc_entry_at(i) + 12 > s.len() {
        None
    } else if !icc_entry_is_cicp(s, icc_entry_at(i)) {
        icc_scan_from(s, i + 1, n)
    } else {
        icc_cicp_entry(s, icc_entry_at(i))
    }
}

/// The CICP code points held in the `cicp` tag of an ICC profile, as
/// the tag-table scan reads them; `None` when the profile has no
/// readable `cicp` tag.
pub open spec fn icc_cicp_of(s: Seq<u8>) -> Option<Cicp> {
    if !icc_header_ok(s) {
        None
    } else {
        icc_scan_from(s, 0, icc_scan_count(s))
    }
}

/// Whether the scan of entries `i` to `n - 1` adds 12 to the data offset
/// of the deciding `cicp` entry without leaving `usize`.
pub open spec fn icc_scan_fits_from(s: Seq<u8>, i: int, n: int) -> bool
    decreases n - i,
{
    if i >= n {
        true
    } else if icc_entry_at(i) + 12 > s.len() {
        true
    } else if !icc_entry_is_cicp(s, icc_entry_at(i)) {
        icc_scan_fits_from(s, i + 1, n)
    } else {
        icc_be32(s, icc_entry_at(i) + 8) < 12 || icc_be32(s, icc_entry_at(i) + 4) + 12 <= usize::MAX
    }
}

/// Whether the tag-table scan can read the profile without its offset
/// arithmetic leaving `usize`. Always true where `usize` has 64 bits; on
/// a narrower target it rules out a deciding `cicp` entry whose data
/// offset lies within 12 bytes of the top of the address space.
pub open spec fn icc_cicp_offsets_fit(s: Seq<u8>) -> bool {
    !icc_header_ok(s) || icc_scan_fits_from(s, 0, icc_scan_count(s))
}

fn icc_read_be32(s: &[u8], i: usize) -> (r: u64)
    requires
        i + 4 <= s@.len(),
    ensures
        r == icc_be32(s@, i as int),
{
    (s[i] as u64) * 0x100_0000 + (s[i + 1] as u64) * 0x1_0000 + (s[i + 2] as u64) * 0x100 + (s[i + 3] as u64)
}

fn icc_is_cicp_at(s: &[u8], at: usize) -> (r: bool)
    requires
        at + 4 <= s@.len(),
    ensures
        r == icc_entry_is_cicp(s@, at as int),
{
    s[at] == 0x63 && s[at + 1] == 0x69 && s[at + 2] == 0x63 && s[at + 3] == 0x70
}

/// Whether `icc_extract_cicp` and `SourceColor::has_hdr_transfer` may
/// be called on these profile bytes: the tag-table scan's offset
/// arithmetic stays within `usize`.
pub fn icc_cicp_offsets_checked(icc: &[u8]) -> (r: bool)
    ensures
        r == icc_cicp_offsets_fit(icc@),
{
    if icc.len() < 132 {
        return true;
    }
    if !(icc[36] == 0x61 && icc[37] == 0x63 && icc[38] == 0x73 && icc[39] == 0x70) {
        return true;
    }
    let count = icc_read_be32(icc, 128);
    let n: u64 = if count < 200 { count } else { 200 };
    let ghost s = icc@;
    let mut i: u64 = 0;
    while i < n
        invariant
            s == icc@,
            icc_header_ok(s),
            n == icc_scan_count(s),
            0 <= i <= n <= 200,
            icc_scan_fits_from(s, i as int, n as int) == icc_scan_fits_from(s, 0, n as int),
        decreases n - i,
    {
        let e = 132 + 12 * (i as usize);
        if e + 12 > icc.len() {
            return true;
        }
        if icc_is_cicp_at(icc, e) {
            let size = icc_read_be32(icc, e + 8);
            let off = icc_read_be32(icc, e + 4);
            return size < 12 || off + 12 <= usize::MAX as u64;
        }
        i = i + 1;
    }
    true
}

/// Reads the `cicp` tag of an ICC profile with
/// `zenpixels::icc::extract_cicp`. Trusted: its result is `icc_cicp_of`
/// of the profile's bytes, the scan its source performs (header and
/// `acsp` check, at most 200 tag-table entries, the first `cicp` entry
/// decides). The scan adds 12 to that entry's data offset in `usize`,
/// so the `requires` rules out offsets where that addition overflows.
#[verifier::external_body]
pub(crate) fn extract_icc_cicp(icc: &[u8]) -> (r: Option<Cicp>)
    requires
        icc_cicp_offsets_fit(icc@),
    ensures
        r == icc_cicp_of(icc@),
{
    match zenpixels::icc::extract_cicp(icc) {
        Some(c) => Some(Cicp {
            color_primaries: c.color_primaries,
            transfer_characteristics: c.transfer_characteristics,
            matrix_coefficients: c.matrix_coefficients,
            full_range: c.full_range,
        }),
        None => None,
    }
}

/// HDR transfer decision: the CICP code points when they say PQ or HLG,
/// otherwise the CICP tag read from the ICC profile, if any.
pub open spec fn hdr_transfer_spec(cicp: Option<Cicp>, icc_tag: Option<Cicp>) -> bool {
    ||| (cicp matches Some(c) && is_hdr_transfer_code(c.transfer_characteristics))
    ||| (icc_tag matches Some(t) && is_hdr_transfer_code(t.transfer_characteristics))
}

/// Whether CICP code points, or else the CICP tag found in an ICC
/// profile, name an HDR transfer function (PQ or HLG).
pub fn hdr_transfer_from(cicp: Option<Cicp>, icc_tag: Option<Cicp>) -> (r: bool)
    ensures
        r == hdr_transfer_spec(cicp, icc_tag),
{
    if let Some(c) = cicp {
        if c.transfer_characteristics == 16 || c.transfer_characteristics == 18 {
            return true;
        }
    }
    match icc_tag {
        Some(t) => t.transfer_characteristics == 16 || t.transfer_characteristics == 18,
        None => false,
    }
}

/// Source color description of an image file.
#[derive(Clone, Debug, PartialEq)]
pub struct SourceColor {
    /// CICP color description.
    pub cicp: Option<Cicp>,
    /// Embedded ICC profile.
    pub icc_profile: Option<Vec<u8>>,
    /// Which of the two is authoritative.
    pub color_authority: ColorAuthority,
    /// Bits per channel, if known.
    pub bit_depth: Option<u8>,
    /// Channels, if known.
    pub channel_count: Option<u8>,
    /// Content light level, for HDR content.
    pub content_light_level: Option<ContentLightLevel>,
    /// Mastering display color volume, for HDR content.
    pub mastering_display: Option<zenpixels::MasteringDisplay>,
}

impl Default for SourceColor {
    fn default() -> (r: Self)
        ensures
            r.cicp is None,
            r.icc_profile is None,
            r.color_authority == ColorAuthority::Icc,
            r.bit_depth is None,
            r.channel_count is None,
            r.content_light_level is None,
            r.mastering_display is None,
    {
        SourceColor {
            cicp: None,
            icc_profile: None,
            color_authority: ColorAuthority::Icc,
            bit_depth: None,
            channel_count: None,
            content_light_level: None,
            mastering_display: None,
        }
    }
}

impl SourceColor {
    /// Set the CICP description.
    pub fn with_cicp(self, cicp: Cicp) -> (r: Self)
        ensures
            r == (SourceColor { cicp: Some(cicp), ..self }),
    {
        SourceColor { cicp: Some(cicp), ..self }
    }

    /// Set the ICC profile.
    pub fn with_icc_profile(self, icc: Vec<u8>) -> (r: Self)
        ensures
            r == (SourceColor { icc_profile: Some(icc), ..self }),
    {
        SourceColor { icc_profile: Some(icc), ..self }
    }

    /// Set the bit depth.
    pub fn with_bit_depth(self, bit_depth: u8) -> (r: Self)
        ensures
            r == (SourceColor { bit_depth: Some(bit_depth), ..self }),
    {
        SourceColor { bit_depth: Some(bit_depth), ..self }
    }

    /// Set the channel count.
    pub fn with_channel_count(self, channel_count: u8) -> (r: Self)
        ensures
            r == (SourceColor { channel_count: Some(channel_count), ..self }),
    {
        SourceColor { channel_count: Some(channel_count), ..self }
    }

    /// Set the content light level.
    pub fn with_content_light_level(self, clli: ContentLightLevel) -> (r: Self)
        ensures
            r == (SourceColor { content_light_level: Some(clli), ..self }),
    {
        SourceColor { content_light_level: Some(clli), ..self }
    }

    /// Set the mastering display color volume.
    pub fn with_mastering_display(self, mdcv: zenpixels::MasteringDisplay) -> (r: Self)
        ensures
            r == (SourceColor { mastering_display: Some(mdcv), ..self }),
    {
        SourceColor { mastering_display: Some(mdcv), ..self }
    }

    /// Set which color field is authoritative.
    pub fn with_color_authority(self, authority: ColorAuthority) -> (r: Self)
        ensures
            r == (SourceColor { color_authority: authority, ..self }),
    {
        SourceColor { color_authority: authority, ..self }
    }

    /// Whether the content uses an HDR transfer function (PQ or HLG):
    /// the CICP code points decide when they name one; otherwise the
    /// CICP tag of the ICC profile, if there is a profile.
    pub fn has_hdr_transfer(&self) -> (r: bool)
        requires
            (self.cicp matches Some(c) && is_hdr_transfer_code(c.transfer_characteristics))
                || (self.icc_profile matches Some(icc) ==> icc_cicp_offsets_fit(icc@)),
        ensures
            r == hdr_transfer_spec(
                self.cicp,
                match self.icc_profile {
                    Some(icc) => icc_cicp_of(icc@),
                    None => None,
                },
            ),
    {
        if let Some(c) = self.cicp {
            if c.transfer_characteristics == 16 || c.transfer_characteristics == 18 {
                return true;
            }
        }
        let icc_tag = match &self.icc_profile {
            Some(icc) => extract_icc_cicp(icc.as_slice()),
            None => None,
        };
        hdr_transfer_from(self.cicp, icc_tag)
    }

    /// Transfer function named by the CICP code points; `Unknown` when
    /// there are none or the code is unrecognised.
    pub fn transfer_function(&self) -> (r: TransferFunction)
        ensures
            r == match self.cicp {
                Some(c) => cicp_transfer(c),
                None => TransferFunction::Unknown,
            },
    {
        match self.cicp {
            Some(c) => c.transfer_function_enum(),
            None => TransferFunction::Unknown,
        }
    }

    /// Color primaries named by the CICP code points; BT.709 when there
    /// are none, `Unknown` for an unrecognised code.
    pub fn color_primaries(&self) -> (r: ColorPrimaries)
        ensures
            r == match self.cicp {
                Some(c) => cicp_primaries(c),
                None => ColorPrimaries::Bt709,
            },
    {
        match self.cicp {
            Some(c) => c.color_primaries_enum(),
            None => ColorPrimaries::Bt709,
        }
    }
}

/// The bytes of an optional blob.
pub open spec fn blob_view(b: Option<Vec<u8>>) -> Option<Seq<u8>> {
    match b {
        Some(v) => Some(v@),
        None => None,
    }
}

/// A copy of an optional blob.
pub fn clone_blob(b: &Option<Vec<u8>>) -> (r: Option<Vec<u8>>)
    ensures
        blob_view(r) == blob_view(*b),
{
    match b {
        Some(v) => {
            let c = v.clone();
            assert(c@ =~= v@);
            Some(c)
        },
        None => None,
    }
}

/// What probing a file tells about its image before any pixel is
/// decoded. The gain map state and the physical resolution, which carry
/// floating-point values, are kept beside it by the application layer.
#[derive(Clone, Debug, PartialEq)]
pub struct ImageInfo {
    /// Width in pixels (the canvas width for an animation).
    pub width: u32,
    /// Height in pixels.
    pub height: u32,
    /// Detected format.
    pub format: ImageFormat,
    /// Whether the image has an alpha channel.
    pub has_alpha: bool,
    /// Whether the encoding is progressive or interlaced.
    pub is_progressive: bool,
    /// What kind of image sequence the file holds.
    pub sequence: ImageSequence,
    /// Supplemental content alongside the primary image(s).
    pub supplements: Supplements,
    /// EXIF orientation; `width` and `height` are the stored dimensions.
    pub orientation: Orientation,
    /// Source color description.
    pub source_color: SourceColor,
    /// Embedded non-color metadata.
    pub embedded_metadata: EmbeddedMetadata,
    /// Non-fatal diagnostics from probing or decoding.
    pub warnings: Vec<String>,
}

/// Frame or image count of a sequence, if known: one for a single image.
pub open spec fn sequence_count(s: ImageSequence) -> Option<u32> {
    match s {
        ImageSequence::Single => Some(1u32),
        ImageSequence::Animation { frame_count, .. } => frame_count,
        ImageSequence::Multi { image_count, .. } => image_count,
    }
}

impl ImageInfo {
    /// A single, opaque, non-progressive image with the given dimensions
    /// and format, identity orientation, no supplements, no color
    /// description, no metadata and no warnings.
    pub fn new(width: u32, height: u32, format: ImageFormat) -> (r: Self)
        ensures
            r.width == width,
            r.height == height,
            r.format == format,
            !r.has_alpha,
            !r.is_progressive,
            r.sequence == ImageSequence::Single,
            r.supplements == (Supplements {
                pyramid: false,
                gain_map: false,
                depth_map: false,
                segmentation_mattes: false,
                auxiliary: false,
            }),
            r.orientation == Orientation::Identity,
            r.source_color.cicp is None,
            r.source_color.icc_profile is None,
            r.source_color.color_authority == ColorAuthority::Icc,
            r.source_color.bit_depth is None,
            r.source_color.channel_count is None,
            r.source_color.content_light_level is None,
            r.source_color.mastering_display is None,
            r.embedded_metadata.exif is None,
            r.embedded_metadata.xmp is None,
            r.warnings@.len() == 0,
    {
        ImageInfo {
            width,
            height,
            format,
            has_alpha: false,
            is_progressive: false,
            sequence: ImageSequence::Single,
            supplements: Supplements::default(),
            orientation: Orientation::Identity,
            source_color: SourceColor::default(),
            embedded_metadata: EmbeddedMetadata::default(),
            warnings: Vec::new(),
        }
    }

    /// Set whether the image has alpha.
    pub fn with_alpha(self, has_alpha: bool) -> (r: Self)
        ensures
            r == (ImageInfo { has_alpha, ..self }),
    {
        ImageInfo { has_alpha, ..self }
    }

    /// Set whether the encoding is progressive or interlaced.
    pub fn with_progressive(self, progressive: bool) -> (r: Self)
        ensures
            r == (ImageInfo { is_progressive: progressive, ..self }),
    {
        ImageInfo { is_progressive: progressive, ..self }
    }

    /// Set the sequence kind.
    pub fn with_sequence(self, sequence: ImageSequence) -> (r: Self)
        ensures
            r == (ImageInfo { sequence, ..self }),
    {
        ImageInfo { sequence, ..self }
    }

    /// Set the supplement flags.
    pub fn with_supplements(self, supplements: Supplements) -> (r: Self)
        ensures
            r == (ImageInfo { supplements, ..self }),
    {
        ImageInfo { supplements, ..self }
    }

    /// Set the orientation.
    pub fn with_orientation(self, orientation: Orientation) -> (r: Self)
        ensures
            r == (ImageInfo { orientation, ..self }),
    {
        ImageInfo { orientation, ..self }
    }

    /// Set the source color description.
    pub fn with_source_color(self, source_color: SourceColor) -> (r: Self)
        ensures
            r == (ImageInfo { source_color, ..self }),
    {
        ImageInfo { source_color, ..self }
    }

    /// Set the embedded metadata.
    pub fn with_embedded_metadata(self, embedded_metadata: EmbeddedMetadata) -> (r: Self)
        ensures
            r == (ImageInfo { embedded_metadata, ..self }),
    {
        ImageInfo { embedded_metadata, ..self }
    }

    /// Set the bits per channel of the source.
    pub fn with_bit_depth(self, bit_depth: u8) -> (r: Self)
        ensures
            r == (ImageInfo { source_color: SourceColor { bit_depth: Some(bit_depth), ..self.source_color }, ..self }),
    {
        let source_color = SourceColor { bit_depth: Some(bit_depth), ..self.source_color };
        ImageInfo { source_color, ..self }
    }

    /// Set the channel count of the source.
    pub fn with_channel_count(self, channel_count: u8) -> (r: Self)
        ensures
            r == (ImageInfo {
                source_color: SourceColor { channel_count: Some(channel_count), ..self.source_color },
                ..self
            }),
    {
        let source_color = SourceColor { channel_count: Some(channel_count), ..self.source_color };
        ImageInfo { source_color, ..self }
    }

    /// Set the CICP description.
    pub fn with_cicp(self, cicp: Cicp) -> (r: Self)
        ensures
            r == (ImageInfo { source_color: SourceColor { cicp: Some(cicp), ..self.source_color }, ..self }),
    {
        let source_color = SourceColor { cicp: Some(cicp), ..self.source_color };
        ImageInfo { source_color, ..self }
    }

    /// Set the content light level.
    pub fn with_content_light_level(self, clli: ContentLightLevel) -> (r: Self)
        ensures
            r == (ImageInfo {
                source_color: SourceColor { content_light_level: Some(clli), ..self.source_color },
                ..self
            }),
    {
        let source_color = SourceColor { content_light_level: Some(clli), ..self.source_color };
        ImageInfo { source_color, ..self }
    }

    /// Set the mastering display color volume.
    pub fn with_mastering_display(self, mdcv: zenpixels::MasteringDisplay) -> (r: Self)
        ensures
            r == (ImageInfo {
                source_color: SourceColor { mastering_display: Some(mdcv), ..self.source_color },
                ..self
            }),
    {
        let source_color = SourceColor { mastering_display: Some(mdcv), ..self.source_color };
        ImageInfo { source_color, ..self }
    }

    /// Set the ICC profile.
    pub fn with_icc_profile(self, icc: Vec<u8>) -> (r: Self)
        ensures
            r == (ImageInfo { source_color: SourceColor { icc_profile: Some(icc), ..self.source_color }, ..self }),
    {
        let source_color = SourceColor { icc_profile: Some(icc), ..self.source_color };
        ImageInfo { source_color, ..self }
    }

    /// Set which color field is authoritative.
    pub fn with_color_authority(self, authority: ColorAuthority) -> (r: Self)
        ensures
            r == (ImageInfo {
                source_color: SourceColor { color_authority: authority, ..self.source_color },
                ..self
            }),
    {
        let source_color = SourceColor { color_authority: authority, ..self.source_color };
        ImageInfo { source_color, ..self }
    }

    /// Set the EXIF blob.
    pub fn with_exif(self, exif: Vec<u8>) -> (r: Self)
        ensures
            r == (ImageInfo {
                embedded_metadata: EmbeddedMetadata { exif: Some(exif), ..self.embedded_metadata },
                ..self
            }),
    {
        let embedded_metadata = EmbeddedMetadata { exif: Some(exif), ..self.embedded_metadata };
        ImageInfo { embedded_metadata, ..self }
    }

    /// Set the XMP blob.
    pub fn with_xmp(self, xmp: Vec<u8>) -> (r: Self)
        ensures
            r == (ImageInfo {
                embedded_metadata: EmbeddedMetadata { xmp: Some(xmp), ..self.embedded_metadata },
                ..self
            }),
    {
        let embedded_metadata = EmbeddedMetadata { xmp: Some(xmp), ..self.embedded_metadata };
        ImageInfo { embedded_metadata, ..self }
    }

    /// Add one warning after those already recorded.
    pub fn with_warning(self, msg: String) -> (r: Self)
        ensures
            r.warnings@ == self.warnings@.push(msg),
            r == (ImageInfo { warnings: r.warnings, ..self }),
    {
        let mut info = self;
        info.warnings.push(msg);
        info
    }

    /// Replace the warnings.
    pub fn with_warnings(self, msgs: Vec<String>) -> (r: Self)
        ensures
            r == (ImageInfo { warnings: msgs, ..self }),
    {
        ImageInfo { warnings: msgs, ..self }
    }

    /// The recorded warnings.
    pub fn warnings(&self) -> (r: &[String])
        ensures
            r@ == self.warnings@,
    {
        self.warnings.as_slice()
    }

    /// Whether any warning was recorded.
    pub fn has_warnings(&self) -> (r: bool)
        ensures
            r == (self.warnings@.len() > 0),
    {
        self.warnings.len() > 0
    }

    /// Whether the file holds an animation.
    pub fn is_animation(&self) -> (r: bool)
        ensures
            r == (self.sequence is Animation),
    {
        self.sequence.is_animation()
    }

    /// Whether the file holds several independent images.
    pub fn is_multi_image(&self) -> (r: bool)
        ensures
            r == (self.sequence is Multi),
    {
        self.sequence.is_multi()
    }

    /// Whether the file holds more than the primary image.
    pub fn has_additional_images(&self) -> (r: bool)
        ensures
            r == !(self.sequence is Single),
    {
        !matches!(self.sequence, ImageSequence::Single)
    }

    /// Frame or image count, if known.
    pub fn frame_count(&self) -> (r: Option<u32>)
        ensures
            r == sequence_count(self.sequence),
    {
        self.sequence.count()
    }

    /// Width once the orientation is applied: the stored height when the
    /// orientation swaps the axes.
    pub fn display_width(&self) -> (r: u32)
        ensures
            r == (if orientation_swaps_axes(self.orientation) { self.height } else { self.width }),
    {
        if self.orientation.swaps_axes() {
            self.height
        } else {
            self.width
        }
    }

    /// Height once the orientation is applied: the stored width when the
    /// orientation swaps the axes.
    pub fn display_height(&self) -> (r: u32)
        ensures
            r == (if orientation_swaps_axes(self.orientation) { self.width } else { self.height }),
    {
        if self.orientation.swaps_axes() {
            self.width
        } else {
            self.height
        }
    }

    /// Transfer function named by the CICP code points.
    pub fn transfer_function(&self) -> (r: TransferFunction)
        ensures
            r == match self.source_color.cicp {
                Some(c) => cicp_transfer(c),
                None => TransferFunction::Unknown,
            },
    {
        self.source_color.transfer_function()
    }

    /// Color primaries named by the CICP code points.
    pub fn color_primaries(&self) -> (r: ColorPrimaries)
        ensures
            r == match self.source_color.cicp {
                Some(c) => cicp_primaries(c),
                None => ColorPrimaries::Bt709,
            },
    {
        self.source_color.color_primaries()
    }

    /// The metadata to carry into an encode: color description, HDR
    /// metadata, EXIF and XMP blobs and orientation.
    pub fn metadata(&self) -> (r: Metadata)
        ensures
            blob_view(r.icc_profile) == blob_view(self.source_color.icc_profile),
            blob_view(r.exif) == blob_view(self.embedded_metadata.exif),
            blob_view(r.xmp) == blob_view(self.embedded_metadata.xmp),
            r.cicp == self.source_color.cicp,
            r.content_light_level == self.source_color.content_light_level,
            r.mastering_display == self.source_color.mastering_display,
            r.orientation == self.orientation,
    {
        Metadata {
            icc_profile: clone_blob(&self.source_color.icc_profile),
            exif: clone_blob(&self.embedded_metadata.exif),
            xmp: clone_blob(&self.embedded_metadata.xmp),
            cicp: self.source_color.cicp,
            content_light_level: self.source_color.content_light_level,
            mastering_display: self.source_color.mastering_display,
            orientation: self.orientation,
        }
    }
}

} // verus!
