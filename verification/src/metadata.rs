//! Owned image metadata carried from decode to encode: ICC, EXIF and XMP
//! blobs, CICP, HDR descriptors and orientation.

use vstd::prelude::*;
use crate::descriptor::{ColorPrimaries, TransferFunction};
use crate::helpers::exif::{rd16, rd32, read16, read32};
use crate::info::{Cicp, ContentLightLevel, cicp_primaries, cicp_transfer};
use crate::orientation::{Orientation, orientation_of_code};

verus! {

/// Lenient scan of IFD entries `i..n` from `start`: the first entry with
/// the orientation tag and an inline value in 1 to 8 decides; an entry or
/// value that runs past the data ends the scan.
pub open spec fn scan_entries_lenient(t: Seq<u8>, big_endian: bool, start: int, i: nat, n: nat) -> Option<Orientation>
    decreases n - i,
{
    if i >= n {
        None
    } else {
        let off = start + 12 * i;
        if off + 2 > t.len() {
            None
        } else if read16(t, off, big_endian) == 0x0112 {
            if off + 10 > t.len() {
                None
            } else if 1 <= read16(t, off + 8, big_endian) <= 8 {
                orientation_of_code(read16(t, off + 8, big_endian))
            } else {
                scan_entries_lenient(t, big_endian, start, i + 1, n)
            }
        } else {
            scan_entries_lenient(t, big_endian, start, i + 1, n)
        }
    }
}

/// Orientation recorded in a TIFF/EXIF blob (`II*\0` or `MM\0*` header),
/// read leniently: no `Exif` prefix, no entry cap, no type check.
pub open spec fn blob_orientation(t: Seq<u8>) -> Option<Orientation> {
    if t.len() < 8 {
        None
    } else {
        let le = t[0] == 0x49u8 && t[1] == 0x49u8 && t[2] == 0x2Au8 && t[3] == 0u8;
        let be = t[0] == 0x4Du8 && t[1] == 0x4Du8 && t[2] == 0u8 && t[3] == 0x2Au8;
        if !le && !be {
            None
        } else {
            let ifd0 = read32(t, 4, be);
            if ifd0 + 2 > t.len() {
                None
            } else {
                scan_entries_lenient(t, be, ifd0 + 2, 0, read16(t, ifd0, be) as nat)
            }
        }
    }
}

/// Parse the EXIF Orientation tag (0x0112) from a TIFF/EXIF blob,
/// returning the first valid value found in IFD0.
pub fn parse_exif_orientation(blob: &[u8]) -> (r: Option<Orientation>)
    ensures
        r == blob_orientation(blob@),
{
    let len = blob.len();
    if len < 8 {
        return None;
    }
    let be = if blob[0] == 0x49 && blob[1] == 0x49 && blob[2] == 0x2A && blob[3] == 0 {
        false
    } else if blob[0] == 0x4D && blob[1] == 0x4D && blob[2] == 0 && blob[3] == 0x2A {
        true
    } else {
        return None;
    };
    let ifd0 = rd32(blob, 4, be) as usize;
    if ifd0 > len || len - ifd0 < 2 {
        return None;
    }
    let n = rd16(blob, ifd0, be) as usize;
    let start = ifd0 + 2;
    let remaining = len - start;
    let ghost t = blob@;
    let ghost full = blob_orientation(blob@);
    assert(full == scan_entries_lenient(t, be, start as int, 0, n as nat));
    let mut i: usize = 0;
    while i < n
        invariant
            t == blob@,
            full == blob_orientation(blob@),
            len == t.len(),
            start + remaining == len,
            n <= 65535,
            i <= n,
            scan_entries_lenient(t, be, start as int, i as nat, n as nat) == full,
        decreases n - i,
    {
        if 12 * i + 2 > remaining {
            return None;
        }
        let off = start + 12 * i;
        if rd16(blob, off, be) == 0x0112 {
            if 12 * i + 10 > remaining {
                return None;
            }
            let value = rd16(blob, off + 8, be);
            if value > 0 && value <= 8 {
                return Orientation::from_exif(value as u8);
            }
        }
        i = i + 1;
    }
    None
}

/// Orientation after attaching an EXIF blob: the blob's orientation
/// replaces the current one only when the current one is identity.
pub open spec fn orientation_after_exif(current: Orientation, exif: Seq<u8>) -> Orientation {
    if current == Orientation::Identity {
        match blob_orientation(exif) {
            Some(o) => o,
            None => current,
        }
    } else {
        current
    }
}

/// Owned image metadata.
#[derive(Clone, Debug, PartialEq)]
pub struct Metadata {
    /// ICC color profile.
    pub icc_profile: Option<Vec<u8>>,
    /// EXIF blob.
    pub exif: Option<Vec<u8>>,
    /// XMP blob.
    pub xmp: Option<Vec<u8>>,
    /// CICP color description.
    pub cicp: Option<Cicp>,
    /// Content light level, for HDR content.
    pub content_light_level: Option<ContentLightLevel>,
    /// Mastering display color volume, for HDR content.
    pub mastering_display: Option<zenpixels::MasteringDisplay>,
    /// EXIF orientation.
    pub orientation: Orientation,
}

/// Whether metadata holds nothing: no blob, no color or HDR description,
/// identity orientation.
pub open spec fn metadata_is_empty(m: Metadata) -> bool {
    &&& m.icc_profile is None
    &&& m.exif is None
    &&& m.xmp is None
    &&& m.cicp is None
    &&& m.content_light_level is None
    &&& m.mastering_display is None
    &&& m.orientation == Orientation::Identity
}

impl Default for Metadata {
    fn default() -> (r: Self)
        ensures
            metadata_is_empty(r),
    {
        Metadata {
            icc_profile: None,
            exif: None,
            xmp: None,
            cicp: None,
            content_light_level: None,
            mastering_display: None,
            orientation: Orientation::Identity,
        }
    }
}

impl Metadata {
    /// Empty metadata.
    pub fn none() -> (r: Self)
        ensures
            metadata_is_empty(r),
    {
        Metadata::default()
    }

    /// Set the ICC profile.
    pub fn with_icc(self, icc: Vec<u8>) -> (r: Self)
        ensures
            r == (Metadata { icc_profile: Some(icc), ..self }),
    {
        Metadata { icc_profile: Some(icc), ..self }
    }

    /// Set the EXIF blob. Its orientation tag, if it holds a valid one,
    /// becomes the orientation, but only when the orientation is still
    /// identity: an orientation set before keeps its value.
    pub fn with_exif(self, exif: Vec<u8>) -> (r: Self)
        ensures
            r == (Metadata { exif: Some(exif), orientation: orientation_after_exif(self.orientation, exif@), ..self }),
    {
        let mut orientation = self.orientation;
        if orientation == Orientation::Identity {
            if let Some(o) = parse_exif_orientation(exif.as_slice()) {
                orientation = o;
            }
        }
        Metadata { exif: Some(exif), orientation, ..self }
    }

    /// Set the XMP blob.
    pub fn with_xmp(self, xmp: Vec<u8>) -> (r: Self)
        ensures
            r == (Metadata { xmp: Some(xmp), ..self }),
    {
        Metadata { xmp: Some(xmp), ..self }
    }

    /// Set the CICP description.
    pub fn with_cicp(self, cicp: Cicp) -> (r: Self)
        ensures
            r == (Metadata { cicp: Some(cicp), ..self }),
    {
        Metadata { cicp: Some(cicp), ..self }
    }

    /// Set the content light level.
    pub fn with_content_light_level(self, clli: ContentLightLevel) -> (r: Self)
        ensures
            r == (Metadata { content_light_level: Some(clli), ..self }),
    {
        Metadata { content_light_level: Some(clli), ..self }
    }

    /// Set the mastering display color volume.
    pub fn with_mastering_display(self, mdcv: zenpixels::MasteringDisplay) -> (r: Self)
        ensures
            r == (Metadata { mastering_display: Some(mdcv), ..self }),
    {
        Metadata { mastering_display: Some(mdcv), ..self }
    }

    /// Set the orientation.
    pub fn with_orientation(self, orientation: Orientation) -> (r: Self)
        ensures
            r == (Metadata { orientation, ..self }),
    {
        Metadata { orientation, ..self }
    }

    /// Whether no metadata is present.
    pub fn is_empty(&self) -> (r: bool)
        ensures
            r == metadata_is_empty(*self),
    {
        self.icc_profile.is_none() && self.exif.is_none() && self.xmp.is_none() && self.cicp.is_none()
            && self.content_light_level.is_none() && self.mastering_display.is_none()
            && self.orientation == Orientation::Identity
    }

    /// Transfer function named by the CICP code points; `Unknown` when
    /// there are none or the code is unrecognised.
    pub fn transfer_function(&self) -> (r: TransferFunction)
        ensures
            r == match self.cicp {
                Some(c) => cicp_transfer(c),
                None => TransferFunction::Unknown,
            },
    {
        match self.cicp {
            Some(c) => c.transfer_function_enum(),
            None => TransferFunction::Unknown,
        }
    }

    /// Color primaries named by the CICP code points; BT.709 when there
    /// are none.
    pub fn color_primaries(&self) -> (r: ColorPrimaries)
        ensures
            r == match self.cicp {
                Some(c) => cicp_primaries(c),
                None => ColorPrimaries::Bt709,
            },
    {
        match self.cicp {
            Some(c) => c.color_primaries_enum(),
            None => ColorPrimaries::Bt709,
        }
    }
}

/// An orientation set explicitly (anything but identity) survives a later
/// EXIF blob, and one set after the blob replaces whatever the blob gave.
pub proof fn lemma_explicit_orientation_wins(o: Orientation, exif: Seq<u8>)
    ensures
        o != Orientation::Identity ==> orientation_after_exif(o, exif) == o,
        orientation_after_exif(Orientation::Identity, exif) == match blob_orientation(exif) {
            Some(p) => p,
            None => Orientation::Identity,
        },
{
}

} // verus!
