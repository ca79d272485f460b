//! EXIF orientation and the decoder-side policy for handling it.

use vstd::prelude::*;

verus! {

/// The eight EXIF orientations (tag values 1 to 8).
#[derive(Clone, Copy, Debug, PartialEq, Eq, Hash, Structural)]
pub enum Orientation {
    /// No transformation. EXIF 1.
    Identity,
    /// Mirror left-right. EXIF 2.
    FlipH,
    /// 180° rotation. EXIF 3.
    Rotate180,
    /// Mirror top-bottom. EXIF 4.
    FlipV,
    /// Reflect over the main diagonal. EXIF 5.
    Transpose,
    /// 90° clockwise. EXIF 6.
    Rotate90,
    /// Reflect over the anti-diagonal. EXIF 7.
    Transverse,
    /// 270° clockwise. EXIF 8.
    Rotate270,
}

/// The orientation of an EXIF tag value, `None` outside 1 to 8.
pub open spec fn orientation_of_code(v: int) -> Option<Orientation> {
    if v == 1 {
        Some(Orientation::Identity)
    } else if v == 2 {
        Some(Orientation::FlipH)
    } else if v == 3 {
        Some(Orientation::Rotate180)
    } else if v == 4 {
        Some(Orientation::FlipV)
    } else if v == 5 {
        Some(Orientation::Transpose)
    } else if v == 6 {
        Some(Orientation::Rotate90)
    } else if v == 7 {
        Some(Orientation::Transverse)
    } else if v == 8 {
        Some(Orientation::Rotate270)
    } else {
        None
    }
}

impl Orientation {
    /// Orientation from an EXIF tag value; `None` outside 1 to 8.
    pub fn from_exif(value: u8) -> (r: Option<Orientation>)
        ensures
            r == orientation_of_code(value as int),
    {
        match value {
            1 => Some(Orientation::Identity),
            2 => Some(Orientation::FlipH),
            3 => Some(Orientation::Rotate180),
            4 => Some(Orientation::FlipV),
            5 => Some(Orientation::Transpose),
            6 => Some(Orientation::Rotate90),
            7 => Some(Orientation::Transverse),
            8 => Some(Orientation::Rotate270),
            _ => None,
        }
    }
}

/// Whether an orientation swaps width and height: the four that involve
/// a quarter turn (EXIF 5 to 8).
pub open spec fn orientation_swaps_axes(o: Orientation) -> bool {
    o is Transpose || o is Rotate90 || o is Transverse || o is Rotate270
}

impl Orientation {
    /// Whether this orientation swaps width and height.
    pub fn swaps_axes(self) -> (r: bool)
        ensures
            r == orientation_swaps_axes(self),
    {
        matches!(self, Orientation::Transpose | Orientation::Rotate90 | Orientation::Transverse | Orientation::Rotate270)
    }
}

impl Default for Orientation {
    fn default() -> (r: Self)
        ensures
            r == Orientation::Identity,
    {
        Orientation::Identity
    }
}

/// How a decoder should handle orientation.
#[derive(Clone, Copy, Debug, PartialEq, Eq, Hash, Structural)]
pub enum OrientationHint {
    /// Leave orientation alone and report the intrinsic one.
    Preserve,
    /// Resolve the stored orientation to identity.
    Correct,
    /// Resolve the stored orientation, then apply this transform.
    CorrectAndTransform(Orientation),
    /// Ignore the stored orientation and apply exactly this transform.
    ExactTransform(Orientation),
}

impl Default for OrientationHint {
    fn default() -> (r: Self)
        ensures
            r == OrientationHint::Preserve,
    {
        OrientationHint::Preserve
    }
}

} // verus!
