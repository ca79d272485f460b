//! Prediction of what a decode will produce: output dimensions, native
//! pixel format, and the orientation and crop the decoder applies.

use vstd::prelude::*;
use crate::descriptor::{PixelDescriptor, layout_has_alpha, pixel_size};
use crate::orientation::Orientation;

verus! {

/// Predicted output of a decode operation.
#[derive(Clone, Copy, Debug, PartialEq, Eq)]
pub struct OutputInfo {
    /// Output width in pixels.
    pub width: u32,
    /// Output height in pixels.
    pub height: u32,
    /// Pixel format the decoder produces natively.
    pub native_format: PixelDescriptor,
    /// Whether the output has an alpha channel.
    pub has_alpha: bool,
    /// Orientation the decoder applies itself (identity: none).
    pub orientation_applied: Orientation,
    /// Crop the decoder applies, `[x, y, width, height]` in source
    /// coordinates.
    pub crop_applied: Option<[u32; 4]>,
}

impl OutputInfo {
    /// Output of a plain full-frame decode: alpha as the format says, no
    /// orientation or crop applied.
    pub fn full_decode(width: u32, height: u32, native_format: PixelDescriptor) -> (r: Self)
        ensures
            r.width == width,
            r.height == height,
            r.native_format == native_format,
            r.has_alpha == layout_has_alpha(native_format.layout),
            r.orientation_applied == Orientation::Identity,
            r.crop_applied is None,
    {
        OutputInfo {
            width,
            height,
            native_format,
            has_alpha: native_format.layout.has_alpha(),
            orientation_applied: Orientation::Identity,
            crop_applied: None,
        }
    }

    /// Set whether the output has alpha.
    pub fn with_alpha(self, has_alpha: bool) -> (r: Self)
        ensures
            r == (OutputInfo { has_alpha, ..self }),
    {
        OutputInfo { has_alpha, ..self }
    }

    /// Set the orientation the decoder applies.
    pub fn with_orientation_applied(self, o: Orientation) -> (r: Self)
        ensures
            r == (OutputInfo { orientation_applied: o, ..self }),
    {
        OutputInfo { orientation_applied: o, ..self }
    }

    /// Set the crop the decoder applies.
    pub fn with_crop_applied(self, rect: [u32; 4]) -> (r: Self)
        ensures
            r.crop_applied == Some(rect),
            r.width == self.width,
            r.height == self.height,
            r.native_format == self.native_format,
            r.has_alpha == self.has_alpha,
            r.orientation_applied == self.orientation_applied,
    {
        OutputInfo { crop_applied: Some(rect), ..self }
    }

    /// Bytes of an unpadded buffer in the native format:
    /// `width * height * bytes_per_pixel`.
    pub fn buffer_size(&self) -> (r: u64)
        requires
            self.width * self.height * pixel_size(self.native_format) <= u64::MAX,
        ensures
            r == self.width * self.height * pixel_size(self.native_format),
    {
        let bpp = self.native_format.bytes_per_pixel();
        assert(bpp <= 16) by {
            assert(pixel_size(self.native_format) <= 16);
        }
        let pixels = self.pixel_count();
        assert(pixels * (bpp as u64) <= u64::MAX);
        pixels * bpp as u64
    }

    /// Number of pixels, `width * height`.
    pub fn pixel_count(&self) -> (r: u64)
        ensures
            r == self.width * self.height,
    {
        assert((self.width as u64) * (self.height as u64) <= u64::MAX) by (nonlinear_arith)
            requires
                self.width <= u32::MAX,
                self.height <= u32::MAX,
        ;
        self.width as u64 * self.height as u64
    }
}

} // verus!
