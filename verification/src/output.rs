//! The result of an encode (the bytes, their format, and the MIME type
//! and file extension to label them with) and of a decode (the pixels and
//! the image description).

use vstd::prelude::*;
use vstd::string::StringSliceAdditionalSpecFns;
use crate::buffer::{PixelBuffer, PixelSlice, PixelSliceView};
use crate::descriptor::{AlphaMode, PixelDescriptor, pixel_size};
use crate::format::{ImageFormat, extension_bytes, mime_type_spec};
use crate::info::{ImageInfo, blob_view};
use crate::metadata::Metadata;

verus! {

/// Output of an encode operation.
#[derive(Clone, Debug, PartialEq, Eq)]
pub struct EncodeOutput {
    data: Vec<u8>,
    format: ImageFormat,
    mime_type: &'static str,
    extension: &'static str,
}

/// What an [`EncodeOutput`] holds.
pub struct EncodeOutputView {
    /// The encoded bytes.
    pub data: Seq<u8>,
    /// The format used.
    pub format: ImageFormat,
    /// The MIME type label.
    pub mime_type: &'static str,
    /// The file extension label.
    pub extension: &'static str,
}

impl View for EncodeOutput {
    type V = EncodeOutputView;

    closed spec fn view(&self) -> EncodeOutputView {
        EncodeOutputView {
            data: self.data@,
            format: self.format,
            mime_type: self.mime_type,
            extension: self.extension,
        }
    }
}

impl EncodeOutput {
    /// Output with the format's primary MIME type and extension.
    pub fn new(data: Vec<u8>, format: ImageFormat) -> (r: Self)
        ensures
            r@.data == data@,
            r@.format == format,
            r@.mime_type@ == mime_type_spec(format),
            r@.extension.spec_bytes() == extension_bytes(format)[0],
    {
        let mime_type = format.mime_type();
        let extension = format.extension();
        EncodeOutput { data, format, mime_type, extension }
    }

    /// Replace the MIME type (e.g. `"image/apng"` for animated PNG).
    pub fn with_mime_type(self, mime_type: &'static str) -> (r: Self)
        ensures
            r@.mime_type == mime_type,
            r@.data == self@.data,
            r@.format == self@.format,
            r@.extension == self@.extension,
    {
        EncodeOutput { mime_type, ..self }
    }

    /// Replace the file extension (e.g. `"apng"`).
    pub fn with_extension(self, extension: &'static str) -> (r: Self)
        ensures
            r@.extension == extension,
            r@.data == self@.data,
            r@.format == self@.format,
            r@.mime_type == self@.mime_type,
    {
        EncodeOutput { extension, ..self }
    }

    /// The encoded bytes, by value.
    pub fn into_vec(self) -> (r: Vec<u8>)
        ensures
            r@ == self@.data,
    {
        self.data
    }

    /// The encoded bytes.
    pub fn data(&self) -> (r: &[u8])
        ensures
            r@ == self@.data,
    {
        self.data.as_slice()
    }

    /// Number of encoded bytes.
    pub fn len(&self) -> (r: usize)
        ensures
            r == self@.data.len(),
    {
        self.data.len()
    }

    /// Whether there are no encoded bytes.
    pub fn is_empty(&self) -> (r: bool)
        ensures
            r == (self@.data.len() == 0),
    {
        self.data.len() == 0
    }

    /// The format used.
    pub fn format(&self) -> (r: ImageFormat)
        ensures
            r == self@.format,
    {
        self.format
    }

    /// The MIME type label.
    pub fn mime_type(&self) -> (r: &'static str)
        ensures
            r == self@.mime_type,
    {
        self.mime_type
    }

    /// The file extension label.
    pub fn extension(&self) -> (r: &'static str)
        ensures
            r == self@.extension,
    {
        self.extension
    }
}

/// Whether a descriptor declares an alpha channel that carries values
/// (straight, premultiplied or opaque).
pub open spec fn descriptor_has_alpha(d: PixelDescriptor) -> bool {
    d.alpha matches Some(m) && !(m is Undefined)
}

/// Output of a decode operation: the decoded pixels and what probing
/// the file told about it.
#[derive(Clone, Debug)]
pub struct DecodeOutput {
    pixels: PixelBuffer,
    info: ImageInfo,
}

impl DecodeOutput {
    /// The decoded pixel buffer.
    pub closed spec fn buffer_spec(&self) -> PixelBuffer {
        self.pixels
    }

    /// The image description.
    pub closed spec fn info_spec(&self) -> ImageInfo {
        self.info
    }

    /// Pair decoded pixels with the image description.
    pub fn new(pixels: PixelBuffer, info: ImageInfo) -> (r: Self)
        ensures
            r.buffer_spec() == pixels,
            r.info_spec() == info,
    {
        DecodeOutput { pixels, info }
    }

    /// Borrow the pixels as a slice with packed rows.
    pub fn pixels(&self) -> (r: PixelSlice<'_>)
        requires
            self.buffer_spec().wf(),
            self.buffer_spec()@.width * pixel_size(self.buffer_spec()@.descriptor) <= usize::MAX,
        ensures
            r.wf(),
            r@ == (PixelSliceView {
                data: self.buffer_spec()@.data,
                width: self.buffer_spec()@.width,
                rows: self.buffer_spec()@.height,
                stride: self.buffer_spec()@.width * pixel_size(self.buffer_spec()@.descriptor),
                descriptor: self.buffer_spec()@.descriptor,
                working_space: self.buffer_spec()@.working_space,
                color_context: self.buffer_spec()@.color_context,
            }),
    {
        self.pixels.as_slice()
    }

    /// Take the pixel buffer.
    pub fn into_buffer(self) -> (r: PixelBuffer)
        ensures
            r == self.buffer_spec(),
    {
        self.pixels
    }

    /// The image description.
    pub fn info(&self) -> (r: &ImageInfo)
        ensures
            *r == self.info_spec(),
    {
        &self.info
    }

    /// Width of the decoded pixels.
    pub fn width(&self) -> (r: u32)
        ensures
            r == self.buffer_spec()@.width,
    {
        self.pixels.width()
    }

    /// Height of the decoded pixels.
    pub fn height(&self) -> (r: u32)
        ensures
            r == self.buffer_spec()@.height,
    {
        self.pixels.height()
    }

    /// Pixel format of the decoded pixels.
    pub fn descriptor(&self) -> (r: PixelDescriptor)
        ensures
            r == self.buffer_spec()@.descriptor,
    {
        self.pixels.descriptor()
    }

    /// Whether the decoded pixels carry alpha values.
    pub fn has_alpha(&self) -> (r: bool)
        ensures
            r == descriptor_has_alpha(self.buffer_spec()@.descriptor),
    {
        match self.pixels.descriptor().alpha {
            Some(AlphaMode::Undefined) => false,
            Some(_) => true,
            None => false,
        }
    }

    /// The detected format.
    pub fn format(&self) -> (r: ImageFormat)
        ensures
            r == self.info_spec().format,
    {
        self.info.format
    }

    /// The metadata to carry into an encode.
    pub fn metadata(&self) -> (r: Metadata)
        ensures
            blob_view(r.icc_profile) == blob_view(self.info_spec().source_color.icc_profile),
            blob_view(r.exif) == blob_view(self.info_spec().embedded_metadata.exif),
            blob_view(r.xmp) == blob_view(self.info_spec().embedded_metadata.xmp),
            r.cicp == self.info_spec().source_color.cicp,
            r.content_light_level == self.info_spec().source_color.content_light_level,
            r.mastering_display == self.info_spec().source_color.mastering_display,
            r.orientation == self.info_spec().orientation,
    {
        self.info.metadata()
    }
}

} // verus!
