//! Borrowed and owned pixel storage with a format descriptor.

use vstd::prelude::*;
use std::sync::Arc;
use crate::color::{WorkingColorSpace, share_color_context};
use crate::descriptor::{PixelDescriptor, pixel_size};

verus! {

/// Why a pixel slice could not be built over some bytes.
#[derive(Clone, Copy, Debug, PartialEq, Eq, Hash, Structural)]
pub enum BufferError {
    /// Data slice is too small for the given dimensions and stride.
    InsufficientData,
    /// Stride is smaller than `width * bytes_per_pixel`.
    StrideTooSmall,
    /// Stride is not a multiple of `bytes_per_pixel`.
    StrideNotPixelAligned,
    /// Width, rows or stride overflow the address space.
    InvalidDimensions,
}

/// Abstract view of a pixel slice.
pub struct PixelSliceView {
    /// The bytes the slice spans.
    pub data: Seq<u8>,
    /// Width in pixels.
    pub width: nat,
    /// Number of rows.
    pub rows: nat,
    /// Bytes from the start of one row to the start of the next.
    pub stride: nat,
    /// Pixel format.
    pub descriptor: PixelDescriptor,
    /// Color space the pixel values are held in.
    pub working_space: WorkingColorSpace,
    /// Color metadata that travels with the pixels, if any.
    pub color_context: Option<Arc<zenpixels::ColorContext>>,
}

/// A well-formed slice: rows are at least a packed row apart and every row
/// lies within the data.
pub open spec fn slice_wf(s: PixelSliceView) -> bool {
    &&& s.stride >= s.width * pixel_size(s.descriptor)
    &&& (s.rows > 0 ==> (s.rows - 1) * s.stride + s.width * pixel_size(s.descriptor) <= s.data.len())
}

/// Outcome of building a slice over `len` bytes.
pub open spec fn slice_check(len: nat, width: nat, rows: nat, stride: nat, d: PixelDescriptor) -> Result<(), BufferError> {
    let bpp = pixel_size(d);
    if width * bpp > usize::MAX {
        Err(BufferError::InvalidDimensions)
    } else if stride < width * bpp {
        Err(BufferError::StrideTooSmall)
    } else if stride % bpp != 0 {
        Err(BufferError::StrideNotPixelAligned)
    } else if rows > 0 && (rows - 1) * stride + width * bpp > usize::MAX {
        Err(BufferError::InvalidDimensions)
    } else if rows > 0 && len < (rows - 1) * stride + width * bpp {
        Err(BufferError::InsufficientData)
    } else {
        Ok(())
    }
}

/// A borrowed, strided view of pixel rows.
#[derive(Clone, Debug)]
pub struct PixelSlice<'a> {
    data: &'a [u8],
    width: u32,
    rows: u32,
    stride: usize,
    descriptor: PixelDescriptor,
    working_space: WorkingColorSpace,
    color_context: Option<Arc<zenpixels::ColorContext>>,
}

impl<'a> View for PixelSlice<'a> {
    type V = PixelSliceView;

    closed spec fn view(&self) -> PixelSliceView {
        PixelSliceView {
            data: self.data@,
            width: self.width as nat,
            rows: self.rows as nat,
            stride: self.stride as nat,
            descriptor: self.descriptor,
            working_space: self.working_space,
            color_context: self.color_context,
        }
    }
}

impl<'a> PixelSlice<'a> {
    /// Internal consistency of the slice.
    pub open spec fn wf(&self) -> bool {
        slice_wf(self@)
    }

    /// View `data` as `rows` rows of `width` pixels, `stride` bytes apart.
    pub fn new(data: &'a [u8], width: u32, rows: u32, stride: usize, descriptor: PixelDescriptor) -> (r: Result<
        Self,
        BufferError,
    >)
        ensures
            match r {
                Ok(s) => slice_check(data@.len(), width as nat, rows as nat, stride as nat, descriptor) is Ok
                    && s.wf() && s@ == (PixelSliceView {
                    data: data@,
                    width: width as nat,
                    rows: rows as nat,
                    stride: stride as nat,
                    descriptor,
                    working_space: WorkingColorSpace::Native,
                    color_context: None,
                }),
                Err(e) => slice_check(data@.len(), width as nat, rows as nat, stride as nat, descriptor) == Err::<(), BufferError>(e),
            },
    {
        let bpp = descriptor.bytes_per_pixel();
        proof {
            assert(bpp >= 1 && bpp <= 16) by {
                assert(pixel_size(descriptor) >= 1 && pixel_size(descriptor) <= 16) by (nonlinear_arith)
                    requires
                        pixel_size(descriptor) == crate::descriptor::channel_size(descriptor.channel_type)
                            * crate::descriptor::channel_count(descriptor.layout),
                        1 <= crate::descriptor::channel_size(descriptor.channel_type) <= 4,
                        1 <= crate::descriptor::channel_count(descriptor.layout) <= 4,
                ;
            }
        }
        let min_stride = match (width as usize).checked_mul(bpp) {
            Some(m) => m,
            None => return Err(BufferError::InvalidDimensions),
        };
        if stride < min_stride {
            return Err(BufferError::StrideTooSmall);
        }
        if stride % bpp != 0 {
            return Err(BufferError::StrideNotPixelAligned);
        }
        if rows > 0 {
            let preceding = match (rows as usize - 1).checked_mul(stride) {
                Some(p) => p,
                None => {
                    proof {
                        assert((rows - 1) * stride + width * bpp > usize::MAX) by (nonlinear_arith)
                            requires
                                (rows - 1) * stride > usize::MAX,
                                width * bpp >= 0,
                        ;
                    }
                    return Err(BufferError::InvalidDimensions);
                },
            };
            let required = match preceding.checked_add(min_stride) {
                Some(q) => q,
                None => return Err(BufferError::InvalidDimensions),
            };
            if data.len() < required {
                return Err(BufferError::InsufficientData);
            }
        }
        Ok(PixelSlice { data, width, rows, stride, descriptor, working_space: WorkingColorSpace::Native, color_context: None })
    }

    /// Width in pixels.
    pub fn width(&self) -> (r: u32)
        ensures
            r == self@.width,
    {
        self.width
    }

    /// Number of rows.
    pub fn rows(&self) -> (r: u32)
        ensures
            r == self@.rows,
    {
        self.rows
    }

    /// Bytes between row starts.
    pub fn stride(&self) -> (r: usize)
        ensures
            r == self@.stride,
    {
        self.stride
    }

    /// Pixel format.
    pub fn descriptor(&self) -> (r: PixelDescriptor)
        ensures
            r == self@.descriptor,
    {
        self.descriptor
    }

    /// The underlying bytes.
    pub fn data(&self) -> (r: &'a [u8])
        ensures
            r@ == self@.data,
    {
        self.data
    }

    /// Color space the pixel values are held in.
    pub fn working_space(&self) -> (r: WorkingColorSpace)
        ensures
            r == self@.working_space,
    {
        self.working_space
    }

    /// The same slice, tagged with another working color space.
    pub fn with_working_space(self, working_space: WorkingColorSpace) -> (r: Self)
        ensures
            r@ == (PixelSliceView { working_space, ..self@ }),
    {
        PixelSlice { working_space, ..self }
    }

    /// Color metadata that travels with the pixels, if any.
    pub fn color_context(&self) -> (r: Option<&Arc<zenpixels::ColorContext>>)
        ensures
            match r {
                Some(c) => self@.color_context == Some(*c),
                None => self@.color_context is None,
            },
    {
        self.color_context.as_ref()
    }

    /// The same slice, carrying the given color metadata.
    pub fn with_color_context(self, ctx: Arc<zenpixels::ColorContext>) -> (r: Self)
        ensures
            r@ == (PixelSliceView { color_context: Some(ctx), ..self@ }),
    {
        PixelSlice { color_context: Some(ctx), ..self }
    }
}

/// Abstract view of an owned, tightly packed pixel buffer.
pub struct PixelBufferView {
    /// Packed pixel bytes, row after row.
    pub data: Seq<u8>,
    /// Width in pixels.
    pub width: nat,
    /// Height in rows.
    pub height: nat,
    /// Pixel format.
    pub descriptor: PixelDescriptor,
    /// Color space the pixel values are held in.
    pub working_space: WorkingColorSpace,
    /// Color metadata that travels with the pixels, if any.
    pub color_context: Option<Arc<zenpixels::ColorContext>>,
}

/// Owned pixel storage, rows packed with no padding.
#[derive(Clone, Debug, PartialEq, Eq)]
pub struct PixelBuffer {
    data: Vec<u8>,
    width: u32,
    height: u32,
    descriptor: PixelDescriptor,
    working_space: WorkingColorSpace,
    color_context: Option<Arc<zenpixels::ColorContext>>,
}

impl View for PixelBuffer {
    type V = PixelBufferView;

    closed spec fn view(&self) -> PixelBufferView {
        PixelBufferView {
            data: self.data@,
            width: self.width as nat,
            height: self.height as nat,
            descriptor: self.descriptor,
            working_space: self.working_space,
            color_context: self.color_context,
        }
    }
}

/// Packed storage holds exactly `width * height` pixels.
pub open spec fn buffer_wf(b: PixelBufferView) -> bool {
    b.data.len() == b.width * b.height * pixel_size(b.descriptor)
}

impl PixelBuffer {
    /// Internal consistency of the buffer.
    pub open spec fn wf(&self) -> bool {
        buffer_wf(self@)
    }

    /// Wrap packed bytes that hold `width * height` pixels.
    pub fn from_packed(data: Vec<u8>, width: u32, height: u32, descriptor: PixelDescriptor) -> (r: Self)
        requires
            data@.len() == width * height * pixel_size(descriptor),
        ensures
            r.wf(),
            r@ == (PixelBufferView {
                data: data@,
                width: width as nat,
                height: height as nat,
                descriptor,
                working_space: WorkingColorSpace::Native,
                color_context: None,
            }),
    {
        PixelBuffer { data, width, height, descriptor, working_space: WorkingColorSpace::Native, color_context: None }
    }

    /// Color space the pixel values are held in.
    pub fn working_space(&self) -> (r: WorkingColorSpace)
        ensures
            r == self@.working_space,
    {
        self.working_space
    }

    /// The same buffer, tagged with another working color space.
    pub fn with_working_space(self, working_space: WorkingColorSpace) -> (r: Self)
        ensures
            r@ == (PixelBufferView { working_space, ..self@ }),
    {
        PixelBuffer { working_space, ..self }
    }

    /// Color metadata that travels with the pixels, if any.
    pub fn color_context(&self) -> (r: Option<&Arc<zenpixels::ColorContext>>)
        ensures
            match r {
                Some(c) => self@.color_context == Some(*c),
                None => self@.color_context is None,
            },
    {
        self.color_context.as_ref()
    }

    /// The same buffer, carrying the given color metadata.
    pub fn with_color_context(self, ctx: Arc<zenpixels::ColorContext>) -> (r: Self)
        ensures
            r@ == (PixelBufferView { color_context: Some(ctx), ..self@ }),
    {
        PixelBuffer { color_context: Some(ctx), ..self }
    }

    /// Width in pixels.
    pub fn width(&self) -> (r: u32)
        ensures
            r == self@.width,
    {
        self.width
    }

    /// Height in rows.
    pub fn height(&self) -> (r: u32)
        ensures
            r == self@.height,
    {
        self.height
    }

    /// Pixel format.
    pub fn descriptor(&self) -> (r: PixelDescriptor)
        ensures
            r == self@.descriptor,
    {
        self.descriptor
    }

    /// The packed bytes (always contiguous for this buffer).
    pub fn as_contiguous_bytes(&self) -> (r: Option<&[u8]>)
        ensures
            r is Some && r.unwrap()@ == self@.data,
    {
        Some(self.data.as_slice())
    }

    /// Borrow as a slice with stride equal to the packed row size.
    pub fn as_slice(&self) -> (r: PixelSlice<'_>)
        requires
            self.wf(),
            self@.width * pixel_size(self@.descriptor) <= usize::MAX,
        ensures
            r.wf(),
            r@ == (PixelSliceView {
                data: self@.data,
                width: self@.width,
                rows: self@.height,
                stride: self@.width * pixel_size(self@.descriptor),
                descriptor: self@.descriptor,
                working_space: self@.working_space,
                color_context: self@.color_context,
            }),
    {
        let stride = (self.width as usize) * self.descriptor.bytes_per_pixel();
        proof {
            let w = self.width as int;
            let h = self.height as int;
            let b = pixel_size(self.descriptor) as int;
            if h > 0 {
                assert((h - 1) * (w * b) + w * b == w * h * b) by (nonlinear_arith);
            }
        }
        let color_context = match &self.color_context {
            Some(c) => Some(share_color_context(c)),
            None => None,
        };
        PixelSlice {
            data: self.data.as_slice(),
            width: self.width,
            rows: self.height,
            stride,
            descriptor: self.descriptor,
            working_space: self.working_space,
            color_context,
        }
    }

    /// Consume and return the packed bytes.
    pub fn into_vec(self) -> (r: Vec<u8>)
        ensures
            r@ == self@.data,
    {
        self.data
    }
}

} // verus!
