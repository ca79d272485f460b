//! Pixel format descriptors: channel storage type, channel layout, alpha
//! interpretation and the color metadata that travels with pixel data.

use vstd::prelude::*;

verus! {

/// Storage type of one channel.
#[derive(Clone, Copy, Debug, PartialEq, Eq, Hash, Structural)]
pub enum ChannelType {
    /// 8-bit unsigned.
    U8,
    /// 16-bit unsigned.
    U16,
    /// 32-bit float.
    F32,
    /// 16-bit float.
    F16,
    /// 16-bit signed.
    I16,
}

/// Bytes per channel.
pub open spec fn channel_size(t: ChannelType) -> nat {
    match t {
        ChannelType::U8 => 1,
        ChannelType::U16 => 2,
        ChannelType::F32 => 4,
        ChannelType::F16 => 2,
        ChannelType::I16 => 2,
    }
}

impl ChannelType {
    /// Bytes per channel.
    pub fn byte_size(self) -> (r: usize)
        ensures
            r == channel_size(self),
    {
        match self {
            ChannelType::U8 => 1,
            ChannelType::U16 => 2,
            ChannelType::F32 => 4,
            ChannelType::F16 => 2,
            ChannelType::I16 => 2,
        }
    }
}

/// Order and meaning of the channels of one pixel.
#[derive(Clone, Copy, Debug, PartialEq, Eq, Hash, Structural)]
pub enum ChannelLayout {
    /// One gray channel.
    Gray,
    /// Gray then alpha.
    GrayAlpha,
    /// Red, green, blue.
    Rgb,
    /// Red, green, blue, alpha.
    Rgba,
    /// Blue, green, red, alpha.
    Bgra,
}

/// Channels per pixel.
pub open spec fn channel_count(l: ChannelLayout) -> nat {
    match l {
        ChannelLayout::Gray => 1,
        ChannelLayout::GrayAlpha => 2,
        ChannelLayout::Rgb => 3,
        ChannelLayout::Rgba => 4,
        ChannelLayout::Bgra => 4,
    }
}

/// Whether the layout carries an alpha channel.
pub open spec fn layout_has_alpha(l: ChannelLayout) -> bool {
    l == ChannelLayout::GrayAlpha || l == ChannelLayout::Rgba || l == ChannelLayout::Bgra
}

impl ChannelLayout {
    /// Channels per pixel.
    pub fn channels(self) -> (r: usize)
        ensures
            r == channel_count(self),
    {
        match self {
            ChannelLayout::Gray => 1,
            ChannelLayout::GrayAlpha => 2,
            ChannelLayout::Rgb => 3,
            ChannelLayout::Rgba => 4,
            ChannelLayout::Bgra => 4,
        }
    }

    /// Whether the layout carries an alpha channel.
    pub fn has_alpha(self) -> (r: bool)
        ensures
            r == layout_has_alpha(self),
    {
        matches!(self, ChannelLayout::GrayAlpha | ChannelLayout::Rgba | ChannelLayout::Bgra)
    }
}

/// How an alpha channel is to be interpreted.
#[derive(Clone, Copy, Debug, PartialEq, Eq, Hash, Structural)]
pub enum AlphaMode {
    /// Not specified.
    Undefined,
    /// Straight (unassociated) alpha.
    Straight,
    /// Premultiplied (associated) alpha.
    Premultiplied,
    /// Alpha channel present but always opaque.
    Opaque,
}

/// Transfer function of the encoded values.
#[derive(Clone, Copy, Debug, PartialEq, Eq, Hash, Structural)]
pub enum TransferFunction {
    /// Linear light.
    Linear,
    /// sRGB curve.
    Srgb,
    /// BT.709 curve.
    Bt709,
    /// SMPTE ST 2084 (PQ).
    Pq,
    /// Hybrid log-gamma.
    Hlg,
    /// Pure gamma 2.2.
    Gamma22,
    /// Not known.
    Unknown,
}

/// Color primaries of the encoded values.
#[derive(Clone, Copy, Debug, PartialEq, Eq, Hash, Structural)]
pub enum ColorPrimaries {
    /// BT.709 / sRGB.
    Bt709,
    /// BT.2020.
    Bt2020,
    /// Display P3.
    DisplayP3,
    /// Adobe RGB (1998).
    AdobeRgb,
    /// Not known.
    Unknown,
}

/// The transfer function of a CICP `transfer_characteristics` code.
pub open spec fn transfer_of_cicp(tc: u8) -> Option<TransferFunction> {
    if tc == 1 || tc == 6 || tc == 7 {
        Some(TransferFunction::Bt709)
    } else if tc == 8 {
        Some(TransferFunction::Linear)
    } else if tc == 13 {
        Some(TransferFunction::Srgb)
    } else if tc == 16 {
        Some(TransferFunction::Pq)
    } else if tc == 18 {
        Some(TransferFunction::Hlg)
    } else {
        None
    }
}

/// The color primaries of a CICP `color_primaries` code.
pub open spec fn primaries_of_cicp(cp: u8) -> Option<ColorPrimaries> {
    if cp == 1 {
        Some(ColorPrimaries::Bt709)
    } else if cp == 9 {
        Some(ColorPrimaries::Bt2020)
    } else if cp == 12 {
        Some(ColorPrimaries::DisplayP3)
    } else {
        None
    }
}

impl TransferFunction {
    /// Transfer function of a CICP `transfer_characteristics` code
    /// (6 and 7 use the BT.709 curve).
    pub fn from_cicp(tc: u8) -> (r: Option<TransferFunction>)
        ensures
            r == transfer_of_cicp(tc),
    {
        match tc {
            1 | 6 | 7 => Some(TransferFunction::Bt709),
            8 => Some(TransferFunction::Linear),
            13 => Some(TransferFunction::Srgb),
            16 => Some(TransferFunction::Pq),
            18 => Some(TransferFunction::Hlg),
            _ => None,
        }
    }
}

impl ColorPrimaries {
    /// Color primaries of a CICP `color_primaries` code.
    pub fn from_cicp(cp: u8) -> (r: Option<ColorPrimaries>)
        ensures
            r == primaries_of_cicp(cp),
    {
        match cp {
            1 => Some(ColorPrimaries::Bt709),
            9 => Some(ColorPrimaries::Bt2020),
            12 => Some(ColorPrimaries::DisplayP3),
            _ => None,
        }
    }
}

/// Signal range of integer samples.
#[derive(Clone, Copy, Debug, PartialEq, Eq, Hash, Structural)]
pub enum SignalRange {
    /// Full range.
    Full,
    /// Narrow (video) range.
    Narrow,
}

/// Complete description of a pixel format.
#[derive(Clone, Copy, Debug, PartialEq, Eq, Hash, Structural)]
pub struct PixelDescriptor {
    /// Channel storage type.
    pub channel_type: ChannelType,
    /// Channel layout.
    pub layout: ChannelLayout,
    /// Transfer function.
    pub transfer: TransferFunction,
    /// Color primaries.
    pub primaries: ColorPrimaries,
    /// Signal range.
    pub signal_range: SignalRange,
    /// Alpha interpretation, `None` when the layout has no alpha.
    pub alpha: Option<AlphaMode>,
}

/// Physical pixel format: channel storage type and layout, without the
/// color metadata.
#[derive(Clone, Copy, Debug, PartialEq, Eq, Hash, Structural)]
pub struct PixelFormat {
    /// Channel storage type.
    pub channel_type: ChannelType,
    /// Channel layout.
    pub layout: ChannelLayout,
}

/// The physical pixel format of a descriptor.
pub open spec fn format_of(d: PixelDescriptor) -> PixelFormat {
    PixelFormat { channel_type: d.channel_type, layout: d.layout }
}

/// Bytes per pixel of a descriptor.
pub open spec fn pixel_size(d: PixelDescriptor) -> nat {
    channel_size(d.channel_type) * channel_count(d.layout)
}

/// A descriptor with the given type and layout, unknown transfer, BT.709
/// primaries, full range, and straight alpha when the layout has alpha.
pub open spec fn basic_descriptor(t: ChannelType, l: ChannelLayout) -> PixelDescriptor {
    PixelDescriptor {
        channel_type: t,
        layout: l,
        transfer: TransferFunction::Unknown,
        primaries: ColorPrimaries::Bt709,
        signal_range: SignalRange::Full,
        alpha: if layout_has_alpha(l) { Some(AlphaMode::Straight) } else { None },
    }
}

impl PixelDescriptor {
    /// Descriptor with the given type and layout (see [`basic_descriptor`]).
    pub fn new(channel_type: ChannelType, layout: ChannelLayout) -> (r: Self)
        ensures
            r == basic_descriptor(channel_type, layout),
    {
        PixelDescriptor {
            channel_type,
            layout,
            transfer: TransferFunction::Unknown,
            primaries: ColorPrimaries::Bt709,
            signal_range: SignalRange::Full,
            alpha: if layout.has_alpha() { Some(AlphaMode::Straight) } else { None },
        }
    }

    /// 8-bit RGB.
    pub fn rgb8() -> (r: Self)
        ensures
            r == basic_descriptor(ChannelType::U8, ChannelLayout::Rgb),
    {
        Self::new(ChannelType::U8, ChannelLayout::Rgb)
    }

    /// 8-bit RGBA.
    pub fn rgba8() -> (r: Self)
        ensures
            r == basic_descriptor(ChannelType::U8, ChannelLayout::Rgba),
    {
        Self::new(ChannelType::U8, ChannelLayout::Rgba)
    }

    /// 16-bit RGBA.
    pub fn rgba16() -> (r: Self)
        ensures
            r == basic_descriptor(ChannelType::U16, ChannelLayout::Rgba),
    {
        Self::new(ChannelType::U16, ChannelLayout::Rgba)
    }

    /// 8-bit gray.
    pub fn gray8() -> (r: Self)
        ensures
            r == basic_descriptor(ChannelType::U8, ChannelLayout::Gray),
    {
        Self::new(ChannelType::U8, ChannelLayout::Gray)
    }

    /// 16-bit gray.
    pub fn gray16() -> (r: Self)
        ensures
            r == basic_descriptor(ChannelType::U16, ChannelLayout::Gray),
    {
        Self::new(ChannelType::U16, ChannelLayout::Gray)
    }

    /// 8-bit gray with alpha.
    pub fn graya8() -> (r: Self)
        ensures
            r == basic_descriptor(ChannelType::U8, ChannelLayout::GrayAlpha),
    {
        Self::new(ChannelType::U8, ChannelLayout::GrayAlpha)
    }

    /// 8-bit BGRA.
    pub fn bgra8() -> (r: Self)
        ensures
            r == basic_descriptor(ChannelType::U8, ChannelLayout::Bgra),
    {
        Self::new(ChannelType::U8, ChannelLayout::Bgra)
    }

    /// The physical pixel format (type and layout).
    pub fn pixel_format(&self) -> (r: PixelFormat)
        ensures
            r == format_of(*self),
    {
        PixelFormat { channel_type: self.channel_type, layout: self.layout }
    }

    /// Bytes per pixel.
    pub fn bytes_per_pixel(&self) -> (r: usize)
        ensures
            r == pixel_size(*self),
    {
        self.channel_type.byte_size() * self.layout.channels()
    }
}

} // verus!
