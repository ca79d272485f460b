//! Codec capability descriptors and the operations a codec may lack.

use vstd::prelude::*;
use vstd::string::StringExecFns;

verus! {

/// Identifies an operation that a codec does not support.
#[derive(Clone, Copy, Debug, PartialEq, Eq, Hash, Structural)]
pub enum UnsupportedOperation {
    /// Row-level encode (`push_rows()` + `finish()`).
    RowLevelEncode,
    /// Pull-from-source encode (`encode_from()`).
    PullEncode,
    /// Animation encoding.
    AnimationEncode,
    /// Decoding into a caller buffer (`decode_into()`).
    DecodeInto,
    /// Row-level decode.
    RowLevelDecode,
    /// Animation decoding.
    AnimationDecode,
    /// A specific pixel format.
    PixelFormat,
}

/// Short name of each operation.
pub open spec fn op_name_spec(op: UnsupportedOperation) -> Seq<char> {
    match op {
        UnsupportedOperation::RowLevelEncode => "row_level_encode"@,
        UnsupportedOperation::PullEncode => "pull_encode"@,
        UnsupportedOperation::AnimationEncode => "animation_encode"@,
        UnsupportedOperation::DecodeInto => "decode_into"@,
        UnsupportedOperation::RowLevelDecode => "row_level_decode"@,
        UnsupportedOperation::AnimationDecode => "animation_decode"@,
        UnsupportedOperation::PixelFormat => "pixel_format"@,
    }
}

impl UnsupportedOperation {
    /// Short name for the operation (suitable for error messages).
    pub fn name(self) -> (r: &'static str)
        ensures
            r@ == op_name_spec(self),
    {
        match self {
            UnsupportedOperation::RowLevelEncode => "row_level_encode",
            UnsupportedOperation::PullEncode => "pull_encode",
            UnsupportedOperation::AnimationEncode => "animation_encode",
            UnsupportedOperation::DecodeInto => "decode_into",
            UnsupportedOperation::RowLevelDecode => "row_level_decode",
            UnsupportedOperation::AnimationDecode => "animation_decode",
            UnsupportedOperation::PixelFormat => "pixel_format",
        }
    }

    /// The error message: `unsupported operation: ` followed by the name.
    pub fn message(self) -> (r: String)
        ensures
            r@ == "unsupported operation: "@ + op_name_spec(self),
    {
        let mut s = String::from_str("unsupported operation: ");
        s.append(self.name());
        s
    }
}

/// Describes what a decoder supports.
#[derive(Debug)]
pub struct DecodeCapabilities {
    icc: bool,
    exif: bool,
    xmp: bool,
    cicp: bool,
    cancel: bool,
    animation: bool,
    cheap_probe: bool,
    decode_into: bool,
    row_level: bool,
    hdr: bool,
    native_gray: bool,
    native_16bit: bool,
    native_f32: bool,
    native_alpha: bool,
    enforces_max_pixels: bool,
    enforces_max_memory: bool,
    enforces_max_input_bytes: bool,
    threads_supported_range: (u16, u16),
}

/// Abstract view of [`DecodeCapabilities`]: every flag and the thread range.
#[derive(Clone, Copy, Debug, PartialEq, Eq)]
pub struct DecodeCapabilitiesView {
    pub icc: bool,
    pub exif: bool,
    pub xmp: bool,
    pub cicp: bool,
    pub cancel: bool,
    pub animation: bool,
    pub cheap_probe: bool,
    pub decode_into: bool,
    pub row_level: bool,
    pub hdr: bool,
    pub native_gray: bool,
    pub native_16bit: bool,
    pub native_f32: bool,
    pub native_alpha: bool,
    pub enforces_max_pixels: bool,
    pub enforces_max_memory: bool,
    pub enforces_max_input_bytes: bool,
    pub threads_supported_range: (u16, u16),
}

impl View for DecodeCapabilities {
    type V = DecodeCapabilitiesView;

    closed spec fn view(&self) -> DecodeCapabilitiesView {
        DecodeCapabilitiesView {
            icc: self.icc,
            exif: self.exif,
            xmp: self.xmp,
            cicp: self.cicp,
            cancel: self.cancel,
            animation: self.animation,
            cheap_probe: self.cheap_probe,
            decode_into: self.decode_into,
            row_level: self.row_level,
            hdr: self.hdr,
            native_gray: self.native_gray,
            native_16bit: self.native_16bit,
            native_f32: self.native_f32,
            native_alpha: self.native_alpha,
            enforces_max_pixels: self.enforces_max_pixels,
            enforces_max_memory: self.enforces_max_memory,
            enforces_max_input_bytes: self.enforces_max_input_bytes,
            threads_supported_range: self.threads_supported_range,
        }
    }
}

impl DecodeCapabilities {
    /// Everything disabled, single-threaded.
    pub fn new() -> (r: Self)
        ensures
            r@ == empty_decode_capabilities(),
    {
        Self {
            icc: false,
            exif: false,
            xmp: false,
            cicp: false,
            cancel: false,
            animation: false,
            cheap_probe: false,
            decode_into: false,
            row_level: false,
            hdr: false,
            native_gray: false,
            native_16bit: false,
            native_f32: false,
            native_alpha: false,
            enforces_max_pixels: false,
            enforces_max_memory: false,
            enforces_max_input_bytes: false,
            threads_supported_range: (1, 1),
        }
    }

    /// Whether the decoder extracts ICC color profiles.
    pub fn icc(&self) -> (r: bool)
        ensures
            r == self@.icc,
    {
        self.icc
    }

    /// Whether the decoder extracts EXIF data.
    pub fn exif(&self) -> (r: bool)
        ensures
            r == self@.exif,
    {
        self.exif
    }

    /// Whether the decoder extracts XMP data.
    pub fn xmp(&self) -> (r: bool)
        ensures
            r == self@.xmp,
    {
        self.xmp
    }

    /// Whether the decoder extracts CICP color descriptions.
    pub fn cicp(&self) -> (r: bool)
        ensures
            r == self@.cicp,
    {
        self.cicp
    }

    /// Whether `with_stop` on decode jobs is respected.
    pub fn cancel(&self) -> (r: bool)
        ensures
            r == self@.cancel,
    {
        self.cancel
    }

    /// Whether the codec supports decoding animation.
    pub fn animation(&self) -> (r: bool)
        ensures
            r == self@.animation,
    {
        self.animation
    }

    /// Whether `probe()` is cheap (header parse only).
    pub fn cheap_probe(&self) -> (r: bool)
        ensures
            r == self@.cheap_probe,
    {
        self.cheap_probe
    }

    /// Whether `decode_into()` is implemented.
    pub fn decode_into(&self) -> (r: bool)
        ensures
            r == self@.decode_into,
    {
        self.decode_into
    }

    /// Whether streaming row-level decode works.
    pub fn row_level(&self) -> (r: bool)
        ensures
            r == self@.row_level,
    {
        self.row_level
    }

    /// Whether the codec supports HDR content.
    pub fn hdr(&self) -> (r: bool)
        ensures
            r == self@.hdr,
    {
        self.hdr
    }

    /// Whether the codec supports grayscale natively.
    pub fn native_gray(&self) -> (r: bool)
        ensures
            r == self@.native_gray,
    {
        self.native_gray
    }

    /// Whether the codec supports 16-bit per channel natively.
    pub fn native_16bit(&self) -> (r: bool)
        ensures
            r == self@.native_16bit,
    {
        self.native_16bit
    }

    /// Whether the codec handles f32 pixel data natively.
    pub fn native_f32(&self) -> (r: bool)
        ensures
            r == self@.native_f32,
    {
        self.native_f32
    }

    /// Whether the codec handles an alpha channel natively.
    pub fn native_alpha(&self) -> (r: bool)
        ensures
            r == self@.native_alpha,
    {
        self.native_alpha
    }

    /// Whether the codec enforces `max_pixels` limits.
    pub fn enforces_max_pixels(&self) -> (r: bool)
        ensures
            r == self@.enforces_max_pixels,
    {
        self.enforces_max_pixels
    }

    /// Whether the codec enforces `max_memory_bytes` limits.
    pub fn enforces_max_memory(&self) -> (r: bool)
        ensures
            r == self@.enforces_max_memory,
    {
        self.enforces_max_memory
    }

    /// Whether the codec enforces `max_input_bytes` limits.
    pub fn enforces_max_input_bytes(&self) -> (r: bool)
        ensures
            r == self@.enforces_max_input_bytes,
    {
        self.enforces_max_input_bytes
    }

    /// Supported thread count range `(min, max)`.
    pub fn threads_supported_range(&self) -> (r: (u16, u16))
        ensures
            r == self@.threads_supported_range,
    {
        self.threads_supported_range
    }

    /// Whether this decoder supports `op`: the flag of the decode operation
    /// it names, and `false` for encode operations and pixel formats.
    pub fn supports(&self, op: UnsupportedOperation) -> (r: bool)
        ensures
            r == decode_supports_spec(self@, op),
    {
        match op {
            UnsupportedOperation::DecodeInto => self.decode_into,
            UnsupportedOperation::RowLevelDecode => self.row_level,
            UnsupportedOperation::AnimationDecode => self.animation,
            UnsupportedOperation::RowLevelEncode
            | UnsupportedOperation::PullEncode
            | UnsupportedOperation::AnimationEncode
            | UnsupportedOperation::PixelFormat => false,
        }
    }

    /// Set the `icc` flag; every other field is kept.
    pub fn with_icc(self, v: bool) -> (r: Self)
        ensures
            r@ == (DecodeCapabilitiesView { icc: v, ..self@ }),
    {
        let mut s = self;
        s.icc = v;
        s
    }

    /// Set the `exif` flag; every other field is kept.
    pub fn with_exif(self, v: bool) -> (r: Self)
        ensures
            r@ == (DecodeCapabilitiesView { exif: v, ..self@ }),
    {
        let mut s = self;
        s.exif = v;
        s
    }

    /// Set the `xmp` flag; every other field is kept.
    pub fn with_xmp(self, v: bool) -> (r: Self)
        ensures
            r@ == (DecodeCapabilitiesView { xmp: v, ..self@ }),
    {
        let mut s = self;
        s.xmp = v;
        s
    }

    /// Set the `cicp` flag; every other field is kept.
    pub fn with_cicp(self, v: bool) -> (r: Self)
        ensures
            r@ == (DecodeCapabilitiesView { cicp: v, ..self@ }),
    {
        let mut s = self;
        s.cicp = v;
        s
    }

    /// Set the `cancel` flag; every other field is kept.
    pub fn with_cancel(self, v: bool) -> (r: Self)
        ensures
            r@ == (DecodeCapabilitiesView { cancel: v, ..self@ }),
    {
        let mut s = self;
        s.cancel = v;
        s
    }

    /// Set the `animation` flag; every other field is kept.
    pub fn with_animation(self, v: bool) -> (r: Self)
        ensures
            r@ == (DecodeCapabilitiesView { animation: v, ..self@ }),
    {
        let mut s = self;
        s.animation = v;
        s
    }

    /// Set the `cheap_probe` flag; every other field is kept.
    pub fn with_cheap_probe(self, v: bool) -> (r: Self)
        ensures
            r@ == (DecodeCapabilitiesView { cheap_probe: v, ..self@ }),
    {
        let mut s = self;
        s.cheap_probe = v;
        s
    }

    /// Set the `decode_into` flag; every other field is kept.
    pub fn with_decode_into(self, v: bool) -> (r: Self)
        ensures
            r@ == (DecodeCapabilitiesView { decode_into: v, ..self@ }),
    {
        let mut s = self;
        s.decode_into = v;
        s
    }

    /// Set the `row_level` flag; every other field is kept.
    pub fn with_row_level(self, v: bool) -> (r: Self)
        ensures
            r@ == (DecodeCapabilitiesView { row_level: v, ..self@ }),
    {
        let mut s = self;
        s.row_level = v;
        s
    }

    /// Set the `hdr` flag; every other field is kept.
    pub fn with_hdr(self, v: bool) -> (r: Self)
        ensures
            r@ == (DecodeCapabilitiesView { hdr: v, ..self@ }),
    {
        let mut s = self;
        s.hdr = v;
        s
    }

    /// Set the `native_gray` flag; every other field is kept.
    pub fn with_native_gray(self, v: bool) -> (r: Self)
        ensures
            r@ == (DecodeCapabilitiesView { native_gray: v, ..self@ }),
    {
        let mut s = self;
        s.native_gray = v;
        s
    }

    /// Set the `native_16bit` flag; every other field is kept.
    pub fn with_native_16bit(self, v: bool) -> (r: Self)
        ensures
            r@ == (DecodeCapabilitiesView { native_16bit: v, ..self@ }),
    {
        let mut s = self;
        s.native_16bit = v;
        s
    }

    /// Set the `native_f32` flag; every other field is kept.
    pub fn with_native_f32(self, v: bool) -> (r: Self)
        ensures
            r@ == (DecodeCapabilitiesView { native_f32: v, ..self@ }),
    {
        let mut s = self;
        s.native_f32 = v;
        s
    }

    /// Set the `native_alpha` flag; every other field is kept.
    pub fn with_native_alpha(self, v: bool) -> (r: Self)
        ensures
            r@ == (DecodeCapabilitiesView { native_alpha: v, ..self@ }),
    {
        let mut s = self;
        s.native_alpha = v;
        s
    }

    /// Set the `enforces_max_pixels` flag; every other field is kept.
    pub fn with_enforces_max_pixels(self, v: bool) -> (r: Self)
        ensures
            r@ == (DecodeCapabilitiesView { enforces_max_pixels: v, ..self@ }),
    {
        let mut s = self;
        s.enforces_max_pixels = v;
        s
    }

    /// Set the `enforces_max_memory` flag; every other field is kept.
    pub fn with_enforces_max_memory(self, v: bool) -> (r: Self)
        ensures
            r@ == (DecodeCapabilitiesView { enforces_max_memory: v, ..self@ }),
    {
        let mut s = self;
        s.enforces_max_memory = v;
        s
    }

    /// Set the `enforces_max_input_bytes` flag; every other field is kept.
    pub fn with_enforces_max_input_bytes(self, v: bool) -> (r: Self)
        ensures
            r@ == (DecodeCapabilitiesView { enforces_max_input_bytes: v, ..self@ }),
    {
        let mut s = self;
        s.enforces_max_input_bytes = v;
        s
    }

    /// Set the supported thread count range; every other field is kept.
    pub fn with_threads_supported_range(self, min: u16, max: u16) -> (r: Self)
        ensures
            r@ == (DecodeCapabilitiesView { threads_supported_range: (min, max), ..self@ }),
    {
        let mut s = self;
        s.threads_supported_range = (min, max);
        s
    }
}

impl Default for DecodeCapabilities {
    fn default() -> (r: Self)
        ensures
            r@ == empty_decode_capabilities(),
    {
        Self::new()
    }
}

/// The all-disabled, single-threaded capability set.
pub open spec fn empty_decode_capabilities() -> DecodeCapabilitiesView {
    DecodeCapabilitiesView {
        icc: false,
        exif: false,
        xmp: false,
        cicp: false,
        cancel: false,
        animation: false,
        cheap_probe: false,
        decode_into: false,
        row_level: false,
        hdr: false,
        native_gray: false,
        native_16bit: false,
        native_f32: false,
        native_alpha: false,
        enforces_max_pixels: false,
        enforces_max_memory: false,
        enforces_max_input_bytes: false,
        threads_supported_range: (1u16, 1u16),
    }
}

/// A decoder supports an operation exactly when the flag that names it is
/// set; the empty capability set supports nothing.
pub open spec fn decode_supports_spec(c: DecodeCapabilitiesView, op: UnsupportedOperation) -> bool {
    match op {
        UnsupportedOperation::DecodeInto => c.decode_into,
        UnsupportedOperation::RowLevelDecode => c.row_level,
        UnsupportedOperation::AnimationDecode => c.animation,
        _ => false,
    }
}

/// The empty capability set supports no operation, and setting the flag of
/// a decode operation makes it supported.
pub proof fn lemma_empty_supports_nothing(op: UnsupportedOperation, c: DecodeCapabilitiesView)
    ensures
        !decode_supports_spec(empty_decode_capabilities(), op),
        decode_supports_spec(DecodeCapabilitiesView { decode_into: true, ..c }, UnsupportedOperation::DecodeInto),
        decode_supports_spec(DecodeCapabilitiesView { row_level: true, ..c }, UnsupportedOperation::RowLevelDecode),
        decode_supports_spec(DecodeCapabilitiesView { animation: true, ..c }, UnsupportedOperation::AnimationDecode),
{
}


/// Describes what an encoder supports. The quality range, a pair of
/// `f32` values on the 0 to 100 scale, is held as the two values' bit
/// patterns (`f32::to_bits`).
#[derive(Debug)]
pub struct EncodeCapabilities {
    icc: bool,
    exif: bool,
    xmp: bool,
    cicp: bool,
    cancel: bool,
    animation: bool,
    row_level: bool,
    pull: bool,
    lossy: bool,
    lossless: bool,
    hdr: bool,
    native_gray: bool,
    native_16bit: bool,
    native_f32: bool,
    native_alpha: bool,
    enforces_max_pixels: bool,
    enforces_max_memory: bool,
    effort_range: Option<[i32; 2]>,
    quality_range_bits: Option<[u32; 2]>,
    threads_supported_range: (u16, u16),
}

/// Abstract view of [`EncodeCapabilities`].
#[derive(Clone, Copy, Debug, PartialEq, Eq)]
pub struct EncodeCapabilitiesView {
    pub icc: bool,
    pub exif: bool,
    pub xmp: bool,
    pub cicp: bool,
    pub cancel: bool,
    pub animation: bool,
    pub row_level: bool,
    pub pull: bool,
    pub lossy: bool,
    pub lossless: bool,
    pub hdr: bool,
    pub native_gray: bool,
    pub native_16bit: bool,
    pub native_f32: bool,
    pub native_alpha: bool,
    pub enforces_max_pixels: bool,
    pub enforces_max_memory: bool,
    pub effort_range: Option<[i32; 2]>,
    pub quality_range_bits: Option<[u32; 2]>,
    pub threads_supported_range: (u16, u16),
}

impl View for EncodeCapabilities {
    type V = EncodeCapabilitiesView;

    closed spec fn view(&self) -> EncodeCapabilitiesView {
        EncodeCapabilitiesView {
            icc: self.icc,
            exif: self.exif,
            xmp: self.xmp,
            cicp: self.cicp,
            cancel: self.cancel,
            animation: self.animation,
            row_level: self.row_level,
            pull: self.pull,
            lossy: self.lossy,
            lossless: self.lossless,
            hdr: self.hdr,
            native_gray: self.native_gray,
            native_16bit: self.native_16bit,
            native_f32: self.native_f32,
            native_alpha: self.native_alpha,
            enforces_max_pixels: self.enforces_max_pixels,
            enforces_max_memory: self.enforces_max_memory,
            effort_range: self.effort_range,
            quality_range_bits: self.quality_range_bits,
            threads_supported_range: self.threads_supported_range,
        }
    }
}

/// The all-disabled, single-threaded encoder capability set.
pub open spec fn empty_encode_capabilities() -> EncodeCapabilitiesView {
    EncodeCapabilitiesView {
        icc: false,
        exif: false,
        xmp: false,
        cicp: false,
        cancel: false,
        animation: false,
        row_level: false,
        pull: false,
        lossy: false,
        lossless: false,
        hdr: false,
        native_gray: false,
        native_16bit: false,
        native_f32: false,
        native_alpha: false,
        enforces_max_pixels: false,
        enforces_max_memory: false,
        effort_range: None,
        quality_range_bits: None,
        threads_supported_range: (1, 1),
    }
}

/// Whether an encoder supports `op`: the flag of the encode operation it
/// names; never a decode operation or a pixel format.
pub open spec fn encode_supports_spec(c: EncodeCapabilitiesView, op: UnsupportedOperation) -> bool {
    match op {
        UnsupportedOperation::RowLevelEncode => c.row_level,
        UnsupportedOperation::PullEncode => c.pull,
        UnsupportedOperation::AnimationEncode => c.animation,
        _ => false,
    }
}

impl EncodeCapabilities {
    /// Everything disabled, single-threaded.
    pub fn new() -> (r: Self)
        ensures
            r@ == empty_encode_capabilities(),
    {
        EncodeCapabilities {
            icc: false,
            exif: false,
            xmp: false,
            cicp: false,
            cancel: false,
            animation: false,
            row_level: false,
            pull: false,
            lossy: false,
            lossless: false,
            hdr: false,
            native_gray: false,
            native_16bit: false,
            native_f32: false,
            native_alpha: false,
            enforces_max_pixels: false,
            enforces_max_memory: false,
            effort_range: None,
            quality_range_bits: None,
            threads_supported_range: (1, 1),
        }
    }

    /// Whether the encoder embeds ICC color profiles.
    pub fn icc(&self) -> (r: bool)
        ensures
            r == self@.icc,
    {
        self.icc
    }

    /// Whether the encoder embeds EXIF data.
    pub fn exif(&self) -> (r: bool)
        ensures
            r == self@.exif,
    {
        self.exif
    }

    /// Whether the encoder embeds XMP data.
    pub fn xmp(&self) -> (r: bool)
        ensures
            r == self@.xmp,
    {
        self.xmp
    }

    /// Whether the encoder embeds the CICP color description.
    pub fn cicp(&self) -> (r: bool)
        ensures
            r == self@.cicp,
    {
        self.cicp
    }

    /// Whether a stop token on encode jobs is respected.
    pub fn cancel(&self) -> (r: bool)
        ensures
            r == self@.cancel,
    {
        self.cancel
    }

    /// Whether the codec encodes animation.
    pub fn animation(&self) -> (r: bool)
        ensures
            r == self@.animation,
    {
        self.animation
    }

    /// Whether row-level encode (`push_rows()` / `finish()`) works.
    pub fn row_level(&self) -> (r: bool)
        ensures
            r == self@.row_level,
    {
        self.row_level
    }

    /// Whether pull-from-source encode (`encode_from()`) works.
    pub fn pull(&self) -> (r: bool)
        ensures
            r == self@.pull,
    {
        self.pull
    }

    /// Whether the codec supports lossy encoding.
    pub fn lossy(&self) -> (r: bool)
        ensures
            r == self@.lossy,
    {
        self.lossy
    }

    /// Whether the codec supports lossless encoding.
    pub fn lossless(&self) -> (r: bool)
        ensures
            r == self@.lossless,
    {
        self.lossless
    }

    /// Whether the codec supports HDR content.
    pub fn hdr(&self) -> (r: bool)
        ensures
            r == self@.hdr,
    {
        self.hdr
    }

    /// Whether the codec supports grayscale natively.
    pub fn native_gray(&self) -> (r: bool)
        ensures
            r == self@.native_gray,
    {
        self.native_gray
    }

    /// Whether the codec supports 16 bits per channel natively.
    pub fn native_16bit(&self) -> (r: bool)
        ensures
            r == self@.native_16bit,
    {
        self.native_16bit
    }

    /// Whether the codec handles f32 pixel data natively.
    pub fn native_f32(&self) -> (r: bool)
        ensures
            r == self@.native_f32,
    {
        self.native_f32
    }

    /// Whether the codec handles an alpha channel natively.
    pub fn native_alpha(&self) -> (r: bool)
        ensures
            r == self@.native_alpha,
    {
        self.native_alpha
    }

    /// Whether the codec enforces `max_pixels` limits.
    pub fn enforces_max_pixels(&self) -> (r: bool)
        ensures
            r == self@.enforces_max_pixels,
    {
        self.enforces_max_pixels
    }

    /// Whether the codec enforces `max_memory_bytes` limits.
    pub fn enforces_max_memory(&self) -> (r: bool)
        ensures
            r == self@.enforces_max_memory,
    {
        self.enforces_max_memory
    }

    /// Meaningful effort range `[min, max]`; `None` without effort tuning.
    pub fn effort_range(&self) -> (r: Option<[i32; 2]>)
        ensures
            r == self@.effort_range,
    {
        self.effort_range
    }

    /// Bit patterns of the meaningful quality range `[min, max]`; `None`
    /// for a lossless-only codec.
    pub fn quality_range_bits(&self) -> (r: Option<[u32; 2]>)
        ensures
            r == self@.quality_range_bits,
    {
        self.quality_range_bits
    }

    /// Supported thread count range `(min, max)`.
    pub fn threads_supported_range(&self) -> (r: (u16, u16))
        ensures
            r == self@.threads_supported_range,
    {
        self.threads_supported_range
    }

    /// Whether this encoder supports `op`: the flag of the encode operation
    /// it names, and `false` for decode operations and pixel formats.
    pub fn supports(&self, op: UnsupportedOperation) -> (r: bool)
        ensures
            r == encode_supports_spec(self@, op),
    {
        match op {
            UnsupportedOperation::RowLevelEncode => self.row_level,
            UnsupportedOperation::PullEncode => self.pull,
            UnsupportedOperation::AnimationEncode => self.animation,
            UnsupportedOperation::DecodeInto
            | UnsupportedOperation::RowLevelDecode
            | UnsupportedOperation::AnimationDecode
            | UnsupportedOperation::PixelFormat => false,
        }
    }

    /// Set the `icc` flag.
    pub fn with_icc(self, v: bool) -> (r: Self)
        ensures
            r@ == (EncodeCapabilitiesView { icc: v, ..self@ }),
    {
        let mut s = self;
        s.icc = v;
        s
    }

    /// Set the `exif` flag.
    pub fn with_exif(self, v: bool) -> (r: Self)
        ensures
            r@ == (EncodeCapabilitiesView { exif: v, ..self@ }),
    {
        let mut s = self;
        s.exif = v;
        s
    }

    /// Set the `xmp` flag.
    pub fn with_xmp(self, v: bool) -> (r: Self)
        ensures
            r@ == (EncodeCapabilitiesView { xmp: v, ..self@ }),
    {
        let mut s = self;
        s.xmp = v;
        s
    }

    /// Set the `cicp` flag.
    pub fn with_cicp(self, v: bool) -> (r: Self)
        ensures
            r@ == (EncodeCapabilitiesView { cicp: v, ..self@ }),
    {
        let mut s = self;
        s.cicp = v;
        s
    }

    /// Set the `cancel` flag.
    pub fn with_cancel(self, v: bool) -> (r: Self)
        ensures
            r@ == (EncodeCapabilitiesView { cancel: v, ..self@ }),
    {
        let mut s = self;
        s.cancel = v;
        s
    }

    /// Set the `animation` flag.
    pub fn with_animation(self, v: bool) -> (r: Self)
        ensures
            r@ == (EncodeCapabilitiesView { animation: v, ..self@ }),
    {
        let mut s = self;
        s.animation = v;
        s
    }

    /// Set the `row_level` flag.
    pub fn with_row_level(self, v: bool) -> (r: Self)
        ensures
            r@ == (EncodeCapabilitiesView { row_level: v, ..self@ }),
    {
        let mut s = self;
        s.row_level = v;
        s
    }

    /// Set the `pull` flag.
    pub fn with_pull(self, v: bool) -> (r: Self)
        ensures
            r@ == (EncodeCapabilitiesView { pull: v, ..self@ }),
    {
        let mut s = self;
        s.pull = v;
        s
    }

    /// Set the `lossy` flag.
    pub fn with_lossy(self, v: bool) -> (r: Self)
        ensures
            r@ == (EncodeCapabilitiesView { lossy: v, ..self@ }),
    {
        let mut s = self;
        s.lossy = v;
        s
    }

    /// Set the `lossless` flag.
    pub fn with_lossless(self, v: bool) -> (r: Self)
        ensures
            r@ == (EncodeCapabilitiesView { lossless: v, ..self@ }),
    {
        let mut s = self;
        s.lossless = v;
        s
    }

    /// Set the `hdr` flag.
    pub fn with_hdr(self, v: bool) -> (r: Self)
        ensures
            r@ == (EncodeCapabilitiesView { hdr: v, ..self@ }),
    {
        let mut s = self;
        s.hdr = v;
        s
    }

    /// Set the `native_gray` flag.
    pub fn with_native_gray(self, v: bool) -> (r: Self)
        ensures
            r@ == (EncodeCapabilitiesView { native_gray: v, ..self@ }),
    {
        let mut s = self;
        s.native_gray = v;
        s
    }

    /// Set the `native_16bit` flag.
    pub fn with_native_16bit(self, v: bool) -> (r: Self)
        ensures
            r@ == (EncodeCapabilitiesView { native_16bit: v, ..self@ }),
    {
        let mut s = self;
        s.native_16bit = v;
        s
    }

    /// Set the `native_f32` flag.
    pub fn with_native_f32(self, v: bool) -> (r: Self)
        ensures
            r@ == (EncodeCapabilitiesView { native_f32: v, ..self@ }),
    {
        let mut s = self;
        s.native_f32 = v;
        s
    }

    /// Set the `native_alpha` flag.
    pub fn with_native_alpha(self, v: bool) -> (r: Self)
        ensures
            r@ == (EncodeCapabilitiesView { native_alpha: v, ..self@ }),
    {
        let mut s = self;
        s.native_alpha = v;
        s
    }

    /// Set the `enforces_max_pixels` flag.
    pub fn with_enforces_max_pixels(self, v: bool) -> (r: Self)
        ensures
            r@ == (EncodeCapabilitiesView { enforces_max_pixels: v, ..self@ }),
    {
        let mut s = self;
        s.enforces_max_pixels = v;
        s
    }

    /// Set the `enforces_max_memory` flag.
    pub fn with_enforces_max_memory(self, v: bool) -> (r: Self)
        ensures
            r@ == (EncodeCapabilitiesView { enforces_max_memory: v, ..self@ }),
    {
        let mut s = self;
        s.enforces_max_memory = v;
        s
    }

    /// Set the meaningful effort range `[min, max]`.
    pub fn with_effort_range(self, min: i32, max: i32) -> (r: Self)
        ensures
            r@ == (EncodeCapabilitiesView { effort_range: Some([min, max]), ..self@ }),
    {
        let mut s = self;
        s.effort_range = Some([min, max]);
        s
    }

    /// Set the meaningful quality range from the bit patterns of its
    /// bounds.
    pub fn with_quality_range_bits(self, min_bits: u32, max_bits: u32) -> (r: Self)
        ensures
            r@ == (EncodeCapabilitiesView { quality_range_bits: Some([min_bits, max_bits]), ..self@ }),
    {
        let mut s = self;
        s.quality_range_bits = Some([min_bits, max_bits]);
        s
    }

    /// Set the supported thread count range.
    pub fn with_threads_supported_range(self, min: u16, max: u16) -> (r: Self)
        ensures
            r@ == (EncodeCapabilitiesView { threads_supported_range: (min, max), ..self@ }),
    {
        let mut s = self;
        s.threads_supported_range = (min, max);
        s
    }
}

impl Default for EncodeCapabilities {
    fn default() -> (r: Self)
        ensures
            r@ == empty_encode_capabilities(),
    {
        Self::new()
    }
}

/// An encoder with no capabilities supports no operation.
pub proof fn lemma_empty_encoder_supports_nothing(op: UnsupportedOperation)
    ensures
        !encode_supports_spec(empty_encode_capabilities(), op),
{
}

/// An encoder never claims a decode operation or a pixel format,
/// whatever its flags.
pub proof fn lemma_encoder_never_supports_decode_ops(c: EncodeCapabilitiesView)
    ensures
        !encode_supports_spec(c, UnsupportedOperation::DecodeInto),
        !encode_supports_spec(c, UnsupportedOperation::RowLevelDecode),
        !encode_supports_spec(c, UnsupportedOperation::AnimationDecode),
        !encode_supports_spec(c, UnsupportedOperation::PixelFormat),
{
}

} // verus!
