//! Gain map metadata (ISO 21496-1): rational fractions, the SDR/HDR
//! direction, and the binary framing of the metadata in its two wire
//! forms (with a leading version byte for AVIF `tmap` / JXL `jhgm` boxes,
//! without it for JPEG APP2).
//!
//! The library parses and writes the metadata at the level of its
//! rational fractions; conversion to and from floating point happens
//! outside.

use vstd::prelude::*;

verus! {

/// Signed fraction of the binary format (gain min/max and offsets).
#[derive(Clone, Copy, Debug, PartialEq, Eq, Hash, Structural)]
pub struct Fraction {
    /// Signed numerator.
    pub numerator: i32,
    /// Denominator (0 is invalid).
    pub denominator: u32,
}

impl Fraction {
    /// Whether the denominator is non-zero.
    pub fn is_valid(&self) -> (r: bool)
        ensures
            r == (self.denominator != 0),
    {
        self.denominator != 0
    }
}

impl Default for Fraction {
    fn default() -> (r: Self)
        ensures
            r.numerator == 0,
            r.denominator == 0,
    {
        Fraction { numerator: 0, denominator: 0 }
    }
}

/// Unsigned fraction of the binary format (headroom and gamma).
#[derive(Clone, Copy, Debug, PartialEq, Eq, Hash, Structural)]
pub struct UFraction {
    /// Numerator.
    pub numerator: u32,
    /// Denominator (0 is invalid).
    pub denominator: u32,
}

impl UFraction {
    /// Whether the denominator is non-zero.
    pub fn is_valid(&self) -> (r: bool)
        ensures
            r == (self.denominator != 0),
    {
        self.denominator != 0
    }
}

impl Default for UFraction {
    fn default() -> (r: Self)
        ensures
            r.numerator == 0,
            r.denominator == 0,
    {
        UFraction { numerator: 0, denominator: 0 }
    }
}

/// Whether the base image is SDR or HDR.
#[derive(Clone, Copy, Debug, PartialEq, Eq, Hash, Structural)]
pub enum GainMapDirection {
    /// Base is SDR, alternate is HDR.
    BaseIsSdr,
    /// Base is HDR, alternate is SDR.
    BaseIsHdr,
}

/// The fraction fields of the format, named in errors.
#[derive(Clone, Copy, Debug, PartialEq, Eq, Hash, Structural)]
pub enum FractionField {
    /// Base image HDR headroom.
    BaseHdrHeadroom,
    /// Alternate image HDR headroom.
    AlternateHdrHeadroom,
    /// Per-channel minimum gain.
    GainMapMin,
    /// Per-channel maximum gain.
    GainMapMax,
    /// Per-channel gamma.
    Gamma,
    /// Per-channel base offset.
    BaseOffset,
    /// Per-channel alternate offset.
    AlternateOffset,
}

/// The name of each fraction field.
pub open spec fn field_name_spec(f: FractionField) -> Seq<char> {
    match f {
        FractionField::BaseHdrHeadroom => "base_hdr_headroom"@,
        FractionField::AlternateHdrHeadroom => "alternate_hdr_headroom"@,
        FractionField::GainMapMin => "gain_map_min"@,
        FractionField::GainMapMax => "gain_map_max"@,
        FractionField::Gamma => "gamma"@,
        FractionField::BaseOffset => "base_offset"@,
        FractionField::AlternateOffset => "alternate_offset"@,
    }
}

impl FractionField {
    /// The field's name in the format.
    pub fn name(&self) -> (r: &'static str)
        ensures
            r@ == field_name_spec(*self),
    {
        match self {
            FractionField::BaseHdrHeadroom => "base_hdr_headroom",
            FractionField::AlternateHdrHeadroom => "alternate_hdr_headroom",
            FractionField::GainMapMin => "gain_map_min",
            FractionField::GainMapMax => "gain_map_max",
            FractionField::Gamma => "gamma",
            FractionField::BaseOffset => "base_offset",
            FractionField::AlternateOffset => "alternate_offset",
        }
    }
}

/// Why ISO 21496-1 metadata could not be parsed.
#[derive(Clone, Copy, Debug, PartialEq, Eq, Structural)]
pub enum GainMapParseError {
    /// The data ends before a field: `expected` bytes were needed.
    TruncatedData { expected: usize, actual: usize },
    /// Unsupported (minimum) version.
    UnsupportedVersion { version: u8 },
    /// A fraction has a zero denominator.
    ZeroDenominator { field: FractionField },
}

/// The five fractions of one channel.
#[derive(Clone, Copy, Debug, PartialEq, Eq, Hash, Structural)]
pub struct ChannelFractions {
    /// Log2 of the minimum gain.
    pub min: Fraction,
    /// Log2 of the maximum gain.
    pub max: Fraction,
    /// Gamma of the gain map values.
    pub gamma: UFraction,
    /// Offset added to base values.
    pub base_offset: Fraction,
    /// Offset added to alternate values.
    pub alternate_offset: Fraction,
}

/// ISO 21496-1 metadata in its rational form. A single-channel record
/// carries the same fractions in all three channels.
#[derive(Clone, Copy, Debug, PartialEq, Eq)]
pub struct GainMapFractions {
    /// Three channels are stored (flag 0x80); otherwise one.
    pub is_multichannel: bool,
    /// Apply the gain map in the base image's color space (flag 0x40).
    pub use_base_color_space: bool,
    /// Log2 HDR headroom of the base image.
    pub base_hdr_headroom: UFraction,
    /// Log2 HDR headroom of the alternate image.
    pub alternate_hdr_headroom: UFraction,
    /// Red, green and blue channel fractions.
    pub channels: (ChannelFractions, ChannelFractions, ChannelFractions),
}

// ---------------------------------------------------------------------
// Reading
// ---------------------------------------------------------------------

/// Big-endian 16-bit value at `off`.
pub open spec fn be16(d: Seq<u8>, off: int) -> int {
    256 * d[off] + d[off + 1]
}

/// Big-endian 32-bit value at `off`.
pub open spec fn be32(d: Seq<u8>, off: int) -> int {
    16777216 * d[off] + 65536 * d[off + 1] + 256 * d[off + 2] + d[off + 3]
}

/// The truncation error for a read that needs `expected` bytes.
pub open spec fn truncated(expected: int, d: Seq<u8>) -> GainMapParseError {
    GainMapParseError::TruncatedData { expected: expected as usize, actual: d.len() as usize }
}

/// Signed fraction at `off`: numerator, then non-zero denominator.
pub open spec fn fraction_at(d: Seq<u8>, off: int, field: FractionField) -> Result<Fraction, GainMapParseError> {
    if off + 4 > d.len() {
        Err(truncated(off + 4, d))
    } else if off + 8 > d.len() {
        Err(truncated(off + 8, d))
    } else if be32(d, off + 4) == 0 {
        Err(GainMapParseError::ZeroDenominator { field })
    } else {
        Ok(Fraction { numerator: (be32(d, off) as u32) as i32, denominator: be32(d, off + 4) as u32 })
    }
}

/// Unsigned fraction at `off`: numerator, then non-zero denominator.
pub open spec fn ufraction_at(d: Seq<u8>, off: int, field: FractionField) -> Result<UFraction, GainMapParseError> {
    if off + 4 > d.len() {
        Err(truncated(off + 4, d))
    } else if off + 8 > d.len() {
        Err(truncated(off + 8, d))
    } else if be32(d, off + 4) == 0 {
        Err(GainMapParseError::ZeroDenominator { field })
    } else {
        Ok(UFraction { numerator: be32(d, off) as u32, denominator: be32(d, off + 4) as u32 })
    }
}

/// The 40-byte channel record at `off`, read field by field.
pub open spec fn channel_at(d: Seq<u8>, off: int) -> Result<ChannelFractions, GainMapParseError> {
    match fraction_at(d, off, FractionField::GainMapMin) {
        Err(e) => Err(e),
        Ok(min) => match fraction_at(d, off + 8, FractionField::GainMapMax) {
            Err(e) => Err(e),
            Ok(max) => match ufraction_at(d, off + 16, FractionField::Gamma) {
                Err(e) => Err(e),
                Ok(gamma) => match fraction_at(d, off + 24, FractionField::BaseOffset) {
                    Err(e) => Err(e),
                    Ok(base_offset) => match fraction_at(d, off + 32, FractionField::AlternateOffset) {
                        Err(e) => Err(e),
                        Ok(alternate_offset) => Ok(ChannelFractions { min, max, gamma, base_offset, alternate_offset }),
                    },
                },
            },
        },
    }
}

/// The channel records from `off`: three when multichannel, else one
/// replicated to all three.
pub open spec fn channels_at(d: Seq<u8>, off: int, multichannel: bool)
    -> Result<(ChannelFractions, ChannelFractions, ChannelFractions), GainMapParseError> {
    match channel_at(d, off) {
        Err(e) => Err(e),
        Ok(c0) => if !multichannel {
            Ok((c0, c0, c0))
        } else {
            match channel_at(d, off + 40) {
                Err(e) => Err(e),
                Ok(c1) => match channel_at(d, off + 80) {
                    Err(e) => Err(e),
                    Ok(c2) => Ok((c0, c1, c2)),
                },
            }
        },
    }
}

/// Everything after the flags byte at `off - 1`: the two headrooms, then
/// the channel records.
pub open spec fn body_at(d: Seq<u8>, off: int, flags: u8) -> Result<GainMapFractions, GainMapParseError> {
    let multi = flags >= 128;
    match ufraction_at(d, off, FractionField::BaseHdrHeadroom) {
        Err(e) => Err(e),
        Ok(base) => match ufraction_at(d, off + 8, FractionField::AlternateHdrHeadroom) {
            Err(e) => Err(e),
            Ok(alt) => match channels_at(d, off + 16, multi) {
                Err(e) => Err(e),
                Ok(channels) => Ok(GainMapFractions {
                    is_multichannel: multi,
                    use_base_color_space: flags % 128 >= 64,
                    base_hdr_headroom: base,
                    alternate_hdr_headroom: alt,
                    channels,
                }),
            },
        },
    }
}

/// From the minimum version at `off`: minimum version (must be 0),
/// writer version, flags, body.
pub open spec fn from_min_version(d: Seq<u8>, off: int) -> Result<GainMapFractions, GainMapParseError> {
    if off + 2 > d.len() {
        Err(truncated(off + 2, d))
    } else if be16(d, off) > 0 {
        Err(GainMapParseError::UnsupportedVersion { version: (be16(d, off) % 256) as u8 })
    } else if off + 4 > d.len() {
        Err(truncated(off + 4, d))
    } else if off + 4 >= d.len() {
        Err(truncated(off + 5, d))
    } else {
        body_at(d, off + 5, d[off + 4])
    }
}

/// ISO 21496-1 box form: version byte (must be 0), then the rest.
pub open spec fn iso21496_parse(d: Seq<u8>) -> Result<GainMapFractions, GainMapParseError> {
    if d.len() == 0 {
        Err(truncated(1, d))
    } else if d[0] != 0 {
        Err(GainMapParseError::UnsupportedVersion { version: d[0] })
    } else {
        from_min_version(d, 1)
    }
}

/// ISO 21496-1 JPEG APP2 form: no version byte, at least five bytes.
pub open spec fn iso21496_jpeg_parse(d: Seq<u8>) -> Result<GainMapFractions, GainMapParseError> {
    if d.len() < 5 {
        Err(truncated(5, d))
    } else {
        from_min_version(d, 0)
    }
}

fn read_be16(d: &[u8], off: usize) -> (r: u16)
    requires
        off + 2 <= d@.len(),
    ensures
        r == be16(d@, off as int),
{
    (d[off] as u16) * 256 + (d[off + 1] as u16)
}

fn read_be32(d: &[u8], off: usize) -> (r: u32)
    requires
        off + 4 <= d@.len(),
    ensures
        r == be32(d@, off as int),
{
    (d[off] as u32) * 16777216 + (d[off + 1] as u32) * 65536 + (d[off + 2] as u32) * 256 + (d[off + 3] as u32)
}

fn read_fraction(d: &[u8], off: usize, field: FractionField) -> (r: Result<Fraction, GainMapParseError>)
    requires
        off <= 1000,
    ensures
        r == fraction_at(d@, off as int, field),
{
    let len = d.len();
    if off + 4 > len {
        return Err(GainMapParseError::TruncatedData { expected: off + 4, actual: len });
    }
    let n = read_be32(d, off);
    if off + 8 > len {
        return Err(GainMapParseError::TruncatedData { expected: off + 8, actual: len });
    }
    let den = read_be32(d, off + 4);
    if den == 0 {
        return Err(GainMapParseError::ZeroDenominator { field });
    }
    Ok(Fraction { numerator: n as i32, denominator: den })
}

fn read_ufraction(d: &[u8], off: usize, field: FractionField) -> (r: Result<UFraction, GainMapParseError>)
    requires
        off <= 1000,
    ensures
        r == ufraction_at(d@, off as int, field),
{
    let len = d.len();
    if off + 4 > len {
        return Err(GainMapParseError::TruncatedData { expected: off + 4, actual: len });
    }
    let n = read_be32(d, off);
    if off + 8 > len {
        return Err(GainMapParseError::TruncatedData { expected: off + 8, actual: len });
    }
    let den = read_be32(d, off + 4);
    if den == 0 {
        return Err(GainMapParseError::ZeroDenominator { field });
    }
    Ok(UFraction { numerator: n, denominator: den })
}

fn read_channel(d: &[u8], off: usize) -> (r: Result<ChannelFractions, GainMapParseError>)
    requires
        off <= 900,
    ensures
        r == channel_at(d@, off as int),
{
    let min = match read_fraction(d, off, FractionField::GainMapMin) {
        Ok(f) => f,
        Err(e) => return Err(e),
    };
    let max = match read_fraction(d, off + 8, FractionField::GainMapMax) {
        Ok(f) => f,
        Err(e) => return Err(e),
    };
    let gamma = match read_ufraction(d, off + 16, FractionField::Gamma) {
        Ok(f) => f,
        Err(e) => return Err(e),
    };
    let base_offset = match read_fraction(d, off + 24, FractionField::BaseOffset) {
        Ok(f) => f,
        Err(e) => return Err(e),
    };
    let alternate_offset = match read_fraction(d, off + 32, FractionField::AlternateOffset) {
        Ok(f) => f,
        Err(e) => return Err(e),
    };
    Ok(ChannelFractions { min, max, gamma, base_offset, alternate_offset })
}

fn read_channels(d: &[u8], off: usize, multichannel: bool) -> (r: Result<(ChannelFractions, ChannelFractions, ChannelFractions), GainMapParseError>)
    requires
        off <= 500,
    ensures
        r == channels_at(d@, off as int, multichannel),
{
    let c0 = match read_channel(d, off) {
        Ok(c) => c,
        Err(e) => return Err(e),
    };
    if !multichannel {
        return Ok((c0, c0, c0));
    }
    let c1 = match read_channel(d, off + 40) {
        Ok(c) => c,
        Err(e) => return Err(e),
    };
    let c2 = match read_channel(d, off + 80) {
        Ok(c) => c,
        Err(e) => return Err(e),
    };
    Ok((c0, c1, c2))
}

fn read_body(d: &[u8], off: usize, flags: u8) -> (r: Result<GainMapFractions, GainMapParseError>)
    requires
        off <= 100,
    ensures
        r == body_at(d@, off as int, flags),
{
    let is_multichannel = (flags & 0x80) != 0;
    let use_base_color_space = (flags & 0x40) != 0;
    assert(((flags & 0x80) != 0) == (flags >= 128)) by (bit_vector);
    assert(((flags & 0x40) != 0) == (flags % 128 >= 64)) by (bit_vector);
    let base_hdr_headroom = match read_ufraction(d, off, FractionField::BaseHdrHeadroom) {
        Ok(f) => f,
        Err(e) => return Err(e),
    };
    let alternate_hdr_headroom = match read_ufraction(d, off + 8, FractionField::AlternateHdrHeadroom) {
        Ok(f) => f,
        Err(e) => return Err(e),
    };
    let channels = match read_channels(d, off + 16, is_multichannel) {
        Ok(c) => c,
        Err(e) => return Err(e),
    };
    Ok(GainMapFractions { is_multichannel, use_base_color_space, base_hdr_headroom, alternate_hdr_headroom, channels })
}

fn read_from_min_version(d: &[u8], off: usize) -> (r: Result<GainMapFractions, GainMapParseError>)
    requires
        off <= 1,
    ensures
        r == from_min_version(d@, off as int),
{
    let len = d.len();
    if off + 2 > len {
        return Err(GainMapParseError::TruncatedData { expected: off + 2, actual: len });
    }
    let minimum_version = read_be16(d, off);
    if minimum_version > 0 {
        return Err(GainMapParseError::UnsupportedVersion { version: (minimum_version % 256) as u8 });
    }
    if off + 4 > len {
        return Err(GainMapParseError::TruncatedData { expected: off + 4, actual: len });
    }
    let _writer_version = read_be16(d, off + 2);
    if off + 4 >= len {
        return Err(GainMapParseError::TruncatedData { expected: off + 5, actual: len });
    }
    let flags = d[off + 4];
    read_body(d, off + 5, flags)
}

/// Parse ISO 21496-1 metadata in the box form (leading version byte).
/// Fails at the first field that is truncated, on a non-zero version or
/// minimum version, or on a zero denominator.
pub fn parse_iso21496_fractions(data: &[u8]) -> (r: Result<GainMapFractions, GainMapParseError>)
    ensures
        r == iso21496_parse(data@),
{
    if data.len() == 0 {
        return Err(GainMapParseError::TruncatedData { expected: 1, actual: 0 });
    }
    let version = data[0];
    if version != 0 {
        return Err(GainMapParseError::UnsupportedVersion { version });
    }
    read_from_min_version(data, 1)
}

/// Parse ISO 21496-1 metadata in the JPEG APP2 form (no version byte).
pub fn parse_iso21496_jpeg_fractions(data: &[u8]) -> (r: Result<GainMapFractions, GainMapParseError>)
    ensures
        r == iso21496_jpeg_parse(data@),
{
    if data.len() < 5 {
        return Err(GainMapParseError::TruncatedData { expected: 5, actual: data.len() });
    }
    read_from_min_version(data, 0)
}

// ---------------------------------------------------------------------
// Writing
// ---------------------------------------------------------------------

/// Big-endian bytes of a 32-bit value.
pub open spec fn be_bytes32(x: u32) -> Seq<u8> {
    seq![(x / 16777216) as u8, ((x / 65536) % 256) as u8, ((x / 256) % 256) as u8, (x % 256) as u8]
}

/// Bytes of a signed fraction: numerator (two's complement), denominator.
#[verifier::opaque]
pub open spec fn fraction_bytes(f: Fraction) -> Seq<u8> {
    be_bytes32(f.numerator as u32) + be_bytes32(f.denominator)
}

/// Bytes of an unsigned fraction: numerator, denominator.
#[verifier::opaque]
pub open spec fn ufraction_bytes(f: UFraction) -> Seq<u8> {
    be_bytes32(f.numerator) + be_bytes32(f.denominator)
}

/// The 40-byte record of one channel.
#[verifier::opaque]
pub open spec fn channel_bytes(c: ChannelFractions) -> Seq<u8> {
    fraction_bytes(c.min) + fraction_bytes(c.max) + ufraction_bytes(c.gamma) + fraction_bytes(c.base_offset)
        + fraction_bytes(c.alternate_offset)
}

/// The flags byte: 0x80 for multichannel, 0x40 for the base color space.
pub open spec fn flags_byte(g: GainMapFractions) -> u8 {
    ((if g.is_multichannel { 128int } else { 0 }) + (if g.use_base_color_space { 64int } else { 0 })) as u8
}

/// Headrooms, then one channel record (three when multichannel).
#[verifier::opaque]
pub open spec fn payload_bytes(g: GainMapFractions) -> Seq<u8> {
    ufraction_bytes(g.base_hdr_headroom) + ufraction_bytes(g.alternate_hdr_headroom) + channel_bytes(g.channels.0)
        + if g.is_multichannel {
            channel_bytes(g.channels.1) + channel_bytes(g.channels.2)
        } else {
            Seq::<u8>::empty()
        }
}

/// Box form: version 0, minimum version 0, writer version 0, flags, payload.
pub open spec fn iso21496_bytes(g: GainMapFractions) -> Seq<u8> {
    seq![0u8, 0u8, 0u8, 0u8, 0u8, flags_byte(g)] + payload_bytes(g)
}

/// JPEG APP2 form: the box form without its version byte.
pub open spec fn iso21496_jpeg_bytes(g: GainMapFractions) -> Seq<u8> {
    seq![0u8, 0u8, 0u8, 0u8, flags_byte(g)] + payload_bytes(g)
}

fn push_be32(out: &mut Vec<u8>, x: u32)
    ensures
        final(out)@ == old(out)@ + be_bytes32(x),
{
    out.push((x / 16777216) as u8);
    out.push(((x / 65536) % 256) as u8);
    out.push(((x / 256) % 256) as u8);
    out.push((x % 256) as u8);
    assert(final(out)@ =~= old(out)@ + be_bytes32(x));
}

fn push_fraction(out: &mut Vec<u8>, f: Fraction)
    ensures
        final(out)@ == old(out)@ + fraction_bytes(f),
{
    proof {
        reveal(fraction_bytes);
    }
    let ghost start = out@;
    push_be32(out, f.numerator as u32);
    push_be32(out, f.denominator);
    assert(out@ =~= start + fraction_bytes(f));
}

fn push_ufraction(out: &mut Vec<u8>, f: UFraction)
    ensures
        final(out)@ == old(out)@ + ufraction_bytes(f),
{
    proof {
        reveal(ufraction_bytes);
    }
    let ghost start = out@;
    push_be32(out, f.numerator);
    push_be32(out, f.denominator);
    assert(out@ =~= start + ufraction_bytes(f));
}

fn push_channel(out: &mut Vec<u8>, c: &ChannelFractions)
    ensures
        final(out)@ == old(out)@ + channel_bytes(*c),
{
    proof {
        reveal(channel_bytes);
    }
    let ghost start = out@;
    push_fraction(out, c.min);
    push_fraction(out, c.max);
    push_ufraction(out, c.gamma);
    push_fraction(out, c.base_offset);
    push_fraction(out, c.alternate_offset);
    assert(out@ =~= start + channel_bytes(*c));
}

fn push_payload(out: &mut Vec<u8>, g: &GainMapFractions)
    ensures
        final(out)@ == old(out)@ + payload_bytes(*g),
{
    proof {
        reveal(payload_bytes);
    }
    let ghost start = out@;
    push_ufraction(out, g.base_hdr_headroom);
    push_ufraction(out, g.alternate_hdr_headroom);
    push_channel(out, &g.channels.0);
    if g.is_multichannel {
        push_channel(out, &g.channels.1);
        push_channel(out, &g.channels.2);
    }
    assert(out@ =~= start + payload_bytes(*g));
}

fn flags_of(g: &GainMapFractions) -> (r: u8)
    ensures
        r == flags_byte(*g),
{
    let mut flags: u8 = 0;
    if g.is_multichannel {
        flags = flags | 0x80;
    }
    if g.use_base_color_space {
        flags = flags | 0x40;
    }
    assert((0u8 | 0x80u8) == 128u8) by (bit_vector);
    assert((0u8 | 0x40u8) == 64u8) by (bit_vector);
    assert((0x80u8 | 0x40u8) == 192u8) by (bit_vector);
    flags
}

/// Write ISO 21496-1 metadata in the box form (leading version byte).
pub fn serialize_iso21496_fractions(g: &GainMapFractions) -> (r: Vec<u8>)
    ensures
        r@ == iso21496_bytes(*g),
{
    let mut data: Vec<u8> = Vec::new();
    data.push(0u8);
    data.push(0u8);
    data.push(0u8);
    data.push(0u8);
    data.push(0u8);
    data.push(flags_of(g));
    let ghost header = data@;
    assert(header =~= seq![0u8, 0u8, 0u8, 0u8, 0u8, flags_byte(*g)]);
    push_payload(&mut data, g);
    data
}

/// Write ISO 21496-1 metadata in the JPEG APP2 form (no version byte).
pub fn serialize_iso21496_jpeg_fractions(g: &GainMapFractions) -> (r: Vec<u8>)
    ensures
        r@ == iso21496_jpeg_bytes(*g),
{
    let mut data: Vec<u8> = Vec::new();
    data.push(0u8);
    data.push(0u8);
    data.push(0u8);
    data.push(0u8);
    data.push(flags_of(g));
    let ghost header = data@;
    assert(header =~= seq![0u8, 0u8, 0u8, 0u8, flags_byte(*g)]);
    push_payload(&mut data, g);
    data
}

// ---------------------------------------------------------------------
// Round trip
// ---------------------------------------------------------------------

/// Every fraction that is written has a non-zero denominator.
pub open spec fn channel_valid(c: ChannelFractions) -> bool {
    &&& c.min.denominator != 0
    &&& c.max.denominator != 0
    &&& c.gamma.denominator != 0
    &&& c.base_offset.denominator != 0
    &&& c.alternate_offset.denominator != 0
}

/// Metadata that the format can carry: non-zero denominators in every
/// written fraction, and a single-channel record only when the three
/// channels agree.
pub open spec fn fractions_writable(g: GainMapFractions) -> bool {
    &&& g.base_hdr_headroom.denominator != 0
    &&& g.alternate_hdr_headroom.denominator != 0
    &&& channel_valid(g.channels.0)
    &&& if g.is_multichannel {
        channel_valid(g.channels.1) && channel_valid(g.channels.2)
    } else {
        g.channels.1 == g.channels.0 && g.channels.2 == g.channels.0
    }
}

proof fn lemma_fraction_len(f: Fraction)
    ensures
        fraction_bytes(f).len() == 8,
{
    reveal(fraction_bytes);
}

proof fn lemma_ufraction_len(f: UFraction)
    ensures
        ufraction_bytes(f).len() == 8,
{
    reveal(ufraction_bytes);
}

proof fn lemma_channel_len(c: ChannelFractions)
    ensures
        channel_bytes(c).len() == 40,
{
    reveal(channel_bytes);
    lemma_fraction_len(c.min);
    lemma_fraction_len(c.max);
    lemma_ufraction_len(c.gamma);
    lemma_fraction_len(c.base_offset);
    lemma_fraction_len(c.alternate_offset);
}

proof fn lemma_payload_len(g: GainMapFractions)
    ensures
        payload_bytes(g).len() == if g.is_multichannel { 136int } else { 56int },
{
    reveal(payload_bytes);
    lemma_ufraction_len(g.base_hdr_headroom);
    lemma_ufraction_len(g.alternate_hdr_headroom);
    lemma_channel_len(g.channels.0);
    lemma_channel_len(g.channels.1);
    lemma_channel_len(g.channels.2);
}

proof fn lemma_be32_of_bytes(d: Seq<u8>, off: int, x: u32)
    requires
        0 <= off,
        off + 4 <= d.len(),
        d.subrange(off, off + 4) == be_bytes32(x),
    ensures
        be32(d, off) == x,
{
    assert(d[off] == d.subrange(off, off + 4)[0]);
    assert(d[off + 1] == d.subrange(off, off + 4)[1]);
    assert(d[off + 2] == d.subrange(off, off + 4)[2]);
    assert(d[off + 3] == d.subrange(off, off + 4)[3]);
    assert(x / 16777216 < 256);
    assert(((x / 16777216) as u8) as int == x / 16777216);
    assert((((x / 65536) % 256) as u8) as int == (x / 65536) % 256);
    assert((((x / 256) % 256) as u8) as int == (x / 256) % 256);
    assert(((x % 256) as u8) as int == x % 256);
}

proof fn lemma_fraction_of_bytes(d: Seq<u8>, off: int, f: Fraction, field: FractionField)
    requires
        0 <= off,
        off + 8 <= d.len(),
        d.subrange(off, off + 8) == fraction_bytes(f),
        f.denominator != 0,
    ensures
        fraction_at(d, off, field) == Ok::<Fraction, GainMapParseError>(f),
{
    reveal(fraction_bytes);
    assert(d.subrange(off, off + 4) =~= d.subrange(off, off + 8).subrange(0, 4));
    assert(d.subrange(off + 4, off + 8) =~= d.subrange(off, off + 8).subrange(4, 8));
    assert(fraction_bytes(f).subrange(0, 4) =~= be_bytes32(f.numerator as u32));
    assert(fraction_bytes(f).subrange(4, 8) =~= be_bytes32(f.denominator));
    lemma_be32_of_bytes(d, off, f.numerator as u32);
    lemma_be32_of_bytes(d, off + 4, f.denominator);
    let n = f.numerator;
    assert(((n as u32) as i32) == n) by (bit_vector);
}

proof fn lemma_ufraction_of_bytes(d: Seq<u8>, off: int, f: UFraction, field: FractionField)
    requires
        0 <= off,
        off + 8 <= d.len(),
        d.subrange(off, off + 8) == ufraction_bytes(f),
        f.denominator != 0,
    ensures
        ufraction_at(d, off, field) == Ok::<UFraction, GainMapParseError>(f),
{
    reveal(ufraction_bytes);
    assert(d.subrange(off, off + 4) =~= d.subrange(off, off + 8).subrange(0, 4));
    assert(d.subrange(off + 4, off + 8) =~= d.subrange(off, off + 8).subrange(4, 8));
    assert(ufraction_bytes(f).subrange(0, 4) =~= be_bytes32(f.numerator));
    assert(ufraction_bytes(f).subrange(4, 8) =~= be_bytes32(f.denominator));
    lemma_be32_of_bytes(d, off, f.numerator);
    lemma_be32_of_bytes(d, off + 4, f.denominator);
}

proof fn lemma_channel_of_bytes(d: Seq<u8>, off: int, c: ChannelFractions)
    requires
        0 <= off,
        off + 40 <= d.len(),
        d.subrange(off, off + 40) == channel_bytes(c),
        channel_valid(c),
    ensures
        channel_at(d, off) == Ok::<ChannelFractions, GainMapParseError>(c),
{
    reveal(channel_bytes);
    lemma_fraction_len(c.min);
    lemma_fraction_len(c.max);
    lemma_ufraction_len(c.gamma);
    lemma_fraction_len(c.base_offset);
    lemma_fraction_len(c.alternate_offset);
    let b = channel_bytes(c);
    assert(d.subrange(off, off + 8) =~= b.subrange(0, 8));
    assert(d.subrange(off + 8, off + 16) =~= b.subrange(8, 16));
    assert(d.subrange(off + 16, off + 24) =~= b.subrange(16, 24));
    assert(d.subrange(off + 24, off + 32) =~= b.subrange(24, 32));
    assert(d.subrange(off + 32, off + 40) =~= b.subrange(32, 40));
    assert(b.subrange(0, 8) =~= fraction_bytes(c.min));
    assert(b.subrange(8, 16) =~= fraction_bytes(c.max));
    assert(b.subrange(16, 24) =~= ufraction_bytes(c.gamma));
    assert(b.subrange(24, 32) =~= fraction_bytes(c.base_offset));
    assert(b.subrange(32, 40) =~= fraction_bytes(c.alternate_offset));
    lemma_fraction_of_bytes(d, off, c.min, FractionField::GainMapMin);
    lemma_fraction_of_bytes(d, off + 8, c.max, FractionField::GainMapMax);
    lemma_ufraction_of_bytes(d, off + 16, c.gamma, FractionField::Gamma);
    lemma_fraction_of_bytes(d, off + 24, c.base_offset, FractionField::BaseOffset);
    lemma_fraction_of_bytes(d, off + 32, c.alternate_offset, FractionField::AlternateOffset);
}

#[verifier::spinoff_prover]
#[verifier::rlimit(30)]
proof fn lemma_body_of_bytes(d: Seq<u8>, off: int, g: GainMapFractions)
    requires
        0 <= off,
        d.len() == off + payload_bytes(g).len(),
        d.subrange(off, d.len() as int) == payload_bytes(g),
        fractions_writable(g),
    ensures
        body_at(d, off, flags_byte(g)) == Ok::<GainMapFractions, GainMapParseError>(g),
{
    reveal(payload_bytes);
    lemma_ufraction_len(g.base_hdr_headroom);
    lemma_ufraction_len(g.alternate_hdr_headroom);
    lemma_channel_len(g.channels.0);
    lemma_channel_len(g.channels.1);
    lemma_channel_len(g.channels.2);
    let p = payload_bytes(g);
    let f = flags_byte(g);
    assert(d.subrange(off, off + 8) =~= p.subrange(0, 8));
    assert(p.subrange(0, 8) =~= ufraction_bytes(g.base_hdr_headroom));
    assert(d.subrange(off + 8, off + 16) =~= p.subrange(8, 16));
    assert(p.subrange(8, 16) =~= ufraction_bytes(g.alternate_hdr_headroom));
    assert(d.subrange(off + 16, off + 56) =~= p.subrange(16, 56));
    assert(p.subrange(16, 56) =~= channel_bytes(g.channels.0));
    lemma_ufraction_of_bytes(d, off, g.base_hdr_headroom, FractionField::BaseHdrHeadroom);
    lemma_ufraction_of_bytes(d, off + 8, g.alternate_hdr_headroom, FractionField::AlternateHdrHeadroom);
    lemma_channel_of_bytes(d, off + 16, g.channels.0);
    if g.is_multichannel {
        assert(p.len() == 136);
        assert(d.subrange(off + 56, off + 96) =~= p.subrange(56, 96));
        assert(p.subrange(56, 96) =~= channel_bytes(g.channels.1));
        assert(d.subrange(off + 96, off + 136) =~= p.subrange(96, 136));
        assert(p.subrange(96, 136) =~= channel_bytes(g.channels.2));
        lemma_channel_of_bytes(d, off + 56, g.channels.1);
        lemma_channel_of_bytes(d, off + 96, g.channels.2);
    }
    let m = g.is_multichannel;
    let u = g.use_base_color_space;
    assert((f >= 128) == m);
    assert((f % 128 >= 64) == u);
}

/// Writing metadata and parsing it back gives the same metadata, in both
/// wire forms, for all metadata that the format can carry.
pub proof fn lemma_iso21496_roundtrip(g: GainMapFractions)
    requires
        fractions_writable(g),
    ensures
        iso21496_parse(iso21496_bytes(g)) == Ok::<GainMapFractions, GainMapParseError>(g),
        iso21496_jpeg_parse(iso21496_jpeg_bytes(g)) == Ok::<GainMapFractions, GainMapParseError>(g),
{
    lemma_payload_len(g);
    let p = payload_bytes(g);
    let d = iso21496_bytes(g);
    assert(d.subrange(6, d.len() as int) =~= p);
    assert(d[0] == 0 && d[1] == 0 && d[2] == 0 && d[3] == 0 && d[4] == 0 && d[5] == flags_byte(g));
    lemma_body_of_bytes(d, 6, g);
    let j = iso21496_jpeg_bytes(g);
    assert(j.subrange(5, j.len() as int) =~= p);
    assert(j[0] == 0 && j[1] == 0 && j[2] == 0 && j[3] == 0 && j[4] == flags_byte(g));
    lemma_body_of_bytes(j, 5, g);
}

/// Whatever parses is writable: every parsed fraction has a non-zero
/// denominator and a single-channel record fills all three channels, so
/// writing parsed metadata and parsing it again gives it back.
pub proof fn lemma_parsed_is_writable(d: Seq<u8>)
    ensures
        iso21496_parse(d) matches Ok(g) ==> fractions_writable(g),
        iso21496_jpeg_parse(d) matches Ok(g) ==> fractions_writable(g),
{
}

/// A parse result read one byte further into the data: a truncation
/// error counts one byte more, both in what it needed and in what it got.
pub open spec fn shift_truncation<T>(r: Result<T, GainMapParseError>) -> Result<T, GainMapParseError> {
    match r {
        Err(GainMapParseError::TruncatedData { expected, actual }) => Err(
            GainMapParseError::TruncatedData { expected: (expected + 1) as usize, actual: (actual + 1) as usize },
        ),
        _ => r,
    }
}

proof fn lemma_shift_be32(d: Seq<u8>, off: int)
    requires
        0 <= off,
        off + 4 <= d.len(),
    ensures
        be32(seq![0u8] + d, off + 1) == be32(d, off),
{
    let e = seq![0u8] + d;
    assert(e[off + 1] == d[off] && e[off + 2] == d[off + 1] && e[off + 3] == d[off + 2] && e[off + 4] == d[off + 3]);
}

proof fn lemma_shift_fraction(d: Seq<u8>, off: int, field: FractionField)
    requires
        0 <= off <= d.len(),
        d.len() + 16 <= usize::MAX,
    ensures
        fraction_at(seq![0u8] + d, off + 1, field) == shift_truncation(fraction_at(d, off, field)),
        ufraction_at(seq![0u8] + d, off + 1, field) == shift_truncation(ufraction_at(d, off, field)),
{
    if off + 8 <= d.len() {
        lemma_shift_be32(d, off);
        lemma_shift_be32(d, off + 4);
    }
}

proof fn lemma_shift_channel(d: Seq<u8>, off: int)
    requires
        0 <= off <= d.len(),
        d.len() + 16 <= usize::MAX,
    ensures
        channel_at(seq![0u8] + d, off + 1) == shift_truncation(channel_at(d, off)),
{
    lemma_shift_fraction(d, off, FractionField::GainMapMin);
    if fraction_at(d, off, FractionField::GainMapMin) is Ok {
        lemma_shift_fraction(d, off + 8, FractionField::GainMapMax);
        if fraction_at(d, off + 8, FractionField::GainMapMax) is Ok {
            lemma_shift_fraction(d, off + 16, FractionField::Gamma);
            if ufraction_at(d, off + 16, FractionField::Gamma) is Ok {
                lemma_shift_fraction(d, off + 24, FractionField::BaseOffset);
                if fraction_at(d, off + 24, FractionField::BaseOffset) is Ok {
                    lemma_shift_fraction(d, off + 32, FractionField::AlternateOffset);
                }
            }
        }
    }
}

proof fn lemma_shift_body(d: Seq<u8>, off: int, flags: u8)
    requires
        0 <= off <= d.len(),
        d.len() + 16 <= usize::MAX,
    ensures
        body_at(seq![0u8] + d, off + 1, flags) == shift_truncation(body_at(d, off, flags)),
{
    lemma_shift_fraction(d, off, FractionField::BaseHdrHeadroom);
    if ufraction_at(d, off, FractionField::BaseHdrHeadroom) is Ok {
        lemma_shift_fraction(d, off + 8, FractionField::AlternateHdrHeadroom);
        if ufraction_at(d, off + 8, FractionField::AlternateHdrHeadroom) is Ok {
            lemma_shift_channel(d, off + 16);
            if channel_at(d, off + 16) is Ok && flags >= 128 {
                lemma_shift_channel(d, off + 56);
                if channel_at(d, off + 56) is Ok {
                    lemma_shift_channel(d, off + 96);
                }
            }
        }
    }
}

/// The JPEG APP2 form is the box form without its leading version byte:
/// parsing a payload of at least five bytes gives what parsing the same
/// payload behind a zero version byte gives, except that a truncation
/// error there counts that byte in both of its lengths.
pub proof fn lemma_jpeg_form_is_box_form_without_version(d: Seq<u8>)
    requires
        d.len() >= 5,
        d.len() + 16 <= usize::MAX,
    ensures
        iso21496_parse(seq![0u8] + d) == shift_truncation(iso21496_jpeg_parse(d)),
{
    let e = seq![0u8] + d;
    assert(e[0] == 0);
    assert(e[1] == d[0] && e[2] == d[1] && e[3] == d[2] && e[4] == d[3] && e[5] == d[4]);
    lemma_shift_body(d, 5, d[4]);
}

/// The signed 32-bit value stored big-endian at `at`.
pub open spec fn signed_be32(d: Seq<u8>, at: int) -> i32 {
    (be32(d, at) as u32) as i32
}

/// The 40-byte channel record at `r` holds `c`: numerator then
/// denominator of the minimum gain (bytes 0 to 7), maximum gain (8 to
/// 15), gamma (16 to 23), base offset (24 to 31) and alternate offset
/// (32 to 39), each big-endian.
pub open spec fn channel_record_holds(d: Seq<u8>, r: int, c: ChannelFractions) -> bool {
    &&& c.min.numerator == signed_be32(d, r) && c.min.denominator == be32(d, r + 4)
    &&& c.max.numerator == signed_be32(d, r + 8) && c.max.denominator == be32(d, r + 12)
    &&& c.gamma.numerator == be32(d, r + 16) && c.gamma.denominator == be32(d, r + 20)
    &&& c.base_offset.numerator == signed_be32(d, r + 24) && c.base_offset.denominator == be32(d, r + 28)
    &&& c.alternate_offset.numerator == signed_be32(d, r + 32) && c.alternate_offset.denominator == be32(d, r + 36)
}

/// The metadata whose flags byte is at `h - 1` holds `g`: bit 7 marks
/// three channels, bit 6 the base color space; the base and alternate
/// headrooms follow at `h` and `h + 8`, then the channel records from
/// `h + 16`, forty bytes each (one record for all channels when bit 7 is
/// clear).
pub open spec fn metadata_layout_holds(d: Seq<u8>, h: int, g: GainMapFractions) -> bool {
    &&& g.is_multichannel == (d[h - 1] >= 128)
    &&& g.use_base_color_space == (d[h - 1] % 128 >= 64)
    &&& g.base_hdr_headroom.numerator == be32(d, h) && g.base_hdr_headroom.denominator == be32(d, h + 4)
    &&& g.alternate_hdr_headroom.numerator == be32(d, h + 8)
        && g.alternate_hdr_headroom.denominator == be32(d, h + 12)
    &&& channel_record_holds(d, h + 16, g.channels.0)
    &&& if g.is_multichannel {
        channel_record_holds(d, h + 56, g.channels.1) && channel_record_holds(d, h + 96, g.channels.2)
    } else {
        g.channels.1 == g.channels.0 && g.channels.2 == g.channels.0
    }
}

/// Where parsed metadata comes from: every field is read from its fixed
/// place in the data, the headrooms from byte 6 in the box form (after
/// the version byte, the two version fields and the flags) and from
/// byte 5 in the JPEG form.
pub proof fn lemma_parsed_fields_come_from_layout(d: Seq<u8>)
    ensures
        iso21496_parse(d) matches Ok(g) ==> metadata_layout_holds(d, 6, g),
        iso21496_jpeg_parse(d) matches Ok(g) ==> metadata_layout_holds(d, 5, g),
{
}

/// Where written metadata goes: writing places every field at its fixed
/// place, headrooms from byte 6 in the box form and from byte 5 in the
/// JPEG form.
pub proof fn lemma_written_fields_follow_layout(g: GainMapFractions)
    requires
        fractions_writable(g),
    ensures
        metadata_layout_holds(iso21496_bytes(g), 6, g),
        metadata_layout_holds(iso21496_jpeg_bytes(g), 5, g),
{
    lemma_iso21496_roundtrip(g);
    lemma_parsed_fields_come_from_layout(iso21496_bytes(g));
    lemma_parsed_fields_come_from_layout(iso21496_jpeg_bytes(g));
}

} // verus!
