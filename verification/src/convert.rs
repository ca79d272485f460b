//! Pixel layout and depth conversion for [`PixelSlice`].
//!
//! Supported in one pass: depth U8 ↔ U16 (×257 / >>8), adding an opaque
//! alpha channel, dropping alpha, and gray → RGB broadcast. RGB → gray is
//! refused (it needs luma coefficients), as are float and signed channel
//! types and cross-layout conversions involving BGRA.

use vstd::prelude::*;
use crate::buffer::{PixelBuffer, PixelSlice, PixelSliceView, slice_wf};
use crate::color::share_color_context;
use crate::descriptor::{
    AlphaMode, ChannelLayout, ChannelType, PixelDescriptor, channel_count, channel_size,
    layout_has_alpha, pixel_size,
};

verus! {

/// How to expand grayscale channels to RGB.
#[derive(Clone, Copy, Debug, PartialEq, Eq, Hash, Structural)]
pub enum GrayExpand {
    /// Channel broadcast: `v → (v, v, v)`.
    Broadcast,
}

impl Default for GrayExpand {
    fn default() -> (r: Self)
        ensures
            r == GrayExpand::Broadcast,
    {
        GrayExpand::Broadcast
    }
}

/// Why a conversion is refused.
#[derive(Clone, Copy, Debug, PartialEq, Eq, Structural)]
pub enum ConvertError {
    /// RGB-to-grayscale needs explicit luma coefficients.
    RgbToGray,
    /// Source or target channel type is not U8 or U16.
    UnsupportedChannelType,
    /// Cross-layout conversion involving BGRA.
    UnsupportedLayout,
}

/// Which conversions are refused, and with which error (checked in order).
pub open spec fn validate_spec(src_ty: ChannelType, src_layout: ChannelLayout, dst_ty: ChannelType, dst_layout: ChannelLayout) -> Result<(), ConvertError> {
    if !(src_ty == ChannelType::U8 || src_ty == ChannelType::U16) || !(dst_ty == ChannelType::U8 || dst_ty == ChannelType::U16) {
        Err(ConvertError::UnsupportedChannelType)
    } else if src_layout != dst_layout && (src_layout == ChannelLayout::Bgra || dst_layout == ChannelLayout::Bgra) {
        Err(ConvertError::UnsupportedLayout)
    } else if (src_layout == ChannelLayout::Rgb || src_layout == ChannelLayout::Rgba || src_layout == ChannelLayout::Bgra)
        && (dst_layout == ChannelLayout::Gray || dst_layout == ChannelLayout::GrayAlpha) {
        Err(ConvertError::RgbToGray)
    } else {
        Ok(())
    }
}

/// A 16-bit sample from two bytes in the given byte order.
pub open spec fn u16_of(b0: u8, b1: u8, little_endian: bool) -> int {
    if little_endian { b0 + 256 * b1 } else { 256 * b0 + b1 }
}

/// One channel value at byte `off`: a byte for U8, a 16-bit sample otherwise.
pub open spec fn read_channel(data: Seq<u8>, off: int, ty: ChannelType, le: bool) -> int {
    if ty == ChannelType::U8 { data[off] as int } else { u16_of(data[off], data[off + 1], le) }
}

/// Largest channel value (opaque alpha).
pub open spec fn max_channel(ty: ChannelType) -> int {
    if ty == ChannelType::U8 { 255 } else { 65535 }
}

/// The source pixel at byte `off` as `[c0, c1, c2, alpha]` in source depth:
/// gray is broadcast to all three color channels, missing alpha is opaque,
/// four-channel layouts are read positionally.
pub open spec fn source_rgba(data: Seq<u8>, off: int, ty: ChannelType, layout: ChannelLayout, le: bool) -> Seq<int> {
    let cs = channel_size(ty) as int;
    match layout {
        ChannelLayout::Gray => {
            let v = read_channel(data, off, ty, le);
            seq![v, v, v, max_channel(ty)]
        },
        ChannelLayout::GrayAlpha => {
            let v = read_channel(data, off, ty, le);
            seq![v, v, v, read_channel(data, off + cs, ty, le)]
        },
        ChannelLayout::Rgb => seq![
            read_channel(data, off, ty, le),
            read_channel(data, off + cs, ty, le),
            read_channel(data, off + 2 * cs, ty, le),
            max_channel(ty),
        ],
        _ => seq![
            read_channel(data, off, ty, le),
            read_channel(data, off + cs, ty, le),
            read_channel(data, off + 2 * cs, ty, le),
            read_channel(data, off + 3 * cs, ty, le),
        ],
    }
}

/// The channels the target layout keeps from `[c0, c1, c2, alpha]`.
pub open spec fn target_channels(v: Seq<int>, layout: ChannelLayout) -> Seq<int> {
    match layout {
        ChannelLayout::Gray => seq![v[0]],
        ChannelLayout::GrayAlpha => seq![v[0], v[3]],
        ChannelLayout::Rgb => seq![v[0], v[1], v[2]],
        _ => seq![v[0], v[1], v[2], v[3]],
    }
}

/// Depth conversion of one value: U8 → U16 multiplies by 257, U16 → U8
/// keeps the high byte, same depth is unchanged.
pub open spec fn rescale(v: int, src_ty: ChannelType, dst_ty: ChannelType) -> int {
    if src_ty == ChannelType::U8 && dst_ty == ChannelType::U16 {
        v * 257
    } else if src_ty == ChannelType::U16 && dst_ty == ChannelType::U8 {
        v / 256
    } else {
        v
    }
}

/// Bytes of one channel value at the target depth.
pub open spec fn encode_channel(v: int, ty: ChannelType, le: bool) -> Seq<u8> {
    if ty == ChannelType::U8 {
        seq![v as u8]
    } else if le {
        seq![(v % 256) as u8, (v / 256) as u8]
    } else {
        seq![(v / 256) as u8, (v % 256) as u8]
    }
}

/// Bytes of a list of channel values, converted and encoded in order.
pub open spec fn encode_channels(vals: Seq<int>, src_ty: ChannelType, dst_ty: ChannelType, le: bool) -> Seq<u8>
    decreases vals.len(),
{
    if vals.len() == 0 {
        seq![]
    } else {
        encode_channels(vals.drop_last(), src_ty, dst_ty, le) + encode_channel(rescale(vals.last(), src_ty, dst_ty), dst_ty, le)
    }
}

/// The converted bytes of pixel `(y, x)` of `s`.
pub open spec fn converted_pixel(s: PixelSliceView, y: int, x: int, dst: PixelDescriptor, le: bool) -> Seq<u8> {
    let src = s.descriptor;
    let off = y * s.stride + x * pixel_size(src);
    encode_channels(
        target_channels(source_rgba(s.data, off, src.channel_type, src.layout, le), dst.layout),
        src.channel_type,
        dst.channel_type,
        le,
    )
}

/// The converted bytes of the first `n` pixels in row-major order.
pub open spec fn converted_prefix(s: PixelSliceView, dst: PixelDescriptor, le: bool, n: nat) -> Seq<u8>
    decreases n,
{
    if n == 0 {
        seq![]
    } else {
        let p = (n - 1) as int;
        converted_prefix(s, dst, le, (n - 1) as nat) + converted_pixel(s, p / (s.width as int), p % (s.width as int), dst, le)
    }
}

/// The target descriptor: requested type and layout, color metadata kept;
/// alpha mode kept when both layouts have alpha, straight when alpha is
/// added, absent when the target has none.
pub open spec fn target_descriptor(src: PixelDescriptor, layout: ChannelLayout, depth: ChannelType) -> PixelDescriptor {
    PixelDescriptor {
        channel_type: depth,
        layout,
        transfer: src.transfer,
        primaries: src.primaries,
        signal_range: src.signal_range,
        alpha: if layout_has_alpha(layout) {
            if layout_has_alpha(src.layout) { src.alpha } else { Some(AlphaMode::Straight) }
        } else {
            None
        },
    }
}

/// Room to hold the converted image: its byte count fits in memory.
pub open spec fn output_fits(s: PixelSliceView, depth: ChannelType, layout: ChannelLayout) -> bool {
    s.width * s.rows * (channel_size(depth) * channel_count(layout)) <= usize::MAX
}

fn validate_conversion(src_ty: ChannelType, src_layout: ChannelLayout, dst_ty: ChannelType, dst_layout: ChannelLayout) -> (r: Result<(), ConvertError>)
    ensures
        r == validate_spec(src_ty, src_layout, dst_ty, dst_layout),
{
    if !matches!(src_ty, ChannelType::U8 | ChannelType::U16) || !matches!(dst_ty, ChannelType::U8 | ChannelType::U16) {
        return Err(ConvertError::UnsupportedChannelType);
    }
    if src_layout != dst_layout && (matches!(src_layout, ChannelLayout::Bgra) || matches!(dst_layout, ChannelLayout::Bgra)) {
        return Err(ConvertError::UnsupportedLayout);
    }
    let src_is_rgb = matches!(src_layout, ChannelLayout::Rgb | ChannelLayout::Rgba | ChannelLayout::Bgra);
    let dst_is_gray = matches!(dst_layout, ChannelLayout::Gray | ChannelLayout::GrayAlpha);
    if src_is_rgb && dst_is_gray {
        return Err(ConvertError::RgbToGray);
    }
    Ok(())
}

/// The bytes of the value 1 in this machine's native order.
///
/// Calls `u16::to_ne_bytes(1)`. The contract only says that the result is
/// one of the two byte orders, which holds on every target.
#[verifier::external_body]
fn native_one_bytes() -> (r: (u8, u8))
    ensures
        r == (1u8, 0u8) || r == (0u8, 1u8),
{
    let b = 1u16.to_ne_bytes();
    (b[0], b[1])
}

fn read_ch(data: &[u8], off: usize, ty: ChannelType, le: bool) -> (r: u16)
    requires
        ty == ChannelType::U8 || ty == ChannelType::U16,
        off + channel_size(ty) <= data@.len(),
    ensures
        r == read_channel(data@, off as int, ty, le),
{
    if matches!(ty, ChannelType::U8) {
        data[off] as u16
    } else if le {
        data[off] as u16 + 256 * (data[off + 1] as u16)
    } else {
        256 * (data[off] as u16) + data[off + 1] as u16
    }
}

fn push_ch(out: &mut Vec<u8>, v: u16, src_ty: ChannelType, dst_ty: ChannelType, le: bool)
    requires
        src_ty == ChannelType::U8 || src_ty == ChannelType::U16,
        dst_ty == ChannelType::U8 || dst_ty == ChannelType::U16,
        src_ty == ChannelType::U8 ==> v <= 255,
    ensures
        final(out)@ == old(out)@ + encode_channel(rescale(v as int, src_ty, dst_ty), dst_ty, le),
{
    let w: u16 = if matches!(src_ty, ChannelType::U8) && matches!(dst_ty, ChannelType::U16) {
        v * 257
    } else if matches!(src_ty, ChannelType::U16) && matches!(dst_ty, ChannelType::U8) {
        v / 256
    } else {
        v
    };
    let ghost ws = rescale(v as int, src_ty, dst_ty);
    assert(w == ws);
    if matches!(dst_ty, ChannelType::U8) {
        assert(w <= 255);
        out.push(w as u8);
        assert(encode_channel(ws, dst_ty, le) =~= seq![w as u8]);
    } else if le {
        out.push((w % 256) as u8);
        out.push((w / 256) as u8);
    } else {
        out.push((w / 256) as u8);
        out.push((w % 256) as u8);
    }
    assert(final(out)@ =~= old(out)@ + encode_channel(ws, dst_ty, le)) by {
        if matches!(dst_ty, ChannelType::U8) {
        } else {
            reveal_with_fuel(encode_channel, 1);
        }
    }
}

/// The channels of a pixel with `n` channels of `cs` bytes end within it.
proof fn lemma_channel_offsets(cs: int, n: int)
    requires
        cs >= 0,
        1 <= n <= 4,
    ensures
        cs <= cs * n,
        n >= 2 ==> 2 * cs <= cs * n,
        n >= 3 ==> 3 * cs <= cs * n,
        n >= 4 ==> 4 * cs <= cs * n,
{
    assert(cs <= cs * n) by (nonlinear_arith)
        requires
            cs >= 0,
            n >= 1,
    ;
    assert(n >= 2 ==> 2 * cs <= cs * n) by (nonlinear_arith)
        requires
            cs >= 0,
    ;
    assert(n >= 3 ==> 3 * cs <= cs * n) by (nonlinear_arith)
        requires
            cs >= 0,
    ;
    assert(n >= 4 ==> 4 * cs <= cs * n) by (nonlinear_arith)
        requires
            cs >= 0,
    ;
}

/// Value bound of a read channel.
proof fn lemma_read_bound(data: Seq<u8>, off: int, ty: ChannelType, le: bool)
    requires
        0 <= off,
        off + channel_size(ty) <= data.len(),
        ty == ChannelType::U8 || ty == ChannelType::U16,
    ensures
        0 <= read_channel(data, off, ty, le) <= max_channel(ty),
{
}

proof fn lemma_encode_channels_push(vals: Seq<int>, v: int, src_ty: ChannelType, dst_ty: ChannelType, le: bool)
    ensures
        encode_channels(vals.push(v), src_ty, dst_ty, le)
            == encode_channels(vals, src_ty, dst_ty, le) + encode_channel(rescale(v, src_ty, dst_ty), dst_ty, le),
{
    assert(vals.push(v).drop_last() =~= vals);
}

/// Offsets of pixel `(y, x)` and its channels stay within the data.
proof fn lemma_pixel_in_bounds(s: PixelSliceView, y: int, x: int)
    requires
        slice_wf(s),
        0 <= y < s.rows,
        0 <= x < s.width,
    ensures
        y * s.stride + x * pixel_size(s.descriptor) + pixel_size(s.descriptor) <= s.data.len(),
        0 <= y * s.stride + x * pixel_size(s.descriptor),
{
    let b = pixel_size(s.descriptor) as int;
    let st = s.stride as int;
    let w = s.width as int;
    let h = s.rows as int;
    assert(y * st + x * b + b <= (h - 1) * st + w * b) by (nonlinear_arith)
        requires
            0 <= y < h,
            0 <= x < w,
            b >= 0,
            st >= w * b,
    ;
    assert(0 <= y * st + x * b) by (nonlinear_arith)
        requires
            0 <= y,
            0 <= x,
            b >= 0,
            st >= 0,
    ;
}

/// Read the pixel at byte `off` as `[c0, c1, c2, alpha]`.
fn read_source(data: &[u8], off: usize, src: PixelDescriptor, le: bool) -> (r: (u16, u16, u16, u16))
    requires
        src.channel_type == ChannelType::U8 || src.channel_type == ChannelType::U16,
        off + pixel_size(src) <= data@.len(),
    ensures
        source_rgba(data@, off as int, src.channel_type, src.layout, le) == seq![r.0 as int, r.1 as int, r.2 as int, r.3 as int],
        src.channel_type == ChannelType::U8 ==> r.0 <= 255 && r.1 <= 255 && r.2 <= 255 && r.3 <= 255,
{
    let ty = src.channel_type;
    let cs = ty.byte_size();
    let amax: u16 = if matches!(ty, ChannelType::U8) { 255 } else { 65535 };
    let n = src.layout.channels();
    let dl = data.len();
    proof {
        lemma_channel_offsets(cs as int, n as int);
        assert(pixel_size(src) == cs * n);
        assert(off + cs * n <= dl);
        assert(off + cs <= dl);
        assert(n >= 2 ==> off + 2 * cs <= dl);
        assert(n >= 3 ==> off + 3 * cs <= dl);
        assert(n >= 4 ==> off + 4 * cs <= dl);
    }
    let r = match src.layout {
        ChannelLayout::Gray => {
            let v = read_ch(data, off, ty, le);
            (v, v, v, amax)
        },
        ChannelLayout::GrayAlpha => {
            let v = read_ch(data, off, ty, le);
            let a = read_ch(data, off + cs, ty, le);
            (v, v, v, a)
        },
        ChannelLayout::Rgb => {
            let r = read_ch(data, off, ty, le);
            let g = read_ch(data, off + cs, ty, le);
            let b = read_ch(data, off + 2 * cs, ty, le);
            (r, g, b, amax)
        },
        _ => {
            let r0 = read_ch(data, off, ty, le);
            let r1 = read_ch(data, off + cs, ty, le);
            let r2 = read_ch(data, off + 2 * cs, ty, le);
            let r3 = read_ch(data, off + 3 * cs, ty, le);
            (r0, r1, r2, r3)
        },
    };
    assert(source_rgba(data@, off as int, ty, src.layout, le) =~= seq![r.0 as int, r.1 as int, r.2 as int, r.3 as int]);
    r
}

/// Append the converted bytes of the values `vals` (one to four channels).
fn push_values(out: &mut Vec<u8>, vals: &[u16], src_ty: ChannelType, dst_ty: ChannelType, le: bool)
    requires
        src_ty == ChannelType::U8 || src_ty == ChannelType::U16,
        dst_ty == ChannelType::U8 || dst_ty == ChannelType::U16,
        src_ty == ChannelType::U8 ==> forall|k: int| 0 <= k < vals@.len() ==> vals@[k] <= 255,
    ensures
        final(out)@ == old(out)@ + encode_channels(vals@.map_values(|x: u16| x as int), src_ty, dst_ty, le),
{
    let ghost start = out@;
    let mut i: usize = 0;
    while i < vals.len()
        invariant
            src_ty == ChannelType::U8 || src_ty == ChannelType::U16,
            dst_ty == ChannelType::U8 || dst_ty == ChannelType::U16,
            src_ty == ChannelType::U8 ==> forall|k: int| 0 <= k < vals@.len() ==> vals@[k] <= 255,
            i <= vals.len(),
            out@ == start + encode_channels(vals@.take(i as int).map_values(|x: u16| x as int), src_ty, dst_ty, le),
        decreases vals.len() - i,
    {
        let ghost before = out@;
        push_ch(out, vals[i], src_ty, dst_ty, le);
        proof {
            let m = vals@.take(i as int).map_values(|x: u16| x as int);
            lemma_encode_channels_push(m, vals@[i as int] as int, src_ty, dst_ty, le);
            assert(vals@.take(i + 1).map_values(|x: u16| x as int) =~= m.push(vals@[i as int] as int));
            assert(out@ =~= start + encode_channels(vals@.take(i + 1).map_values(|x: u16| x as int), src_ty, dst_ty, le));
        }
        i = i + 1;
    }
    assert(vals@.take(vals.len() as int) =~= vals@);
}

/// Append the channels the target layout keeps from `(c0, c1, c2, a)`.
fn push_target(out: &mut Vec<u8>, v: (u16, u16, u16, u16), src_ty: ChannelType, dst: PixelDescriptor, le: bool)
    requires
        src_ty == ChannelType::U8 || src_ty == ChannelType::U16,
        dst.channel_type == ChannelType::U8 || dst.channel_type == ChannelType::U16,
        src_ty == ChannelType::U8 ==> v.0 <= 255 && v.1 <= 255 && v.2 <= 255 && v.3 <= 255,
    ensures
        final(out)@ == old(out)@ + encode_channels(
            target_channels(seq![v.0 as int, v.1 as int, v.2 as int, v.3 as int], dst.layout),
            src_ty,
            dst.channel_type,
            le,
        ),
{
    let (c0, c1, c2, a) = v;
    let ghost kept = target_channels(seq![c0 as int, c1 as int, c2 as int, a as int], dst.layout);
    match dst.layout {
        ChannelLayout::Gray => {
            let vals = [c0];
            assert(vals@.map_values(|x: u16| x as int) =~= kept);
            push_values(out, vals.as_slice(), src_ty, dst.channel_type, le);
        },
        ChannelLayout::GrayAlpha => {
            let vals = [c0, a];
            assert(vals@.map_values(|x: u16| x as int) =~= kept);
            push_values(out, vals.as_slice(), src_ty, dst.channel_type, le);
        },
        ChannelLayout::Rgb => {
            let vals = [c0, c1, c2];
            assert(vals@.map_values(|x: u16| x as int) =~= kept);
            push_values(out, vals.as_slice(), src_ty, dst.channel_type, le);
        },
        _ => {
            let vals = [c0, c1, c2, a];
            assert(vals@.map_values(|x: u16| x as int) =~= kept);
            push_values(out, vals.as_slice(), src_ty, dst.channel_type, le);
        },
    }
}

/// Convert the pixel at byte `off` and append its bytes to `out`.
fn push_pixel(out: &mut Vec<u8>, data: &[u8], off: usize, src: PixelDescriptor, dst: PixelDescriptor, le: bool)
    requires
        validate_spec(src.channel_type, src.layout, dst.channel_type, dst.layout) is Ok,
        off + pixel_size(src) <= data@.len(),
    ensures
        final(out)@ == old(out)@ + encode_channels(
            target_channels(source_rgba(data@, off as int, src.channel_type, src.layout, le), dst.layout),
            src.channel_type,
            dst.channel_type,
            le,
        ),
{
    let v = read_source(data, off, src, le);
    push_target(out, v, src.channel_type, dst, le);
}

/// Convert all pixels of a valid slice in row-major order to the format
/// `dst`; 16-bit samples are read and written little-endian when `le`
/// holds and big-endian otherwise.
pub fn convert_pixels(s: &PixelSlice, dst: PixelDescriptor, le: bool) -> (r: Vec<u8>)
    requires
        s.wf(),
        validate_spec(s@.descriptor.channel_type, s@.descriptor.layout, dst.channel_type, dst.layout) is Ok,
    ensures
        r@ == converted_prefix(s@, dst, le, s@.width * s@.rows),
{
    let data = s.data();
    let w = s.width();
    let h = s.rows();
    let stride = s.stride();
    let src = s.descriptor();
    let bpp = src.bytes_per_pixel();
    let mut out: Vec<u8> = Vec::new();
    let mut y: u32 = 0;
    while y < h
        invariant
            s.wf(),
            data@ == s@.data,
            w == s@.width,
            h == s@.rows,
            stride == s@.stride,
            src == s@.descriptor,
            bpp == pixel_size(src),
            validate_spec(src.channel_type, src.layout, dst.channel_type, dst.layout) is Ok,
            y <= h,
            out@ == converted_prefix(s@, dst, le, (y * w) as nat),
        decreases h - y,
    {
        let mut x: u32 = 0;
        while x < w
            invariant
                s.wf(),
                data@ == s@.data,
                w == s@.width,
                h == s@.rows,
                stride == s@.stride,
                src == s@.descriptor,
                bpp == pixel_size(src),
                validate_spec(src.channel_type, src.layout, dst.channel_type, dst.layout) is Ok,
                y < h,
                x <= w,
                out@ == converted_prefix(s@, dst, le, (y * w + x) as nat),
            decreases w - x,
        {
            proof {
                lemma_pixel_in_bounds(s@, y as int, x as int);
                assert(0 <= (y as int) * (stride as int) <= (y as int) * (stride as int) + (x as int) * (bpp as int)) by (nonlinear_arith)
                    requires
                        x >= 0,
                        bpp >= 0,
                        y >= 0,
                        stride >= 0,
                ;
            }
            let dl = data.len();
            assert((y as int) * (stride as int) + (x as int) * (bpp as int) + (bpp as int) <= dl);
            let off = (y as usize) * stride + (x as usize) * bpp;
            push_pixel(&mut out, data, off, src, dst, le);
            proof {
                let p = y * w + x;
                assert(p / (w as int) == y && p % (w as int) == x) by (nonlinear_arith)
                    requires
                        p == y * w + x,
                        0 <= x < w,
                        0 <= y,
                ;
                assert(converted_prefix(s@, dst, le, (p + 1) as nat)
                    == converted_prefix(s@, dst, le, p as nat) + converted_pixel(s@, y as int, x as int, dst, le));
            }
            x = x + 1;
        }
        proof {
            assert(y * w + w == (y + 1) * w) by (nonlinear_arith);
        }
        y = y + 1;
    }
    proof {
        assert(h * w == w * h) by (nonlinear_arith);
    }
    out
}

/// Byte count of a converted image.
proof fn lemma_converted_prefix_len(s: PixelSliceView, dst: PixelDescriptor, le: bool, n: nat)
    requires
        dst.channel_type == ChannelType::U8 || dst.channel_type == ChannelType::U16,
    ensures
        converted_prefix(s, dst, le, n).len() == n * pixel_size(dst),
    decreases n,
{
    if n > 0 {
        lemma_converted_prefix_len(s, dst, le, (n - 1) as nat);
        let p = (n - 1) as int;
        let y = p / (s.width as int);
        let x = p % (s.width as int);
        let src = s.descriptor;
        let off = y * s.stride + x * pixel_size(src);
        let vals = target_channels(source_rgba(s.data, off, src.channel_type, src.layout, le), dst.layout);
        assert(vals.len() == channel_count(dst.layout));
        lemma_encode_channels_len(vals, src.channel_type, dst.channel_type, le);
        assert(converted_pixel(s, y, x, dst, le).len() == pixel_size(dst)) by (nonlinear_arith)
            requires
                converted_pixel(s, y, x, dst, le) == encode_channels(vals, src.channel_type, dst.channel_type, le),
                encode_channels(vals, src.channel_type, dst.channel_type, le).len() == vals.len() * channel_size(dst.channel_type),
                vals.len() == channel_count(dst.layout),
                pixel_size(dst) == channel_size(dst.channel_type) * channel_count(dst.layout),
        ;
        assert((n - 1) * pixel_size(dst) + pixel_size(dst) == n * pixel_size(dst)) by (nonlinear_arith);
        assert(converted_prefix(s, dst, le, n) == converted_prefix(s, dst, le, (n - 1) as nat) + converted_pixel(s, y, x, dst, le));
    } else {
        assert(0 * pixel_size(dst) == 0);
    }
}

proof fn lemma_encode_channels_len(vals: Seq<int>, src_ty: ChannelType, dst_ty: ChannelType, le: bool)
    requires
        dst_ty == ChannelType::U8 || dst_ty == ChannelType::U16,
    ensures
        encode_channels(vals, src_ty, dst_ty, le).len() == vals.len() * channel_size(dst_ty),
    decreases vals.len(),
{
    if vals.len() > 0 {
        lemma_encode_channels_len(vals.drop_last(), src_ty, dst_ty, le);
        assert((vals.len() - 1) * channel_size(dst_ty) + channel_size(dst_ty) == vals.len() * channel_size(dst_ty)) by (nonlinear_arith);
    }
}

impl<'a> PixelSlice<'a> {
    /// Convert to another layout and depth in one pass.
    ///
    /// On success the result is a packed buffer with the target descriptor
    /// whose bytes are the converted pixels in row-major order; 16-bit
    /// samples are read and written in this machine's byte order.
    pub fn convert(&self, target_layout: ChannelLayout, target_depth: ChannelType, gray_expand: GrayExpand) -> (r: Result<
        PixelBuffer,
        ConvertError,
    >)
        requires
            self.wf(),
            output_fits(self@, target_depth, target_layout),
        ensures
            validate_spec(self@.descriptor.channel_type, self@.descriptor.layout, target_depth, target_layout) is Err
                ==> r == Err::<PixelBuffer, ConvertError>(
                validate_spec(self@.descriptor.channel_type, self@.descriptor.layout, target_depth, target_layout)->Err_0,
            ),
            validate_spec(self@.descriptor.channel_type, self@.descriptor.layout, target_depth, target_layout) is Ok
                ==> r is Ok && {
                let b = r->Ok_0;
                let dst = target_descriptor(self@.descriptor, target_layout, target_depth);
                &&& b.wf()
                &&& b@.width == self@.width
                &&& b@.height == self@.rows
                &&& b@.descriptor == dst
                &&& b@.working_space == self@.working_space
                &&& b@.color_context == self@.color_context
                &&& (b@.data == converted_prefix(self@, dst, true, self@.width * self@.rows)
                    || b@.data == converted_prefix(self@, dst, false, self@.width * self@.rows))
            },
    {
        let src = self.descriptor();
        match validate_conversion(src.channel_type, src.layout, target_depth, target_layout) {
            Err(e) => return Err(e),
            Ok(()) => {},
        }
        let alpha = if target_layout.has_alpha() {
            if src.layout.has_alpha() { src.alpha } else { Some(AlphaMode::Straight) }
        } else {
            None
        };
        let dst = PixelDescriptor {
            channel_type: target_depth,
            layout: target_layout,
            transfer: src.transfer,
            primaries: src.primaries,
            signal_range: src.signal_range,
            alpha,
        };
        let one = native_one_bytes();
        let le = one.0 == 1;
        let data = convert_pixels(self, dst, le);
        let w = self.width();
        let h = self.rows();
        proof {
            lemma_converted_prefix_len(self@, dst, le, self@.width * self@.rows);
        }
        let buf = PixelBuffer::from_packed(data, w, h, dst).with_working_space(self.working_space());
        match self.color_context() {
            Some(ctx) => Ok(buf.with_color_context(share_color_context(ctx))),
            None => Ok(buf),
        }
    }

    /// Add an alpha channel (gray → gray+alpha, RGB → RGBA, opaque);
    /// layouts that already have alpha are copied.
    pub fn with_alpha(&self) -> (r: PixelBuffer)
        requires
            self.wf(),
            self@.descriptor.channel_type == ChannelType::U8 || self@.descriptor.channel_type == ChannelType::U16,
            output_fits(self@, self@.descriptor.channel_type, alpha_layout(self@.descriptor.layout)),
        ensures
            r.wf(),
            r@.width == self@.width,
            r@.height == self@.rows,
            r@.descriptor == target_descriptor(self@.descriptor, alpha_layout(self@.descriptor.layout), self@.descriptor.channel_type),
            r@.working_space == self@.working_space,
            r@.color_context == self@.color_context,
            r@.data == converted_prefix(self@, r@.descriptor, true, self@.width * self@.rows)
                || r@.data == converted_prefix(self@, r@.descriptor, false, self@.width * self@.rows),
    {
        let desc = self.descriptor();
        let target = match desc.layout {
            ChannelLayout::Gray => ChannelLayout::GrayAlpha,
            ChannelLayout::Rgb => ChannelLayout::Rgba,
            other => other,
        };
        match self.convert(target, desc.channel_type, GrayExpand::Broadcast) {
            Ok(b) => b,
            Err(_) => {
                assert(false);
                PixelBuffer::from_packed(Vec::new(), 0, 0, desc)
            },
        }
    }

    /// Widen to U16 (U8 values are multiplied by 257); U16 is copied.
    pub fn to_u16(&self) -> (r: PixelBuffer)
        requires
            self.wf(),
            self@.descriptor.channel_type == ChannelType::U8 || self@.descriptor.channel_type == ChannelType::U16,
            output_fits(self@, ChannelType::U16, self@.descriptor.layout),
        ensures
            r.wf(),
            r@.width == self@.width,
            r@.height == self@.rows,
            r@.descriptor == target_descriptor(self@.descriptor, self@.descriptor.layout, ChannelType::U16),
            r@.working_space == self@.working_space,
            r@.color_context == self@.color_context,
            r@.data == converted_prefix(self@, r@.descriptor, true, self@.width * self@.rows)
                || r@.data == converted_prefix(self@, r@.descriptor, false, self@.width * self@.rows),
    {
        let desc = self.descriptor();
        match self.convert(desc.layout, ChannelType::U16, GrayExpand::Broadcast) {
            Ok(b) => b,
            Err(_) => {
                assert(false);
                PixelBuffer::from_packed(Vec::new(), 0, 0, desc)
            },
        }
    }

    /// Narrow to U8 (U16 values keep their high byte); U8 is copied.
    pub fn to_u8(&self) -> (r: PixelBuffer)
        requires
            self.wf(),
            self@.descriptor.channel_type == ChannelType::U8 || self@.descriptor.channel_type == ChannelType::U16,
            output_fits(self@, ChannelType::U8, self@.descriptor.layout),
        ensures
            r.wf(),
            r@.width == self@.width,
            r@.height == self@.rows,
            r@.descriptor == target_descriptor(self@.descriptor, self@.descriptor.layout, ChannelType::U8),
            r@.working_space == self@.working_space,
            r@.color_context == self@.color_context,
            r@.data == converted_prefix(self@, r@.descriptor, true, self@.width * self@.rows)
                || r@.data == converted_prefix(self@, r@.descriptor, false, self@.width * self@.rows),
    {
        let desc = self.descriptor();
        match self.convert(desc.layout, ChannelType::U8, GrayExpand::Broadcast) {
            Ok(b) => b,
            Err(_) => {
                assert(false);
                PixelBuffer::from_packed(Vec::new(), 0, 0, desc)
            },
        }
    }
}

/// The layout with an alpha channel added (unchanged if it has one).
pub open spec fn alpha_layout(l: ChannelLayout) -> ChannelLayout {
    match l {
        ChannelLayout::Gray => ChannelLayout::GrayAlpha,
        ChannelLayout::Rgb => ChannelLayout::Rgba,
        other => other,
    }
}


// ---------------------------------------------------------------------
// Depth round trip
// ---------------------------------------------------------------------

proof fn lemma_pixel_len(s: PixelSliceView, y: int, x: int, dst: PixelDescriptor, le: bool)
    requires
        dst.channel_type == ChannelType::U8 || dst.channel_type == ChannelType::U16,
    ensures
        converted_pixel(s, y, x, dst, le).len() == pixel_size(dst),
{
    let src = s.descriptor;
    let off = y * s.stride + x * pixel_size(src);
    let vals = target_channels(source_rgba(s.data, off, src.channel_type, src.layout, le), dst.layout);
    assert(vals.len() == channel_count(dst.layout));
    lemma_encode_channels_len(vals, src.channel_type, dst.channel_type, le);
    assert(vals.len() * channel_size(dst.channel_type) == pixel_size(dst)) by (nonlinear_arith)
        requires
            vals.len() == channel_count(dst.layout),
            pixel_size(dst) == channel_size(dst.channel_type) * channel_count(dst.layout),
    ;
}

/// Pixel `p` of a converted image occupies bytes `p * size .. (p + 1) * size`.
proof fn lemma_prefix_pixel(s: PixelSliceView, dst: PixelDescriptor, le: bool, n: nat, p: int)
    requires
        dst.channel_type == ChannelType::U8 || dst.channel_type == ChannelType::U16,
        0 <= p < n,
    ensures
        p * pixel_size(dst) + pixel_size(dst) <= converted_prefix(s, dst, le, n).len(),
        converted_prefix(s, dst, le, n).subrange(p * pixel_size(dst), p * pixel_size(dst) + pixel_size(dst))
            == converted_pixel(s, p / (s.width as int), p % (s.width as int), dst, le),
    decreases n,
{
    let ps = pixel_size(dst) as int;
    let q = (n - 1) as int;
    let pre = converted_prefix(s, dst, le, (n - 1) as nat);
    let last = converted_pixel(s, q / (s.width as int), q % (s.width as int), dst, le);
    lemma_converted_prefix_len(s, dst, le, (n - 1) as nat);
    lemma_pixel_len(s, q / (s.width as int), q % (s.width as int), dst, le);
    assert(converted_prefix(s, dst, le, n) == pre + last);
    assert(q * ps + ps == n * ps) by (nonlinear_arith)
        requires
            q == n - 1,
    ;
    if p < q {
        lemma_prefix_pixel(s, dst, le, (n - 1) as nat, p);
        assert(p * ps + ps <= q * ps) by (nonlinear_arith)
            requires
                p < q,
                ps >= 0,
        ;
        assert((pre + last).subrange(p * ps, p * ps + ps) =~= pre.subrange(p * ps, p * ps + ps));
    } else {
        assert((pre + last).subrange(p * ps, p * ps + ps) =~= last);
    }
}

/// Widening byte values to 16 bits writes each value twice, so either
/// byte order reads back `v * 257`.
proof fn lemma_widened_reads(vals: Seq<int>, le1: bool, le2: bool)
    requires
        forall|k: int| 0 <= k < vals.len() ==> 0 <= #[trigger] vals[k] <= 255,
    ensures
        encode_channels(vals, ChannelType::U8, ChannelType::U16, le1).len() == 2 * vals.len(),
        forall|i: int| 0 <= i < vals.len() ==>
            #[trigger] u16_of(
                encode_channels(vals, ChannelType::U8, ChannelType::U16, le1)[2 * i],
                encode_channels(vals, ChannelType::U8, ChannelType::U16, le1)[2 * i + 1],
                le2,
            ) == vals[i] * 257,
    decreases vals.len(),
{
    if vals.len() > 0 {
        let init = vals.drop_last();
        let v = vals.last();
        lemma_widened_reads(init, le1, le2);
        let a = encode_channels(init, ChannelType::U8, ChannelType::U16, le1);
        let w = v * 257;
        let tail = encode_channel(w, ChannelType::U16, le1);
        assert(w % 256 == v && w / 256 == v);
        assert(tail =~= seq![v as u8, v as u8]);
        let b = encode_channels(vals, ChannelType::U8, ChannelType::U16, le1);
        assert(b == a + tail);
        assert forall|i: int| 0 <= i < vals.len() implies #[trigger] u16_of(b[2 * i], b[2 * i + 1], le2) == vals[i] * 257 by {
            if i < vals.len() - 1 {
                assert(b[2 * i] == a[2 * i]);
                assert(b[2 * i + 1] == a[2 * i + 1]);
                assert(init[i] == vals[i]);
            } else {
                assert(b[2 * i] == v as u8);
                assert(b[2 * i + 1] == v as u8);
            }
        }
    }
}

/// Narrowing `v * 257` keeps `v`: the same bytes as a same-depth copy.
proof fn lemma_narrowed(wide: Seq<int>, vals: Seq<int>, le: bool)
    requires
        wide.len() == vals.len(),
        forall|k: int| 0 <= k < vals.len() ==> 0 <= #[trigger] vals[k] <= 255,
        forall|k: int| 0 <= k < vals.len() ==> #[trigger] wide[k] == vals[k] * 257,
    ensures
        encode_channels(wide, ChannelType::U16, ChannelType::U8, le)
            == encode_channels(vals, ChannelType::U8, ChannelType::U8, le),
    decreases vals.len(),
{
    if vals.len() > 0 {
        let v = vals.last();
        assert(wide.last() == v * 257);
        assert((v * 257) / 256 == v);
        assert forall|k: int| 0 <= k < vals.drop_last().len() implies #[trigger] wide.drop_last()[k] == vals.drop_last()[k] * 257 by {
            assert(wide[k] == vals[k] * 257);
        }
        lemma_narrowed(wide.drop_last(), vals.drop_last(), le);
    }
}

/// The widened image of an 8-bit slice, as a packed slice.
pub open spec fn widened_slice(s: PixelSliceView, le: bool) -> PixelSliceView {
    let d16 = target_descriptor(s.descriptor, s.descriptor.layout, ChannelType::U16);
    PixelSliceView {
        data: converted_prefix(s, d16, le, s.width * s.rows),
        width: s.width,
        rows: s.rows,
        stride: s.width * pixel_size(d16),
        descriptor: d16,
        working_space: s.working_space,
        color_context: s.color_context,
    }
}

proof fn lemma_roundtrip_pixel(s: PixelSliceView, le1: bool, le2: bool, dst: PixelDescriptor, p: int)
    requires
        slice_wf(s),
        s.descriptor.channel_type == ChannelType::U8,
        dst.channel_type == ChannelType::U8,
        dst.layout == s.descriptor.layout,
        0 <= p < s.width * s.rows,
    ensures
        converted_pixel(widened_slice(s, le1), p / (s.width as int), p % (s.width as int), dst, le2)
            == converted_pixel(s, p / (s.width as int), p % (s.width as int), dst, le2),
{
    let w = s.width as int;
    let l = s.descriptor.layout;
    let d16 = target_descriptor(s.descriptor, l, ChannelType::U16);
    let s2 = widened_slice(s, le1);
    let y = p / w;
    let x = p % w;
    assert(w > 0) by (nonlinear_arith)
        requires
            w == s.width,
            0 <= p < s.width * s.rows,
    ;
    assert(0 <= y < s.rows && 0 <= x < w && y * w + x == p) by (nonlinear_arith)
        requires
            w > 0,
            0 <= p < w * s.rows,
            y == p / w,
            x == p % w,
    ;
    let ps16 = pixel_size(d16) as int;
    let off2 = y * (w * ps16) + x * ps16;
    assert(off2 == p * ps16) by (nonlinear_arith)
        requires
            off2 == y * (w * ps16) + x * ps16,
            y * w + x == p,
    ;
    lemma_prefix_pixel(s, d16, le1, (s.width * s.rows) as nat, p);
    let cp = converted_pixel(s, y, x, d16, le1);
    let src = s.descriptor;
    let off = y * s.stride + x * pixel_size(src);
    lemma_pixel_in_bounds(s, y, x);
    let rgba = source_rgba(s.data, off, ChannelType::U8, l, le1);
    let rgba2 = source_rgba(s.data, off, ChannelType::U8, l, le2);
    let cs = 1int;
    lemma_channel_offsets(cs, channel_count(l) as int);
    lemma_read_bound(s.data, off, ChannelType::U8, le1);
    if channel_count(l) >= 2 {
        lemma_read_bound(s.data, off + 1, ChannelType::U8, le1);
    }
    if channel_count(l) >= 3 {
        lemma_read_bound(s.data, off + 2, ChannelType::U8, le1);
    }
    if channel_count(l) >= 4 {
        lemma_read_bound(s.data, off + 3, ChannelType::U8, le1);
    }
    assert(rgba =~= rgba2);
    let tc = target_channels(rgba, l);
    assert forall|k: int| 0 <= k < tc.len() implies 0 <= #[trigger] tc[k] <= 255 by {}
    assert(cp == encode_channels(tc, ChannelType::U8, ChannelType::U16, le1));
    lemma_widened_reads(tc, le1, le2);
    let data2 = s2.data;
    assert(data2.subrange(off2, off2 + ps16) == cp);
    assert forall|j: int| 0 <= j < ps16 implies #[trigger] data2[off2 + j] == cp[j] by {
        assert(data2.subrange(off2, off2 + ps16)[j] == data2[off2 + j]);
    }
    let rgba16 = source_rgba(data2, off2, ChannelType::U16, l, le2);
    let wide = target_channels(rgba16, l);
    assert(wide.len() == tc.len());
    assert forall|k: int| 0 <= k < tc.len() implies #[trigger] wide[k] == tc[k] * 257 by {
        assert(u16_of(cp[2 * k], cp[2 * k + 1], le2) == tc[k] * 257);
        assert(data2[off2 + 2 * k] == cp[2 * k]);
        assert(data2[off2 + 2 * k + 1] == cp[2 * k + 1]);
    }
    lemma_narrowed(wide, tc, le2);
}

proof fn lemma_roundtrip_prefix(s: PixelSliceView, le1: bool, le2: bool, dst: PixelDescriptor, n: nat)
    requires
        slice_wf(s),
        s.descriptor.channel_type == ChannelType::U8,
        dst.channel_type == ChannelType::U8,
        dst.layout == s.descriptor.layout,
        n <= s.width * s.rows,
    ensures
        converted_prefix(widened_slice(s, le1), dst, le2, n) == converted_prefix(s, dst, le2, n),
    decreases n,
{
    if n > 0 {
        lemma_roundtrip_prefix(s, le1, le2, dst, (n - 1) as nat);
        lemma_roundtrip_pixel(s, le1, le2, dst, (n - 1) as int);
    }
}

/// Widening 8-bit samples to 16 bits (×257) and narrowing them back
/// (keeping the high byte) gives the same bytes as converting the 8-bit
/// image to 8 bits directly, whichever byte order each step uses.
pub proof fn lemma_u8_u16_roundtrip(s: PixelSliceView, le1: bool, le2: bool)
    requires
        slice_wf(s),
        s.descriptor.channel_type == ChannelType::U8,
    ensures
        converted_prefix(
            widened_slice(s, le1),
            target_descriptor(widened_slice(s, le1).descriptor, s.descriptor.layout, ChannelType::U8),
            le2,
            s.width * s.rows,
        ) == converted_prefix(
            s,
            target_descriptor(widened_slice(s, le1).descriptor, s.descriptor.layout, ChannelType::U8),
            le2,
            s.width * s.rows,
        ),
{
    let d8 = target_descriptor(widened_slice(s, le1).descriptor, s.descriptor.layout, ChannelType::U8);
    lemma_roundtrip_prefix(s, le1, le2, d8, s.width * s.rows);
}

/// Converting 8-bit pixels to their own layout and depth copies them:
/// each output pixel is the source pixel's bytes.
pub proof fn lemma_same_format_copies(s: PixelSliceView, y: int, x: int, dst: PixelDescriptor, le: bool)
    requires
        slice_wf(s),
        s.descriptor.channel_type == ChannelType::U8,
        dst.channel_type == ChannelType::U8,
        dst.layout == s.descriptor.layout,
        0 <= y < s.rows,
        0 <= x < s.width,
    ensures
        ({
            let off = y * s.stride + x * pixel_size(s.descriptor);
            converted_pixel(s, y, x, dst, le) == s.data.subrange(off, off + pixel_size(s.descriptor))
        }),
{
    let off = y * s.stride + x * pixel_size(s.descriptor);
    lemma_pixel_in_bounds(s, y, x);
    let d = s.data;
    reveal_with_fuel(encode_channels, 5);
    let n = channel_count(s.descriptor.layout) as int;
    assert(pixel_size(s.descriptor) == n);
    let got = converted_pixel(s, y, x, dst, le);
    assert forall|k: int| 0 <= k < n implies (#[trigger] d[off + k] as int) as u8 == d[off + k] by {}
    assert(got =~= d.subrange(off, off + n));
}

} // verus!
