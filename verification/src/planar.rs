//! Planar pixel layout descriptors and plane masks.

use vstd::prelude::*;
use crate::descriptor::{ChannelType, TransferFunction};

verus! {

/// Maximum number of planes in a planar layout.
pub const MAX_PLANES: usize = 8;

/// Semantic meaning of a plane in a planar layout.
#[derive(Clone, Copy, Debug, PartialEq, Eq, Hash, Structural)]
pub enum PlaneSemantic {
    /// Luminance (Y in YCbCr).
    Luma,
    /// Blue-difference chroma (Cb / U).
    ChromaCb,
    /// Red-difference chroma (Cr / V).
    ChromaCr,
    /// Red channel.
    Red,
    /// Green channel.
    Green,
    /// Blue channel.
    Blue,
    /// Alpha / transparency.
    Alpha,
    /// Oklab lightness.
    OklabL,
    /// Oklab green-red axis.
    OklabA,
    /// Oklab blue-yellow axis.
    OklabB,
    /// UltraHDR gain map.
    GainMap,
    /// Single-channel grayscale.
    Gray,
}

/// YCbCr matrix coefficients.
#[derive(Clone, Copy, Debug, PartialEq, Eq, Hash, Structural)]
pub enum YuvMatrix {
    /// No matrix (RGB or non-YCbCr planes).
    Identity,
    /// BT.601.
    Bt601,
    /// BT.709.
    Bt709,
    /// BT.2020.
    Bt2020,
}

/// Chroma subsampling scheme.
#[derive(Clone, Copy, Debug, PartialEq, Eq, Hash, Structural)]
pub enum Subsampling {
    /// 4:4:4, no subsampling.
    S444,
    /// 4:2:2, half horizontal chroma.
    S422,
    /// 4:2:0, half horizontal and vertical chroma.
    S420,
    /// 4:1:1, quarter horizontal chroma.
    S411,
}

/// Descriptor for one plane: meaning, subsampling divisors, storage type.
#[derive(Clone, Copy, Debug, PartialEq, Eq, Hash, Structural)]
pub struct PlaneSpec {
    /// What this plane represents.
    pub semantic: PlaneSemantic,
    /// Horizontal subsampling divisor (1 = full, 2 = half, 4 = quarter).
    pub h_subsample: u8,
    /// Vertical subsampling divisor (1 = full, 2 = half).
    pub v_subsample: u8,
    /// Channel storage type for this plane.
    pub channel_type: ChannelType,
}

/// `ceil(n / d)` for positive `d`.
pub open spec fn div_ceil(n: int, d: int) -> int {
    (n + d - 1) / d
}

fn div_ceil_u32(n: u32, d: u32) -> (r: u32)
    requires
        d > 0,
    ensures
        r == div_ceil(n as int, d as int),
{
    let q = n / d;
    let rem = n % d;
    proof {
        assert(n == q * d + rem) by (nonlinear_arith)
            requires
                q == n / d,
                rem == n % d,
                d > 0,
        ;
        assert(div_ceil(n as int, d as int) == if rem == 0 { q as int } else { q + 1 }) by (nonlinear_arith)
            requires
                n == q * d + rem,
                0 <= rem < d,
                d > 0,
        ;
    }
    if rem == 0 {
        q
    } else {
        assert(q < u32::MAX) by (nonlinear_arith)
            requires
                n == q * d + rem,
                rem > 0,
                d > 0,
                n <= u32::MAX,
        ;
        q + 1
    }
}

impl PlaneSpec {
    /// Full-resolution plane.
    pub fn full(semantic: PlaneSemantic, channel_type: ChannelType) -> (r: Self)
        ensures
            r == (PlaneSpec { semantic, h_subsample: 1, v_subsample: 1, channel_type }),
    {
        PlaneSpec { semantic, h_subsample: 1, v_subsample: 1, channel_type }
    }

    /// Subsampled plane.
    pub fn subsampled(semantic: PlaneSemantic, h_sub: u8, v_sub: u8, channel_type: ChannelType) -> (r: Self)
        ensures
            r == (PlaneSpec { semantic, h_subsample: h_sub, v_subsample: v_sub, channel_type }),
    {
        PlaneSpec { semantic, h_subsample: h_sub, v_subsample: v_sub, channel_type }
    }

    /// Width of this plane for reference (luma) width `ref_w`, rounded up.
    pub fn plane_width(self, ref_w: u32) -> (r: u32)
        requires
            self.h_subsample > 0,
        ensures
            r == div_ceil(ref_w as int, self.h_subsample as int),
    {
        div_ceil_u32(ref_w, self.h_subsample as u32)
    }

    /// Height of this plane for reference (luma) height `ref_h`, rounded up.
    pub fn plane_height(self, ref_h: u32) -> (r: u32)
        requires
            self.v_subsample > 0,
        ensures
            r == div_ceil(ref_h as int, self.v_subsample as int),
    {
        div_ceil_u32(ref_h, self.v_subsample as u32)
    }

    /// Whether this plane is subsampled in either dimension.
    pub fn is_subsampled(self) -> (r: bool)
        ensures
            r == (self.h_subsample > 1 || self.v_subsample > 1),
    {
        self.h_subsample > 1 || self.v_subsample > 1
    }
}

/// Fixed-size planar format descriptor: up to [`MAX_PLANES`] planes.
#[derive(Clone, Copy, Debug, PartialEq, Eq, Hash)]
pub struct PlanarDescriptor {
    planes: [PlaneSpec; 8],
    plane_count: u8,
    /// YCbCr matrix coefficients.
    pub yuv_matrix: YuvMatrix,
    /// Transfer function.
    pub transfer: TransferFunction,
}

impl View for PlanarDescriptor {
    type V = (Seq<PlaneSpec>, YuvMatrix, TransferFunction);

    /// The active planes in order, the matrix and the transfer function.
    closed spec fn view(&self) -> (Seq<PlaneSpec>, YuvMatrix, TransferFunction) {
        (self.planes@.subrange(0, self.plane_count as int), self.yuv_matrix, self.transfer)
    }
}

impl PlanarDescriptor {
    /// Internal consistency: the count fits the fixed storage.
    pub closed spec fn wf(&self) -> bool {
        self.plane_count <= 8
    }

    /// Descriptor holding `specs` in order.
    pub fn new(specs: &[PlaneSpec], yuv_matrix: YuvMatrix, transfer: TransferFunction) -> (r: Self)
        requires
            specs.len() <= MAX_PLANES,
        ensures
            r.wf(),
            r@.0 == specs@,
            r@.1 == yuv_matrix,
            r@.2 == transfer,
    {
        let filler = PlaneSpec::full(PlaneSemantic::Gray, ChannelType::U8);
        let mut planes = [filler; 8];
        let mut i: usize = 0;
        while i < specs.len()
            invariant
                specs.len() <= 8,
                i <= specs.len(),
                forall|j: int| 0 <= j < i ==> planes@[j] == specs@[j],
            decreases specs.len() - i,
        {
            planes[i] = specs[i];
            i = i + 1;
        }
        let r = PlanarDescriptor { planes, plane_count: specs.len() as u8, yuv_matrix, transfer };
        assert(r@.0 =~= specs@);
        r
    }

    /// Number of planes.
    pub fn plane_count(&self) -> (r: u8)
        requires
            self.wf(),
        ensures
            r == self@.0.len(),
    {
        self.plane_count
    }

    /// The active plane specs.
    pub fn planes(&self) -> (r: &[PlaneSpec])
        requires
            self.wf(),
        ensures
            r@ == self@.0,
    {
        vstd::slice::slice_subrange(self.planes.as_slice(), 0, self.plane_count as usize)
    }

    /// Plane spec at `idx`.
    pub fn plane(&self, idx: usize) -> (r: PlaneSpec)
        requires
            self.wf(),
            idx < self@.0.len(),
        ensures
            r == self@.0[idx as int],
    {
        self.planes[idx]
    }

    /// Width of plane `idx` for reference width `ref_w`.
    pub fn plane_width(&self, idx: usize, ref_w: u32) -> (r: u32)
        requires
            self.wf(),
            idx < self@.0.len(),
            self@.0[idx as int].h_subsample > 0,
        ensures
            r == div_ceil(ref_w as int, self@.0[idx as int].h_subsample as int),
    {
        self.plane(idx).plane_width(ref_w)
    }

    /// Height of plane `idx` for reference height `ref_h`.
    pub fn plane_height(&self, idx: usize, ref_h: u32) -> (r: u32)
        requires
            self.wf(),
            idx < self@.0.len(),
            self@.0[idx as int].v_subsample > 0,
        ensures
            r == div_ceil(ref_h as int, self@.0[idx as int].v_subsample as int),
    {
        self.plane(idx).plane_height(ref_h)
    }

    /// Three YCbCr planes: full luma, chroma divided by `h` × `v`, sRGB transfer.
    fn ycbcr(channel_type: ChannelType, yuv_matrix: YuvMatrix, h: u8, v: u8) -> (r: Self)
        ensures
            r.wf(),
            r@.0 == ycbcr_planes(channel_type, h, v),
            r@.1 == yuv_matrix,
            r@.2 == TransferFunction::Srgb,
    {
        let specs = [
            PlaneSpec::full(PlaneSemantic::Luma, channel_type),
            PlaneSpec::subsampled(PlaneSemantic::ChromaCb, h, v, channel_type),
            PlaneSpec::subsampled(PlaneSemantic::ChromaCr, h, v, channel_type),
        ];
        let r = Self::new(specs.as_slice(), yuv_matrix, TransferFunction::Srgb);
        assert(r@.0 =~= ycbcr_planes(channel_type, h, v));
        r
    }

    /// YCbCr 4:2:0 (Y full, Cb and Cr halved in both directions).
    pub fn ycbcr_420(channel_type: ChannelType, yuv_matrix: YuvMatrix) -> (r: Self)
        ensures
            r.wf(),
            r@.0 == ycbcr_planes(channel_type, 2, 2),
            r@.1 == yuv_matrix,
            r@.2 == TransferFunction::Srgb,
    {
        Self::ycbcr(channel_type, yuv_matrix, 2, 2)
    }

    /// YCbCr 4:2:2 (Y full, Cb and Cr halved horizontally).
    pub fn ycbcr_422(channel_type: ChannelType, yuv_matrix: YuvMatrix) -> (r: Self)
        ensures
            r.wf(),
            r@.0 == ycbcr_planes(channel_type, 2, 1),
            r@.1 == yuv_matrix,
            r@.2 == TransferFunction::Srgb,
    {
        Self::ycbcr(channel_type, yuv_matrix, 2, 1)
    }

    /// YCbCr 4:4:4 (all planes full resolution).
    pub fn ycbcr_444(channel_type: ChannelType, yuv_matrix: YuvMatrix) -> (r: Self)
        ensures
            r.wf(),
            r@.0 == ycbcr_planes(channel_type, 1, 1),
            r@.1 == yuv_matrix,
            r@.2 == TransferFunction::Srgb,
    {
        Self::ycbcr(channel_type, yuv_matrix, 1, 1)
    }

    /// YCbCr 4:1:1 (Y full, Cb and Cr quartered horizontally).
    pub fn ycbcr_411(channel_type: ChannelType, yuv_matrix: YuvMatrix) -> (r: Self)
        ensures
            r.wf(),
            r@.0 == ycbcr_planes(channel_type, 4, 1),
            r@.1 == yuv_matrix,
            r@.2 == TransferFunction::Srgb,
    {
        Self::ycbcr(channel_type, yuv_matrix, 4, 1)
    }

    /// Planar RGB (three full planes), identity matrix, sRGB transfer.
    pub fn planar_rgb(channel_type: ChannelType) -> (r: Self)
        ensures
            r.wf(),
            r@.0 == seq![
                full_plane(PlaneSemantic::Red, channel_type),
                full_plane(PlaneSemantic::Green, channel_type),
                full_plane(PlaneSemantic::Blue, channel_type),
            ],
            r@.1 == YuvMatrix::Identity,
            r@.2 == TransferFunction::Srgb,
    {
        let specs = [
            PlaneSpec::full(PlaneSemantic::Red, channel_type),
            PlaneSpec::full(PlaneSemantic::Green, channel_type),
            PlaneSpec::full(PlaneSemantic::Blue, channel_type),
        ];
        let r = Self::new(specs.as_slice(), YuvMatrix::Identity, TransferFunction::Srgb);
        assert(r@.0 =~= specs@);
        r
    }

    /// Planar RGBA (four full planes), identity matrix, sRGB transfer.
    pub fn planar_rgba(channel_type: ChannelType) -> (r: Self)
        ensures
            r.wf(),
            r@.0 == seq![
                full_plane(PlaneSemantic::Red, channel_type),
                full_plane(PlaneSemantic::Green, channel_type),
                full_plane(PlaneSemantic::Blue, channel_type),
                full_plane(PlaneSemantic::Alpha, channel_type),
            ],
            r@.1 == YuvMatrix::Identity,
            r@.2 == TransferFunction::Srgb,
    {
        let specs = [
            PlaneSpec::full(PlaneSemantic::Red, channel_type),
            PlaneSpec::full(PlaneSemantic::Green, channel_type),
            PlaneSpec::full(PlaneSemantic::Blue, channel_type),
            PlaneSpec::full(PlaneSemantic::Alpha, channel_type),
        ];
        let r = Self::new(specs.as_slice(), YuvMatrix::Identity, TransferFunction::Srgb);
        assert(r@.0 =~= specs@);
        r
    }

    /// Planar Oklab (L, a, b; full resolution, F32), linear transfer.
    pub fn oklab() -> (r: Self)
        ensures
            r.wf(),
            r@.0 == seq![
                full_plane(PlaneSemantic::OklabL, ChannelType::F32),
                full_plane(PlaneSemantic::OklabA, ChannelType::F32),
                full_plane(PlaneSemantic::OklabB, ChannelType::F32),
            ],
            r@.1 == YuvMatrix::Identity,
            r@.2 == TransferFunction::Linear,
    {
        let specs = [
            PlaneSpec::full(PlaneSemantic::OklabL, ChannelType::F32),
            PlaneSpec::full(PlaneSemantic::OklabA, ChannelType::F32),
            PlaneSpec::full(PlaneSemantic::OklabB, ChannelType::F32),
        ];
        let r = Self::new(specs.as_slice(), YuvMatrix::Identity, TransferFunction::Linear);
        assert(r@.0 =~= specs@);
        r
    }

    /// YCbCr descriptor for a subsampling scheme.
    pub fn from_subsampling(sub: Subsampling, channel_type: ChannelType, yuv_matrix: YuvMatrix) -> (r: Self)
        ensures
            r.wf(),
            r@.0 == ycbcr_planes(channel_type, chroma_divisors(sub).0, chroma_divisors(sub).1),
            r@.1 == yuv_matrix,
            r@.2 == TransferFunction::Srgb,
    {
        match sub {
            Subsampling::S444 => Self::ycbcr_444(channel_type, yuv_matrix),
            Subsampling::S422 => Self::ycbcr_422(channel_type, yuv_matrix),
            Subsampling::S420 => Self::ycbcr_420(channel_type, yuv_matrix),
            Subsampling::S411 => Self::ycbcr_411(channel_type, yuv_matrix),
        }
    }
}

/// A full-resolution plane.
pub open spec fn full_plane(s: PlaneSemantic, t: ChannelType) -> PlaneSpec {
    PlaneSpec { semantic: s, h_subsample: 1, v_subsample: 1, channel_type: t }
}

/// The three YCbCr planes with chroma divided by `h` × `v`.
pub open spec fn ycbcr_planes(t: ChannelType, h: u8, v: u8) -> Seq<PlaneSpec> {
    seq![
        full_plane(PlaneSemantic::Luma, t),
        PlaneSpec { semantic: PlaneSemantic::ChromaCb, h_subsample: h, v_subsample: v, channel_type: t },
        PlaneSpec { semantic: PlaneSemantic::ChromaCr, h_subsample: h, v_subsample: v, channel_type: t },
    ]
}

/// Chroma divisors `(horizontal, vertical)` of a subsampling scheme.
pub open spec fn chroma_divisors(s: Subsampling) -> (u8, u8) {
    match s {
        Subsampling::S444 => (1, 1),
        Subsampling::S422 => (2, 1),
        Subsampling::S420 => (2, 2),
        Subsampling::S411 => (4, 1),
    }
}

/// Bitfield selecting which planes to operate on (bit `i` = plane `i`).
#[derive(Clone, Copy, Debug, PartialEq, Eq, Hash, Structural)]
pub struct PlaneMask {
    bits: u8,
}

/// Whether bit `i` of `b` is set.
pub open spec fn bit_set(b: u8, i: u8) -> bool {
    i < 8 && (b >> i) & 1u8 == 1u8
}

/// 1 when bit `i` of `b` is set, else 0.
pub open spec fn bit_value(b: u8, i: u8) -> nat {
    if bit_set(b, i) { 1 } else { 0 }
}

/// Number of set bits among the `k` lowest positions.
pub open spec fn popcount_below(b: u8, k: nat) -> nat
    decreases k,
{
    if k == 0 {
        0
    } else {
        popcount_below(b, (k - 1) as nat) + bit_value(b, (k - 1) as u8)
    }
}

/// Number of set bits.
pub open spec fn popcount(b: u8) -> nat {
    popcount_below(b, 8)
}

impl View for PlaneMask {
    type V = u8;

    /// The raw bit pattern.
    closed spec fn view(&self) -> u8 {
        self.bits
    }
}

impl PlaneMask {
    /// All planes selected.
    pub fn all() -> (r: Self)
        ensures
            r@ == 0xFFu8,
    {
        PlaneMask { bits: 0xFF }
    }

    /// No planes selected.
    pub fn none() -> (r: Self)
        ensures
            r@ == 0u8,
    {
        PlaneMask { bits: 0 }
    }

    /// Luma plane only (plane 0).
    pub fn luma() -> (r: Self)
        ensures
            r@ == 1u8,
    {
        PlaneMask { bits: 1 }
    }

    /// Chroma planes only (planes 1 and 2).
    pub fn chroma() -> (r: Self)
        ensures
            r@ == 6u8,
    {
        PlaneMask { bits: 6 }
    }

    /// Alpha plane only (plane 3).
    pub fn alpha() -> (r: Self)
        ensures
            r@ == 8u8,
    {
        PlaneMask { bits: 8 }
    }

    /// Select a single plane by index.
    pub fn single(idx: u8) -> (r: Self)
        requires
            idx < 8,
        ensures
            forall|i: u8| bit_set(r@, i) <==> i == idx,
    {
        let bits: u8 = 1u8 << idx;
        assert(forall|i: u8| bit_set(bits, i) <==> i == idx) by (bit_vector)
            requires
                idx < 8,
                bits == 1u8 << idx,
        ;
        PlaneMask { bits }
    }

    /// Whether this mask includes plane `idx`.
    pub fn includes(self, idx: u8) -> (r: bool)
        requires
            idx < 8,
        ensures
            r == bit_set(self@, idx),
    {
        let b = self.bits;
        assert(((b & (1u8 << idx)) != 0) == (idx < 8 && (b >> idx) & 1u8 == 1u8)) by (bit_vector)
            requires
                idx < 8,
        ;
        (b & (1u8 << idx)) != 0
    }

    /// Union of two masks.
    pub fn union(self, other: Self) -> (r: Self)
        ensures
            r@ == self@ | other@,
            forall|i: u8| bit_set(r@, i) <==> (bit_set(self@, i) || bit_set(other@, i)),
    {
        let a = self.bits;
        let b = other.bits;
        assert(forall|i: u8| bit_set(a | b, i) <==> (bit_set(a, i) || bit_set(b, i))) by (bit_vector);
        PlaneMask { bits: a | b }
    }

    /// Intersection of two masks.
    pub fn intersection(self, other: Self) -> (r: Self)
        ensures
            r@ == self@ & other@,
            forall|i: u8| bit_set(r@, i) <==> (bit_set(self@, i) && bit_set(other@, i)),
    {
        let a = self.bits;
        let b = other.bits;
        assert(forall|i: u8| bit_set(a & b, i) <==> (bit_set(a, i) && bit_set(b, i))) by (bit_vector);
        PlaneMask { bits: a & b }
    }

    /// Number of selected planes.
    pub fn count(self) -> (r: u8)
        ensures
            r == popcount(self@),
    {
        let b = self.bits;
        let mut n: u8 = 0;
        let mut i: u8 = 0;
        while i < 8
            invariant
                i <= 8,
                n == popcount_below(b, i as nat),
                n <= i,
            decreases 8 - i,
        {
            let bit = (b >> i) & 1u8;
            assert(bit == 1u8 <==> bit_set(b, i)) by (bit_vector)
                requires
                    i < 8,
                    bit == (b >> i) & 1u8,
            ;
            assert(bit <= 1u8) by (bit_vector)
                requires
                    bit == (b >> i) & 1u8,
            ;
            n = n + bit;
            i = i + 1;
        }
        n
    }

    /// Raw bits value.
    pub fn bits(self) -> (r: u8)
        ensures
            r == self@,
    {
        self.bits
    }

    /// Mask from raw bits.
    pub fn from_bits(bits: u8) -> (r: Self)
        ensures
            r@ == bits,
    {
        PlaneMask { bits }
    }
}

impl Default for PlaneMask {
    fn default() -> (r: Self)
        ensures
            r@ == 0xFFu8,
    {
        Self::all()
    }
}

/// Plane masks behave as sets of plane indices: union and intersection
/// select exactly the planes of either or both masks, a single-plane mask
/// holds one plane, and raw bits round-trip.
pub proof fn lemma_mask_set_laws(a: u8, b: u8, idx: u8)
    requires
        idx < 8,
    ensures
        forall|i: u8| bit_set(a | b, i) <==> (bit_set(a, i) || bit_set(b, i)),
        forall|i: u8| bit_set(a & b, i) <==> (bit_set(a, i) && bit_set(b, i)),
        forall|i: u8| bit_set(1u8 << idx, i) <==> i == idx,
{
    assert(forall|i: u8| bit_set(a | b, i) <==> (bit_set(a, i) || bit_set(b, i))) by (bit_vector);
    assert(forall|i: u8| bit_set(a & b, i) <==> (bit_set(a, i) && bit_set(b, i))) by (bit_vector);
    assert(forall|i: u8| bit_set(1u8 << idx, i) <==> i == idx) by (bit_vector)
        requires
            idx < 8,
    ;
}

} // verus!
