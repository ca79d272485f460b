use zencodec::descriptor::{ChannelType, TransferFunction};
use zencodec::planar::{PlaneMask, PlaneSemantic, PlaneSpec, PlanarDescriptor, Subsampling, YuvMatrix};

#[test]
fn plane_spec_dimensions() {
    let full = PlaneSpec::full(PlaneSemantic::Luma, ChannelType::U8);
    assert_eq!(full.plane_width(1920), 1920);
    assert_eq!(full.plane_height(1080), 1080);
    assert!(!full.is_subsampled());

    let half = PlaneSpec::subsampled(PlaneSemantic::ChromaCb, 2, 2, ChannelType::U8);
    assert_eq!(half.plane_width(1920), 960);
    assert_eq!(half.plane_height(1080), 540);
    assert!(half.is_subsampled());

    assert_eq!(half.plane_width(1921), 961);
    assert_eq!(half.plane_height(1081), 541);
}

#[test]
fn plane_spec_quarter() {
    let quarter = PlaneSpec::subsampled(PlaneSemantic::ChromaCb, 4, 1, ChannelType::U8);
    assert_eq!(quarter.plane_width(1920), 480);
    assert_eq!(quarter.plane_width(1921), 481);
    assert_eq!(quarter.plane_height(1080), 1080);
    assert!(quarter.is_subsampled());
}

#[test]
fn planar_descriptor_ycbcr_420() {
    let desc = PlanarDescriptor::ycbcr_420(ChannelType::U8, YuvMatrix::Bt601);
    assert_eq!(desc.plane_count(), 3);
    assert_eq!(desc.plane(0).semantic, PlaneSemantic::Luma);
    assert_eq!(desc.plane(1).semantic, PlaneSemantic::ChromaCb);
    assert_eq!(desc.plane(2).semantic, PlaneSemantic::ChromaCr);

    assert_eq!(desc.plane_width(0, 1920), 1920);
    assert_eq!(desc.plane_width(1, 1920), 960);
    assert_eq!(desc.plane_height(0, 1080), 1080);
    assert_eq!(desc.plane_height(1, 1080), 540);
}

#[test]
fn planar_descriptor_ycbcr_422() {
    let desc = PlanarDescriptor::ycbcr_422(ChannelType::U8, YuvMatrix::Bt709);
    assert_eq!(desc.plane_count(), 3);
    assert_eq!(desc.plane_width(1, 1920), 960);
    assert_eq!(desc.plane_height(1, 1080), 1080);
}

#[test]
fn planar_descriptor_planar_rgb() {
    let desc = PlanarDescriptor::planar_rgb(ChannelType::F32);
    assert_eq!(desc.plane_count(), 3);
    assert_eq!(desc.plane(0).semantic, PlaneSemantic::Red);
    assert_eq!(desc.plane(1).semantic, PlaneSemantic::Green);
    assert_eq!(desc.plane(2).semantic, PlaneSemantic::Blue);
    for i in 0..3 {
        assert_eq!(desc.plane_width(i, 100), 100);
        assert_eq!(desc.plane_height(i, 100), 100);
    }
}

#[test]
fn planar_descriptor_oklab() {
    let desc = PlanarDescriptor::oklab();
    assert_eq!(desc.plane_count(), 3);
    assert_eq!(desc.plane(0).semantic, PlaneSemantic::OklabL);
    assert_eq!(desc.plane(0).channel_type, ChannelType::F32);
    assert_eq!(desc.transfer, TransferFunction::Linear);
}

#[test]
fn planar_descriptor_from_subsampling() {
    let desc = PlanarDescriptor::from_subsampling(Subsampling::S420, ChannelType::U8, YuvMatrix::Bt601);
    assert_eq!(desc.plane_count(), 3);
    assert_eq!(desc.plane_width(1, 1920), 960);
    assert_eq!(desc.plane_height(1, 1080), 540);

    let desc = PlanarDescriptor::from_subsampling(Subsampling::S411, ChannelType::U8, YuvMatrix::Bt601);
    assert_eq!(desc.plane_width(1, 1920), 480);
}

#[test]
fn planar_descriptor_411() {
    let desc = PlanarDescriptor::ycbcr_411(ChannelType::U8, YuvMatrix::Bt601);
    assert_eq!(desc.plane_count(), 3);
    assert_eq!(desc.plane_width(1, 1920), 480);
    assert_eq!(desc.plane_height(1, 1080), 1080);
}

#[test]
fn plane_mask_operations() {
    assert_eq!(PlaneMask::all().count(), 8);
    assert_eq!(PlaneMask::none().count(), 0);
    assert_eq!(PlaneMask::luma().count(), 1);
    assert_eq!(PlaneMask::chroma().count(), 2);
    assert_eq!(PlaneMask::alpha().count(), 1);

    assert!(PlaneMask::all().includes(0));
    assert!(PlaneMask::all().includes(7));
    assert!(!PlaneMask::none().includes(0));

    assert!(PlaneMask::luma().includes(0));
    assert!(!PlaneMask::luma().includes(1));

    assert!(!PlaneMask::chroma().includes(0));
    assert!(PlaneMask::chroma().includes(1));
    assert!(PlaneMask::chroma().includes(2));
}

#[test]
fn plane_mask_union_intersection() {
    let luma_chroma = PlaneMask::luma().union(PlaneMask::chroma());
    assert_eq!(luma_chroma.count(), 3);
    assert!(luma_chroma.includes(0));
    assert!(luma_chroma.includes(1));
    assert!(luma_chroma.includes(2));
    assert!(!luma_chroma.includes(3));

    let just_luma = luma_chroma.intersection(PlaneMask::luma());
    assert_eq!(just_luma.count(), 1);
    assert!(just_luma.includes(0));
}

#[test]
fn plane_mask_single() {
    for i in 0..8 {
        let mask = PlaneMask::single(i);
        assert_eq!(mask.count(), 1);
        assert!(mask.includes(i));
    }
}

#[test]
fn plane_mask_default_is_all() {
    assert_eq!(PlaneMask::default(), PlaneMask::all());
}

#[test]
fn plane_mask_bits_roundtrip() {
    let mask = PlaneMask::from_bits(0b10101);
    assert_eq!(mask.bits(), 0b10101);
    assert_eq!(mask.count(), 3);
}

#[test]
fn planar_descriptor_planes_slice() {
    let desc = PlanarDescriptor::ycbcr_420(ChannelType::U8, YuvMatrix::Bt601);
    let planes = desc.planes();
    assert_eq!(planes.len(), 3);
    assert_eq!(planes[0].semantic, PlaneSemantic::Luma);
}

#[test]
fn planar_descriptor_size() {
    let size = core::mem::size_of::<PlanarDescriptor>();
    assert!(size <= 48, "PlanarDescriptor is {size} bytes, expected <= 48");
}

#[test]
fn plane_mask_set_laws_on_values() {
    let a = PlaneMask::from_bits(0b1100_0011);
    let b = PlaneMask::from_bits(0b0101_0101);
    assert_eq!(a.union(b).bits(), 0b1101_0111);
    assert_eq!(a.intersection(b).bits(), 0b0100_0001);
    assert_eq!(a.union(b), b.union(a));
    assert_eq!(a.intersection(a), a);
    assert_eq!(a.union(PlaneMask::none()), a);
    assert_eq!(a.intersection(PlaneMask::all()), a);
}

#[test]
fn planar_rgba_and_444_planes() {
    let rgba = PlanarDescriptor::planar_rgba(ChannelType::U16);
    assert_eq!(rgba.plane_count(), 4);
    assert_eq!(rgba.plane(3).semantic, PlaneSemantic::Alpha);
    let full = PlanarDescriptor::ycbcr_444(ChannelType::U8, YuvMatrix::Bt709);
    assert_eq!(full.plane_width(2, 7), 7);
    assert_eq!(full.plane_height(2, 7), 7);
}
