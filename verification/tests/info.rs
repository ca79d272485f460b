use zencodec::descriptor::{ColorPrimaries, TransferFunction};
use zencodec::info::{hdr_transfer_from, ColorAuthority, EmbeddedMetadata, SourceColor};
use zencodec::{Cicp, ContentLightLevel, ImageSequence, ResolutionUnit, Supplements};

#[test]
fn image_sequence_counts() {
    assert_eq!(ImageSequence::Single.count(), Some(1));
    let anim = ImageSequence::Animation { frame_count: Some(12), loop_count: Some(0), random_access: false };
    assert_eq!(anim.count(), Some(12));
    assert!(!anim.random_access());
    assert!(anim.is_animation());
    assert!(!anim.is_multi());
    let multi = ImageSequence::Multi { image_count: None, random_access: true };
    assert_eq!(multi.count(), None);
    assert!(multi.random_access());
    assert!(multi.is_multi());
    assert!(ImageSequence::Single.random_access());
    assert_eq!(ImageSequence::default(), ImageSequence::Single);
}

#[test]
fn supplements_and_units_defaults() {
    let s = Supplements::default();
    assert!(!s.pyramid && !s.gain_map && !s.depth_map && !s.segmentation_mattes && !s.auxiliary);
    assert_eq!(ResolutionUnit::default(), ResolutionUnit::Unknown);
}

#[test]
fn embedded_metadata_builders() {
    let m = EmbeddedMetadata::default();
    assert!(m.is_empty());
    let m = m.with_exif(vec![1, 2]);
    assert!(!m.is_empty());
    let m = m.with_xmp(vec![3]);
    assert_eq!(m.exif, Some(vec![1, 2]));
    assert_eq!(m.xmp, Some(vec![3]));
}

#[test]
fn cicp_constants() {
    assert_eq!(Cicp::srgb(), Cicp::new(1, 13, 0, true));
    assert_eq!(Cicp::bt2100_pq(), Cicp::new(9, 16, 9, true));
    assert_eq!(Cicp::bt2100_hlg(), Cicp::new(9, 18, 9, true));
    assert_eq!(Cicp::display_p3(), Cicp::new(12, 13, 0, true));
    assert_eq!(Cicp::srgb().transfer_function_enum(), TransferFunction::Srgb);
    assert_eq!(Cicp::new(1, 6, 0, true).transfer_function_enum(), TransferFunction::Bt709);
    assert_eq!(Cicp::new(1, 2, 0, true).transfer_function_enum(), TransferFunction::Unknown);
    assert_eq!(Cicp::bt2100_pq().color_primaries_enum(), ColorPrimaries::Bt2020);
}

#[test]
fn hdr_transfer_decision() {
    assert!(hdr_transfer_from(Some(Cicp::bt2100_pq()), None));
    assert!(hdr_transfer_from(Some(Cicp::srgb()), Some(Cicp::bt2100_hlg())));
    assert!(!hdr_transfer_from(Some(Cicp::srgb()), Some(Cicp::display_p3())));
    assert!(!hdr_transfer_from(None, None));
}

fn build_icc_with_cicp(cp: u8, tc: u8, mc: u8, fr: bool) -> Vec<u8> {
    let mut data = vec![0u8; 256];
    let size = data.len() as u32;
    data[0..4].copy_from_slice(&size.to_be_bytes());
    data[36..40].copy_from_slice(b"acsp");
    data[128..132].copy_from_slice(&1u32.to_be_bytes());
    data[132..136].copy_from_slice(b"cicp");
    data[136..140].copy_from_slice(&144u32.to_be_bytes());
    data[140..144].copy_from_slice(&12u32.to_be_bytes());
    data[144..148].copy_from_slice(b"cicp");
    data[152] = cp;
    data[153] = tc;
    data[154] = mc;
    data[155] = u8::from(fr);
    data
}

fn build_icc_no_cicp() -> Vec<u8> {
    let mut data = vec![0u8; 256];
    data[0..4].copy_from_slice(&256u32.to_be_bytes());
    data[36..40].copy_from_slice(b"acsp");
    data[128..132].copy_from_slice(&1u32.to_be_bytes());
    data[132..136].copy_from_slice(b"desc");
    data[136..140].copy_from_slice(&144u32.to_be_bytes());
    data[140..144].copy_from_slice(&12u32.to_be_bytes());
    data
}

#[test]
fn source_color_default_is_icc_authority() {
    let sc = SourceColor::default();
    assert_eq!(sc.color_authority, ColorAuthority::Icc);
    assert!(sc.cicp.is_none());
    assert!(sc.icc_profile.is_none());
}

#[test]
fn source_color_with_color_authority() {
    let sc = SourceColor::default().with_color_authority(ColorAuthority::Cicp);
    assert_eq!(sc.color_authority, ColorAuthority::Cicp);
}

#[test]
fn has_hdr_transfer_cicp_pq() {
    let sc = SourceColor::default().with_cicp(Cicp::bt2100_pq());
    assert!(sc.has_hdr_transfer());
}

#[test]
fn has_hdr_transfer_cicp_hlg() {
    let sc = SourceColor::default().with_cicp(Cicp::bt2100_hlg());
    assert!(sc.has_hdr_transfer());
}

#[test]
fn has_hdr_transfer_cicp_srgb_is_false() {
    let sc = SourceColor::default().with_cicp(Cicp::srgb());
    assert!(!sc.has_hdr_transfer());
}

#[test]
fn has_hdr_transfer_cicp_p3_is_false() {
    let sc = SourceColor::default().with_cicp(Cicp::display_p3());
    assert!(!sc.has_hdr_transfer());
}

#[test]
fn has_hdr_transfer_cicp_bt709_is_false() {
    let sc = SourceColor::default().with_cicp(Cicp::new(1, 1, 0, true));
    assert!(!sc.has_hdr_transfer());
}

#[test]
fn has_hdr_transfer_cicp_linear_is_false() {
    let sc = SourceColor::default().with_cicp(Cicp::new(1, 8, 0, true));
    assert!(!sc.has_hdr_transfer());
}

#[test]
fn has_hdr_transfer_icc_pq_tag() {
    let sc = SourceColor::default().with_icc_profile(build_icc_with_cicp(9, 16, 0, true));
    assert!(sc.has_hdr_transfer());
}

#[test]
fn has_hdr_transfer_icc_hlg_tag() {
    let sc = SourceColor::default().with_icc_profile(build_icc_with_cicp(9, 18, 0, false));
    assert!(sc.has_hdr_transfer());
}

#[test]
fn has_hdr_transfer_icc_srgb_tag_is_false() {
    let sc = SourceColor::default().with_icc_profile(build_icc_with_cicp(1, 13, 0, true));
    assert!(!sc.has_hdr_transfer());
}

#[test]
fn has_hdr_transfer_icc_no_cicp_tag_is_false() {
    let sc = SourceColor::default().with_icc_profile(build_icc_no_cicp());
    assert!(!sc.has_hdr_transfer());
}

#[test]
fn has_hdr_transfer_cicp_wins_over_icc() {
    let sc = SourceColor::default()
        .with_cicp(Cicp::bt2100_pq())
        .with_icc_profile(build_icc_with_cicp(1, 13, 0, true));
    assert!(sc.has_hdr_transfer());
}

#[test]
fn has_hdr_transfer_cicp_sdr_but_icc_hdr_still_detects() {
    let sc = SourceColor::default()
        .with_cicp(Cicp::srgb())
        .with_icc_profile(build_icc_with_cicp(9, 16, 0, true));
    assert!(sc.has_hdr_transfer());
}

#[test]
fn has_hdr_transfer_cicp_pq_short_circuits_before_icc() {
    let sc = SourceColor::default().with_cicp(Cicp::bt2100_pq()).with_icc_profile(vec![0xFF; 10]);
    assert!(sc.has_hdr_transfer());
}

#[test]
fn has_hdr_transfer_no_metadata_is_false() {
    assert!(!SourceColor::default().has_hdr_transfer());
}

#[test]
fn has_hdr_transfer_empty_icc_is_false() {
    assert!(!SourceColor::default().with_icc_profile(vec![]).has_hdr_transfer());
}

#[test]
fn has_hdr_transfer_garbage_icc_is_false() {
    assert!(!SourceColor::default().with_icc_profile(vec![0xFF; 200]).has_hdr_transfer());
}

#[test]
fn source_color_transfer_function() {
    assert_eq!(SourceColor::default().with_cicp(Cicp::srgb()).transfer_function(), TransferFunction::Srgb);
    assert_eq!(SourceColor::default().with_cicp(Cicp::bt2100_pq()).transfer_function(), TransferFunction::Pq);
    assert_eq!(SourceColor::default().with_cicp(Cicp::bt2100_hlg()).transfer_function(), TransferFunction::Hlg);
    assert_eq!(SourceColor::default().transfer_function(), TransferFunction::Unknown);
}

#[test]
fn source_color_primaries() {
    assert_eq!(SourceColor::default().with_cicp(Cicp::srgb()).color_primaries(), ColorPrimaries::Bt709);
    assert_eq!(SourceColor::default().with_cicp(Cicp::display_p3()).color_primaries(), ColorPrimaries::DisplayP3);
    assert_eq!(SourceColor::default().color_primaries(), ColorPrimaries::Bt709);
}

#[test]
fn source_color_with_icc_accepts_vec() {
    let sc = SourceColor::default().with_icc_profile(vec![1, 2, 3]);
    assert_eq!(sc.icc_profile.as_deref(), Some(&[1, 2, 3][..]));
}

#[test]
fn source_color_hdr_metadata_fields() {
    let clli = ContentLightLevel::new(1000, 400);
    let mdcv = zenpixels::MasteringDisplay::new(
        [[0.680, 0.320], [0.265, 0.690], [0.150, 0.060]],
        [0.3127, 0.3290],
        1000.0,
        0.005,
    );
    let sc = SourceColor::default().with_content_light_level(clli).with_mastering_display(mdcv);
    assert_eq!(sc.content_light_level.unwrap().max_content_light_level, 1000);
    assert!(sc.mastering_display.is_some());
}

#[test]
fn source_color_bit_depth_channel_count() {
    let sc = SourceColor::default().with_bit_depth(10).with_channel_count(4);
    assert_eq!(sc.bit_depth, Some(10));
    assert_eq!(sc.channel_count, Some(4));
}

#[test]
fn spec_jpeg_icc_only() {
    let sc = SourceColor::default().with_icc_profile(vec![0u8; 128]).with_color_authority(ColorAuthority::Icc);
    assert_eq!(sc.color_authority, ColorAuthority::Icc);
    assert!(sc.icc_profile.is_some());
    assert!(sc.cicp.is_none());
}

#[test]
fn spec_avif_icc_colr_box() {
    let sc = SourceColor::default()
        .with_icc_profile(vec![0u8; 128])
        .with_cicp(Cicp::bt2100_pq())
        .with_color_authority(ColorAuthority::Icc);
    assert_eq!(sc.color_authority, ColorAuthority::Icc);
    assert!(sc.icc_profile.is_some());
    assert!(sc.cicp.is_some());
}

#[test]
fn spec_avif_nclx_only() {
    let sc = SourceColor::default().with_cicp(Cicp::bt2100_pq()).with_color_authority(ColorAuthority::Cicp);
    assert_eq!(sc.color_authority, ColorAuthority::Cicp);
    assert!(sc.cicp.is_some());
    assert!(sc.icc_profile.is_none());
}

#[test]
fn spec_png_cicp_chunk() {
    let sc = SourceColor::default()
        .with_cicp(Cicp::srgb())
        .with_icc_profile(vec![0u8; 128])
        .with_color_authority(ColorAuthority::Cicp);
    assert_eq!(sc.color_authority, ColorAuthority::Cicp);
}

#[test]
fn spec_png_iccp_only() {
    let sc = SourceColor::default().with_icc_profile(vec![0u8; 128]).with_color_authority(ColorAuthority::Icc);
    assert_eq!(sc.color_authority, ColorAuthority::Icc);
    assert!(sc.cicp.is_none());
}

#[test]
fn spec_jxl_enum_encoding() {
    let sc = SourceColor::default().with_cicp(Cicp::srgb()).with_color_authority(ColorAuthority::Cicp);
    assert_eq!(sc.color_authority, ColorAuthority::Cicp);
}

#[test]
fn spec_jxl_embedded_icc() {
    let sc = SourceColor::default().with_icc_profile(vec![0u8; 128]).with_color_authority(ColorAuthority::Icc);
    assert_eq!(sc.color_authority, ColorAuthority::Icc);
}

#[test]
fn mismatch_icc_authority_no_icc_profile() {
    let sc = SourceColor::default().with_cicp(Cicp::bt2100_pq()).with_color_authority(ColorAuthority::Icc);
    assert!(sc.has_hdr_transfer());
    assert!(sc.icc_profile.is_none());
}

#[test]
fn mismatch_cicp_authority_no_cicp() {
    let sc = SourceColor::default()
        .with_icc_profile(build_icc_with_cicp(9, 16, 0, true))
        .with_color_authority(ColorAuthority::Cicp);
    assert!(sc.has_hdr_transfer());
    assert!(sc.cicp.is_none());
}
