use zencodec::helpers::{fnv1a_64, icc_profile_is_srgb, identify_well_known_icc, known_icc_profiles};
use zencodec::descriptor::{AlphaMode, ChannelLayout, ChannelType, ColorPrimaries, PixelFormat, SignalRange, TransferFunction};
use zencodec::helpers::descriptor_for_decoded_pixels;
use zencodec::info::SourceColor;
use zencodec::Cicp;

#[test]
fn identify_rejects_empty() {
    assert!(identify_well_known_icc(&[]).is_none());
    assert!(!icc_profile_is_srgb(&[]));
}

#[test]
fn identify_rejects_garbage() {
    assert!(identify_well_known_icc(&[0u8; 100]).is_none());
    assert!(identify_well_known_icc(&[0xFF; 3144]).is_none());
}

#[test]
fn identify_rejects_short() {
    assert!(identify_well_known_icc(&[1, 2, 3, 4]).is_none());
}

#[test]
fn helpers_icc_profile_is_srgb_compat() {
    assert!(!icc_profile_is_srgb(&[0u8; 100]));
}

#[test]
fn fnv1a_deterministic() {
    let data = b"sRGB IEC61966-2.1";
    assert_eq!(fnv1a_64(data), fnv1a_64(data));
}

#[test]
fn fnv1a_distinct_inputs() {
    assert_ne!(fnv1a_64(b"abc"), fnv1a_64(b"abd"));
}

#[test]
fn fnv1a_known_values() {
    assert_eq!(fnv1a_64(b""), 0xcbf29ce484222325);
    assert_eq!(fnv1a_64(b"a"), 0xaf63dc4c8601ec8c);
    assert_eq!(fnv1a_64(b"foobar"), 0x85944171f73967e8);
}

#[test]
fn known_profiles_table_sorted() {
    let table = known_icc_profiles();
    for i in 1..table.len() {
        assert!(table[i - 1].0 < table[i].0, "KNOWN_ICC_PROFILES not sorted at index {i}");
    }
}

#[test]
fn identify_table_has_verified_families() {
    let table = known_icc_profiles();
    let has = |cp: u8, tc: u8| table.iter().any(|&(_, c, t)| c == cp && t == tc);
    assert!(has(1, 13), "sRGB (CP=1, TC=13)");
    assert!(has(12, 13), "Display P3 (CP=12, TC=13)");
    assert!(has(1, 1), "BT.709 (CP=1, TC=1)");
    assert!(!has(9, 1), "BT.2020 should NOT be in table (TRC err >0.2%)");
}

#[test]
fn identify_srgb_count() {
    let srgb_count = known_icc_profiles().iter().filter(|&&(_, cp, tc)| cp == 1 && tc == 13).count();
    assert_eq!(srgb_count, 22, "expected 22 sRGB profiles");
}

#[test]
fn identify_p3_count() {
    let p3_count = known_icc_profiles().iter().filter(|&&(_, cp, tc)| cp == 12 && tc == 13).count();
    assert_eq!(p3_count, 2, "expected 2 Display P3 v4 profiles");
}

#[test]
fn identify_bt709_count() {
    let bt709_count = known_icc_profiles().iter().filter(|&&(_, cp, tc)| cp == 1 && tc == 1).count();
    assert_eq!(bt709_count, 2, "expected 2 BT.709 profiles");
}

#[test]
fn known_profiles_hashes_distinct() {
    let table = known_icc_profiles();
    let distinct: std::collections::BTreeSet<u64> = table.iter().map(|e| e.0).collect();
    assert_eq!(distinct.len(), 26);
}

#[test]
fn srgb_cicp_shape() {
    assert_eq!(Cicp::new(1, 13, 0, true), Cicp::srgb());
}

const fn fmt(t: ChannelType, l: ChannelLayout) -> PixelFormat {
    PixelFormat { channel_type: t, layout: l }
}

const F_RGB8: PixelFormat = fmt(ChannelType::U8, ChannelLayout::Rgb);
const F_RGBA8: PixelFormat = fmt(ChannelType::U8, ChannelLayout::Rgba);
const F_GRAY8: PixelFormat = fmt(ChannelType::U8, ChannelLayout::Gray);
const F_BGRA8: PixelFormat = fmt(ChannelType::U8, ChannelLayout::Bgra);
const F_RGBA16: PixelFormat = fmt(ChannelType::U16, ChannelLayout::Rgba);
const F_RGB16: PixelFormat = fmt(ChannelType::U16, ChannelLayout::Rgb);
const F_RGBF32: PixelFormat = fmt(ChannelType::F32, ChannelLayout::Rgb);
const F_RGBAF32: PixelFormat = fmt(ChannelType::F32, ChannelLayout::Rgba);

#[test]
fn no_metadata_assumes_srgb() {
    let sc = SourceColor::default();
    let desc = descriptor_for_decoded_pixels(F_RGB8, &sc, None);
    assert_eq!(desc.transfer, TransferFunction::Srgb);
    assert_eq!(desc.primaries, ColorPrimaries::Bt709);
}

#[test]
fn no_metadata_gray_assumes_srgb() {
    let sc = SourceColor::default();
    let desc = descriptor_for_decoded_pixels(F_GRAY8, &sc, None);
    assert_eq!(desc.transfer, TransferFunction::Srgb);
    assert_eq!(desc.primaries, ColorPrimaries::Bt709);
    assert_eq!(desc.pixel_format(), F_GRAY8);
}

#[test]
fn no_metadata_rgba_assumes_srgb() {
    let sc = SourceColor::default();
    let desc = descriptor_for_decoded_pixels(F_RGBA8, &sc, None);
    assert_eq!(desc.transfer, TransferFunction::Srgb);
    assert_eq!(desc.primaries, ColorPrimaries::Bt709);
    assert_eq!(desc.pixel_format(), F_RGBA8);
    assert_eq!(desc.alpha, Some(AlphaMode::Straight));
}

#[test]
fn no_metadata_f32_assumes_srgb() {
    let sc = SourceColor::default();
    let desc = descriptor_for_decoded_pixels(F_RGBF32, &sc, None);
    assert_eq!(desc.transfer, TransferFunction::Srgb);
    assert_eq!(desc.primaries, ColorPrimaries::Bt709);
    assert_eq!(desc.pixel_format(), F_RGBF32);
}

#[test]
fn cicp_srgb_sets_srgb_descriptor() {
    let sc = SourceColor::default().with_cicp(Cicp::srgb());
    let desc = descriptor_for_decoded_pixels(F_RGB8, &sc, None);
    assert_eq!(desc.transfer, TransferFunction::Srgb);
    assert_eq!(desc.primaries, ColorPrimaries::Bt709);
}

#[test]
fn cicp_p3_sets_descriptor() {
    let sc = SourceColor::default().with_cicp(Cicp::display_p3());
    let desc = descriptor_for_decoded_pixels(F_RGB8, &sc, None);
    assert_eq!(desc.transfer, TransferFunction::Srgb);
    assert_eq!(desc.primaries, ColorPrimaries::DisplayP3);
}

#[test]
fn cicp_pq_sets_descriptor() {
    let sc = SourceColor::default().with_cicp(Cicp::bt2100_pq());
    let desc = descriptor_for_decoded_pixels(F_RGBAF32, &sc, None);
    assert_eq!(desc.transfer, TransferFunction::Pq);
    assert_eq!(desc.primaries, ColorPrimaries::Bt2020);
}

#[test]
fn cicp_hlg_sets_descriptor() {
    let sc = SourceColor::default().with_cicp(Cicp::bt2100_hlg());
    let desc = descriptor_for_decoded_pixels(F_RGBF32, &sc, None);
    assert_eq!(desc.transfer, TransferFunction::Hlg);
    assert_eq!(desc.primaries, ColorPrimaries::Bt2020);
}

#[test]
fn cicp_takes_precedence_over_icc() {
    let fake_icc: Vec<u8> = vec![0u8; 64];
    let sc = SourceColor::default()
        .with_cicp(Cicp::display_p3())
        .with_icc_profile(fake_icc);
    let desc = descriptor_for_decoded_pixels(F_RGB8, &sc, None);
    assert_eq!(desc.transfer, TransferFunction::Srgb);
    assert_eq!(desc.primaries, ColorPrimaries::DisplayP3);
}

#[test]
fn cicp_preserves_pixel_format() {
    let sc = SourceColor::default().with_cicp(Cicp::display_p3());
    for fmt in [
        F_RGB8,
        F_RGBA8,
        F_GRAY8,
        F_RGBF32,
        F_BGRA8,
    ] {
        let desc = descriptor_for_decoded_pixels(fmt, &sc, None);
        assert_eq!(desc.pixel_format(), fmt, "format mismatch for {fmt:?}");
    }
}

#[test]
fn unknown_icc_yields_unknown_descriptor() {
    let fake_icc: Vec<u8> = vec![0u8; 64];
    let sc = SourceColor::default().with_icc_profile(fake_icc);
    let desc = descriptor_for_decoded_pixels(F_RGB8, &sc, None);
    assert_eq!(desc.transfer, TransferFunction::Unknown);
    assert_eq!(desc.primaries, ColorPrimaries::Unknown);
}

#[test]
fn unknown_icc_preserves_format_and_alpha() {
    let fake_icc: Vec<u8> = vec![99u8; 128];
    let sc = SourceColor::default().with_icc_profile(fake_icc);

    let desc = descriptor_for_decoded_pixels(F_RGBA8, &sc, None);
    assert_eq!(desc.pixel_format(), F_RGBA8);
    assert_eq!(desc.alpha, Some(AlphaMode::Straight));
    assert_eq!(desc.signal_range, SignalRange::Full);

    let desc = descriptor_for_decoded_pixels(F_RGB8, &sc, None);
    assert_eq!(desc.pixel_format(), F_RGB8);
    assert!(desc.alpha.is_none());
}

#[test]
fn unknown_icc_gray_preserves_format() {
    let fake_icc: Vec<u8> = vec![42u8; 96];
    let sc = SourceColor::default().with_icc_profile(fake_icc);
    let desc = descriptor_for_decoded_pixels(F_GRAY8, &sc, None);
    assert_eq!(desc.pixel_format(), F_GRAY8);
    assert_eq!(desc.transfer, TransferFunction::Unknown);
    assert_eq!(desc.primaries, ColorPrimaries::Unknown);
}

#[test]
fn empty_icc_yields_unknown() {
    let empty_icc: Vec<u8> = vec![];
    let sc = SourceColor::default().with_icc_profile(empty_icc);
    let desc = descriptor_for_decoded_pixels(F_RGB8, &sc, None);
    assert_eq!(desc.transfer, TransferFunction::Unknown);
    assert_eq!(desc.primaries, ColorPrimaries::Unknown);
}

#[test]
fn corrected_to_overrides_source_cicp() {
    let sc = SourceColor::default().with_cicp(Cicp::display_p3());
    let desc = descriptor_for_decoded_pixels(F_RGB8, &sc, Some(&Cicp::srgb()));
    assert_eq!(desc.transfer, TransferFunction::Srgb);
    assert_eq!(desc.primaries, ColorPrimaries::Bt709);
}

#[test]
fn corrected_to_overrides_unknown_icc() {
    let fake_icc: Vec<u8> = vec![0u8; 64];
    let sc = SourceColor::default().with_icc_profile(fake_icc);
    let desc = descriptor_for_decoded_pixels(F_RGB8, &sc, Some(&Cicp::srgb()));
    assert_eq!(desc.transfer, TransferFunction::Srgb);
    assert_eq!(desc.primaries, ColorPrimaries::Bt709);
}

#[test]
fn corrected_to_overrides_no_metadata() {
    let sc = SourceColor::default();
    let desc = descriptor_for_decoded_pixels(F_RGB8, &sc, Some(&Cicp::srgb()));
    assert_eq!(desc.transfer, TransferFunction::Srgb);
    assert_eq!(desc.primaries, ColorPrimaries::Bt709);
}

#[test]
fn corrected_to_p3_target() {
    let sc = SourceColor::default().with_cicp(Cicp::srgb());
    let desc =
        descriptor_for_decoded_pixels(F_RGB8, &sc, Some(&Cicp::display_p3()));
    assert_eq!(desc.transfer, TransferFunction::Srgb);
    assert_eq!(desc.primaries, ColorPrimaries::DisplayP3);
}

#[test]
fn corrected_to_preserves_format() {
    let sc = SourceColor::default().with_cicp(Cicp::bt2100_pq());
    let desc =
        descriptor_for_decoded_pixels(F_BGRA8, &sc, Some(&Cicp::srgb()));
    assert_eq!(desc.pixel_format(), F_BGRA8);
    assert_eq!(desc.transfer, TransferFunction::Srgb);
}

#[test]
fn format_jpeg_no_icc() {
    let sc = SourceColor::default();
    let desc = descriptor_for_decoded_pixels(F_RGB8, &sc, None);
    assert_eq!(desc.transfer, TransferFunction::Srgb);
    assert_eq!(desc.primaries, ColorPrimaries::Bt709);
}

#[test]
fn format_jpeg_with_unknown_icc() {
    let vendor_icc: Vec<u8> = vec![0xCA; 3144];
    let sc = SourceColor::default().with_icc_profile(vendor_icc);
    let desc = descriptor_for_decoded_pixels(F_RGB8, &sc, None);
    assert_eq!(desc.transfer, TransferFunction::Unknown);
    assert_eq!(desc.primaries, ColorPrimaries::Unknown);
}

#[test]
fn format_jpeg_with_icc_color_corrected_to_srgb() {
    let vendor_icc: Vec<u8> = vec![0xCA; 3144];
    let sc = SourceColor::default().with_icc_profile(vendor_icc);
    let desc = descriptor_for_decoded_pixels(F_RGB8, &sc, Some(&Cicp::srgb()));
    assert_eq!(desc.transfer, TransferFunction::Srgb);
    assert_eq!(desc.primaries, ColorPrimaries::Bt709);
}

#[test]
fn format_png_with_cicp_p3() {
    let sc = SourceColor::default().with_cicp(Cicp::display_p3());
    let desc = descriptor_for_decoded_pixels(F_RGBA8, &sc, None);
    assert_eq!(desc.transfer, TransferFunction::Srgb);
    assert_eq!(desc.primaries, ColorPrimaries::DisplayP3);
    assert_eq!(desc.pixel_format(), F_RGBA8);
}

#[test]
fn format_png_with_cicp_and_icc_cicp_wins() {
    let icc: Vec<u8> = vec![0u8; 100];
    let sc = SourceColor::default()
        .with_cicp(Cicp::display_p3())
        .with_icc_profile(icc);
    let desc = descriptor_for_decoded_pixels(F_RGBA8, &sc, None);
    assert_eq!(desc.primaries, ColorPrimaries::DisplayP3);
}

#[test]
fn format_png_no_color_metadata() {
    let sc = SourceColor::default();
    let desc = descriptor_for_decoded_pixels(F_RGBA8, &sc, None);
    assert_eq!(desc.transfer, TransferFunction::Srgb);
    assert_eq!(desc.primaries, ColorPrimaries::Bt709);
}

#[test]
fn format_png_16bit_hdr_pq() {
    let sc = SourceColor::default().with_cicp(Cicp::bt2100_pq());
    let desc = descriptor_for_decoded_pixels(F_RGBA16, &sc, None);
    assert_eq!(desc.transfer, TransferFunction::Pq);
    assert_eq!(desc.primaries, ColorPrimaries::Bt2020);
    assert_eq!(desc.pixel_format(), F_RGBA16);
}

#[test]
fn format_webp_no_icc() {
    let sc = SourceColor::default();
    let desc = descriptor_for_decoded_pixels(F_RGBA8, &sc, None);
    assert_eq!(desc.transfer, TransferFunction::Srgb);
    assert_eq!(desc.primaries, ColorPrimaries::Bt709);
}

#[test]
fn format_webp_with_unknown_icc() {
    let p3_icc: Vec<u8> = vec![0xA3; 480];
    let sc = SourceColor::default().with_icc_profile(p3_icc);
    let desc = descriptor_for_decoded_pixels(F_RGBA8, &sc, None);
    assert_eq!(desc.transfer, TransferFunction::Unknown);
    assert_eq!(desc.primaries, ColorPrimaries::Unknown);
}

#[test]
fn format_avif_srgb() {
    let sc = SourceColor::default().with_cicp(Cicp::srgb());
    let desc = descriptor_for_decoded_pixels(F_RGBA8, &sc, None);
    assert_eq!(desc.transfer, TransferFunction::Srgb);
    assert_eq!(desc.primaries, ColorPrimaries::Bt709);
}

#[test]
fn format_avif_hdr10_pq() {
    let sc = SourceColor::default().with_cicp(Cicp::bt2100_pq());
    let desc = descriptor_for_decoded_pixels(F_RGBAF32, &sc, None);
    assert_eq!(desc.transfer, TransferFunction::Pq);
    assert_eq!(desc.primaries, ColorPrimaries::Bt2020);
    assert_eq!(desc.pixel_format(), F_RGBAF32);
}

#[test]
fn format_avif_hlg() {
    let sc = SourceColor::default().with_cicp(Cicp::bt2100_hlg());
    let desc = descriptor_for_decoded_pixels(F_RGBF32, &sc, None);
    assert_eq!(desc.transfer, TransferFunction::Hlg);
    assert_eq!(desc.primaries, ColorPrimaries::Bt2020);
}

#[test]
fn format_avif_p3() {
    let sc = SourceColor::default().with_cicp(Cicp::display_p3());
    let desc = descriptor_for_decoded_pixels(F_RGB8, &sc, None);
    assert_eq!(desc.transfer, TransferFunction::Srgb);
    assert_eq!(desc.primaries, ColorPrimaries::DisplayP3);
}

#[test]
fn format_jxl_srgb() {
    let sc = SourceColor::default().with_cicp(Cicp::srgb());
    let desc = descriptor_for_decoded_pixels(F_RGB8, &sc, None);
    assert_eq!(desc.transfer, TransferFunction::Srgb);
    assert_eq!(desc.primaries, ColorPrimaries::Bt709);
}

#[test]
fn format_jxl_p3_pq() {
    let cicp = Cicp::new(12, 16, 0, true); // P3 + PQ
    let sc = SourceColor::default().with_cicp(cicp);
    let desc = descriptor_for_decoded_pixels(F_RGBAF32, &sc, None);
    assert_eq!(desc.transfer, TransferFunction::Pq);
    assert_eq!(desc.primaries, ColorPrimaries::DisplayP3);
}

#[test]
fn format_heic_p3_srgb_trc() {
    let sc = SourceColor::default().with_cicp(Cicp::display_p3());
    let desc = descriptor_for_decoded_pixels(F_RGBA8, &sc, None);
    assert_eq!(desc.transfer, TransferFunction::Srgb);
    assert_eq!(desc.primaries, ColorPrimaries::DisplayP3);
}

#[test]
fn format_heic_hdr10() {
    let sc = SourceColor::default().with_cicp(Cicp::bt2100_pq());
    let desc = descriptor_for_decoded_pixels(F_RGBAF32, &sc, None);
    assert_eq!(desc.transfer, TransferFunction::Pq);
    assert_eq!(desc.primaries, ColorPrimaries::Bt2020);
}

#[test]
fn format_gif_always_srgb() {
    let sc = SourceColor::default();
    let desc = descriptor_for_decoded_pixels(F_RGBA8, &sc, None);
    assert_eq!(desc.transfer, TransferFunction::Srgb);
    assert_eq!(desc.primaries, ColorPrimaries::Bt709);
}

#[test]
fn format_bmp_pnm_farbfeld_always_srgb() {
    let sc = SourceColor::default();
    for fmt in [F_RGB8, F_RGBA8, F_GRAY8] {
        let desc = descriptor_for_decoded_pixels(fmt, &sc, None);
        assert_eq!(desc.transfer, TransferFunction::Srgb, "{fmt:?}");
        assert_eq!(desc.primaries, ColorPrimaries::Bt709, "{fmt:?}");
    }
}

#[test]
fn corrected_to_overrides_everything() {
    let sc = SourceColor::default().with_cicp(Cicp::display_p3()).with_icc_profile(vec![7u8; 10]);
    let desc = descriptor_for_decoded_pixels(F_BGRA8, &sc, Some(&Cicp::srgb()));
    assert_eq!(desc.transfer, TransferFunction::Srgb);
    assert_eq!(desc.primaries, ColorPrimaries::Bt709);
    assert_eq!(desc.layout, ChannelLayout::Bgra);
}

#[test]
fn all_paths_produce_full_range() {
    let cases = [
        (SourceColor::default(), None),
        (SourceColor::default().with_cicp(Cicp::srgb()), None),
        (SourceColor::default().with_cicp(Cicp::display_p3()), None),
        (SourceColor::default().with_cicp(Cicp::bt2100_pq()), None),
        (SourceColor::default(), Some(Cicp::srgb())),
    ];
    for (sc, corrected) in cases {
        let desc = descriptor_for_decoded_pixels(F_RGB8, &sc, corrected.as_ref());
        assert_eq!(desc.signal_range, SignalRange::Full);
    }
}

#[test]
fn narrow_range_cicp_gives_narrow_descriptor() {
    let sc = SourceColor::default().with_cicp(Cicp::new(1, 1, 1, false));
    let desc = descriptor_for_decoded_pixels(F_RGB8, &sc, None);
    assert_eq!(desc.signal_range, SignalRange::Narrow);
    assert_eq!(desc.transfer, TransferFunction::Bt709);
}
