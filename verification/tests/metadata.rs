use zencodec::descriptor::{ColorPrimaries, TransferFunction};
use zencodec::metadata::parse_exif_orientation;
use zencodec::{Cicp, ContentLightLevel, Metadata, Orientation};

#[test]
fn metadata_empty() {
    let meta = Metadata::none();
    assert!(meta.is_empty());
}

#[test]
fn metadata_with_cicp_not_empty() {
    let meta = Metadata::none().with_cicp(Cicp::srgb());
    assert!(!meta.is_empty());
}

#[test]
fn metadata_with_hdr_not_empty() {
    let meta = Metadata::none().with_content_light_level(ContentLightLevel {
        max_content_light_level: 1000,
        max_frame_average_light_level: 400,
    });
    assert!(!meta.is_empty());
}

#[test]
fn metadata_orientation_default_is_normal() {
    let meta = Metadata::none();
    assert_eq!(meta.orientation, Orientation::Identity);
}

#[test]
fn metadata_with_orientation_builder() {
    let meta = Metadata::none().with_orientation(Orientation::Rotate270);
    assert_eq!(meta.orientation, Orientation::Rotate270);
}

#[test]
fn metadata_orientation_not_empty() {
    let meta = Metadata::none().with_orientation(Orientation::Rotate90);
    assert!(!meta.is_empty());
}

#[test]
fn metadata_identity_orientation_is_empty() {
    let meta = Metadata::none().with_orientation(Orientation::Identity);
    assert!(meta.is_empty());
}

#[test]
fn metadata_transfer_function() {
    let meta = Metadata::none().with_cicp(Cicp::srgb());
    assert_eq!(meta.transfer_function(), TransferFunction::Srgb);

    let meta = Metadata::none();
    assert_eq!(meta.transfer_function(), TransferFunction::Unknown);
}

#[test]
fn metadata_color_primaries() {
    assert_eq!(Metadata::none().color_primaries(), ColorPrimaries::Bt709);
    assert_eq!(Metadata::none().with_cicp(Cicp::display_p3()).color_primaries(), ColorPrimaries::DisplayP3);
    assert_eq!(Metadata::none().with_cicp(Cicp::new(5, 5, 0, true)).color_primaries(), ColorPrimaries::Unknown);
}

#[test]
fn metadata_builder() {
    let meta = Metadata::none()
        .with_icc(vec![1, 2, 3])
        .with_exif(vec![4, 5])
        .with_cicp(Cicp::srgb())
        .with_orientation(Orientation::Rotate90);
    assert!(!meta.is_empty());
    assert_eq!(meta.icc_profile.as_deref(), Some([1, 2, 3].as_slice()));
    assert_eq!(meta.exif.as_deref(), Some([4, 5].as_slice()));
    assert!(meta.xmp.is_none());
    assert_eq!(meta.cicp, Some(Cicp::srgb()));
    assert_eq!(meta.orientation, Orientation::Rotate90);
}

fn build_minimal_exif_with_orientation(value: u16, big_endian: bool) -> Vec<u8> {
    let mut v = Vec::new();
    if big_endian {
        v.extend_from_slice(b"MM\x00\x2a");
        v.extend_from_slice(&8u32.to_be_bytes());
        v.extend_from_slice(&1u16.to_be_bytes());
        v.extend_from_slice(&0x0112u16.to_be_bytes());
        v.extend_from_slice(&3u16.to_be_bytes());
        v.extend_from_slice(&1u32.to_be_bytes());
        v.extend_from_slice(&value.to_be_bytes());
        v.extend_from_slice(&[0u8, 0]);
        v.extend_from_slice(&0u32.to_be_bytes());
    } else {
        v.extend_from_slice(b"II\x2a\x00");
        v.extend_from_slice(&8u32.to_le_bytes());
        v.extend_from_slice(&1u16.to_le_bytes());
        v.extend_from_slice(&0x0112u16.to_le_bytes());
        v.extend_from_slice(&3u16.to_le_bytes());
        v.extend_from_slice(&1u32.to_le_bytes());
        v.extend_from_slice(&(value as u32).to_le_bytes());
        v.extend_from_slice(&0u32.to_le_bytes());
    }
    v
}

#[test]
fn parse_exif_orientation_le_returns_correct_variant() {
    let blob = build_minimal_exif_with_orientation(6, false);
    assert_eq!(parse_exif_orientation(&blob), Some(Orientation::Rotate90));
}

#[test]
fn parse_exif_orientation_be_returns_correct_variant() {
    let blob = build_minimal_exif_with_orientation(6, true);
    assert_eq!(parse_exif_orientation(&blob), Some(Orientation::Rotate90));
}

#[test]
fn parse_exif_orientation_garbage_returns_none() {
    assert_eq!(parse_exif_orientation(b"garbage"), None);
    assert_eq!(parse_exif_orientation(&[]), None);
    assert_eq!(parse_exif_orientation(&[0u8; 7]), None);
}

#[test]
fn with_exif_auto_parses_orientation_from_blob() {
    let blob = build_minimal_exif_with_orientation(8, false);
    let meta = Metadata::none().with_exif(blob);
    assert_eq!(meta.orientation, Orientation::Rotate270);
}

#[test]
fn with_exif_does_not_override_explicit_orientation() {
    let blob = build_minimal_exif_with_orientation(6, false);
    let meta = Metadata::none().with_orientation(Orientation::FlipH).with_exif(blob);
    assert_eq!(meta.orientation, Orientation::FlipH);
}

#[test]
fn orientation_set_after_exif_overrides_blob() {
    let blob = build_minimal_exif_with_orientation(6, false);
    let meta = Metadata::none().with_exif(blob).with_orientation(Orientation::FlipV);
    assert_eq!(meta.orientation, Orientation::FlipV);
}

#[test]
fn lenient_parser_skips_invalid_value_and_keeps_scanning() {
    let mut v = Vec::new();
    v.extend_from_slice(b"II\x2a\x00");
    v.extend_from_slice(&8u32.to_le_bytes());
    v.extend_from_slice(&2u16.to_le_bytes());
    for value in [0u16, 3] {
        v.extend_from_slice(&0x0112u16.to_le_bytes());
        v.extend_from_slice(&3u16.to_le_bytes());
        v.extend_from_slice(&1u32.to_le_bytes());
        v.extend_from_slice(&(value as u32).to_le_bytes());
    }
    assert_eq!(parse_exif_orientation(&v), Some(Orientation::Rotate180));
}

#[test]
fn with_exif_keeps_identity_for_blob_without_orientation() {
    let meta = Metadata::none().with_exif(vec![1, 2, 3]);
    assert_eq!(meta.orientation, Orientation::Identity);
    assert_eq!(meta.exif.as_deref(), Some([1u8, 2, 3].as_slice()));
}

#[test]
fn metadata_roundtrip() {
    let info = zencodec::ImageInfo::new(100, 200, zencodec::ImageFormat::Jpeg)
        .with_icc_profile(vec![1, 2, 3])
        .with_exif(vec![4, 5])
        .with_cicp(Cicp::srgb())
        .with_content_light_level(ContentLightLevel { max_content_light_level: 1000, max_frame_average_light_level: 400 });
    let meta = info.metadata();
    assert_eq!(meta.icc_profile.as_deref(), Some([1, 2, 3].as_slice()));
    assert_eq!(meta.exif.as_deref(), Some([4, 5].as_slice()));
    assert!(meta.xmp.is_none());
    assert_eq!(meta.cicp, Some(Cicp::srgb()));
    assert_eq!(meta.content_light_level.unwrap().max_content_light_level, 1000);
    assert!(meta.mastering_display.is_none());
    assert!(!meta.is_empty());
}

#[test]
fn metadata_orientation_roundtrip() {
    let info = zencodec::ImageInfo::new(100, 200, zencodec::ImageFormat::Jpeg).with_orientation(Orientation::Rotate90);
    let meta = info.metadata();
    assert_eq!(meta.orientation, Orientation::Rotate90);
}

#[test]
fn metadata_from_image_info() {
    let info = zencodec::ImageInfo::new(100, 200, zencodec::ImageFormat::Jpeg)
        .with_icc_profile(vec![10, 20, 30])
        .with_exif(vec![4, 5])
        .with_cicp(Cicp::srgb())
        .with_orientation(Orientation::Rotate270);
    let meta = info.metadata();
    assert_eq!(meta.icc_profile.as_deref(), Some([10, 20, 30].as_slice()));
    assert_eq!(meta.exif.as_deref(), Some([4, 5].as_slice()));
    assert_eq!(meta.cicp, Some(Cicp::srgb()));
    assert_eq!(meta.orientation, Orientation::Rotate270);
}
