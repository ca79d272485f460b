use zencodec::cost::OutputInfo;
use zencodec::descriptor::PixelDescriptor;
use zencodec::{Orientation, ResourceLimits};

#[test]
fn output_info_full_decode() {
    let info = OutputInfo::full_decode(10, 5, PixelDescriptor::rgba8());
    assert_eq!(info.buffer_size(), 200);
    assert_eq!(info.pixel_count(), 50);
    assert!(info.has_alpha);
    assert_eq!(info.orientation_applied, Orientation::Identity);
    assert_eq!(info.crop_applied, None);
}

#[test]
fn output_info_builders() {
    let info = OutputInfo::full_decode(3, 2, PixelDescriptor::rgb8())
        .with_alpha(true)
        .with_orientation_applied(Orientation::Rotate90)
        .with_crop_applied([1, 2, 3, 4]);
    assert!(info.has_alpha);
    assert_eq!(info.orientation_applied, Orientation::Rotate90);
    assert_eq!(info.crop_applied, Some([1, 2, 3, 4]));
    assert_eq!(info.buffer_size(), 18);
}

#[test]
fn check_output_info_dimensions() {
    let limits = ResourceLimits::none().with_max_width(100);
    assert!(limits.check_output_info(&OutputInfo::full_decode(100, 1, PixelDescriptor::gray8())).is_ok());
    assert!(limits.check_output_info(&OutputInfo::full_decode(101, 1, PixelDescriptor::gray8())).is_err());
}
