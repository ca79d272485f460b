use zencodec::descriptor::{PixelDescriptor, TransferFunction};
use zencodec::negotiate::{best_encode_format, is_format_available, negotiate_pixel_format};

fn srgb(d: PixelDescriptor) -> PixelDescriptor {
    PixelDescriptor { transfer: TransferFunction::Srgb, ..d }
}

#[test]
fn exact_match_wins() {
    let preferred = &[srgb(PixelDescriptor::rgba8())];
    let available = &[srgb(PixelDescriptor::rgb8()), srgb(PixelDescriptor::rgba8())];
    assert_eq!(negotiate_pixel_format(preferred, available), srgb(PixelDescriptor::rgba8()));
}

#[test]
fn format_match_ignores_transfer() {
    let preferred = &[srgb(PixelDescriptor::rgb8())];
    let available = &[PixelDescriptor::rgb8()];
    let picked = negotiate_pixel_format(preferred, available);
    assert_eq!(picked.pixel_format(), PixelDescriptor::rgb8().pixel_format());
    assert_eq!(picked, PixelDescriptor::rgb8());
}

#[test]
fn preference_order_respected() {
    let preferred = &[srgb(PixelDescriptor::rgba8()), srgb(PixelDescriptor::rgb8())];
    let available = &[srgb(PixelDescriptor::rgb8())];
    assert_eq!(negotiate_pixel_format(preferred, available), srgb(PixelDescriptor::rgb8()));
}

#[test]
fn fallback_to_first_available() {
    let preferred = &[srgb(PixelDescriptor::gray8())];
    let available = &[srgb(PixelDescriptor::rgb8()), srgb(PixelDescriptor::rgba8())];
    assert_eq!(negotiate_pixel_format(preferred, available), srgb(PixelDescriptor::rgb8()));
}

#[test]
fn empty_preferred_uses_default() {
    let available = &[srgb(PixelDescriptor::rgba8()), srgb(PixelDescriptor::rgb8())];
    assert_eq!(negotiate_pixel_format(&[], available), srgb(PixelDescriptor::rgba8()));
}

#[test]
fn first_preference_wins_over_later() {
    let preferred = &[srgb(PixelDescriptor::rgb8()), srgb(PixelDescriptor::rgba8())];
    let available = &[srgb(PixelDescriptor::rgba8()), srgb(PixelDescriptor::rgb8())];
    assert_eq!(negotiate_pixel_format(preferred, available), srgb(PixelDescriptor::rgb8()));
}

#[test]
fn exact_match_preferred_over_earlier_format_match() {
    let preferred = &[srgb(PixelDescriptor::rgb8())];
    let available = &[PixelDescriptor::rgb8(), srgb(PixelDescriptor::rgb8())];
    assert_eq!(negotiate_pixel_format(preferred, available), srgb(PixelDescriptor::rgb8()));
}

#[test]
fn best_encode_exact() {
    let supported = &[srgb(PixelDescriptor::rgb8()), srgb(PixelDescriptor::rgba8())];
    assert_eq!(best_encode_format(srgb(PixelDescriptor::rgba8()), supported), Some(srgb(PixelDescriptor::rgba8())));
}

#[test]
fn best_encode_format_match() {
    let supported = &[PixelDescriptor::rgb8()];
    assert_eq!(best_encode_format(srgb(PixelDescriptor::rgb8()), supported), Some(PixelDescriptor::rgb8()));
}

#[test]
fn best_encode_no_match() {
    let supported = &[srgb(PixelDescriptor::rgba8())];
    assert_eq!(best_encode_format(srgb(PixelDescriptor::gray8()), supported), None);
}

#[test]
fn is_format_available_found() {
    let available = &[srgb(PixelDescriptor::rgb8()), srgb(PixelDescriptor::gray8())];
    assert!(is_format_available(srgb(PixelDescriptor::rgb8()).pixel_format(), available));
}

#[test]
fn is_format_available_not_found() {
    let available = &[srgb(PixelDescriptor::rgb8())];
    assert!(!is_format_available(srgb(PixelDescriptor::rgba8()).pixel_format(), available));
}

#[test]
#[should_panic]
fn panics_on_empty_available() {
    negotiate_pixel_format(&[srgb(PixelDescriptor::rgb8())], &[]);
}
