use zencodec::color::{ColorProfileSource, NamedProfile};
use zencodec::Cicp;

#[test]
fn named_profile_default_is_srgb() {
    assert_eq!(NamedProfile::default(), NamedProfile::Srgb);
}

#[test]
fn named_profile_to_cicp() {
    assert_eq!(NamedProfile::Srgb.to_cicp(), Some(Cicp::srgb()));
    assert_eq!(NamedProfile::Bt2020Pq.to_cicp(), Some(Cicp::bt2100_pq()));
    assert_eq!(NamedProfile::Bt2020Hlg.to_cicp(), Some(Cicp::bt2100_hlg()));
    assert!(NamedProfile::AdobeRgb.to_cicp().is_none());
    assert!(NamedProfile::LinearSrgb.to_cicp().is_some());
    assert!(NamedProfile::DisplayP3.to_cicp().is_some());
}

#[test]
fn named_profile_to_cicp_codes() {
    assert_eq!(NamedProfile::Bt2020.to_cicp(), Some(Cicp::new(9, 1, 0, true)));
    assert_eq!(NamedProfile::LinearSrgb.to_cicp(), Some(Cicp::new(1, 8, 0, true)));
    assert_eq!(NamedProfile::DisplayP3.to_cicp(), Some(Cicp::display_p3()));
}

#[test]
fn color_profile_source_from_cicp() {
    let src = ColorProfileSource::Cicp(Cicp::srgb());
    assert_eq!(src, ColorProfileSource::Cicp(Cicp::srgb()));
}

#[test]
fn color_profile_source_from_icc() {
    let icc_data = [0u8; 16];
    let src = ColorProfileSource::Icc(&icc_data);
    if let ColorProfileSource::Icc(data) = src {
        assert_eq!(data.len(), 16);
    } else {
        panic!("expected Icc variant");
    }
}

#[test]
fn color_profile_source_from_named() {
    let src = ColorProfileSource::Named(NamedProfile::DisplayP3);
    assert_eq!(src, ColorProfileSource::Named(NamedProfile::DisplayP3));
}
