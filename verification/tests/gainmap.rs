use zencodec::gainmap::{
    parse_iso21496_fractions, parse_iso21496_jpeg_fractions, serialize_iso21496_fractions,
    serialize_iso21496_jpeg_fractions, ChannelFractions, Fraction, FractionField, GainMapFractions,
    GainMapParseError, UFraction,
};
use zencodec::GainMapDirection;

fn frac(n: i32, d: u32) -> Fraction {
    Fraction { numerator: n, denominator: d }
}

fn ufrac(n: u32, d: u32) -> UFraction {
    UFraction { numerator: n, denominator: d }
}

fn channel(min: i32, max: i32, gamma: u32) -> ChannelFractions {
    ChannelFractions {
        min: frac(min, 1_000_000),
        max: frac(max, 1_000_000),
        gamma: ufrac(gamma, 1_000_000),
        base_offset: frac(15_625, 1_000_000),
        alternate_offset: frac(15_625, 1_000_000),
    }
}

fn single(use_base: bool) -> GainMapFractions {
    let c = channel(-500_000, 2_000_000, 1_000_000);
    GainMapFractions {
        is_multichannel: false,
        use_base_color_space: use_base,
        base_hdr_headroom: ufrac(0, 1_000_000),
        alternate_hdr_headroom: ufrac(1_300_000, 1_000_000),
        channels: (c, c, c),
    }
}

fn multi() -> GainMapFractions {
    GainMapFractions {
        is_multichannel: true,
        use_base_color_space: false,
        base_hdr_headroom: ufrac(0, 1_000_000),
        alternate_hdr_headroom: ufrac(1_300_000, 1_000_000),
        channels: (
            channel(-300_000, 2_000_000, 1_000_000),
            channel(-100_000, 1_500_000, 800_000),
            channel(-500_000, 2_500_000, 1_200_000),
        ),
    }
}

#[test]
fn fraction_default() {
    let f = Fraction::default();
    assert_eq!(f.numerator, 0);
    assert_eq!(f.denominator, 0);
    assert!(!f.is_valid());
}

#[test]
fn fraction_zero_denom_invalid() {
    assert!(!frac(42, 0).is_valid());
    assert!(!ufrac(42, 0).is_valid());
    assert!(frac(-1, 3).is_valid());
    assert!(!UFraction::default().is_valid());
}

#[test]
fn direction_copy() {
    let d = GainMapDirection::BaseIsSdr;
    let d2 = d;
    assert_eq!(d, d2);
}

#[test]
fn parse_roundtrip_single_channel() {
    let params = single(true);
    let blob = serialize_iso21496_fractions(&params);
    assert_eq!(blob.len(), 62);
    let parsed = parse_iso21496_fractions(&blob).unwrap();
    assert_eq!(parsed, params);
}

#[test]
fn parse_roundtrip_multi_channel() {
    let params = multi();
    let blob = serialize_iso21496_fractions(&params);
    assert_eq!(blob.len(), 142);
    let parsed = parse_iso21496_fractions(&blob).unwrap();
    assert_eq!(parsed, params);
    assert!(!parsed.use_base_color_space);
}

#[test]
fn jpeg_roundtrip_both_shapes() {
    for params in [single(false), single(true), multi()] {
        let blob = serialize_iso21496_jpeg_fractions(&params);
        assert_eq!(blob.len(), if params.is_multichannel { 141 } else { 61 });
        assert_eq!(parse_iso21496_jpeg_fractions(&blob).unwrap(), params);
    }
}

#[test]
fn parse_known_blob() {
    let mut blob = Vec::new();
    blob.push(0);
    blob.extend_from_slice(&0u16.to_be_bytes());
    blob.extend_from_slice(&0u16.to_be_bytes());
    blob.push(0x40);
    blob.extend_from_slice(&0u32.to_be_bytes());
    blob.extend_from_slice(&1u32.to_be_bytes());
    blob.extend_from_slice(&13u32.to_be_bytes());
    blob.extend_from_slice(&10u32.to_be_bytes());
    blob.extend_from_slice(&0i32.to_be_bytes());
    blob.extend_from_slice(&1u32.to_be_bytes());
    blob.extend_from_slice(&2i32.to_be_bytes());
    blob.extend_from_slice(&1u32.to_be_bytes());
    blob.extend_from_slice(&1u32.to_be_bytes());
    blob.extend_from_slice(&1u32.to_be_bytes());
    blob.extend_from_slice(&1i32.to_be_bytes());
    blob.extend_from_slice(&64u32.to_be_bytes());
    blob.extend_from_slice(&1i32.to_be_bytes());
    blob.extend_from_slice(&64u32.to_be_bytes());

    let g = parse_iso21496_fractions(&blob).unwrap();
    assert_eq!(g.base_hdr_headroom, ufrac(0, 1));
    assert_eq!(g.alternate_hdr_headroom, ufrac(13, 10));
    assert_eq!(g.channels.0.min, frac(0, 1));
    assert_eq!(g.channels.0.max, frac(2, 1));
    assert_eq!(g.channels.0.gamma, ufrac(1, 1));
    assert_eq!(g.channels.0.base_offset, frac(1, 64));
    assert_eq!(g.channels.1, g.channels.0);
    assert_eq!(g.channels.2, g.channels.0);
    assert!(!g.is_multichannel);
    assert!(g.use_base_color_space);
}

#[test]
fn parse_negative_numerator() {
    let mut g = single(false);
    let c = channel(-2_500_000, 3_700_000, 2_200_000);
    g.channels = (c, c, c);
    let blob = serialize_iso21496_fractions(&g);
    assert_eq!(&blob[22..26], &(-2_500_000i32).to_be_bytes());
    assert_eq!(parse_iso21496_fractions(&blob).unwrap().channels.0.min, frac(-2_500_000, 1_000_000));
}

#[test]
fn parse_truncated() {
    assert!(parse_iso21496_fractions(&[]).is_err());
    assert!(parse_iso21496_fractions(&[0]).is_err());
    assert!(parse_iso21496_fractions(&[0; 5]).is_err());
    assert!(parse_iso21496_fractions(&[0, 0, 0, 0, 0, 0x40]).is_err());
}

#[test]
fn parse_truncated_reports_needed_bytes() {
    assert_eq!(
        parse_iso21496_fractions(&[]),
        Err(GainMapParseError::TruncatedData { expected: 1, actual: 0 })
    );
    assert_eq!(
        parse_iso21496_fractions(&[0]),
        Err(GainMapParseError::TruncatedData { expected: 3, actual: 1 })
    );
    assert_eq!(
        parse_iso21496_fractions(&[0; 5]),
        Err(GainMapParseError::TruncatedData { expected: 6, actual: 5 })
    );
    assert_eq!(
        parse_iso21496_fractions(&[0, 0, 0, 0, 0, 0x40]),
        Err(GainMapParseError::TruncatedData { expected: 10, actual: 6 })
    );
    assert_eq!(
        parse_iso21496_jpeg_fractions(&[0, 0, 0]),
        Err(GainMapParseError::TruncatedData { expected: 5, actual: 3 })
    );
    let blob = serialize_iso21496_fractions(&multi());
    assert_eq!(
        parse_iso21496_fractions(&blob[..100]),
        Err(GainMapParseError::TruncatedData { expected: 102, actual: 100 })
    );
}

#[test]
fn parse_wrong_version() {
    let mut blob = vec![0u8; 62];
    blob[0] = 1;
    let err = parse_iso21496_fractions(&blob).unwrap_err();
    assert!(matches!(err, GainMapParseError::UnsupportedVersion { version: 1 }));
}

#[test]
fn parse_wrong_min_version() {
    let mut blob = vec![0u8; 62];
    blob[0] = 0;
    blob[1] = 0;
    blob[2] = 1;
    let err = parse_iso21496_fractions(&blob).unwrap_err();
    assert!(matches!(err, GainMapParseError::UnsupportedVersion { .. }));
}

#[test]
fn parse_min_version_reports_low_byte() {
    let mut blob = vec![0u8; 62];
    blob[1] = 0x01;
    blob[2] = 0x02;
    assert_eq!(
        parse_iso21496_fractions(&blob),
        Err(GainMapParseError::UnsupportedVersion { version: 2 })
    );
}

#[test]
fn parse_zero_denominator() {
    let mut blob = Vec::new();
    blob.push(0);
    blob.extend_from_slice(&0u16.to_be_bytes());
    blob.extend_from_slice(&0u16.to_be_bytes());
    blob.push(0x40);
    blob.extend_from_slice(&0u32.to_be_bytes());
    blob.extend_from_slice(&0u32.to_be_bytes());
    blob.extend_from_slice(&[0; 100]);
    let err = parse_iso21496_fractions(&blob).unwrap_err();
    assert!(matches!(err, GainMapParseError::ZeroDenominator { .. }));
    assert_eq!(err, GainMapParseError::ZeroDenominator { field: FractionField::BaseHdrHeadroom });
}

#[test]
fn serialize_flags_byte() {
    assert_eq!(serialize_iso21496_fractions(&single(true))[5], 0x40);
    assert_eq!(serialize_iso21496_fractions(&single(false))[5], 0x00);
    assert_eq!(serialize_iso21496_fractions(&multi())[5], 0x80);
    let mut m = multi();
    m.use_base_color_space = true;
    assert_eq!(serialize_iso21496_fractions(&m)[5], 0xC0);
    assert_eq!(serialize_iso21496_jpeg_fractions(&m)[4], 0xC0);
}

#[test]
fn field_names() {
    assert_eq!(FractionField::BaseHdrHeadroom.name(), "base_hdr_headroom");
    assert_eq!(FractionField::Gamma.name(), "gamma");
    assert_eq!(FractionField::AlternateOffset.name(), "alternate_offset");
}

#[test]
fn serialize_single_channel_size() {
    assert_eq!(serialize_iso21496_fractions(&single(true)).len(), 62);
}

#[test]
fn serialize_multi_channel_size() {
    assert_eq!(serialize_iso21496_fractions(&multi()).len(), 142);
}

#[test]
fn jpeg_form_matches_box_form_behind_version_byte() {
    let boxed = serialize_iso21496_fractions(&GainMapFractions {
        is_multichannel: false,
        use_base_color_space: true,
        base_hdr_headroom: ufrac(0, 1),
        alternate_hdr_headroom: ufrac(3, 2),
        channels: (
            ChannelFractions {
                min: frac(0, 1),
                max: frac(2, 1),
                gamma: ufrac(1, 1),
                base_offset: frac(1, 64),
                alternate_offset: frac(1, 64),
            },
            ChannelFractions {
                min: frac(0, 1),
                max: frac(2, 1),
                gamma: ufrac(1, 1),
                base_offset: frac(1, 64),
                alternate_offset: frac(1, 64),
            },
            ChannelFractions {
                min: frac(0, 1),
                max: frac(2, 1),
                gamma: ufrac(1, 1),
                base_offset: frac(1, 64),
                alternate_offset: frac(1, 64),
            },
        ),
    });
    let jpeg = &boxed[1..];
    assert_eq!(parse_iso21496_jpeg_fractions(jpeg), parse_iso21496_fractions(&boxed));
    // Cut inside the body: the two forms report the same shortfall, the
    // box form counting its version byte.
    let cut = &jpeg[..20];
    let mut cut_boxed = vec![0u8];
    cut_boxed.extend_from_slice(cut);
    match (parse_iso21496_jpeg_fractions(cut), parse_iso21496_fractions(&cut_boxed)) {
        (
            Err(GainMapParseError::TruncatedData { expected: e, actual: a }),
            Err(GainMapParseError::TruncatedData { expected: e1, actual: a1 }),
        ) => {
            assert_eq!((e + 1, a + 1), (e1, a1));
            assert_eq!(a, 20);
        },
        other => panic!("unexpected {:?}", other),
    }
}
