use zencodec::ImageFormat;

#[test]
fn detect_jpeg() {
    assert_eq!(ImageFormat::detect(&[0xFF, 0xD8, 0xFF, 0xE0]), Some(ImageFormat::Jpeg));
}

#[test]
fn detect_png() {
    assert_eq!(
        ImageFormat::detect(&[0x89, 0x50, 0x4E, 0x47, 0x0D, 0x0A, 0x1A, 0x0A]),
        Some(ImageFormat::Png)
    );
}

#[test]
fn detect_gif() {
    assert_eq!(ImageFormat::detect(b"GIF89a\x00\x00"), Some(ImageFormat::Gif));
}

#[test]
fn detect_webp() {
    assert_eq!(ImageFormat::detect(b"RIFF\x00\x00\x00\x00WEBP"), Some(ImageFormat::WebP));
}

#[test]
fn detect_avif() {
    assert_eq!(ImageFormat::detect(b"\x00\x00\x00\x18ftypavif"), Some(ImageFormat::Avif));
}

#[test]
fn detect_jxl_codestream() {
    assert_eq!(ImageFormat::detect(&[0xFF, 0x0A]), Some(ImageFormat::Jxl));
}

#[test]
fn detect_jxl_container() {
    assert_eq!(
        ImageFormat::detect(&[0x00, 0x00, 0x00, 0x0C, b'J', b'X', b'L', b' ', 0x0D, 0x0A, 0x87, 0x0A]),
        Some(ImageFormat::Jxl)
    );
}

#[test]
fn detect_unknown() {
    assert_eq!(ImageFormat::detect(b"nope"), None);
    assert_eq!(ImageFormat::detect(&[]), None);
}

#[test]
fn from_extension_case_insensitive() {
    assert_eq!(ImageFormat::from_extension("JPG"), Some(ImageFormat::Jpeg));
    assert_eq!(ImageFormat::from_extension("WebP"), Some(ImageFormat::WebP));
    assert_eq!(ImageFormat::from_extension("unknown"), None);
}

#[test]
fn mime_types() {
    assert_eq!(ImageFormat::Jpeg.mime_type(), "image/jpeg");
    assert_eq!(ImageFormat::Jxl.mime_type(), "image/jxl");
}

#[test]
fn probe_constants() {
    assert_eq!(ImageFormat::RECOMMENDED_PROBE_BYTES, 4096);
    assert!(ImageFormat::Jpeg.min_probe_bytes() > ImageFormat::Png.min_probe_bytes());
}

#[test]
fn display_format() {
    assert_eq!(ImageFormat::Jpeg.name(), "JPEG");
    assert_eq!(ImageFormat::WebP.name(), "WebP");
    assert_eq!(ImageFormat::Gif.name(), "GIF");
    assert_eq!(ImageFormat::Png.name(), "PNG");
    assert_eq!(ImageFormat::Avif.name(), "AVIF");
    assert_eq!(ImageFormat::Jxl.name(), "JPEG XL");
}

#[test]
fn from_extension_all_variants() {
    assert_eq!(ImageFormat::from_extension("jpg"), Some(ImageFormat::Jpeg));
    assert_eq!(ImageFormat::from_extension("jpeg"), Some(ImageFormat::Jpeg));
    assert_eq!(ImageFormat::from_extension("jpe"), Some(ImageFormat::Jpeg));
    assert_eq!(ImageFormat::from_extension("jfif"), Some(ImageFormat::Jpeg));
    assert_eq!(ImageFormat::from_extension("JPEG"), Some(ImageFormat::Jpeg));
    assert_eq!(ImageFormat::from_extension("webp"), Some(ImageFormat::WebP));
    assert_eq!(ImageFormat::from_extension("gif"), Some(ImageFormat::Gif));
    assert_eq!(ImageFormat::from_extension("png"), Some(ImageFormat::Png));
    assert_eq!(ImageFormat::from_extension("avif"), Some(ImageFormat::Avif));
    assert_eq!(ImageFormat::from_extension("jxl"), Some(ImageFormat::Jxl));
}

#[test]
fn from_extension_edge_cases() {
    assert_eq!(ImageFormat::from_extension(""), None);
    assert_eq!(ImageFormat::from_extension("bmp"), None);
    assert_eq!(ImageFormat::from_extension("tiff"), None);
    assert_eq!(ImageFormat::from_extension("very_long_extension"), None);
}

#[test]
fn capabilities() {
    assert!(ImageFormat::Jpeg.supports_lossy());
    assert!(!ImageFormat::Jpeg.supports_lossless());
    assert!(!ImageFormat::Jpeg.supports_animation());
    assert!(!ImageFormat::Jpeg.supports_alpha());

    assert!(ImageFormat::Png.supports_lossless());
    assert!(!ImageFormat::Png.supports_lossy());
    assert!(ImageFormat::Png.supports_alpha());
    assert!(!ImageFormat::Png.supports_animation());

    assert!(ImageFormat::WebP.supports_lossy());
    assert!(ImageFormat::WebP.supports_lossless());
    assert!(ImageFormat::WebP.supports_animation());
    assert!(ImageFormat::WebP.supports_alpha());

    assert!(ImageFormat::Gif.supports_animation());
    assert!(ImageFormat::Gif.supports_lossless());
    assert!(ImageFormat::Gif.supports_alpha());

    assert!(ImageFormat::Jxl.supports_lossy());
    assert!(ImageFormat::Jxl.supports_lossless());
    assert!(ImageFormat::Jxl.supports_animation());
}

#[test]
fn extensions() {
    assert!(ImageFormat::Jpeg.extensions().contains(&"jpg"));
    assert!(ImageFormat::Jpeg.extensions().contains(&"jpeg"));
    assert_eq!(ImageFormat::Png.extensions(), &["png"]);
}

#[test]
fn detect_pnm_p5() {
    assert_eq!(ImageFormat::detect(b"P5\n3 2\n255\n"), Some(ImageFormat::Pnm));
}

#[test]
fn detect_pnm_p6() {
    assert_eq!(ImageFormat::detect(b"P6\n3 2\n255\n"), Some(ImageFormat::Pnm));
}

#[test]
fn detect_pnm_p7() {
    assert_eq!(ImageFormat::detect(b"P7\nWIDTH 2\n"), Some(ImageFormat::Pnm));
}

#[test]
fn detect_pnm_pfm_color() {
    assert_eq!(ImageFormat::detect(b"PF\n3 2\n"), Some(ImageFormat::Pnm));
}

#[test]
fn detect_pnm_pfm_gray() {
    assert_eq!(ImageFormat::detect(b"Pf\n3 2\n"), Some(ImageFormat::Pnm));
}

#[test]
fn detect_pnm_p1_ascii() {
    assert_eq!(ImageFormat::detect(b"P1\n3 2\n"), Some(ImageFormat::Pnm));
}

#[test]
fn from_extension_pnm_variants() {
    assert_eq!(ImageFormat::from_extension("pnm"), Some(ImageFormat::Pnm));
    assert_eq!(ImageFormat::from_extension("ppm"), Some(ImageFormat::Pnm));
    assert_eq!(ImageFormat::from_extension("pgm"), Some(ImageFormat::Pnm));
    assert_eq!(ImageFormat::from_extension("pbm"), Some(ImageFormat::Pnm));
    assert_eq!(ImageFormat::from_extension("pam"), Some(ImageFormat::Pnm));
    assert_eq!(ImageFormat::from_extension("pfm"), Some(ImageFormat::Pnm));
    assert_eq!(ImageFormat::from_extension("PNM"), Some(ImageFormat::Pnm));
}

#[test]
fn pnm_capabilities() {
    assert!(!ImageFormat::Pnm.supports_lossy());
    assert!(ImageFormat::Pnm.supports_lossless());
    assert!(!ImageFormat::Pnm.supports_animation());
    assert!(ImageFormat::Pnm.supports_alpha());
}

#[test]
fn pnm_mime_type() {
    assert_eq!(ImageFormat::Pnm.mime_type(), "image/x-portable-anymap");
}

#[test]
fn pnm_extensions() {
    let exts = ImageFormat::Pnm.extensions();
    assert!(exts.contains(&"pnm"));
    assert!(exts.contains(&"ppm"));
    assert!(exts.contains(&"pgm"));
    assert!(exts.contains(&"pbm"));
    assert!(exts.contains(&"pam"));
    assert!(exts.contains(&"pfm"));
}

#[test]
fn pnm_display() {
    assert_eq!(ImageFormat::Pnm.name(), "PNM");
}

#[test]
fn pnm_min_probe_bytes() {
    assert_eq!(ImageFormat::Pnm.min_probe_bytes(), 20);
}

#[test]
fn every_listed_extension_maps_back() {
    for f in [
        ImageFormat::Jpeg,
        ImageFormat::WebP,
        ImageFormat::Gif,
        ImageFormat::Png,
        ImageFormat::Avif,
        ImageFormat::Jxl,
        ImageFormat::Pnm,
    ] {
        for e in f.extensions() {
            assert_eq!(ImageFormat::from_extension(e), Some(f));
            assert_eq!(ImageFormat::from_extension(&e.to_ascii_uppercase()), Some(f));
        }
        assert_eq!(f.extension(), f.extensions()[0]);
    }
}

#[test]
fn detect_short_or_near_miss_prefixes() {
    assert_eq!(ImageFormat::detect(&[0xFF, 0xD8]), None);
    assert_eq!(ImageFormat::detect(b"GIF88a"), None);
    assert_eq!(ImageFormat::detect(b"RIFF\x00\x00\x00\x00WEBX"), None);
    assert_eq!(ImageFormat::detect(b"\x00\x00\x00\x18ftypheic"), None);
    assert_eq!(ImageFormat::detect(b"P8"), None);
}

#[test]
fn from_extension_agrees_with_extension_lists() {
    let formats = [
        ImageFormat::Jpeg,
        ImageFormat::WebP,
        ImageFormat::Gif,
        ImageFormat::Png,
        ImageFormat::Avif,
        ImageFormat::Jxl,
        ImageFormat::Pnm,
    ];
    for ext in ["JPG", "WebP", "PNM", "jfif", "", "bmp", "tiff", "very_long_extension"] {
        let lower = ext.to_ascii_lowercase();
        let listed = formats.iter().copied().find(|f| f.extensions().contains(&lower.as_str()));
        assert_eq!(ImageFormat::from_extension(ext), listed);
    }
}
