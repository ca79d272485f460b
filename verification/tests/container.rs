use zencodec::container::{detect_avif, detect_heic, detect_jxl, has_ftyp, scan_compat_brands};

fn ftyp(major: &[u8; 4], compat: &[&[u8; 4]]) -> Vec<u8> {
    let size = (16 + 4 * compat.len()) as u32;
    let mut v = Vec::new();
    v.extend_from_slice(&size.to_be_bytes());
    v.extend_from_slice(b"ftyp");
    v.extend_from_slice(major);
    v.extend_from_slice(&[0, 0, 0, 0]);
    for c in compat {
        v.extend_from_slice(*c);
    }
    v
}

#[test]
fn avif_major_brand() {
    assert!(detect_avif(&ftyp(b"avif", &[])));
    assert!(detect_avif(&ftyp(b"avis", &[])));
    assert!(!detect_heic(&ftyp(b"avif", &[])));
}

#[test]
fn avif_via_compatible_brand() {
    assert!(detect_avif(&ftyp(b"mif1", &[b"miaf", b"avif"])));
    assert!(!detect_avif(&ftyp(b"mif1", &[b"miaf", b"heic"])));
    assert!(!detect_avif(&ftyp(b"isom", &[b"avif"])));
}

#[test]
fn heic_brands() {
    assert!(detect_heic(&ftyp(b"heic", &[])));
    assert!(detect_heic(&ftyp(b"hevx", &[])));
    assert!(detect_heic(&ftyp(b"msf1", &[b"hevc"])));
    assert!(!detect_heic(&ftyp(b"mif1", &[b"avif"])));
}

#[test]
fn box_size_bounds_compatible_scan() {
    let mut data = ftyp(b"mif1", &[b"miaf"]);
    data.extend_from_slice(b"avif");
    assert!(!detect_avif(&data));
    assert!(!scan_compat_brands(&data, &[*b"avif"]));
}

#[test]
fn ftyp_needs_twelve_bytes() {
    assert!(!has_ftyp(b"\0\0\0\x0cftyp"));
    assert!(has_ftyp(&ftyp(b"avif", &[])));
    assert!(!detect_avif(&[]));
}

#[test]
fn jxl_signatures() {
    assert!(detect_jxl(&[0xFF, 0x0A]));
    assert!(detect_jxl(&[0x00, 0x00, 0x00, 0x0C, 0x4A, 0x58, 0x4C, 0x20, 0x0D, 0x0A, 0x87, 0x0A]));
    assert!(!detect_jxl(&[0x00, 0x00, 0x00, 0x0C, 0x4A, 0x58, 0x4C, 0x20, 0x0D, 0x0A, 0x87, 0x0B]));
    assert!(!detect_jxl(&[0xFF]));
}
