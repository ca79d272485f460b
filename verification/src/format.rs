//! Image format detection and static format properties.

use vstd::prelude::*;
use vstd::string::StringSliceAdditionalSpecFns;

verus! {

/// Supported image formats.
#[derive(Clone, Copy, Debug, PartialEq, Eq, Hash, Structural)]
pub enum ImageFormat {
    Jpeg,
    WebP,
    Gif,
    Png,
    Avif,
    Jxl,
    Pnm,
}

/// `s` has at least `off + lit.len()` bytes and they equal `lit` at `off`.
pub open spec fn bytes_at(s: Seq<u8>, off: int, lit: Seq<u8>) -> bool {
    &&& 0 <= off
    &&& off + lit.len() <= s.len()
    &&& s.subrange(off, off + lit.len()) == lit
}

/// JPEG: `FF D8 FF`.
pub open spec fn is_jpeg_magic(s: Seq<u8>) -> bool {
    bytes_at(s, 0, seq![0xFFu8, 0xD8, 0xFF])
}

/// PNG: the eight-byte signature.
pub open spec fn is_png_magic(s: Seq<u8>) -> bool {
    bytes_at(s, 0, seq![0x89u8, 0x50, 0x4E, 0x47, 0x0D, 0x0A, 0x1A, 0x0A])
}

/// GIF: `GIF87a` or `GIF89a`.
pub open spec fn is_gif_magic(s: Seq<u8>) -> bool {
    ||| bytes_at(s, 0, seq![0x47u8, 0x49, 0x46, 0x38, 0x37, 0x61])
    ||| bytes_at(s, 0, seq![0x47u8, 0x49, 0x46, 0x38, 0x39, 0x61])
}

/// WebP: `RIFF` at 0 and `WEBP` at 8.
pub open spec fn is_webp_magic(s: Seq<u8>) -> bool {
    &&& bytes_at(s, 0, seq![0x52u8, 0x49, 0x46, 0x46])
    &&& bytes_at(s, 8, seq![0x57u8, 0x45, 0x42, 0x50])
}

/// AVIF: `ftyp` at 4 with brand `avif` or `avis` at 8.
pub open spec fn is_avif_magic(s: Seq<u8>) -> bool {
    &&& bytes_at(s, 4, seq![0x66u8, 0x74, 0x79, 0x70])
    &&& (bytes_at(s, 8, seq![0x61u8, 0x76, 0x69, 0x66]) || bytes_at(s, 8, seq![0x61u8, 0x76, 0x69, 0x73]))
}

/// JPEG XL: bare codestream `FF 0A`, or the twelve-byte container signature.
pub open spec fn is_jxl_magic(s: Seq<u8>) -> bool {
    ||| bytes_at(s, 0, seq![0xFFu8, 0x0A])
    ||| bytes_at(s, 0, seq![0x00u8, 0x00, 0x00, 0x0C, 0x4A, 0x58, 0x4C, 0x20, 0x0D, 0x0A, 0x87, 0x0A])
}

/// PNM family: `P` followed by `1`..`7`, `F` or `f`.
pub open spec fn is_pnm_magic(s: Seq<u8>) -> bool {
    &&& s.len() >= 2
    &&& s[0] == 0x50u8
    &&& ((0x31u8 <= s[1] <= 0x37u8) || s[1] == 0x46u8 || s[1] == 0x66u8)
}

/// Format detection by magic bytes, checked in a fixed priority order.
pub open spec fn detect_spec(s: Seq<u8>) -> Option<ImageFormat> {
    if is_jpeg_magic(s) {
        Some(ImageFormat::Jpeg)
    } else if is_png_magic(s) {
        Some(ImageFormat::Png)
    } else if is_gif_magic(s) {
        Some(ImageFormat::Gif)
    } else if is_webp_magic(s) {
        Some(ImageFormat::WebP)
    } else if is_avif_magic(s) {
        Some(ImageFormat::Avif)
    } else if is_jxl_magic(s) {
        Some(ImageFormat::Jxl)
    } else if is_pnm_magic(s) {
        Some(ImageFormat::Pnm)
    } else {
        None
    }
}

/// Compare `data[off..off + lit.len()]` with `lit`, failing when too short.
fn matches_at(data: &[u8], off: usize, lit: &[u8]) -> (r: bool)
    ensures
        r == bytes_at(data@, off as int, lit@),
{
    if off > data.len() || lit.len() > data.len() - off {
        return false;
    }
    let mut i: usize = 0;
    while i < lit.len()
        invariant
            off + lit.len() <= data.len(),
            i <= lit.len(),
            forall|j: int| 0 <= j < i ==> data@[off + j] == lit@[j],
        decreases lit.len() - i,
    {
        if data[off + i] != lit[i] {
            assert(data@.subrange(off as int, off + lit.len())[i as int] != lit@[i as int]);
            return false;
        }
        i = i + 1;
    }
    assert(data@.subrange(off as int, off + lit.len()) =~= lit@);
    true
}

impl ImageFormat {
    /// Detect format from magic bytes. Returns `None` if unrecognized.
    pub fn detect(data: &[u8]) -> (r: Option<ImageFormat>)
        ensures
            r == detect_spec(data@),
    {
        if matches_at(data, 0, &[0xFF, 0xD8, 0xFF]) {
            return Some(ImageFormat::Jpeg);
        }
        if matches_at(data, 0, &[0x89, 0x50, 0x4E, 0x47, 0x0D, 0x0A, 0x1A, 0x0A]) {
            return Some(ImageFormat::Png);
        }
        if matches_at(data, 0, &[0x47, 0x49, 0x46, 0x38, 0x37, 0x61])
            || matches_at(data, 0, &[0x47, 0x49, 0x46, 0x38, 0x39, 0x61]) {
            return Some(ImageFormat::Gif);
        }
        if matches_at(data, 0, &[0x52, 0x49, 0x46, 0x46]) && matches_at(data, 8, &[0x57, 0x45, 0x42, 0x50]) {
            return Some(ImageFormat::WebP);
        }
        if matches_at(data, 4, &[0x66, 0x74, 0x79, 0x70]) && (matches_at(data, 8, &[0x61, 0x76, 0x69, 0x66])
            || matches_at(data, 8, &[0x61, 0x76, 0x69, 0x73])) {
            return Some(ImageFormat::Avif);
        }
        if matches_at(data, 0, &[0xFF, 0x0A]) || matches_at(
            data,
            0,
            &[0x00, 0x00, 0x00, 0x0C, 0x4A, 0x58, 0x4C, 0x20, 0x0D, 0x0A, 0x87, 0x0A],
        ) {
            return Some(ImageFormat::Jxl);
        }
        if data.len() >= 2 && data[0] == 0x50 {
            let b = data[1];
            if (0x31 <= b && b <= 0x37) || b == 0x46 || b == 0x66 {
                return Some(ImageFormat::Pnm);
            }
        }
        None
    }
}


/// ASCII lower-casing of one byte; other bytes are unchanged.
pub open spec fn ascii_lower(b: u8) -> u8 {
    if 0x41u8 <= b <= 0x5Au8 { (b + 32) as u8 } else { b }
}

/// Byte strings of the known extensions, lower case, per format.
pub open spec fn extension_bytes(f: ImageFormat) -> Seq<Seq<u8>> {
    match f {
        ImageFormat::Jpeg => seq![
            seq![0x6Au8, 0x70, 0x67],
            seq![0x6Au8, 0x70, 0x65, 0x67],
            seq![0x6Au8, 0x70, 0x65],
            seq![0x6Au8, 0x66, 0x69, 0x66],
        ],
        ImageFormat::WebP => seq![seq![0x77u8, 0x65, 0x62, 0x70]],
        ImageFormat::Gif => seq![seq![0x67u8, 0x69, 0x66]],
        ImageFormat::Png => seq![seq![0x70u8, 0x6E, 0x67]],
        ImageFormat::Avif => seq![seq![0x61u8, 0x76, 0x69, 0x66]],
        ImageFormat::Jxl => seq![seq![0x6Au8, 0x78, 0x6C]],
        ImageFormat::Pnm => seq![
            seq![0x70u8, 0x6E, 0x6D],
            seq![0x70u8, 0x70, 0x6D],
            seq![0x70u8, 0x67, 0x6D],
            seq![0x70u8, 0x62, 0x6D],
            seq![0x70u8, 0x61, 0x6D],
            seq![0x70u8, 0x66, 0x6D],
        ],
    }
}

/// The format whose extension list holds the lower-cased bytes `lower`.
pub open spec fn format_for_extension(lower: Seq<u8>) -> Option<ImageFormat> {
    if extension_bytes(ImageFormat::Jpeg).contains(lower) {
        Some(ImageFormat::Jpeg)
    } else if extension_bytes(ImageFormat::WebP).contains(lower) {
        Some(ImageFormat::WebP)
    } else if extension_bytes(ImageFormat::Gif).contains(lower) {
        Some(ImageFormat::Gif)
    } else if extension_bytes(ImageFormat::Png).contains(lower) {
        Some(ImageFormat::Png)
    } else if extension_bytes(ImageFormat::Avif).contains(lower) {
        Some(ImageFormat::Avif)
    } else if extension_bytes(ImageFormat::Jxl).contains(lower) {
        Some(ImageFormat::Jxl)
    } else if extension_bytes(ImageFormat::Pnm).contains(lower) {
        Some(ImageFormat::Pnm)
    } else {
        None
    }
}

/// Extension lookup on raw bytes: at most eight bytes, compared case-insensitively.
pub open spec fn from_extension_spec(ext: Seq<u8>) -> Option<ImageFormat> {
    if ext.len() > 8 {
        None
    } else {
        format_for_extension(ext.map_values(|b: u8| ascii_lower(b)))
    }
}

fn eq_bytes(a: &[u8], b: &[u8]) -> (r: bool)
    ensures
        r == (a@ == b@),
{
    if a.len() != b.len() {
        return false;
    }
    let mut i: usize = 0;
    while i < a.len()
        invariant
            a.len() == b.len(),
            i <= a.len(),
            forall|j: int| 0 <= j < i ==> a@[j] == b@[j],
        decreases a.len() - i,
    {
        if a[i] != b[i] {
            return false;
        }
        i = i + 1;
    }
    assert(a@ =~= b@);
    true
}

/// Whether `lower` equals one of the entries of `names`.
fn any_equal(lower: &[u8], names: &[&[u8]]) -> (r: bool)
    ensures
        r == names@.map_values(|n: &[u8]| n@).contains(lower@),
{
    let ghost views = names@.map_values(|n: &[u8]| n@);
    let mut i: usize = 0;
    while i < names.len()
        invariant
            i <= names.len(),
            views == names@.map_values(|n: &[u8]| n@),
            forall|j: int| 0 <= j < i ==> views[j] != lower@,
        decreases names.len() - i,
    {
        if eq_bytes(lower, names[i]) {
            assert(views[i as int] == lower@);
            return true;
        }
        i = i + 1;
    }
    false
}

impl ImageFormat {
    /// Recommended bytes to fetch for probing any format.
    pub const RECOMMENDED_PROBE_BYTES: usize = 4096;

    /// Detect format from file extension (ASCII case-insensitive).
    pub fn from_extension(ext: &str) -> (r: Option<ImageFormat>)
        ensures
            r == from_extension_spec(ext.spec_bytes()),
    {
        let bytes = ext.as_bytes();
        if bytes.len() > 8 {
            return None;
        }
        let mut lower: Vec<u8> = Vec::new();
        let mut i: usize = 0;
        while i < bytes.len()
            invariant
                i <= bytes.len(),
                lower@ =~= bytes@.take(i as int).map_values(|b: u8| ascii_lower(b)),
            decreases bytes.len() - i,
        {
            let b = bytes[i];
            let l = if 0x41 <= b && b <= 0x5A { b + 32 } else { b };
            lower.push(l);
            i = i + 1;
            assert(bytes@.take(i as int) =~= bytes@.take(i - 1).push(b));
        }
        assert(bytes@.take(bytes.len() as int) =~= bytes@);
        let l = lower.as_slice();
        let jpeg: [&[u8]; 4] = [&[0x6A, 0x70, 0x67], &[0x6A, 0x70, 0x65, 0x67], &[0x6A, 0x70, 0x65], &[0x6A, 0x66, 0x69, 0x66]];
        let pnm: [&[u8]; 6] = [&[0x70, 0x6E, 0x6D], &[0x70, 0x70, 0x6D], &[0x70, 0x67, 0x6D], &[0x70, 0x62, 0x6D], &[0x70, 0x61, 0x6D], &[0x70, 0x66, 0x6D]];
        assert(jpeg@.map_values(|n: &[u8]| n@) =~= extension_bytes(ImageFormat::Jpeg));
        assert(pnm@.map_values(|n: &[u8]| n@) =~= extension_bytes(ImageFormat::Pnm));
        if any_equal(l, jpeg.as_slice()) {
            return Some(ImageFormat::Jpeg);
        }
        if eq_bytes(l, &[0x77, 0x65, 0x62, 0x70]) {
            assert(extension_bytes(ImageFormat::WebP)[0] == l@);
            return Some(ImageFormat::WebP);
        }
        if eq_bytes(l, &[0x67, 0x69, 0x66]) {
            assert(extension_bytes(ImageFormat::Gif)[0] == l@);
            return Some(ImageFormat::Gif);
        }
        if eq_bytes(l, &[0x70, 0x6E, 0x67]) {
            assert(extension_bytes(ImageFormat::Png)[0] == l@);
            return Some(ImageFormat::Png);
        }
        if eq_bytes(l, &[0x61, 0x76, 0x69, 0x66]) {
            assert(extension_bytes(ImageFormat::Avif)[0] == l@);
            return Some(ImageFormat::Avif);
        }
        if eq_bytes(l, &[0x6A, 0x78, 0x6C]) {
            assert(extension_bytes(ImageFormat::Jxl)[0] == l@);
            return Some(ImageFormat::Jxl);
        }
        if any_equal(l, pnm.as_slice()) {
            return Some(ImageFormat::Pnm);
        }
        None
    }
}


/// Byte-level view of a list of string slices.
pub open spec fn str_list_bytes(l: Seq<&str>) -> Seq<Seq<u8>> {
    l.map_values(|s: &str| s.spec_bytes())
}

/// MIME type text per format.
pub open spec fn mime_type_spec(f: ImageFormat) -> Seq<char> {
    match f {
        ImageFormat::Jpeg => "image/jpeg"@,
        ImageFormat::WebP => "image/webp"@,
        ImageFormat::Gif => "image/gif"@,
        ImageFormat::Png => "image/png"@,
        ImageFormat::Avif => "image/avif"@,
        ImageFormat::Jxl => "image/jxl"@,
        ImageFormat::Pnm => "image/x-portable-anymap"@,
    }
}

/// Human-readable name per format.
pub open spec fn name_spec(f: ImageFormat) -> Seq<char> {
    match f {
        ImageFormat::Jpeg => "JPEG"@,
        ImageFormat::WebP => "WebP"@,
        ImageFormat::Gif => "GIF"@,
        ImageFormat::Png => "PNG"@,
        ImageFormat::Avif => "AVIF"@,
        ImageFormat::Jxl => "JPEG XL"@,
        ImageFormat::Pnm => "PNM"@,
    }
}

/// Minimum probe size per format.
pub open spec fn min_probe_bytes_spec(f: ImageFormat) -> usize {
    match f {
        ImageFormat::Png => 33,
        ImageFormat::Gif => 13,
        ImageFormat::WebP => 30,
        ImageFormat::Jpeg => 2048,
        ImageFormat::Avif => 512,
        ImageFormat::Jxl => 256,
        ImageFormat::Pnm => 20,
    }
}

impl ImageFormat {
    /// MIME type string.
    pub fn mime_type(self) -> (r: &'static str)
        ensures
            r@ == mime_type_spec(self),
    {
        match self {
            ImageFormat::Jpeg => "image/jpeg",
            ImageFormat::WebP => "image/webp",
            ImageFormat::Gif => "image/gif",
            ImageFormat::Png => "image/png",
            ImageFormat::Avif => "image/avif",
            ImageFormat::Jxl => "image/jxl",
            ImageFormat::Pnm => "image/x-portable-anymap",
        }
    }

    /// Common file extensions, primary first.
    pub fn extensions(self) -> (r: &'static [&'static str])
        ensures
            str_list_bytes(r@) == extension_bytes(self),
    {
        match self {
            ImageFormat::Jpeg => {
                let r: &'static [&'static str] = &["jpg", "jpeg", "jpe", "jfif"];
                proof {
                    reveal_strlit("jpg");
                    reveal_strlit("jpeg");
                    reveal_strlit("jpe");
                    reveal_strlit("jfif");
                    lemma_ascii_literal(r@[0], extension_bytes(self)[0]);
                    lemma_ascii_literal(r@[1], extension_bytes(self)[1]);
                    lemma_ascii_literal(r@[2], extension_bytes(self)[2]);
                    lemma_ascii_literal(r@[3], extension_bytes(self)[3]);
                    assert(str_list_bytes(r@) =~= extension_bytes(self));
                }
                r
            },
            ImageFormat::WebP => {
                let r: &'static [&'static str] = &["webp"];
                proof {
                    reveal_strlit("webp");
                    lemma_ascii_literal(r@[0], extension_bytes(self)[0]);
                    assert(str_list_bytes(r@) =~= extension_bytes(self));
                }
                r
            },
            ImageFormat::Gif => {
                let r: &'static [&'static str] = &["gif"];
                proof {
                    reveal_strlit("gif");
                    lemma_ascii_literal(r@[0], extension_bytes(self)[0]);
                    assert(str_list_bytes(r@) =~= extension_bytes(self));
                }
                r
            },
            ImageFormat::Png => {
                let r: &'static [&'static str] = &["png"];
                proof {
                    reveal_strlit("png");
                    lemma_ascii_literal(r@[0], extension_bytes(self)[0]);
                    assert(str_list_bytes(r@) =~= extension_bytes(self));
                }
                r
            },
            ImageFormat::Avif => {
                let r: &'static [&'static str] = &["avif"];
                proof {
                    reveal_strlit("avif");
                    lemma_ascii_literal(r@[0], extension_bytes(self)[0]);
                    assert(str_list_bytes(r@) =~= extension_bytes(self));
                }
                r
            },
            ImageFormat::Jxl => {
                let r: &'static [&'static str] = &["jxl"];
                proof {
                    reveal_strlit("jxl");
                    lemma_ascii_literal(r@[0], extension_bytes(self)[0]);
                    assert(str_list_bytes(r@) =~= extension_bytes(self));
                }
                r
            },
            ImageFormat::Pnm => {
                let r: &'static [&'static str] = &["pnm", "ppm", "pgm", "pbm", "pam", "pfm"];
                proof {
                    reveal_strlit("pnm");
                    reveal_strlit("ppm");
                    reveal_strlit("pgm");
                    reveal_strlit("pbm");
                    reveal_strlit("pam");
                    reveal_strlit("pfm");
                    lemma_ascii_literal(r@[0], extension_bytes(self)[0]);
                    lemma_ascii_literal(r@[1], extension_bytes(self)[1]);
                    lemma_ascii_literal(r@[2], extension_bytes(self)[2]);
                    lemma_ascii_literal(r@[3], extension_bytes(self)[3]);
                    lemma_ascii_literal(r@[4], extension_bytes(self)[4]);
                    lemma_ascii_literal(r@[5], extension_bytes(self)[5]);
                    assert(str_list_bytes(r@) =~= extension_bytes(self));
                }
                r
            },
        }
    }
}

/// An ASCII string's bytes are its characters, one byte each.
proof fn lemma_ascii_literal(s: &str, b: Seq<u8>)
    requires
        s@.len() == b.len(),
        forall|i: int| 0 <= i < b.len() ==> b[i] < 128 && s@[i] as int == b[i] as int,
    ensures
        s.spec_bytes() == b,
{
    assert(vstd::utf8::is_ascii_chars(s@)) by {
        assert forall|i: int| 0 <= i < s@.len() implies '\0' <= #[trigger] s@[i] <= '\u{7f}' by {
            assert(s@[i] as int == b[i] as int);
            assert(s@[i] as int <= 127);
        }
    }
    vstd::utf8::is_ascii_chars_encode_utf8(s@);
    assert forall|i: int| 0 <= i < b.len() implies s.spec_bytes()[i] == b[i] by {
        assert(s@[i] as u8 == s.spec_bytes()[i]);
    }
    assert(s.spec_bytes() =~= b);
}


impl ImageFormat {
    /// Primary file extension (the first entry of [`extensions`](Self::extensions)).
    pub fn extension(self) -> (r: &'static str)
        ensures
            r.spec_bytes() == extension_bytes(self)[0],
    {
        let all = self.extensions();
        assert(str_list_bytes(all@).len() == all@.len());
        assert(str_list_bytes(all@)[0] == all@[0].spec_bytes());
        all[0]
    }

    /// Whether this format supports lossy encoding.
    pub fn supports_lossy(self) -> (r: bool)
        ensures
            r == (self == ImageFormat::Jpeg || self == ImageFormat::WebP || self == ImageFormat::Avif
                || self == ImageFormat::Jxl),
    {
        matches!(self, ImageFormat::Jpeg | ImageFormat::WebP | ImageFormat::Avif | ImageFormat::Jxl)
    }

    /// Whether this format supports lossless encoding.
    pub fn supports_lossless(self) -> (r: bool)
        ensures
            r == (self != ImageFormat::Jpeg),
    {
        matches!(
            self,
            ImageFormat::WebP | ImageFormat::Gif | ImageFormat::Png | ImageFormat::Avif | ImageFormat::Jxl
                | ImageFormat::Pnm
        )
    }

    /// Whether this format supports animation.
    pub fn supports_animation(self) -> (r: bool)
        ensures
            r == (self == ImageFormat::WebP || self == ImageFormat::Gif || self == ImageFormat::Jxl),
    {
        matches!(self, ImageFormat::WebP | ImageFormat::Gif | ImageFormat::Jxl)
    }

    /// Minimum bytes needed for reliable dimension probing of this format.
    pub fn min_probe_bytes(self) -> (r: usize)
        ensures
            r == min_probe_bytes_spec(self),
            r <= Self::RECOMMENDED_PROBE_BYTES,
    {
        match self {
            ImageFormat::Png => 33,
            ImageFormat::Gif => 13,
            ImageFormat::WebP => 30,
            ImageFormat::Jpeg => 2048,
            ImageFormat::Avif => 512,
            ImageFormat::Jxl => 256,
            ImageFormat::Pnm => 20,
        }
    }

    /// Whether this format supports an alpha channel.
    pub fn supports_alpha(self) -> (r: bool)
        ensures
            r == (self != ImageFormat::Jpeg),
    {
        !matches!(self, ImageFormat::Jpeg)
    }

    /// Human-readable format name (the text the format displays as).
    pub fn name(self) -> (r: &'static str)
        ensures
            r@ == name_spec(self),
    {
        match self {
            ImageFormat::Jpeg => "JPEG",
            ImageFormat::WebP => "WebP",
            ImageFormat::Gif => "GIF",
            ImageFormat::Png => "PNG",
            ImageFormat::Avif => "AVIF",
            ImageFormat::Jxl => "JPEG XL",
            ImageFormat::Pnm => "PNM",
        }
    }
}

/// Every extension a format lists is recognized as that format, in any
/// ASCII case.
pub proof fn lemma_listed_extension_maps_back(f: ImageFormat, i: int)
    requires
        0 <= i < extension_bytes(f).len(),
    ensures
        from_extension_spec(extension_bytes(f)[i]) == Some(f),
{
    let e = extension_bytes(f)[i];
    assert(e.map_values(|b: u8| ascii_lower(b)) =~= e);
    assert(extension_bytes(f).contains(e));
    match f {
        ImageFormat::Jpeg => {},
        ImageFormat::WebP => {
            assert(!extension_bytes(ImageFormat::Jpeg).contains(e));
        },
        ImageFormat::Gif => {
            assert(!extension_bytes(ImageFormat::Jpeg).contains(e));
            assert(!extension_bytes(ImageFormat::WebP).contains(e));
        },
        ImageFormat::Png => {
            assert(!extension_bytes(ImageFormat::Jpeg).contains(e));
            assert(!extension_bytes(ImageFormat::WebP).contains(e));
            assert(!extension_bytes(ImageFormat::Gif).contains(e));
        },
        ImageFormat::Avif => {
            assert(!extension_bytes(ImageFormat::Jpeg).contains(e));
            assert(!extension_bytes(ImageFormat::WebP).contains(e));
            assert(!extension_bytes(ImageFormat::Gif).contains(e));
            assert(!extension_bytes(ImageFormat::Png).contains(e));
        },
        ImageFormat::Jxl => {
            assert(!extension_bytes(ImageFormat::Jpeg).contains(e));
            assert(!extension_bytes(ImageFormat::WebP).contains(e));
            assert(!extension_bytes(ImageFormat::Gif).contains(e));
            assert(!extension_bytes(ImageFormat::Png).contains(e));
            assert(!extension_bytes(ImageFormat::Avif).contains(e));
        },
        ImageFormat::Pnm => {
            assert(!extension_bytes(ImageFormat::Jpeg).contains(e));
            assert(!extension_bytes(ImageFormat::WebP).contains(e));
            assert(!extension_bytes(ImageFormat::Gif).contains(e));
            assert(!extension_bytes(ImageFormat::Png).contains(e));
            assert(!extension_bytes(ImageFormat::Avif).contains(e));
            assert(!extension_bytes(ImageFormat::Jxl).contains(e));
        },
    }
}

/// A string is recognized as a format exactly when its ASCII-lowercased
/// bytes are one of the extensions that format lists.
pub proof fn lemma_from_extension_iff_listed(ext: Seq<u8>, f: ImageFormat)
    ensures
        from_extension_spec(ext) == Some(f) <==> extension_bytes(f).contains(ext.map_values(|b: u8| ascii_lower(b))),
{
    let l = ext.map_values(|b: u8| ascii_lower(b));
    if extension_bytes(f).contains(l) {
        let i = choose|i: int| 0 <= i < extension_bytes(f).len() && extension_bytes(f)[i] == l;
        lemma_listed_extension_maps_back(f, i);
        assert(l.map_values(|b: u8| ascii_lower(b)) =~= l);
        assert(l.len() <= 8);
    }
    if from_extension_spec(ext) == Some(f) {
        assert(ext.len() <= 8);
        assert(format_for_extension(l) == Some(f));
    }
}

/// An ISO-BMFF file whose `ftyp` box (bytes 4 to 7) names the brand
/// `avif` (still image) or `avis` (image sequence) at bytes 8 to 11 is
/// detected as AVIF, unless its first byte starts another format's magic
/// (JPEG `FF`, PNG `89`, GIF `G`, RIFF `R`).
pub proof fn lemma_ftyp_avif_brands_detected(s: Seq<u8>)
    requires
        s.len() >= 12,
        s[4] == 0x66u8 && s[5] == 0x74u8 && s[6] == 0x79u8 && s[7] == 0x70u8,
        s[8] == 0x61u8 && s[9] == 0x76u8 && s[10] == 0x69u8 && (s[11] == 0x66u8 || s[11] == 0x73u8),
        s[0] != 0xFFu8 && s[0] != 0x89u8 && s[0] != 0x47u8 && s[0] != 0x52u8,
    ensures
        detect_spec(s) == Some(ImageFormat::Avif),
{
    assert(s.subrange(0, 3)[0] == s[0]);
    assert(s.subrange(0, 8)[0] == s[0]);
    assert(s.subrange(0, 6)[0] == s[0]);
    assert(s.subrange(0, 4)[0] == s[0]);
    assert(s.subrange(4, 8) =~= seq![0x66u8, 0x74, 0x79, 0x70]);
    if s[11] == 0x66u8 {
        assert(s.subrange(8, 12) =~= seq![0x61u8, 0x76, 0x69, 0x66]);
    } else {
        assert(s.subrange(8, 12) =~= seq![0x61u8, 0x76, 0x69, 0x73]);
    }
}

proof fn lemma_bytes_at_prefix(s: Seq<u8>, off: int, lit: Seq<u8>, k: int)
    requires
        0 <= off,
        off + lit.len() <= k <= s.len(),
    ensures
        bytes_at(s, off, lit) == bytes_at(s.subrange(0, k), off, lit),
{
    assert(s.subrange(0, k).subrange(off, off + lit.len()) =~= s.subrange(off, off + lit.len()));
}

/// Detection looks at the first twelve bytes only: any data agrees with
/// its twelve-byte prefix (so the recommended probe size suffices).
pub proof fn lemma_detect_reads_prefix(s: Seq<u8>)
    requires
        s.len() >= 12,
    ensures
        detect_spec(s) == detect_spec(s.subrange(0, 12)),
{
    let t = s.subrange(0, 12);
    lemma_bytes_at_prefix(s, 0, seq![0xFFu8, 0xD8, 0xFF], 12);
    lemma_bytes_at_prefix(s, 0, seq![0x89u8, 0x50, 0x4E, 0x47, 0x0D, 0x0A, 0x1A, 0x0A], 12);
    lemma_bytes_at_prefix(s, 0, seq![0x47u8, 0x49, 0x46, 0x38, 0x37, 0x61], 12);
    lemma_bytes_at_prefix(s, 0, seq![0x47u8, 0x49, 0x46, 0x38, 0x39, 0x61], 12);
    lemma_bytes_at_prefix(s, 0, seq![0x52u8, 0x49, 0x46, 0x46], 12);
    lemma_bytes_at_prefix(s, 8, seq![0x57u8, 0x45, 0x42, 0x50], 12);
    lemma_bytes_at_prefix(s, 4, seq![0x66u8, 0x74, 0x79, 0x70], 12);
    lemma_bytes_at_prefix(s, 8, seq![0x61u8, 0x76, 0x69, 0x66], 12);
    lemma_bytes_at_prefix(s, 8, seq![0x61u8, 0x76, 0x69, 0x73], 12);
    lemma_bytes_at_prefix(s, 0, seq![0xFFu8, 0x0A], 12);
    lemma_bytes_at_prefix(s, 0, seq![0x00u8, 0x00, 0x00, 0x0C, 0x4A, 0x58, 0x4C, 0x20, 0x0D, 0x0A, 0x87, 0x0A], 12);
    assert(t[0] == s[0] && t[1] == s[1]);
}

} // verus!
