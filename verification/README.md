# zencodec

Shared types and verified logic for image codecs, written in Verus.

`src/` is the verified library. Every public function carries a
`requires`/`ensures` contract stated over spec functions and views, and
the laws that relate several functions are public proof functions
(`lemma_*`), among them:

- the ISO 21496-1 gain map metadata parses back to what was written
  (`gainmap::lemma_iso21496_roundtrip`), and everything that parses can
  be written (`gainmap::lemma_parsed_is_writable`);
- widening 8-bit pixels to 16 bits and narrowing them back gives the
  source pixels (`convert::lemma_u8_u16_roundtrip`,
  `convert::lemma_same_format_copies`);
- an orientation set explicitly survives a later EXIF blob
  (`metadata::lemma_explicit_orientation_wins`);
- negotiation always picks an available format
  (`negotiate::lemma_negotiated_is_available`);
- format detection reads only the first twelve bytes
  (`format::lemma_detect_reads_prefix`);
- an extension is recognized exactly when its lowercased bytes are in the
  format's extension list (`format::lemma_from_extension_iff_listed`);
- the JPEG form of the gain map metadata is the box form without its
  version byte (`gainmap::lemma_jpeg_form_is_box_form_without_version`).

Calls into the `zenpixels` crate go through a few trusted wrappers. The
ICC tag-table scan's contract states what it returns (`info::icc_cicp_of`)
and excludes, by its `requires`, tag offsets whose end would not fit in
`usize`; `info::icc_cicp_offsets_checked` tests that condition. The ICC
profile identification's result, a hash-table lookup, is named. The native byte order comes from one trusted wrapper of
`u16::to_ne_bytes`, and a pixel buffer's shared color context is
copied by one trusted wrapper of `Arc::clone`.

`app/` holds what the library does not: floating-point gain map
parameters, physical resolution and quality ranges, typed `imgref`/`rgb` pixel buffers,
`std::error::Error` types and error-chain inspection, and conversions to
and from `zenpixels` types.

`tests/` exercises the library on concrete values.
