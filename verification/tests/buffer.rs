use zencodec::buffer::{BufferError, PixelBuffer, PixelSlice};
use zencodec::descriptor::PixelDescriptor;

#[test]
fn slice_accepts_exact_and_padded_rows() {
    let data = [0u8; 12];
    let s = PixelSlice::new(&data, 2, 2, 6, PixelDescriptor::rgb8()).unwrap();
    assert_eq!(s.width(), 2);
    assert_eq!(s.rows(), 2);
    assert_eq!(s.stride(), 6);
    assert_eq!(s.descriptor(), PixelDescriptor::rgb8());
    assert_eq!(s.data().len(), 12);
    // A padded stride: the last row needs only its packed length.
    let padded = [0u8; 15];
    assert!(PixelSlice::new(&padded, 2, 2, 9, PixelDescriptor::rgb8()).is_ok());
    assert!(PixelSlice::new(&padded[..14], 2, 2, 9, PixelDescriptor::rgb8()).is_err());
}

#[test]
fn slice_errors() {
    let data = [0u8; 8];
    assert_eq!(
        PixelSlice::new(&data, 2, 2, 6, PixelDescriptor::rgba8()).unwrap_err(),
        BufferError::StrideTooSmall
    );
    assert_eq!(
        PixelSlice::new(&data, 1, 2, 5, PixelDescriptor::rgba8()).unwrap_err(),
        BufferError::StrideNotPixelAligned
    );
    assert_eq!(
        PixelSlice::new(&data, 2, 2, 8, PixelDescriptor::rgba8()).unwrap_err(),
        BufferError::InsufficientData
    );
    assert_eq!(
        PixelSlice::new(&data, 4, u32::MAX, usize::MAX - (usize::MAX % 16), PixelDescriptor::rgba16()).unwrap_err(),
        BufferError::InvalidDimensions
    );
}

#[test]
fn zero_rows_need_no_data() {
    let data: [u8; 0] = [];
    assert!(PixelSlice::new(&data, 5, 0, 15, PixelDescriptor::rgb8()).is_ok());
}

#[test]
fn buffer_packed_roundtrip() {
    let buf = PixelBuffer::from_packed(vec![1, 2, 3, 4, 5, 6], 3, 2, PixelDescriptor::gray8());
    assert_eq!(buf.width(), 3);
    assert_eq!(buf.height(), 2);
    assert_eq!(buf.as_contiguous_bytes().unwrap(), &[1, 2, 3, 4, 5, 6]);
    let s = buf.as_slice();
    assert_eq!(s.stride(), 3);
    assert_eq!(s.rows(), 2);
    assert_eq!(buf.into_vec(), vec![1, 2, 3, 4, 5, 6]);
}
