use fractal_dispatch::bytes::{u32_from_be, u32_to_be};
use fractal_dispatch::framing::{
    copy_range, read_frame, read_header, write_frame, FrameHeader, FramingError,
};

#[test]
fn big_endian_words() {
    assert_eq!(u32_to_be(0x0102_0304), [1, 2, 3, 4]);
    assert_eq!(u32_to_be(u32::MAX), [255, 255, 255, 255]);
    assert_eq!(u32_from_be(1, 2, 3, 4), 0x0102_0304);
    assert_eq!(u32_from_be(0, 0, 1, 0), 256);
    assert_eq!(u32_from_be(0x3f, 0x80, 0, 0), 1.0f32.to_bits());
    assert_eq!(u32_to_be(0.5f32.to_bits()), 0.5f32.to_be_bytes());
}

#[test]
fn frame_round_trip() {
    let json = b"{\"FragmentRequest\":{}}".to_vec();
    let data = vec![1u8, 2, 3];
    let frame = write_frame(&json, &data).unwrap();
    assert_eq!(frame.len(), 8 + json.len() + 3);
    assert_eq!(&frame[0..4], &[0, 0, 0, (json.len() + 3) as u8]);
    assert_eq!(&frame[4..8], &[0, 0, 0, json.len() as u8]);
    assert_eq!(&frame[8..8 + json.len()], &json[..]);
    assert_eq!(&frame[8 + json.len()..], &data[..]);
    assert_eq!(read_frame(&frame), Ok((json, data)));
}

#[test]
fn frame_with_empty_payload() {
    let json = b"{}".to_vec();
    let frame = write_frame(&json, &[]).unwrap();
    assert_eq!(frame, vec![0, 0, 0, 2, 0, 0, 0, 2, b'{', b'}']);
    assert_eq!(read_frame(&frame), Ok((json, Vec::new())));
}

#[test]
fn frame_with_empty_json() {
    let frame = write_frame(&[], &[9, 8]).unwrap();
    assert_eq!(frame, vec![0, 0, 0, 2, 0, 0, 0, 0, 9, 8]);
    assert_eq!(read_frame(&frame), Ok((Vec::new(), vec![9, 8])));
}

#[test]
fn header_with_json_larger_than_total_is_refused() {
    let header = [0u8, 0, 0, 10, 0, 0, 0, 20];
    assert_eq!(read_header(&header), Err(FramingError::JsonLargerThanTotal));
    let mut frame = header.to_vec();
    frame.extend_from_slice(&[0u8; 20]);
    assert_eq!(read_frame(&frame), Err(FramingError::JsonLargerThanTotal));
}

#[test]
fn header_is_read() {
    let header = [0u8, 0, 0, 20, 0, 0, 0, 10];
    let read = read_header(&header).unwrap();
    assert_eq!(read, FrameHeader { total_size: 20, json_size: 10 });
    assert_eq!(read.data_size(), 10);
    let equal = [0u8, 0, 1, 0, 0, 0, 1, 0];
    assert_eq!(read_header(&equal), Ok(FrameHeader { total_size: 256, json_size: 256 }));
}

#[test]
fn short_header_is_truncated() {
    assert_eq!(read_header(&[]), Err(FramingError::Truncated));
    assert_eq!(read_header(&[0, 0, 0, 1, 0, 0, 0]), Err(FramingError::Truncated));
}

#[test]
fn short_body_is_truncated() {
    let frame = vec![0u8, 0, 0, 4, 0, 0, 0, 2, b'{', b'}', 1];
    assert_eq!(read_frame(&frame), Err(FramingError::Truncated));
}

#[test]
fn bytes_after_the_frame_are_not_read() {
    let frame = vec![0u8, 0, 0, 3, 0, 0, 0, 2, b'{', b'}', 1, 77, 78];
    assert_eq!(read_frame(&frame), Ok((b"{}".to_vec(), vec![1])));
}

#[test]
fn range_is_copied() {
    let v = vec![10u8, 11, 12, 13];
    assert_eq!(copy_range(&v, 1, 3), vec![11, 12]);
    assert_eq!(copy_range(&v, 2, 2), Vec::<u8>::new());
    assert_eq!(copy_range(&v, 0, 4), v);
}
