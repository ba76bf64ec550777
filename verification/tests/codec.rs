use ni::{Error, Name};

#[test]
fn bincode() {
    let name = Name::encode(b"hello").expect("encode name");

    let data = name.encode_frame();
    let (name, read) = Name::decode_frame(&data).expect("decode name").expect("decode name");

    assert_eq!(name.decode().as_str(), "hello");
    assert_eq!(read, "hello".len() + 1);
}

#[test]
fn bincode_borrow() {
    let name = Name::encode(b"hello").expect("encode name");

    let data = name.encode_frame();
    let (name, read) =
        Name::decode_frame(data.as_slice()).expect("decode name").expect("decode name");

    assert_eq!(name.decode().as_str(), "hello");
    assert_eq!(read, "hello".len() + 1);
}

#[test]
fn decode_too_long() {
    let data = [(Name::MAXLEN + 1) as u8];
    let e = Name::decode_frame(&data).expect("failed to decode").expect_err("failed to decode");

    assert!(matches!(e, Error::TooLong));
    assert_eq!(e.as_str(), Error::TooLong.as_str());
}

#[test]
fn frame_bytes_exact() {
    let name = Name::encode(b"hello").unwrap();
    assert_eq!(name.encode_frame(), vec![5u8, b'h', b'e', b'l', b'l', b'o']);

    let one = Name::encode(b"a").unwrap();
    assert_eq!(one.encode_frame(), vec![1u8, b'a']);
}

#[test]
fn frame_round_trip_long() {
    let s = b"123__qwe__456_xyz__098__";
    let name = Name::encode(s).unwrap();
    let data = name.encode_frame();
    assert_eq!(data.len(), s.len() + 1);
    let (back, read) = Name::decode_frame(&data).unwrap().unwrap();
    assert_eq!(back, name);
    assert_eq!(read, data.len());
}

#[test]
fn decode_frame_needs_more_bytes() {
    // No length byte at all, then a frame cut short.
    assert!(Name::decode_frame(&[]).is_none());
    assert!(Name::decode_frame(&[5u8, b'h', b'e']).is_none());
}

#[test]
fn decode_frame_empty_payload() {
    let e = Name::decode_frame(&[0u8]).expect("frame is complete").expect_err("empty name");
    assert!(matches!(e, Error::Empty));
}

#[test]
fn decode_frame_revalidates() {
    let e = Name::decode_frame(&[2u8, b'_', b'x']).expect("frame is complete").expect_err("bad name");
    assert!(matches!(e, Error::LeadingUnderscore));

    let e = Name::decode_frame(&[2u8, b'A', b'x']).expect("frame is complete").expect_err("bad name");
    assert!(matches!(e, Error::InvalidChar));
}
