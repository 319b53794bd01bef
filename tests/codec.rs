use hex_str::{
    decode_byte, decode_nibble, encode_byte, parse_quartet, parse_quartet_lower,
    parse_quartet_upper, to_hex_lower, to_hex_upper, Case, CasePolicy, Error, FromSliceError,
    FromStrError, HexVectorError, Lower, Upper,
};

#[test]
fn quartets_of_every_policy() {
    assert_eq!(parse_quartet(b'0'), Some(0));
    assert_eq!(parse_quartet(b'9'), Some(9));
    assert_eq!(parse_quartet(b'a'), Some(10));
    assert_eq!(parse_quartet(b'F'), Some(15));
    assert_eq!(parse_quartet(b'g'), None);
    assert_eq!(parse_quartet(b'/'), None);
    assert_eq!(parse_quartet(b':'), None);
    assert_eq!(parse_quartet(b'@'), None);
    assert_eq!(parse_quartet(b'G'), None);

    assert_eq!(parse_quartet_lower(b'f'), Some(15));
    assert_eq!(parse_quartet_lower(b'F'), None);
    assert_eq!(parse_quartet_lower(b'7'), Some(7));

    assert_eq!(parse_quartet_upper(b'F'), Some(15));
    assert_eq!(parse_quartet_upper(b'f'), None);
    assert_eq!(parse_quartet_upper(b'3'), Some(3));

    assert_eq!(decode_nibble(b'c', CasePolicy::Any), Some(12));
    assert_eq!(decode_nibble(b'C', CasePolicy::Lower), None);
}

#[test]
fn all_bytes_decode_and_encode() {
    for v in 0..=255_u8 {
        let lower = to_hex_lower(v);
        let upper = to_hex_upper(v);
        assert_eq!(decode_byte(lower[0], lower[1], CasePolicy::Lower), Some(v));
        assert_eq!(decode_byte(upper[0], upper[1], CasePolicy::Upper), Some(v));
        assert_eq!(decode_byte(lower[0], upper[1], CasePolicy::Any), Some(v));
        assert_eq!(format!("{:02x}", v).as_bytes(), &lower);
        assert_eq!(format!("{:02X}", v).as_bytes(), &upper);
    }
}

#[test]
fn byte_pairs() {
    assert_eq!(decode_byte(b'1', b'a', CasePolicy::Any), Some(0x1a));
    assert_eq!(decode_byte(b'f', b'F', CasePolicy::Any), Some(0xff));
    assert_eq!(decode_byte(b'f', b'F', CasePolicy::Lower), None);
    assert_eq!(decode_byte(b'z', b'0', CasePolicy::Any), None);
    assert_eq!(encode_byte(0xab, Case::Lower), *b"ab");
    assert_eq!(encode_byte(0xab, Case::Upper), *b"AB");
    assert_eq!(to_hex_lower(0x0f), *b"0f");
    assert_eq!(to_hex_upper(0xf0), *b"F0");
}

#[test]
fn fixed_case_formatters() {
    let bytes = [0xde_u8, 0xad, 0xbe, 0xef];
    assert_eq!(Lower::new(&bytes).to_string(), "deadbeef");
    assert_eq!(Upper::new(&bytes).to_string(), "DEADBEEF");
    assert_eq!(Lower::new(&[]).to_string(), "");
}

#[test]
fn error_keeps_its_input() {
    let e = Error::new(String::from("0g"), FromStrError::InvalidCharacter);
    assert_eq!(e.kind(), FromStrError::InvalidCharacter);
    assert_eq!(e.inner(), "0g");
    assert_eq!(e.into_inner(), "0g");

    let e = Error::new(vec![1_u8, 2, 3], FromSliceError);
    assert_eq!(e.kind(), FromSliceError);
    assert_eq!(e.inner().len(), 3);

    let e = Error::new("abc", HexVectorError::InvalidLength { encountered: 3 });
    assert_eq!(e.kind(), HexVectorError::InvalidLength { encountered: 3 });
    assert_ne!(e.kind(), HexVectorError::InvalidByte { msb: b'a', lsb: b'b', index: 0 });
    assert_eq!(*e.inner(), "abc");
}
