use hex_str::{CasePolicy, HexArray, HexArrayError, HexString, HexVector};
use rand::seq::SliceRandom;

#[test]
fn rand_stack() {
    // 32 * 1024 - 1
    let a: HexArray<32_767> = HexArray::random();
    assert_eq!(a.to_lower().len(), 65_534);
}

#[test]
fn rand_heap() {
    // 1024 * 1024 - 1
    let a: HexString<1_048_575> = HexString::random();
    assert_eq!(a.as_array().len(), 1_048_575);
}

#[test]
fn hex_array_big_hex() {
    let mut rng = rand::thread_rng();
    let v = (0..1_048_576).fold(String::new(), |mut acc, _| {
        let v = *b"0123456789abcdefABCDEF".choose(&mut rng).unwrap();
        acc.push(v.into());
        acc
    });

    let parsed: HexString<524_288> = HexArray::try_parse_boxed(v.as_bytes()).unwrap();
    assert_eq!(parsed.to_lower(), v.to_lowercase());
}

#[test]
fn array_new_and_format() {
    let v = HexArray::new([0x1a, 0x2b, 0x3c, 0x4d]);
    assert_eq!(v, [0x1a, 0x2b, 0x3c, 0x4d]);
    assert_eq!(v, "1a2b3c4d");
    assert_eq!(v.to_lower(), "1a2b3c4d");
    assert_eq!(v.to_upper(), "1A2B3C4D");
}

#[test]
fn parse_mixed_case() {
    let v = HexArray::<4>::try_parse(b"1A2B3c4d").unwrap();
    assert_eq!(v, "1a2b3c4d");
    assert_eq!(v.as_array(), &[0x1a, 0x2b, 0x3c, 0x4d]);
}

#[test]
fn parse_lower_rejects_uppercase() {
    let v = HexArray::<4>::try_parse_lower(b"1a2b3c4d");
    assert_eq!(v.unwrap(), "1a2b3c4d");

    let v = HexArray::<4>::try_parse_lower(b"1A2B3C4D");
    assert_eq!(v.unwrap_err(), HexArrayError::InvalidByte { msb: b'1', lsb: b'A', index: 0 });
}

#[test]
fn parse_upper_rejects_lowercase() {
    let v = HexArray::<4>::try_parse_upper(b"1A2B3C4D");
    assert_eq!(v.unwrap(), "1a2b3c4d");

    let v = HexArray::<4>::try_parse_upper(b"1a2b3c4d");
    assert_eq!(v.unwrap_err(), HexArrayError::InvalidByte { msb: b'1', lsb: b'a', index: 0 });
}

#[test]
fn parse_boxed_variants() {
    let v = HexArray::<4>::try_parse_boxed(b"1A2B3c4d").unwrap();
    assert_eq!(v.as_array(), &[0x1a, 0x2b, 0x3c, 0x4d]);

    let v = HexArray::<4>::try_parse_lower_boxed(b"1a2b3c4d").unwrap();
    assert_eq!(v, "1a2b3c4d");
    let e = HexArray::<4>::try_parse_lower_boxed(b"1a2B3c4d").unwrap_err();
    assert_eq!(e, HexArrayError::InvalidByte { msb: b'2', lsb: b'B', index: 2 });

    let v = HexArray::<4>::try_parse_upper_boxed(b"1A2B3C4D").unwrap();
    assert_eq!(v, [0x1a, 0x2b, 0x3c, 0x4d]);
    let e = HexArray::<4>::try_parse_upper_boxed(b"1A2B3C4").unwrap_err();
    assert_eq!(e, HexArrayError::InvalidLength { expected: 8, encountered: 7 });
}

#[test]
fn new_boxed_keeps_bytes() {
    let v = HexArray::new_boxed(Box::new([0x1a, 0x2b, 0x3c, 0x4d]));
    assert_eq!(v, [0x1a, 0x2b, 0x3c, 0x4d]);
    assert_eq!(v, "1a2b3c4d");
}

#[test]
fn as_mut_array_changes_bytes() {
    let mut v = HexArray::new([0x1a, 0x2b]);
    let mut_array = v.as_mut_array();
    mut_array.iter_mut().for_each(|v| *v = 0);
    assert_eq!(v, "0000");
}

#[test]
fn as_hex_slice_sees_bytes() {
    let v = HexArray::new([0x1a, 0x2b]);
    assert_eq!(v.as_hex_slice(), "1a2b");
    assert_eq!(v.as_hex_slice().as_slice(), &[0x1a, 0x2b]);
}

#[test]
fn equality_with_other_buffers() {
    let a = HexArray::new([0x01, 0xde]);
    let b = HexArray::<2>::try_parse(b"01de").unwrap();
    assert_eq!(a, b);
    assert_eq!(a, HexVector::new(vec![0x01, 0xde]));
    assert_eq!(HexVector::new(vec![0x01, 0xde]), a);
    assert!(a != HexVector::new(vec![0x01]));
    assert!(a != HexArray::new([0x01, 0xdf]));
    assert!(a != [0x01, 0xdf]);
}

#[test]
fn text_comparison_by_policy() {
    let a = HexArray::new([0x01, 0xde]);
    assert!(a.eq_text(b"01DE", CasePolicy::Any));
    assert!(!a.eq_text(b"01DE", CasePolicy::Lower));
    assert!(a.eq_text(b"01DE", CasePolicy::Upper));
    assert!(a.eq_text(b"01de", CasePolicy::Lower));
    assert!(!a.eq_text(b"01de", CasePolicy::Upper));
    assert!(!a.eq_text(b"01d", CasePolicy::Any));
    assert!(!a.eq_text(b"01dex0", CasePolicy::Any));
}

#[test]
fn random_arrays_have_their_length() {
    let a: HexArray<16> = HexArray::random();
    let s = a.to_lower();
    assert_eq!(s.len(), 32);
    assert_eq!(HexArray::<16>::try_parse(s.as_bytes()).unwrap(), a);
}

#[test]
fn array_owned_parse_hands_the_text_back() {
    let a = HexArray::<2>::try_parse_owned(String::from("cafe")).unwrap();
    assert_eq!(a, [0xca, 0xfe]);

    let e = HexArray::<2>::try_parse_owned(String::from("caf")).unwrap_err();
    assert_eq!(e.kind(), HexArrayError::InvalidLength { expected: 4, encountered: 3 });
    assert_eq!(e.into_inner(), "caf");

    let e = HexArray::<2>::try_parse_owned(String::from("cafz")).unwrap_err();
    assert_eq!(e.kind(), HexArrayError::InvalidByte { msb: b'f', lsb: b'z', index: 2 });
    assert_eq!(e.inner(), "cafz");
}

#[test]
fn array_from_array() {
    let a: HexArray<2> = [0xca, 0xfe].into();
    assert_eq!(a, "CAFE");
}
