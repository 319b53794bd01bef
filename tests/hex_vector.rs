use hex_str::{CasePolicy, HexVector, HexVectorError};
use rand::seq::SliceRandom;

#[test]
fn hex_vector_big_hex() {
    let mut rng = rand::thread_rng();
    let v = (0..262_146).fold(String::new(), |mut acc, _| {
        let v = *b"0123456789abcdefABCDEF".choose(&mut rng).unwrap();
        acc.push(v.into());
        acc
    });

    // 128 * 1024 + 1
    let parsed = HexVector::try_parse(v.as_bytes()).unwrap();
    assert_eq!(parsed.to_lower(), v.to_lowercase());
    assert_eq!(parsed.len(), 131_073);
}

#[test]
fn vector_new_and_format() {
    let v = HexVector::new(vec![0x1a, 0x2b, 0x3c, 0x4d]);
    assert_eq!(v, [0x1a, 0x2b, 0x3c, 0x4d]);
    assert_eq!(v, "1a2b3c4d");
    assert_eq!(v.to_lower(), "1a2b3c4d");
    assert_eq!(v.to_upper(), "1A2B3C4D");
    assert_eq!(v.as_slice(), &[0x1a, 0x2b, 0x3c, 0x4d]);
}

#[test]
fn parse_by_policy() {
    let v = HexVector::try_parse(b"1A2B3c4d").unwrap();
    assert_eq!(v, "1a2b3c4d");

    let v = HexVector::try_parse_lower(b"1a2b3c4d");
    assert_eq!(v.unwrap(), "1a2b3c4d");
    let v = HexVector::try_parse_lower(b"1A2B3C4D");
    assert_eq!(v.unwrap_err(), HexVectorError::InvalidByte { msb: b'1', lsb: b'A', index: 0 });

    let v = HexVector::try_parse_upper(b"1A2B3C4D");
    assert_eq!(v.unwrap(), "1a2b3c4d");
    let v = HexVector::try_parse_upper(b"1a2b3c4d");
    assert_eq!(v.unwrap_err(), HexVectorError::InvalidByte { msb: b'1', lsb: b'a', index: 0 });

    let v = HexVector::try_parse_with(b"00fF", CasePolicy::Any).unwrap();
    assert_eq!(v, [0x00, 0xff]);
}

#[test]
fn parse_reports_the_failing_pair() {
    let e = HexVector::try_parse(b"001g22").unwrap_err();
    assert_eq!(e, HexVectorError::InvalidByte { msb: b'1', lsb: b'g', index: 2 });
    let e = HexVector::try_parse(b"00 1").unwrap_err();
    assert_eq!(e, HexVectorError::InvalidByte { msb: b' ', lsb: b'1', index: 2 });
    let e = HexVector::try_parse(b"0x12").unwrap_err();
    assert_eq!(e, HexVectorError::InvalidByte { msb: b'0', lsb: b'x', index: 0 });
}

#[test]
fn mutation_changes_text_by_two_per_byte() {
    let mut v = HexVector::new(vec![0x1a, 0x2b]);
    v.as_mut_vec().push(0x3c);
    assert_eq!(v, "1a2b3c");

    v.push(0x4d);
    assert_eq!(v.to_lower().len(), 8);
    assert_eq!(v, "1a2b3c4d");

    assert_eq!(v.pop(), Some(0x4d));
    assert_eq!(v.pop(), Some(0x3c));
    assert_eq!(v.to_lower(), "1a2b");

    let mut e = HexVector::new(vec![]);
    assert_eq!(e.pop(), None);
    assert_eq!(e.len(), 0);
}

#[test]
fn equality() {
    let a = HexVector::new(vec![0x01, 0xde]);
    assert_eq!(a, HexVector::try_parse(b"01DE").unwrap());
    assert_eq!(a, [0x01_u8, 0xde].as_slice());
    assert!(a != HexVector::new(vec![0x01, 0xde, 0x00]));
    assert!(a != "01df");
    assert!(a.eq_text(b"01DE", CasePolicy::Any));
    assert!(!a.eq_text(b"01DE", CasePolicy::Lower));
    assert_eq!(a.as_hex_slice(), "01de");
}

#[test]
fn owned_parse_hands_the_text_back() {
    let v = HexVector::try_parse_owned(String::from("01DE")).unwrap();
    assert_eq!(v, [0x01, 0xde]);

    let e = HexVector::try_parse_owned(String::from("01DEx")).unwrap_err();
    assert_eq!(e.kind(), HexVectorError::InvalidLength { encountered: 5 });
    assert_eq!(e.into_inner(), "01DEx");

    let e = HexVector::try_parse_owned(String::from("01gE")).unwrap_err();
    assert_eq!(e.kind(), HexVectorError::InvalidByte { msb: b'g', lsb: b'E', index: 2 });
    assert_eq!(e.inner(), "01gE");
}

#[test]
fn vector_from_vec() {
    let v: HexVector = vec![0xca, 0xfe].into();
    assert_eq!(v, "cafe");
}
