use darkforge::uuid::Uuid;

const BYTES: [u8; 16] = [0xf4, 0x7a, 0xc1, 0x0b, 0x58, 0xcc, 0x43, 0x72, 0xa5, 0x67, 0x0e, 0x02, 0xb2, 0xc3, 0xd4, 0x79];

#[test]
fn test_from_uuid() {
    let uuid = uuid::Uuid::parse_str("f47ac10b-58cc-4372-a567-0e02b2c3d479").expect("should have parsed uuid");
    let actual = Uuid::from_bytes(*uuid.as_bytes());
    assert_eq!(*uuid.as_bytes(), actual.as_bytes());
}

#[test]
fn uuid_zero_is_zero() {
    let zero = Uuid::zero();
    assert_eq!(0, u128::from_be_bytes(zero.as_bytes()));
}

#[test]
fn parses_every_text_form() {
    let expect = Uuid::from_bytes(BYTES);
    for text in [
        "f47ac10b-58cc-4372-a567-0e02b2c3d479",
        "F47AC10B-58CC-4372-A567-0E02B2C3D479",
        "f47ac10b58cc4372a5670e02b2c3d479",
        "F47AC10B58CC4372A5670E02B2C3D479",
    ] {
        assert_eq!(expect, Uuid::parse_str(text).expect("should have parsed uuid"));
    }
}

#[test]
fn rejects_malformed_text() {
    assert!(Uuid::parse_str("not a uuid").is_err());
    assert!(Uuid::parse_str("").is_err());
}

#[test]
fn from_u128_is_big_endian() {
    assert_eq!(BYTES, Uuid::from_u128(0xf47a_c10b_58cc_4372_a567_0e02_b2c3_d479_u128).as_bytes());
}

#[test]
fn new_is_random_v4() {
    for _ in 0..64 {
        let b = Uuid::new().as_bytes();
        assert_eq!(4, b[6] >> 4);
        assert_eq!(2, b[8] >> 6);
        assert_ne!(0, u128::from_be_bytes(b));
        let d = Uuid::default().as_bytes();
        assert_eq!(4, d[6] >> 4);
    }
    assert_ne!(Uuid::new(), Uuid::new());
}

#[test]
fn to_vec_holds_the_bytes() {
    assert_eq!(BYTES.to_vec(), Uuid::from_bytes(BYTES).to_vec());
}
