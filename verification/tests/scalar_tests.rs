//! Tests for the range-validated scalar type.

use bitcoin_keys::keys::SecretKey;
use bitcoin_keys::scalar::MAX_RAW;
use bitcoin_keys::Scalar;

fn hex32(s: &str) -> [u8; 32] {
    assert_eq!(s.len(), 64);
    let mut out = [0u8; 32];
    for i in 0..32 {
        out[i] = u8::from_str_radix(&s[2 * i..2 * i + 2], 16).unwrap();
    }
    out
}

fn reversed(a: [u8; 32]) -> [u8; 32] {
    let mut r = [0u8; 32];
    for i in 0..32 {
        r[i] = a[31 - i];
    }
    r
}

#[test]
fn be_round_trip_small_values() {
    for v in [0u8, 1, 2, 7, 255] {
        let mut bytes = [0u8; 32];
        bytes[31] = v;
        let s = Scalar::from_be_bytes(bytes).unwrap();
        assert_eq!(s.to_be_bytes(), bytes);
    }
}

#[test]
fn be_round_trip_spread_value() {
    let bytes = hex32("0102030405060708090a0b0c0d0e0f101112131415161718191a1b1c1d1e1f20");
    let s = Scalar::from_be_bytes(bytes).unwrap();
    assert_eq!(s.to_be_bytes(), bytes);
}

#[test]
fn max_raw_is_accepted() {
    let s = Scalar::from_be_bytes(MAX_RAW).unwrap();
    assert_eq!(s.to_be_bytes(), MAX_RAW);
}

#[test]
fn above_max_raw_is_rejected() {
    // the curve order itself: MAX_RAW plus one
    let order = hex32("fffffffffffffffffffffffffffffffebaaedce6af48a03bbfd25e8cd0364141");
    assert!(matches!(Scalar::from_be_bytes(order), Err(_)));
    // all ones is far above the order
    assert!(matches!(Scalar::from_be_bytes([0xFF; 32]), Err(_)));
}

#[test]
fn le_bytes_are_reversed_be_bytes() {
    let bytes = hex32("0102030405060708090a0b0c0d0e0f101112131415161718191a1b1c1d1e1f20");
    let s = Scalar::from_be_bytes(bytes).unwrap();
    assert_eq!(s.to_le_bytes(), reversed(bytes));
}

#[test]
fn le_round_trip() {
    let bytes = hex32("20cafe0405060708090a0b0c0d0e0f101112131415161718191a1b1c1d1e1f01");
    let s = Scalar::from_be_bytes(bytes).unwrap();
    let back = match Scalar::from_le_bytes(s.to_le_bytes()) {
        Ok(b) => b,
        Err(_) => panic!("round trip must parse"),
    };
    assert!(back == s);
    assert_eq!(back.to_be_bytes(), bytes);
}

#[test]
fn from_le_bytes_checks_reversed_value() {
    // little-endian encoding of the curve order: rejected
    let order_le = reversed(hex32(
        "fffffffffffffffffffffffffffffffebaaedce6af48a03bbfd25e8cd0364141",
    ));
    assert!(matches!(Scalar::from_le_bytes(order_le), Err(_)));
    // little-endian encoding of one: accepted
    let mut one_le = [0u8; 32];
    one_le[0] = 1;
    let s = match Scalar::from_le_bytes(one_le) {
        Ok(v) => v,
        Err(_) => panic!("one must parse"),
    };
    assert!(s == Scalar::one());
}

#[test]
fn named_scalars_have_expected_bytes() {
    assert_eq!(Scalar::zero().to_be_bytes(), [0u8; 32]);
    let mut one = [0u8; 32];
    one[31] = 1;
    assert_eq!(Scalar::one().to_be_bytes(), one);
    assert_eq!(Scalar::max_value().to_be_bytes(), MAX_RAW);
}

#[test]
fn ordering_is_numeric() {
    assert!(Scalar::zero() < Scalar::one());
    assert!(Scalar::one() < Scalar::max_value());
}

#[test]
fn scalar_from_secret_key_keeps_bytes() {
    let mut bytes = [0u8; 32];
    bytes[31] = 42;
    let sk = SecretKey::from_bytes(bytes).unwrap();
    let s = Scalar::from(sk);
    assert_eq!(s.to_be_bytes(), bytes);
}

#[test]
fn secret_key_rejects_zero_and_large_values() {
    assert!(SecretKey::from_bytes([0u8; 32]).is_none());
    assert!(SecretKey::from_bytes([0xFF; 32]).is_none());
    let order = hex32("fffffffffffffffffffffffffffffffebaaedce6af48a03bbfd25e8cd0364141");
    assert!(SecretKey::from_bytes(order).is_none());
    assert!(SecretKey::from_bytes(MAX_RAW).is_some());
    let mut one = [0u8; 32];
    one[31] = 1;
    let sk = SecretKey::from_bytes(one).unwrap();
    assert_eq!(sk.secret_bytes(), one);
}
