//! Tests for the x-only (Taproot) key wrappers and tweak operations.

use bitcoin_keys::keys::{KeyPair, SecretKey};
use bitcoin_keys::scalar::MAX_RAW;
use bitcoin_keys::{Scalar, XOnlyKeyPair, XOnlyPrivateKey};

fn hex32(s: &str) -> [u8; 32] {
    assert_eq!(s.len(), 64);
    let mut out = [0u8; 32];
    for i in 0..32 {
        out[i] = u8::from_str_radix(&s[2 * i..2 * i + 2], 16).unwrap();
    }
    out
}

/// X coordinate of the secp256k1 generator point.
const GX: &str = "79be667ef9dcbbac55a06295ce870b07029bfcdb2dce28d959f2815b16f81798";

/// X coordinate of twice the generator point.
const G2X: &str = "c6047f9441ed7d6d3045406e95c07cd85c778e4b8cef3ca7abac09b95c709ee5";

fn small_secret(v: u8) -> SecretKey {
    let mut bytes = [0u8; 32];
    bytes[31] = v;
    SecretKey::from_bytes(bytes).unwrap()
}

fn small_scalar(v: u8) -> Scalar {
    let mut bytes = [0u8; 32];
    bytes[31] = v;
    Scalar::from_be_bytes(bytes).unwrap()
}

#[test]
fn xonly_private_key_round_trip() {
    let sk = small_secret(42);
    let x = XOnlyPrivateKey::from_raw(sk);
    assert_eq!(x.key, sk);
}

#[test]
fn xonly_compute_public_key_of_one() {
    let x = XOnlyPrivateKey::from_raw(small_secret(1));
    let pk = x.compute_public_key();
    assert_eq!(pk.serialize(), hex32(GX));
}

#[test]
fn xonly_add_tweak_adds_modulo_order() {
    let x = XOnlyPrivateKey::from_raw(small_secret(1));
    let tweaked = x.add_tweak(&small_scalar(1)).unwrap();
    assert_eq!(tweaked.key, small_secret(2));
}

#[test]
fn xonly_add_tweak_rejects_wraparound_to_zero() {
    // 1 + (order - 1) is the order, which is zero modulo the order
    let x = XOnlyPrivateKey::from_raw(small_secret(1));
    let max = Scalar::from_be_bytes(MAX_RAW).unwrap();
    assert_eq!(x.add_tweak(&max), Err(secp256k1::Error::InvalidTweak));
}

#[test]
fn xonly_mul_tweak_multiplies_modulo_order() {
    let x = XOnlyPrivateKey::from_raw(small_secret(2));
    let tweaked = x.mul_tweak(&small_scalar(3)).unwrap();
    assert_eq!(tweaked.key, small_secret(6));
}

#[test]
fn xonly_mul_tweak_rejects_zero_result() {
    let x = XOnlyPrivateKey::from_raw(small_secret(2));
    assert_eq!(x.mul_tweak(&Scalar::zero()), Err(secp256k1::Error::InvalidTweak));
}

#[test]
fn xonly_key_pair_projections() {
    let sk = small_secret(1);
    let pair = XOnlyKeyPair::from_raw(KeyPair::from_secret(sk));
    assert_eq!(pair.public_key().serialize(), hex32(GX));
    assert_eq!(pair.private_key().key, sk);
}

#[test]
fn xonly_key_pair_add_tweak() {
    // the generator has an even Y, so the x-only tweak adds plainly: 1 + 1 = 2
    let pair = XOnlyKeyPair::from_raw(KeyPair::from_secret(small_secret(1)));
    let tweaked = pair.add_tweak(&small_scalar(1)).unwrap();
    assert_eq!(tweaked.private_key().key, small_secret(2));
    assert_eq!(tweaked.public_key().serialize(), hex32(G2X));
}

#[test]
fn xonly_key_pair_add_tweak_rejects_invalid() {
    let pair = XOnlyKeyPair::from_raw(KeyPair::from_secret(small_secret(1)));
    let max = Scalar::from_be_bytes(MAX_RAW).unwrap();
    assert_eq!(pair.add_tweak(&max), Err(secp256k1::Error::InvalidTweak));
}

#[test]
fn tweak_agrees_with_the_curve_library() {
    // the same tweak applied through the curve library directly
    let x = XOnlyPrivateKey::from_raw(small_secret(7));
    let tweaked = x.add_tweak(&small_scalar(5)).unwrap();
    let direct = secp256k1::SecretKey::from_slice(&small_secret(7).secret_bytes())
        .unwrap()
        .add_tweak(&secp256k1::Scalar::from_be_bytes(small_scalar(5).to_be_bytes()).unwrap())
        .unwrap();
    assert_eq!(tweaked.key.secret_bytes(), direct.secret_bytes());
}
