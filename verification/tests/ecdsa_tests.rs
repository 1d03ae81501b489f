//! Tests for the format-tagged key wrappers and the serialized key buffer.

use std::convert::TryFrom;

use bitcoin_keys::ecdsa::{Compressed, KeyFormat, Legacy};
use bitcoin_keys::keys::{KeyPair, PublicKey, SecretKey};
use bitcoin_keys::{CompressedPublicKey, LegacyKeyPair, LegacyPublicKey};

fn hex32(s: &str) -> [u8; 32] {
    assert_eq!(s.len(), 64);
    let mut out = [0u8; 32];
    for i in 0..32 {
        out[i] = u8::from_str_radix(&s[2 * i..2 * i + 2], 16).unwrap();
    }
    out
}

/// X coordinate of the secp256k1 generator point.
const GX: &str = "79be667ef9dcbbac55a06295ce870b07029bfcdb2dce28d959f2815b16f81798";

/// Y coordinate of the secp256k1 generator point (even).
const GY: &str = "483ada7726a3c4655da4fbfc0e1108a8fd17b448a68554199c47d08ffb10d4b8";

fn generator() -> PublicKey {
    PublicKey { x: hex32(GX), y: hex32(GY) }
}

fn even_key() -> PublicKey {
    PublicKey { x: [0xAB; 32], y: [0x02; 32] }
}

fn odd_key() -> PublicKey {
    PublicKey { x: [0xAB; 32], y: [0x03; 32] }
}

#[test]
fn key_format_predicates() {
    assert!(KeyFormat::Compressed.is_compressed());
    assert!(!KeyFormat::Compressed.is_uncompressed());
    assert!(KeyFormat::Uncompressed.is_uncompressed());
    assert!(!KeyFormat::Uncompressed.is_compressed());
    assert_eq!(KeyFormat::Compressed.not(), KeyFormat::Uncompressed);
    assert_eq!(KeyFormat::Uncompressed.not(), KeyFormat::Compressed);
}

#[test]
fn legacy_accessors() {
    let l = Legacy::from_raw(even_key(), KeyFormat::Uncompressed);
    assert_eq!(l.format(), KeyFormat::Uncompressed);
    assert_eq!(l.raw_key(), even_key());
}

#[test]
fn force_set_format_changes_only_format() {
    let mut l = Legacy::from_raw(even_key(), KeyFormat::Uncompressed);
    l.force_set_format(KeyFormat::Compressed);
    assert_eq!(l.format(), KeyFormat::Compressed);
    assert_eq!(l.raw_key(), even_key());
}

#[test]
fn force_to_compressed_ignores_format() {
    let l = Legacy::from_raw(even_key(), KeyFormat::Uncompressed);
    let c = l.force_to_compressed();
    assert_eq!(c.raw_key(), even_key());
}

#[test]
fn eq_key_ignores_format_while_eq_does_not() {
    let a = Legacy::from_raw(even_key(), KeyFormat::Compressed);
    let b = Legacy::from_raw(even_key(), KeyFormat::Uncompressed);
    assert!(a != b);
    assert!(a.eq_key(b));
    let c = Legacy::from_raw(even_key(), KeyFormat::Compressed);
    assert!(a == c);
    assert!(a.eq_key(c));
    let d = Legacy::from_raw(odd_key(), KeyFormat::Compressed);
    assert!(a != d);
    assert!(!a.eq_key(d));
}

#[test]
fn serialize_uncompressed_shape() {
    let l = Legacy::from_raw(even_key(), KeyFormat::Uncompressed);
    let s = l.serialize_public_key();
    assert_eq!(s.len(), 65);
    assert_eq!(s.get(0), Some(0x04));
    let bytes = s.to_vec();
    assert_eq!(bytes.len(), 65);
    assert_eq!(bytes[0], 0x04);
    assert_eq!(&bytes[1..33], &[0xAB; 32]);
    assert_eq!(&bytes[33..65], &[0x02; 32]);
}

#[test]
fn serialize_compressed_shape() {
    let even = Legacy::from_raw(even_key(), KeyFormat::Compressed).serialize_public_key();
    assert_eq!(even.len(), 33);
    assert_eq!(even.get(0), Some(0x02));
    let odd = Legacy::from_raw(odd_key(), KeyFormat::Compressed).serialize_public_key();
    assert_eq!(odd.len(), 33);
    assert_eq!(odd.get(0), Some(0x03));
    assert_eq!(&odd.to_vec()[1..33], &[0xAB; 32]);
}

#[test]
fn serialized_key_equality_is_on_logical_bytes() {
    let a = Legacy::from_raw(even_key(), KeyFormat::Compressed).serialize_public_key();
    let b = Legacy::from_raw(even_key(), KeyFormat::Compressed).serialize_public_key();
    let u = Legacy::from_raw(even_key(), KeyFormat::Uncompressed).serialize_public_key();
    assert!(a == b);
    assert!(a != u);
    assert_eq!(a.as_slice(), b.as_slice());
}

#[test]
fn compressed_serialize_returns_fixed_array() {
    let arr = Compressed::from_raw(even_key()).serialize_public_key();
    assert_eq!(arr.len(), 33);
    assert_eq!(arr[0], 0x02);
    assert_eq!(&arr[1..], &[0xAB; 32]);
}

#[test]
fn compressed_into_legacy_is_tagged_compressed() {
    let c = Compressed::from_raw(even_key());
    let l: Legacy<PublicKey> = c.into();
    assert_eq!(l.format(), KeyFormat::Compressed);
    assert_eq!(l.raw_key(), even_key());
}

#[test]
fn try_from_legacy_succeeds_iff_compressed() {
    let l = Legacy::from_raw(even_key(), KeyFormat::Compressed);
    let c = Compressed::try_from(l).unwrap();
    assert_eq!(c.raw_key(), even_key());
    let u = Legacy::from_raw(even_key(), KeyFormat::Uncompressed);
    assert!(Compressed::try_from(u).is_err());
}

#[test]
fn key_pair_projections_keep_format() {
    let mut one = [0u8; 32];
    one[31] = 1;
    let sk = SecretKey::from_bytes(one).unwrap();
    let pair = KeyPair::from_secret(sk);
    let l: LegacyKeyPair = Legacy::from_raw(pair, KeyFormat::Uncompressed);
    let lp: LegacyPublicKey = l.into();
    assert_eq!(lp.format(), KeyFormat::Uncompressed);
    assert_eq!(lp.raw_key(), generator());
    let l2: LegacyKeyPair = Legacy::from_raw(pair, KeyFormat::Uncompressed);
    let ls: Legacy<SecretKey> = l2.into();
    assert_eq!(ls.format(), KeyFormat::Uncompressed);
    assert_eq!(ls.raw_key().secret_bytes(), one);
    let cp: CompressedPublicKey = Compressed::from_raw(pair).into();
    assert_eq!(cp.raw_key(), generator());
    let cs: Compressed<SecretKey> = Compressed::from_raw(pair).into();
    assert_eq!(cs.raw_key().secret_bytes(), one);
}

#[test]
fn compute_public_key_of_one_is_the_generator() {
    let mut one = [0u8; 32];
    one[31] = 1;
    let sk = SecretKey::from_bytes(one).unwrap();
    let l = Legacy::from_raw(sk, KeyFormat::Uncompressed);
    let lp = l.compute_public_key();
    assert_eq!(lp.format(), KeyFormat::Uncompressed);
    assert_eq!(lp.raw_key(), generator());
    let c = Compressed::from_raw(sk);
    let cp = c.compute_public_key();
    assert_eq!(cp.raw_key(), generator());
}

#[test]
fn key_pair_compute_public_key_uses_cached_half() {
    let mut one = [0u8; 32];
    one[31] = 1;
    let sk = SecretKey::from_bytes(one).unwrap();
    let pair = KeyPair::from_secret(sk);
    let l = Legacy::from_raw(pair, KeyFormat::Compressed);
    let lp = l.compute_public_key();
    assert_eq!(lp.format(), KeyFormat::Compressed);
    assert_eq!(lp.raw_key(), generator());
}

#[test]
fn generator_end_to_end_encodings() {
    let pk = generator();
    // the generator's Y is even, so the compressed form starts with 0x02
    let compressed = Compressed::from_raw(pk).serialize_public_key();
    assert_eq!(compressed[0], 0x02);
    assert_eq!(&compressed[1..], &hex32(GX));
    // the uncompressed form is 0x04 followed by X and Y
    let uncompressed = Legacy::from_raw(pk, KeyFormat::Uncompressed).serialize_public_key();
    let bytes = uncompressed.to_vec();
    assert_eq!(bytes.len(), 65);
    assert_eq!(bytes[0], 0x04);
    assert_eq!(&bytes[1..33], &hex32(GX));
    assert_eq!(&bytes[33..65], &hex32(GY));
    // it agrees byte for byte with what the curve library serializes
    let secp_pk = secp256k1::PublicKey::from_slice(&bytes).unwrap();
    assert_eq!(secp_pk.serialize().as_slice(), compressed.as_slice());
    assert_eq!(secp_pk.serialize_uncompressed().as_slice(), bytes.as_slice());
}

#[test]
fn iterator_yields_logical_bytes_in_order() {
    let s = Legacy::from_raw(even_key(), KeyFormat::Compressed).serialize_public_key();
    let mut it = s.into_iter();
    let mut collected = Vec::new();
    while let Some(b) = it.next() {
        collected.push(b);
    }
    assert_eq!(collected.len(), 33);
    assert_eq!(collected, s.to_vec());
    // once exhausted, the iterator stays exhausted
    assert_eq!(it.next(), None);
    assert_eq!(it.next(), None);
    assert_eq!(it.size_hint(), (0, Some(0)));
}

#[test]
fn iterator_count_and_size_hint() {
    let s = Legacy::from_raw(even_key(), KeyFormat::Uncompressed).serialize_public_key();
    let it = s.iter();
    assert_eq!(it.size_hint(), (65, Some(65)));
    assert_eq!(it.count(), 65);
    let mut it2 = s.iter();
    it2.next();
    it2.next();
    assert_eq!(it2.size_hint(), (63, Some(63)));
    assert_eq!(it2.count(), 63);
}

#[test]
fn iterator_nth_skips_in_constant_time() {
    let s = Legacy::from_raw(even_key(), KeyFormat::Compressed).serialize_public_key();
    let mut it = s.iter();
    assert_eq!(it.nth(0), Some(0x02));
    assert_eq!(it.nth(1), Some(0xAB)); // positions 1 skipped, yields position 2
    assert_eq!(it.nth(29), Some(0xAB)); // yields position 32, the last one
    assert_eq!(it.nth(0), None);
    // out-of-range skips report exhaustion and stay exhausted
    let mut it2 = s.iter();
    assert_eq!(it2.nth(33), None);
    assert_eq!(it2.nth(usize::MAX), None);
    assert_eq!(it2.next(), Some(0x02));
}

#[test]
fn iterator_last_is_constant_time() {
    let s = Legacy::from_raw(even_key(), KeyFormat::Uncompressed).serialize_public_key();
    assert_eq!(s.iter().last(), Some(0x02));
    let mut it = s.iter();
    for _ in 0..65 {
        it.next();
    }
    assert_eq!(it.last(), None);
}

#[test]
fn iterator_as_slice_tracks_position() {
    let s = Legacy::from_raw(even_key(), KeyFormat::Compressed).serialize_public_key();
    let mut it = s.iter();
    assert_eq!(it.as_slice(), s.as_slice());
    it.next();
    assert_eq!(it.as_slice(), &s.as_slice()[1..]);
}

#[test]
fn ordering_is_on_logical_bytes() {
    let compressed = Legacy::from_raw(even_key(), KeyFormat::Compressed).serialize_public_key();
    let uncompressed =
        Legacy::from_raw(even_key(), KeyFormat::Uncompressed).serialize_public_key();
    // 0x02 sorts before 0x04, whatever the trailing bytes hold
    assert!(compressed < uncompressed);
    let same = Legacy::from_raw(even_key(), KeyFormat::Compressed).serialize_public_key();
    assert_eq!(compressed.partial_cmp(&same), Some(std::cmp::Ordering::Equal));
    let odd = Legacy::from_raw(odd_key(), KeyFormat::Compressed).serialize_public_key();
    assert!(compressed < odd);
}
