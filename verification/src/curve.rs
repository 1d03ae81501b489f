//! The curve-arithmetic operations this library relies on.
//!
//! Everything that needs actual elliptic-curve math is delegated to the
//! secp256k1 crate through the wrappers in this module. Each wrapper's
//! contract names what the call returns; the names (`derived_point` and the
//! tweak results) stand for values that are functions of the input bytes
//! alone, computed by the curve library.

use crate::keys::{secret_in_range, PublicKey};
use crate::scalar::scalar_in_range;
use vstd::prelude::*;

verus! {

/// Declares secp256k1::Error, the curve library's error type; the tweak
/// operations pass it through to their callers verbatim.
#[verifier::external_type_specification]
#[verifier::external_body]
pub struct ExError(secp256k1::Error);

/// The uncompressed coordinates of the public point belonging to a secret
/// key: X then Y, 64 bytes in all, as the curve library derives them.
pub uninterp spec fn derived_point(sk: Seq<u8>) -> Seq<u8>;

/// The secret key that adding a tweak to a secret key yields, modulo the
/// curve order, or nothing when the sum is not a valid secret key.
pub uninterp spec fn added_tweak(sk: Seq<u8>, tweak: Seq<u8>) -> Option<Seq<u8>>;

/// The secret key that multiplying a secret key by a tweak yields, modulo
/// the curve order, or nothing when the product is not a valid secret key.
pub uninterp spec fn mul_tweaked(sk: Seq<u8>, tweak: Seq<u8>) -> Option<Seq<u8>>;

/// The secret key of the pair that x-only tweaking a key pair yields, or
/// nothing when the result would be invalid.
pub uninterp spec fn xonly_added_tweak(sk: Seq<u8>, tweak: Seq<u8>) -> Option<Seq<u8>>;

/// Relies on secp256k1::PublicKey::from_secret_key, the multiplication of
/// the base point by a valid secret key, and on serialize_uncompressed,
/// which returns 65 bytes: 0x04, then X and Y as 32 big-endian bytes each.
#[verifier::external_body]
pub(crate) fn derive_public_key(sk: &[u8; 32]) -> (r: PublicKey)
    requires
        secret_in_range(sk@),
    ensures
        r.x@ + r.y@ == derived_point(sk@),
{
    let ctx = secp256k1::Secp256k1::new();
    let secret = secp256k1::SecretKey::from_slice(sk).expect("the bytes are in range");
    let ser = secp256k1::PublicKey::from_secret_key(&ctx, &secret).serialize_uncompressed();
    let mut x = [0u8; 32];
    let mut y = [0u8; 32];
    x.copy_from_slice(&ser[1..33]);
    y.copy_from_slice(&ser[33..65]);
    PublicKey { x, y }
}

/// Relies on secp256k1::SecretKey::add_tweak: adds the tweak to the key
/// modulo the curve order and errors exactly when the result would not be a
/// valid secret key.
#[verifier::external_body]
pub(crate) fn secret_add_tweak(sk: &[u8; 32], tweak: &[u8; 32]) -> (r: Result<
    [u8; 32],
    secp256k1::Error,
>)
    requires
        secret_in_range(sk@),
        scalar_in_range(tweak@),
    ensures
        match r {
            Ok(out) => added_tweak(sk@, tweak@) == Some(out@) && secret_in_range(out@),
            Err(_) => added_tweak(sk@, tweak@) is None,
        },
{
    let secret = secp256k1::SecretKey::from_slice(sk).expect("the bytes are in range");
    let t = secp256k1::Scalar::from_be_bytes(*tweak).expect("the bytes are in range");
    match secret.add_tweak(&t) {
        Ok(out) => Ok(out.secret_bytes()),
        Err(e) => Err(e),
    }
}

/// Relies on secp256k1::SecretKey::mul_tweak: multiplies the key by the
/// tweak modulo the curve order and errors exactly when the result would not
/// be a valid secret key.
#[verifier::external_body]
pub(crate) fn secret_mul_tweak(sk: &[u8; 32], tweak: &[u8; 32]) -> (r: Result<
    [u8; 32],
    secp256k1::Error,
>)
    requires
        secret_in_range(sk@),
        scalar_in_range(tweak@),
    ensures
        match r {
            Ok(out) => mul_tweaked(sk@, tweak@) == Some(out@) && secret_in_range(out@),
            Err(_) => mul_tweaked(sk@, tweak@) is None,
        },
{
    let secret = secp256k1::SecretKey::from_slice(sk).expect("the bytes are in range");
    let t = secp256k1::Scalar::from_be_bytes(*tweak).expect("the bytes are in range");
    match secret.mul_tweak(&t) {
        Ok(out) => Ok(out.secret_bytes()),
        Err(e) => Err(e),
    }
}

/// Relies on secp256k1::KeyPair::add_xonly_tweak, which converts the pair's
/// public key to x-only form, applies the tweak, and errors exactly when the
/// result would be invalid; the pair it returns holds the tweaked secret key
/// and the public key belonging to it.
#[verifier::external_body]
pub(crate) fn keypair_add_xonly_tweak(sk: &[u8; 32], tweak: &[u8; 32]) -> (r: Result<
    ([u8; 32], PublicKey),
    secp256k1::Error,
>)
    requires
        secret_in_range(sk@),
        scalar_in_range(tweak@),
    ensures
        match r {
            Ok((out, pk)) => xonly_added_tweak(sk@, tweak@) == Some(out@) && secret_in_range(out@)
                && pk.x@ + pk.y@ == derived_point(out@),
            Err(_) => xonly_added_tweak(sk@, tweak@) is None,
        },
{
    let ctx = secp256k1::Secp256k1::new();
    let pair = secp256k1::KeyPair::from_seckey_slice(&ctx, sk).expect("the bytes are in range");
    let t = secp256k1::Scalar::from_be_bytes(*tweak).expect("the bytes are in range");
    match pair.add_xonly_tweak(&ctx, &t) {
        Ok(tweaked) => {
            let ser = tweaked.public_key().serialize_uncompressed();
            let mut x = [0u8; 32];
            let mut y = [0u8; 32];
            x.copy_from_slice(&ser[1..33]);
            y.copy_from_slice(&ser[33..65]);
            Ok((tweaked.secret_bytes(), PublicKey { x, y }))
        },
        Err(e) => Err(e),
    }
}

} // verus!
