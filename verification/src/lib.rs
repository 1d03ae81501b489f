//! # Bitcoin keys
//!
//! Types and traits for managing Bitcoin keys.
//!
//! The Bitcoin protocol deals with multiple formats and contexts of keys.
//! There are legacy ECDSA keys that may or may not be compressed, X-only
//! (Taproot) keys, private keys, etc. To avoid mixing them, this library
//! provides multiple newtypes and additional infrastructure aiding with
//! conversions, parsing and serializing, together with machine-checked
//! contracts stating what each operation returns.
//!
//! Elliptic-curve arithmetic itself is delegated to the secp256k1 crate;
//! this library models keys as their byte encodings and states the curve
//! operations it relies on as named, trusted facts.

pub mod bip340;
pub mod curve;
pub mod ecdsa;
pub mod keys;
pub mod scalar;

pub use bip340::{XOnlyKeyPair, XOnlyPrivateKey, XOnlyPublicKey};
pub use scalar::OutOfRangeError;
pub use scalar::Scalar;

use vstd::prelude::*;

verus! {

/// Public key that may be serialized as uncompressed, used in legacy
/// addresses only.
///
/// You probably want to use this alias instead of explicitly writing out the
/// type.
pub type LegacyPublicKey = ecdsa::Legacy<keys::PublicKey>;

/// Public key that is always serialized as compressed.
///
/// You probably want to use this alias instead of explicitly writing out the
/// type.
pub type CompressedPublicKey = ecdsa::Compressed<keys::PublicKey>;

/// Private key that may be serialized as uncompressed, used in legacy
/// addresses only.
///
/// You probably want to use this alias instead of explicitly writing out the
/// type.
pub type LegacyPrivateKey = ecdsa::Legacy<keys::SecretKey>;

/// Private key that is always serialized as compressed.
///
/// You probably want to use this alias instead of explicitly writing out the
/// type.
pub type CompressedPrivateKey = ecdsa::Compressed<keys::SecretKey>;

/// Key pair that may be serialized as uncompressed, used in legacy addresses
/// only.
///
/// You probably want to use this alias instead of explicitly writing out the
/// type.
pub type LegacyKeyPair = ecdsa::Legacy<keys::KeyPair>;

/// Key pair that is always serialized as compressed.
///
/// You probably want to use this alias instead of explicitly writing out the
/// type.
pub type CompressedKeyPair = ecdsa::Compressed<keys::KeyPair>;

} // verus!
