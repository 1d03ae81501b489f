//! Keys intended to be used in Schnorr signatures - in P2TR.

pub use crate::keys::XOnlyPublicKey;

use crate::curve;
use crate::keys::{KeyPair, SecretKey};
use crate::scalar::Scalar;
use vstd::prelude::*;

verus! {

/// Private key intended for Schnorr signatures.
///
/// This type wraps a raw secret key to prevent accidental use in ECDSA
/// signatures. It is mostly used to sign P2TR spends or derive P2TR
/// addresses.
#[derive(Debug, Copy, Clone, Eq, PartialEq, Hash)]
pub struct XOnlyPrivateKey {
    /// The wrapped raw secret key.
    pub key: SecretKey,
}

impl XOnlyPrivateKey {
    /// Creates the x-only private key from a generic private key.
    pub fn from_raw(key: SecretKey) -> (r: Self)
        ensures
            r.key == key,
    {
        XOnlyPrivateKey { key }
    }

    /// Computes the public key from this private key.
    pub fn compute_public_key(self) -> (r: XOnlyPublicKey)
        ensures
            r.x@ == curve::derived_point(self.key@).subrange(0, 32),
    {
        proof {
            use_type_invariant(&self.key);
        }
        let bytes = self.key.secret_bytes();
        let pk = curve::derive_public_key(&bytes);
        proof {
            assert((pk.x@ + pk.y@).subrange(0, 32) =~= pk.x@);
        }
        XOnlyPublicKey { x: pk.x }
    }

    /// Adds the tweak to this key modulo the curve order.
    ///
    /// # Errors
    ///
    /// Passes the curve library's error through when the result would not be
    /// a valid secret key.
    pub fn add_tweak(self, tweak: &Scalar) -> (r: Result<Self, secp256k1::Error>)
        ensures
            match r {
                Ok(k) => curve::added_tweak(self.key@, tweak@) == Some(k.key@),
                Err(_) => curve::added_tweak(self.key@, tweak@) is None,
            },
    {
        proof {
            use_type_invariant(&self.key);
            use_type_invariant(tweak);
        }
        let sk = self.key.secret_bytes();
        let t = tweak.to_be_bytes();
        match curve::secret_add_tweak(&sk, &t) {
            Ok(bytes) => Ok(XOnlyPrivateKey { key: SecretKey::from_bytes_in_range(bytes) }),
            Err(e) => Err(e),
        }
    }

    /// Multiplies this key by the tweak modulo the curve order.
    ///
    /// # Errors
    ///
    /// Passes the curve library's error through when the result would not be
    /// a valid secret key.
    pub fn mul_tweak(self, tweak: &Scalar) -> (r: Result<Self, secp256k1::Error>)
        ensures
            match r {
                Ok(k) => curve::mul_tweaked(self.key@, tweak@) == Some(k.key@),
                Err(_) => curve::mul_tweaked(self.key@, tweak@) is None,
            },
    {
        proof {
            use_type_invariant(&self.key);
            use_type_invariant(tweak);
        }
        let sk = self.key.secret_bytes();
        let t = tweak.to_be_bytes();
        match curve::secret_mul_tweak(&sk, &t) {
            Ok(bytes) => Ok(XOnlyPrivateKey { key: SecretKey::from_bytes_in_range(bytes) }),
            Err(e) => Err(e),
        }
    }
}

/// Key pair intended for Schnorr signatures.
///
/// This type wraps a raw key pair to prevent accidental use in ECDSA
/// signatures. It is mostly used to sign P2TR spends or derive P2TR
/// addresses.
#[derive(Debug, Copy, Clone, Eq, PartialEq, Hash)]
pub struct XOnlyKeyPair {
    /// The wrapped raw key pair.
    pub key: KeyPair,
}

impl XOnlyKeyPair {
    /// Creates the x-only key pair from a generic key pair.
    pub fn from_raw(key: KeyPair) -> (r: Self)
        ensures
            r.key == key,
    {
        XOnlyKeyPair { key }
    }

    /// Returns the public key.
    pub fn public_key(self) -> (r: XOnlyPublicKey)
        ensures
            r.x@ == curve::derived_point(self.key.spec_secret()@).subrange(0, 32),
    {
        proof {
            use_type_invariant(&self.key);
        }
        let pk = self.key.public_key();
        proof {
            assert((pk.x@ + pk.y@).subrange(0, 32) =~= pk.x@);
        }
        XOnlyPublicKey { x: pk.x }
    }

    /// Returns the private key.
    pub fn private_key(self) -> (r: XOnlyPrivateKey)
        ensures
            r.key == self.key.spec_secret(),
    {
        XOnlyPrivateKey::from_raw(self.key.secret_key())
    }

    /// Tweaks the pair by first converting the public key to an x-only key
    /// and tweaking it.
    ///
    /// # Errors
    ///
    /// Passes the curve library's error through when the result would be
    /// invalid.
    pub fn add_tweak(self, tweak: &Scalar) -> (r: Result<Self, secp256k1::Error>)
        ensures
            match r {
                Ok(k) => curve::xonly_added_tweak(self.key.spec_secret()@, tweak@) == Some(
                    k.key.spec_secret()@,
                ),
                Err(_) => curve::xonly_added_tweak(self.key.spec_secret()@, tweak@) is None,
            },
    {
        proof {
            use_type_invariant(&self.key);
            use_type_invariant(tweak);
        }
        let secret = self.key.secret_key();
        proof {
            use_type_invariant(&secret);
        }
        let sk = secret.secret_bytes();
        let t = tweak.to_be_bytes();
        match curve::keypair_add_xonly_tweak(&sk, &t) {
            Ok((bytes, public)) => {
                let secret = SecretKey::from_bytes_in_range(bytes);
                Ok(XOnlyKeyPair { key: KeyPair::from_parts(secret, public) })
            },
            Err(e) => Err(e),
        }
    }
}

} // verus!
