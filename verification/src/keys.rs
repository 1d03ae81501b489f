//! Byte-level model of raw secp256k1 key material.
//!
//! The curve library works with opaque key objects; this module models the
//! data those objects carry as plain byte values: a public key as its two
//! coordinates, a secret key as its 32 big-endian bytes, a key pair as a
//! secret key together with the public key it derives. Curve arithmetic
//! itself stays with the curve library (see the `curve` module); everything
//! stated here about the bytes is machine-checked.

use crate::curve;
use crate::scalar::{be_val, scalar_in_range};
use vstd::prelude::*;

verus! {

/// A byte sequence holds a valid secret key when it is a valid scalar other
/// than zero: secret keys live in `[1, curve_order - 1]`.
pub open spec fn secret_in_range(s: Seq<u8>) -> bool {
    scalar_in_range(s) && be_val(s) > 0
}

/// A raw public key: the affine coordinates of a point on the secp256k1
/// curve, each as 32 big-endian bytes.
///
/// Whether the coordinates actually name a point on the curve is the curve
/// library's concern; this type only carries the bytes.
#[derive(Debug, Clone, Copy, PartialEq, Eq, Hash)]
pub struct PublicKey {
    /// X coordinate, 32 big-endian bytes.
    pub x: [u8; 32],
    /// Y coordinate, 32 big-endian bytes.
    pub y: [u8; 32],
}

impl PublicKey {
    /// Whether two keys hold the same coordinates.
    pub fn point_eq(&self, other: &Self) -> (r: bool)
        ensures
            r == (*self == *other),
    {
        bytes32_eq(&self.x, &other.x) && bytes32_eq(&self.y, &other.y)
    }
}

/// A raw secret key: 32 big-endian bytes in `[1, curve_order - 1]`.
#[derive(Debug, Clone, Copy, PartialEq, Eq, Hash)]
pub struct SecretKey {
    bytes: [u8; 32],
}

impl View for SecretKey {
    type V = Seq<u8>;

    closed spec fn view(&self) -> Seq<u8> {
        self.bytes@
    }
}

impl SecretKey {
    /// Every secret key that can be constructed is in range; exec code may
    /// assume this of any secret key value through `use_type_invariant`.
    #[verifier::type_invariant]
    pub open spec fn wf(self) -> bool {
        secret_in_range(self@)
    }

    /// Validates 32 big-endian bytes as a secret key: accepts exactly the
    /// nonzero values below the curve order.
    pub fn from_bytes(bytes: [u8; 32]) -> (r: Option<SecretKey>)
        ensures
            secret_in_range(bytes@) ==> (r matches Some(k) && k@ == bytes@),
            !secret_in_range(bytes@) ==> r is None,
    {
        match crate::scalar::Scalar::from_be_bytes(bytes) {
            Ok(_) => {
                if bytes32_nonzero(&bytes) {
                    Some(SecretKey { bytes })
                } else {
                    None
                }
            },
            Err(_) => None,
        }
    }

    /// Wraps bytes already known to be in range.
    pub(crate) fn from_bytes_in_range(bytes: [u8; 32]) -> (r: SecretKey)
        requires
            secret_in_range(bytes@),
        ensures
            r@ == bytes@,
    {
        SecretKey { bytes }
    }

    /// The backing array.
    pub closed spec fn spec_bytes(&self) -> [u8; 32] {
        self.bytes
    }

    /// Returns the secret key as a byte value.
    pub fn secret_bytes(&self) -> (r: [u8; 32])
        ensures
            r@ == self@,
            r == self.spec_bytes(),
    {
        self.bytes
    }

    /// Whether two keys hold the same bytes.
    ///
    /// **Warning: not constant time.**
    pub fn secret_eq(&self, other: &Self) -> (r: bool)
        ensures
            r == (*self == *other),
    {
        bytes32_eq(&self.bytes, &other.bytes)
    }
}

/// A raw key pair: a secret key together with the public key derived from it
/// by the curve library.
#[derive(Debug, Clone, Copy, PartialEq, Eq, Hash)]
pub struct KeyPair {
    secret: SecretKey,
    public: PublicKey,
}

impl KeyPair {
    /// The public half always carries the point the curve library derives
    /// from the secret half; exec code may assume this of any key pair value
    /// through `use_type_invariant`.
    #[verifier::type_invariant]
    pub open spec fn wf(self) -> bool {
        self.spec_public().x@ + self.spec_public().y@ == curve::derived_point(self.spec_secret()@)
    }

    /// The secret half.
    pub closed spec fn spec_secret(&self) -> SecretKey {
        self.secret
    }

    /// The public half.
    pub closed spec fn spec_public(&self) -> PublicKey {
        self.public
    }

    /// Builds the pair for a secret key by asking the curve library for the
    /// matching public key.
    pub fn from_secret(secret: SecretKey) -> (r: KeyPair)
        ensures
            r.spec_secret() == secret,
            r.spec_public().x@ + r.spec_public().y@ == curve::derived_point(secret@),
    {
        proof {
            use_type_invariant(&secret);
        }
        let bytes = secret.secret_bytes();
        let public = curve::derive_public_key(&bytes);
        KeyPair { secret, public }
    }

    /// Wraps halves already known to belong together.
    pub(crate) fn from_parts(secret: SecretKey, public: PublicKey) -> (r: KeyPair)
        requires
            public.x@ + public.y@ == curve::derived_point(secret@),
        ensures
            r.spec_secret() == secret,
            r.spec_public() == public,
    {
        KeyPair { secret, public }
    }

    /// Returns the secret half.
    pub fn secret_key(&self) -> (r: SecretKey)
        ensures
            r == self.spec_secret(),
    {
        self.secret
    }

    /// Returns the public half.
    pub fn public_key(&self) -> (r: PublicKey)
        ensures
            r == self.spec_public(),
    {
        self.public
    }

    /// Whether two pairs hold the same key material.
    ///
    /// **Warning: not constant time.**
    pub fn pair_eq(&self, other: &Self) -> (r: bool)
        ensures
            r == (*self == *other),
    {
        self.secret.secret_eq(&other.secret) && self.public.point_eq(&other.public)
    }
}

/// A raw x-only public key as used in Taproot: just the X coordinate, 32
/// big-endian bytes.
#[derive(Debug, Clone, Copy, PartialEq, Eq, Hash)]
pub struct XOnlyPublicKey {
    /// X coordinate, 32 big-endian bytes.
    pub x: [u8; 32],
}

impl XOnlyPublicKey {
    /// Serializes the key: the x-only wire encoding is the X coordinate
    /// alone.
    pub fn serialize(&self) -> (r: [u8; 32])
        ensures
            r@ == self.x@,
    {
        self.x
    }
}

/// Whether two 32-byte arrays hold the same bytes.
fn bytes32_eq(a: &[u8; 32], b: &[u8; 32]) -> (r: bool)
    ensures
        r == (a@ == b@),
        r == (*a == *b),
{
    let mut i: usize = 0;
    while i < 32
        invariant
            0 <= i <= 32,
            forall|j: int| 0 <= j < i ==> a@[j] == b@[j],
        decreases 32 - i,
    {
        if a[i] != b[i] {
            proof {
                assert(!(a@ == b@)) by {
                    if a@ == b@ {
                        assert(a@[i as int] == b@[i as int]);
                    }
                }
                assert(!(*a == *b)) by {
                    if *a == *b {
                        assert(a@ == b@);
                    }
                }
            }
            return false;
        }
        i += 1;
    }
    proof {
        assert(a@ =~= b@);
        assert(*a =~= *b);
    }
    true
}

/// Whether a 32-byte array holds any nonzero byte, which is exactly when its
/// big-endian value is nonzero.
fn bytes32_nonzero(a: &[u8; 32]) -> (r: bool)
    ensures
        r == (be_val(a@) > 0),
{
    let mut i: usize = 0;
    while i < 32
        invariant
            0 <= i <= 32,
            forall|j: int| 0 <= j < i ==> a@[j] == 0,
        decreases 32 - i,
    {
        if a[i] != 0 {
            proof {
                lemma_be_val_nonzero(a@, i as int);
            }
            return true;
        }
        i += 1;
    }
    proof {
        lemma_be_val_zero(a@);
    }
    false
}

/// A sequence with some nonzero byte denotes a nonzero value.
proof fn lemma_be_val_nonzero(s: Seq<u8>, i: int)
    requires
        0 <= i < s.len(),
        s[i] != 0,
    ensures
        be_val(s) > 0,
    decreases s.len(),
{
    crate::scalar::lemma_pow256_pos((s.len() - 1) as nat);
    if i == 0 {
        let p = crate::scalar::pow256((s.len() - 1) as nat);
        assert((s[0] as nat) * p >= 1) by (nonlinear_arith)
            requires
                s[0] as nat >= 1,
                p >= 1,
        ;
    } else {
        lemma_be_val_nonzero(s.skip(1), i - 1);
    }
}

/// The all-zero sequence denotes zero.
proof fn lemma_be_val_zero(s: Seq<u8>)
    requires
        forall|j: int| 0 <= j < s.len() ==> s[j] == 0,
    ensures
        be_val(s) == 0,
    decreases s.len(),
{
    if s.len() > 0 {
        let p = crate::scalar::pow256((s.len() - 1) as nat);
        assert(s[0] == 0);
        assert(forall|j: int| 0 <= j < s.skip(1).len() ==> s.skip(1)[j] == 0);
        lemma_be_val_zero(s.skip(1));
        assert((s[0] as nat) * p == 0) by (nonlinear_arith)
            requires
                s[0] == 0,
        ;
    }
}

} // verus!
