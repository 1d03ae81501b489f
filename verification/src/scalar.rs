//! Provides [`Scalar`] and related types.
//!
//! In elliptic curve cryptography scalars are non-point values that can be used
//! to multiply points. The most common type of scalars are private keys.
//! However not all scalars are private keys; they can even be public *values*.
//! To make handling them safer and easier this module provides the `Scalar`
//! type and related.

use vstd::prelude::*;

verus! {

/// Big-endian encoding of the largest valid scalar: the secp256k1 curve order
/// minus one.
pub const MAX_RAW: [u8; 32] = [
    0xFF, 0xFF, 0xFF, 0xFF, 0xFF, 0xFF, 0xFF, 0xFF, 0xFF, 0xFF, 0xFF, 0xFF, 0xFF, 0xFF, 0xFF,
    0xFE, 0xBA, 0xAE, 0xDC, 0xE6, 0xAF, 0x48, 0xA0, 0x3B, 0xBF, 0xD2, 0x5E, 0x8C, 0xD0, 0x36,
    0x41, 0x40,
];

/// 256 raised to the given power.
pub open spec fn pow256(e: nat) -> nat
    decreases e,
{
    if e == 0 {
        1
    } else {
        256 * pow256((e - 1) as nat)
    }
}

/// The number a byte sequence denotes when read as a big-endian unsigned
/// integer.
pub open spec fn be_val(s: Seq<u8>) -> nat
    decreases s.len(),
{
    if s.len() == 0 {
        0
    } else {
        (s[0] as nat) * pow256((s.len() - 1) as nat) + be_val(s.skip(1))
    }
}

/// Lexicographic order on byte sequences, compared from the front.
pub open spec fn lex_le(a: Seq<u8>, b: Seq<u8>) -> bool
    decreases a.len(),
{
    if a.len() == 0 || b.len() == 0 {
        true
    } else if a[0] < b[0] {
        true
    } else if a[0] > b[0] {
        false
    } else {
        lex_le(a.skip(1), b.skip(1))
    }
}

/// A byte sequence denotes a valid scalar when it is 32 bytes long and its
/// big-endian value is at most the curve order minus one.
pub open spec fn scalar_in_range(s: Seq<u8>) -> bool {
    s.len() == 32 && be_val(s) <= be_val(MAX_RAW@)
}

/// The scalar bytes that a big-endian parse yields, if any: an in-range input
/// is taken as it stands, anything larger is rejected.
pub open spec fn spec_from_be_bytes(v: Seq<u8>) -> Option<Seq<u8>> {
    if scalar_in_range(v) {
        Some(v)
    } else {
        None
    }
}

/// The scalar bytes that a little-endian parse yields: the big-endian parse of
/// the reversed input.
pub open spec fn spec_from_le_bytes(v: Seq<u8>) -> Option<Seq<u8>> {
    spec_from_be_bytes(v.reverse())
}

pub proof fn lemma_pow256_pos(e: nat)
    ensures
        pow256(e) >= 1,
    decreases e,
{
    if e > 0 {
        lemma_pow256_pos((e - 1) as nat);
    }
}

/// A big-endian value fits below 256 to the power of its length.
pub proof fn lemma_be_val_bound(s: Seq<u8>)
    ensures
        be_val(s) < pow256(s.len()),
    decreases s.len(),
{
    if s.len() > 0 {
        let p = pow256((s.len() - 1) as nat);
        lemma_be_val_bound(s.skip(1));
        lemma_pow256_pos((s.len() - 1) as nat);
        assert((s[0] as nat) * p <= 255 * p) by (nonlinear_arith)
            requires
                s[0] as nat <= 255,
                p >= 0,
        ;
        assert(pow256(s.len()) == 256 * p);
    }
}

/// Law: on equal-length byte sequences, lexicographic order coincides with the
/// numeric order of the big-endian values they denote.
pub proof fn lemma_lex_le_is_numeric_le(a: Seq<u8>, b: Seq<u8>)
    requires
        a.len() == b.len(),
    ensures
        lex_le(a, b) <==> be_val(a) <= be_val(b),
    decreases a.len(),
{
    if a.len() > 0 {
        let p = pow256((a.len() - 1) as nat);
        lemma_lex_le_is_numeric_le(a.skip(1), b.skip(1));
        lemma_be_val_bound(a.skip(1));
        lemma_be_val_bound(b.skip(1));
        lemma_pow256_pos((a.len() - 1) as nat);
        if a[0] < b[0] {
            assert(((a[0] as nat) + 1) * p <= (b[0] as nat) * p) by (nonlinear_arith)
                requires
                    (a[0] as nat) + 1 <= b[0] as nat,
                    p >= 0,
            ;
            assert(((a[0] as nat) + 1) * p == (a[0] as nat) * p + p) by (nonlinear_arith);
        } else if a[0] > b[0] {
            assert(((b[0] as nat) + 1) * p <= (a[0] as nat) * p) by (nonlinear_arith)
                requires
                    (b[0] as nat) + 1 <= a[0] as nat,
                    p >= 0,
            ;
            assert(((b[0] as nat) + 1) * p == (b[0] as nat) * p + p) by (nonlinear_arith);
        }
    }
}

/// Dropping an equal prefix does not change how two equal-length sequences
/// compare lexicographically.
proof fn lemma_lex_le_skip(a: Seq<u8>, b: Seq<u8>, i: int)
    requires
        a.len() == b.len(),
        0 <= i <= a.len(),
        forall|j: int| 0 <= j < i ==> a[j] == b[j],
    ensures
        lex_le(a, b) == lex_le(a.skip(i), b.skip(i)),
    decreases i,
{
    if i > 0 {
        assert(a[0] == b[0]);
        assert(lex_le(a, b) == lex_le(a.skip(1), b.skip(1)));
        assert(forall|j: int| 0 <= j < i - 1 ==> a.skip(1)[j] == b.skip(1)[j]);
        lemma_lex_le_skip(a.skip(1), b.skip(1), i - 1);
        assert(a.skip(1).skip(i - 1) =~= a.skip(i));
        assert(b.skip(1).skip(i - 1) =~= b.skip(i));
    } else {
        assert(a.skip(0) =~= a);
        assert(b.skip(0) =~= b);
    }
}

/// A value whose bytes left of the last one are all zero denotes just its last
/// byte.
proof fn lemma_be_val_of_low_byte(s: Seq<u8>)
    requires
        s.len() >= 1,
        forall|j: int| 0 <= j < s.len() - 1 ==> s[j] == 0,
    ensures
        be_val(s) == s[s.len() - 1],
    decreases s.len(),
{
    let p = pow256((s.len() - 1) as nat);
    assert(be_val(s) == (s[0] as nat) * p + be_val(s.skip(1)));
    if s.len() == 1 {
        assert(p == 1);
        assert(be_val(s.skip(1)) == 0);
        assert((s[0] as nat) * p == s[0] as nat) by (nonlinear_arith)
            requires
                p == 1,
        ;
    } else {
        assert(s[0] == 0);
        assert(forall|j: int| 0 <= j < s.skip(1).len() - 1 ==> s.skip(1)[j] == 0);
        lemma_be_val_of_low_byte(s.skip(1));
        assert(s.skip(1)[s.skip(1).len() - 1] == s[s.len() - 1]);
        assert((s[0] as nat) * p == 0) by (nonlinear_arith)
            requires
                s[0] == 0,
        ;
    }
}

/// Lexicographic comparison of two 32-byte arrays.
fn lex_le_bytes32(a: &[u8; 32], b: &[u8; 32]) -> (r: bool)
    ensures
        r == lex_le(a@, b@),
{
    let mut i: usize = 0;
    while i < 32
        invariant
            0 <= i <= 32,
            forall|j: int| 0 <= j < i ==> a@[j] == b@[j],
        decreases 32 - i,
    {
        if a[i] < b[i] {
            proof {
                lemma_lex_le_skip(a@, b@, i as int);
                assert(a@.skip(i as int)[0] == a@[i as int]);
                assert(b@.skip(i as int)[0] == b@[i as int]);
            }
            return true;
        }
        if a[i] > b[i] {
            proof {
                lemma_lex_le_skip(a@, b@, i as int);
                assert(a@.skip(i as int)[0] == a@[i as int]);
                assert(b@.skip(i as int)[0] == b@[i as int]);
            }
            return false;
        }
        i += 1;
    }
    proof {
        lemma_lex_le_skip(a@, b@, 32);
        assert(a@.skip(32).len() == 0);
    }
    true
}

/// Copy of a 32-byte array with the byte order reversed.
fn reverse_bytes32(a: &[u8; 32]) -> (r: [u8; 32])
    ensures
        r@ == a@.reverse(),
{
    let mut r: [u8; 32] = [0; 32];
    let mut i: usize = 0;
    while i < 32
        invariant
            0 <= i <= 32,
            forall|j: int| 0 <= j < i ==> r@[j] == a@[31 - j],
        decreases 32 - i,
    {
        r[i] = a[31 - i];
        i += 1;
    }
    proof {
        assert(r@ =~= a@.reverse());
    }
    r
}

/// Positive 256-bit integer guaranteed to be less than the secp256k1 curve
/// order.
///
/// The difference between a private key and a `Scalar` is that `Scalar`
/// doesn't guarantee being securely usable as a private key.
///
/// **Warning: the operations on this type are NOT constant time!**
/// Using this with secret values is not advised.
// Internal representation is big endian to match what libsecp256k1 uses,
// which also makes comparison a plain lexicographic one.
#[derive(Copy, Clone, Eq, PartialEq, Ord, PartialOrd)]
pub struct Scalar {
    bytes: [u8; 32],
}

impl View for Scalar {
    type V = Seq<u8>;

    closed spec fn view(&self) -> Seq<u8> {
        self.bytes@
    }
}

impl Scalar {
    /// Every scalar that can be constructed is in range; exec code may assume
    /// this of any scalar value through `use_type_invariant`.
    #[verifier::type_invariant]
    pub open spec fn in_range(self) -> bool {
        scalar_in_range(self@)
    }

    /// Scalar representing `0`.
    pub fn zero() -> (r: Scalar)
        ensures
            r@.len() == 32,
            be_val(r@) == 0,
    {
        let bytes: [u8; 32] = [0; 32];
        proof {
            lemma_be_val_of_low_byte(bytes@);
        }
        Scalar { bytes }
    }

    /// Scalar representing `1`.
    pub fn one() -> (r: Scalar)
        ensures
            r@.len() == 32,
            be_val(r@) == 1,
    {
        let mut bytes: [u8; 32] = [0; 32];
        bytes[31] = 1;
        proof {
            lemma_be_val_of_low_byte(bytes@);
            lemma_be_val_max_raw_large();
        }
        Scalar { bytes }
    }

    /// Maximum valid scalar: the curve order minus one.
    pub fn max_value() -> (r: Scalar)
        ensures
            r@ == MAX_RAW@,
    {
        Scalar { bytes: MAX_RAW }
    }

    /// Tries to deserialize from big endian bytes.
    ///
    /// **Security warning:** this function is not constant time!
    /// Passing secret data is not recommended.
    ///
    /// # Errors
    ///
    /// Returns an error when the value is above the curve order.
    pub fn from_be_bytes(value: [u8; 32]) -> (r: Result<Scalar, OutOfRangeError>)
        ensures
            match r {
                Ok(s) => spec_from_be_bytes(value@) == Some(s@),
                Err(_) => spec_from_be_bytes(value@) is None,
            },
    {
        proof {
            lemma_lex_le_is_numeric_le(value@, MAX_RAW@);
        }
        // Lexicographic ordering of arrays of the same length is the same as
        // the ordering of the big-endian numbers they encode.
        let max = MAX_RAW;
        if lex_le_bytes32(&value, &max) {
            Ok(Scalar { bytes: value })
        } else {
            Err(OutOfRangeError {})
        }
    }

    /// Tries to deserialize from little endian bytes.
    ///
    /// **Security warning:** this function is not constant time!
    /// Passing secret data is not recommended.
    ///
    /// # Errors
    ///
    /// Returns an error when the value is above the curve order.
    pub fn from_le_bytes(value: [u8; 32]) -> (r: Result<Scalar, OutOfRangeError>)
        ensures
            match r {
                Ok(s) => spec_from_le_bytes(value@) == Some(s@),
                Err(_) => spec_from_le_bytes(value@) is None,
            },
    {
        let rev = reverse_bytes32(&value);
        Self::from_be_bytes(rev)
    }

    /// Serializes to big endian bytes.
    pub fn to_be_bytes(self) -> (r: [u8; 32])
        ensures
            r@ == self@,
    {
        self.bytes
    }

    /// Serializes to little endian bytes: the byte-reverse of the big-endian
    /// form.
    pub fn to_le_bytes(self) -> (r: [u8; 32])
        ensures
            r@ == self@.reverse(),
    {
        reverse_bytes32(&self.bytes)
    }
}

/// The maximum raw scalar is at least one; its leading byte alone already is.
proof fn lemma_be_val_max_raw_large()
    ensures
        be_val(MAX_RAW@) >= 1,
{
    let p = pow256((MAX_RAW@.len() - 1) as nat);
    lemma_pow256_pos((MAX_RAW@.len() - 1) as nat);
    assert(MAX_RAW@[0] == 0xFF);
    assert((0xFF as nat) * p >= 1) by (nonlinear_arith)
        requires
            p >= 1,
    ;
}

/// Law: a 32-byte big-endian value that is at most the maximum raw scalar is
/// accepted by parsing and yields exactly those bytes back, so serializing the
/// parsed scalar returns the input unchanged.
pub proof fn lemma_be_bytes_round_trip(v: Seq<u8>)
    requires
        scalar_in_range(v),
    ensures
        spec_from_be_bytes(v) == Some(v),
{
}

/// Law: parsing the little-endian serialization of an in-range scalar value
/// yields that value again: the double byte-reverse cancels out.
pub proof fn lemma_le_bytes_round_trip(s: Seq<u8>)
    requires
        scalar_in_range(s),
    ensures
        spec_from_le_bytes(s.reverse()) == Some(s),
{
    assert(s.reverse().reverse() =~= s);
}

impl From<crate::keys::SecretKey> for Scalar {
    /// Conversion from a raw private key is infallible: private keys are
    /// always already in range.
    fn from(value: crate::keys::SecretKey) -> (r: Scalar)
        ensures
            r@ == value@,
    {
        proof {
            use_type_invariant(&value);
        }
        Scalar { bytes: value.secret_bytes() }
    }
}

impl vstd::std_specs::convert::FromSpecImpl<crate::keys::SecretKey> for Scalar {
    open spec fn obeys_from_spec() -> bool {
        true
    }

    closed spec fn from_spec(v: crate::keys::SecretKey) -> Scalar {
        Scalar { bytes: v.spec_bytes() }
    }
}

/// Error returned when the value of a scalar is invalid - larger than the
/// curve order.
// Intentionally doesn't implement `Copy` to improve forward compatibility.
#[derive(Debug, Clone, Eq, PartialEq, Hash)]
#[non_exhaustive]
pub struct OutOfRangeError {}

} // verus!
