//! Types handling ECDSA public keys.
//!
//! While ECDSA keys are expected to be replaced with Taproot or other future
//! upgrades they are still widely used at the time of writing this library.
//! This module contains the types and methods for handling them correctly and
//! easily.
//!
//! There are two main key types in this module: [`Compressed`] and [`Legacy`].
//! They are nearly identical in memory and differ in serialization only.
//! [`Legacy`] may be (de)serialized as uncompressed and dynamically remembers
//! the format. [`Compressed`] is statically known to be compressed and can not
//! be serialized as uncompressed. Aside from saving a tiny bit of memory, it
//! can statically prevent problems like panics when constructing SegWit v0
//! addresses.
//!
//! Note that while these types are generic, it's actually recommended to not
//! use their generic properties and use the type aliases in the crate root
//! instead. Them being generic is mainly avoiding code duplication in this
//! crate.

mod sealed;

pub mod serialized_public_key;

pub use serialized_public_key::SerializedPublicKey;

use crate::curve;
use crate::keys;
use serialized_public_key::{compressed_encoding, compressed_prefix, uncompressed_encoding};
use vstd::prelude::*;
use vstd::std_specs::cmp::PartialEqSpec;

verus! {

/// Distinguishes compressed keys from uncompressed ones (runtime).
///
/// This is a more readable alternative to `bool`.
#[derive(Copy, Clone, Debug, Eq, PartialEq, Hash, Structural)]
pub enum KeyFormat {
    /// The public key should be serialized as compressed.
    Compressed,
    /// The public key should be serialized as uncompressed.
    Uncompressed,
}

impl KeyFormat {
    /// Returns `true` if the format is [`Compressed`].
    ///
    /// Shorthand for matching/comparing.
    ///
    /// [`Compressed`]: Self::Compressed
    #[inline]
    pub fn is_compressed(self) -> (r: bool)
        ensures
            r == (self == KeyFormat::Compressed),
    {
        self == KeyFormat::Compressed
    }

    /// Returns `true` if the format is [`Uncompressed`].
    ///
    /// Shorthand for matching/comparing.
    ///
    /// [`Uncompressed`]: Self::Uncompressed
    #[inline]
    pub fn is_uncompressed(self) -> (r: bool)
        ensures
            r == (self == KeyFormat::Uncompressed),
    {
        self == KeyFormat::Uncompressed
    }

    /// Turns compressed format to uncompressed and vice versa.
    #[inline]
    pub fn not(self) -> (r: KeyFormat)
        ensures
            self == KeyFormat::Compressed ==> r == KeyFormat::Uncompressed,
            self == KeyFormat::Uncompressed ==> r == KeyFormat::Compressed,
    {
        match self {
            KeyFormat::Compressed => KeyFormat::Uncompressed,
            KeyFormat::Uncompressed => KeyFormat::Compressed,
        }
    }
}

/// Restricts key types that may be stored in [`Compressed`] and [`Legacy`].
///
/// The trait is sealed: exactly the three raw key kinds of this library
/// implement it, so a wrapper can never carry anything else.
pub trait Key: Sized + Copy + sealed::Sealed {
    /// Whether two keys hold the same key material.
    fn key_eq(&self, other: &Self) -> (r: bool)
        ensures
            r == (*self == *other),
    ;
}

/// Represents key types that are or contain public keys.
pub trait PublicKey: Key {
    /// The public key this key carries.
    spec fn spec_public_key(&self) -> keys::PublicKey;

    /// Extracts the public key.
    fn public_key(&self) -> (r: keys::PublicKey)
        ensures
            r == self.spec_public_key(),
    ;
}

/// Represents key types that are or contain private keys.
pub trait PrivateKey: Key {
    /// The private key this key carries.
    spec fn spec_private_key(&self) -> keys::SecretKey;

    /// Extracts the private key.
    fn private_key(&self) -> (r: keys::SecretKey)
        ensures
            r == self.spec_private_key(),
    ;

    /// Computes the public key belonging to this private key.
    fn compute_public_key(&self) -> (r: keys::PublicKey)
        ensures
            r.x@ + r.y@ == curve::derived_point(self.spec_private_key()@),
    ;
}

impl Key for keys::PublicKey {
    fn key_eq(&self, other: &Self) -> (r: bool) {
        self.point_eq(other)
    }
}

impl Key for keys::SecretKey {
    fn key_eq(&self, other: &Self) -> (r: bool) {
        self.secret_eq(other)
    }
}

impl Key for keys::KeyPair {
    fn key_eq(&self, other: &Self) -> (r: bool) {
        self.pair_eq(other)
    }
}

impl PublicKey for keys::PublicKey {
    open spec fn spec_public_key(&self) -> keys::PublicKey {
        *self
    }

    fn public_key(&self) -> (r: keys::PublicKey) {
        *self
    }
}

impl PublicKey for keys::KeyPair {
    open spec fn spec_public_key(&self) -> keys::PublicKey {
        self.spec_public()
    }

    fn public_key(&self) -> (r: keys::PublicKey) {
        keys::KeyPair::public_key(self)
    }
}

impl PrivateKey for keys::SecretKey {
    open spec fn spec_private_key(&self) -> keys::SecretKey {
        *self
    }

    fn private_key(&self) -> (r: keys::SecretKey) {
        *self
    }

    fn compute_public_key(&self) -> (r: keys::PublicKey) {
        proof {
            use_type_invariant(&*self);
        }
        let bytes = self.secret_bytes();
        curve::derive_public_key(&bytes)
    }
}

impl PrivateKey for keys::KeyPair {
    open spec fn spec_private_key(&self) -> keys::SecretKey {
        self.spec_secret()
    }

    fn private_key(&self) -> (r: keys::SecretKey) {
        self.secret_key()
    }

    /// A pair already carries its public half, so the curve multiplication is
    /// skipped; the pair's invariant shows the cached value is the derived one.
    fn compute_public_key(&self) -> (r: keys::PublicKey) {
        proof {
            use_type_invariant(&*self);
        }
        keys::KeyPair::public_key(self)
    }
}

/// Contains a key that may be uncompressed when serialized as public key.
///
/// Old Bitcoin addresses may have internally used an uncompressed public key.
/// This is discouraged in new software since it wastes money, among other
/// things, but it may be required to recover old coins.
pub struct Legacy<K: Key> {
    /// The wrapped raw key.
    pub key: K,
    /// How the key serializes; determines the derived address.
    pub format: KeyFormat,
}

/// The raw keys are the same, whatever the formats say.
pub open spec fn spec_eq_key<K: Key>(a: Legacy<K>, b: Legacy<K>) -> bool {
    a.key == b.key
}

impl<K: Key> Legacy<K> {
    /// Constructs the legacy key from the underlying raw key and format
    /// information.
    ///
    /// **Warning:** make sure to supply the correct key format. An incorrect
    /// format may lead to a different address, making spending difficult or
    /// even impossible for non-technical people.
    #[inline]
    pub fn from_raw(key: K, format: KeyFormat) -> (r: Self)
        ensures
            r.key == key,
            r.format == format,
    {
        Legacy { key, format }
    }

    /// Returns the serialization format of this key.
    #[inline]
    pub fn format(&self) -> (r: KeyFormat)
        ensures
            r == self.format,
    {
        self.format
    }

    /// Returns the underlying raw key.
    #[inline]
    pub fn raw_key(&self) -> (r: K)
        ensures
            r == self.key,
    {
        self.key
    }

    /// Dangerous: Overrides the format.
    ///
    /// This method may change the format and result in a different address.
    /// As a consequence, improper use can make it harder to spend from the
    /// address, even impossible for non-technical people.
    ///
    /// The method should only be used when this behavior is known to be
    /// correct, e.g. in recovery tools.
    #[inline]
    pub fn force_set_format(&mut self, format: KeyFormat)
        ensures
            final(self).key == old(self).key,
            final(self).format == format,
    {
        self.format = format;
    }

    /// Dangerous: Forces the format to be compressed.
    ///
    /// This method may change the format and result in a different address.
    /// As a consequence, improper use can make it harder to spend from the
    /// address, even impossible for non-technical people.
    ///
    /// The method should only be used when this behavior is known to be
    /// correct, e.g. in recovery tools.
    #[inline]
    pub fn force_to_compressed(&self) -> (r: Compressed<K>)
        ensures
            r.key == self.key,
    {
        Compressed::from_raw(self.key)
    }

    /// Returns true if the keys are equal *regardless of the format*.
    ///
    /// The `==` operator takes the serialization format into account, thus
    /// same keys with different formats are considered **not** equal. This
    /// method ignores the format when comparing.
    #[inline]
    pub fn eq_key(&self, rhs: Self) -> (r: bool)
        ensures
            r == spec_eq_key(*self, rhs),
    {
        self.key.key_eq(&rhs.key)
    }
}

impl<K: PublicKey> Legacy<K> {
    /// Serializes the public key into bytes according to the format.
    ///
    /// This is generally **not** presented to the user, just used to generate
    /// Bitcoin script.
    ///
    /// The returned type has API similar to an immutable byte vector but as
    /// opposed to a vector it uses the stack to hold the data. The downside is
    /// more costly moves, so it's recommended to turn the returned value into
    /// a slice or iterator as soon as possible.
    #[inline]
    pub fn serialize_public_key(&self) -> (r: SerializedPublicKey)
        ensures
            self.format == KeyFormat::Compressed ==> r@ == compressed_encoding(
                self.key.spec_public_key(),
            ),
            self.format == KeyFormat::Uncompressed ==> r@ == uncompressed_encoding(
                self.key.spec_public_key(),
            ),
    {
        SerializedPublicKey::new(self.key.public_key(), self.format)
    }
}

impl<K: PrivateKey> Legacy<K> {
    /// Computes a public key from this private key, preserving the format.
    pub fn compute_public_key(&self) -> (r: Legacy<keys::PublicKey>)
        ensures
            r.key.x@ + r.key.y@ == curve::derived_point(self.key.spec_private_key()@),
            r.format == self.format,
    {
        Legacy::from_raw(self.key.compute_public_key(), self.format)
    }
}

impl<K: Key> PartialEq for Legacy<K> {
    /// Format-aware equality: same key material with different formats is not
    /// equal, since the two derive different addresses.
    fn eq(&self, other: &Self) -> (r: bool) {
        self.key.key_eq(&other.key) && self.format == other.format
    }
}

impl<K: Key> Eq for Legacy<K> {

}

impl<K: Key> vstd::std_specs::cmp::PartialEqSpecImpl for Legacy<K> {
    open spec fn obeys_eq_spec() -> bool {
        true
    }

    open spec fn eq_spec(&self, other: &Self) -> bool {
        self.key == other.key && self.format == other.format
    }
}

/// Law: two legacy keys with the same raw key but different formats are told
/// apart by `==`, while `eq_key` still recognizes the shared key material.
pub proof fn lemma_eq_key_ignores_format<K: Key>(a: Legacy<K>, b: Legacy<K>)
    requires
        a.key == b.key,
        a.format != b.format,
    ensures
        spec_eq_key(a, b),
        !a.eq_spec(&b),
{
}

/// Contains a key that is guaranteed to be compressed when serialized as
/// public key.
///
/// This key may be used in either P2SH or SegWit v0 addresses which are still
/// widely used but are being replaced by P2TR addresses. New software is
/// encouraged to use P2TR, but this may still be required to recover old
/// coins.
pub struct Compressed<K: Key> {
    /// The wrapped raw key.
    pub key: K,
}

impl<K: Key> Compressed<K> {
    /// Creates a compressed key from its raw form.
    pub fn from_raw(key: K) -> (r: Self)
        ensures
            r.key == key,
    {
        Compressed { key }
    }

    /// Returns the raw key.
    pub fn raw_key(&self) -> (r: K)
        ensures
            r == self.key,
    {
        self.key
    }
}

impl<K: PublicKey> Compressed<K> {
    /// Serializes the public key into bytes in compressed format.
    ///
    /// This is generally **not** presented to the user, just used to generate
    /// Bitcoin script.
    #[inline]
    pub fn serialize_public_key(&self) -> (r: [u8; 33])
        ensures
            r@ == compressed_encoding(self.key.spec_public_key()),
    {
        let pk = self.key.public_key();
        let mut data: [u8; 33] = [0; 33];
        data[0] = if pk.y[31] % 2 == 0 {
            2
        } else {
            3
        };
        let mut i: usize = 0;
        while i < 32
            invariant
                0 <= i <= 32,
                data@.len() == 33,
                data@[0] == compressed_prefix(pk),
                forall|j: int| 1 <= j < 1 + i ==> data@[j] == pk.x@[j - 1],
            decreases 32 - i,
        {
            data[1 + i] = pk.x[i];
            i += 1;
        }
        proof {
            assert(data@ =~= compressed_encoding(pk));
        }
        data
    }
}

impl<K: PrivateKey> Compressed<K> {
    /// Computes a public key from this private key.
    pub fn compute_public_key(&self) -> (r: Compressed<keys::PublicKey>)
        ensures
            r.key.x@ + r.key.y@ == curve::derived_point(self.key.spec_private_key()@),
    {
        Compressed::from_raw(self.key.compute_public_key())
    }
}

impl From<Legacy<keys::KeyPair>> for Legacy<keys::PublicKey> {
    /// Projects the pair onto its public half, keeping the format.
    fn from(value: Legacy<keys::KeyPair>) -> (r: Self) {
        Legacy { key: keys::KeyPair::public_key(&value.key), format: value.format }
    }
}

impl vstd::std_specs::convert::FromSpecImpl<Legacy<keys::KeyPair>> for Legacy<keys::PublicKey> {
    open spec fn obeys_from_spec() -> bool {
        true
    }

    open spec fn from_spec(v: Legacy<keys::KeyPair>) -> Self {
        Legacy { key: v.key.spec_public(), format: v.format }
    }
}

impl From<Legacy<keys::KeyPair>> for Legacy<keys::SecretKey> {
    /// Projects the pair onto its secret half, keeping the format.
    fn from(value: Legacy<keys::KeyPair>) -> (r: Self) {
        Legacy { key: keys::KeyPair::secret_key(&value.key), format: value.format }
    }
}

impl vstd::std_specs::convert::FromSpecImpl<Legacy<keys::KeyPair>> for Legacy<keys::SecretKey> {
    open spec fn obeys_from_spec() -> bool {
        true
    }

    open spec fn from_spec(v: Legacy<keys::KeyPair>) -> Self {
        Legacy { key: v.key.spec_secret(), format: v.format }
    }
}

impl From<Compressed<keys::KeyPair>> for Compressed<keys::PublicKey> {
    /// Projects the pair onto its public half.
    fn from(value: Compressed<keys::KeyPair>) -> (r: Self) {
        Compressed { key: keys::KeyPair::public_key(&value.key) }
    }
}

impl vstd::std_specs::convert::FromSpecImpl<Compressed<keys::KeyPair>> for Compressed<keys::PublicKey> {
    open spec fn obeys_from_spec() -> bool {
        true
    }

    open spec fn from_spec(v: Compressed<keys::KeyPair>) -> Self {
        Compressed { key: v.key.spec_public() }
    }
}

impl From<Compressed<keys::KeyPair>> for Compressed<keys::SecretKey> {
    /// Projects the pair onto its secret half.
    fn from(value: Compressed<keys::KeyPair>) -> (r: Self) {
        Compressed { key: keys::KeyPair::secret_key(&value.key) }
    }
}

impl vstd::std_specs::convert::FromSpecImpl<Compressed<keys::KeyPair>> for Compressed<keys::SecretKey> {
    open spec fn obeys_from_spec() -> bool {
        true
    }

    open spec fn from_spec(v: Compressed<keys::KeyPair>) -> Self {
        Compressed { key: v.key.spec_secret() }
    }
}

impl<K: Key> From<Compressed<K>> for Legacy<K> {
    /// A statically compressed key is a legacy key whose tag is compressed.
    fn from(value: Compressed<K>) -> (r: Self) {
        Legacy { key: value.key, format: KeyFormat::Compressed }
    }
}

impl<K: Key> vstd::std_specs::convert::FromSpecImpl<Compressed<K>> for Legacy<K> {
    open spec fn obeys_from_spec() -> bool {
        true
    }

    open spec fn from_spec(v: Compressed<K>) -> Self {
        Legacy { key: v.key, format: KeyFormat::Compressed }
    }
}

impl<K: Key> TryFrom<Legacy<K>> for Compressed<K> {
    type Error = KeyNotCompressedError;

    /// Succeeds exactly when the legacy key's tag is compressed, keeping the
    /// raw key unchanged.
    fn try_from(value: Legacy<K>) -> (r: Result<Self, KeyNotCompressedError>) {
        match value.format {
            KeyFormat::Compressed => Ok(Compressed { key: value.key }),
            KeyFormat::Uncompressed => Err(KeyNotCompressedError {}),
        }
    }
}

impl<K: Key> vstd::std_specs::convert::TryFromSpecImpl<Legacy<K>> for Compressed<K> {
    open spec fn obeys_try_from_spec() -> bool {
        true
    }

    open spec fn try_from_spec(v: Legacy<K>) -> Result<Self, KeyNotCompressedError> {
        if v.format == KeyFormat::Compressed {
            Ok(Compressed { key: v.key })
        } else {
            Err(KeyNotCompressedError {})
        }
    }
}

/// Law: wrapping a statically compressed key as a legacy key always yields
/// the compressed tag, and converting back succeeds with the raw key
/// unchanged.
pub proof fn lemma_compressed_legacy_round_trip<K: Key>(c: Compressed<K>)
    ensures
        ({
            let l = <Legacy<K> as vstd::std_specs::convert::FromSpec<Compressed<K>>>::from_spec(c);
            l.format == KeyFormat::Compressed && <Compressed<K> as vstd::std_specs::convert::TryFromSpec<
                Legacy<K>,
            >>::try_from_spec(l) == Ok::<Compressed<K>, KeyNotCompressedError>(c)
        }),
{
}

/// Law: the checked conversion from legacy to compressed succeeds if and only
/// if the legacy key's tag is compressed, and then keeps the raw key.
pub proof fn lemma_try_from_legacy_iff<K: Key>(l: Legacy<K>)
    ensures
        ({
            let r = <Compressed<K> as vstd::std_specs::convert::TryFromSpec<
                Legacy<K>,
            >>::try_from_spec(l);
            (r is Ok <==> l.format == KeyFormat::Compressed) && (l.format == KeyFormat::Compressed
                ==> r == Ok::<Compressed<K>, KeyNotCompressedError>(
                Compressed { key: l.key },
            ))
        }),
{
}

/// Returned when attempting to convert a legacy key into compressed and the
/// legacy key is in uncompressed format.
#[derive(Debug, Clone)]
#[non_exhaustive]
pub struct KeyNotCompressedError {}

} // verus!
