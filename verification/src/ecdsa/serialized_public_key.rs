//! Types intended for manipulating serialized legacy public keys.
//!
//! Because the serialized keys may have different lengths a simple array can
//! not be used. A byte vector would have been possible but requires
//! allocation (slow, needs an allocator). Our special types avoid this
//! problem.

use super::KeyFormat;
use crate::keys;
use vstd::prelude::*;
use vstd::slice::slice_subrange;

verus! {

/// The leading byte of the compressed wire encoding: 2 when the Y coordinate
/// is even, 3 when it is odd.
pub open spec fn compressed_prefix(k: keys::PublicKey) -> u8 {
    if k.y@[31] % 2 == 0 {
        2u8
    } else {
        3u8
    }
}

/// The compressed wire encoding of a public key: the parity prefix followed
/// by the X coordinate, 33 bytes in all.
pub open spec fn compressed_encoding(k: keys::PublicKey) -> Seq<u8> {
    seq![compressed_prefix(k)] + k.x@
}

/// The uncompressed wire encoding of a public key: 0x04 followed by the X and
/// Y coordinates, 65 bytes in all.
pub open spec fn uncompressed_encoding(k: keys::PublicKey) -> Seq<u8> {
    seq![4u8] + k.x@ + k.y@
}

/// Law: the two wire encodings have the shapes the protocol fixes: 65 bytes
/// led by 0x04 carrying both coordinates, and 33 bytes led by the parity of Y
/// carrying the X coordinate.
pub proof fn lemma_encoding_shape(k: keys::PublicKey)
    ensures
        uncompressed_encoding(k).len() == 65,
        uncompressed_encoding(k)[0] == 4,
        uncompressed_encoding(k).subrange(1, 33) == k.x@,
        uncompressed_encoding(k).subrange(33, 65) == k.y@,
        compressed_encoding(k).len() == 33,
        compressed_encoding(k)[0] == 2 || compressed_encoding(k)[0] == 3,
        compressed_encoding(k)[0] == 2 <==> k.y@[31] % 2 == 0,
        compressed_encoding(k).subrange(1, 33) == k.x@,
{
    assert(uncompressed_encoding(k).subrange(1, 33) =~= k.x@);
    assert(uncompressed_encoding(k).subrange(33, 65) =~= k.y@);
    assert(compressed_encoding(k).subrange(1, 33) =~= k.x@);
}

/// Serialized ECDSA public key.
///
/// When serialized, the public key may have different length depending on the
/// format. This type holds the owned data of a serialized public key without
/// heap allocation while providing API similar to that of an immutable byte
/// vector.
///
/// Note that this type is a bit large and may be costly to move. Ideally you
/// should obtain the slice/iterator as soon after it's returned as you can
/// and use it instead.
#[derive(Copy, Clone)]  // others must be manual
pub struct SerializedPublicKey {
    // Note: we don't need to store the format because it is stored in the
    // zeroth byte.
    data: [u8; 65],
}

impl View for SerializedPublicKey {
    type V = Seq<u8>;

    /// The logical bytes: the prefix of the backing array that the zeroth
    /// byte says is meaningful.
    closed spec fn view(&self) -> Seq<u8> {
        self.data@.take(self.spec_len() as int)
    }
}

impl SerializedPublicKey {
    /// The logical length is fully determined by the zeroth byte: 0x04 marks
    /// the uncompressed, 65-byte form; 0x02 and 0x03 mark the compressed,
    /// 33-byte form.
    pub closed spec fn spec_len(&self) -> nat {
        if self.data@[0] == 4 {
            65
        } else {
            33
        }
    }

    /// The zeroth byte is a valid discriminant, and the bytes beyond the
    /// logical length are zero, so that equal logical contents means equal
    /// backing arrays.
    #[verifier::type_invariant]
    spec fn wf(self) -> bool {
        (self.data@[0] == 4 || self.data@[0] == 2 || self.data@[0] == 3) && (self.data@[0] != 4
            ==> forall|i: int| 33 <= i < 65 ==> self.data@[i] == 0)
    }

    /// Serializes the given public key.
    ///
    /// This function is intentionally private and written here as opposed to
    /// being a method on `Legacy`. This avoids the potential cost of
    /// monomorphisation.
    pub(super) fn new(key: keys::PublicKey, format: KeyFormat) -> (r: SerializedPublicKey)
        ensures
            format == KeyFormat::Compressed ==> r@ == compressed_encoding(key),
            format == KeyFormat::Uncompressed ==> r@ == uncompressed_encoding(key),
    {
        let mut data: [u8; 65] = [0; 65];
        match format {
            KeyFormat::Uncompressed => {
                data[0] = 4;
                let mut i: usize = 0;
                while i < 32
                    invariant
                        0 <= i <= 32,
                        data@.len() == 65,
                        data@[0] == 4,
                        forall|j: int| 1 <= j < 1 + i ==> data@[j] == key.x@[j - 1],
                        forall|j: int| 33 <= j < 33 + i ==> data@[j] == key.y@[j - 33],
                    decreases 32 - i,
                {
                    data[1 + i] = key.x[i];
                    data[33 + i] = key.y[i];
                    i += 1;
                }
                let r = SerializedPublicKey { data };
                proof {
                    assert(r@ =~= uncompressed_encoding(key));
                }
                r
            },
            KeyFormat::Compressed => {
                data[0] = if key.y[31] % 2 == 0 {
                    2
                } else {
                    3
                };
                let mut i: usize = 0;
                while i < 32
                    invariant
                        0 <= i <= 32,
                        data@.len() == 65,
                        data@[0] == compressed_prefix(key),
                        forall|j: int| 1 <= j < 1 + i ==> data@[j] == key.x@[j - 1],
                        forall|j: int| 1 + i <= j < 65 ==> data@[j] == 0,
                    decreases 32 - i,
                {
                    data[1 + i] = key.x[i];
                    i += 1;
                }
                let r = SerializedPublicKey { data };
                proof {
                    assert(r@ =~= compressed_encoding(key));
                }
                r
            },
        }
    }

    /// Returns the length of the logical slice: 33 or 65, depending on the
    /// format of the key this was created from.
    #[inline]
    pub fn len(&self) -> (r: usize)
        ensures
            r == self@.len(),
            r == 33 || r == 65,
    {
        proof {
            use_type_invariant(&*self);
            assert(2u8 & 4 == 0) by (bit_vector);
            assert(3u8 & 4 == 0) by (bit_vector);
            assert(4u8 & 4 == 4) by (bit_vector);
        }
        // If the key format is uncompressed the zeroth byte is 4, else 2 or 3,
        // so a single bit decides the length; times 8 it stretches 33 to 65.
        33 + ((self.data[0] & 4) as usize) * 8
    }

    /// Returns the byte at the given position of the logical slice, if it is
    /// within bounds.
    #[inline]
    pub fn get(&self, i: usize) -> (r: Option<u8>)
        ensures
            i < self@.len() ==> r == Some(self@[i as int]),
            i >= self@.len() ==> r is None,
    {
        let n = self.len();
        if i < n {
            Some(self.data[i])
        } else {
            None
        }
    }

    /// Returns the serialized bytes as a slice.
    ///
    /// The length of the returned slice will be either 33 or 65, depending on
    /// the format of the key this was created from.
    #[inline]
    pub fn as_slice(&self) -> (r: &[u8])
        ensures
            r@ == self@,
    {
        let n = self.len();
        let s = slice_subrange(self.data.as_slice(), 0, n);
        proof {
            assert(s@ =~= self@);
        }
        s
    }

    /// Copies the logical bytes into a freshly allocated vector.
    ///
    /// This conversion allocates.
    pub fn to_vec(&self) -> (r: Vec<u8>)
        ensures
            r@ == self@,
    {
        vstd::slice::slice_to_vec(self.as_slice())
    }

    /// Creates an iterator over the logical bytes.
    #[inline]
    pub fn iter(&self) -> (r: IntoIter)
        ensures
            r.remaining() == self@,
    {
        IntoIter { key: *self, pos: 0 }
    }

    /// Turns the key into an owned iterator over its logical bytes.
    #[inline]
    pub fn into_iter(self) -> (r: IntoIter)
        ensures
            r.remaining() == self@,
    {
        IntoIter { key: self, pos: 0 }
    }
}

impl PartialEq for SerializedPublicKey {
    /// Compares the logical slices, so the bytes beyond the logical length
    /// can never tell two keys apart.
    fn eq(&self, other: &Self) -> (r: bool) {
        slice_bytes_eq(self.as_slice(), other.as_slice())
    }
}

impl Eq for SerializedPublicKey {

}

impl vstd::std_specs::cmp::PartialEqSpecImpl for SerializedPublicKey {
    open spec fn obeys_eq_spec() -> bool {
        true
    }

    open spec fn eq_spec(&self, other: &Self) -> bool {
        self@ == other@
    }
}

/// Whether two byte slices hold the same bytes.
fn slice_bytes_eq(a: &[u8], b: &[u8]) -> (r: bool)
    ensures
        r == (a@ == b@),
{
    if a.len() != b.len() {
        proof {
            assert(!(a@ == b@)) by {
                if a@ == b@ {
                    assert(a@.len() == b@.len());
                }
            }
        }
        return false;
    }
    let n = a.len();
    let mut i: usize = 0;
    while i < n
        invariant
            0 <= i <= n,
            n == a@.len() && n == b@.len(),
            forall|j: int| 0 <= j < i ==> a@[j] == b@[j],
        decreases n - i,
    {
        if *vstd::slice::slice_index_get(a, i) != *vstd::slice::slice_index_get(b, i) {
            proof {
                assert(!(a@ == b@)) by {
                    if a@ == b@ {
                        assert(a@[i as int] == b@[i as int]);
                    }
                }
            }
            return false;
        }
        i += 1;
    }
    proof {
        assert(a@ =~= b@);
    }
    true
}

impl PartialOrd for SerializedPublicKey {
    /// Orders by the logical slices: lexicographically, with a shorter prefix
    /// coming first, so the bytes beyond the logical length never matter.
    fn partial_cmp(&self, other: &Self) -> (r: Option<core::cmp::Ordering>) {
        Some(slice_bytes_cmp(self.as_slice(), other.as_slice()))
    }
}

impl vstd::std_specs::cmp::PartialOrdSpecImpl for SerializedPublicKey {
    open spec fn obeys_partial_cmp_spec() -> bool {
        true
    }

    open spec fn partial_cmp_spec(&self, other: &Self) -> Option<core::cmp::Ordering> {
        Some(spec_bytes_cmp(self@, other@))
    }
}

/// Lexicographic comparison of byte sequences, a strict prefix ordered first,
/// as the standard library orders byte slices.
pub open spec fn spec_bytes_cmp(a: Seq<u8>, b: Seq<u8>) -> core::cmp::Ordering
    decreases a.len(),
{
    if a.len() == 0 && b.len() == 0 {
        core::cmp::Ordering::Equal
    } else if a.len() == 0 {
        core::cmp::Ordering::Less
    } else if b.len() == 0 {
        core::cmp::Ordering::Greater
    } else if a[0] < b[0] {
        core::cmp::Ordering::Less
    } else if a[0] > b[0] {
        core::cmp::Ordering::Greater
    } else {
        spec_bytes_cmp(a.skip(1), b.skip(1))
    }
}

/// Law: the ordering calls two sequences equal exactly when they are the same
/// sequence, so serialized keys with the same logical bytes compare equal.
pub proof fn lemma_bytes_cmp_equal_iff(a: Seq<u8>, b: Seq<u8>)
    ensures
        (spec_bytes_cmp(a, b) == core::cmp::Ordering::Equal) <==> a == b,
    decreases a.len(),
{
    if a.len() == 0 && b.len() == 0 {
        assert(a =~= b);
    } else if a.len() == 0 || b.len() == 0 {
        assert(!(a == b)) by {
            if a == b {
                assert(a.len() == b.len());
            }
        }
    } else {
        lemma_bytes_cmp_equal_iff(a.skip(1), b.skip(1));
        if spec_bytes_cmp(a, b) == core::cmp::Ordering::Equal {
            assert(a[0] == b[0] && a.skip(1) == b.skip(1));
            assert(a.len() == b.len());
            assert forall|j: int| 0 <= j < a.len() implies a[j] == b[j] by {
                if j > 0 {
                    assert(a.skip(1)[j - 1] == a[j]);
                    assert(b.skip(1)[j - 1] == b[j]);
                }
            }
            assert(a =~= b);
        }
        if a == b {
            assert(a.skip(1) =~= b.skip(1));
        }
    }
}

/// Dropping an equal prefix does not change how two sequences compare.
proof fn lemma_bytes_cmp_skip(a: Seq<u8>, b: Seq<u8>, i: int)
    requires
        0 <= i <= a.len(),
        i <= b.len(),
        forall|j: int| 0 <= j < i ==> a[j] == b[j],
    ensures
        spec_bytes_cmp(a, b) == spec_bytes_cmp(a.skip(i), b.skip(i)),
    decreases i,
{
    if i > 0 {
        assert(a[0] == b[0]);
        assert(spec_bytes_cmp(a, b) == spec_bytes_cmp(a.skip(1), b.skip(1)));
        assert(forall|j: int| 0 <= j < i - 1 ==> a.skip(1)[j] == b.skip(1)[j]);
        lemma_bytes_cmp_skip(a.skip(1), b.skip(1), i - 1);
        assert(a.skip(1).skip(i - 1) =~= a.skip(i));
        assert(b.skip(1).skip(i - 1) =~= b.skip(i));
    } else {
        assert(a.skip(0) =~= a);
        assert(b.skip(0) =~= b);
    }
}

/// Lexicographic comparison of two byte slices.
fn slice_bytes_cmp(a: &[u8], b: &[u8]) -> (r: core::cmp::Ordering)
    ensures
        r == spec_bytes_cmp(a@, b@),
{
    let an = a.len();
    let bn = b.len();
    let n = if an < bn {
        an
    } else {
        bn
    };
    let mut i: usize = 0;
    while i < n
        invariant
            0 <= i <= n,
            n <= a@.len() && n <= b@.len(),
            n == a@.len() || n == b@.len(),
            forall|j: int| 0 <= j < i ==> a@[j] == b@[j],
        decreases n - i,
    {
        let x = *vstd::slice::slice_index_get(a, i);
        let y = *vstd::slice::slice_index_get(b, i);
        if x < y {
            proof {
                lemma_bytes_cmp_skip(a@, b@, i as int);
                assert(a@.skip(i as int)[0] == a@[i as int]);
                assert(b@.skip(i as int)[0] == b@[i as int]);
            }
            return core::cmp::Ordering::Less;
        }
        if x > y {
            proof {
                lemma_bytes_cmp_skip(a@, b@, i as int);
                assert(a@.skip(i as int)[0] == a@[i as int]);
                assert(b@.skip(i as int)[0] == b@[i as int]);
            }
            return core::cmp::Ordering::Greater;
        }
        i += 1;
    }
    proof {
        lemma_bytes_cmp_skip(a@, b@, n as int);
    }
    if an < bn {
        core::cmp::Ordering::Less
    } else if an > bn {
        core::cmp::Ordering::Greater
    } else {
        core::cmp::Ordering::Equal
    }
}

/// Owned iterator over the bytes of a serialized public key.
///
/// The iterator is fused: once the position reaches the logical length it
/// stays there, and every further call keeps reporting exhaustion.
#[derive(Clone, Copy, PartialEq, Eq)]
pub struct IntoIter {
    key: SerializedPublicKey,
    // invariant: pos <= key length
    pos: u8,
}

impl IntoIter {
    #[verifier::type_invariant]
    spec fn wf(self) -> bool {
        self.pos as nat <= self.key@.len()
    }

    /// The bytes not yet yielded, in the order they will come.
    pub closed spec fn remaining(&self) -> Seq<u8> {
        self.key@.skip(self.pos as int)
    }

    /// Returns the remaining bytes as a slice.
    #[inline]
    pub fn as_slice(&self) -> (r: &[u8])
        ensures
            r@ == self.remaining(),
    {
        proof {
            use_type_invariant(&*self);
        }
        let n = self.key.len();
        let s = slice_subrange(self.key.data.as_slice(), self.pos as usize, n);
        proof {
            assert(s@ =~= self.remaining());
        }
        s
    }

    /// Yields the next byte, or reports exhaustion without changing anything.
    #[inline]
    pub fn next(&mut self) -> (r: Option<u8>)
        ensures
            old(self).remaining().len() > 0 ==> (r == Some(old(self).remaining()[0])
                && final(self).remaining() == old(self).remaining().skip(1)),
            old(self).remaining().len() == 0 ==> (r is None && *final(self) == *old(self)),
    {
        proof {
            use_type_invariant(&*self);
        }
        match self.key.get(self.pos as usize) {
            Some(b) => {
                // no overflow: the key length is at most 65
                self.pos = self.pos + 1;
                proof {
                    assert(self.key@.skip(self.pos as int) =~= old(self).remaining().skip(1));
                }
                Some(b)
            },
            None => None,
        }
    }

    /// Exact count of what is left, without consuming anything.
    #[inline]
    pub fn size_hint(&self) -> (r: (usize, Option<usize>))
        ensures
            r.0 == self.remaining().len(),
            r.1 == Some(r.0),
    {
        proof {
            use_type_invariant(&*self);
        }
        let n = self.key.len() - (self.pos as usize);
        (n, Some(n))
    }

    /// The number of bytes left; no items need to be produced to count them.
    #[inline]
    pub fn count(self) -> (r: usize)
        ensures
            r == self.remaining().len(),
    {
        proof {
            use_type_invariant(&self);
        }
        self.key.len() - (self.pos as usize)
    }

    /// The last remaining byte, retrieved in constant time, or exhaustion.
    #[inline]
    pub fn last(self) -> (r: Option<u8>)
        ensures
            self.remaining().len() > 0 ==> r == Some(self.remaining().last()),
            self.remaining().len() == 0 ==> r is None,
    {
        proof {
            use_type_invariant(&self);
        }
        let n = self.key.len();
        if (self.pos as usize) < n {
            self.key.get(n - 1)
        } else {
            None
        }
    }

    /// Skips ahead by `n` positions in constant time and yields the byte
    /// there, or reports exhaustion without changing anything.
    #[inline]
    pub fn nth(&mut self, n: usize) -> (r: Option<u8>)
        ensures
            n < old(self).remaining().len() ==> (r == Some(old(self).remaining()[n as int])
                && final(self).remaining() == old(self).remaining().skip(n as int + 1)),
            n >= old(self).remaining().len() ==> (r is None && *final(self) == *old(self)),
    {
        proof {
            use_type_invariant(&*self);
        }
        // if n overflows u8 when added to pos it is certainly beyond the end,
        // because the key length is at most 65
        let cap: u8 = if n > 255 {
            255
        } else {
            n as u8
        };
        let elem_pos: u8 = if self.pos > 255 - cap {
            255
        } else {
            self.pos + cap
        };
        let len = self.key.len();
        if (elem_pos as usize) < len {
            let item = self.key.get(elem_pos as usize);
            // no overflow: the key length is at most 65
            self.pos = elem_pos + 1;
            proof {
                assert(self.key@.skip(self.pos as int) =~= old(self).remaining().skip(
                    n as int + 1,
                ));
            }
            item
        } else {
            None
        }
    }
}

} // verus!
