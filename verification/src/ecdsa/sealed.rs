//! Seals the key capability traits: only the raw key kinds named here may
//! populate the `Legacy` and `Compressed` wrappers.

use vstd::prelude::*;

verus! {

pub trait Sealed {

}

impl Sealed for crate::keys::PublicKey {

}

impl Sealed for crate::keys::SecretKey {

}

impl Sealed for crate::keys::KeyPair {

}

} // verus!
