//! Validator addresses.

use crate::primitives::bytes::{array_eq, array_from_slice};
use crate::primitives::crypto::sha256;
use vstd::prelude::*;

verus! {

/// The address of a key holder.
#[derive(Debug, Clone, Copy, Eq, Hash)]
pub struct Address {
    pub bytes: [u8; 20],
}

/// The bytes of the address that belongs to an uncompressed public key: the last twenty
/// bytes of its SHA-256 digest.
pub open spec fn address_bytes(public_key: Seq<u8>) -> Seq<u8> {
    crate::primitives::crypto::sha256_of(public_key).subrange(12, 32)
}

impl Address {
    /// The address that belongs to an uncompressed public key.
    pub fn from_public_key(public_key: &[u8; 65]) -> (address: Self)
        ensures
            address.bytes@ == address_bytes(public_key@),
    {
        let digest: [u8; 32] = sha256(public_key.as_slice());
        Address { bytes: array_from_slice::<20>(digest.as_slice(), 12) }
    }
}

impl PartialEq for Address {
    fn eq(&self, other: &Self) -> (same: bool) {
        array_eq(&self.bytes, &other.bytes)
    }
}

impl vstd::std_specs::cmp::PartialEqSpecImpl for Address {
    open spec fn obeys_eq_spec() -> bool {
        true
    }

    open spec fn eq_spec(&self, other: &Self) -> bool {
        self.bytes == other.bytes
    }
}

} // verus!
