//! Recoverable signatures.

use crate::primitives::address::Address;
use crate::primitives::crypto::{recover_public_key, sha256};
use vstd::prelude::*;

verus! {

/// A recoverable secp256k1 signature: the compact signature and its recovery id.
#[derive(Debug, Clone, Copy)]
pub struct Signature {
    rs: [u8; 64],
    recid: u8,
}

/// Why parts do not make up a signature, or why no signer is found.
#[derive(Debug, Clone, Copy, PartialEq, Eq)]
pub enum SignatureError {
    /// The recovery id is greater than three.
    InvalidRecoveryId,
    /// No public key belongs to the signature.
    Unrecoverable,
}

impl Signature {
    /// The compact signature.
    pub closed spec fn rs(self) -> [u8; 64] {
        self.rs
    }

    /// The recovery id.
    pub closed spec fn recid(self) -> u8 {
        self.recid
    }

    /// The encoding of the signature: the compact signature, then the recovery id.
    pub open spec fn encoding(self) -> Seq<u8> {
        self.rs()@.push(self.recid())
    }

    /// The bytes of the address of the key that signed `message`, if there is one.
    pub open spec fn signer_of(self, message: Seq<u8>) -> Option<Seq<u8>> {
        self.signer_of_prehash(crate::primitives::crypto::sha256_of(message))
    }

    /// The bytes of the address of the key that signed the digest `prehash`, if there is
    /// one.
    pub open spec fn signer_of_prehash(self, prehash: Seq<u8>) -> Option<Seq<u8>> {
        match crate::primitives::crypto::recovered_key(self.rs()@, self.recid(), prehash) {
            Some(key) => Some(crate::primitives::address::address_bytes(key)),
            None => None,
        }
    }

    /// Puts a signature together from its parts.
    pub fn from_parts(rs: [u8; 64], recid: u8) -> (made: Result<Self, SignatureError>)
        ensures
            match made {
                Ok(signature) => recid <= 3 && signature.rs() == rs && signature.recid() == recid,
                Err(error) => recid > 3 && error == SignatureError::InvalidRecoveryId,
            },
    {
        if recid > 3 {
            Err(SignatureError::InvalidRecoveryId)
        } else {
            Ok(Signature { rs, recid })
        }
    }

    /// Appends the encoding of the signature to `buffer`.
    pub fn encode(&self, buffer: &mut Vec<u8>)
        ensures
            final(buffer)@ == old(buffer)@ + self.encoding(),
    {
        crate::primitives::bytes::append_bytes(buffer, self.rs.as_slice());
        buffer.push(self.recid);
        assert(buffer@ =~= old(buffer)@ + self.encoding());
    }

    /// The address of the key that signed `message`.
    pub fn recover(&self, message: &[u8]) -> (signer: Result<Address, SignatureError>)
        ensures
            match signer {
                Ok(address) => self.signer_of(message@) == Some(address.bytes@),
                Err(error) => self.signer_of(message@) is None && error
                    == SignatureError::Unrecoverable,
            },
    {
        self.recover_prehash(sha256(message))
    }

    /// The address of the key that signed the digest `prehash`.
    pub fn recover_prehash(&self, prehash: [u8; 32]) -> (signer: Result<Address, SignatureError>)
        ensures
            match signer {
                Ok(address) => self.signer_of_prehash(prehash@) == Some(address.bytes@),
                Err(error) => self.signer_of_prehash(prehash@) is None && error
                    == SignatureError::Unrecoverable,
            },
    {
        match recover_public_key(&self.rs, self.recid, prehash) {
            Ok(key) => Ok(Address::from_public_key(&key)),
            Err(_) => Err(SignatureError::Unrecoverable),
        }
    }
}

/// A signature is known by its compact signature and its recovery id.
pub proof fn law_signature_is_known_by_parts(a: Signature, b: Signature)
    requires
        a.rs()@ == b.rs()@,
        a.recid() == b.recid(),
    ensures
        a == b,
{
    assert(a.rs =~= b.rs);
}

} // verus!
