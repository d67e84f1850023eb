//! The holder of a secret key.

use crate::primitives::address::Address;
use crate::primitives::bytes::array_from_slice;
use crate::primitives::crypto::{
    check_secret_key, generate_keypair, public_key, sha256, sign_recoverable,
};
use crate::primitives::hex_text::{hex_decode, HexError};
use crate::primitives::signature::{Signature, SignatureError};
use vstd::prelude::*;

verus! {

/// A secret key, known to be one.
pub struct SecretKey {
    bytes: [u8; 32],
}

/// The bytes are not those of a secret key.
#[derive(Debug, Clone, Copy, PartialEq, Eq)]
pub struct InvalidSecretKey;

/// Why a signer cannot be made from a text or from bytes.
#[derive(Debug, Clone, Copy, PartialEq, Eq)]
pub enum SignerError {
    /// The text does not start with `0x`.
    MissingPrefix,
    /// What follows the prefix is not hexadecimal.
    InvalidHex(HexError),
    /// There are not exactly 32 bytes.
    InvalidLength,
}

impl SecretKey {
    #[verifier::type_invariant]
    spec fn is_valid(self) -> bool {
        crate::primitives::crypto::is_secret_key(self.bytes@)
    }

    /// The bytes of the key.
    pub closed spec fn secret(self) -> Seq<u8> {
        self.bytes@
    }

    /// Takes the bytes for a secret key if they are the bytes of one.
    pub fn from_byte_array(bytes: &[u8; 32]) -> (made: Result<Self, InvalidSecretKey>)
        ensures
            match made {
                Ok(key) => crate::primitives::crypto::is_secret_key(bytes@) && key.secret()
                    == bytes@,
                Err(_) => !crate::primitives::crypto::is_secret_key(bytes@),
            },
    {
        match check_secret_key(bytes) {
            Ok(_) => Ok(SecretKey { bytes: *bytes }),
            Err(_) => Err(InvalidSecretKey),
        }
    }
}

impl Clone for SecretKey {
    fn clone(&self) -> (copy: Self)
        ensures
            copy == *self,
    {
        proof {
            use_type_invariant(self);
        }
        SecretKey { bytes: self.bytes }
    }
}

/// Signs with a secret key and knows the address that belongs to it.
pub struct Signer {
    secret_key: SecretKey,
    address: Address,
}

/// Whether `text` starts with `0x`.
pub open spec fn has_hex_prefix(text: Seq<u8>) -> bool {
    text.len() >= 2 && text[0] == 0x30 && text[1] == 0x78
}

/// What follows the two bytes of the prefix.
pub open spec fn after_prefix(text: Seq<u8>) -> Seq<u8> {
    text.subrange(2, text.len() as int)
}

impl Signer {
    #[verifier::type_invariant]
    spec fn owns_address(self) -> bool {
        self.address.bytes@ == crate::primitives::address::address_bytes(
            crate::primitives::crypto::public_key_of(self.secret_key.secret()),
        )
    }

    /// The bytes of the secret key.
    pub closed spec fn secret(self) -> Seq<u8> {
        self.secret_key.secret()
    }

    /// The address.
    pub closed spec fn spec_address(self) -> Address {
        self.address
    }

    /// The signer of the secret key whose bytes are `secret`: it keeps the key and has
    /// the address of the key's public key.
    pub open spec fn is_signer_of(self, secret: Seq<u8>) -> bool {
        &&& self.secret() == secret
        &&& self.spec_address().bytes@ == crate::primitives::address::address_bytes(
            crate::primitives::crypto::public_key_of(secret),
        )
    }

    /// The signer of a secret key.
    pub fn from_secret_key(secret_key: SecretKey) -> (signer: Self)
        ensures
            signer.is_signer_of(secret_key.secret()),
    {
        proof {
            use_type_invariant(&secret_key);
        }
        let address = Address::from_public_key(&public_key(&secret_key.bytes));
        Signer { secret_key, address }
    }

    /// The signer of the secret key `secret`.
    pub fn new(secret: [u8; 32]) -> (signer: Self)
        requires
            crate::primitives::crypto::is_secret_key(secret@),
        ensures
            signer.is_signer_of(secret@),
    {
        let secret_key = SecretKey::from_byte_array(&secret).unwrap();
        Self::from_secret_key(secret_key)
    }

    /// The signer of the secret key `secret`, which must have 32 bytes.
    pub fn from_bytes(secret: &[u8]) -> (made: Result<Self, SignerError>)
        requires
            secret@.len() == 32 ==> crate::primitives::crypto::is_secret_key(secret@),
        ensures
            match made {
                Ok(signer) => secret@.len() == 32 && signer.is_signer_of(secret@),
                Err(error) => secret@.len() != 32 && error == SignerError::InvalidLength,
            },
    {
        if secret.len() != 32 {
            return Err(SignerError::InvalidLength);
        }
        let array = array_from_slice::<32>(secret, 0);
        assert(array@ =~= secret@);
        Ok(Self::new(array))
    }

    /// The signer of the secret key that `secret` spells in hexadecimal after a leading
    /// `0x`.
    pub fn from_str(secret: &str) -> (made: Result<Self, SignerError>)
        requires
            ({
                let text = vstd::utf8::encode_utf8(secret@);
                let digits = after_prefix(text);
                &&& has_hex_prefix(text)
                &&& crate::primitives::hex_text::is_hex(digits)
                &&& digits.len() == 64
            }) ==> crate::primitives::crypto::is_secret_key(
                crate::primitives::hex_text::hex_bytes(
                    after_prefix(vstd::utf8::encode_utf8(secret@)),
                ),
            ),
        ensures
            ({
                let text = vstd::utf8::encode_utf8(secret@);
                let digits = after_prefix(text);
                match made {
                    Ok(signer) => {
                        &&& has_hex_prefix(text)
                        &&& crate::primitives::hex_text::is_hex(digits)
                        &&& digits.len() == 64
                        &&& signer.is_signer_of(crate::primitives::hex_text::hex_bytes(digits))
                    },
                    Err(SignerError::MissingPrefix) => !has_hex_prefix(text),
                    Err(SignerError::InvalidHex(error)) => {
                        &&& has_hex_prefix(text)
                        &&& !crate::primitives::hex_text::is_hex(digits)
                        &&& crate::primitives::hex_text::is_hex_failure(digits, error)
                    },
                    Err(SignerError::InvalidLength) => {
                        &&& has_hex_prefix(text)
                        &&& crate::primitives::hex_text::is_hex(digits)
                        &&& digits.len() != 64
                    },
                }
            }),
    {
        let text: &[u8] = secret.as_bytes();
        if text.len() < 2 || text[0] != 0x30 || text[1] != 0x78 {
            return Err(SignerError::MissingPrefix);
        }
        let digits: &[u8] = vstd::slice::slice_subrange(text, 2, text.len());
        match hex_decode(digits) {
            Ok(bytes) => Self::from_bytes(bytes.as_slice()),
            Err(error) => Err(SignerError::InvalidHex(error)),
        }
    }

    /// Signs `message`: the signature is over its digest, and the signer found from the
    /// signature and the message is this one.
    pub fn sign(&self, message: &[u8]) -> (signature: Signature)
        ensures
            (signature.rs()@, signature.recid()) == crate::primitives::crypto::signature_of(
                self.secret(),
                crate::primitives::crypto::sha256_of(message@),
            ),
            signature.signer_of(message@) == Some(self.spec_address().bytes@),
    {
        let prehash: [u8; 32] = sha256(message);
        self.sign_prehash(prehash)
    }

    /// Signs a digest: the signer found from the signature and the digest is this one.
    pub fn sign_prehash(&self, prehash: [u8; 32]) -> (signature: Signature)
        ensures
            (signature.rs()@, signature.recid()) == crate::primitives::crypto::signature_of(
                self.secret(),
                prehash@,
            ),
            signature.signer_of_prehash(prehash@) == Some(self.spec_address().bytes@),
    {
        proof {
            use_type_invariant(self);
            use_type_invariant(&self.secret_key);
        }
        let (rs, recid) = sign_recoverable(&self.secret_key.bytes, prehash);
        Signature::from_parts(rs, recid).unwrap()
    }

    /// The address.
    pub fn address(&self) -> (address: Address)
        ensures
            address == self.spec_address(),
            self.is_signer_of(self.secret()),
    {
        proof {
            use_type_invariant(self);
        }
        self.address
    }

    /// A signer with a freshly drawn secret key.
    pub fn random() -> (signer: Self)
        ensures
            crate::primitives::crypto::is_secret_key(signer.secret()),
            signer.is_signer_of(signer.secret()),
    {
        let secret: [u8; 32] = generate_keypair();
        Self::new(secret)
    }
}

impl Clone for Signer {
    fn clone(&self) -> (copy: Self)
        ensures
            copy == *self,
    {
        proof {
            use_type_invariant(self);
        }
        Signer { secret_key: self.secret_key.clone(), address: self.address }
    }
}

} // verus!
