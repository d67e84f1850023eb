//! Hashing and secp256k1, as far as the consensus engines use them.
//!
//! Every function of this module that is marked `external_body` makes one outside
//! computation. Its contract is taken from the outside crate, not proved here.

use vstd::prelude::*;

verus! {

/// The number that `bytes` spell out, most significant byte first.
pub open spec fn be_value(bytes: Seq<u8>) -> nat
    decreases bytes.len(),
{
    if bytes.len() == 0 {
        0
    } else {
        be_value(bytes.drop_last()) * 256 + bytes.last() as nat
    }
}

/// The order of the secp256k1 group.
pub open spec fn curve_order() -> nat {
    0xFFFFFFFFFFFFFFFFFFFFFFFFFFFFFFFEBAAEDCE6AF48A03BBFD25E8CD0364141nat
}

/// Whether `bytes` are the 32 bytes of a secret key: a number from one up to, but
/// without, the order of the group.
pub open spec fn is_secret_key(bytes: Seq<u8>) -> bool {
    &&& bytes.len() == 32
    &&& 0 < be_value(bytes) < curve_order()
}

/// The SHA-256 digest of `data`.
pub uninterp spec fn sha256_of(data: Seq<u8>) -> Seq<u8>;

/// The uncompressed encoding of the public key of the secret key `secret`.
pub uninterp spec fn public_key_of(secret: Seq<u8>) -> Seq<u8>;

/// The compact recoverable signature, with its recovery id, that the secret key
/// `secret` gives to `prehash` with the deterministic nonce of RFC 6979.
pub uninterp spec fn signature_of(secret: Seq<u8>, prehash: Seq<u8>) -> (Seq<u8>, u8);

/// The uncompressed encoding of the public key under which the compact signature `rs`
/// with recovery id `recid` signs `prehash`, if there is one.
pub uninterp spec fn recovered_key(rs: Seq<u8>, recid: u8, prehash: Seq<u8>) -> Option<Seq<u8>>;

/// The failures of secp256k1.
#[verifier::external_type_specification]
#[verifier::external_body]
pub struct ExSecp256k1Error(secp256k1::Error);

/// Calls `sha2::Sha256::digest`: the result is the SHA-256 digest of `data`.
#[verifier::external_body]
pub(crate) fn sha256(data: &[u8]) -> (digest: [u8; 32])
    ensures
        digest@ == sha256_of(data@),
{
    <sha2::Sha256 as sha2::Digest>::digest(data).into()
}

/// Calls `secp256k1::SecretKey::from_byte_array`: it accepts exactly the encodings of
/// the numbers between zero and the order of the group, both left out.
#[verifier::external_body]
pub(crate) fn check_secret_key(secret: &[u8; 32]) -> (checked: Result<(), secp256k1::Error>)
    ensures
        checked is Ok <==> is_secret_key(secret@),
{
    secp256k1::SecretKey::from_byte_array(secret).map(|_key| ())
}

/// Calls `secp256k1::PublicKey::from_secret_key_global` and encodes the key
/// uncompressed: the result depends on the secret key alone.
#[verifier::external_body]
pub(crate) fn public_key(secret: &[u8; 32]) -> (key: [u8; 65])
    requires
        is_secret_key(secret@),
    ensures
        key@ == public_key_of(secret@),
{
    let secret_key = secp256k1::SecretKey::from_byte_array(secret).expect("valid secret key");
    secp256k1::PublicKey::from_secret_key_global(&secret_key).serialize_uncompressed()
}

/// Calls `sign_ecdsa_recoverable` of the global secp256k1 context: the nonce is derived
/// from the two arguments, so they alone decide the signature; its recovery id is at
/// most three; and recovering a key from it with the same prehash gives back the public
/// key of `secret`.
#[verifier::external_body]
pub(crate) fn sign_recoverable(secret: &[u8; 32], prehash: [u8; 32]) -> (signed: ([u8; 64], u8))
    requires
        is_secret_key(secret@),
    ensures
        (signed.0@, signed.1) == signature_of(secret@, prehash@),
        signed.1 <= 3,
        recovered_key(signed.0@, signed.1, prehash@) == Some(public_key_of(secret@)),
{
    let secret_key = secp256k1::SecretKey::from_byte_array(secret).expect("valid secret key");
    let message = secp256k1::Message::from_digest(prehash);
    let signature = secp256k1::SECP256K1.sign_ecdsa_recoverable(&message, &secret_key);
    let (recid, rs) = signature.serialize_compact();
    (rs, i32::from(recid) as u8)
}

/// Calls `recover_ecdsa` of the global secp256k1 context: whether a key comes back, and
/// which, is decided by the three arguments.
#[verifier::external_body]
pub(crate) fn recover_public_key(rs: &[u8; 64], recid: u8, prehash: [u8; 32]) -> (key: Result<
    [u8; 65],
    secp256k1::Error,
>)
    ensures
        match key {
            Ok(key) => recovered_key(rs@, recid, prehash@) == Some(key@),
            Err(_) => recovered_key(rs@, recid, prehash@) is None,
        },
{
    let recid = secp256k1::ecdsa::RecoveryId::try_from(i32::from(recid))?;
    let signature = secp256k1::ecdsa::RecoverableSignature::from_compact(rs, recid)?;
    let message = secp256k1::Message::from_digest(prehash);
    Ok(secp256k1::SECP256K1.recover_ecdsa(&message, &signature)?.serialize_uncompressed())
}

/// Calls `secp256k1::generate_keypair` with the thread's random number generator:
/// whatever comes up is the encoding of a secret key.
#[verifier::external_body]
pub(crate) fn generate_keypair() -> (secret: [u8; 32])
    ensures
        is_secret_key(secret@),
{
    secp256k1::generate_keypair(&mut secp256k1::rand::thread_rng()).0.secret_bytes()
}

} // verus!
