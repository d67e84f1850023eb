//! What holds of keys, addresses and signatures, whoever holds them.

use crate::primitives::address::Address;
use crate::primitives::hex_text::HexError;
use crate::primitives::signature::{Signature, SignatureError};
use crate::primitives::signer::{InvalidSecretKey, SecretKey, Signer, SignerError};
use vstd::prelude::*;

verus! {

/// Whoever signs a message is found again from the signature and the message.
pub proof fn law_signer_is_found_again(
    signer: Signer,
    message: &[u8],
    signature: Signature,
    found: Result<Address, SignatureError>,
    address: Address,
)
    requires
        call_ensures(Signer::sign, (&signer, message), signature),
        call_ensures(Signature::recover, (&signature, message), found),
        call_ensures(Signer::address, (&signer,), address),
    ensures
        found == Ok::<Address, SignatureError>(address),
{
    assert(found->Ok_0.bytes =~= address.bytes);
}

/// Whoever signs a digest is found again from the signature and the digest.
pub proof fn law_signer_of_digest_is_found_again(
    signer: Signer,
    prehash: [u8; 32],
    signature: Signature,
    found: Result<Address, SignatureError>,
    address: Address,
)
    requires
        call_ensures(Signer::sign_prehash, (&signer, prehash), signature),
        call_ensures(Signature::recover_prehash, (&signature, prehash), found),
        call_ensures(Signer::address, (&signer,), address),
    ensures
        found == Ok::<Address, SignatureError>(address),
{
    assert(found->Ok_0.bytes =~= address.bytes);
}

/// To sign a message is to sign its SHA-256 digest, and to look for the signer of a
/// message is to look for the signer of its digest.
pub proof fn law_message_stands_for_its_digest(
    signer: Signer,
    message: &[u8],
    prehash: [u8; 32],
    of_message: Signature,
    of_digest: Signature,
    any: Signature,
    found: Result<Address, SignatureError>,
    found_of_digest: Result<Address, SignatureError>,
)
    requires
        prehash@ == crate::primitives::crypto::sha256_of(message@),
        call_ensures(Signer::sign, (&signer, message), of_message),
        call_ensures(Signer::sign_prehash, (&signer, prehash), of_digest),
        call_ensures(Signature::recover, (&any, message), found),
        call_ensures(Signature::recover_prehash, (&any, prehash), found_of_digest),
    ensures
        of_message == of_digest,
        found == found_of_digest,
{
    crate::primitives::signature::law_signature_is_known_by_parts(of_message, of_digest);
    if found is Ok {
        assert(found->Ok_0.bytes =~= found_of_digest->Ok_0.bytes);
    }
}

/// A signature is the one that the secret key gives to the digest of the message.
pub proof fn law_signature_comes_from_the_key(signer: Signer, message: &[u8], signature: Signature)
    requires
        call_ensures(Signer::sign, (&signer, message), signature),
    ensures
        (signature.rs()@, signature.recid()) == crate::primitives::crypto::signature_of(
            signer.secret(),
            crate::primitives::crypto::sha256_of(message@),
        ),
{
}

/// The signer that is found is the holder of the key that the signature leads to: the
/// address is made of the last twenty bytes of the digest of that key. Without a key
/// there is no signer.
pub proof fn law_found_signer_holds_the_key(
    signature: Signature,
    prehash: [u8; 32],
    found: Result<Address, SignatureError>,
)
    requires
        call_ensures(Signature::recover_prehash, (&signature, prehash), found),
    ensures
        match crate::primitives::crypto::recovered_key(
            signature.rs()@,
            signature.recid(),
            prehash@,
        ) {
            Some(key) => found matches Ok(address) && address.bytes@
                == crate::primitives::crypto::sha256_of(key).subrange(12, 32),
            None => found == Err::<Address, SignatureError>(SignatureError::Unrecoverable),
        },
{
}

/// An address is made of the last twenty bytes of the digest of the public key.
pub proof fn law_address_ends_the_digest(public_key: &[u8; 65], address: Address)
    requires
        call_ensures(Address::from_public_key, (public_key,), address),
    ensures
        address.bytes@ == crate::primitives::crypto::sha256_of(public_key@).subrange(12, 32),
{
}

/// A signer made from a secret key holds that key and has the address of its public key.
pub proof fn law_new_signer_holds_the_key(secret: [u8; 32], signer: Signer, address: Address)
    requires
        call_ensures(Signer::new, (secret,), signer),
        call_ensures(Signer::address, (&signer,), address),
    ensures
        signer.secret() == secret@,
        address.bytes@ == crate::primitives::crypto::sha256_of(
            crate::primitives::crypto::public_key_of(secret@),
        ).subrange(12, 32),
{
}

/// The copy of a signer is the same signer.
pub proof fn law_copied_signer_is_the_same(signer: Signer, copy: Signer)
    requires
        call_ensures(Signer::clone, (&signer,), copy),
    ensures
        copy == signer,
{
}

/// A signer is made from exactly 32 bytes, and then it holds them as its key.
pub proof fn law_signer_takes_32_bytes(secret: &[u8], made: Result<Signer, SignerError>)
    requires
        call_ensures(Signer::from_bytes, (secret,), made),
    ensures
        made is Ok <==> secret@.len() == 32,
        made is Ok ==> made->Ok_0.secret() == secret@,
        made is Err ==> made->Err_0 == SignerError::InvalidLength,
{
}

/// A secret key is a number above zero and below the order of the group.
pub proof fn law_secret_key_is_in_range(bytes: &[u8; 32], made: Result<SecretKey, InvalidSecretKey>)
    requires
        call_ensures(SecretKey::from_byte_array, (bytes,), made),
    ensures
        made is Ok <==> 0 < crate::primitives::crypto::be_value(bytes@)
            < 0xFFFFFFFFFFFFFFFFFFFFFFFFFFFFFFFEBAAEDCE6AF48A03BBFD25E8CD0364141nat,
        made is Ok ==> made->Ok_0.secret() == bytes@,
{
}

/// Parts make up a signature if the recovery id is at most three, and it keeps them.
pub proof fn law_signature_keeps_its_parts(
    rs: [u8; 64],
    recid: u8,
    made: Result<Signature, SignatureError>,
)
    requires
        call_ensures(Signature::from_parts, (rs, recid), made),
    ensures
        made is Ok <==> recid <= 3,
        made is Ok ==> made->Ok_0.rs() == rs && made->Ok_0.recid() == recid,
        made is Err ==> made->Err_0 == SignatureError::InvalidRecoveryId,
{
}

/// Whether a byte is one of `0` to `9`, `A` to `F` or `a` to `f`.
pub open spec fn spells_digit(c: u8) -> bool {
    48 <= c <= 57 || 65 <= c <= 70 || 97 <= c <= 102
}

/// The number from zero to fifteen that a digit spells.
pub open spec fn spelled(c: u8) -> int {
    if 97 <= c {
        c - 87
    } else if 65 <= c {
        c - 55
    } else {
        c - 48
    }
}

/// Whether a text starts with a zero and a small x.
pub open spec fn starts_hexadecimal(text: Seq<u8>) -> bool {
    text.len() >= 2 && text[0] == 48 && text[1] == 120
}

/// Whether all bytes behind the first two are digits.
pub open spec fn goes_on_in_digits(text: Seq<u8>) -> bool {
    forall|i: int| 2 <= i < text.len() ==> spells_digit(#[trigger] text[i])
}

/// A signer is made exactly from a text of `0x` and 64 digits, of which each pair spells
/// one byte of the key. Every other text is refused for the first reason that applies:
/// no `0x`, an odd number of digits, something that is no digit, too many or too few
/// digits.
pub proof fn law_signer_is_spelled_in_hexadecimal(secret: &str, made: Result<Signer, SignerError>)
    requires
        call_ensures(Signer::from_str, (secret,), made),
    ensures
        ({
            let text = vstd::utf8::encode_utf8(secret@);
            &&& made is Ok <==> starts_hexadecimal(text) && text.len() == 66 && goes_on_in_digits(
                text,
            )
            &&& made is Ok ==> {
                let key = made->Ok_0.secret();
                &&& key.len() == 32
                &&& forall|k: int|
                    0 <= k < 32 ==> #[trigger] key[k] == 16 * spelled(text[2 + 2 * k]) + spelled(
                        text[3 + 2 * k],
                    )
            }
            &&& made == Err::<Signer, SignerError>(SignerError::MissingPrefix)
                <==> !starts_hexadecimal(text)
            &&& made == Err::<Signer, SignerError>(SignerError::InvalidHex(HexError::OddLength))
                <==> starts_hexadecimal(text) && text.len() % 2 == 1
            &&& made == Err::<Signer, SignerError>(SignerError::InvalidLength)
                <==> starts_hexadecimal(text) && text.len() % 2 == 0 && goes_on_in_digits(text)
                && text.len() != 66
            &&& (made is Err && made->Err_0 is InvalidHex && !(
            made->Err_0->InvalidHex_0 is OddLength)) ==> {
                let error = made->Err_0->InvalidHex_0;
                &&& error is InvalidHexCharacter
                &&& 2 + error->index < text.len()
                &&& !spells_digit(text[2 + error->index])
                &&& error->c == text[2 + error->index] as char
                &&& forall|i: int| 2 <= i < 2 + error->index ==> spells_digit(#[trigger] text[i])
            }
        }),
{
    let text = vstd::utf8::encode_utf8(secret@);
    let digits = text.subrange(2, text.len() as int);
    if starts_hexadecimal(text) {
        assert(forall|i: int| 0 <= i < digits.len() ==> #[trigger] digits[i] == text[i + 2]);
        assert(forall|i: int| 2 <= i < text.len() ==> #[trigger] text[i] == digits[i - 2]);
        if made is Ok {
            let key = made->Ok_0.secret();
            assert forall|k: int| 0 <= k < 32 implies #[trigger] key[k] == 16 * spelled(
                text[2 + 2 * k],
            ) + spelled(text[3 + 2 * k]) by {
                assert(digits[2 * k] == text[2 + 2 * k]);
                assert(digits[2 * k + 1] == text[3 + 2 * k]);
            }
        }
    }
}

/// A signer made from a key that is known to be one holds that key.
pub proof fn law_signer_of_key_holds_it(key: SecretKey, signer: Signer, address: Address)
    requires
        call_ensures(Signer::from_secret_key, (key,), signer),
        call_ensures(Signer::address, (&signer,), address),
    ensures
        signer.secret() == key.secret(),
        address == signer.spec_address(),
        address.bytes@ == crate::primitives::crypto::sha256_of(
            crate::primitives::crypto::public_key_of(key.secret()),
        ).subrange(12, 32),
{
}

/// A signer with a freshly drawn key holds a key that is in range, and the address of its
/// public key.
pub proof fn law_drawn_key_is_in_range(signer: Signer)
    requires
        call_ensures(Signer::random, (), signer),
    ensures
        signer.secret().len() == 32,
        0 < crate::primitives::crypto::be_value(signer.secret())
            < 0xFFFFFFFFFFFFFFFFFFFFFFFFFFFFFFFEBAAEDCE6AF48A03BBFD25E8CD0364141nat,
        signer.spec_address().bytes@ == crate::primitives::crypto::sha256_of(
            crate::primitives::crypto::public_key_of(signer.secret()),
        ).subrange(12, 32),
{
}

/// Two addresses are the same exactly if all their bytes are.
pub proof fn law_addresses_go_by_their_bytes(a: Address, b: Address, same: bool)
    requires
        call_ensures(Address::eq, (&a, &b), same),
    ensures
        same <==> a.bytes@ == b.bytes@,
{
    if a.bytes@ == b.bytes@ {
        assert(a.bytes =~= b.bytes);
    }
}

/// The bytes of a signature are appended: the compact signature, then the recovery id.
pub proof fn law_signature_is_appended(signature: Signature, buffer: &mut Vec<u8>)
    requires
        call_ensures(Signature::encode, (&signature, buffer), ()),
    ensures
        final(buffer)@ == old(buffer)@ + signature.rs()@ + seq![signature.recid()],
{
    assert(old(buffer)@ + signature.rs()@.push(signature.recid()) =~= old(buffer)@
        + signature.rs()@ + seq![signature.recid()]);
}

/// Bytes and texts that do not spell 32 bytes at all, and those that spell a key, are
/// always answered; only 32 bytes that are no key are not to be given.
pub proof fn law_signers_can_be_asked_for(secret: &[u8], text: &str, key: [u8; 32])
    ensures
        secret@.len() != 32 ==> call_requires(Signer::from_bytes, (secret,)),
        !starts_hexadecimal(vstd::utf8::encode_utf8(text@)) ==> call_requires(
            Signer::from_str,
            (text,),
        ),
        vstd::utf8::encode_utf8(text@).len() != 66 ==> call_requires(Signer::from_str, (text,)),
        0 < crate::primitives::crypto::be_value(key@)
            < 0xFFFFFFFFFFFFFFFFFFFFFFFFFFFFFFFEBAAEDCE6AF48A03BBFD25E8CD0364141nat
            ==> call_requires(Signer::new, (key,)),
{
    let bytes = vstd::utf8::encode_utf8(text@);
    if bytes.len() >= 2 {
        assert(bytes.subrange(2, bytes.len() as int).len() == bytes.len() - 2);
    }
}

} // verus!
