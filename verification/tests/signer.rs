use tonic_ibft::primitives::hex_text::HexError;
use tonic_ibft::primitives::signature::{Signature, SignatureError};
use tonic_ibft::primitives::signer::{InvalidSecretKey, SecretKey, Signer, SignerError};

const CURVE_ORDER: [u8; 32] = [
    0xff, 0xff, 0xff, 0xff, 0xff, 0xff, 0xff, 0xff, 0xff, 0xff, 0xff, 0xff, 0xff, 0xff, 0xff, 0xfe,
    0xba, 0xae, 0xdc, 0xe6, 0xaf, 0x48, 0xa0, 0x3b, 0xbf, 0xd2, 0x5e, 0x8c, 0xd0, 0x36, 0x41, 0x41,
];

fn secret(last: u8) -> [u8; 32] {
    let mut bytes = [0u8; 32];
    bytes[31] = last;
    bytes
}

fn hex_of(bytes: &[u8]) -> String {
    let mut text = String::new();
    for byte in bytes {
        text.push_str(&format!("{:02x}", byte));
    }
    text
}

fn error_of(made: Result<Signer, SignerError>) -> SignerError {
    match made {
        Ok(_) => panic!("a signer was made"),
        Err(error) => error,
    }
}

fn signer_of(made: Result<Signer, SignerError>) -> Signer {
    match made {
        Ok(signer) => signer,
        Err(error) => panic!("no signer was made: {:?}", error),
    }
}

#[test]
fn sign_and_verify() {
    let signer = Signer::random();
    let message = &[1, 2, 3];

    let signature = signer.sign(message);
    assert_eq!(signature.recover(message).unwrap(), signer.address());
}

#[test]
fn address_is_taken_from_the_public_key() {
    let one = Signer::new(secret(1));
    assert_eq!(hex_of(&one.address().bytes), "35e97a5e078a5a0f28ec96d547bfee9ace803ac0");
    let two = Signer::new(secret(2));
    assert_eq!(hex_of(&two.address().bytes), "b2e734b5d8da089318d0d2b076c19f59c450855a");
    assert_ne!(one.address(), two.address());
    assert_eq!(one.clone().address(), one.address());
}

#[test]
fn signature_is_deterministic() {
    let signer = Signer::new(secret(1));
    let signature = signer.sign(b"Satoshi Nakamoto");
    let mut encoded = Vec::new();
    signature.encode(&mut encoded);
    assert_eq!(
        hex_of(&encoded),
        "934b1ea10a4b3c1757e2b0c017d0b6143ce3c9a7e6a4a49860d7a6ab210ee3d8\
         2442ce9d2b916064108014783e923ec36b49743e2ffa1c4496f01a512aafd9e501"
    );
}

#[test]
fn prehash_is_signed_as_it_is() {
    let signer = Signer::new(secret(3));
    let prehash = [7u8; 32];
    let signature = signer.sign_prehash(prehash);
    assert_eq!(signature.recover_prehash(prehash), Ok(signer.address()));
    assert_ne!(signature.recover(&prehash), Ok(signer.address()));
}

#[test]
fn another_message_leads_to_another_signer() {
    let signer = Signer::new(secret(3));
    let signature = signer.sign(b"message");
    assert_ne!(signature.recover(b"another message"), Ok(signer.address()));
}

#[test]
fn secret_keys_lie_below_the_curve_order() {
    assert!(matches!(SecretKey::from_byte_array(&secret(0)), Err(InvalidSecretKey)));
    assert!(matches!(SecretKey::from_byte_array(&CURVE_ORDER), Err(InvalidSecretKey)));
    let mut largest = CURVE_ORDER;
    largest[31] -= 1;
    let key = match SecretKey::from_byte_array(&largest) {
        Ok(key) => key,
        Err(_) => panic!("the largest secret key is refused"),
    };
    let address = Signer::from_secret_key(key).address();
    assert_eq!(address, Signer::new(largest).address());
}

#[test]
fn signer_from_bytes() {
    let signer = signer_of(Signer::from_bytes(&secret(1)));
    assert_eq!(signer.address(), Signer::new(secret(1)).address());
    assert_eq!(error_of(Signer::from_bytes(&[1; 31])), SignerError::InvalidLength);
    assert_eq!(error_of(Signer::from_bytes(&[1; 33])), SignerError::InvalidLength);
    assert_eq!(error_of(Signer::from_bytes(&[])), SignerError::InvalidLength);
}

#[test]
fn signer_from_text() {
    let text = format!("0x{}", "Ab".repeat(32));
    assert_eq!(signer_of(Signer::from_str(&text)).address(), Signer::new([0xab; 32]).address());
    let mixed = format!("0x{}1f", "00".repeat(31));
    assert_eq!(signer_of(Signer::from_str(&mixed)).address(), Signer::new(secret(31)).address());
}

#[test]
fn signer_from_text_without_prefix() {
    assert_eq!(error_of(Signer::from_str(&"ab".repeat(32))), SignerError::MissingPrefix);
    assert_eq!(error_of(Signer::from_str("0")), SignerError::MissingPrefix);
    assert_eq!(error_of(Signer::from_str("")), SignerError::MissingPrefix);
    assert_eq!(error_of(Signer::from_str("0X00")), SignerError::MissingPrefix);
}

#[test]
fn signer_from_text_that_is_not_hexadecimal() {
    assert_eq!(
        error_of(Signer::from_str("0xabc")),
        SignerError::InvalidHex(HexError::OddLength)
    );
    assert_eq!(
        error_of(Signer::from_str("0xa")),
        SignerError::InvalidHex(HexError::OddLength)
    );
    assert_eq!(
        error_of(Signer::from_str("0x0g1h")),
        SignerError::InvalidHex(HexError::InvalidHexCharacter { c: 'g', index: 1 })
    );
    assert_eq!(
        error_of(Signer::from_str("0x\u{e9}")),
        SignerError::InvalidHex(HexError::InvalidHexCharacter { c: '\u{c3}', index: 0 })
    );
}

#[test]
fn signer_from_text_of_another_length() {
    assert_eq!(error_of(Signer::from_str("0x")), SignerError::InvalidLength);
    assert_eq!(error_of(Signer::from_str("0xabcd")), SignerError::InvalidLength);
    let long = format!("0x{}", "ab".repeat(33));
    assert_eq!(error_of(Signer::from_str(&long)), SignerError::InvalidLength);
}

#[test]
fn signature_from_parts() {
    for recid in 0..=3u8 {
        assert!(Signature::from_parts([1; 64], recid).is_ok());
    }
    assert!(matches!(
        Signature::from_parts([1; 64], 4),
        Err(SignatureError::InvalidRecoveryId)
    ));
}

#[test]
fn signature_without_signer() {
    let signature = match Signature::from_parts([0; 64], 0) {
        Ok(signature) => signature,
        Err(error) => panic!("{:?}", error),
    };
    assert_eq!(signature.recover(b"message"), Err(SignatureError::Unrecoverable));
}

#[test]
fn random_signers_differ() {
    assert_ne!(Signer::random().address(), Signer::random().address());
}
