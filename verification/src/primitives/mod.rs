//! Keys, addresses and signatures shared by the consensus engines.

pub mod address;
pub mod bytes;
pub mod crypto;
pub mod hex_text;
pub mod laws;
pub mod signature;
pub mod signer;
