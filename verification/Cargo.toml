[package]
name = "tonic_ibft"
version = "0.1.0"
edition = "2021"
publish = false

[dependencies]
anyhow = "1"
hex = "0.4"
secp256k1 = { version = "0.30", features = ["global-context", "rand", "recovery"] }
sha2 = "0.10"
thiserror = "1"
tokio = { version = "1", features = ["macros", "rt", "sync", "time"] }
tracing = "0.1"
