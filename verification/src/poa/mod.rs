//! The proof-of-authority engine.

pub mod backend;
pub mod ibft;
pub mod laws;
pub mod message_laws;
pub mod round;
pub mod round_laws;
pub mod run;
pub mod run_laws;
pub mod types;
pub mod verification;
pub mod verification_laws;
pub mod watch;
pub mod watch_laws;
