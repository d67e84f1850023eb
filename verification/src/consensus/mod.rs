//! The single-round engine: blocks are agreed on in round zero of a height.

pub mod backend;
pub mod ibft;
pub mod laws;
pub mod message_laws;
pub mod round_laws;
pub mod types;
