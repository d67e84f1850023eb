//! What the engine asks of its surroundings.

use crate::poa::types::{ConsensusView, RawBlock};
use crate::primitives::address::Address;
use vstd::prelude::*;

verus! {

/// Knows the validators of each height. Every answer is decided by the question, so that
/// a validator comes to the same answer at all times. The spec functions tell what the
/// answers are; a verified implementation overrides them.
pub trait ValidatorManager {
    /// The number of validators that make up a quorum at a height.
    open spec fn quorum_at(&self, height: u64) -> usize {
        arbitrary()
    }

    /// Whether the holder of an address is a validator at a height.
    open spec fn validates(&self, address: Seq<u8>, height: u64) -> bool {
        arbitrary()
    }

    /// Whether it is for the holder of an address to propose in a view.
    open spec fn proposes(&self, address: Seq<u8>, view: ConsensusView) -> bool {
        arbitrary()
    }

    /// The number of validators that make up a quorum at a height.
    fn quorum(&self, height: u64) -> (quorum: usize)
        ensures
            quorum == self.quorum_at(height),
    ;

    /// Whether the holder of an address is a validator at a height.
    fn is_validator(&self, address: Address, height: u64) -> (validator: bool)
        ensures
            validator == self.validates(address.bytes@, height),
    ;

    /// Whether it is for the holder of an address to propose in a view.
    fn is_proposer(&self, address: Address, view: ConsensusView) -> (proposer: bool)
        ensures
            proposer == self.proposes(address.bytes@, view),
    ;
}

/// Builds and judges blocks. Nothing is known of the answers: asked twice, the service
/// may answer differently. The spec functions tell which answers there can be; a verified
/// implementation overrides them.
pub trait BlockService {
    /// Whether `built` is an answer to the request for a block at a height.
    open spec fn builds(&self, height: u64, built: Result<RawBlock, String>) -> bool {
        arbitrary()
    }

    /// Whether `verdict` is an answer to the request to judge a block.
    open spec fn judges(&self, raw_block: Seq<u8>, verdict: Result<(), String>) -> bool {
        arbitrary()
    }

    /// Builds a block for a height.
    fn build_block(&self, height: u64) -> (built: Result<RawBlock, String>)
        ensures
            self.builds(height, built),
    ;

    /// Judges a block.
    fn verify_block(&self, raw_block: &RawBlock) -> (verdict: Result<(), String>)
        ensures
            self.judges(raw_block.bytes@, verdict),
    ;
}

} // verus!
