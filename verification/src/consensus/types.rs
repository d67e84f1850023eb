//! Blocks and messages of the single-round engine.

use crate::primitives::address::Address;
use crate::primitives::bytes::{append_bytes, array_eq};
use crate::primitives::crypto::sha256;
use crate::primitives::signature::{Signature, SignatureError};
use crate::primitives::signer::Signer;
use vstd::prelude::*;

verus! {

/// Opens the signed bytes of a proposal.
pub const PROPOSAL_TAG: u8 = 0;

/// Opens the signed bytes of a prepare message.
pub const PREPARE_TAG: u8 = 1;

/// Opens the signed bytes of a commit message.
pub const COMMIT_TAG: u8 = 2;

/// A point in the run of the protocol: a height of the chain and a round at that height.
#[derive(Debug, Clone, Copy, PartialEq, Eq, Structural)]
pub struct ConsensusView {
    pub height: u64,
    pub round: u32,
}

/// Why a round fails.
#[derive(Debug, Clone, PartialEq, Eq)]
pub enum IBFTError {
    /// The round of the proposed block is not that of the view.
    IncorrectProposedBlockRound,
    /// The digest of the proposal is not that of its block.
    IncorrectProposalDigest,
    /// The block verifier refuses the block.
    InvalidBlock(String),
    /// The block builder could not build a block.
    BlockBuild(String),
}

/// An encoded block.
#[derive(Debug, Clone, PartialEq, Eq)]
pub struct RawBlock {
    pub bytes: Vec<u8>,
}

/// A block together with the round in which it is proposed.
#[derive(Debug, Clone, PartialEq, Eq)]
pub struct ProposedBlock {
    pub raw_block: RawBlock,
    pub round: u32,
}

impl ProposedBlock {
    /// The digest of the block in its round: SHA-256 over the encoded block and, behind
    /// it, the round.
    pub open spec fn spec_digest(self) -> Seq<u8> {
        crate::primitives::crypto::sha256_of(
            self.raw_block.bytes@ + vstd::bytes::spec_u32_to_le_bytes(self.round),
        )
    }

    /// The digest of the block in its round.
    pub fn digest(&self) -> (digest: [u8; 32])
        ensures
            digest@ == self.spec_digest(),
    {
        let mut data: Vec<u8> = Vec::new();
        append_bytes(&mut data, self.raw_block.bytes.as_slice());
        append_bytes(&mut data, vstd::bytes::u32_to_le_bytes(self.round).as_slice());
        assert(data@ =~= self.raw_block.bytes@ + vstd::bytes::spec_u32_to_le_bytes(self.round));
        sha256(data.as_slice())
    }
}

/// Whether `signature` is the one that `signer` gives to `payload`.
pub open spec fn is_signed_by(signature: Signature, signer: Signer, payload: Seq<u8>) -> bool {
    (signature.rs()@, signature.recid()) == crate::primitives::crypto::signature_of(
        signer.secret(),
        crate::primitives::crypto::sha256_of(payload),
    )
}

/// The signed bytes of a message that vouches for the block with digest `digest`.
pub open spec fn vote_payload(tag: u8, view: ConsensusView, digest: Seq<u8>) -> Seq<u8> {
    seq![tag] + vstd::bytes::spec_u64_to_le_bytes(view.height)
        + vstd::bytes::spec_u32_to_le_bytes(view.round) + digest
}

/// The signed bytes of a message that vouches for the block with digest `digest`.
fn encode_vote(tag: u8, view: ConsensusView, digest: &[u8; 32]) -> (payload: Vec<u8>)
    ensures
        payload@ == vote_payload(tag, view, digest@),
{
    let mut payload: Vec<u8> = Vec::new();
    payload.push(tag);
    append_bytes(&mut payload, vstd::bytes::u64_to_le_bytes(view.height).as_slice());
    append_bytes(&mut payload, vstd::bytes::u32_to_le_bytes(view.round).as_slice());
    append_bytes(&mut payload, digest.as_slice());
    assert(payload@ =~= vote_payload(tag, view, digest@));
    payload
}

/// The proposal of a block in a view, signed over the view and the digest.
#[derive(Debug, Clone)]
pub struct ProposalMessageSigned {
    pub view: ConsensusView,
    pub proposed_block: ProposedBlock,
    pub proposed_block_digest: [u8; 32],
    pub signature: Signature,
}

impl ProposalMessageSigned {
    /// The signed bytes.
    pub open spec fn payload(self) -> Seq<u8> {
        vote_payload(PROPOSAL_TAG, self.view, self.proposed_block_digest@)
    }

    /// The bytes of the signer's address, if the signature leads to one.
    pub open spec fn signer(self) -> Option<Seq<u8>> {
        self.signature.signer_of(self.payload())
    }

    /// Whether this is the proposal of `signer` for a block in a view.
    pub open spec fn is_proposal_of(
        self,
        view: ConsensusView,
        raw_block: RawBlock,
        signer: Signer,
    ) -> bool {
        &&& self.view == view
        &&& self.proposed_block == (ProposedBlock { raw_block, round: view.round })
        &&& self.has_block_digest()
        &&& is_signed_by(self.signature, signer, self.payload())
        &&& self.signer() == Some(signer.spec_address().bytes@)
    }

    /// Whether the digest is that of the proposed block in its round.
    pub open spec fn has_block_digest(self) -> bool {
        self.proposed_block_digest@ == self.proposed_block.spec_digest()
    }

    /// Signs the proposal of a block in a view.
    pub fn new(view: ConsensusView, raw_block: RawBlock, signer: &Signer) -> (proposal: Self)
        ensures
            proposal.is_proposal_of(view, raw_block, *signer),
    {
        let proposed_block = ProposedBlock { raw_block, round: view.round };
        let proposed_block_digest: [u8; 32] = proposed_block.digest();
        let payload: Vec<u8> = encode_vote(PROPOSAL_TAG, view, &proposed_block_digest);
        let signature = signer.sign(payload.as_slice());
        ProposalMessageSigned { view, proposed_block, proposed_block_digest, signature }
    }

    /// Whether the digest is that of the proposed block in its round.
    pub fn verify_digest(&self) -> (valid: bool)
        ensures
            valid == self.has_block_digest(),
    {
        let digest: [u8; 32] = self.proposed_block.digest();
        assert(self.proposed_block_digest@ == digest@ ==> self.proposed_block_digest =~= digest);
        array_eq(&self.proposed_block_digest, &digest)
    }

    /// The address of the signer.
    pub fn recover_signer(&self) -> (signer: Result<Address, SignatureError>)
        ensures
            match signer {
                Ok(address) => self.signer() == Some(address.bytes@),
                Err(error) => self.signer() is None && error == SignatureError::Unrecoverable,
            },
    {
        let payload: Vec<u8> = encode_vote(PROPOSAL_TAG, self.view, &self.proposed_block_digest);
        self.signature.recover(payload.as_slice())
    }
}

/// The wish to prepare the block with a digest in a view.
#[derive(Debug, Clone, Copy)]
pub struct PrepareMessageSigned {
    pub view: ConsensusView,
    pub proposed_block_digest: [u8; 32],
    pub signature: Signature,
}

impl PrepareMessageSigned {
    /// The signed bytes.
    pub open spec fn payload(self) -> Seq<u8> {
        vote_payload(PREPARE_TAG, self.view, self.proposed_block_digest@)
    }

    /// The bytes of the signer's address, if the signature leads to one.
    pub open spec fn signer(self) -> Option<Seq<u8>> {
        self.signature.signer_of(self.payload())
    }

    /// Whether this is the prepare message of `signer` for a view and a digest.
    pub open spec fn is_prepare_of(
        self,
        view: ConsensusView,
        digest: [u8; 32],
        signer: Signer,
    ) -> bool {
        &&& self.view == view
        &&& self.proposed_block_digest == digest
        &&& is_signed_by(self.signature, signer, self.payload())
        &&& self.signer() == Some(signer.spec_address().bytes@)
    }

    /// Signs the prepare message for a view and a digest.
    pub fn new(view: ConsensusView, proposed_block_digest: [u8; 32], signer: &Signer) -> (prepare:
        Self)
        ensures
            prepare.is_prepare_of(view, proposed_block_digest, *signer),
    {
        let payload: Vec<u8> = encode_vote(PREPARE_TAG, view, &proposed_block_digest);
        let signature = signer.sign(payload.as_slice());
        PrepareMessageSigned { view, proposed_block_digest, signature }
    }

    /// The address of the signer.
    pub fn recover_signer(&self) -> (signer: Result<Address, SignatureError>)
        ensures
            match signer {
                Ok(address) => self.signer() == Some(address.bytes@),
                Err(error) => self.signer() is None && error == SignatureError::Unrecoverable,
            },
    {
        let payload: Vec<u8> = encode_vote(PREPARE_TAG, self.view, &self.proposed_block_digest);
        self.signature.recover(payload.as_slice())
    }
}

/// The wish to commit the block with a digest in a view, and the seal under the digest.
#[derive(Debug, Clone, Copy)]
pub struct CommitMessageSigned {
    pub view: ConsensusView,
    pub proposed_block_digest: [u8; 32],
    pub commit_seal: Signature,
    pub signature: Signature,
}

impl CommitMessageSigned {
    /// The signed bytes.
    pub open spec fn payload(self) -> Seq<u8> {
        vote_payload(COMMIT_TAG, self.view, self.proposed_block_digest@)
            + self.commit_seal.encoding()
    }

    /// The bytes of the signer's address, if the signature leads to one.
    pub open spec fn signer(self) -> Option<Seq<u8>> {
        self.signature.signer_of(self.payload())
    }

    /// Whether this is the commit message of `signer` for a view and a digest.
    pub open spec fn is_commit_of(
        self,
        view: ConsensusView,
        digest: [u8; 32],
        signer: Signer,
    ) -> bool {
        &&& self.view == view
        &&& self.proposed_block_digest == digest
        &&& (self.commit_seal.rs()@, self.commit_seal.recid())
            == crate::primitives::crypto::signature_of(signer.secret(), digest@)
        &&& self.commit_seal.signer_of_prehash(digest@) == Some(signer.spec_address().bytes@)
        &&& is_signed_by(self.signature, signer, self.payload())
        &&& self.signer() == Some(signer.spec_address().bytes@)
    }

    /// Signs the commit message for a view and a digest, with the seal under the digest.
    pub fn new(view: ConsensusView, proposed_block_digest: [u8; 32], signer: &Signer) -> (commit:
        Self)
        ensures
            commit.is_commit_of(view, proposed_block_digest, *signer),
    {
        let commit_seal = signer.sign_prehash(proposed_block_digest);
        let mut payload: Vec<u8> = encode_vote(COMMIT_TAG, view, &proposed_block_digest);
        commit_seal.encode(&mut payload);
        let signature = signer.sign(payload.as_slice());
        CommitMessageSigned { view, proposed_block_digest, commit_seal, signature }
    }

    /// The address of the signer.
    pub fn recover_signer(&self) -> (signer: Result<Address, SignatureError>)
        ensures
            match signer {
                Ok(address) => self.signer() == Some(address.bytes@),
                Err(error) => self.signer() is None && error == SignatureError::Unrecoverable,
            },
    {
        let mut payload: Vec<u8> = encode_vote(COMMIT_TAG, self.view, &self.proposed_block_digest);
        self.commit_seal.encode(&mut payload);
        self.signature.recover(payload.as_slice())
    }
}

/// The seals of a finalized block.
pub type CommitSeals = Vec<Signature>;

/// A block that the validators agreed on, with their seals.
#[derive(Debug, Clone)]
pub struct FinalizedBlock {
    pub proposed_block: ProposedBlock,
    pub commit_seals: CommitSeals,
}

impl FinalizedBlock {
    /// Seals a block.
    pub fn new(proposed_block: ProposedBlock, commit_seals: CommitSeals) -> (block: Self)
        ensures
            block == (FinalizedBlock { proposed_block, commit_seals }),
    {
        FinalizedBlock { proposed_block, commit_seals }
    }
}

} // verus!
