//! Blocks, messages and certificates of the proof-of-authority engine.

use crate::primitives::address::Address;
use crate::primitives::bytes::{append_bytes, array_eq};
use crate::primitives::crypto::sha256;
use crate::primitives::signature::{Signature, SignatureError};
use crate::primitives::signer::Signer;
use vstd::prelude::*;

verus! {

/// Opens the signed bytes of a proposal.
pub const PROPOSAL_TAG: u8 = 0;

/// Opens the signed bytes of a prepare message.
pub const PREPARE_TAG: u8 = 1;

/// Opens the signed bytes of a commit message.
pub const COMMIT_TAG: u8 = 2;

/// Opens the signed bytes of a round change message.
pub const ROUND_CHANGE_TAG: u8 = 3;

/// A point in the run of the protocol: a height of the chain and a round at that height.
#[derive(Debug, Clone, Copy, PartialEq, Eq, Structural)]
pub struct ConsensusView {
    pub height: u64,
    pub round: u8,
}

impl ConsensusView {
    /// The view of a height and a round.
    pub fn new(height: u64, round: u8) -> (view: Self)
        ensures
            view == (ConsensusView { height, round }),
    {
        ConsensusView { height, round }
    }

    /// The bytes that stand for the view in signed messages.
    pub open spec fn encoding(self) -> Seq<u8> {
        vstd::bytes::spec_u64_to_le_bytes(self.height).push(self.round)
    }

    /// Appends the bytes that stand for the view.
    pub fn encode(&self, buffer: &mut Vec<u8>)
        ensures
            final(buffer)@ == old(buffer)@ + self.encoding(),
    {
        append_bytes(buffer, vstd::bytes::u64_to_le_bytes(self.height).as_slice());
        buffer.push(self.round);
        assert(buffer@ =~= old(buffer)@ + self.encoding());
    }
}

/// Why a round of the protocol fails, or why a proposal is refused.
#[derive(Debug, Clone, PartialEq, Eq)]
pub enum IBFTError {
    /// The block service could not build a block.
    BlockBuild(String),
    /// The digest of a proposal is not that of its block.
    IncorrectProposalDigest,
    /// The block service refuses the proposed block.
    InvalidProposalBlock(String),
    /// A proposal of a later round carries no round change certificate.
    MissingRoundChangeCertificate,
    /// The certificate has fewer round changes than the quorum.
    RoundChangeCertificateQuorumNotReached,
    /// A round change of the certificate is not acceptable.
    InvalidRoundChangeInCertificate,
    /// Two round changes of the certificate have the same signer.
    DuplicateRoundChangeInCertificate,
}

/// An encoded block.
#[derive(Debug, Clone, PartialEq, Eq)]
pub struct RawBlock {
    pub bytes: Vec<u8>,
}

/// The digest of a block that is proposed in `round`: SHA-256 over the encoded block
/// and, behind it, the round.
pub open spec fn block_digest(raw_block: Seq<u8>, round: u8) -> Seq<u8> {
    crate::primitives::crypto::sha256_of(raw_block.push(round))
}

/// The digest of a block that is proposed in `round`.
pub fn digest_block(raw_block: &RawBlock, round: u8) -> (digest: [u8; 32])
    ensures
        digest@ == block_digest(raw_block.bytes@, round),
{
    let mut data: Vec<u8> = Vec::new();
    append_bytes(&mut data, raw_block.bytes.as_slice());
    data.push(round);
    assert(data@ =~= raw_block.bytes@.push(round));
    sha256(data.as_slice())
}

/// A block together with the round in which it is proposed.
#[derive(Debug, Clone, PartialEq, Eq)]
pub struct ProposedBlock {
    pub raw_block: RawBlock,
    pub round: u8,
}

impl ProposedBlock {
    /// The digest of the block in its round.
    pub open spec fn spec_digest(self) -> Seq<u8> {
        block_digest(self.raw_block.bytes@, self.round)
    }

    /// The digest of the block in its round.
    pub fn digest(&self) -> (digest: [u8; 32])
        ensures
            digest@ == self.spec_digest(),
    {
        digest_block(&self.raw_block, self.round)
    }
}

/// Whether `signature` is the one that `signer` gives to `payload`.
pub open spec fn is_signed_by(signature: Signature, signer: Signer, payload: Seq<u8>) -> bool {
    (signature.rs()@, signature.recid()) == crate::primitives::crypto::signature_of(
        signer.secret(),
        crate::primitives::crypto::sha256_of(payload),
    )
}

/// The signed bytes of a message that vouches for the block with digest `digest`.
pub open spec fn vote_payload(tag: u8, view: ConsensusView, digest: Seq<u8>) -> Seq<u8> {
    seq![tag] + view.encoding() + digest
}

/// The signed bytes of a message that vouches for the block with digest `digest`.
fn encode_vote(tag: u8, view: ConsensusView, digest: &[u8; 32]) -> (payload: Vec<u8>)
    ensures
        payload@ == vote_payload(tag, view, digest@),
{
    let mut payload: Vec<u8> = Vec::new();
    payload.push(tag);
    view.encode(&mut payload);
    append_bytes(&mut payload, digest.as_slice());
    assert(payload@ =~= vote_payload(tag, view, digest@));
    payload
}

/// What remains of a signed proposal without its block and its certificate.
#[derive(Debug, Clone, Copy)]
pub struct ProposalMetadata {
    pub view: ConsensusView,
    pub proposed_block_digest: [u8; 32],
    pub signature: Signature,
}

impl ProposalMetadata {
    /// The signed bytes.
    pub open spec fn payload(self) -> Seq<u8> {
        vote_payload(PROPOSAL_TAG, self.view, self.proposed_block_digest@)
    }

    /// The bytes of the signer's address, if the signature leads to one.
    pub open spec fn signer(self) -> Option<Seq<u8>> {
        self.signature.signer_of(self.payload())
    }

    /// The address of the signer.
    pub fn recover_signer(&self) -> (signer: Result<Address, SignatureError>)
        ensures
            match signer {
                Ok(address) => self.signer() == Some(address.bytes@),
                Err(error) => self.signer() is None && error == SignatureError::Unrecoverable,
            },
    {
        let payload: Vec<u8> = encode_vote(PROPOSAL_TAG, self.view, &self.proposed_block_digest);
        self.signature.recover(payload.as_slice())
    }

    /// The bytes that stand for the proposal in a certificate.
    pub open spec fn encoding(self) -> Seq<u8> {
        self.view.encoding() + self.proposed_block_digest@ + self.signature.encoding()
    }

    /// Appends the bytes that stand for the proposal in a certificate.
    fn encode(&self, buffer: &mut Vec<u8>)
        ensures
            final(buffer)@ == old(buffer)@ + self.encoding(),
    {
        self.view.encode(buffer);
        append_bytes(buffer, self.proposed_block_digest.as_slice());
        self.signature.encode(buffer);
        assert(buffer@ =~= old(buffer)@ + self.encoding());
    }
}

/// The wish to prepare the block with a digest in a view.
#[derive(Debug, Clone, Copy)]
pub struct PrepareMessage {
    pub view: ConsensusView,
    pub proposed_block_digest: [u8; 32],
}

/// A prepare message with its signature.
#[derive(Debug, Clone, Copy)]
pub struct PrepareMessageSigned {
    pub view: ConsensusView,
    pub proposed_block_digest: [u8; 32],
    pub signature: Signature,
}

impl PrepareMessage {
    /// The message for a view and a digest.
    pub fn new(view: ConsensusView, proposed_block_digest: [u8; 32]) -> (message: Self)
        ensures
            message == (PrepareMessage { view, proposed_block_digest }),
    {
        PrepareMessage { view, proposed_block_digest }
    }

    /// Signs the message.
    pub fn into_signed(self, signer: &Signer) -> (signed: PrepareMessageSigned)
        ensures
            signed.is_prepare_of(self.view, self.proposed_block_digest, *signer),
            signed.signer() == Some(signer.spec_address().bytes@),
    {
        let payload: Vec<u8> = encode_vote(PREPARE_TAG, self.view, &self.proposed_block_digest);
        PrepareMessageSigned {
            view: self.view,
            proposed_block_digest: self.proposed_block_digest,
            signature: signer.sign(payload.as_slice()),
        }
    }
}

impl PrepareMessageSigned {
    /// The signed bytes.
    pub open spec fn payload(self) -> Seq<u8> {
        vote_payload(PREPARE_TAG, self.view, self.proposed_block_digest@)
    }

    /// The bytes of the signer's address, if the signature leads to one.
    pub open spec fn signer(self) -> Option<Seq<u8>> {
        self.signature.signer_of(self.payload())
    }

    /// Whether this is the prepare message of `signer` for a view and a digest.
    pub open spec fn is_prepare_of(
        self,
        view: ConsensusView,
        digest: [u8; 32],
        signer: Signer,
    ) -> bool {
        &&& self.view == view
        &&& self.proposed_block_digest == digest
        &&& is_signed_by(self.signature, signer, self.payload())
    }

    /// The address of the signer.
    pub fn recover_signer(&self) -> (signer: Result<Address, SignatureError>)
        ensures
            match signer {
                Ok(address) => self.signer() == Some(address.bytes@),
                Err(error) => self.signer() is None && error == SignatureError::Unrecoverable,
            },
    {
        let payload: Vec<u8> = encode_vote(PREPARE_TAG, self.view, &self.proposed_block_digest);
        self.signature.recover(payload.as_slice())
    }

    /// The bytes that stand for the message in a certificate.
    pub open spec fn encoding(self) -> Seq<u8> {
        self.view.encoding() + self.proposed_block_digest@ + self.signature.encoding()
    }

    /// Appends the bytes that stand for the message in a certificate.
    fn encode(&self, buffer: &mut Vec<u8>)
        ensures
            final(buffer)@ == old(buffer)@ + self.encoding(),
    {
        self.view.encode(buffer);
        append_bytes(buffer, self.proposed_block_digest.as_slice());
        self.signature.encode(buffer);
        assert(buffer@ =~= old(buffer)@ + self.encoding());
    }
}

/// The wish to commit the block with a digest in a view, and the seal under the digest.
#[derive(Debug, Clone, Copy)]
pub struct CommitMessage {
    pub view: ConsensusView,
    pub proposed_block_digest: [u8; 32],
    pub commit_seal: Signature,
}

/// A commit message with its signature.
#[derive(Debug, Clone, Copy)]
pub struct CommitMessageSigned {
    pub view: ConsensusView,
    pub proposed_block_digest: [u8; 32],
    pub commit_seal: Signature,
    pub signature: Signature,
}

/// The signed bytes of a commit message.
pub open spec fn commit_payload(
    view: ConsensusView,
    digest: Seq<u8>,
    commit_seal: Signature,
) -> Seq<u8> {
    vote_payload(COMMIT_TAG, view, digest) + commit_seal.encoding()
}

impl CommitMessage {
    /// The message for a view and a digest, with the seal that `signer` puts under the
    /// digest.
    pub fn new(view: ConsensusView, proposed_block_digest: [u8; 32], signer: &Signer) -> (message:
        Self)
        ensures
            message.view == view,
            message.proposed_block_digest == proposed_block_digest,
            is_commit_seal(message.commit_seal, proposed_block_digest@, *signer),
            message.commit_seal.signer_of_prehash(proposed_block_digest@) == Some(
                signer.spec_address().bytes@,
            ),
    {
        let commit_seal = signer.sign_prehash(proposed_block_digest);
        CommitMessage { view, proposed_block_digest, commit_seal }
    }

    /// Signs the message.
    pub fn into_signed(self, signer: &Signer) -> (signed: CommitMessageSigned)
        ensures
            signed.view == self.view,
            signed.proposed_block_digest == self.proposed_block_digest,
            signed.commit_seal == self.commit_seal,
            is_signed_by(signed.signature, *signer, signed.payload()),
            signed.signer() == Some(signer.spec_address().bytes@),
    {
        let mut payload: Vec<u8> = encode_vote(COMMIT_TAG, self.view, &self.proposed_block_digest);
        self.commit_seal.encode(&mut payload);
        CommitMessageSigned {
            view: self.view,
            proposed_block_digest: self.proposed_block_digest,
            commit_seal: self.commit_seal,
            signature: signer.sign(payload.as_slice()),
        }
    }
}

/// Whether `seal` is the one that `signer` puts under the digest of a block.
pub open spec fn is_commit_seal(seal: Signature, digest: Seq<u8>, signer: Signer) -> bool {
    (seal.rs()@, seal.recid()) == crate::primitives::crypto::signature_of(signer.secret(), digest)
}

impl CommitMessageSigned {
    /// The signed bytes.
    pub open spec fn payload(self) -> Seq<u8> {
        commit_payload(self.view, self.proposed_block_digest@, self.commit_seal)
    }

    /// The bytes of the signer's address, if the signature leads to one.
    pub open spec fn signer(self) -> Option<Seq<u8>> {
        self.signature.signer_of(self.payload())
    }

    /// Whether this is the commit message of `signer` for a view and a digest.
    pub open spec fn is_commit_of(
        self,
        view: ConsensusView,
        digest: [u8; 32],
        signer: Signer,
    ) -> bool {
        &&& self.view == view
        &&& self.proposed_block_digest == digest
        &&& is_commit_seal(self.commit_seal, digest@, signer)
        &&& is_signed_by(self.signature, signer, self.payload())
    }

    /// The address of the signer.
    pub fn recover_signer(&self) -> (signer: Result<Address, SignatureError>)
        ensures
            match signer {
                Ok(address) => self.signer() == Some(address.bytes@),
                Err(error) => self.signer() is None && error == SignatureError::Unrecoverable,
            },
    {
        let mut payload: Vec<u8> = encode_vote(COMMIT_TAG, self.view, &self.proposed_block_digest);
        self.commit_seal.encode(&mut payload);
        self.signature.recover(payload.as_slice())
    }
}

/// The seals of a finalized block.
pub type CommitSeals = Vec<Signature>;

/// The evidence that a proposal was prepared: the proposal without its block, and the
/// prepare messages for it.
#[derive(Debug, Clone)]
pub struct PreparedCertificate {
    pub proposal: ProposalMetadata,
    pub prepare_messages: Vec<PrepareMessageSigned>,
}

/// The encodings of prepare messages, one after the other.
pub open spec fn prepares_encoding(prepares: Seq<PrepareMessageSigned>) -> Seq<u8>
    decreases prepares.len(),
{
    if prepares.len() == 0 {
        Seq::empty()
    } else {
        prepares_encoding(prepares.drop_last()) + prepares.last().encoding()
    }
}

impl PreparedCertificate {
    /// The bytes that stand for the certificate in signed messages.
    pub open spec fn encoding(self) -> Seq<u8> {
        self.proposal.encoding() + vstd::bytes::spec_u64_to_le_bytes(
            self.prepare_messages@.len() as u64,
        ) + prepares_encoding(self.prepare_messages@)
    }

    /// Appends the bytes that stand for the certificate.
    fn encode(&self, buffer: &mut Vec<u8>)
        ensures
            final(buffer)@ == old(buffer)@ + self.encoding(),
    {
        let ghost before = buffer@;
        self.proposal.encode(buffer);
        let count: u64 = self.prepare_messages.len() as u64;
        append_bytes(buffer, vstd::bytes::u64_to_le_bytes(count).as_slice());
        let ghost head = buffer@;
        let mut i: usize = 0;
        assert(buffer@ =~= head + prepares_encoding(self.prepare_messages@.take(0)));
        while i < self.prepare_messages.len()
            invariant
                i <= self.prepare_messages@.len(),
                buffer@ == head + prepares_encoding(self.prepare_messages@.take(i as int)),
            decreases self.prepare_messages@.len() - i,
        {
            self.prepare_messages[i].encode(buffer);
            i += 1;
            proof {
                let taken = self.prepare_messages@.take(i as int);
                assert(taken.drop_last() =~= self.prepare_messages@.take(i - 1));
                assert(buffer@ =~= head + prepares_encoding(taken));
            }
        }
        assert(self.prepare_messages@.take(i as int) =~= self.prepare_messages@);
        assert(buffer@ =~= before + self.encoding());
    }
}

/// A block that was prepared in an earlier round, with the evidence.
#[derive(Debug, Clone)]
pub struct PreparedProposed {
    pub proposed_block: ProposedBlock,
    pub prepared_certificate: PreparedCertificate,
}

impl PreparedProposed {
    /// The block of a proposal with the prepare messages that were sent for it.
    pub fn new(proposal: ProposalMessageSigned, prepares: Vec<PrepareMessageSigned>) -> (prepared:
        Self)
        ensures
            prepared.proposed_block == proposal.message.proposed_block,
            prepared.prepared_certificate.proposal == proposal.metadata(),
            prepared.prepared_certificate.prepare_messages == prepares,
    {
        let metadata = ProposalMetadata {
            view: proposal.message.view,
            proposed_block_digest: proposal.message.proposed_block_digest,
            signature: proposal.signature,
        };
        PreparedProposed {
            proposed_block: proposal.message.proposed_block,
            prepared_certificate: PreparedCertificate {
                proposal: metadata,
                prepare_messages: prepares,
            },
        }
    }
}

/// The signed bytes of a round change message.
pub open spec fn round_change_payload(
    view: ConsensusView,
    certificate: Option<PreparedCertificate>,
) -> Seq<u8> {
    seq![ROUND_CHANGE_TAG] + view.encoding() + match certificate {
        Some(certificate) => seq![1u8] + certificate.encoding(),
        None => seq![0u8],
    }
}

/// The signed bytes of a round change message.
fn encode_round_change(view: ConsensusView, certificate: Option<&PreparedCertificate>) -> (payload:
    Vec<u8>)
    ensures
        payload@ == round_change_payload(
            view,
            match certificate {
                Some(certificate) => Some(*certificate),
                None => None,
            },
        ),
{
    let mut payload: Vec<u8> = Vec::new();
    payload.push(ROUND_CHANGE_TAG);
    view.encode(&mut payload);
    match certificate {
        Some(certificate) => {
            payload.push(1);
            certificate.encode(&mut payload);
            assert(payload@ =~= round_change_payload(view, Some(*certificate)));
        },
        None => {
            payload.push(0);
            assert(payload@ =~= round_change_payload(view, None));
        },
    }
    payload
}

/// The wish to move on to the round of a view, with the latest prepared block if the
/// sender has one.
#[derive(Debug, Clone)]
pub struct RoundChangeMessage {
    pub view: ConsensusView,
    pub latest_prepared_proposed: Option<PreparedProposed>,
}

/// A round change message with its signature. The signature covers the view and the
/// evidence, not the block.
#[derive(Debug, Clone)]
pub struct RoundChangeMessageSigned {
    pub view: ConsensusView,
    pub latest_prepared_proposed: Option<PreparedProposed>,
    pub signature: Signature,
}

/// What remains of a signed round change message without the prepared block.
#[derive(Debug, Clone)]
pub struct RoundChangeMetadata {
    pub view: ConsensusView,
    pub latest_prepared_certificate: Option<PreparedCertificate>,
    pub signature: Signature,
}

/// The evidence among what was prepared.
pub open spec fn certificate_of(prepared: Option<PreparedProposed>) -> Option<PreparedCertificate> {
    match prepared {
        Some(prepared) => Some(prepared.prepared_certificate),
        None => None,
    }
}

/// The signed bytes of a round change message.
fn encode_prepared(view: ConsensusView, prepared: &Option<PreparedProposed>) -> (payload: Vec<u8>)
    ensures
        payload@ == round_change_payload(view, certificate_of(*prepared)),
{
    match prepared {
        Some(prepared) => encode_round_change(view, Some(&prepared.prepared_certificate)),
        None => encode_round_change(view, None),
    }
}

impl RoundChangeMessage {
    /// The message for a view.
    pub fn new(view: ConsensusView, latest_prepared_proposed: Option<PreparedProposed>) -> (message:
        Self)
        ensures
            message == (RoundChangeMessage { view, latest_prepared_proposed }),
    {
        RoundChangeMessage { view, latest_prepared_proposed }
    }

    /// Signs the message.
    pub fn into_signed(self, signer: &Signer) -> (signed: RoundChangeMessageSigned)
        ensures
            signed.is_round_change_of(self.view, self.latest_prepared_proposed, *signer),
            signed.signer() == Some(signer.spec_address().bytes@),
    {
        let payload: Vec<u8> = encode_prepared(self.view, &self.latest_prepared_proposed);
        RoundChangeMessageSigned {
            view: self.view,
            latest_prepared_proposed: self.latest_prepared_proposed,
            signature: signer.sign(payload.as_slice()),
        }
    }
}

impl RoundChangeMessageSigned {
    /// The signed bytes.
    pub open spec fn payload(self) -> Seq<u8> {
        round_change_payload(self.view, certificate_of(self.latest_prepared_proposed))
    }

    /// The bytes of the signer's address, if the signature leads to one.
    pub open spec fn signer(self) -> Option<Seq<u8>> {
        self.signature.signer_of(self.payload())
    }

    /// Whether this is the round change message of `signer` for a view and a prepared
    /// block.
    pub open spec fn is_round_change_of(
        self,
        view: ConsensusView,
        prepared: Option<PreparedProposed>,
        signer: Signer,
    ) -> bool {
        &&& self.view == view
        &&& self.latest_prepared_proposed == prepared
        &&& is_signed_by(self.signature, signer, self.payload())
    }

    /// The message without the prepared block.
    pub open spec fn metadata(self) -> RoundChangeMetadata {
        RoundChangeMetadata {
            view: self.view,
            latest_prepared_certificate: certificate_of(self.latest_prepared_proposed),
            signature: self.signature,
        }
    }

    /// The address of the signer.
    pub fn recover_signer(&self) -> (signer: Result<Address, SignatureError>)
        ensures
            match signer {
                Ok(address) => self.signer() == Some(address.bytes@),
                Err(error) => self.signer() is None && error == SignatureError::Unrecoverable,
            },
    {
        let payload: Vec<u8> = encode_prepared(self.view, &self.latest_prepared_proposed);
        self.signature.recover(payload.as_slice())
    }

    /// Moves the message to another round of the same height and signs it again.
    pub fn update_and_resign(&mut self, round: u8, signer: &Signer)
        ensures
            final(self).is_round_change_of(
                (ConsensusView { height: old(self).view.height, round }),
                old(self).latest_prepared_proposed,
                *signer,
            ),
            final(self).signer() == Some(signer.spec_address().bytes@),
    {
        self.view = ConsensusView::new(self.view.height, round);
        let payload: Vec<u8> = encode_prepared(self.view, &self.latest_prepared_proposed);
        self.signature = signer.sign(payload.as_slice());
    }

    /// Takes the prepared block out of the message.
    pub fn into_metadata(self) -> (parts: (Option<ProposedBlock>, RoundChangeMetadata))
        ensures
            parts.0 == match self.latest_prepared_proposed {
                Some(prepared) => Some(prepared.proposed_block),
                None => None,
            },
            parts.1 == self.metadata(),
    {
        match self.latest_prepared_proposed {
            Some(prepared) => (
                Some(prepared.proposed_block),
                RoundChangeMetadata {
                    view: self.view,
                    latest_prepared_certificate: Some(prepared.prepared_certificate),
                    signature: self.signature,
                },
            ),
            None => (
                None,
                RoundChangeMetadata {
                    view: self.view,
                    latest_prepared_certificate: None,
                    signature: self.signature,
                },
            ),
        }
    }
}

impl RoundChangeMetadata {
    /// The signed bytes.
    pub open spec fn payload(self) -> Seq<u8> {
        round_change_payload(self.view, self.latest_prepared_certificate)
    }

    /// The bytes of the signer's address, if the signature leads to one.
    pub open spec fn signer(self) -> Option<Seq<u8>> {
        self.signature.signer_of(self.payload())
    }

    /// The address of the signer.
    pub fn recover_signer(&self) -> (signer: Result<Address, SignatureError>)
        ensures
            match signer {
                Ok(address) => self.signer() == Some(address.bytes@),
                Err(error) => self.signer() is None && error == SignatureError::Unrecoverable,
            },
    {
        let payload: Vec<u8> = match &self.latest_prepared_certificate {
            Some(certificate) => encode_round_change(self.view, Some(certificate)),
            None => encode_round_change(self.view, None),
        };
        self.signature.recover(payload.as_slice())
    }
}

/// The round changes that justify a proposal in a later round.
#[derive(Debug, Clone)]
pub struct RoundChangeCertificate {
    pub round_change_messages: Vec<RoundChangeMetadata>,
}

/// The proposal of a block in a view.
#[derive(Debug, Clone)]
pub struct ProposalMessage {
    pub view: ConsensusView,
    pub proposed_block: ProposedBlock,
    pub proposed_block_digest: [u8; 32],
    pub round_change_certificate: Option<RoundChangeCertificate>,
}

/// A proposal with its signature. The signature covers the view and the digest.
#[derive(Debug, Clone)]
pub struct ProposalMessageSigned {
    pub message: ProposalMessage,
    pub signature: Signature,
}

impl ProposalMessage {
    /// Whether this is the proposal of a block in a view.
    pub open spec fn is_message_of(
        self,
        view: ConsensusView,
        raw_block: RawBlock,
        certificate: Option<RoundChangeCertificate>,
    ) -> bool {
        &&& self.view == view
        &&& self.proposed_block == (ProposedBlock { raw_block, round: view.round })
        &&& self.proposed_block_digest@ == block_digest(raw_block.bytes@, view.round)
        &&& self.round_change_certificate == certificate
    }

    /// The proposal of a block in a view: the block is proposed in the round of the
    /// view, and its digest is taken in that round.
    pub fn new(
        view: ConsensusView,
        raw_block: RawBlock,
        round_change_certificate: Option<RoundChangeCertificate>,
    ) -> (message: Self)
        ensures
            message.is_message_of(view, raw_block, round_change_certificate),
    {
        let proposed_block_digest: [u8; 32] = digest_block(&raw_block, view.round);
        ProposalMessage {
            view,
            proposed_block: ProposedBlock { raw_block, round: view.round },
            proposed_block_digest,
            round_change_certificate,
        }
    }

    /// Signs the proposal.
    pub fn into_signed(self, signer: &Signer) -> (signed: ProposalMessageSigned)
        ensures
            signed.message == self,
            is_signed_by(signed.signature, *signer, signed.metadata().payload()),
            signed.metadata().signer() == Some(signer.spec_address().bytes@),
    {
        let payload: Vec<u8> = encode_vote(PROPOSAL_TAG, self.view, &self.proposed_block_digest);
        let signature = signer.sign(payload.as_slice());
        ProposalMessageSigned { message: self, signature }
    }
}

impl ProposalMessageSigned {
    /// The proposal without its block and its certificate.
    pub open spec fn metadata(self) -> ProposalMetadata {
        ProposalMetadata {
            view: self.message.view,
            proposed_block_digest: self.message.proposed_block_digest,
            signature: self.signature,
        }
    }

    /// Whether this is the proposal of `signer` for a block in a view.
    pub open spec fn is_proposal_of(
        self,
        view: ConsensusView,
        raw_block: RawBlock,
        certificate: Option<RoundChangeCertificate>,
        signer: Signer,
    ) -> bool {
        &&& self.message.is_message_of(view, raw_block, certificate)
        &&& is_signed_by(self.signature, signer, self.metadata().payload())
    }

    /// Whether the digest is that of the proposed block in its round.
    pub open spec fn has_block_digest(self) -> bool {
        self.message.proposed_block_digest@ == self.message.proposed_block.spec_digest()
    }

    /// Whether the digest is that of the proposed block in its round.
    pub fn verify_block_digest(&self) -> (valid: bool)
        ensures
            valid == self.has_block_digest(),
    {
        let digest: [u8; 32] = self.message.proposed_block.digest();
        let same = array_eq(&self.message.proposed_block_digest, &digest);
        assert(self.message.proposed_block_digest@ == digest@
            ==> self.message.proposed_block_digest =~= digest);
        same
    }
}

/// A block that the validators agreed on, with their seals.
#[derive(Debug, Clone)]
pub struct FinalizedBlock {
    pub proposed_block: ProposedBlock,
    pub commit_seals: CommitSeals,
}

impl FinalizedBlock {
    /// Seals a block.
    pub fn new(proposed_block: ProposedBlock, commit_seals: CommitSeals) -> (block: Self)
        ensures
            block == (FinalizedBlock { proposed_block, commit_seals }),
    {
        FinalizedBlock { proposed_block, commit_seals }
    }
}

} // verus!
