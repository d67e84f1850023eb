//! What holds of blocks and signed messages.

use crate::poa::run::handle_round_finish;
use crate::poa::types::{
    digest_block, CommitMessage, CommitMessageSigned, CommitSeals, ConsensusView, FinalizedBlock,
    PrepareMessage, PrepareMessageSigned, PreparedCertificate, PreparedProposed,
    ProposalMessage, ProposalMessageSigned, ProposalMetadata, ProposedBlock, RawBlock,
    RoundChangeCertificate, RoundChangeMessage, RoundChangeMessageSigned, RoundChangeMetadata,
};
use crate::primitives::address::Address;
use crate::primitives::signature::{Signature, SignatureError};
use crate::primitives::signer::Signer;
use vstd::prelude::*;

verus! {

/// The bytes of the address of whoever gave `signature` to `payload`, if anybody did.
pub open spec fn author(signature: Signature, payload: Seq<u8>) -> Option<Seq<u8>> {
    match crate::primitives::crypto::recovered_key(
        signature.rs()@,
        signature.recid(),
        crate::primitives::crypto::sha256_of(payload),
    ) {
        Some(key) => Some(crate::primitives::crypto::sha256_of(key).subrange(12, 32)),
        None => None,
    }
}

/// Whether `signature` is what the key of `signer` gives to `payload`.
pub open spec fn comes_from(signature: Signature, signer: Signer, payload: Seq<u8>) -> bool {
    (signature.rs()@, signature.recid()) == crate::primitives::crypto::signature_of(
        signer.secret(),
        crate::primitives::crypto::sha256_of(payload),
    )
}

/// The digest of a block covers the block and the round in which it is proposed.
pub proof fn law_digest_covers_block_and_round(raw_block: RawBlock, round: u8, digest: [u8; 32])
    requires
        call_ensures(digest_block, (&raw_block, round), digest),
    ensures
        digest@ == crate::primitives::crypto::sha256_of(raw_block.bytes@ + seq![round]),
{
    assert(raw_block.bytes@ + seq![round] =~= raw_block.bytes@.push(round));
}

/// A proposed block has the digest of its block in its round, and a proposal is found to
/// have the right digest exactly if it is that one.
pub proof fn law_proposed_block_digest(
    block: ProposedBlock,
    digest: [u8; 32],
    proposal: ProposalMessageSigned,
    valid: bool,
)
    requires
        call_ensures(ProposedBlock::digest, (&block,), digest),
        call_ensures(ProposalMessageSigned::verify_block_digest, (&proposal,), valid),
    ensures
        digest@ == crate::primitives::crypto::sha256_of(
            block.raw_block.bytes@ + seq![block.round],
        ),
        valid <==> proposal.message.proposed_block_digest@
            == crate::primitives::crypto::sha256_of(
            proposal.message.proposed_block.raw_block.bytes@ + seq![
                proposal.message.proposed_block.round,
            ],
        ),
{
    let proposed = proposal.message.proposed_block;
    assert(block.raw_block.bytes@ + seq![block.round] =~= block.raw_block.bytes@.push(block.round));
    assert(proposed.raw_block.bytes@ + seq![proposed.round] =~= proposed.raw_block.bytes@.push(
        proposed.round,
    ));
}

/// A new proposal proposes the given block in the round of the given view, with the
/// digest of the block in that round and the given certificate.
pub proof fn law_new_proposal(
    view: ConsensusView,
    raw_block: RawBlock,
    certificate: Option<RoundChangeCertificate>,
    message: ProposalMessage,
)
    requires
        call_ensures(ProposalMessage::new, (view, raw_block, certificate), message),
    ensures
        message.view == view,
        message.proposed_block.raw_block == raw_block,
        message.proposed_block.round == view.round,
        message.proposed_block_digest@ == crate::primitives::crypto::sha256_of(
            raw_block.bytes@ + seq![view.round],
        ),
        message.round_change_certificate == certificate,
{
    assert(raw_block.bytes@ + seq![view.round] =~= raw_block.bytes@.push(view.round));
}

/// Signing a proposal changes nothing of it, the signature is the signer's, and the
/// signer is found again from what remains of the proposal without its block.
pub proof fn law_signed_proposal(
    message: ProposalMessage,
    signer: Signer,
    signed: ProposalMessageSigned,
    found: Result<Address, SignatureError>,
)
    requires
        call_ensures(ProposalMessage::into_signed, (message, &signer), signed),
        call_ensures(ProposalMetadata::recover_signer, (&signed.metadata(),), found),
    ensures
        signed.message == message,
        signed.metadata().view == message.view,
        signed.metadata().proposed_block_digest == message.proposed_block_digest,
        signed.metadata().signature == signed.signature,
        comes_from(signed.signature, signer, signed.metadata().payload()),
        found == Ok::<Address, SignatureError>(signer.spec_address()),
{
    assert(found->Ok_0.bytes =~= signer.spec_address().bytes);
}

/// A signed prepare message is for the given view and digest, and leads to its signer.
pub proof fn law_signed_prepare(
    view: ConsensusView,
    digest: [u8; 32],
    message: PrepareMessage,
    signer: Signer,
    signed: PrepareMessageSigned,
    found: Result<Address, SignatureError>,
)
    requires
        call_ensures(PrepareMessage::new, (view, digest), message),
        call_ensures(PrepareMessage::into_signed, (message, &signer), signed),
        call_ensures(PrepareMessageSigned::recover_signer, (&signed,), found),
    ensures
        signed.view == view,
        signed.proposed_block_digest == digest,
        comes_from(signed.signature, signer, signed.payload()),
        found == Ok::<Address, SignatureError>(signer.spec_address()),
{
    assert(found->Ok_0.bytes =~= signer.spec_address().bytes);
}

/// A signed commit message is for the given view and digest, seals the digest with the
/// signer's key, and leads to its signer.
pub proof fn law_signed_commit(
    view: ConsensusView,
    digest: [u8; 32],
    message: CommitMessage,
    signer: Signer,
    signed: CommitMessageSigned,
    found: Result<Address, SignatureError>,
)
    requires
        call_ensures(CommitMessage::new, (view, digest, &signer), message),
        call_ensures(CommitMessage::into_signed, (message, &signer), signed),
        call_ensures(CommitMessageSigned::recover_signer, (&signed,), found),
    ensures
        signed.view == view,
        signed.proposed_block_digest == digest,
        (signed.commit_seal.rs()@, signed.commit_seal.recid())
            == crate::primitives::crypto::signature_of(signer.secret(), digest@),
        comes_from(signed.signature, signer, signed.payload()),
        found == Ok::<Address, SignatureError>(signer.spec_address()),
{
    assert(found->Ok_0.bytes =~= signer.spec_address().bytes);
}

/// A signed round change is for the given view, tells the given prepared block, and leads
/// to its signer.
pub proof fn law_signed_round_change(
    view: ConsensusView,
    prepared: Option<PreparedProposed>,
    message: RoundChangeMessage,
    signer: Signer,
    signed: RoundChangeMessageSigned,
    found: Result<Address, SignatureError>,
)
    requires
        call_ensures(RoundChangeMessage::new, (view, prepared), message),
        call_ensures(RoundChangeMessage::into_signed, (message, &signer), signed),
        call_ensures(RoundChangeMessageSigned::recover_signer, (&signed,), found),
    ensures
        signed.view == view,
        signed.latest_prepared_proposed == prepared,
        comes_from(signed.signature, signer, signed.payload()),
        found == Ok::<Address, SignatureError>(signer.spec_address()),
{
    assert(found->Ok_0.bytes =~= signer.spec_address().bytes);
}

/// Taking the prepared block out of a round change gives that block, keeps everything
/// else, and leaves the signature good: the signer stays the same.
pub proof fn law_metadata_keeps_the_signer(
    message: RoundChangeMessageSigned,
    parts: (Option<ProposedBlock>, RoundChangeMetadata),
    of_message: Result<Address, SignatureError>,
    of_metadata: Result<Address, SignatureError>,
)
    requires
        call_ensures(RoundChangeMessageSigned::into_metadata, (message,), parts),
        call_ensures(RoundChangeMessageSigned::recover_signer, (&message,), of_message),
        call_ensures(RoundChangeMetadata::recover_signer, (&parts.1,), of_metadata),
    ensures
        parts.0 is Some <==> message.latest_prepared_proposed is Some,
        parts.0 is Some ==> parts.0->0 == message.latest_prepared_proposed->0.proposed_block,
        parts.1.view == message.view,
        parts.1.latest_prepared_certificate is Some <==> message.latest_prepared_proposed is Some,
        parts.1.latest_prepared_certificate is Some ==> parts.1.latest_prepared_certificate->0
            == message.latest_prepared_proposed->0.prepared_certificate,
        parts.1.signature == message.signature,
        of_message == of_metadata,
{
    if of_message is Ok {
        assert(of_message->Ok_0.bytes =~= of_metadata->Ok_0.bytes);
    }
}

/// What was prepared is the block of the proposal, and the evidence is the proposal
/// without its block and exactly the given prepare messages.
pub proof fn law_prepared_block_and_evidence(
    proposal: ProposalMessageSigned,
    prepares: Vec<PrepareMessageSigned>,
    prepared: PreparedProposed,
)
    requires
        call_ensures(PreparedProposed::new, (proposal, prepares), prepared),
    ensures
        prepared.proposed_block == proposal.message.proposed_block,
        prepared.prepared_certificate.proposal.view == proposal.message.view,
        prepared.prepared_certificate.proposal.proposed_block_digest
            == proposal.message.proposed_block_digest,
        prepared.prepared_certificate.proposal.signature == proposal.signature,
        prepared.prepared_certificate.prepare_messages == prepares,
{
}

/// The signer of a message is whoever gave its signature to its signed bytes.
pub proof fn law_signers_are_authors(
    proposal: ProposalMetadata,
    prepare: PrepareMessageSigned,
    commit: CommitMessageSigned,
    round_change: RoundChangeMessageSigned,
    metadata: RoundChangeMetadata,
)
    ensures
        proposal.signer() == author(proposal.signature, proposal.payload()),
        prepare.signer() == author(prepare.signature, prepare.payload()),
        commit.signer() == author(commit.signature, commit.payload()),
        round_change.signer() == author(round_change.signature, round_change.payload()),
        metadata.signer() == author(metadata.signature, metadata.payload()),
{
}

/// The final block is the block of the proposal under the given seals.
pub proof fn law_final_block(
    proposal: ProposalMessageSigned,
    commit_seals: CommitSeals,
    block: FinalizedBlock,
)
    requires
        call_ensures(handle_round_finish, (proposal, commit_seals), block),
    ensures
        block.proposed_block == proposal.message.proposed_block,
        block.commit_seals == commit_seals,
{
}

/// The signature under a message of one kind is never one under a message of another
/// kind: their signed bytes differ.
pub proof fn law_kinds_are_told_apart(
    proposal: ProposalMetadata,
    prepare: PrepareMessageSigned,
    commit: CommitMessageSigned,
    round_change: RoundChangeMetadata,
)
    ensures
        proposal.payload() != prepare.payload(),
        proposal.payload() != commit.payload(),
        proposal.payload() != round_change.payload(),
        prepare.payload() != commit.payload(),
        prepare.payload() != round_change.payload(),
        commit.payload() != round_change.payload(),
{
    assert(proposal.payload()[0] == 0);
    assert(prepare.payload()[0] == 1);
    assert(commit.payload()[0] == 2);
    assert(round_change.payload()[0] == 3);
}

/// The bytes that stand for a view tell it.
proof fn lemma_view_encoding(a: ConsensusView, b: ConsensusView)
    ensures
        a.encoding().len() == 9,
        a.encoding() == b.encoding() ==> a == b,
{
    vstd::bytes::lemma_auto_spec_u64_to_from_le_bytes();
    if a.encoding() == b.encoding() {
        assert(a.encoding().drop_last() =~= vstd::bytes::spec_u64_to_le_bytes(a.height));
        assert(b.encoding().drop_last() =~= vstd::bytes::spec_u64_to_le_bytes(b.height));
        assert(a.encoding().last() == a.round);
        assert(b.encoding().last() == b.round);
    }
}

/// The bytes of a signature tell it.
proof fn lemma_signature_encoding(a: Signature, b: Signature)
    ensures
        a.encoding().len() == 65,
        a.encoding() == b.encoding() ==> a == b,
{
    if a.encoding() == b.encoding() {
        assert(a.encoding().drop_last() =~= a.rs()@);
        assert(b.encoding().drop_last() =~= b.rs()@);
        assert(a.encoding().last() == a.recid());
        assert(b.encoding().last() == b.recid());
        crate::primitives::signature::law_signature_is_known_by_parts(a, b);
    }
}

/// Two ways to cut the same bytes at the same place give the same parts.
proof fn lemma_same_parts(a: Seq<u8>, b: Seq<u8>, c: Seq<u8>, d: Seq<u8>)
    requires
        a + b == c + d,
        a.len() == c.len(),
    ensures
        a == c,
        b == d,
{
    assert(a =~= (a + b).take(a.len() as int));
    assert(c =~= (c + d).take(a.len() as int));
    assert(b =~= (a + b).skip(a.len() as int));
    assert(d =~= (c + d).skip(a.len() as int));
}

/// The signed bytes of a vote tell its view and its digest.
proof fn lemma_vote_payload(
    tag: u8,
    view: ConsensusView,
    digest: [u8; 32],
    rest: Seq<u8>,
    other_view: ConsensusView,
    other_digest: [u8; 32],
    other_rest: Seq<u8>,
)
    requires
        crate::poa::types::vote_payload(tag, view, digest@) + rest
            == crate::poa::types::vote_payload(tag, other_view, other_digest@) + other_rest,
    ensures
        view == other_view,
        digest == other_digest,
        rest == other_rest,
{
    lemma_view_encoding(view, other_view);
    lemma_view_encoding(other_view, view);
    lemma_same_parts(
        crate::poa::types::vote_payload(tag, view, digest@),
        rest,
        crate::poa::types::vote_payload(tag, other_view, other_digest@),
        other_rest,
    );
    lemma_same_parts(
        seq![tag] + view.encoding(),
        digest@,
        seq![tag] + other_view.encoding(),
        other_digest@,
    );
    lemma_same_parts(seq![tag], view.encoding(), seq![tag], other_view.encoding());
    assert(digest =~= other_digest);
}

/// The signed bytes of a proposal or a prepare message tell its view and its digest, and
/// those of a commit message its seal too: a signature vouches for nothing else.
pub proof fn law_votes_are_for_one_block(
    proposals: (ProposalMetadata, ProposalMetadata),
    prepares: (PrepareMessageSigned, PrepareMessageSigned),
    commits: (CommitMessageSigned, CommitMessageSigned),
)
    ensures
        proposals.0.payload() == proposals.1.payload() ==> proposals.0.view == proposals.1.view
            && proposals.0.proposed_block_digest == proposals.1.proposed_block_digest,
        prepares.0.payload() == prepares.1.payload() ==> prepares.0.view == prepares.1.view
            && prepares.0.proposed_block_digest == prepares.1.proposed_block_digest,
        commits.0.payload() == commits.1.payload() ==> commits.0.view == commits.1.view
            && commits.0.proposed_block_digest == commits.1.proposed_block_digest
            && commits.0.commit_seal == commits.1.commit_seal,
{
    let none = Seq::<u8>::empty();
    if proposals.0.payload() == proposals.1.payload() {
        let (a, b) = proposals;
        assert(a.payload() + none =~= a.payload());
        assert(b.payload() + none =~= b.payload());
        lemma_vote_payload(
            0,
            a.view,
            a.proposed_block_digest,
            none,
            b.view,
            b.proposed_block_digest,
            none,
        );
    }
    if prepares.0.payload() == prepares.1.payload() {
        let (a, b) = prepares;
        assert(a.payload() + none =~= a.payload());
        assert(b.payload() + none =~= b.payload());
        lemma_vote_payload(
            1,
            a.view,
            a.proposed_block_digest,
            none,
            b.view,
            b.proposed_block_digest,
            none,
        );
    }
    if commits.0.payload() == commits.1.payload() {
        let (a, b) = commits;
        lemma_vote_payload(
            2,
            a.view,
            a.proposed_block_digest,
            a.commit_seal.encoding(),
            b.view,
            b.proposed_block_digest,
            b.commit_seal.encoding(),
        );
        lemma_signature_encoding(a.commit_seal, b.commit_seal);
    }
}

/// The parts of a vote in a certificate are told by its bytes.
proof fn lemma_vote_encoding(
    view: ConsensusView,
    digest: [u8; 32],
    signature: Signature,
    other_view: ConsensusView,
    other_digest: [u8; 32],
    other_signature: Signature,
)
    ensures
        (view.encoding() + digest@ + signature.encoding()).len() == 106,
        view.encoding() + digest@ + signature.encoding() == other_view.encoding() + other_digest@
            + other_signature.encoding() ==> view == other_view && digest == other_digest
            && signature == other_signature,
{
    lemma_view_encoding(view, other_view);
    lemma_view_encoding(other_view, view);
    lemma_signature_encoding(signature, other_signature);
    lemma_signature_encoding(other_signature, signature);
    if view.encoding() + digest@ + signature.encoding() == other_view.encoding() + other_digest@
        + other_signature.encoding() {
        lemma_same_parts(
            view.encoding() + digest@,
            signature.encoding(),
            other_view.encoding() + other_digest@,
            other_signature.encoding(),
        );
        lemma_same_parts(view.encoding(), digest@, other_view.encoding(), other_digest@);
        assert(digest =~= other_digest);
    }
}

/// The bytes of prepare messages tell them.
proof fn lemma_prepares_encoding(a: Seq<PrepareMessageSigned>, b: Seq<PrepareMessageSigned>)
    ensures
        crate::poa::types::prepares_encoding(a).len() == 106 * a.len(),
        crate::poa::types::prepares_encoding(a) == crate::poa::types::prepares_encoding(b) ==> a
            == b,
    decreases a.len(),
{
    if a.len() > 0 {
        let last = a.last();
        lemma_vote_encoding(
            last.view,
            last.proposed_block_digest,
            last.signature,
            last.view,
            last.proposed_block_digest,
            last.signature,
        );
        lemma_prepares_encoding(a.drop_last(), a.drop_last());
    }
    lemma_prepares_len(b);
    if crate::poa::types::prepares_encoding(a) == crate::poa::types::prepares_encoding(b) {
        if a.len() > 0 {
            lemma_prepares_len(a.drop_last());
            lemma_prepares_len(b.drop_last());
            lemma_same_parts(
                crate::poa::types::prepares_encoding(a.drop_last()),
                a.last().encoding(),
                crate::poa::types::prepares_encoding(b.drop_last()),
                b.last().encoding(),
            );
            lemma_vote_encoding(
                a.last().view,
                a.last().proposed_block_digest,
                a.last().signature,
                b.last().view,
                b.last().proposed_block_digest,
                b.last().signature,
            );
            lemma_prepares_encoding(a.drop_last(), b.drop_last());
            assert(a =~= a.drop_last().push(a.last()));
            assert(b =~= b.drop_last().push(b.last()));
        } else {
            assert(a =~= b);
        }
    }
}

/// Every prepare message takes as many bytes.
proof fn lemma_prepares_len(prepares: Seq<PrepareMessageSigned>)
    ensures
        crate::poa::types::prepares_encoding(prepares).len() == 106 * prepares.len(),
    decreases prepares.len(),
{
    if prepares.len() > 0 {
        let last = prepares.last();
        lemma_vote_encoding(
            last.view,
            last.proposed_block_digest,
            last.signature,
            last.view,
            last.proposed_block_digest,
            last.signature,
        );
        lemma_prepares_len(prepares.drop_last());
    }
}

/// The bytes of a certificate tell it.
proof fn lemma_certificate_encoding(a: PreparedCertificate, b: PreparedCertificate)
    requires
        a.encoding() == b.encoding(),
    ensures
        a.proposal == b.proposal,
        a.prepare_messages@ == b.prepare_messages@,
{
    vstd::bytes::lemma_auto_spec_u64_to_from_le_bytes();
    lemma_vote_encoding(
        a.proposal.view,
        a.proposal.proposed_block_digest,
        a.proposal.signature,
        b.proposal.view,
        b.proposal.proposed_block_digest,
        b.proposal.signature,
    );
    lemma_vote_encoding(
        b.proposal.view,
        b.proposal.proposed_block_digest,
        b.proposal.signature,
        a.proposal.view,
        a.proposal.proposed_block_digest,
        a.proposal.signature,
    );
    let a_count = vstd::bytes::spec_u64_to_le_bytes(a.prepare_messages@.len() as u64);
    let b_count = vstd::bytes::spec_u64_to_le_bytes(b.prepare_messages@.len() as u64);
    lemma_same_parts(
        a.proposal.encoding() + a_count,
        crate::poa::types::prepares_encoding(a.prepare_messages@),
        b.proposal.encoding() + b_count,
        crate::poa::types::prepares_encoding(b.prepare_messages@),
    );
    lemma_same_parts(a.proposal.encoding(), a_count, b.proposal.encoding(), b_count);
    lemma_prepares_encoding(a.prepare_messages@, b.prepare_messages@);
}

/// The signed bytes of a round change tell its view and its evidence: a signature vouches
/// for no other round and no other evidence.
pub proof fn law_round_change_is_for_one_round(a: RoundChangeMetadata, b: RoundChangeMetadata)
    requires
        a.payload() == b.payload(),
    ensures
        a.view == b.view,
        a.latest_prepared_certificate is Some <==> b.latest_prepared_certificate is Some,
        a.latest_prepared_certificate is Some ==> a.latest_prepared_certificate->0.proposal
            == b.latest_prepared_certificate->0.proposal,
        a.latest_prepared_certificate is Some
            ==> a.latest_prepared_certificate->0.prepare_messages@
            == b.latest_prepared_certificate->0.prepare_messages@,
{
    lemma_view_encoding(a.view, b.view);
    lemma_view_encoding(b.view, a.view);
    let a_rest = match a.latest_prepared_certificate {
        Some(certificate) => seq![1u8] + certificate.encoding(),
        None => seq![0u8],
    };
    let b_rest = match b.latest_prepared_certificate {
        Some(certificate) => seq![1u8] + certificate.encoding(),
        None => seq![0u8],
    };
    lemma_same_parts(
        seq![3u8] + a.view.encoding(),
        a_rest,
        seq![3u8] + b.view.encoding(),
        b_rest,
    );
    lemma_same_parts(seq![3u8], a.view.encoding(), seq![3u8], b.view.encoding());
    assert(a_rest[0] == b_rest[0]);
    if a.latest_prepared_certificate is Some {
        let a_certificate = a.latest_prepared_certificate->0;
        let b_certificate = b.latest_prepared_certificate->0;
        lemma_same_parts(
            seq![1u8],
            a_certificate.encoding(),
            seq![1u8],
            b_certificate.encoding(),
        );
        lemma_certificate_encoding(a_certificate, b_certificate);
    }
}

/// The signed bytes of a round change are those of what remains of it without the block.
pub proof fn law_block_is_not_signed(message: RoundChangeMessageSigned)
    ensures
        message.payload() == message.metadata().payload(),
        message.metadata().view == message.view,
        message.metadata().signature == message.signature,
{
}

/// A round change that is moved to another round keeps its height and what it tells, and
/// is signed anew.
pub proof fn law_moved_round_change(
    message: &mut RoundChangeMessageSigned,
    round: u8,
    signer: Signer,
)
    requires
        call_ensures(RoundChangeMessageSigned::update_and_resign, (message, round, &signer), ()),
    ensures
        final(message).view.height == old(message).view.height,
        final(message).view.round == round,
        final(message).latest_prepared_proposed == old(message).latest_prepared_proposed,
        comes_from(final(message).signature, signer, final(message).payload()),
{
}

/// A view and a final block are made of what they are given.
pub proof fn law_new_view_and_final_block(
    height: u64,
    round: u8,
    view: ConsensusView,
    proposed_block: ProposedBlock,
    commit_seals: CommitSeals,
    block: FinalizedBlock,
)
    requires
        call_ensures(ConsensusView::new, (height, round), view),
        call_ensures(FinalizedBlock::new, (proposed_block, commit_seals), block),
    ensures
        view.height == height,
        view.round == round,
        block.proposed_block == proposed_block,
        block.commit_seals == commit_seals,
{
}

/// Whether what was found is the author: the address of one, or that there is none.
pub open spec fn is_found(
    found: Result<Address, SignatureError>,
    signature: Signature,
    payload: Seq<u8>,
) -> bool {
    match author(signature, payload) {
        Some(address) => found is Ok && found->Ok_0.bytes@ == address,
        None => found == Err::<Address, SignatureError>(SignatureError::Unrecoverable),
    }
}

/// Of every message, whoever signed it, the author is found if there is one.
pub proof fn law_authors_are_found(
    proposal: (ProposalMetadata, Result<Address, SignatureError>),
    prepare: (PrepareMessageSigned, Result<Address, SignatureError>),
    commit: (CommitMessageSigned, Result<Address, SignatureError>),
    round_change: (RoundChangeMessageSigned, Result<Address, SignatureError>),
    metadata: (RoundChangeMetadata, Result<Address, SignatureError>),
)
    requires
        call_ensures(ProposalMetadata::recover_signer, (&proposal.0,), proposal.1),
        call_ensures(PrepareMessageSigned::recover_signer, (&prepare.0,), prepare.1),
        call_ensures(CommitMessageSigned::recover_signer, (&commit.0,), commit.1),
        call_ensures(RoundChangeMessageSigned::recover_signer, (&round_change.0,), round_change.1),
        call_ensures(RoundChangeMetadata::recover_signer, (&metadata.0,), metadata.1),
    ensures
        is_found(proposal.1, proposal.0.signature, proposal.0.payload()),
        is_found(prepare.1, prepare.0.signature, prepare.0.payload()),
        is_found(commit.1, commit.0.signature, commit.0.payload()),
        is_found(round_change.1, round_change.0.signature, round_change.0.payload()),
        is_found(metadata.1, metadata.0.signature, metadata.0.payload()),
{
}

} // verus!
