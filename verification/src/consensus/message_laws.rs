//! What holds of blocks and signed messages.

use crate::consensus::ibft::{collect_seals, finalize, verify_commit_fn, verify_prepare_fn};
use crate::consensus::types::{
    CommitMessageSigned, CommitSeals, ConsensusView, FinalizedBlock, PrepareMessageSigned,
    ProposalMessageSigned, ProposedBlock, RawBlock,
};
use crate::primitives::address::Address;
use crate::primitives::signature::{Signature, SignatureError};
use crate::primitives::signer::Signer;
use vstd::prelude::*;

verus! {

/// Whether `signature` is what the key of `signer` gives to `payload`.
pub open spec fn comes_from(signature: Signature, signer: Signer, payload: Seq<u8>) -> bool {
    (signature.rs()@, signature.recid()) == crate::primitives::crypto::signature_of(
        signer.secret(),
        crate::primitives::crypto::sha256_of(payload),
    )
}

/// The digest of a block covers the block and the four bytes of its round, and a proposal
/// is found to have the right digest exactly if it is that of its block.
pub proof fn law_digest_covers_block_and_round(
    block: ProposedBlock,
    digest: [u8; 32],
    proposal: ProposalMessageSigned,
    valid: bool,
)
    requires
        call_ensures(ProposedBlock::digest, (&block,), digest),
        call_ensures(ProposalMessageSigned::verify_digest, (&proposal,), valid),
    ensures
        digest@ == crate::primitives::crypto::sha256_of(
            block.raw_block.bytes@ + vstd::bytes::spec_u32_to_le_bytes(block.round),
        ),
        valid <==> proposal.proposed_block_digest@ == crate::primitives::crypto::sha256_of(
            proposal.proposed_block.raw_block.bytes@ + vstd::bytes::spec_u32_to_le_bytes(
                proposal.proposed_block.round,
            ),
        ),
{
}

/// A new proposal is for the given block in the given view, with the digest of the block
/// in that round, and leads to its signer.
pub proof fn law_new_proposal(
    view: ConsensusView,
    raw_block: RawBlock,
    signer: Signer,
    proposal: ProposalMessageSigned,
    found: Result<Address, SignatureError>,
)
    requires
        call_ensures(ProposalMessageSigned::new, (view, raw_block, &signer), proposal),
        call_ensures(ProposalMessageSigned::recover_signer, (&proposal,), found),
    ensures
        proposal.view == view,
        proposal.proposed_block.raw_block == raw_block,
        proposal.proposed_block.round == view.round,
        proposal.proposed_block_digest@ == crate::primitives::crypto::sha256_of(
            raw_block.bytes@ + vstd::bytes::spec_u32_to_le_bytes(view.round),
        ),
        comes_from(proposal.signature, signer, proposal.payload()),
        found == Ok::<Address, SignatureError>(signer.spec_address()),
{
    assert(found->Ok_0.bytes =~= signer.spec_address().bytes);
}

/// A new prepare message is for the given view and digest, and leads to its signer.
pub proof fn law_new_prepare(
    view: ConsensusView,
    digest: [u8; 32],
    signer: Signer,
    prepare: PrepareMessageSigned,
    found: Result<Address, SignatureError>,
)
    requires
        call_ensures(PrepareMessageSigned::new, (view, digest, &signer), prepare),
        call_ensures(PrepareMessageSigned::recover_signer, (&prepare,), found),
    ensures
        prepare.view == view,
        prepare.proposed_block_digest == digest,
        comes_from(prepare.signature, signer, prepare.payload()),
        found == Ok::<Address, SignatureError>(signer.spec_address()),
{
    assert(found->Ok_0.bytes =~= signer.spec_address().bytes);
}

/// A new commit message is for the given view and digest, seals the digest with the
/// signer's key, and leads to its signer.
pub proof fn law_new_commit(
    view: ConsensusView,
    digest: [u8; 32],
    signer: Signer,
    commit: CommitMessageSigned,
    found: Result<Address, SignatureError>,
)
    requires
        call_ensures(CommitMessageSigned::new, (view, digest, &signer), commit),
        call_ensures(CommitMessageSigned::recover_signer, (&commit,), found),
    ensures
        commit.view == view,
        commit.proposed_block_digest == digest,
        (commit.commit_seal.rs()@, commit.commit_seal.recid())
            == crate::primitives::crypto::signature_of(signer.secret(), digest@),
        comes_from(commit.signature, signer, commit.payload()),
        found == Ok::<Address, SignatureError>(signer.spec_address()),
{
    assert(found->Ok_0.bytes =~= signer.spec_address().bytes);
}

/// The bytes of the address of whoever gave `signature` to `payload`, if anybody did.
pub open spec fn author(signature: Signature, payload: Seq<u8>) -> Option<Seq<u8>> {
    match crate::primitives::crypto::recovered_key(
        signature.rs()@,
        signature.recid(),
        crate::primitives::crypto::sha256_of(payload),
    ) {
        Some(key) => Some(crate::primitives::crypto::sha256_of(key).subrange(12, 32)),
        None => None,
    }
}

/// The signer of a message is whoever gave its signature to its signed bytes.
pub proof fn law_signers_are_authors(
    proposal: ProposalMessageSigned,
    prepare: PrepareMessageSigned,
    commit: CommitMessageSigned,
)
    ensures
        proposal.signer() == author(proposal.signature, proposal.payload()),
        prepare.signer() == author(prepare.signature, prepare.payload()),
        commit.signer() == author(commit.signature, commit.payload()),
{
}

/// The signature under a message of one kind is never one under a message of another
/// kind: their signed bytes differ.
pub proof fn law_kinds_are_told_apart(
    proposal: ProposalMessageSigned,
    prepare: PrepareMessageSigned,
    commit: CommitMessageSigned,
)
    ensures
        proposal.payload() != prepare.payload(),
        proposal.payload() != commit.payload(),
        prepare.payload() != commit.payload(),
{
    assert(proposal.payload()[0] == 0);
    assert(prepare.payload()[0] == 1);
    assert(commit.payload()[0] == 2);
}

/// Two ways to cut the same bytes at the same place give the same parts.
proof fn lemma_same_parts(a: Seq<u8>, b: Seq<u8>, c: Seq<u8>, d: Seq<u8>)
    requires
        a + b == c + d,
        a.len() == c.len(),
    ensures
        a == c,
        b == d,
{
    assert(a =~= (a + b).take(a.len() as int));
    assert(c =~= (c + d).take(a.len() as int));
    assert(b =~= (a + b).skip(a.len() as int));
    assert(d =~= (c + d).skip(a.len() as int));
}

/// The signed bytes of a vote tell its view and its digest.
proof fn lemma_vote_payload(
    tag: u8,
    view: ConsensusView,
    digest: [u8; 32],
    rest: Seq<u8>,
    other_view: ConsensusView,
    other_digest: [u8; 32],
    other_rest: Seq<u8>,
)
    requires
        crate::consensus::types::vote_payload(tag, view, digest@) + rest
            == crate::consensus::types::vote_payload(tag, other_view, other_digest@) + other_rest,
    ensures
        view == other_view,
        digest == other_digest,
        rest == other_rest,
{
    vstd::bytes::lemma_auto_spec_u64_to_from_le_bytes();
    vstd::bytes::lemma_auto_spec_u32_to_from_le_bytes();
    let height = vstd::bytes::spec_u64_to_le_bytes(view.height);
    let round = vstd::bytes::spec_u32_to_le_bytes(view.round);
    let other_height = vstd::bytes::spec_u64_to_le_bytes(other_view.height);
    let other_round = vstd::bytes::spec_u32_to_le_bytes(other_view.round);
    lemma_same_parts(
        crate::consensus::types::vote_payload(tag, view, digest@),
        rest,
        crate::consensus::types::vote_payload(tag, other_view, other_digest@),
        other_rest,
    );
    lemma_same_parts(
        seq![tag] + height + round,
        digest@,
        seq![tag] + other_height + other_round,
        other_digest@,
    );
    lemma_same_parts(seq![tag] + height, round, seq![tag] + other_height, other_round);
    lemma_same_parts(seq![tag], height, seq![tag], other_height);
    assert(digest =~= other_digest);
}

/// The signed bytes of a proposal or a prepare message tell its view and its digest, and
/// those of a commit message its seal too: a signature vouches for nothing else.
pub proof fn law_votes_are_for_one_block(
    proposals: (ProposalMessageSigned, ProposalMessageSigned),
    prepares: (PrepareMessageSigned, PrepareMessageSigned),
    commits: (CommitMessageSigned, CommitMessageSigned),
)
    ensures
        proposals.0.payload() == proposals.1.payload() ==> proposals.0.view == proposals.1.view
            && proposals.0.proposed_block_digest == proposals.1.proposed_block_digest,
        prepares.0.payload() == prepares.1.payload() ==> prepares.0.view == prepares.1.view
            && prepares.0.proposed_block_digest == prepares.1.proposed_block_digest,
        commits.0.payload() == commits.1.payload() ==> commits.0.view == commits.1.view
            && commits.0.proposed_block_digest == commits.1.proposed_block_digest
            && commits.0.commit_seal == commits.1.commit_seal,
{
    let none = Seq::<u8>::empty();
    if proposals.0.payload() == proposals.1.payload() {
        let (a, b) = proposals;
        assert(a.payload() + none =~= a.payload());
        assert(b.payload() + none =~= b.payload());
        lemma_vote_payload(
            0,
            a.view,
            a.proposed_block_digest,
            none,
            b.view,
            b.proposed_block_digest,
            none,
        );
    }
    if prepares.0.payload() == prepares.1.payload() {
        let (a, b) = prepares;
        assert(a.payload() + none =~= a.payload());
        assert(b.payload() + none =~= b.payload());
        lemma_vote_payload(
            1,
            a.view,
            a.proposed_block_digest,
            none,
            b.view,
            b.proposed_block_digest,
            none,
        );
    }
    if commits.0.payload() == commits.1.payload() {
        let (a, b) = commits;
        lemma_vote_payload(
            2,
            a.view,
            a.proposed_block_digest,
            a.commit_seal.encoding(),
            b.view,
            b.proposed_block_digest,
            b.commit_seal.encoding(),
        );
        let a_seal = a.commit_seal;
        let b_seal = b.commit_seal;
        assert(a_seal.encoding().drop_last() =~= a_seal.rs()@);
        assert(b_seal.encoding().drop_last() =~= b_seal.rs()@);
        assert(a_seal.encoding().last() == a_seal.recid());
        assert(b_seal.encoding().last() == b_seal.recid());
        crate::primitives::signature::law_signature_is_known_by_parts(a_seal, b_seal);
    }
}

/// A vote counts for a block exactly if it is for the digest of the block.
pub proof fn law_votes_go_by_digest(
    prepare: PrepareMessageSigned,
    commit: CommitMessageSigned,
    digest: [u8; 32],
    prepare_valid: bool,
    commit_valid: bool,
)
    requires
        call_ensures(verify_prepare_fn, (&prepare, &digest), prepare_valid),
        call_ensures(verify_commit_fn, (&commit, &digest), commit_valid),
    ensures
        prepare_valid <==> prepare.proposed_block_digest@ == digest@,
        commit_valid <==> commit.proposed_block_digest@ == digest@,
{
    if prepare.proposed_block_digest@ == digest@ {
        assert(prepare.proposed_block_digest =~= digest);
    }
    if commit.proposed_block_digest@ == digest@ {
        assert(commit.proposed_block_digest =~= digest);
    }
}

/// The seals of a block are those of all commit messages in their order, and the own one
/// behind them.
pub proof fn law_seals_of_commits(
    commits: Vec<CommitMessageSigned>,
    own: Signature,
    seals: CommitSeals,
)
    requires
        call_ensures(collect_seals, (commits, own), seals),
    ensures
        seals@.len() == commits@.len() + 1,
        seals@.last() == own,
        forall|i: int|
            #![trigger seals@[i]]
            0 <= i < commits@.len() ==> seals@[i] == commits@[i].commit_seal,
{
}

/// The final block is the block of the proposal under the given seals.
pub proof fn law_final_block(
    proposal: ProposalMessageSigned,
    commit_seals: CommitSeals,
    block: FinalizedBlock,
)
    requires
        call_ensures(finalize, (proposal, commit_seals), block),
    ensures
        block.proposed_block == proposal.proposed_block,
        block.commit_seals == commit_seals,
{
}

/// Whether what was found is the author: the address of one, or that there is none.
pub open spec fn is_found(
    found: Result<Address, SignatureError>,
    signature: Signature,
    payload: Seq<u8>,
) -> bool {
    match author(signature, payload) {
        Some(address) => found is Ok && found->Ok_0.bytes@ == address,
        None => found == Err::<Address, SignatureError>(SignatureError::Unrecoverable),
    }
}

/// Of every message, whoever signed it, the author is found if there is one.
pub proof fn law_authors_are_found(
    proposal: (ProposalMessageSigned, Result<Address, SignatureError>),
    prepare: (PrepareMessageSigned, Result<Address, SignatureError>),
    commit: (CommitMessageSigned, Result<Address, SignatureError>),
)
    requires
        call_ensures(ProposalMessageSigned::recover_signer, (&proposal.0,), proposal.1),
        call_ensures(PrepareMessageSigned::recover_signer, (&prepare.0,), prepare.1),
        call_ensures(CommitMessageSigned::recover_signer, (&commit.0,), commit.1),
    ensures
        is_found(proposal.1, proposal.0.signature, proposal.0.payload()),
        is_found(prepare.1, prepare.0.signature, prepare.0.payload()),
        is_found(commit.1, commit.0.signature, commit.0.payload()),
{
}

} // verus!
