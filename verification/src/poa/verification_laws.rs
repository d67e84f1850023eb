//! What the verdicts on certificates, round changes and proposals mean.

use crate::poa::backend::{BlockService, ValidatorManager};
use crate::poa::ibft::IBFT;
use crate::poa::types::{
    CommitMessageSigned, ConsensusView, IBFTError, PrepareMessageSigned, PreparedCertificate,
    ProposalMessageSigned, RoundChangeMessageSigned, RoundChangeMetadata,
};
use crate::poa::verification::{
    commit_verify_fn, judge_proposal, prepare_verify_fn, ProposalCheck,
};
use vstd::prelude::*;

verus! {

/// A vote counts for a block exactly if it is for the digest of the block.
pub proof fn law_votes_go_by_digest(
    prepare: PrepareMessageSigned,
    commit: CommitMessageSigned,
    digest: [u8; 32],
    prepare_valid: bool,
    commit_valid: bool,
)
    requires
        call_ensures(prepare_verify_fn, (&prepare, &digest), prepare_valid),
        call_ensures(commit_verify_fn, (&commit, &digest), commit_valid),
    ensures
        prepare_valid <==> prepare.proposed_block_digest@ == digest@,
        commit_valid <==> commit.proposed_block_digest@ == digest@,
{
    if prepare.proposed_block_digest@ == digest@ {
        assert(prepare.proposed_block_digest =~= digest);
    }
    if commit.proposed_block_digest@ == digest@ {
        assert(commit.proposed_block_digest =~= digest);
    }
}

/// Whether the proposer of a view and, with different signatures, enough other validators
/// vouch for the digest of the proposal in a certificate, at a height and before a round.
pub open spec fn is_vouched_for<V: ValidatorManager>(
    validators: &V,
    certificate: PreparedCertificate,
    height: u64,
    round_limit: u8,
) -> bool {
    let proposal = certificate.proposal;
    let votes = certificate.prepare_messages@;
    &&& proposal.view.height == height
    &&& proposal.view.round < round_limit
    &&& proposal.signer() is Some
    &&& validators.proposes(proposal.signer()->0, proposal.view)
    &&& votes.len() + 1 >= validators.quorum_at(height)
    &&& forall|i: int|
        #![trigger votes[i]]
        0 <= i < votes.len() ==> {
            &&& votes[i].view.height == height
            &&& votes[i].view.round == proposal.view.round
            &&& votes[i].proposed_block_digest@ == proposal.proposed_block_digest@
            &&& votes[i].signer() is Some
            &&& votes[i].signer() != proposal.signer()
            &&& validators.validates(votes[i].signer()->0, height)
        }
    &&& forall|i: int, j: int|
        #![trigger votes[i], votes[j]]
        0 <= i < votes.len() && 0 <= j < votes.len() && votes[i].signer() == votes[j].signer() ==> i
            == j
}

/// What makes a certificate hold.
proof fn lemma_vouched<V: ValidatorManager>(
    validators: &V,
    certificate: PreparedCertificate,
    height: u64,
    round_limit: u8,
)
    ensures
        crate::poa::verification::certificate_holds(validators, certificate, height, round_limit)
            <==> is_vouched_for(validators, certificate, height, round_limit),
{
    let proposal = certificate.proposal;
    let votes = certificate.prepare_messages@;
    if crate::poa::verification::certificate_holds(validators, certificate, height, round_limit) {
        assert forall|i: int, j: int|
            #![trigger votes[i], votes[j]]
            0 <= i < votes.len() && 0 <= j < votes.len() && votes[i].signer()
                == votes[j].signer() implies i == j by {
            if i < j {
                assert(votes[i].signer() != votes[j].signer());
            } else if j < i {
                assert(votes[j].signer() != votes[i].signer());
            }
        }
    }
    if is_vouched_for(validators, certificate, height, round_limit) {
        assert forall|i: int| 0 <= i < votes.len() implies
            crate::poa::verification::prepare_counts(
            validators,
            proposal,
            proposal.signer()->0,
            #[trigger] votes[i],
        ) by {
            assert(votes[i].proposed_block_digest =~= proposal.proposed_block_digest);
        }
        assert(crate::poa::verification::distinct_prepares(votes)) by {
            assert forall|i: int, j: int| 0 <= i < j < votes.len() implies (
            #[trigger] votes[i]).signer() != (#[trigger] votes[j]).signer() by {}
        }
    }
}

/// A certificate is found valid exactly if the proposer of its view, at the height and
/// before the round, and enough other validators, all different, vouch for its digest.
pub proof fn law_certificate_verdict<V: ValidatorManager, BS: BlockService>(
    ibft: IBFT<V, BS>,
    certificate: PreparedCertificate,
    height: u64,
    round_limit: u8,
    valid: bool,
)
    requires
        call_ensures(
            IBFT::<V, BS>::verify_prepared_certificate,
            (&ibft, &certificate, height, round_limit),
            valid,
        ),
    ensures
        valid <==> is_vouched_for(&ibft.validator_manager, certificate, height, round_limit),
{
    lemma_vouched(&ibft.validator_manager, certificate, height, round_limit);
}

/// A round change is found valid exactly if it tells no prepared block, or one whose
/// digest in its round is that of evidence which holds before the round of the round
/// change.
pub proof fn law_round_change_verdict<V: ValidatorManager, BS: BlockService>(
    ibft: IBFT<V, BS>,
    height: u64,
    round_change: RoundChangeMessageSigned,
    valid: bool,
)
    requires
        call_ensures(
            IBFT::<V, BS>::round_change_verify_fn,
            (&ibft, height, &round_change),
            valid,
        ),
    ensures
        valid <==> (round_change.latest_prepared_proposed is Some ==> {
            let block = round_change.latest_prepared_proposed->0.proposed_block;
            let certificate = round_change.latest_prepared_proposed->0.prepared_certificate;
            &&& certificate.proposal.proposed_block_digest@
                == crate::primitives::crypto::sha256_of(block.raw_block.bytes@ + seq![block.round])
            &&& is_vouched_for(
                &ibft.validator_manager,
                certificate,
                height,
                round_change.view.round,
            )
        }),
{
    if round_change.latest_prepared_proposed is Some {
        let block = round_change.latest_prepared_proposed->0.proposed_block;
        let certificate = round_change.latest_prepared_proposed->0.prepared_certificate;
        assert(block.raw_block.bytes@ + seq![block.round] =~= block.raw_block.bytes@.push(
            block.round,
        ));
        lemma_vouched(
            &ibft.validator_manager,
            certificate,
            height,
            round_change.view.round,
        );
    }
}

/// The digest of the proposed block, taken in a round.
pub open spec fn digest_in_round(proposal: ProposalMessageSigned, round: u8) -> Seq<u8> {
    crate::primitives::crypto::sha256_of(
        proposal.message.proposed_block.raw_block.bytes@ + seq![round],
    )
}

/// Whether the digest in a proposal is that of its block in the round of the block.
pub open spec fn tells_its_digest(proposal: ProposalMessageSigned) -> bool {
    proposal.message.proposed_block_digest@ == digest_in_round(
        proposal,
        proposal.message.proposed_block.round,
    )
}

/// The round changes that come with a proposal.
pub open spec fn brought_along(proposal: ProposalMessageSigned) -> Seq<RoundChangeMetadata> {
    proposal.message.round_change_certificate->0.round_change_messages@
}

/// Whether a round change is for a view and from a validator.
pub open spec fn is_proper<V: ValidatorManager>(
    validators: &V,
    view: ConsensusView,
    round_change: RoundChangeMetadata,
) -> bool {
    &&& round_change.view.height == view.height
    &&& round_change.view.round == view.round
    &&& round_change.signer() is Some
    &&& validators.validates(round_change.signer()->0, view.height)
}

/// Whether round change `i` has the signer of an earlier one.
pub open spec fn is_repeated(round_changes: Seq<RoundChangeMetadata>, i: int) -> bool {
    exists|j: int|
        0 <= j < i && (#[trigger] round_changes[j]).signer() == round_changes[i].signer()
}

/// Whether all round changes before `count` are proper and none is repeated.
pub open spec fn all_proper<V: ValidatorManager>(
    validators: &V,
    view: ConsensusView,
    round_changes: Seq<RoundChangeMetadata>,
    count: int,
) -> bool {
    forall|i: int|
        #![trigger round_changes[i]]
        0 <= i < count ==> is_proper(validators, view, round_changes[i]) && !is_repeated(
            round_changes,
            i,
        )
}

/// Whether the evidence at `i` is of the greatest round, and the first of that round.
pub open spec fn is_latest_evidence(round_changes: Seq<RoundChangeMetadata>, i: int) -> bool {
    &&& 0 <= i < round_changes.len()
    &&& round_changes[i].latest_prepared_certificate is Some
    &&& forall|j: int|
        #![trigger round_changes[j]]
        0 <= j < round_changes.len() && round_changes[j].latest_prepared_certificate is Some ==> {
            let there = round_changes[j].latest_prepared_certificate->0.proposal.view.round;
            let here = round_changes[i].latest_prepared_certificate->0.proposal.view.round;
            there < here || (there == here && i <= j)
        }
}

/// Whether the proposed block is the one that evidence is about, and the evidence holds.
pub open spec fn agrees_with<V: ValidatorManager>(
    validators: &V,
    proposal: ProposalMessageSigned,
    evidence: PreparedCertificate,
) -> bool {
    &&& evidence.proposal.proposed_block_digest@ == digest_in_round(
        proposal,
        evidence.proposal.view.round,
    )
    &&& is_vouched_for(
        validators,
        evidence,
        proposal.message.view.height,
        proposal.message.view.round,
    )
}

/// How the first fault shows.
proof fn lemma_first_fault<V: ValidatorManager>(
    validators: &V,
    view: ConsensusView,
    round_changes: Seq<RoundChangeMetadata>,
    count: nat,
)
    requires
        count <= round_changes.len(),
    ensures
        match crate::poa::verification::first_fault(validators, view, round_changes, count) {
            None => all_proper(validators, view, round_changes, count as int),
            Some(error) => exists|i: int| #[trigger]
                is_first_fault(validators, view, round_changes, i, error) && i < count,
        },
    decreases count,
{
    if count > 0 {
        let i = count - 1;
        lemma_first_fault(validators, view, round_changes, i as nat);
        match crate::poa::verification::first_fault(validators, view, round_changes, i as nat) {
            None => {
                let fault = crate::poa::verification::round_change_fault(
                    validators,
                    view,
                    round_changes,
                    i,
                );
                let signer = round_changes[i].signer();
                if is_proper(validators, view, round_changes[i]) && is_repeated(round_changes, i) {
                    let j = choose|j: int|
                        0 <= j < i && (#[trigger] round_changes[j]).signer() == signer;
                    assert(round_changes[j].signer() == Some(signer->0));
                }
                if fault is Some {
                    assert(is_first_fault(validators, view, round_changes, i, fault->0));
                }
            },
            Some(_) => {},
        }
    }
}

/// Whether round change `i` is the first with which something is wrong, and `error` tells
/// what: it is not proper, or it is proper and repeats a signer.
pub open spec fn is_first_fault<V: ValidatorManager>(
    validators: &V,
    view: ConsensusView,
    round_changes: Seq<RoundChangeMetadata>,
    i: int,
    error: IBFTError,
) -> bool {
    &&& 0 <= i < round_changes.len()
    &&& all_proper(validators, view, round_changes, i)
    &&& if !is_proper(validators, view, round_changes[i]) {
        error == IBFTError::InvalidRoundChangeInCertificate
    } else {
        is_repeated(round_changes, i) && error == IBFTError::DuplicateRoundChangeInCertificate
    }
}

/// What a check of a later proposal means. It is refused for the first reason that
/// applies: a wrong digest, no certificate, fewer round changes than the quorum, a round
/// change that is not proper or repeats a signer, a block other than the one prepared
/// last. It is accepted for the block prepared last, and left to the block service if
/// there is no evidence of a prepared block.
pub open spec fn check_means<V: ValidatorManager>(
    validators: &V,
    proposal: ProposalMessageSigned,
    quorum: usize,
    check: ProposalCheck,
) -> bool {
    let list = brought_along(proposal);
    let view = proposal.message.view;
    if !tells_its_digest(proposal) {
        check == ProposalCheck::Rejected(IBFTError::IncorrectProposalDigest)
    } else if proposal.message.round_change_certificate is None {
        check == ProposalCheck::Rejected(IBFTError::MissingRoundChangeCertificate)
    } else if list.len() < quorum {
        check == ProposalCheck::Rejected(IBFTError::RoundChangeCertificateQuorumNotReached)
    } else if !all_proper(validators, view, list, list.len() as int) {
        check matches ProposalCheck::Rejected(error) && exists|i: int| #[trigger]
            is_first_fault(validators, view, list, i, error)
    } else if forall|i: int|
        #![trigger list[i]]
        0 <= i < list.len() ==> list[i].latest_prepared_certificate is None {
        check == ProposalCheck::BlockUnverified
    } else {
        exists|i: int| #[trigger]
            is_latest_evidence(list, i) && check == if agrees_with(
                validators,
                proposal,
                list[i].latest_prepared_certificate->0,
            ) {
                ProposalCheck::Accepted
            } else {
                ProposalCheck::Rejected(IBFTError::InvalidRoundChangeInCertificate)
            }
    }
}

/// The check of a later proposal means what it is said to mean.
proof fn lemma_check_means<V: ValidatorManager>(
    validators: &V,
    proposal: ProposalMessageSigned,
    quorum: usize,
)
    ensures
        check_means(
            validators,
            proposal,
            quorum,
            crate::poa::verification::proposal_1_check(validators, proposal, quorum),
        ),
{
    let list = brought_along(proposal);
    let view = proposal.message.view;
    let block = proposal.message.proposed_block;
    assert(block.raw_block.bytes@ + seq![block.round] =~= block.raw_block.bytes@.push(block.round));
    lemma_first_fault(validators, view, list, list.len());
    crate::poa::verification::lemma_highest_prepared_exists(list);
    match crate::poa::verification::first_fault(validators, view, list, list.len()) {
        Some(error) => {
            let i = choose|i: int| #[trigger]
                is_first_fault(validators, view, list, i, error) && i < list.len();
            assert(!(is_proper(validators, view, list[i]) && !is_repeated(list, i)));
        },
        None => {},
    }
    match crate::poa::verification::highest_prepared(list) {
        Some(i) => {
            let evidence = list[i].latest_prepared_certificate->0;
            let round = evidence.proposal.view.round;
            assert(is_latest_evidence(list, i)) by {
                assert forall|j: int|
                    #![trigger list[j]]
                    0 <= j < list.len() && list[j].latest_prepared_certificate is Some implies {
                    let there = list[j].latest_prepared_certificate->0.proposal.view.round;
                    there < round || (there == round && i <= j)
                } by {
                    assert(crate::poa::verification::prepared_round(list[j])
                        <= crate::poa::verification::prepared_round(list[i]));
                }
            }
            assert(block.raw_block.bytes@ + seq![round] =~= block.raw_block.bytes@.push(round));
            lemma_vouched(validators, evidence, view.height, view.round);
        },
        None => {},
    }
}

/// The check of a later proposal with a given quorum.
pub proof fn law_check_of_later_proposal<V: ValidatorManager, BS: BlockService>(
    ibft: IBFT<V, BS>,
    proposal: ProposalMessageSigned,
    quorum: usize,
    check: ProposalCheck,
)
    requires
        call_ensures(IBFT::<V, BS>::check_proposal_1, (&ibft, &proposal, quorum), check),
    ensures
        check_means(&ibft.validator_manager, proposal, quorum, check),
{
    lemma_check_means(&ibft.validator_manager, proposal, quorum);
}

/// What a verdict means, given the check: the reason of the refusal, acceptance, or what
/// the block service says of the proposed block.
pub open spec fn verdict_means<BS: BlockService>(
    block_service: &BS,
    proposal: ProposalMessageSigned,
    check: ProposalCheck,
    result: Result<(), IBFTError>,
) -> bool {
    let block = proposal.message.proposed_block.raw_block.bytes@;
    match check {
        ProposalCheck::Rejected(error) => result == Err::<(), IBFTError>(error),
        ProposalCheck::Accepted => result is Ok,
        ProposalCheck::BlockUnverified => match result {
            Ok(_) => block_service.judges(block, Ok(())),
            Err(error) => error is InvalidProposalBlock && block_service.judges(
                block,
                Err(error->InvalidProposalBlock_0),
            ),
        },
    }
}

/// The verdict follows from the check and an answer of the block service.
proof fn lemma_verdict<BS: BlockService>(
    block_service: &BS,
    proposal: ProposalMessageSigned,
    check: ProposalCheck,
    result: Result<(), IBFTError>,
)
    requires
        crate::poa::verification::proposal_result(block_service, proposal, check, result),
    ensures
        verdict_means(block_service, proposal, check, result),
{
    if check is BlockUnverified {
        let block = proposal.message.proposed_block.raw_block.bytes@;
        let verdict = choose|verdict: Result<(), String>|
            #[trigger] block_service.judges(block, verdict) && result
                == crate::poa::verification::proposal_verdict(check, verdict);
        match verdict {
            Ok(unit) => {
                assert(unit == ());
            },
            Err(_) => {},
        }
    }
}

/// The verdict on a proposal that is stored for a later round follows from the check with
/// the quorum of the height of that round.
pub proof fn law_verdict_on_later_proposal<V: ValidatorManager, BS: BlockService>(
    ibft: IBFT<V, BS>,
    view: ConsensusView,
    proposal: ProposalMessageSigned,
    result: Result<(), IBFTError>,
)
    requires
        call_ensures(IBFT::<V, BS>::proposal_verify_fn, (&ibft, view, &proposal), result),
        view.round != 0,
    ensures
        exists|check: ProposalCheck| #[trigger]
            check_means(
                &ibft.validator_manager,
                proposal,
                ibft.validator_manager.quorum_at(view.height),
                check,
            ) && verdict_means(&ibft.block_service, proposal, check, result),
{
    let quorum = ibft.validator_manager.quorum_at(view.height);
    lemma_check_means(&ibft.validator_manager, proposal, quorum);
    let check = crate::poa::verification::proposal_1_check(
        &ibft.validator_manager,
        proposal,
        quorum,
    );
    lemma_verdict(&ibft.block_service, proposal, check, result);
    assert(check_means(&ibft.validator_manager, proposal, quorum, check));
}

/// The same for a quorum that is given.
pub proof fn law_verdict_with_given_quorum<V: ValidatorManager, BS: BlockService>(
    ibft: IBFT<V, BS>,
    quorum: usize,
    proposal: ProposalMessageSigned,
    result: Result<(), IBFTError>,
)
    requires
        call_ensures(IBFT::<V, BS>::proposal_1_verify_fn, (&ibft, quorum, &proposal), result),
    ensures
        exists|check: ProposalCheck| #[trigger]
            check_means(&ibft.validator_manager, proposal, quorum, check) && verdict_means(
                &ibft.block_service,
                proposal,
                check,
                result,
            ),
{
    lemma_check_means(&ibft.validator_manager, proposal, quorum);
    let check = crate::poa::verification::proposal_1_check(
        &ibft.validator_manager,
        proposal,
        quorum,
    );
    lemma_verdict(&ibft.block_service, proposal, check, result);
    assert(check_means(&ibft.validator_manager, proposal, quorum, check));
}

/// A proposal that is accepted for a later round rests on round changes to its view that
/// at least a quorum of different validators of the height signed.
pub proof fn law_accepted_later_proposal_has_quorum<V: ValidatorManager, BS: BlockService>(
    ibft: IBFT<V, BS>,
    view: ConsensusView,
    proposal: ProposalMessageSigned,
    result: Result<(), IBFTError>,
)
    requires
        call_ensures(IBFT::<V, BS>::proposal_verify_fn, (&ibft, view, &proposal), result),
        view.round != 0,
        result is Ok,
    ensures
        proposal.message.round_change_certificate is Some,
        ({
            let list = brought_along(proposal);
            let signers = Seq::new(list.len(), |i: int| list[i].signer()->0);
            &&& list.len() >= ibft.validator_manager.quorum_at(view.height)
            &&& signers.to_set().len() >= ibft.validator_manager.quorum_at(view.height)
            &&& forall|i: int|
                #![trigger list[i]]
                0 <= i < list.len() ==> {
                    &&& list[i].view == proposal.message.view
                    &&& list[i].signer() is Some
                    &&& ibft.validator_manager.validates(
                        list[i].signer()->0,
                        proposal.message.view.height,
                    )
                }
        }),
{
    law_verdict_on_later_proposal(ibft, view, proposal, result);
    let quorum = ibft.validator_manager.quorum_at(view.height);
    let validators = &ibft.validator_manager;
    let list = brought_along(proposal);
    assert(all_proper(validators, proposal.message.view, list, list.len() as int));
    let signers = Seq::new(list.len(), |i: int| list[i].signer()->0);
    assert(signers.no_duplicates()) by {
        assert forall|i: int, j: int|
            0 <= i < signers.len() && 0 <= j < signers.len() && i != j implies signers[i]
            != signers[j] by {
            assert(is_proper(validators, proposal.message.view, list[i]));
            assert(is_proper(validators, proposal.message.view, list[j]));
            assert(!is_repeated(list, i) && !is_repeated(list, j));
        }
    }
    signers.unique_seq_to_set();
}

/// A proposal that is stored for round zero is accepted exactly for the digest of its
/// block, if the block service accepts the block.
pub proof fn law_verdict_on_first_proposal<V: ValidatorManager, BS: BlockService>(
    ibft: IBFT<V, BS>,
    view: ConsensusView,
    proposal: ProposalMessageSigned,
    result: Result<(), IBFTError>,
    alone: Result<(), IBFTError>,
)
    requires
        call_ensures(IBFT::<V, BS>::proposal_verify_fn, (&ibft, view, &proposal), result),
        call_ensures(IBFT::<V, BS>::proposal_0_verify_fn, (&ibft, &proposal), alone),
        view.round == 0,
    ensures
        !tells_its_digest(proposal) ==> result == Err::<(), IBFTError>(
            IBFTError::IncorrectProposalDigest,
        ),
        !tells_its_digest(proposal) ==> alone == Err::<(), IBFTError>(
            IBFTError::IncorrectProposalDigest,
        ),
        tells_its_digest(proposal) ==> verdict_means(
            &ibft.block_service,
            proposal,
            ProposalCheck::BlockUnverified,
            result,
        ),
        tells_its_digest(proposal) ==> verdict_means(
            &ibft.block_service,
            proposal,
            ProposalCheck::BlockUnverified,
            alone,
        ),
{
    let block = proposal.message.proposed_block;
    assert(block.raw_block.bytes@ + seq![block.round] =~= block.raw_block.bytes@.push(block.round));
    let check = crate::poa::verification::proposal_0_check(proposal);
    lemma_verdict(&ibft.block_service, proposal, check, result);
    lemma_verdict(&ibft.block_service, proposal, check, alone);
}

/// What the block service says of a block is taken over.
pub proof fn law_judgement_is_taken_over(
    verdict: Result<(), String>,
    result: Result<(), IBFTError>,
)
    requires
        call_ensures(judge_proposal, (verdict,), result),
    ensures
        result is Ok <==> verdict is Ok,
        verdict is Err ==> result == Err::<(), IBFTError>(
            IBFTError::InvalidProposalBlock(verdict->Err_0),
        ),
{
}

/// With a quorum above zero at the height, every certificate, round change and proposal
/// can be judged; a proposal of round zero can be judged in any case.
pub proof fn law_everything_can_be_judged<V: ValidatorManager, BS: BlockService>(
    ibft: IBFT<V, BS>,
    certificate: PreparedCertificate,
    round_change: RoundChangeMessageSigned,
    proposal: ProposalMessageSigned,
    view: ConsensusView,
    height: u64,
    round_limit: u8,
    quorum: usize,
)
    ensures
        ibft.validator_manager.quorum_at(height) > 0 ==> call_requires(
            IBFT::<V, BS>::verify_prepared_certificate,
            (&ibft, &certificate, height, round_limit),
        ),
        ibft.validator_manager.quorum_at(height) > 0 ==> call_requires(
            IBFT::<V, BS>::round_change_verify_fn,
            (&ibft, height, &round_change),
        ),
        ibft.validator_manager.quorum_at(proposal.message.view.height) > 0 ==> call_requires(
            IBFT::<V, BS>::proposal_1_verify_fn,
            (&ibft, quorum, &proposal),
        ),
        ibft.validator_manager.quorum_at(proposal.message.view.height) > 0 ==> call_requires(
            IBFT::<V, BS>::proposal_verify_fn,
            (&ibft, view, &proposal),
        ),
        view.round == 0 ==> call_requires(
            IBFT::<V, BS>::proposal_verify_fn,
            (&ibft, view, &proposal),
        ),
        call_requires(IBFT::<V, BS>::proposal_0_verify_fn, (&ibft, &proposal)),
{
}

} // verus!
