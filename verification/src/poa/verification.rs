//! Which proposals, round changes and certificates a validator accepts.

use crate::poa::backend::{BlockService, ValidatorManager};
use crate::poa::ibft::IBFT;
use crate::poa::types::{
    digest_block, ConsensusView, IBFTError, PrepareMessageSigned, PreparedCertificate,
    ProposalMessageSigned, ProposalMetadata, RoundChangeMessageSigned, RoundChangeMetadata,
};
use crate::primitives::address::Address;
use crate::primitives::bytes::array_eq;
use vstd::prelude::*;

verus! {

/// Whether a prepare message counts for a proposal: it is for the view and the digest
/// of the proposal, and its signer is a validator other than the proposer.
pub open spec fn prepare_counts<V: ValidatorManager>(
    validators: &V,
    proposal: ProposalMetadata,
    proposer: Seq<u8>,
    prepare: PrepareMessageSigned,
) -> bool {
    &&& prepare.view == proposal.view
    &&& prepare.proposed_block_digest == proposal.proposed_block_digest
    &&& prepare.signer() matches Some(validator) && validator != proposer && validators.validates(
        validator,
        proposal.view.height,
    )
}

/// Whether no two prepare messages have the same signer.
pub open spec fn distinct_prepares(prepares: Seq<PrepareMessageSigned>) -> bool {
    forall|i: int, j: int|
        0 <= i < j < prepares.len() ==> (#[trigger] prepares[i]).signer() != (
        #[trigger] prepares[j]).signer()
}

/// Whether a certificate shows that a block was prepared at `height` in a round before
/// `round_limit`: its proposal was signed by the proposer of its view, and all its
/// prepare messages, a quorum together with the proposer, count for the proposal and
/// have different signers.
pub open spec fn certificate_holds<V: ValidatorManager>(
    validators: &V,
    certificate: PreparedCertificate,
    height: u64,
    round_limit: u8,
) -> bool {
    let proposal = certificate.proposal;
    let prepares = certificate.prepare_messages@;
    &&& proposal.view.height == height
    &&& proposal.view.round < round_limit
    &&& proposal.signer() matches Some(proposer) && {
        &&& validators.proposes(proposer, proposal.view)
        &&& prepares.len() >= validators.quorum_at(height) - 1
        &&& forall|i: int|
            0 <= i < prepares.len() ==> prepare_counts(
                validators,
                proposal,
                proposer,
                #[trigger] prepares[i],
            )
        &&& distinct_prepares(prepares)
    }
}

/// Whether a round change is acceptable: it carries no prepared block, or the digest of
/// the block is the one in the certificate, and the certificate shows that the block was
/// prepared at `height` before the round of the round change.
pub open spec fn round_change_holds<V: ValidatorManager>(
    validators: &V,
    round_change: RoundChangeMessageSigned,
    height: u64,
) -> bool {
    match round_change.latest_prepared_proposed {
        None => true,
        Some(prepared) => {
            let certificate = prepared.prepared_certificate;
            &&& certificate.proposal.proposed_block_digest@ == prepared.proposed_block.spec_digest()
            &&& certificate_holds(validators, certificate, height, round_change.view.round)
        },
    }
}

/// What is wrong with the round change at `index` of a round change certificate.
pub open spec fn round_change_fault<V: ValidatorManager>(
    validators: &V,
    view: ConsensusView,
    round_changes: Seq<RoundChangeMetadata>,
    index: int,
) -> Option<IBFTError> {
    let round_change = round_changes[index];
    if round_change.view != view {
        Some(IBFTError::InvalidRoundChangeInCertificate)
    } else {
        match round_change.signer() {
            None => Some(IBFTError::InvalidRoundChangeInCertificate),
            Some(validator) => if !validators.validates(validator, view.height) {
                Some(IBFTError::InvalidRoundChangeInCertificate)
            } else if exists|j: int|
                0 <= j < index && (#[trigger] round_changes[j]).signer() == Some(validator) {
                Some(IBFTError::DuplicateRoundChangeInCertificate)
            } else {
                None
            },
        }
    }
}

/// What is wrong with the first round change, among the first `count`, with which
/// something is wrong.
pub open spec fn first_fault<V: ValidatorManager>(
    validators: &V,
    view: ConsensusView,
    round_changes: Seq<RoundChangeMetadata>,
    count: nat,
) -> Option<IBFTError>
    decreases count,
{
    if count == 0 {
        None
    } else {
        match first_fault(validators, view, round_changes, (count - 1) as nat) {
            Some(fault) => Some(fault),
            None => round_change_fault(validators, view, round_changes, count - 1),
        }
    }
}

/// The round of the prepared certificate of a round change that has one.
pub open spec fn prepared_round(round_change: RoundChangeMetadata) -> u8 {
    round_change.latest_prepared_certificate->0.proposal.view.round
}

/// Whether `highest` is where the prepared certificate of the greatest round is found,
/// the first one if there are several; nowhere, if no round change has a certificate.
pub open spec fn is_highest_prepared(
    round_changes: Seq<RoundChangeMetadata>,
    highest: Option<int>,
) -> bool {
    match highest {
        Some(i) => {
            &&& 0 <= i < round_changes.len()
            &&& round_changes[i].latest_prepared_certificate is Some
            &&& forall|j: int|
                0 <= j < round_changes.len() && (
                #[trigger] round_changes[j]).latest_prepared_certificate is Some
                    ==> prepared_round(round_changes[j]) <= prepared_round(round_changes[i])
            &&& forall|j: int|
                0 <= j < i && (#[trigger] round_changes[j]).latest_prepared_certificate is Some
                    ==> prepared_round(round_changes[j]) < prepared_round(round_changes[i])
        },
        None => forall|j: int|
            0 <= j < round_changes.len() ==> (
            #[trigger] round_changes[j]).latest_prepared_certificate is None,
    }
}

/// Where the prepared certificate of the greatest round is found.
pub open spec fn highest_prepared(round_changes: Seq<RoundChangeMetadata>) -> Option<int> {
    choose|highest: Option<int>| is_highest_prepared(round_changes, highest)
}

/// There is only one place where the first certificate of the greatest round is found.
pub proof fn lemma_highest_prepared(round_changes: Seq<RoundChangeMetadata>, highest: Option<int>)
    requires
        is_highest_prepared(round_changes, highest),
    ensures
        highest_prepared(round_changes) == highest,
{
    let chosen = highest_prepared(round_changes);
    assert(is_highest_prepared(round_changes, chosen));
    match (highest, chosen) {
        (Some(i), Some(j)) => {
            assert(prepared_round(round_changes[i]) <= prepared_round(round_changes[j]));
            assert(prepared_round(round_changes[j]) <= prepared_round(round_changes[i]));
        },
        (Some(i), None) => {
            assert(round_changes[i].latest_prepared_certificate is None);
        },
        (None, Some(j)) => {
            assert(round_changes[j].latest_prepared_certificate is None);
        },
        (None, None) => {},
    }
}

/// The first certificate of the greatest round is somewhere, or there is none at all.
pub proof fn lemma_highest_prepared_exists(round_changes: Seq<RoundChangeMetadata>)
    ensures
        is_highest_prepared(round_changes, highest_prepared(round_changes)),
    decreases round_changes.len(),
{
    if round_changes.len() == 0 {
        assert(is_highest_prepared(round_changes, None));
    } else {
        let shorter = round_changes.drop_last();
        let last = round_changes.len() - 1;
        lemma_highest_prepared_exists(shorter);
        assert(forall|j: int| 0 <= j < last ==> shorter[j] == #[trigger] round_changes[j]);
        let best = highest_prepared(shorter);
        let takes_last = round_changes[last].latest_prepared_certificate is Some && (best is None
            || prepared_round(round_changes[last]) > prepared_round(round_changes[best->0]));
        if takes_last {
            assert(is_highest_prepared(round_changes, Some(last)));
        } else {
            assert(is_highest_prepared(round_changes, best));
        }
    }
}

/// What a validator makes of a proposal before it asks its block service.
#[derive(Debug, Clone, PartialEq, Eq)]
pub enum ProposalCheck {
    /// The proposal is refused.
    Rejected(IBFTError),
    /// The proposal is accepted.
    Accepted,
    /// The proposal is accepted if the block service accepts the block.
    BlockUnverified,
}

/// What a validator makes of a proposal of round zero.
pub open spec fn proposal_0_check(proposal: ProposalMessageSigned) -> ProposalCheck {
    if proposal.has_block_digest() {
        ProposalCheck::BlockUnverified
    } else {
        ProposalCheck::Rejected(IBFTError::IncorrectProposalDigest)
    }
}

/// What a validator makes of a proposal of a later round whose round changes are in
/// order: a block that was prepared before must be proposed again.
pub open spec fn prepared_block_check<V: ValidatorManager>(
    validators: &V,
    proposal: ProposalMessageSigned,
    round_changes: Seq<RoundChangeMetadata>,
) -> ProposalCheck {
    match highest_prepared(round_changes) {
        Some(i) => {
            let certificate = round_changes[i].latest_prepared_certificate->0;
            let expected = crate::poa::types::block_digest(
                proposal.message.proposed_block.raw_block.bytes@,
                certificate.proposal.view.round,
            );
            let view = proposal.message.view;
            if expected == certificate.proposal.proposed_block_digest@ && certificate_holds(
                validators,
                certificate,
                view.height,
                view.round,
            ) {
                ProposalCheck::Accepted
            } else {
                ProposalCheck::Rejected(IBFTError::InvalidRoundChangeInCertificate)
            }
        },
        None => ProposalCheck::BlockUnverified,
    }
}

/// What a validator makes of a proposal of a later round.
pub open spec fn proposal_1_check<V: ValidatorManager>(
    validators: &V,
    proposal: ProposalMessageSigned,
    quorum: usize,
) -> ProposalCheck {
    if !proposal.has_block_digest() {
        ProposalCheck::Rejected(IBFTError::IncorrectProposalDigest)
    } else {
        match proposal.message.round_change_certificate {
            None => ProposalCheck::Rejected(IBFTError::MissingRoundChangeCertificate),
            Some(certificate) => {
                let round_changes = certificate.round_change_messages@;
                if round_changes.len() < quorum {
                    ProposalCheck::Rejected(IBFTError::RoundChangeCertificateQuorumNotReached)
                } else {
                    match first_fault(
                        validators,
                        proposal.message.view,
                        round_changes,
                        round_changes.len(),
                    ) {
                        Some(fault) => ProposalCheck::Rejected(fault),
                        None => prepared_block_check(validators, proposal, round_changes),
                    }
                }
            },
        }
    }
}

/// What becomes of a proposal once its block has been judged, where that was asked for.
pub open spec fn proposal_verdict(
    check: ProposalCheck,
    verdict: Result<(), String>,
) -> Result<(), IBFTError> {
    match check {
        ProposalCheck::Rejected(error) => Err(error),
        ProposalCheck::Accepted => Ok(()),
        ProposalCheck::BlockUnverified => match verdict {
            Ok(()) => Ok(()),
            Err(reason) => Err(IBFTError::InvalidProposalBlock(reason)),
        },
    }
}

/// Whether `result` follows from a check and some answer of the block service, which is
/// asked about the proposed block only where the check leaves it open.
pub open spec fn proposal_result<BS: BlockService>(
    block_service: &BS,
    proposal: ProposalMessageSigned,
    check: ProposalCheck,
    result: Result<(), IBFTError>,
) -> bool {
    match check {
        ProposalCheck::BlockUnverified => exists|verdict: Result<(), String>|
            #[trigger] block_service.judges(
                proposal.message.proposed_block.raw_block.bytes@,
                verdict,
            ) && result == proposal_verdict(check, verdict),
        _ => result == proposal_verdict(check, Ok(())),
    }
}

/// What becomes of a proposal whose block the block service has judged.
pub fn judge_proposal(verdict: Result<(), String>) -> (result: Result<(), IBFTError>)
    ensures
        result == proposal_verdict(ProposalCheck::BlockUnverified, verdict),
{
    match verdict {
        Ok(()) => Ok(()),
        Err(reason) => Err(IBFTError::InvalidProposalBlock(reason)),
    }
}

/// Whether a prepare message is for the block with a digest.
pub fn prepare_verify_fn(prepare: &PrepareMessageSigned, digest: &[u8; 32]) -> (valid: bool)
    ensures
        valid == (prepare.proposed_block_digest == *digest),
{
    array_eq(&prepare.proposed_block_digest, digest)
}

/// Whether a commit message is for the block with a digest.
pub fn commit_verify_fn(
    commit: &crate::poa::types::CommitMessageSigned,
    digest: &[u8; 32],
) -> (valid: bool)
    ensures
        valid == (commit.proposed_block_digest == *digest),
{
    array_eq(&commit.proposed_block_digest, digest)
}

/// Whether an address is among those seen.
fn contains_address(seen: &Vec<Address>, address: &Address) -> (found: bool)
    ensures
        found == exists|i: int| 0 <= i < seen@.len() && (#[trigger] seen@[i]).bytes@ == address.bytes@,
{
    let mut i: usize = 0;
    while i < seen.len()
        invariant
            i <= seen@.len(),
            forall|j: int| 0 <= j < i ==> (#[trigger] seen@[j]).bytes@ != address.bytes@,
        decreases seen@.len() - i,
    {
        if seen[i] == *address {
            return true;
        }
        assert(seen@[i as int].bytes@ == address.bytes@ ==> seen@[i as int].bytes
            =~= address.bytes);
        i += 1;
    }
    false
}

impl<V: ValidatorManager, BS: BlockService> IBFT<V, BS> {
    /// Decides whether a certificate shows that a block was prepared at `height` in a
    /// round before `round_limit`.
    pub fn verify_prepared_certificate(
        &self,
        prepared_certificate: &PreparedCertificate,
        height: u64,
        round_limit: u8,
    ) -> (valid: bool)
        requires
            self.validator_manager.quorum_at(height) > 0,
        ensures
            valid == certificate_holds(
                &self.validator_manager,
                *prepared_certificate,
                height,
                round_limit,
            ),
    {
        let proposal = &prepared_certificate.proposal;
        let view = proposal.view;
        if view.height != height || view.round >= round_limit {
            return false;
        }
        let proposer = match proposal.recover_signer() {
            Ok(proposer) => proposer,
            Err(_) => {
                return false;
            },
        };
        if !self.validator_manager.is_proposer(proposer, view) {
            return false;
        }
        let prepares = &prepared_certificate.prepare_messages;
        let quorum: usize = self.validator_manager.quorum(height);
        if prepares.len() < quorum - 1 {
            return false;
        }
        let mut seen_validators: Vec<Address> = Vec::new();
        let mut i: usize = 0;
        while i < prepares.len()
            invariant
                i <= prepares@.len(),
                prepares@ == prepared_certificate.prepare_messages@,
                *proposal == prepared_certificate.proposal,
                view == proposal.view,
                view.height == height,
                proposal.signer() == Some(proposer.bytes@),
                seen_validators@.len() == i,
                forall|j: int|
                    0 <= j < i ==> (#[trigger] prepares@[j]).signer() == Some(
                        seen_validators@[j].bytes@,
                    ),
                forall|j: int|
                    0 <= j < i ==> prepare_counts(
                        &self.validator_manager,
                        *proposal,
                        proposer.bytes@,
                        #[trigger] prepares@[j],
                    ),
                distinct_prepares(prepares@.take(i as int)),
            decreases prepares@.len() - i,
        {
            let prepare = &prepares[i];
            assert(certificate_holds(
                &self.validator_manager,
                *prepared_certificate,
                height,
                round_limit,
            ) ==> prepare_counts(
                &self.validator_manager,
                *proposal,
                proposer.bytes@,
                prepares@[i as int],
            ));
            if view != prepare.view {
                return false;
            }
            if !array_eq(&prepare.proposed_block_digest, &proposal.proposed_block_digest) {
                return false;
            }
            let validator = match prepare.recover_signer() {
                Ok(validator) => validator,
                Err(_) => {
                    return false;
                },
            };
            assert(validator.bytes@ == proposer.bytes@ ==> validator.bytes =~= proposer.bytes);
            if validator == proposer || !self.validator_manager.is_validator(
                validator,
                view.height,
            ) {
                return false;
            }
            if contains_address(&seen_validators, &validator) {
                proof {
                    let j = choose|j: int|
                        0 <= j < seen_validators@.len() && (#[trigger] seen_validators@[j]).bytes@
                            == validator.bytes@;
                    assert(prepares@[j].signer() == prepares@[i as int].signer());
                }
                return false;
            }
            seen_validators.push(validator);
            i += 1;
            proof {
                let taken = prepares@.take(i as int);
                assert forall|a: int, b: int| 0 <= a < b < taken.len() implies (
                #[trigger] taken[a]).signer() != (#[trigger] taken[b]).signer() by {
                    if b < i - 1 {
                        assert(prepares@.take(i - 1)[a] == taken[a]);
                        assert(prepares@.take(i - 1)[b] == taken[b]);
                    } else {
                        assert(prepares@[a].signer() == Some(seen_validators@[a].bytes@));
                    }
                }
            }
        }
        assert(prepares@.take(i as int) =~= prepares@);
        true
    }

    /// Decides whether a round change is acceptable at `height`.
    pub fn round_change_verify_fn(
        &self,
        height: u64,
        round_change: &RoundChangeMessageSigned,
    ) -> (valid: bool)
        requires
            self.validator_manager.quorum_at(height) > 0,
        ensures
            valid == round_change_holds(&self.validator_manager, *round_change, height),
    {
        match &round_change.latest_prepared_proposed {
            None => true,
            Some(prepared) => {
                let certificate = &prepared.prepared_certificate;
                let digest: [u8; 32] = prepared.proposed_block.digest();
                assert(certificate.proposal.proposed_block_digest@ == digest@
                    ==> certificate.proposal.proposed_block_digest =~= digest);
                if !array_eq(&certificate.proposal.proposed_block_digest, &digest) {
                    return false;
                }
                self.verify_prepared_certificate(certificate, height, round_change.view.round)
            },
        }
    }

    /// Goes through the round changes of a certificate: finds the first fault, or else
    /// the first prepared certificate of the greatest round.
    fn check_round_changes<'a>(
        &self,
        view: ConsensusView,
        round_changes: &'a Vec<RoundChangeMetadata>,
    ) -> (checked: Result<Option<&'a PreparedCertificate>, IBFTError>)
        ensures
            match checked {
                Err(error) => first_fault(
                    &self.validator_manager,
                    view,
                    round_changes@,
                    round_changes@.len(),
                ) == Some(error),
                Ok(highest) => {
                    &&& first_fault(
                        &self.validator_manager,
                        view,
                        round_changes@,
                        round_changes@.len(),
                    ) is None
                    &&& match highest {
                        Some(certificate) => highest_prepared(round_changes@) matches Some(i) && {
                            &&& 0 <= i < round_changes@.len()
                            &&& round_changes@[i].latest_prepared_certificate == Some(*certificate)
                        },
                        None => highest_prepared(round_changes@) is None,
                    }
                },
            },
    {
        let mut highest: Option<&'a PreparedCertificate> = None;
        let ghost mut highest_at: int = 0;
        let mut seen_validators: Vec<Address> = Vec::new();
        let mut i: usize = 0;
        while i < round_changes.len()
            invariant
                i <= round_changes@.len(),
                first_fault(&self.validator_manager, view, round_changes@, i as nat) is None,
                seen_validators@.len() == i,
                forall|j: int|
                    0 <= j < i ==> (#[trigger] round_changes@[j]).signer() == Some(
                        seen_validators@[j].bytes@,
                    ),
                match highest {
                    Some(certificate) => {
                        &&& 0 <= highest_at < i
                        &&& round_changes@[highest_at].latest_prepared_certificate == Some(
                            *certificate,
                        )
                        &&& is_highest_prepared(round_changes@.take(i as int), Some(highest_at))
                    },
                    None => is_highest_prepared(round_changes@.take(i as int), None),
                },
            decreases round_changes@.len() - i,
        {
            let round_change = &round_changes[i];
            let ghost fault = round_change_fault(
                &self.validator_manager,
                view,
                round_changes@,
                i as int,
            );
            proof {
                reveal_with_fuel(first_fault, 2);
                assert(first_fault(&self.validator_manager, view, round_changes@, (i + 1) as nat)
                    == fault);
                if fault is Some {
                    lemma_fault_stays(
                        &self.validator_manager,
                        view,
                        round_changes@,
                        (i + 1) as nat,
                        round_changes@.len(),
                    );
                }
            }
            if round_change.view != view {
                return Err(IBFTError::InvalidRoundChangeInCertificate);
            }
            let validator = match round_change.recover_signer() {
                Ok(validator) => validator,
                Err(_) => {
                    return Err(IBFTError::InvalidRoundChangeInCertificate);
                },
            };
            if !self.validator_manager.is_validator(validator, view.height) {
                return Err(IBFTError::InvalidRoundChangeInCertificate);
            }
            if contains_address(&seen_validators, &validator) {
                proof {
                    let j = choose|j: int|
                        0 <= j < seen_validators@.len() && (#[trigger] seen_validators@[j]).bytes@
                            == validator.bytes@;
                    assert(round_changes@[j].signer() == Some(validator.bytes@));
                }
                return Err(IBFTError::DuplicateRoundChangeInCertificate);
            }
            assert(fault is None) by {
                assert forall|j: int| 0 <= j < i implies (#[trigger] round_changes@[j]).signer()
                    != Some(validator.bytes@) by {
                    assert(seen_validators@[j].bytes@ != validator.bytes@);
                }
            }
            seen_validators.push(validator);
            let ghost before = round_changes@.take(i as int);
            let ghost after = round_changes@.take(i + 1);
            assert(forall|j: int| 0 <= j < i ==> before[j] == #[trigger] after[j]);
            if let Some(certificate) = &round_change.latest_prepared_certificate {
                let is_later = match highest {
                    Some(found) => certificate.proposal.view.round > found.proposal.view.round,
                    None => true,
                };
                if is_later {
                    highest = Some(certificate);
                    proof {
                        highest_at = i as int;
                    }
                }
            }
            i += 1;
        }
        proof {
            assert(round_changes@.take(i as int) =~= round_changes@);
            match highest {
                Some(_) => lemma_highest_prepared(round_changes@, Some(highest_at)),
                None => lemma_highest_prepared(round_changes@, None),
            }
        }
        Ok(highest)
    }

    /// Checks a proposal of a later round as far as that goes without the block service.
    pub fn check_proposal_1(&self, proposal: &ProposalMessageSigned, quorum: usize) -> (check:
        ProposalCheck)
        requires
            self.validator_manager.quorum_at(proposal.message.view.height) > 0,
        ensures
            check == proposal_1_check(&self.validator_manager, *proposal, quorum),
    {
        if !proposal.verify_block_digest() {
            return ProposalCheck::Rejected(IBFTError::IncorrectProposalDigest);
        }
        let round_changes = match &proposal.message.round_change_certificate {
            Some(certificate) => &certificate.round_change_messages,
            None => {
                return ProposalCheck::Rejected(IBFTError::MissingRoundChangeCertificate);
            },
        };
        if round_changes.len() < quorum {
            return ProposalCheck::Rejected(IBFTError::RoundChangeCertificateQuorumNotReached);
        }
        let view = proposal.message.view;
        let highest = match self.check_round_changes(view, round_changes) {
            Ok(highest) => highest,
            Err(error) => {
                return ProposalCheck::Rejected(error);
            },
        };
        match highest {
            Some(certificate) => {
                let expected: [u8; 32] = digest_block(
                    &proposal.message.proposed_block.raw_block,
                    certificate.proposal.view.round,
                );
                assert(certificate.proposal.proposed_block_digest@ == expected@
                    ==> certificate.proposal.proposed_block_digest =~= expected);
                if !array_eq(&expected, &certificate.proposal.proposed_block_digest) {
                    return ProposalCheck::Rejected(IBFTError::InvalidRoundChangeInCertificate);
                }
                if !self.verify_prepared_certificate(certificate, view.height, view.round) {
                    return ProposalCheck::Rejected(IBFTError::InvalidRoundChangeInCertificate);
                }
                ProposalCheck::Accepted
            },
            None => ProposalCheck::BlockUnverified,
        }
    }

    /// Decides whether a proposal of a later round is accepted.
    pub fn proposal_1_verify_fn(&self, quorum: usize, proposal: &ProposalMessageSigned) -> (result:
        Result<(), IBFTError>)
        requires
            self.validator_manager.quorum_at(proposal.message.view.height) > 0,
        ensures
            proposal_result(
                &self.block_service,
                *proposal,
                proposal_1_check(&self.validator_manager, *proposal, quorum),
                result,
            ),
    {
        match self.check_proposal_1(proposal, quorum) {
            ProposalCheck::Rejected(error) => Err(error),
            ProposalCheck::Accepted => Ok(()),
            ProposalCheck::BlockUnverified => {
                let verdict = self.block_service.verify_block(
                    &proposal.message.proposed_block.raw_block,
                );
                judge_proposal(verdict)
            },
        }
    }

    /// Decides whether a proposal of round zero is accepted.
    pub fn proposal_0_verify_fn(&self, proposal: &ProposalMessageSigned) -> (result: Result<
        (),
        IBFTError,
    >)
        ensures
            proposal_result(&self.block_service, *proposal, proposal_0_check(*proposal), result),
    {
        if !proposal.verify_block_digest() {
            return Err(IBFTError::IncorrectProposalDigest);
        }
        let verdict = self.block_service.verify_block(&proposal.message.proposed_block.raw_block);
        judge_proposal(verdict)
    }
}

/// What a validator makes of a proposal that is stored for a view.
pub open spec fn view_proposal_check<V: ValidatorManager>(
    validators: &V,
    view: ConsensusView,
    proposal: ProposalMessageSigned,
) -> ProposalCheck {
    if view.round == 0 {
        proposal_0_check(proposal)
    } else {
        proposal_1_check(validators, proposal, validators.quorum_at(view.height))
    }
}

impl<V: ValidatorManager, BS: BlockService> IBFT<V, BS> {
    /// Decides whether a proposal that is stored for a view is accepted.
    pub fn proposal_verify_fn(&self, view: ConsensusView, proposal: &ProposalMessageSigned) -> (result:
        Result<(), IBFTError>)
        requires
            view.round != 0 ==> self.validator_manager.quorum_at(proposal.message.view.height) > 0,
        ensures
            proposal_result(
                &self.block_service,
                *proposal,
                view_proposal_check(&self.validator_manager, view, *proposal),
                result,
            ),
    {
        if view.round == 0 {
            self.proposal_0_verify_fn(proposal)
        } else {
            let quorum: usize = self.validator_manager.quorum(view.height);
            self.proposal_1_verify_fn(quorum, proposal)
        }
    }
}

/// A fault among the first `fewer` round changes is the first fault among `more`.
proof fn lemma_fault_stays<V: ValidatorManager>(
    validators: &V,
    view: ConsensusView,
    round_changes: Seq<RoundChangeMetadata>,
    fewer: nat,
    more: nat,
)
    requires
        fewer <= more,
        first_fault(validators, view, round_changes, fewer) is Some,
    ensures
        first_fault(validators, view, round_changes, more) == first_fault(
            validators,
            view,
            round_changes,
            fewer,
        ),
    decreases more,
{
    if fewer < more {
        lemma_fault_stays(validators, view, round_changes, fewer, (more - 1) as nat);
    }
}

} // verus!
