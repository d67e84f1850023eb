//! What holds of the engine as a whole.

use crate::poa::backend::{BlockService, ValidatorManager};
use crate::poa::ibft::{RoundTime, RunState, IBFT, MAX_ROUND, ROUND_ARRAY_SIZE};
use crate::poa::round::{Phase, Round, RoundAction, RoundEvent};
use crate::poa::run::{HeightRun, RoundOutcome, RunStep};
use crate::poa::types::{
    ConsensusView, IBFTError, PrepareMessageSigned, PreparedCertificate, ProposalMessageSigned,
    RawBlock, RoundChangeCertificate, RoundChangeMessageSigned, RoundChangeMetadata,
};
use crate::poa::verification::ProposalCheck;
use crate::poa::watch::{FutureProposal, FutureRcc, WatchAction};
use crate::primitives::signer::Signer;
use vstd::prelude::*;

verus! {

/// A certificate that shows a block to be prepared before a round shows it for every
/// later round too.
pub proof fn law_certificate_stays_valid<V: ValidatorManager>(
    validators: &V,
    certificate: PreparedCertificate,
    height: u64,
    round_limit: u8,
    later_limit: u8,
)
    requires
        crate::poa::verification::certificate_holds(validators, certificate, height, round_limit),
        round_limit <= later_limit,
    ensures
        crate::poa::verification::certificate_holds(validators, certificate, height, later_limit),
{
}

/// The signers of a certificate that holds, the proposer among them, are different
/// key holders, at least as many as the quorum.
pub proof fn law_certificate_has_quorum<V: ValidatorManager>(
    validators: &V,
    certificate: PreparedCertificate,
    height: u64,
    round_limit: u8,
)
    requires
        crate::poa::verification::certificate_holds(validators, certificate, height, round_limit),
    ensures
        ({
            let signers = certificate_signers(certificate);
            &&& signers.finite()
            &&& signers.len() >= validators.quorum_at(height)
            &&& forall|signer: Seq<u8>| #[trigger]
                signers.contains(signer) ==> Some(signer) == certificate.proposal.signer()
                    || validators.validates(signer, height)
        }),
{
    let prepares = certificate.prepare_messages@;
    let list = prepare_signers(prepares);
    let proposer = certificate.proposal.signer()->0;
    assert(list.no_duplicates()) by {
        assert forall|i: int, j: int|
            0 <= i < list.len() && 0 <= j < list.len() && i != j implies list[i] != list[j] by {
            assert(prepares[i].signer() is Some && prepares[j].signer() is Some);
            if i < j {
                assert(prepares[i].signer() != prepares[j].signer());
            } else {
                assert(prepares[j].signer() != prepares[i].signer());
            }
        }
    }
    list.unique_seq_to_set();
    assert(!list.to_set().contains(proposer)) by {
        if list.to_set().contains(proposer) {
            let i = choose|i: int| 0 <= i < list.len() && list[i] == proposer;
            assert(prepares[i].signer() == Some(proposer));
        }
    }
    assert forall|signer: Seq<u8>| #[trigger]
        certificate_signers(certificate).contains(signer) implies Some(signer)
        == certificate.proposal.signer() || validators.validates(signer, height) by {
        if signer != proposer {
            assert(list.contains(signer));
            let i = choose|i: int| 0 <= i < list.len() && list[i] == signer;
            assert(prepares[i].signer() == Some(signer));
        }
    }
}

/// The signers of prepare messages.
pub open spec fn prepare_signers(prepares: Seq<PrepareMessageSigned>) -> Seq<Seq<u8>> {
    Seq::new(prepares.len(), |i: int| prepares[i].signer()->0)
}

/// The signers of a certificate, the proposer among them.
pub open spec fn certificate_signers(certificate: PreparedCertificate) -> Set<Seq<u8>> {
    prepare_signers(certificate.prepare_messages@).to_set().insert(
        certificate.proposal.signer()->0,
    )
}

/// The signers of round changes.
pub open spec fn round_change_signers(round_changes: Seq<RoundChangeMetadata>) -> Seq<Seq<u8>> {
    Seq::new(round_changes.len(), |i: int| round_changes[i].signer()->0)
}

/// The round changes of a certificate are in order exactly if all of them are for the
/// view and signed by validators, no two by the same one.
pub proof fn law_no_fault<V: ValidatorManager>(
    validators: &V,
    view: ConsensusView,
    round_changes: Seq<RoundChangeMetadata>,
)
    ensures
        crate::poa::verification::first_fault(
            validators,
            view,
            round_changes,
            round_changes.len(),
        ) is None <==> round_changes_in_order(validators, view, round_changes),
{
    lemma_no_fault(validators, view, round_changes, round_changes.len());
    if round_changes_in_order(validators, view, round_changes) {
        assert forall|i: int| 0 <= i < round_changes.len() implies #[trigger] fault_at(
            validators,
            view,
            round_changes,
            i,
        ) is None by {
            assert(round_changes[i].view == view);
        }
    } else if forall|i: int|
        0 <= i < round_changes.len() ==> #[trigger] fault_at(
            validators,
            view,
            round_changes,
            i,
        ) is None {
        assert forall|i: int| 0 <= i < round_changes.len() implies {
            &&& (#[trigger] round_changes[i]).view == view
            &&& round_changes[i].signer() matches Some(signer) && validators.validates(
                signer,
                view.height,
            )
        } by {
            assert(fault_at(validators, view, round_changes, i) is None);
        }
        assert forall|i: int, j: int| 0 <= i < j < round_changes.len() implies (
        #[trigger] round_changes[i]).signer() != (#[trigger] round_changes[j]).signer() by {
            assert(fault_at(validators, view, round_changes, j) is None);
        }
    }
}

/// Whether all round changes are for the view and signed by validators, no two by the
/// same one.
pub open spec fn round_changes_in_order<V: ValidatorManager>(
    validators: &V,
    view: ConsensusView,
    round_changes: Seq<RoundChangeMetadata>,
) -> bool {
    &&& forall|i: int|
        0 <= i < round_changes.len() ==> {
            &&& (#[trigger] round_changes[i]).view == view
            &&& round_changes[i].signer() matches Some(signer) && validators.validates(
                signer,
                view.height,
            )
        }
    &&& forall|i: int, j: int|
        0 <= i < j < round_changes.len() ==> (#[trigger] round_changes[i]).signer() != (
        #[trigger] round_changes[j]).signer()
}

/// What is wrong with the round change at `index`.
spec fn fault_at<V: ValidatorManager>(
    validators: &V,
    view: ConsensusView,
    round_changes: Seq<RoundChangeMetadata>,
    index: int,
) -> Option<IBFTError> {
    crate::poa::verification::round_change_fault(validators, view, round_changes, index)
}

/// There is no first fault if there is none at all.
proof fn lemma_no_fault<V: ValidatorManager>(
    validators: &V,
    view: ConsensusView,
    round_changes: Seq<RoundChangeMetadata>,
    count: nat,
)
    requires
        count <= round_changes.len(),
    ensures
        crate::poa::verification::first_fault(validators, view, round_changes, count) is None <==> (
        forall|i: int|
            0 <= i < count ==> #[trigger] fault_at(validators, view, round_changes, i) is None),
    decreases count,
{
    if count > 0 {
        lemma_no_fault(validators, view, round_changes, (count - 1) as nat);
        assert(fault_at(validators, view, round_changes, count - 1)
            == crate::poa::verification::round_change_fault(
            validators,
            view,
            round_changes,
            count - 1,
        ));
    }
}

/// A proposal of a later round that is not refused rests on round changes to its view by
/// different validators, at least as many as the quorum.
pub proof fn law_accepted_proposal_has_quorum<V: ValidatorManager>(
    validators: &V,
    proposal: ProposalMessageSigned,
    quorum: usize,
)
    requires
        !(crate::poa::verification::proposal_1_check(
            validators,
            proposal,
            quorum,
        ) is Rejected),
    ensures
        proposal.message.round_change_certificate matches Some(certificate) && {
            let round_changes = certificate.round_change_messages@;
            let signers = round_change_signers(round_changes).to_set();
            &&& round_changes_in_order(validators, proposal.message.view, round_changes)
            &&& signers.len() >= quorum
            &&& forall|signer: Seq<u8>| #[trigger]
                signers.contains(signer) ==> validators.validates(
                    signer,
                    proposal.message.view.height,
                )
        },
{
    let view = proposal.message.view;
    let round_changes = proposal.message.round_change_certificate->0.round_change_messages@;
    law_no_fault(validators, view, round_changes);
    let list = round_change_signers(round_changes);
    assert(list.no_duplicates()) by {
        assert forall|i: int, j: int|
            0 <= i < list.len() && 0 <= j < list.len() && i != j implies list[i] != list[j] by {
            assert(round_changes[i].signer() is Some && round_changes[j].signer() is Some);
            if i < j {
                assert(round_changes[i].signer() != round_changes[j].signer());
            } else {
                assert(round_changes[j].signer() != round_changes[i].signer());
            }
        }
    }
    list.unique_seq_to_set();
    assert forall|signer: Seq<u8>| #[trigger]
        list.to_set().contains(signer) implies validators.validates(signer, view.height) by {
        let i = choose|i: int| 0 <= i < list.len() && list[i] == signer;
        assert(round_changes[i].view == view);
    }
}

/// The digest of a proposal that a validator makes itself is that of its block.
pub proof fn law_own_proposal_has_block_digest(
    proposal: ProposalMessageSigned,
    view: ConsensusView,
    raw_block: RawBlock,
    certificate: Option<RoundChangeCertificate>,
    signer: Signer,
)
    requires
        proposal.is_proposal_of(view, raw_block, certificate, signer),
    ensures
        proposal.has_block_digest(),
        crate::poa::verification::proposal_0_check(proposal) == ProposalCheck::BlockUnverified,
{
}

/// The round change of a validator whose round timed out in the commit state is
/// acceptable to all: its block carries the digest of its evidence, and the evidence
/// holds, if the proposal came from the proposer and the prepare messages count for it.
pub proof fn law_timeout_round_change_is_acceptable<V: ValidatorManager>(
    validators: &V,
    proposal: ProposalMessageSigned,
    prepares: Vec<PrepareMessageSigned>,
    latest: Option<RoundChangeMessageSigned>,
    round_change: RoundChangeMessageSigned,
    signer: Signer,
)
    requires
        proposal.message.view.round < u8::MAX,
        round_change.is_round_change_of(
            ConsensusView {
                height: proposal.message.view.height,
                round: (proposal.message.view.round + 1) as u8,
            },
            crate::poa::run::prepared_to_tell(Some((proposal, prepares)), latest),
            signer,
        ),
        proposal.has_block_digest(),
        proposal.metadata().signer() is Some,
        validators.proposes(proposal.metadata().signer()->0, proposal.message.view),
        prepares@.len() >= validators.quorum_at(proposal.message.view.height) - 1,
        forall|i: int|
            0 <= i < prepares@.len() ==> crate::poa::verification::prepare_counts(
                validators,
                proposal.metadata(),
                proposal.metadata().signer()->0,
                #[trigger] prepares@[i],
            ),
        crate::poa::verification::distinct_prepares(prepares@),
    ensures
        crate::poa::verification::round_change_holds(
            validators,
            round_change,
            proposal.message.view.height,
        ),
{
}

/// A round change that is acceptable stays so when its sender moves it to a later round.
pub proof fn law_resent_round_change_is_acceptable<V: ValidatorManager>(
    validators: &V,
    round_change: RoundChangeMessageSigned,
    resent: RoundChangeMessageSigned,
    height: u64,
    signer: Signer,
)
    requires
        crate::poa::verification::round_change_holds(validators, round_change, height),
        resent.is_round_change_of(
            resent.view,
            round_change.latest_prepared_proposed,
            signer,
        ),
        resent.view.round >= round_change.view.round,
    ensures
        crate::poa::verification::round_change_holds(validators, resent, height),
{
}

/// Where the round change at `index` of a certificate came from among the messages that
/// the proposer took.
spec fn origin(messages: Seq<RoundChangeMessageSigned>, index: int) -> int {
    match crate::poa::round::latest_prepared(messages) {
        Some(latest) => if index == messages.len() - 1 {
            latest
        } else if index == latest {
            messages.len() - 1
        } else {
            index
        },
        None => index,
    }
}

/// A certificate holds the round changes that it was made from, in another order.
proof fn lemma_origin(messages: Seq<RoundChangeMessageSigned>)
    ensures
        ({
            let list = crate::poa::round::certificate_messages(messages);
            &&& list.len() == messages.len()
            &&& forall|k: int|
                0 <= k < list.len() ==> 0 <= origin(messages, k) < messages.len()
                    && #[trigger] list[k] == messages[origin(messages, k)].metadata()
            &&& forall|j: int, k: int|
                0 <= j < list.len() && 0 <= k < list.len() && j != k ==> #[trigger] origin(
                    messages,
                    j,
                ) != #[trigger] origin(messages, k)
        }),
{
    crate::poa::verification::lemma_highest_prepared_exists(
        crate::poa::round::metadata_list(messages),
    );
}

/// Whether, of the blocks that round changes bring along, the one prepared last is beyond
/// doubt: it is proposed in the round of its evidence, and all certificates of that
/// round are for the same digest.
pub open spec fn latest_is_beyond_doubt(messages: Seq<RoundChangeMessageSigned>) -> bool {
    crate::poa::round::latest_prepared(messages) matches Some(latest) ==> {
        let prepared = messages[latest].latest_prepared_proposed->0;
        let proposal = prepared.prepared_certificate.proposal;
        &&& prepared.proposed_block.round == proposal.view.round
        &&& forall|i: int|
            0 <= i < messages.len() && (
            #[trigger] messages[i]).latest_prepared_proposed is Some ==> {
                let other = messages[i].latest_prepared_proposed->0.prepared_certificate.proposal;
                other.view.round == proposal.view.round ==> other.proposed_block_digest
                    == proposal.proposed_block_digest
            }
    }
}

/// What a proposer makes of a quorum of acceptable round changes, all for the view and
/// from different validators, is refused by nobody. A block that was prepared before is
/// accepted as it is, and a new one is still judged.
pub proof fn law_certified_proposal_is_not_refused<V: ValidatorManager>(
    validators: &V,
    messages: Seq<RoundChangeMessageSigned>,
    view: ConsensusView,
    raw_block: RawBlock,
    certificate: RoundChangeCertificate,
    proposal: ProposalMessageSigned,
    signer: Signer,
    quorum: usize,
)
    requires
        messages.len() >= quorum,
        forall|i: int|
            0 <= i < messages.len() ==> {
                &&& (#[trigger] messages[i]).view == view
                &&& messages[i].signer() matches Some(sender) && validators.validates(
                    sender,
                    view.height,
                )
                &&& crate::poa::verification::round_change_holds(
                    validators,
                    messages[i],
                    view.height,
                )
            },
        forall|i: int, j: int|
            0 <= i < j < messages.len() ==> (#[trigger] messages[i]).signer() != (
            #[trigger] messages[j]).signer(),
        certificate.round_change_messages@ == crate::poa::round::certificate_messages(messages),
        crate::poa::round::certificate_block(messages) is Some ==> Some(raw_block)
            == crate::poa::round::certificate_block(messages),
        proposal.is_proposal_of(view, raw_block, Some(certificate), signer),
        latest_is_beyond_doubt(messages),
    ensures
        crate::poa::verification::proposal_1_check(validators, proposal, quorum)
            == if crate::poa::round::certificate_block(messages) is Some {
            ProposalCheck::Accepted
        } else {
            ProposalCheck::BlockUnverified
        },
{
    let list = certificate.round_change_messages@;
    let taken = crate::poa::round::metadata_list(messages);
    lemma_origin(messages);
    crate::poa::verification::lemma_highest_prepared_exists(taken);
    crate::poa::verification::lemma_highest_prepared_exists(list);
    assert(forall|i: int| 0 <= i < messages.len() ==> #[trigger] taken[i] == messages[i].metadata());
    assert forall|k: int| 0 <= k < list.len() implies (#[trigger] list[k]).signer()
        == messages[origin(messages, k)].signer() by {}
    assert(round_changes_in_order(validators, view, list)) by {
        assert forall|i: int, j: int| 0 <= i < j < list.len() implies (
        #[trigger] list[i]).signer() != (#[trigger] list[j]).signer() by {
            let a = origin(messages, i);
            let b = origin(messages, j);
            assert(a != b);
            assert(list[i].signer() == messages[a].signer());
            assert(list[j].signer() == messages[b].signer());
            if a < b {
                assert(messages[a].signer() != messages[b].signer());
            } else {
                assert(messages[b].signer() != messages[a].signer());
            }
        }
    }
    law_no_fault(validators, view, list);
    let last = messages.len() - 1;
    match (
        crate::poa::round::latest_prepared(messages),
        crate::poa::verification::highest_prepared(list),
    ) {
        (Some(latest), Some(h)) => {
            let j = origin(messages, h);
            assert(list[h] == messages[j].metadata() && list[h] == taken[j]);
            assert(origin(messages, last) == latest);
            assert(list[last] == messages[latest].metadata());
            assert(crate::poa::verification::prepared_round(list[last])
                <= crate::poa::verification::prepared_round(list[h]));
            assert(crate::poa::verification::prepared_round(taken[j])
                <= crate::poa::verification::prepared_round(taken[latest]));
            assert(messages[j].latest_prepared_proposed is Some);
        },
        (Some(latest), None) => {
            assert(origin(messages, last) == latest);
            assert(list[last] == messages[latest].metadata());
        },
        (None, Some(h)) => {
            assert(list[h] == taken[origin(messages, h)]);
        },
        (None, None) => {},
    }
}

/// A block that was prepared, in whatever round, is not replaced: a proposal of a later
/// round whose round changes bring evidence along is accepted only for the block that
/// the evidence of the greatest round is about, and only if that evidence holds.
pub proof fn law_prepared_block_is_kept<V: ValidatorManager>(
    validators: &V,
    proposal: ProposalMessageSigned,
    quorum: usize,
    index: int,
)
    requires
        !(crate::poa::verification::proposal_1_check(
            validators,
            proposal,
            quorum,
        ) is Rejected),
        ({
            let round_changes = proposal.message.round_change_certificate->0.round_change_messages@;
            &&& 0 <= index < round_changes.len()
            &&& round_changes[index].latest_prepared_certificate is Some
        }),
    ensures
        ({
            let view = proposal.message.view;
            let round_changes = proposal.message.round_change_certificate->0.round_change_messages@;
            &&& crate::poa::verification::proposal_1_check(validators, proposal, quorum)
                == ProposalCheck::Accepted
            &&& crate::poa::verification::highest_prepared(round_changes) matches Some(highest) && {
                let certificate = round_changes[highest].latest_prepared_certificate->0;
                let round = certificate.proposal.view.round;
                &&& 0 <= highest < round_changes.len()
                &&& round_changes[highest].latest_prepared_certificate is Some
                &&& round >= crate::poa::verification::prepared_round(round_changes[index])
                &&& crate::poa::types::block_digest(
                    proposal.message.proposed_block.raw_block.bytes@,
                    round,
                ) == certificate.proposal.proposed_block_digest@
                &&& crate::poa::verification::certificate_holds(
                    validators,
                    certificate,
                    view.height,
                    view.round,
                )
            }
        }),
{
    crate::poa::verification::lemma_highest_prepared_exists(
        proposal.message.round_change_certificate->0.round_change_messages@,
    );
}

/// The digest that a round is about, once there is one.
pub open spec fn phase_digest(phase: Phase) -> Option<[u8; 32]> {
    match phase {
        Phase::ProposalSend { digest } => Some(digest),
        Phase::PrepareSend { digest } => Some(digest),
        Phase::PrepareQuery { digest } => Some(digest),
        Phase::PrepareWait { digest, .. } => Some(digest),
        Phase::CommitSend { digest } => Some(digest),
        Phase::CommitQuery { digest } => Some(digest),
        Phase::CommitWait { digest, .. } => Some(digest),
        _ => None,
    }
}

/// A step of a round keeps its view and its quorum, never goes back to an earlier state
/// and, until the round ends, stays with the digest it is about.
pub proof fn law_round_stays_on_course<V: ValidatorManager, BS: BlockService>(
    ibft: IBFT<V, BS>,
    before: Round,
    event: RoundEvent,
    after: Round,
    action: RoundAction,
)
    requires
        crate::poa::round::round_advances(ibft, before, event, after, action),
    ensures
        after.view == before.view,
        after.quorum == before.quorum,
        !(after.phase is Ended) ==> after.spec_run_state().number()
            >= before.spec_run_state().number(),
        !(after.phase is Ended) && phase_digest(before.phase) is Some ==> phase_digest(after.phase)
            == phase_digest(before.phase),
{
}

/// The course of a round: the states it goes through, the events that take it from one
/// to the next, and the actions that it calls for in each.
pub struct Course {
    pub rounds: Seq<Round>,
    pub events: Seq<RoundEvent>,
    pub actions: Seq<RoundAction>,
}

impl Course {
    /// Whether the course is one that the engine takes in a view.
    pub open spec fn is_course_of<V: ValidatorManager, BS: BlockService>(
        self,
        ibft: IBFT<V, BS>,
        view: ConsensusView,
    ) -> bool {
        &&& self.rounds.len() == self.events.len() + 1
        &&& self.actions.len() == self.rounds.len()
        &&& crate::poa::round::round_opens(ibft, view, self.rounds[0], self.actions[0])
        &&& forall|i: int|
            0 <= i < self.events.len() ==> crate::poa::round::round_advances(
                ibft,
                self.rounds[i],
                #[trigger] self.events[i],
                self.rounds[i + 1],
                self.actions[i + 1],
            )
    }

    /// Whether at step `i` enough prepare messages for a digest were reported.
    pub open spec fn prepared_at(self, i: int, digest: [u8; 32], quorum: usize) -> bool {
        &&& 0 <= i < self.events.len()
        &&& self.rounds[i].phase == (Phase::PrepareQuery { digest })
        &&& self.events[i] matches RoundEvent::PrepareCount(count) && count >= quorum - 1
    }
}

/// The view and the quorum are the same throughout, and a round that is past the prepare
/// state had enough prepare messages for its digest reported.
proof fn lemma_course<V: ValidatorManager, BS: BlockService>(
    ibft: IBFT<V, BS>,
    view: ConsensusView,
    course: Course,
    k: int,
)
    requires
        course.is_course_of(ibft, view),
        0 <= k < course.rounds.len(),
    ensures
        course.rounds[k].view == view,
        course.rounds[k].quorum == ibft.validator_manager.quorum_at(view.height),
        (course.rounds[k].phase is CommitSend || course.rounds[k].phase is CommitQuery
            || course.rounds[k].phase is CommitWait) ==> exists|i: int|
            i < k && #[trigger] course.prepared_at(
                i,
                phase_digest(course.rounds[k].phase)->0,
                course.rounds[k].quorum,
            ),
    decreases k,
{
    if k > 0 {
        lemma_course(ibft, view, course, k - 1);
        let before = course.rounds[k - 1];
        let event = course.events[k - 1];
        assert(crate::poa::round::round_advances(
            ibft,
            before,
            event,
            course.rounds[k],
            course.actions[k],
        ));
        if before.phase is PrepareQuery && course.rounds[k].phase is CommitSend {
            assert(course.prepared_at(
                k - 1,
                phase_digest(course.rounds[k].phase)->0,
                course.rounds[k].quorum,
            ));
        }
    }
}

/// A round ends with seals only if a quorum of commit messages was reported together with
/// them, and before that, for the same digest, a quorum of prepare messages that the
/// proposer completes.
pub proof fn law_finish_needs_quorums<V: ValidatorManager, BS: BlockService>(
    ibft: IBFT<V, BS>,
    view: ConsensusView,
    course: Course,
)
    requires
        course.is_course_of(ibft, view),
        course.actions.last() is Finish,
    ensures
        ({
            let last = course.events.len() - 1;
            let quorum = ibft.validator_manager.quorum_at(view.height);
            &&& last >= 0
            &&& course.rounds[last].phase matches Phase::CommitQuery { digest } && exists|i: int|
                i < last && #[trigger] course.prepared_at(i, digest, quorum)
            &&& course.events[last] matches RoundEvent::Commits { seals, count } && count >= quorum
                && course.actions.last() == RoundAction::Finish(seals->0)
        }),
{
    let last = course.events.len() - 1;
    if last >= 0 {
        lemma_course(ibft, view, course, last);
        assert(crate::poa::round::round_advances(
            ibft,
            course.rounds[last],
            course.events[last],
            course.rounds[last + 1],
            course.actions[last + 1],
        ));
    }
}

/// The place of a phase in the course of a round. What is sent has a place of its own.
spec fn phase_rank(phase: Phase) -> int {
    match phase {
        Phase::ProposalSend { .. } => 1,
        Phase::PrepareSend { .. } => 1,
        Phase::PrepareQuery { .. } => 2,
        Phase::PrepareWait { .. } => 2,
        Phase::CommitSend { .. } => 3,
        Phase::CommitQuery { .. } => 4,
        Phase::CommitWait { .. } => 4,
        Phase::Ended => 5,
        _ => 0,
    }
}

/// A round never goes back to an earlier phase, and does not stay where it sends.
proof fn lemma_rank_grows<V: ValidatorManager, BS: BlockService>(
    ibft: IBFT<V, BS>,
    view: ConsensusView,
    course: Course,
    i: int,
    j: int,
)
    requires
        course.is_course_of(ibft, view),
        0 <= i < j < course.rounds.len(),
    ensures
        ({
            let earlier = phase_rank(course.rounds[i].phase);
            let later = phase_rank(course.rounds[j].phase);
            &&& earlier <= later
            &&& earlier == 1 || earlier == 3 ==> earlier < later
        }),
    decreases j,
{
    assert(crate::poa::round::round_advances(
        ibft,
        course.rounds[j - 1],
        course.events[j - 1],
        course.rounds[j],
        course.actions[j],
    ));
    if i < j - 1 {
        lemma_rank_grows(ibft, view, course, i, j - 1);
    }
}

/// What is sent fits the phase, and only the proposer of a view is past looking for a
/// proposal without having sent a prepare message.
proof fn lemma_roles<V: ValidatorManager, BS: BlockService>(
    ibft: IBFT<V, BS>,
    view: ConsensusView,
    course: Course,
    k: int,
)
    requires
        course.is_course_of(ibft, view),
        0 <= k < course.rounds.len(),
    ensures
        course.rounds[k].view == view,
        course.actions[k] is SendProposal <==> course.rounds[k].phase is ProposalSend,
        course.actions[k] is SendPrepare <==> course.rounds[k].phase is PrepareSend,
        course.actions[k] is SendCommit <==> course.rounds[k].phase is CommitSend,
        ({
            let phase = course.rounds[k].phase;
            if ibft.validator_manager.proposes(ibft.signer.spec_address().bytes@, view) {
                !(phase is ProposalQuery) && !(phase is ProposalWait) && !(phase is PrepareSend)
            } else {
                !(phase is RoundChangeQuery) && !(phase is RoundChangeWait)
                    && !(phase is ProposalSend)
            }
        }),
    decreases k,
{
    if k > 0 {
        lemma_roles(ibft, view, course, k - 1);
        assert(crate::poa::round::round_advances(
            ibft,
            course.rounds[k - 1],
            course.events[k - 1],
            course.rounds[k],
            course.actions[k],
        ));
    }
}

/// The proposer of a view sends no prepare message in it, which is why a prepare message
/// less than the quorum will do; and nobody else sends a proposal.
pub proof fn law_proposer_does_not_prepare<V: ValidatorManager, BS: BlockService>(
    ibft: IBFT<V, BS>,
    view: ConsensusView,
    course: Course,
    k: int,
)
    requires
        course.is_course_of(ibft, view),
        0 <= k < course.actions.len(),
    ensures
        ibft.validator_manager.proposes(ibft.signer.spec_address().bytes@, view) ==> !(
        course.actions[k] is SendPrepare),
        !ibft.validator_manager.proposes(ibft.signer.spec_address().bytes@, view) ==> !(
        course.actions[k] is SendProposal),
{
    lemma_roles(ibft, view, course, k);
}

/// In one round a validator sends at most one proposal or prepare message, and at most
/// one commit message.
pub proof fn law_round_votes_once<V: ValidatorManager, BS: BlockService>(
    ibft: IBFT<V, BS>,
    view: ConsensusView,
    course: Course,
    i: int,
    j: int,
)
    requires
        course.is_course_of(ibft, view),
        0 <= i < course.actions.len(),
        0 <= j < course.actions.len(),
    ensures
        ({
            let a = course.actions[i];
            let b = course.actions[j];
            &&& (a is SendProposal || a is SendPrepare) && (b is SendProposal || b is SendPrepare)
                ==> i == j
            &&& a is SendCommit && b is SendCommit ==> i == j
        }),
{
    lemma_roles(ibft, view, course, i);
    lemma_roles(ibft, view, course, j);
    if i < j {
        lemma_rank_grows(ibft, view, course, i, j);
    }
    if j < i {
        lemma_rank_grows(ibft, view, course, j, i);
    }
}

/// A commit message is called for only when a quorum of prepare messages for its digest
/// is reported.
pub proof fn law_commit_needs_prepares<V: ValidatorManager, BS: BlockService>(
    ibft: IBFT<V, BS>,
    before: Round,
    event: RoundEvent,
    after: Round,
    action: RoundAction,
)
    requires
        crate::poa::round::round_advances(ibft, before, event, after, action),
        action is SendCommit,
    ensures
        before.phase == (Phase::PrepareQuery { digest: action->SendCommit_0.proposed_block_digest }),
        event matches RoundEvent::PrepareCount(count) && count >= before.quorum - 1,
        action->SendCommit_0.view == before.view,
{
}

/// What is reported to the watch for round changes.
pub enum RccReport {
    /// So many valid round changes to the pending round there are.
    Counted(usize),
    /// A round change to a view was announced.
    Announced(ConsensusView),
}

/// The course of the watch for round changes to a later round.
pub struct RccCourse {
    pub counts: Vec<usize>,
    pub watches: Seq<FutureRcc>,
    pub reports: Seq<RccReport>,
    pub actions: Seq<WatchAction>,
}

impl RccCourse {
    /// Whether the course is one that the watch takes in a view.
    pub open spec fn is_course_of<V: ValidatorManager, BS: BlockService>(
        self,
        ibft: IBFT<V, BS>,
        view: ConsensusView,
    ) -> bool {
        &&& self.watches.len() == self.reports.len() + 1
        &&& self.actions.len() == self.watches.len()
        &&& crate::poa::watch::rcc_watch_opens(
            ibft,
            view,
            self.counts,
            self.watches[0],
            self.actions[0],
        )
        &&& forall|i: int|
            0 <= i < self.reports.len() ==> match #[trigger] self.reports[i] {
                RccReport::Counted(count) => self.watches[i].pending is Some
                    && self.watches[i].count_follows(
                    count,
                    self.watches[i + 1],
                    self.actions[i + 1],
                ),
                RccReport::Announced(announced) => self.watches[i].pending is None
                    && self.watches[i].announcement_follows(
                    announced,
                    self.watches[i + 1],
                    self.actions[i + 1],
                ),
            }
    }
}

/// A watch for round changes stays with its view and its quorum.
proof fn lemma_rcc_course<V: ValidatorManager, BS: BlockService>(
    ibft: IBFT<V, BS>,
    view: ConsensusView,
    course: RccCourse,
    k: int,
)
    requires
        course.is_course_of(ibft, view),
        0 <= k < course.watches.len(),
    ensures
        course.watches[k].view == view,
        course.watches[k].quorum == ibft.validator_manager.quorum_at(view.height),
        course.watches[k].wf(),
    decreases k,
{
    if k > 0 {
        lemma_rcc_course(ibft, view, course, k - 1);
        // The step that led here.
        let _ = course.reports[k - 1];
    }
}

/// The watch for round changes finds only rounds that exist and come after its own, and
/// only with a quorum of valid round changes.
pub proof fn law_rcc_watch_finds_later_round<V: ValidatorManager, BS: BlockService>(
    ibft: IBFT<V, BS>,
    view: ConsensusView,
    course: RccCourse,
    round: u8,
)
    requires
        course.is_course_of(ibft, view),
        course.actions.last() == WatchAction::Found(round),
    ensures
        view.round < round < ROUND_ARRAY_SIZE,
        course.watches.last().counts@[round as int] >= ibft.validator_manager.quorum_at(
            view.height,
        ),
{
    let last = course.reports.len() - 1;
    if last >= 0 {
        lemma_rcc_course(ibft, view, course, last);
        // The step that led here.
        let _ = course.reports[last];
    }
}

/// What is reported to the watch for proposals.
pub enum ProposalReport {
    /// Whether the proposal of the pending round is valid.
    Judged(bool),
    /// A proposal for a view was announced.
    Announced(ConsensusView),
}

/// The course of the watch for a proposal in a later round.
pub struct ProposalCourse {
    pub has_proposal: Vec<bool>,
    pub watches: Seq<FutureProposal>,
    pub reports: Seq<ProposalReport>,
    pub actions: Seq<WatchAction>,
}

impl ProposalCourse {
    /// Whether the course is one that the watch takes in a view.
    pub open spec fn is_course_of(self, view: ConsensusView) -> bool {
        &&& self.watches.len() == self.reports.len() + 1
        &&& self.actions.len() == self.watches.len()
        &&& crate::poa::watch::proposal_watch_opens(
            view,
            self.has_proposal,
            self.watches[0],
            self.actions[0],
        )
        &&& forall|i: int|
            0 <= i < self.reports.len() ==> match #[trigger] self.reports[i] {
                ProposalReport::Judged(valid) => self.watches[i].pending is Some
                    && self.watches[i].verdict_follows(
                    valid,
                    self.watches[i + 1],
                    self.actions[i + 1],
                ),
                ProposalReport::Announced(announced) => self.watches[i].pending is None
                    && self.watches[i].announcement_follows(
                    announced,
                    self.watches[i + 1],
                    self.actions[i + 1],
                ),
            }
    }
}

/// A watch for proposals stays with its view.
proof fn lemma_proposal_course(view: ConsensusView, course: ProposalCourse, k: int)
    requires
        course.is_course_of(view),
        0 <= k < course.watches.len(),
    ensures
        course.watches[k].view == view,
    decreases k,
{
    if k > 0 {
        lemma_proposal_course(view, course, k - 1);
        // The step that led here.
        let _ = course.reports[k - 1];
    }
}

/// The watch for proposals finds only rounds that come after its own, and only with a
/// valid proposal.
pub proof fn law_proposal_watch_finds_later_round(
    view: ConsensusView,
    course: ProposalCourse,
    round: u8,
)
    requires
        course.is_course_of(view),
        course.actions.last() == WatchAction::Found(round),
    ensures
        view.round < round,
        course.reports.len() > 0,
        course.reports.last() == ProposalReport::Judged(true),
{
    let last = course.reports.len() - 1;
    if last >= 0 {
        lemma_proposal_course(view, course, last);
        // The step that led here.
        let _ = course.reports[last];
    }
}

/// The run at a height: where it stands at the start of each round, and for each round
/// that another one comes after, what has come about in it, the courses of its watches,
/// and what was prepared in it.
pub struct HeightCourse {
    pub runs: Seq<HeightRun>,
    pub outcomes: Seq<RoundOutcome>,
    pub rcc_watches: Seq<RccCourse>,
    pub proposal_watches: Seq<ProposalCourse>,
    pub prepared: Seq<Option<(ProposalMessageSigned, Vec<PrepareMessageSigned>)>>,
}

impl HeightCourse {
    /// Whether what has come about in a round came from its watches.
    pub open spec fn is_watched<V: ValidatorManager, BS: BlockService>(
        self,
        ibft: IBFT<V, BS>,
        i: int,
    ) -> bool {
        let view = self.runs[i].spec_view();
        &&& self.outcomes[i].future_proposal matches Some(round) ==> {
            &&& self.proposal_watches[i].is_course_of(view)
            &&& self.proposal_watches[i].actions.last() == WatchAction::Found(round)
        }
        &&& self.outcomes[i].future_rcc matches Some(round) ==> {
            &&& self.rcc_watches[i].is_course_of(ibft, view)
            &&& self.rcc_watches[i].actions.last() == WatchAction::Found(round)
        }
    }

    /// Whether round `i` of the course was started and the next one comes after it.
    pub open spec fn moves_on<V: ValidatorManager, BS: BlockService>(
        self,
        ibft: IBFT<V, BS>,
        i: int,
    ) -> bool {
        let (next, step) = crate::poa::run::run_step(self.runs[i], self.outcomes[i]);
        &&& !self.runs[i].spec_is_dead()
        &&& self.is_watched(ibft, i)
        &&& match step {
            RunStep::NextRound => self.runs[i + 1] == next,
            RunStep::TimedOut => crate::poa::run::timeout_follows(
                ibft.signer,
                next,
                self.prepared[i],
                self.runs[i + 1],
            ),
            _ => false,
        }
    }

    /// Whether the course is one that the engine takes at a height.
    pub open spec fn is_course_of<V: ValidatorManager, BS: BlockService>(
        self,
        ibft: IBFT<V, BS>,
        height: u64,
    ) -> bool {
        &&& self.runs.len() == self.outcomes.len() + 1
        &&& self.runs[0] == (HeightRun { height, round: 0, latest_self_round_change: None })
        &&& forall|i: int| 0 <= i < self.outcomes.len() ==> #[trigger] self.moves_on(ibft, i)
    }
}

/// A round that comes after another one is a later round of the same height: after a
/// timeout the next one, with a round change to it; otherwise the one that was found, and
/// no round change is signed.
pub proof fn law_next_round_is_later<V: ValidatorManager, BS: BlockService>(
    ibft: IBFT<V, BS>,
    course: HeightCourse,
    i: int,
)
    requires
        course.moves_on(ibft, i),
    ensures
        ({
            let before = course.runs[i];
            let after = course.runs[i + 1];
            let outcome = course.outcomes[i];
            &&& before.round <= MAX_ROUND
            &&& after.height == before.height
            &&& after.round > before.round
            &&& if outcome.future_proposal is Some {
                after == (HeightRun { round: outcome.future_proposal->0, ..before })
            } else if outcome.future_rcc is Some {
                after == (HeightRun { round: outcome.future_rcc->0, ..before })
            } else {
                &&& outcome.timed_out
                &&& after.round == before.round + 1
                &&& after.latest_self_round_change is Some
                &&& after.latest_self_round_change->0.view == after.spec_view()
            }
        }),
{
    let view = course.runs[i].spec_view();
    if course.outcomes[i].future_proposal is Some {
        law_proposal_watch_finds_later_round(
            view,
            course.proposal_watches[i],
            course.outcomes[i].future_proposal->0,
        );
    }
    if course.outcomes[i].future_rcc is Some {
        law_rcc_watch_finds_later_round(
            ibft,
            view,
            course.rcc_watches[i],
            course.outcomes[i].future_rcc->0,
        );
    }
}

/// All rounds are of the height, and each comes after the ones before it.
proof fn lemma_height_course<V: ValidatorManager, BS: BlockService>(
    ibft: IBFT<V, BS>,
    height: u64,
    course: HeightCourse,
    i: int,
    j: int,
)
    requires
        course.is_course_of(ibft, height),
        0 <= i <= j < course.runs.len(),
    ensures
        course.runs[j].height == height,
        course.runs[j].round >= j,
        i < j ==> course.runs[i].round < course.runs[j].round,
    decreases j,
{
    if j > 0 {
        assert(course.moves_on(ibft, j - 1));
        law_next_round_is_later(ibft, course, j - 1);
        lemma_height_course(ibft, height, course, if i < j { i } else { 0 }, j - 1);
    }
}

/// The run at a height starts with round zero, stays at the height and runs no round
/// twice: each one is later than all before it. No round after the last one is started,
/// so that there are only so many rounds.
pub proof fn law_height_goes_through_later_rounds<V: ValidatorManager, BS: BlockService>(
    ibft: IBFT<V, BS>,
    height: u64,
    course: HeightCourse,
)
    requires
        course.is_course_of(ibft, height),
    ensures
        course.runs[0].round == 0,
        forall|i: int|
            0 <= i < course.runs.len() ==> (#[trigger] course.runs[i]).height == height,
        forall|i: int, j: int|
            0 <= i < j < course.runs.len() ==> (#[trigger] course.runs[i]).round < (
            #[trigger] course.runs[j]).round,
        forall|i: int|
            0 <= i < course.outcomes.len() ==> (#[trigger] course.runs[i]).round <= MAX_ROUND,
        course.outcomes.len() <= ROUND_ARRAY_SIZE,
{
    assert forall|i: int| 0 <= i < course.runs.len() implies (
    #[trigger] course.runs[i]).height == height by {
        lemma_height_course(ibft, height, course, i, i);
    }
    assert forall|i: int, j: int| 0 <= i < j < course.runs.len() implies (
    #[trigger] course.runs[i]).round < (#[trigger] course.runs[j]).round by {
        lemma_height_course(ibft, height, course, i, j);
    }
    assert forall|i: int| 0 <= i < course.outcomes.len() implies (
    #[trigger] course.runs[i]).round <= MAX_ROUND by {
        assert(course.moves_on(ibft, i));
    }
    let last = course.outcomes.len() - 1;
    if last >= 0 {
        lemma_height_course(ibft, height, course, 0, last);
    }
}

/// A validator counts its own round change after a timeout exactly if it is the proposer
/// of the next round.
pub proof fn law_own_round_change_counts<V: ValidatorManager, BS: BlockService>(
    ibft: IBFT<V, BS>,
    run: HeightRun,
    prepared: Option<(ProposalMessageSigned, Vec<PrepareMessageSigned>)>,
    next: HeightRun,
)
    requires
        crate::poa::run::timeout_follows(ibft.signer, run, prepared, next),
    ensures
        ibft.counts_own_round_change(next.spec_view(), next.latest_self_round_change)
            <==> ibft.validator_manager.proposes(
            ibft.signer.spec_address().bytes@,
            next.spec_view(),
        ),
{
}

/// A watch that waits has missed no quorum: to every later round it knows of too few
/// round changes.
pub proof fn law_waiting_watch_has_no_quorum(watch: FutureRcc, round: int)
    requires
        watch.wf(),
        watch.pending is None,
        watch.view.round < round < ROUND_ARRAY_SIZE,
    ensures
        watch.counts@[round] < watch.quorum,
{
}

/// The prepare messages that a validator signs for a view and a digest are all the same.
pub proof fn law_prepare_is_determined(
    a: PrepareMessageSigned,
    b: PrepareMessageSigned,
    view: ConsensusView,
    digest: [u8; 32],
    signer: Signer,
)
    requires
        a.is_prepare_of(view, digest, signer),
        b.is_prepare_of(view, digest, signer),
    ensures
        a == b,
{
    crate::primitives::signature::law_signature_is_known_by_parts(a.signature, b.signature);
}

/// A cancelled run ends without a block, whatever else has come about.
pub proof fn law_cancellation_wins(run: HeightRun, outcome: RoundOutcome)
    requires
        outcome.cancelled,
    ensures
        crate::poa::run::run_step(run, outcome) == (run, RunStep::Cancelled),
{
}

/// Later rounds are given at least as much time as earlier ones, and twice as much as
/// the one before as long as that is not more than the longest span.
pub proof fn law_timeouts_double(base: RoundTime, round: nat)
    ensures
        crate::poa::ibft::round_nanos(base, round) <= crate::poa::ibft::round_nanos(base, round + 1),
        crate::poa::ibft::round_nanos(base, round + 1) == crate::poa::ibft::at_most_longest(
            2 * crate::poa::ibft::round_nanos(base, round),
        ),
        crate::poa::ibft::round_nanos(base, 0) == crate::poa::ibft::at_most_longest(
            base.total_nanos(),
        ),
{
    vstd::arithmetic::power2::lemma_pow2_unfold(round + 1);
    vstd::arithmetic::power2::lemma2_to64();
    let nanos = base.total_nanos() as int;
    let power = vstd::arithmetic::power2::pow2(round) as int;
    assert(nanos * (2 * power) == 2 * (nanos * power)) by (nonlinear_arith);
    assert(nanos * power >= 0) by (nonlinear_arith)
        requires
            nanos >= 0,
            power >= 0,
    ;
}

/// A state is known by its number.
pub proof fn law_state_number_is_unique(a: RunState, b: RunState)
    ensures
        a.number() <= 2,
        a.number() == b.number() ==> a == b,
{
}

} // verus!
