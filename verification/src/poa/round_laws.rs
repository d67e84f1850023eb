//! What a round does, step by step.

use crate::poa::backend::{BlockService, ValidatorManager};
use crate::poa::ibft::{RunState, IBFT};
use crate::poa::round::{create_certificate, Phase, Round, RoundAction, RoundEvent};
use crate::poa::types::{
    CommitMessageSigned, ConsensusView, IBFTError, PrepareMessageSigned, ProposalMessageSigned,
    RawBlock, RoundChangeCertificate, RoundChangeMessageSigned, RoundChangeMetadata,
};
use crate::primitives::signer::Signer;
use vstd::prelude::*;

verus! {

/// Whether a validator's own proposal is for a block in a view, with a certificate.
pub open spec fn proposes_block(
    signer: Signer,
    view: ConsensusView,
    raw_block: RawBlock,
    certificate: Option<RoundChangeCertificate>,
    proposal: ProposalMessageSigned,
) -> bool {
    &&& proposal.message.view.height == view.height
    &&& proposal.message.view.round == view.round
    &&& proposal.message.proposed_block.raw_block == raw_block
    &&& proposal.message.proposed_block.round == view.round
    &&& proposal.message.proposed_block_digest@ == crate::primitives::crypto::sha256_of(
        raw_block.bytes@ + seq![view.round],
    )
    &&& proposal.message.round_change_certificate == certificate
    &&& crate::poa::message_laws::comes_from(
        proposal.signature,
        signer,
        proposal.metadata().payload(),
    )
}

/// Whether the block service was asked for a block and its answer was followed: the block
/// is proposed, or the round fails with the reason why there is none.
pub open spec fn follows_block_service<V: ValidatorManager, BS: BlockService>(
    ibft: IBFT<V, BS>,
    view: ConsensusView,
    certificate: Option<RoundChangeCertificate>,
    phase: Phase,
    action: RoundAction,
) -> bool {
    match action {
        RoundAction::SendProposal(proposal) => {
            let raw_block = proposal.message.proposed_block.raw_block;
            &&& ibft.block_service.builds(view.height, Ok(raw_block))
            &&& proposes_block(ibft.signer, view, raw_block, certificate, proposal)
            &&& phase == (Phase::ProposalSend { digest: proposal.message.proposed_block_digest })
        },
        RoundAction::Fail(IBFTError::BlockBuild(reason)) => {
            &&& ibft.block_service.builds(view.height, Err(reason))
            &&& phase == Phase::Ended
        },
        _ => false,
    }
}

/// A round starts with the quorum of its height. The proposer of round zero asks its
/// block service for a block, that of a later round asks for round changes, and everybody
/// else asks for the proposal.
pub proof fn law_round_starts<V: ValidatorManager, BS: BlockService>(
    ibft: IBFT<V, BS>,
    view: ConsensusView,
    next: (Round, RoundAction),
)
    requires
        call_ensures(IBFT::<V, BS>::open_round, (&ibft, view), next),
    ensures
        next.0.view == view,
        next.0.quorum == ibft.validator_manager.quorum_at(view.height),
        ({
            let proposer = ibft.validator_manager.proposes(
                ibft.signer.spec_address().bytes@,
                view,
            );
            &&& !proposer ==> next.1 == RoundAction::OpenProposals && next.0.phase == (
            Phase::ProposalQuery { announced: false })
            &&& proposer && view.round != 0 ==> next.1 == RoundAction::OpenRoundChanges
                && next.0.phase == Phase::RoundChangeQuery
            &&& proposer && view.round == 0 ==> follows_block_service(
                ibft,
                view,
                None,
                next.0.phase,
                next.1,
            )
        }),
{
    if next.1 is SendProposal {
        let block = next.1->SendProposal_0.message.proposed_block.raw_block;
        assert(block.bytes@ + seq![view.round] =~= block.bytes@.push(view.round));
    }
}

/// A step keeps the view and the quorum of the round.
pub proof fn law_step_keeps_view_and_quorum<V: ValidatorManager, BS: BlockService>(
    ibft: IBFT<V, BS>,
    round: Round,
    event: RoundEvent,
    next: (Round, RoundAction),
)
    requires
        call_ensures(IBFT::<V, BS>::advance_round, (&ibft, round, event), next),
    ensures
        next.0.view == round.view,
        next.0.quorum == round.quorum,
{
}

/// While messages are waited for, an announcement for another view changes nothing, and
/// one for the view counts. As soon as the count reaches the quorum, or one less for
/// prepare messages, the messages are asked for again.
pub proof fn law_announcements_are_counted<V: ValidatorManager, BS: BlockService>(
    ibft: IBFT<V, BS>,
    round: Round,
    event: RoundEvent,
    next: (Round, RoundAction),
)
    requires
        call_ensures(IBFT::<V, BS>::advance_round, (&ibft, round, event), next),
        round.wf(),
        round.expects(event),
    ensures
        round.phase is RoundChangeWait && event->RoundChangeAnnounced_0 != round.view
            ==> next.0.phase == round.phase && next.1 == RoundAction::AwaitRoundChange,
        round.phase is RoundChangeWait && event->RoundChangeAnnounced_0 == round.view ==> {
            let count = round.phase->RoundChangeWait_count + 1;
            if count < round.quorum {
                &&& next.0.phase is RoundChangeWait
                &&& next.0.phase->RoundChangeWait_count == count
                &&& next.1 == RoundAction::AwaitRoundChange
            } else {
                next.0.phase == Phase::RoundChangeQuery && next.1 == RoundAction::TakeRoundChanges
            }
        },
        round.phase is PrepareWait && event->PrepareAnnounced_0 != round.view ==> next.0.phase
            == round.phase && next.1 == RoundAction::AwaitPrepare,
        round.phase is PrepareWait && event->PrepareAnnounced_0 == round.view ==> {
            let digest = round.phase->PrepareWait_digest;
            let count = round.phase->PrepareWait_count + 1;
            if count + 1 < round.quorum {
                &&& next.0.phase is PrepareWait
                &&& next.0.phase->PrepareWait_digest == digest
                &&& next.0.phase->PrepareWait_count == count
                &&& next.1 == RoundAction::AwaitPrepare
            } else {
                &&& next.0.phase == (Phase::PrepareQuery { digest })
                &&& next.1 == (RoundAction::CountPrepares { digest })
            }
        },
        round.phase is CommitWait && event->CommitAnnounced_0 != round.view ==> next.0.phase
            == round.phase && next.1 == RoundAction::AwaitCommit,
        round.phase is CommitWait && event->CommitAnnounced_0 == round.view ==> {
            let digest = round.phase->CommitWait_digest;
            let count = round.phase->CommitWait_count + 1;
            if count < round.quorum {
                &&& next.0.phase is CommitWait
                &&& next.0.phase->CommitWait_digest == digest
                &&& next.0.phase->CommitWait_count == count
                &&& next.1 == RoundAction::AwaitCommit
            } else {
                &&& next.0.phase == (Phase::CommitQuery { digest })
                &&& next.1 == (RoundAction::TakeCommits { digest })
            }
        },
        round.phase is ProposalWait && event->ProposalAnnounced_0 != round.view ==> next.0.phase
            == Phase::ProposalWait && next.1 == RoundAction::AwaitProposal,
        round.phase is ProposalWait && event->ProposalAnnounced_0 == round.view ==> next.0.phase
            == (Phase::ProposalQuery { announced: true }) && next.1 == RoundAction::QueryProposal,
{
}

/// Without enough messages a round waits for more, and remembers how many there are.
pub proof fn law_round_waits_below_quorum<V: ValidatorManager, BS: BlockService>(
    ibft: IBFT<V, BS>,
    round: Round,
    event: RoundEvent,
    next: (Round, RoundAction),
)
    requires
        call_ensures(IBFT::<V, BS>::advance_round, (&ibft, round, event), next),
        round.wf(),
        round.expects(event),
    ensures
        round.phase is RoundChangeQuery && event->RoundChanges_count < round.quorum ==> next.0.phase
            == (Phase::RoundChangeWait { count: event->RoundChanges_count }) && next.1
            == RoundAction::AwaitRoundChange,
        round.phase is PrepareQuery && event->PrepareCount_0 + 1 < round.quorum ==> next.0.phase
            == (Phase::PrepareWait {
            digest: round.phase->PrepareQuery_digest,
            count: event->PrepareCount_0,
        }) && next.1 == RoundAction::AwaitPrepare,
        round.phase is CommitQuery && event->Commits_count < round.quorum ==> next.0.phase == (
        Phase::CommitWait {
            digest: round.phase->CommitQuery_digest,
            count: event->Commits_count,
        }) && next.1 == RoundAction::AwaitCommit,
        round.phase is ProposalQuery && event->ProposalDigest_0 is None ==> next.0.phase
            == Phase::ProposalWait && next.1 == RoundAction::AwaitProposal,
{
}

/// An accepted proposal is answered with a prepare message for the view and the digest of
/// the proposal, and a refused one ends the round with the reason.
pub proof fn law_proposal_is_answered<V: ValidatorManager, BS: BlockService>(
    ibft: IBFT<V, BS>,
    round: Round,
    event: RoundEvent,
    next: (Round, RoundAction),
)
    requires
        call_ensures(IBFT::<V, BS>::advance_round, (&ibft, round, event), next),
        round.phase is ProposalQuery,
        event is ProposalDigest,
        event->ProposalDigest_0 is Some,
    ensures
        match event->ProposalDigest_0->0 {
            Ok(digest) => {
                &&& next.0.phase == (Phase::PrepareSend { digest })
                &&& next.1 is SendPrepare
                &&& next.1->SendPrepare_0.view == round.view
                &&& next.1->SendPrepare_0.proposed_block_digest == digest
                &&& crate::poa::message_laws::comes_from(
                    next.1->SendPrepare_0.signature,
                    ibft.signer,
                    next.1->SendPrepare_0.payload(),
                )
            },
            Err(error) => next.0.phase == Phase::Ended && next.1 == RoundAction::Fail(error),
        },
{
}

/// With the prepare messages of a quorum, the proposer's missing, the round goes on to the
/// commit message for its view and digest, sealed with the own key.
pub proof fn law_prepare_quorum_is_committed<V: ValidatorManager, BS: BlockService>(
    ibft: IBFT<V, BS>,
    round: Round,
    event: RoundEvent,
    next: (Round, RoundAction),
)
    requires
        call_ensures(IBFT::<V, BS>::advance_round, (&ibft, round, event), next),
        round.phase is PrepareQuery,
        event is PrepareCount,
        event->PrepareCount_0 + 1 >= round.quorum,
    ensures
        next.0.phase == (Phase::CommitSend { digest: round.phase->PrepareQuery_digest }),
        next.1 is SendCommit,
        ({
            let commit = next.1->SendCommit_0;
            &&& commit.view == round.view
            &&& commit.proposed_block_digest == round.phase->PrepareQuery_digest
            &&& (commit.commit_seal.rs()@, commit.commit_seal.recid())
                == crate::primitives::crypto::signature_of(
                ibft.signer.secret(),
                commit.proposed_block_digest@,
            )
            &&& crate::poa::message_laws::comes_from(
                commit.signature,
                ibft.signer,
                commit.payload(),
            )
        }),
{
}

/// With the commit messages of a quorum the round ends, with exactly their seals.
pub proof fn law_commit_quorum_finishes<V: ValidatorManager, BS: BlockService>(
    ibft: IBFT<V, BS>,
    round: Round,
    event: RoundEvent,
    next: (Round, RoundAction),
)
    requires
        call_ensures(IBFT::<V, BS>::advance_round, (&ibft, round, event), next),
        round.phase is CommitQuery,
        event is Commits,
        event->Commits_count >= round.quorum,
    ensures
        next.0.phase == Phase::Ended,
        next.1 == RoundAction::Finish(event->Commits_seals->0),
{
}

/// What was sent is followed by what comes next, for the same digest: own proposals and
/// prepare messages by the prepare messages, own commit messages by the commit messages.
pub proof fn law_sent_message_leads_on<V: ValidatorManager, BS: BlockService>(
    ibft: IBFT<V, BS>,
    round: Round,
    next: (Round, RoundAction),
)
    requires
        call_ensures(IBFT::<V, BS>::advance_round, (&ibft, round, RoundEvent::Sent), next),
    ensures
        round.phase is ProposalSend ==> {
            let digest = round.phase->ProposalSend_digest;
            &&& next.0.phase == (Phase::PrepareQuery { digest })
            &&& next.1 == (RoundAction::OpenPrepares { digest })
        },
        round.phase is PrepareSend ==> {
            let digest = round.phase->PrepareSend_digest;
            &&& next.0.phase == (Phase::PrepareQuery { digest })
            &&& next.1 == (RoundAction::OpenPrepares { digest })
        },
        round.phase is CommitSend ==> {
            let digest = round.phase->CommitSend_digest;
            &&& next.0.phase == (Phase::CommitQuery { digest })
            &&& next.1 == (RoundAction::OpenCommits { digest })
        },
{
}

/// Whether a round change is the same with and without its block.
pub open spec fn is_without_block(
    message: RoundChangeMessageSigned,
    metadata: RoundChangeMetadata,
) -> bool {
    &&& metadata.view == message.view
    &&& metadata.signature == message.signature
    &&& metadata.latest_prepared_certificate is Some <==> message.latest_prepared_proposed is Some
    &&& message.latest_prepared_proposed is Some ==> metadata.latest_prepared_certificate->0
        == message.latest_prepared_proposed->0.prepared_certificate
}

/// Whether the round change at `i` brings along the block that was prepared last: no other
/// one was prepared in a later round, and none before it in the same round.
pub open spec fn brings_latest_block(messages: Seq<RoundChangeMessageSigned>, i: int) -> bool {
    &&& 0 <= i < messages.len()
    &&& messages[i].latest_prepared_proposed is Some
    &&& forall|j: int|
        #![trigger messages[j]]
        0 <= j < messages.len() && messages[j].latest_prepared_proposed is Some ==> {
            let there =
                messages[j].latest_prepared_proposed->0.prepared_certificate.proposal.view.round;
            let here =
                messages[i].latest_prepared_proposed->0.prepared_certificate.proposal.view.round;
            there < here || (there == here && i <= j)
        }
}

/// Whether no round change brings a block along.
pub open spec fn brings_no_block(messages: Seq<RoundChangeMessageSigned>) -> bool {
    forall|i: int|
        #![trigger messages[i]]
        0 <= i < messages.len() ==> messages[i].latest_prepared_proposed is None
}

/// Whether a certificate is made of all round changes, in their order.
pub open spec fn lists_all(
    messages: Seq<RoundChangeMessageSigned>,
    list: Seq<RoundChangeMetadata>,
) -> bool {
    &&& list.len() == messages.len()
    &&& forall|k: int|
        #![trigger list[k]]
        0 <= k < list.len() ==> is_without_block(messages[k], list[k])
}

/// Whether a certificate is made of all round changes, in their order but for the one at
/// `i`, which has changed places with the last one.
pub open spec fn lists_all_with_last(
    messages: Seq<RoundChangeMessageSigned>,
    i: int,
    list: Seq<RoundChangeMetadata>,
) -> bool {
    &&& list.len() == messages.len()
    &&& is_without_block(messages[i], list.last())
    &&& forall|k: int|
        #![trigger list[k]]
        0 <= k < list.len() - 1 && k != i ==> is_without_block(messages[k], list[k])
    &&& i < list.len() - 1 ==> is_without_block(messages.last(), list[i])
}

/// What the engine makes of round changes.
proof fn lemma_certificate(messages: Seq<RoundChangeMessageSigned>)
    ensures
        ({
            let list = crate::poa::round::certificate_messages(messages);
            let block = crate::poa::round::certificate_block(messages);
            ||| brings_no_block(messages) && lists_all(messages, list) && block is None
            ||| exists|i: int| #[trigger]
                brings_latest_block(messages, i) && lists_all_with_last(messages, i, list)
                    && block == Some(messages[i].latest_prepared_proposed->0.proposed_block.raw_block)
        }),
{
    let taken = crate::poa::round::metadata_list(messages);
    let list = crate::poa::round::certificate_messages(messages);
    crate::poa::verification::lemma_highest_prepared_exists(taken);
    assert(forall|i: int| 0 <= i < messages.len() ==> #[trigger] taken[i] == messages[i].metadata());
    match crate::poa::round::latest_prepared(messages) {
        Some(i) => {
            assert(taken[i] == messages[i].metadata());
            assert(brings_latest_block(messages, i)) by {
                assert forall|j: int|
                    #![trigger messages[j]]
                    0 <= j < messages.len() && messages[j].latest_prepared_proposed is Some implies {
                    let there =
                        messages[j].latest_prepared_proposed->0.prepared_certificate.proposal.view.round;
                    let here =
                        messages[i].latest_prepared_proposed->0.prepared_certificate.proposal.view.round;
                    there < here || (there == here && i <= j)
                } by {
                    assert(taken[j] == messages[j].metadata());
                }
            }
            let moved = messages.update(i, messages.last()).drop_last();
            assert(forall|k: int| 0 <= k < list.len() - 1 ==> #[trigger] list[k]
                == moved[k].metadata());
            assert(list.last() == messages[i].metadata());
        },
        None => {
            assert forall|i: int|
                #![trigger messages[i]]
                0 <= i < messages.len() implies messages[i].latest_prepared_proposed is None by {
                assert(taken[i] == messages[i].metadata());
            }
            assert(forall|k: int| 0 <= k < list.len() ==> #[trigger] list[k]
                == messages[k].metadata());
        },
    }
}

/// A certificate holds all round changes, the one with the block that was prepared last
/// behind the others, and that block is taken over. Without a prepared block the round
/// changes keep their places.
pub proof fn law_certificate_of_round_changes(
    messages: Vec<RoundChangeMessageSigned>,
    created: (RoundChangeCertificate, Option<RawBlock>),
)
    requires
        call_ensures(create_certificate, (messages,), created),
    ensures
        ({
            let list = created.0.round_change_messages@;
            ||| brings_no_block(messages@) && lists_all(messages@, list) && created.1 is None
            ||| exists|i: int| #[trigger]
                brings_latest_block(messages@, i) && lists_all_with_last(messages@, i, list)
                    && created.1 == Some(
                    messages@[i].latest_prepared_proposed->0.proposed_block.raw_block,
                )
        }),
{
    lemma_certificate(messages@);
}

/// With a quorum of round changes the proposer proposes again the block that was prepared
/// last, in whatever round that was; only if no round change brings a block along is the
/// block service asked for one. The round changes are the certificate of the proposal.
pub proof fn law_latest_prepared_block_is_proposed<V: ValidatorManager, BS: BlockService>(
    ibft: IBFT<V, BS>,
    round: Round,
    event: RoundEvent,
    next: (Round, RoundAction),
)
    requires
        call_ensures(IBFT::<V, BS>::advance_round, (&ibft, round, event), next),
        round.phase is RoundChangeQuery,
        event is RoundChanges,
        event->RoundChanges_count >= round.quorum,
        event->RoundChanges_messages is Some,
    ensures
        ({
            let messages = event->RoundChanges_messages->0@;
            let certificate = next.1->SendProposal_0.message.round_change_certificate;
            &&& next.1 is SendProposal ==> certificate is Some
            &&& !brings_no_block(messages) ==> next.1 is SendProposal && exists|i: int| #[trigger]
                brings_latest_block(messages, i) && lists_all_with_last(
                    messages,
                    i,
                    certificate->0.round_change_messages@,
                ) && proposes_block(
                    ibft.signer,
                    round.view,
                    messages[i].latest_prepared_proposed->0.proposed_block.raw_block,
                    certificate,
                    next.1->SendProposal_0,
                )
            &&& !brings_no_block(messages) ==> next.0.phase == (Phase::ProposalSend {
                digest: next.1->SendProposal_0.message.proposed_block_digest,
            })
            &&& brings_no_block(messages) ==> {
                &&& follows_block_service(ibft, round.view, certificate, next.0.phase, next.1)
                &&& next.1 is SendProposal ==> lists_all(
                    messages,
                    certificate->0.round_change_messages@,
                )
            }
        }),
{
    let messages = event->RoundChanges_messages->0@;
    lemma_certificate(messages);
    if next.1 is SendProposal {
        let block = next.1->SendProposal_0.message.proposed_block.raw_block;
        assert(block.bytes@ + seq![round.view.round] =~= block.bytes@.push(round.view.round));
    }
    assert(brings_no_block(messages) <==> crate::poa::round::certificate_block(messages) is None);
}

/// The state of a round tells how far it has come: the proposal state lasts until the own
/// proposal or prepare message is sent, the prepare state until the own commit message is
/// sent, the commit state until the end.
pub proof fn law_state_of_round(round: Round, state: Option<RunState>)
    requires
        call_ensures(Round::run_state, (&round,), state),
    ensures
        round.phase is Ended <==> state is None,
        state == Some(RunState::Commit) <==> round.phase is CommitQuery || round.phase is CommitWait,
        state == Some(RunState::Prepare) <==> round.phase is PrepareQuery
            || round.phase is PrepareWait || round.phase is CommitSend,
{
}

/// In every phase a round expects the reply to what it called for, and nothing else. A
/// quorum comes with its messages, and a proposal that was announced is there.
pub proof fn law_expected_events(round: Round, event: RoundEvent, expected: bool)
    requires
        call_ensures(Round::is_expected, (&round, &event), expected),
    ensures
        expected == round.expects(event),
        round.phase is RoundChangeQuery ==> (expected <==> event is RoundChanges && (
        event->RoundChanges_count >= round.quorum ==> event->RoundChanges_messages is Some)),
        round.phase is RoundChangeWait ==> (expected <==> event is RoundChangeAnnounced),
        round.phase is ProposalQuery ==> (expected <==> event is ProposalDigest && (
        round.phase->ProposalQuery_announced ==> event->ProposalDigest_0 is Some)),
        round.phase is ProposalWait ==> (expected <==> event is ProposalAnnounced),
        round.phase is ProposalSend || round.phase is PrepareSend || round.phase is CommitSend ==> (
        expected <==> event is Sent),
        round.phase is PrepareQuery ==> (expected <==> event is PrepareCount),
        round.phase is PrepareWait ==> (expected <==> event is PrepareAnnounced),
        round.phase is CommitQuery ==> (expected <==> event is Commits && (event->Commits_count
            >= round.quorum ==> event->Commits_seals is Some)),
        round.phase is CommitWait ==> (expected <==> event is CommitAnnounced),
        round.phase is Ended ==> !expected,
{
}

/// With a quorum above zero every round can be started, and it can be taken on by every
/// event that it expects, from start to end.
pub proof fn law_round_can_be_taken_on<V: ValidatorManager, BS: BlockService>(
    ibft: IBFT<V, BS>,
    view: ConsensusView,
    opened: (Round, RoundAction),
    round: Round,
    event: RoundEvent,
    later_event: RoundEvent,
    next: (Round, RoundAction),
)
    requires
        ibft.validator_manager.quorum_at(view.height) > 0,
        call_ensures(IBFT::<V, BS>::open_round, (&ibft, view), opened),
        call_ensures(IBFT::<V, BS>::advance_round, (&ibft, round, event), next),
    ensures
        call_requires(IBFT::<V, BS>::open_round, (&ibft, view)),
        opened.0.expects(event) ==> call_requires(
            IBFT::<V, BS>::advance_round,
            (&ibft, opened.0, event),
        ),
        next.0.expects(later_event) ==> call_requires(
            IBFT::<V, BS>::advance_round,
            (&ibft, next.0, later_event),
        ),
        round.quorum > 0 && !(round.phase is RoundChangeWait) && !(round.phase is PrepareWait) && !(
        round.phase is CommitWait) && round.expects(event) ==> call_requires(
            IBFT::<V, BS>::advance_round,
            (&ibft, round, event),
        ),
{
}

} // verus!
