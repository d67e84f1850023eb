//! What a round and the run at a height do, step by step.

use crate::consensus::backend::{BlockBuilder, BlockVerifier, ValidatorManager};
use crate::consensus::ibft::{
    get_round_timeout, Phase, Round, RoundAction, RoundEvent, RoundOutcome, RunState, RunStep,
    SharedRunState, IBFT,
};
use crate::consensus::laws::Course;
use crate::consensus::types::{ConsensusView, IBFTError, ProposalMessageSigned};
use crate::primitives::signer::Signer;
use vstd::prelude::*;

verus! {

/// A round starts with the quorum of its height. The proposer asks for a block and
/// proposes it in the view, or fails with the reason why there is none; everybody else
/// asks for the proposal.
pub proof fn law_round_starts<V: ValidatorManager, BV: BlockVerifier, BB: BlockBuilder>(
    ibft: IBFT<V, BV, BB>,
    view: ConsensusView,
    next: (Round, RoundAction),
)
    requires
        call_ensures(IBFT::<V, BV, BB>::run_ibft_round0, (&ibft, view), next),
    ensures
        next.0.view == view,
        next.0.quorum == ibft.validator_manager.quorum_at(view.height),
        ({
            let proposer = ibft.validator_manager.proposes(
                ibft.signer.spec_address().bytes@,
                view,
            );
            &&& !proposer ==> next.1 == RoundAction::OpenProposals && next.0.phase == (
            Phase::ProposalTake { announced: false })
            &&& proposer ==> match next.1 {
                RoundAction::SendProposal(proposal) => {
                    let raw_block = proposal.proposed_block.raw_block;
                    &&& ibft.block_builder.builds(view.height, Ok(raw_block))
                    &&& proposal.view == view
                    &&& proposal.proposed_block.round == view.round
                    &&& proposal.proposed_block_digest@ == crate::primitives::crypto::sha256_of(
                        raw_block.bytes@ + vstd::bytes::spec_u32_to_le_bytes(view.round),
                    )
                    &&& crate::consensus::message_laws::comes_from(
                        proposal.signature,
                        ibft.signer,
                        proposal.payload(),
                    )
                    &&& next.0.phase == (Phase::ProposalSend {
                        digest: proposal.proposed_block_digest,
                    })
                },
                RoundAction::Fail(IBFTError::BlockBuild(reason)) => {
                    &&& ibft.block_builder.builds(view.height, Err(reason))
                    &&& next.0.phase == Phase::Failed
                },
                _ => false,
            }
        }),
{
}

/// A step keeps the view and the quorum of the round.
pub proof fn law_step_keeps_view_and_quorum<
    V: ValidatorManager,
    BV: BlockVerifier,
    BB: BlockBuilder,
>(ibft: IBFT<V, BV, BB>, round: Round, event: RoundEvent, next: (Round, RoundAction))
    requires
        call_ensures(IBFT::<V, BV, BB>::advance_round, (&ibft, round, event), next),
    ensures
        next.0.view == round.view,
        next.0.quorum == round.quorum,
{
}

/// A proposal of the view is refused for the wrong round, then for the wrong digest, then
/// for what is said against its block. Otherwise it is accepted, and the round goes on to
/// the prepare state with its digest.
pub proof fn law_proposal_is_judged<V: ValidatorManager, BV: BlockVerifier, BB: BlockBuilder>(
    ibft: IBFT<V, BV, BB>,
    round: Round,
    proposal: ProposalMessageSigned,
    next: (Round, RoundAction),
)
    requires
        round.phase is ProposalTake,
        call_ensures(
            IBFT::<V, BV, BB>::advance_round,
            (&ibft, round, RoundEvent::Proposal(Some(proposal))),
            next,
        ),
    ensures
        ({
            let block = proposal.proposed_block;
            let digest = crate::primitives::crypto::sha256_of(
                block.raw_block.bytes@ + vstd::bytes::spec_u32_to_le_bytes(block.round),
            );
            if block.round != round.view.round {
                &&& next.0.phase == Phase::Failed
                &&& next.1 == RoundAction::Fail(IBFTError::IncorrectProposedBlockRound)
            } else if proposal.proposed_block_digest@ != digest {
                &&& next.0.phase == Phase::Failed
                &&& next.1 == RoundAction::Fail(IBFTError::IncorrectProposalDigest)
            } else {
                match next.1 {
                    RoundAction::EnterPrepare => {
                        &&& ibft.block_verifier.judges(block.raw_block.bytes@, Ok(()))
                        &&& next.0.phase == (Phase::PrepareEnter {
                            digest: proposal.proposed_block_digest,
                        })
                    },
                    RoundAction::Fail(IBFTError::InvalidBlock(reason)) => {
                        &&& ibft.block_verifier.judges(block.raw_block.bytes@, Err(reason))
                        &&& next.0.phase == Phase::Failed
                    },
                    _ => false,
                }
            }
        }),
{
    let block = proposal.proposed_block;
    if crate::consensus::ibft::proposal_fault(round.view, proposal) is None {
        let verdict = choose|verdict: Result<(), String>|
            #[trigger] ibft.block_verifier.judges(block.raw_block.bytes@, verdict)
                && crate::consensus::ibft::verdict_follows(
                proposal.proposed_block_digest,
                verdict,
                next.0.phase,
                next.1,
            );
        match verdict {
            Ok(unit) => {
                assert(unit == ());
            },
            Err(_) => {},
        }
    }
}

/// Without a proposal the round waits until one is announced for its view, and then takes
/// it; other announcements change nothing.
pub proof fn law_proposal_is_waited_for<V: ValidatorManager, BV: BlockVerifier, BB: BlockBuilder>(
    ibft: IBFT<V, BV, BB>,
    round: Round,
    event: RoundEvent,
    next: (Round, RoundAction),
)
    requires
        call_ensures(IBFT::<V, BV, BB>::advance_round, (&ibft, round, event), next),
        round.expects(event),
    ensures
        round.phase is ProposalTake && event->Proposal_0 is None ==> next.0.phase
            == Phase::ProposalWait && next.1 == RoundAction::AwaitProposal,
        round.phase is ProposalWait && event->ProposalAnnounced_0 != round.view ==> next.0.phase
            == Phase::ProposalWait && next.1 == RoundAction::AwaitProposal,
        round.phase is ProposalWait && event->ProposalAnnounced_0 == round.view ==> next.0.phase
            == (Phase::ProposalTake { announced: true }) && next.1 == RoundAction::TakeProposal,
{
}

/// The own proposal, once sent, is accepted. With an accepted proposal the prepare message
/// for its view and digest is sent.
pub proof fn law_accepted_proposal_is_prepared<
    V: ValidatorManager,
    BV: BlockVerifier,
    BB: BlockBuilder,
>(ibft: IBFT<V, BV, BB>, round: Round, event: RoundEvent, next: (Round, RoundAction))
    requires
        call_ensures(IBFT::<V, BV, BB>::advance_round, (&ibft, round, event), next),
        round.expects(event),
    ensures
        round.phase is ProposalSend ==> next.0.phase == (Phase::PrepareEnter {
            digest: round.phase->ProposalSend_digest,
        }) && next.1 == RoundAction::EnterPrepare,
        round.phase is PrepareEnter ==> {
            let digest = round.phase->PrepareEnter_digest;
            &&& next.0.phase == (Phase::PrepareSend { digest })
            &&& next.1 is SendPrepare
            &&& next.1->SendPrepare_0.view == round.view
            &&& next.1->SendPrepare_0.proposed_block_digest == digest
            &&& crate::consensus::message_laws::comes_from(
                next.1->SendPrepare_0.signature,
                ibft.signer,
                next.1->SendPrepare_0.payload(),
            )
        },
{
}

/// Prepare and commit messages are always asked for one short of the quorum, for the
/// digest of the round: once the own message is sent, and again when as many were
/// announced for the view as were missing. Until then every announcement for the view
/// leaves one less missing, and others change nothing.
pub proof fn law_messages_are_asked_for<V: ValidatorManager, BV: BlockVerifier, BB: BlockBuilder>(
    ibft: IBFT<V, BV, BB>,
    round: Round,
    event: RoundEvent,
    next: (Round, RoundAction),
)
    requires
        call_ensures(IBFT::<V, BV, BB>::advance_round, (&ibft, round, event), next),
        round.wf(),
        round.expects(event),
    ensures
        round.phase is PrepareSend ==> {
            let digest = round.phase->PrepareSend_digest;
            &&& next.0.phase == (Phase::PrepareCollect { digest })
            &&& next.1 is OpenPrepares
            &&& next.1->OpenPrepares_digest == digest
            &&& next.1->OpenPrepares_need == round.quorum - 1
        },
        round.phase is CommitSend ==> {
            let digest = round.phase->CommitSend_digest;
            let seal = round.phase->CommitSend_seal;
            &&& next.0.phase == (Phase::CommitCollect { digest, seal })
            &&& next.1 is OpenCommits
            &&& next.1->OpenCommits_digest == digest
            &&& next.1->OpenCommits_need == round.quorum - 1
        },
        round.phase is PrepareWait && event->PrepareAnnounced_0 != round.view ==> next.0.phase
            == round.phase && next.1 == RoundAction::AwaitPrepare,
        round.phase is PrepareWait && event->PrepareAnnounced_0 == round.view ==> {
            let digest = round.phase->PrepareWait_digest;
            let missing = round.phase->PrepareWait_need_more - 1;
            if missing > 0 {
                &&& next.0.phase is PrepareWait
                &&& next.0.phase->PrepareWait_digest == digest
                &&& next.0.phase->PrepareWait_need_more == missing
                &&& next.1 == RoundAction::AwaitPrepare
            } else {
                &&& next.0.phase == (Phase::PrepareCollect { digest })
                &&& next.1 is CollectPrepares
                &&& next.1->CollectPrepares_digest == digest
                &&& next.1->CollectPrepares_need == round.quorum - 1
            }
        },
        round.phase is CommitWait && event->CommitAnnounced_0 != round.view ==> next.0.phase
            == round.phase && next.1 == RoundAction::AwaitCommit,
        round.phase is CommitWait && event->CommitAnnounced_0 == round.view ==> {
            let digest = round.phase->CommitWait_digest;
            let seal = round.phase->CommitWait_seal;
            let missing = round.phase->CommitWait_need_more - 1;
            if missing > 0 {
                &&& next.0.phase is CommitWait
                &&& next.0.phase->CommitWait_digest == digest
                &&& next.0.phase->CommitWait_seal == seal
                &&& next.0.phase->CommitWait_need_more == missing
                &&& next.1 == RoundAction::AwaitCommit
            } else {
                &&& next.0.phase == (Phase::CommitCollect { digest, seal })
                &&& next.1 is CollectCommits
                &&& next.1->CollectCommits_digest == digest
                &&& next.1->CollectCommits_need == round.quorum - 1
            }
        },
{
}

/// As long as messages are missing the round waits for as many. With all prepare messages
/// it goes on to the commit message for its view and digest, sealed with the own key; with
/// all commit messages it ends with their seals and the own one behind them.
pub proof fn law_collected_messages<V: ValidatorManager, BV: BlockVerifier, BB: BlockBuilder>(
    ibft: IBFT<V, BV, BB>,
    round: Round,
    event: RoundEvent,
    next: (Round, RoundAction),
)
    requires
        call_ensures(IBFT::<V, BV, BB>::advance_round, (&ibft, round, event), next),
        round.expects(event),
    ensures
        round.phase is PrepareCollect && event->Prepares_need_more > 0 ==> next.0.phase == (
        Phase::PrepareWait {
            digest: round.phase->PrepareCollect_digest,
            need_more: event->Prepares_need_more,
        }) && next.1 == RoundAction::AwaitPrepare,
        round.phase is PrepareCollect && event->Prepares_need_more == 0 ==> {
            let digest = round.phase->PrepareCollect_digest;
            let commit = next.1->SendCommit_0;
            &&& next.1 is SendCommit
            &&& next.0.phase == (Phase::CommitSend { digest, seal: commit.commit_seal })
            &&& commit.view == round.view
            &&& commit.proposed_block_digest == digest
            &&& (commit.commit_seal.rs()@, commit.commit_seal.recid())
                == crate::primitives::crypto::signature_of(ibft.signer.secret(), digest@)
            &&& crate::consensus::message_laws::comes_from(
                commit.signature,
                ibft.signer,
                commit.payload(),
            )
        },
        round.phase is CommitCollect && event->Commits_need_more > 0 ==> next.0.phase == (
        Phase::CommitWait {
            digest: round.phase->CommitCollect_digest,
            seal: round.phase->CommitCollect_seal,
            need_more: event->Commits_need_more,
        }) && next.1 == RoundAction::AwaitCommit,
        round.phase is CommitCollect && event->Commits_need_more == 0 ==> {
            let commits = event->Commits_messages->0@;
            let seals = next.1->Finish_0@;
            &&& next.0.phase == Phase::Finalized
            &&& next.1 is Finish
            &&& seals.len() == commits.len() + 1
            &&& seals.last() == round.phase->CommitCollect_seal
            &&& forall|i: int|
                #![trigger seals[i]]
                0 <= i < commits.len() ==> seals[i] == commits[i].commit_seal
        },
{
}

/// A round keeps the quorum of its height, and has one where it collects messages.
proof fn lemma_course_quorum<V: ValidatorManager, BV: BlockVerifier, BB: BlockBuilder>(
    ibft: IBFT<V, BV, BB>,
    view: ConsensusView,
    course: Course,
    k: int,
)
    requires
        course.is_course_of(ibft, view),
        0 <= k < course.rounds.len(),
    ensures
        course.rounds[k].quorum == ibft.validator_manager.quorum_at(view.height),
    decreases k,
{
    if k > 0 {
        lemma_course_quorum(ibft, view, course, k - 1);
        assert(crate::consensus::ibft::round_advances(
            ibft,
            course.rounds[k - 1],
            course.events[k - 1],
            course.rounds[k],
            course.actions[k],
        ));
    }
}

/// How many messages an action asks for.
pub open spec fn asked_for(action: RoundAction) -> Option<usize> {
    match action {
        RoundAction::OpenPrepares { need, .. } => Some(need),
        RoundAction::CollectPrepares { need, .. } => Some(need),
        RoundAction::OpenCommits { need, .. } => Some(need),
        RoundAction::CollectCommits { need, .. } => Some(need),
        _ => None,
    }
}

/// In the whole course of a round, messages are asked for one short of the quorum of the
/// height.
pub proof fn law_all_requests_are_one_short_of_the_quorum<
    V: ValidatorManager,
    BV: BlockVerifier,
    BB: BlockBuilder,
>(ibft: IBFT<V, BV, BB>, view: ConsensusView, course: Course, k: int)
    requires
        course.is_course_of(ibft, view),
        0 <= k < course.actions.len(),
        asked_for(course.actions[k]) is Some,
        ibft.validator_manager.quorum_at(view.height) > 0,
    ensures
        asked_for(course.actions[k])->0 == ibft.validator_manager.quorum_at(view.height) - 1,
{
    lemma_course_quorum(ibft, view, course, k);
    if k > 0 {
        lemma_course_quorum(ibft, view, course, k - 1);
        assert(crate::consensus::ibft::round_advances(
            ibft,
            course.rounds[k - 1],
            course.events[k - 1],
            course.rounds[k],
            course.actions[k],
        ));
    }
}

/// Commit messages are collected right after they were asked for.
proof fn lemma_commits_were_asked_for<V: ValidatorManager, BV: BlockVerifier, BB: BlockBuilder>(
    ibft: IBFT<V, BV, BB>,
    view: ConsensusView,
    course: Course,
    k: int,
)
    requires
        course.is_course_of(ibft, view),
        0 <= k < course.rounds.len(),
        course.rounds[k].phase is CommitCollect,
    ensures
        asked_for(course.actions[k]) is Some,
{
    if k > 0 {
        assert(crate::consensus::ibft::round_advances(
            ibft,
            course.rounds[k - 1],
            course.events[k - 1],
            course.rounds[k],
            course.actions[k],
        ));
    }
}

/// If a store that misses no commit message hands out at least as many as were asked for,
/// a round that ends with seals ends with those of at least a quorum of the height.
pub proof fn law_finish_has_a_quorum_of_seals<
    V: ValidatorManager,
    BV: BlockVerifier,
    BB: BlockBuilder,
>(ibft: IBFT<V, BV, BB>, view: ConsensusView, course: Course)
    requires
        course.is_course_of(ibft, view),
        course.actions.last() is Finish,
        ibft.validator_manager.quorum_at(view.height) > 0,
        forall|i: int|
            #![trigger course.events[i]]
            0 <= i < course.events.len() && course.events[i] is Commits
                && course.events[i]->Commits_need_more == 0 ==> course.events[i]->Commits_messages->0@.len()
                >= asked_for(course.actions[i])->0,
    ensures
        course.actions.last()->Finish_0@.len() >= ibft.validator_manager.quorum_at(view.height),
{
    crate::consensus::laws::law_finish_needs_all(ibft, view, course);
    let last = course.events.len() - 1;
    lemma_commits_were_asked_for(ibft, view, course, last);
    law_all_requests_are_one_short_of_the_quorum(ibft, view, course, last);
    // The step that led here.
    let _ = course.events[last];
}

/// In every phase a round expects the reply to what it called for, and nothing else.
/// Messages of which none is missing are there, so is a proposal that was announced, and
/// the prepare state is entered only with a quorum above zero.
pub proof fn law_expected_events(round: Round, event: RoundEvent, expected: bool)
    requires
        call_ensures(Round::is_expected, (&round, &event), expected),
    ensures
        expected == round.expects(event),
        round.phase is ProposalTake ==> (expected <==> event is Proposal && (
        round.phase->ProposalTake_announced ==> event->Proposal_0 is Some)),
        round.phase is ProposalWait ==> (expected <==> event is ProposalAnnounced),
        round.phase is ProposalSend || round.phase is PrepareSend || round.phase is CommitSend ==> (
        expected <==> event is Sent),
        round.phase is PrepareEnter ==> (expected <==> event is Entered && round.quorum > 0),
        round.phase is PrepareCollect ==> (expected <==> event is Prepares && (
        event->Prepares_need_more == 0 ==> event->Prepares_messages is Some)),
        round.phase is PrepareWait ==> (expected <==> event is PrepareAnnounced),
        round.phase is CommitCollect ==> (expected <==> event is Commits && (
        event->Commits_need_more == 0 ==> event->Commits_messages is Some)),
        round.phase is CommitWait ==> (expected <==> event is CommitAnnounced),
        round.phase is Finalized || round.phase is Failed ==> !expected,
{
}

/// The state of a round tells how far it has come: the proposal state lasts until a
/// proposal is accepted, the prepare state until the commit message is made, the commit
/// state until the block is final. A round that failed has none.
pub proof fn law_state_of_round(round: Round, state: Option<RunState>)
    requires
        call_ensures(Round::run_state, (&round,), state),
    ensures
        state is None <==> round.phase is Failed,
        state == Some(RunState::Proposal) <==> round.phase is ProposalTake
            || round.phase is ProposalWait || round.phase is ProposalSend,
        state == Some(RunState::Prepare) <==> round.phase is PrepareEnter
            || round.phase is PrepareSend || round.phase is PrepareCollect
            || round.phase is PrepareWait,
        state == Some(RunState::Commit) <==> round.phase is CommitSend
            || round.phase is CommitCollect || round.phase is CommitWait,
        state == Some(RunState::Finalized) <==> round.phase is Finalized,
{
}

/// A fresh state is that of a proposal not accepted yet, and any other state is that of an
/// accepted one.
pub proof fn law_shared_state(
    view: ConsensusView,
    fresh: SharedRunState,
    default: RunState,
    shared: SharedRunState,
    accepted: bool,
)
    requires
        call_ensures(SharedRunState::new, (view,), fresh),
        call_ensures(RunState::default, (), default),
        call_ensures(SharedRunState::proposal_accepted, (&shared,), accepted),
    ensures
        fresh.view == view,
        fresh.state == RunState::Proposal,
        default == RunState::Proposal,
        accepted <==> shared.state == RunState::Prepare || shared.state == RunState::Commit
            || shared.state == RunState::Finalized,
{
}

/// Of what has come about, a cancellation counts before everything else, then the timeout,
/// which alone moves on by one round, then the ends of the watches, which start the round
/// again, and last the end of the round.
pub proof fn law_outcomes_in_order<V: ValidatorManager, BV: BlockVerifier, BB: BlockBuilder>(
    ibft: IBFT<V, BV, BB>,
    view: ConsensusView,
    outcome: RoundOutcome,
    next: (ConsensusView, RunStep),
)
    requires
        call_ensures(IBFT::<V, BV, BB>::run, (&ibft, view, outcome), next),
        outcome.timed_out && !outcome.cancelled ==> view.round < u32::MAX,
    ensures
        next.0.height == view.height,
        !outcome.cancelled && outcome.timed_out ==> next.0.round == view.round + 1,
        outcome.cancelled || !outcome.timed_out ==> next.0.round == view.round,
        next.1 is Cancelled <==> outcome.cancelled,
        next.1 is NextRound <==> !outcome.cancelled && (outcome.timed_out
            || outcome.future_proposal || outcome.rcc),
        next.1 is Finished <==> !outcome.cancelled && !outcome.timed_out
            && !outcome.future_proposal && !outcome.rcc && outcome.finished is Some,
        next.1 is Finished ==> next.1->Finished_0 == outcome.finished->0,
{
}

/// Round zero is given four seconds, each of the next five twice as many as the one before,
/// and every later one as many as the fifth.
pub proof fn law_next_round_is_given_twice_the_time(
    round: u32,
    next_round: u32,
    first: u64,
    secs: u64,
    next_secs: u64,
)
    requires
        next_round == round + 1,
        call_ensures(get_round_timeout, (0,), first),
        call_ensures(get_round_timeout, (round,), secs),
        call_ensures(get_round_timeout, (next_round,), next_secs),
    ensures
        first == 4,
        round < 5 ==> next_secs == 2 * secs,
        round >= 5 ==> next_secs == secs,
        round >= 5 ==> secs == 128,
{
    vstd::arithmetic::power2::lemma2_to64();
}

/// A validator is made of what it is given.
pub proof fn law_new_validator<V: ValidatorManager, BV: BlockVerifier, BB: BlockBuilder>(
    validator_manager: V,
    block_verifier: BV,
    block_builder: BB,
    signer: Signer,
    ibft: IBFT<V, BV, BB>,
)
    requires
        call_ensures(
            IBFT::<V, BV, BB>::new,
            (validator_manager, block_verifier, block_builder, signer),
            ibft,
        ),
    ensures
        ibft.validator_manager == validator_manager,
        ibft.block_verifier == block_verifier,
        ibft.block_builder == block_builder,
        ibft.signer == signer,
{
}

/// What is noted replaces what was noted before, and the view stays.
pub proof fn law_noted_state_replaces(shared: &mut SharedRunState, new_state: RunState)
    requires
        call_ensures(SharedRunState::set_state, (shared, new_state), ()),
    ensures
        final(shared).state == new_state,
        final(shared).view == old(shared).view,
{
}

/// Round zero can always be started, and it can be taken on by every event that it
/// expects, from start to end.
pub proof fn law_round_can_be_taken_on<V: ValidatorManager, BV: BlockVerifier, BB: BlockBuilder>(
    ibft: IBFT<V, BV, BB>,
    view: ConsensusView,
    opened: (Round, RoundAction),
    round: Round,
    event: RoundEvent,
    later_event: RoundEvent,
    next: (Round, RoundAction),
)
    requires
        view.round == 0,
        call_ensures(IBFT::<V, BV, BB>::run_ibft_round0, (&ibft, view), opened),
        call_ensures(IBFT::<V, BV, BB>::advance_round, (&ibft, round, event), next),
    ensures
        call_requires(IBFT::<V, BV, BB>::run_ibft_round0, (&ibft, view)),
        opened.0.expects(event) ==> call_requires(
            IBFT::<V, BV, BB>::advance_round,
            (&ibft, opened.0, event),
        ),
        next.0.expects(later_event) ==> call_requires(
            IBFT::<V, BV, BB>::advance_round,
            (&ibft, next.0, later_event),
        ),
{
}

} // verus!
