//! What holds of the engine as a whole.

use crate::consensus::backend::{BlockBuilder, BlockVerifier, ValidatorManager};
use crate::consensus::ibft::{
    Phase, Round, RoundAction, RoundEvent, RoundOutcome, RunState, RunStep, SharedRunState, IBFT,
};
use crate::consensus::types::{ConsensusView, ProposalMessageSigned, RawBlock};
use crate::primitives::signature::Signature;
use crate::primitives::signer::Signer;
use vstd::prelude::*;

verus! {

/// The digest that a round is about, once there is one.
pub open spec fn phase_digest(phase: Phase) -> Option<[u8; 32]> {
    match phase {
        Phase::ProposalSend { digest } => Some(digest),
        Phase::PrepareEnter { digest } => Some(digest),
        Phase::PrepareSend { digest } => Some(digest),
        Phase::PrepareCollect { digest } => Some(digest),
        Phase::PrepareWait { digest, .. } => Some(digest),
        Phase::CommitSend { digest, .. } => Some(digest),
        Phase::CommitCollect { digest, .. } => Some(digest),
        Phase::CommitWait { digest, .. } => Some(digest),
        _ => None,
    }
}

/// The place of a phase in the course of a round. What is sent has a place of its own.
pub open spec fn phase_rank(phase: Phase) -> int {
    match phase {
        Phase::ProposalSend { .. } => 1,
        Phase::PrepareEnter { .. } => 2,
        Phase::PrepareSend { .. } => 3,
        Phase::PrepareCollect { .. } => 4,
        Phase::PrepareWait { .. } => 4,
        Phase::CommitSend { .. } => 5,
        Phase::CommitCollect { .. } => 6,
        Phase::CommitWait { .. } => 6,
        Phase::Finalized => 7,
        Phase::Failed => 8,
        _ => 0,
    }
}

/// A step of a round keeps its view and its quorum, never goes back to an earlier phase
/// and, until the round ends, stays with the digest it is about.
pub proof fn law_round_stays_on_course<V: ValidatorManager, BV: BlockVerifier, BB: BlockBuilder>(
    ibft: IBFT<V, BV, BB>,
    before: Round,
    event: RoundEvent,
    after: Round,
    action: RoundAction,
)
    requires
        crate::consensus::ibft::round_advances(ibft, before, event, after, action),
    ensures
        after.view == before.view,
        after.quorum == before.quorum,
        phase_rank(after.phase) >= phase_rank(before.phase),
        !(after.phase is Failed) && !(after.phase is Finalized) && phase_digest(before.phase) is Some
            ==> phase_digest(after.phase) == phase_digest(before.phase),
{
}

/// The course of a round: the states it goes through, the events that take it from one
/// to the next, and the actions that it calls for in each.
pub struct Course {
    pub rounds: Seq<Round>,
    pub events: Seq<RoundEvent>,
    pub actions: Seq<RoundAction>,
}

impl Course {
    /// Whether the course is one that the engine takes in a view.
    pub open spec fn is_course_of<V: ValidatorManager, BV: BlockVerifier, BB: BlockBuilder>(
        self,
        ibft: IBFT<V, BV, BB>,
        view: ConsensusView,
    ) -> bool {
        &&& self.rounds.len() == self.events.len() + 1
        &&& self.actions.len() == self.rounds.len()
        &&& crate::consensus::ibft::round_opens(ibft, view, self.rounds[0], self.actions[0])
        &&& forall|i: int|
            0 <= i < self.events.len() ==> crate::consensus::ibft::round_advances(
                ibft,
                self.rounds[i],
                #[trigger] self.events[i],
                self.rounds[i + 1],
                self.actions[i + 1],
            )
    }

    /// Whether at step `i` no prepare message for a digest was missing any more.
    pub open spec fn prepared_at(self, i: int, digest: [u8; 32]) -> bool {
        &&& 0 <= i < self.events.len()
        &&& self.rounds[i].phase == (Phase::PrepareCollect { digest })
        &&& self.events[i] matches RoundEvent::Prepares { need_more, .. } && need_more == 0
    }
}

/// The seal that a round keeps for its digest, once it has made it.
pub open spec fn phase_seal(phase: Phase) -> Option<Signature> {
    match phase {
        Phase::CommitSend { seal, .. } => Some(seal),
        Phase::CommitCollect { seal, .. } => Some(seal),
        Phase::CommitWait { seal, .. } => Some(seal),
        _ => None,
    }
}

/// Whether `seal` is the one that `signer` puts under a digest.
pub open spec fn is_seal_of(seal: Signature, signer: Signer, digest: [u8; 32]) -> bool {
    &&& (seal.rs()@, seal.recid()) == crate::primitives::crypto::signature_of(
        signer.secret(),
        digest@,
    )
    &&& seal.signer_of_prehash(digest@) == Some(signer.spec_address().bytes@)
}

/// A round that is past the prepare state had no prepare message for its digest missing,
/// and keeps the own seal under the digest.
proof fn lemma_course<V: ValidatorManager, BV: BlockVerifier, BB: BlockBuilder>(
    ibft: IBFT<V, BV, BB>,
    view: ConsensusView,
    course: Course,
    k: int,
)
    requires
        course.is_course_of(ibft, view),
        0 <= k < course.rounds.len(),
    ensures
        phase_seal(course.rounds[k].phase) matches Some(seal) ==> {
            let digest = phase_digest(course.rounds[k].phase)->0;
            &&& exists|i: int| i < k && #[trigger] course.prepared_at(i, digest)
            &&& is_seal_of(seal, ibft.signer, digest)
        },
    decreases k,
{
    if k > 0 {
        lemma_course(ibft, view, course, k - 1);
        let before = course.rounds[k - 1];
        assert(crate::consensus::ibft::round_advances(
            ibft,
            before,
            course.events[k - 1],
            course.rounds[k],
            course.actions[k],
        ));
        if before.phase is PrepareCollect && course.rounds[k].phase is CommitSend {
            assert(course.prepared_at(k - 1, phase_digest(course.rounds[k].phase)->0));
        }
    }
}

/// A round ends with seals only if no commit message was missing, and before that, for
/// the same digest, no prepare message. The seals are those of the others and, behind
/// them, the one that this validator puts under the digest.
pub proof fn law_finish_needs_all<V: ValidatorManager, BV: BlockVerifier, BB: BlockBuilder>(
    ibft: IBFT<V, BV, BB>,
    view: ConsensusView,
    course: Course,
)
    requires
        course.is_course_of(ibft, view),
        course.actions.last() is Finish,
    ensures
        ({
            let last = course.events.len() - 1;
            &&& last >= 0
            &&& course.rounds[last].phase matches Phase::CommitCollect { digest, seal } && {
                &&& exists|i: int| i < last && #[trigger] course.prepared_at(i, digest)
                &&& is_seal_of(seal, ibft.signer, digest)
                &&& course.events[last] matches RoundEvent::Commits { messages, need_more }
                    && need_more == 0 && course.actions.last()->Finish_0@
                    == crate::consensus::ibft::seals_of(messages->0@, seal)
                    && course.actions.last()->Finish_0@.len() == messages->0@.len() + 1
            }
        }),
{
    let last = course.events.len() - 1;
    if last >= 0 {
        lemma_course(ibft, view, course, last);
        assert(crate::consensus::ibft::round_advances(
            ibft,
            course.rounds[last],
            course.events[last],
            course.rounds[last + 1],
            course.actions[last + 1],
        ));
    }
}

/// What is sent fits the phase.
proof fn lemma_sends<V: ValidatorManager, BV: BlockVerifier, BB: BlockBuilder>(
    ibft: IBFT<V, BV, BB>,
    view: ConsensusView,
    course: Course,
    k: int,
)
    requires
        course.is_course_of(ibft, view),
        0 <= k < course.rounds.len(),
    ensures
        course.actions[k] is SendProposal <==> course.rounds[k].phase is ProposalSend,
        course.actions[k] is SendPrepare <==> course.rounds[k].phase is PrepareSend,
        course.actions[k] is SendCommit <==> course.rounds[k].phase is CommitSend,
{
    if k > 0 {
        assert(crate::consensus::ibft::round_advances(
            ibft,
            course.rounds[k - 1],
            course.events[k - 1],
            course.rounds[k],
            course.actions[k],
        ));
    }
}

/// A round never goes back to an earlier phase, and does not stay where it sends.
proof fn lemma_rank_grows<V: ValidatorManager, BV: BlockVerifier, BB: BlockBuilder>(
    ibft: IBFT<V, BV, BB>,
    view: ConsensusView,
    course: Course,
    i: int,
    j: int,
)
    requires
        course.is_course_of(ibft, view),
        0 <= i < j < course.rounds.len(),
    ensures
        ({
            let earlier = phase_rank(course.rounds[i].phase);
            let later = phase_rank(course.rounds[j].phase);
            &&& earlier <= later
            &&& earlier == 1 || earlier == 3 || earlier == 5 ==> earlier < later
        }),
    decreases j,
{
    assert(crate::consensus::ibft::round_advances(
        ibft,
        course.rounds[j - 1],
        course.events[j - 1],
        course.rounds[j],
        course.actions[j],
    ));
    if i < j - 1 {
        lemma_rank_grows(ibft, view, course, i, j - 1);
    }
}

/// In one round a validator sends at most one proposal, one prepare message and one
/// commit message.
pub proof fn law_round_votes_once<V: ValidatorManager, BV: BlockVerifier, BB: BlockBuilder>(
    ibft: IBFT<V, BV, BB>,
    view: ConsensusView,
    course: Course,
    i: int,
    j: int,
)
    requires
        course.is_course_of(ibft, view),
        0 <= i < course.actions.len(),
        0 <= j < course.actions.len(),
    ensures
        ({
            let a = course.actions[i];
            let b = course.actions[j];
            &&& a is SendProposal && b is SendProposal ==> i == j
            &&& a is SendPrepare && b is SendPrepare ==> i == j
            &&& a is SendCommit && b is SendCommit ==> i == j
        }),
{
    lemma_sends(ibft, view, course, i);
    lemma_sends(ibft, view, course, j);
    if i < j {
        lemma_rank_grows(ibft, view, course, i, j);
    }
    if j < i {
        lemma_rank_grows(ibft, view, course, j, i);
    }
}

/// A proposal that a validator makes itself is refused by nobody before its block is
/// judged.
pub proof fn law_own_proposal_has_no_fault(
    proposal: ProposalMessageSigned,
    view: ConsensusView,
    raw_block: RawBlock,
    signer: Signer,
)
    requires
        proposal.is_proposal_of(view, raw_block, signer),
    ensures
        crate::consensus::ibft::proposal_fault(view, proposal) is None,
{
}

/// The state of a round once all of `states` have been noted, one after the other.
pub open spec fn noted(view: ConsensusView, states: Seq<RunState>) -> SharedRunState
    decreases states.len(),
{
    if states.len() == 0 {
        SharedRunState { view, state: RunState::Proposal }
    } else {
        SharedRunState { state: states.last(), ..noted(view, states.drop_last()) }
    }
}

/// What was noted last tells whether the proposal is accepted; as long as nothing was
/// noted it is not. The view stays.
pub proof fn law_last_noted_state_counts(view: ConsensusView, states: Seq<RunState>)
    ensures
        noted(view, states).view == view,
        noted(view, states).accepted() == (states.len() > 0 && states.last()
            != RunState::Proposal),
    decreases states.len(),
{
    if states.len() > 0 {
        law_last_noted_state_counts(view, states.drop_last());
    }
}

/// The height stays, the round changes only by a timeout, and then by one; a
/// cancellation goes before everything.
pub proof fn law_run_moves_by_timeouts(view: ConsensusView, outcome: RoundOutcome)
    requires
        outcome.timed_out && !outcome.cancelled ==> view.round < u32::MAX,
    ensures
        ({
            let (next, step) = crate::consensus::ibft::run_step(view, outcome);
            &&& next.height == view.height
            &&& next.round == view.round + if outcome.timed_out && !outcome.cancelled {
                1int
            } else {
                0int
            }
            &&& outcome.cancelled ==> step == RunStep::Cancelled
        }),
{
}

/// A round is given twice the time of the one before, up to the fifth after round zero;
/// all later ones are given 128 seconds.
pub proof fn law_timeouts_double_up_to_a_limit(round: nat)
    ensures
        round < 5 ==> crate::consensus::ibft::round_seconds(round + 1) == 2
            * crate::consensus::ibft::round_seconds(round),
        round >= 5 ==> crate::consensus::ibft::round_seconds(round) == 128,
        crate::consensus::ibft::round_seconds(0) == 4,
{
    vstd::arithmetic::power2::lemma2_to64();
}

} // verus!
