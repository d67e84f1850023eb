//! The course of round zero and the run at a height.
//!
//! A round is a state machine. It tells what is to be done next, its surroundings do it
//! and report back what happened.

use crate::consensus::backend::{BlockBuilder, BlockVerifier, ValidatorManager};
use crate::consensus::types::{
    CommitMessageSigned, CommitSeals, ConsensusView, FinalizedBlock, IBFTError,
    PrepareMessageSigned, ProposalMessageSigned, RawBlock,
};
use crate::primitives::bytes::array_eq;
use crate::primitives::signature::Signature;
use crate::primitives::signer::Signer;
use vstd::prelude::*;

verus! {

/// How far the round in progress has come.
#[derive(Debug, Clone, Copy, PartialEq, Eq, PartialOrd, Ord, Structural)]
pub enum RunState {
    Proposal,
    Prepare,
    Commit,
    Finalized,
}

impl Default for RunState {
    fn default() -> (state: Self)
        ensures
            state == RunState::Proposal,
    {
        RunState::Proposal
    }
}

/// How far the round of a view has come. The task that runs the round notes it down, and
/// those that watch the round share what it noted.
#[derive(Debug, Clone, Copy)]
pub struct SharedRunState {
    pub view: ConsensusView,
    pub state: RunState,
}

impl SharedRunState {
    /// A round that has not come past its proposal.
    pub fn new(view: ConsensusView) -> (shared: Self)
        ensures
            shared == (SharedRunState { view, state: RunState::Proposal }),
    {
        SharedRunState { view, state: RunState::default() }
    }

    /// Notes how far the round has come.
    pub fn set_state(&mut self, new_state: RunState)
        ensures
            *final(self) == (SharedRunState { view: old(self).view, state: new_state }),
    {
        self.state = new_state;
    }

    /// Whether the proposal of the round has been accepted.
    pub open spec fn accepted(self) -> bool {
        self.state != RunState::Proposal
    }

    /// Whether the proposal of the round has been accepted.
    pub fn proposal_accepted(&self) -> (accepted: bool)
        ensures
            accepted == self.accepted(),
    {
        self.state != RunState::Proposal
    }
}

/// The seconds that are given to a round: four, doubled with every round up to the fifth
/// after round zero.
pub open spec fn round_seconds(round: nat) -> nat {
    4 * vstd::arithmetic::power2::pow2(
        if round > 5 {
            5
        } else {
            round
        },
    )
}

/// The seconds that are given to a round.
pub fn get_round_timeout(round: u32) -> (secs: u64)
    ensures
        secs == round_seconds(round as nat),
{
    proof {
        vstd::arithmetic::power2::lemma2_to64();
    }
    match round {
        0 => 4,
        1 => 8,
        2 => 16,
        3 => 32,
        4 => 64,
        _ => 128,
    }
}

/// A validator: whom it regards as proposers, where its blocks come from, who judges the
/// blocks of others, and the key it signs with.
pub struct IBFT<V: ValidatorManager, BV: BlockVerifier, BB: BlockBuilder> {
    pub validator_manager: V,
    pub block_verifier: BV,
    pub block_builder: BB,
    pub signer: Signer,
}

/// What a round is waiting for.
#[derive(Debug, Clone, Copy)]
pub enum Phase {
    /// The proposal of the view; `announced` once a proposal has been announced.
    ProposalTake { announced: bool },
    /// The announcement of a proposal.
    ProposalWait,
    /// The sending of the own proposal.
    ProposalSend { digest: [u8; 32] },
    /// The entry into the prepare state with an accepted proposal.
    PrepareEnter { digest: [u8; 32] },
    /// The sending of the own prepare message.
    PrepareSend { digest: [u8; 32] },
    /// The prepare messages of the others.
    PrepareCollect { digest: [u8; 32] },
    /// Further prepare messages; so many are missing.
    PrepareWait { digest: [u8; 32], need_more: usize },
    /// The sending of the own commit message with this seal.
    CommitSend { digest: [u8; 32], seal: Signature },
    /// The commit messages of the others.
    CommitCollect { digest: [u8; 32], seal: Signature },
    /// Further commit messages; so many are missing.
    CommitWait { digest: [u8; 32], seal: Signature, need_more: usize },
    /// Nothing: the block is final.
    Finalized,
    /// Nothing: the round failed.
    Failed,
}

/// A round in progress.
#[derive(Debug, Clone, Copy)]
pub struct Round {
    pub view: ConsensusView,
    pub quorum: usize,
    pub phase: Phase,
}

/// What is to be done for a round.
#[derive(Debug, Clone)]
pub enum RoundAction {
    /// Subscribe to proposals, then take the one of the view.
    OpenProposals,
    /// Take the proposal of the view.
    TakeProposal,
    /// Wait for the announcement of a proposal.
    AwaitProposal,
    /// Broadcast the own proposal.
    SendProposal(ProposalMessageSigned),
    /// Take note of the prepare state.
    EnterPrepare,
    /// Broadcast the own prepare message.
    SendPrepare(PrepareMessageSigned),
    /// Subscribe to prepare messages, then try to collect `need` for the digest.
    OpenPrepares { digest: [u8; 32], need: usize },
    /// Try to collect `need` prepare messages for the digest.
    CollectPrepares { digest: [u8; 32], need: usize },
    /// Wait for the announcement of a prepare message.
    AwaitPrepare,
    /// Broadcast the own commit message.
    SendCommit(CommitMessageSigned),
    /// Subscribe to commit messages, then try to collect `need` for the digest.
    OpenCommits { digest: [u8; 32], need: usize },
    /// Try to collect `need` commit messages for the digest.
    CollectCommits { digest: [u8; 32], need: usize },
    /// Wait for the announcement of a commit message.
    AwaitCommit,
    /// The round ends with the seals of a quorum.
    Finish(CommitSeals),
    /// The round ends without a block.
    Fail(IBFTError),
}

/// What happened in reply to an action.
#[derive(Debug, Clone)]
pub enum RoundEvent {
    /// The proposal of the view, if there is one.
    Proposal(Option<ProposalMessageSigned>),
    /// A proposal for a view was announced.
    ProposalAnnounced(ConsensusView),
    /// A message was sent.
    Sent,
    /// The prepare state was noted.
    Entered,
    /// How many prepare messages are missing, and the messages if none is.
    Prepares { messages: Option<Vec<PrepareMessageSigned>>, need_more: usize },
    /// A prepare message for a view was announced.
    PrepareAnnounced(ConsensusView),
    /// How many commit messages are missing, and the messages if none is.
    Commits { messages: Option<Vec<CommitMessageSigned>>, need_more: usize },
    /// A commit message for a view was announced.
    CommitAnnounced(ConsensusView),
}

impl Round {
    /// Whether there is a quorum where its messages are collected, and something is missing
    /// where something is waited for.
    pub open spec fn wf(self) -> bool {
        match self.phase {
            Phase::PrepareSend { .. } => self.quorum > 0,
            Phase::PrepareCollect { .. } => self.quorum > 0,
            Phase::PrepareWait { need_more, .. } => self.quorum > 0 && need_more > 0,
            Phase::CommitSend { .. } => self.quorum > 0,
            Phase::CommitCollect { .. } => self.quorum > 0,
            Phase::CommitWait { need_more, .. } => self.quorum > 0 && need_more > 0,
            _ => true,
        }
    }

    /// Whether an event can happen in the phase of the round. Messages of which none is
    /// missing are there, and so is a proposal that was announced; the prepare state is
    /// entered only where a quorum takes somebody.
    pub open spec fn expects(self, event: RoundEvent) -> bool {
        match (self.phase, event) {
            (Phase::ProposalTake { announced }, RoundEvent::Proposal(proposal)) => announced
                ==> proposal is Some,
            (Phase::ProposalWait, RoundEvent::ProposalAnnounced(_)) => true,
            (Phase::ProposalSend { .. }, RoundEvent::Sent) => true,
            (Phase::PrepareEnter { .. }, RoundEvent::Entered) => self.quorum > 0,
            (Phase::PrepareSend { .. }, RoundEvent::Sent) => true,
            (Phase::PrepareCollect { .. }, RoundEvent::Prepares { messages, need_more }) =>
                need_more == 0 ==> messages is Some,
            (Phase::PrepareWait { .. }, RoundEvent::PrepareAnnounced(_)) => true,
            (Phase::CommitSend { .. }, RoundEvent::Sent) => true,
            (Phase::CommitCollect { .. }, RoundEvent::Commits { messages, need_more }) => need_more
                == 0 ==> messages is Some,
            (Phase::CommitWait { .. }, RoundEvent::CommitAnnounced(_)) => true,
            _ => false,
        }
    }

    /// Whether an event can happen in the phase of the round.
    pub fn is_expected(&self, event: &RoundEvent) -> (expected: bool)
        ensures
            expected == self.expects(*event),
    {
        match (&self.phase, event) {
            (Phase::ProposalTake { announced }, RoundEvent::Proposal(proposal)) => !*announced
                || proposal.is_some(),
            (Phase::ProposalWait, RoundEvent::ProposalAnnounced(_)) => true,
            (Phase::ProposalSend { .. }, RoundEvent::Sent) => true,
            (Phase::PrepareEnter { .. }, RoundEvent::Entered) => self.quorum > 0,
            (Phase::PrepareSend { .. }, RoundEvent::Sent) => true,
            (Phase::PrepareCollect { .. }, RoundEvent::Prepares { messages, need_more }) =>
                *need_more != 0 || messages.is_some(),
            (Phase::PrepareWait { .. }, RoundEvent::PrepareAnnounced(_)) => true,
            (Phase::CommitSend { .. }, RoundEvent::Sent) => true,
            (Phase::CommitCollect { .. }, RoundEvent::Commits { messages, need_more }) =>
                *need_more != 0 || messages.is_some(),
            (Phase::CommitWait { .. }, RoundEvent::CommitAnnounced(_)) => true,
            _ => false,
        }
    }

    /// How far the round has come; nothing once it has failed.
    pub open spec fn spec_run_state(self) -> Option<RunState> {
        match self.phase {
            Phase::ProposalTake { .. } => Some(RunState::Proposal),
            Phase::ProposalWait => Some(RunState::Proposal),
            Phase::ProposalSend { .. } => Some(RunState::Proposal),
            Phase::PrepareEnter { .. } => Some(RunState::Prepare),
            Phase::PrepareSend { .. } => Some(RunState::Prepare),
            Phase::PrepareCollect { .. } => Some(RunState::Prepare),
            Phase::PrepareWait { .. } => Some(RunState::Prepare),
            Phase::CommitSend { .. } => Some(RunState::Commit),
            Phase::CommitCollect { .. } => Some(RunState::Commit),
            Phase::CommitWait { .. } => Some(RunState::Commit),
            Phase::Finalized => Some(RunState::Finalized),
            Phase::Failed => None,
        }
    }

    /// How far the round has come; nothing once it has failed.
    pub fn run_state(&self) -> (state: Option<RunState>)
        ensures
            state == self.spec_run_state(),
    {
        match self.phase {
            Phase::ProposalTake { .. } => Some(RunState::Proposal),
            Phase::ProposalWait => Some(RunState::Proposal),
            Phase::ProposalSend { .. } => Some(RunState::Proposal),
            Phase::PrepareEnter { .. } => Some(RunState::Prepare),
            Phase::PrepareSend { .. } => Some(RunState::Prepare),
            Phase::PrepareCollect { .. } => Some(RunState::Prepare),
            Phase::PrepareWait { .. } => Some(RunState::Prepare),
            Phase::CommitSend { .. } => Some(RunState::Commit),
            Phase::CommitCollect { .. } => Some(RunState::Commit),
            Phase::CommitWait { .. } => Some(RunState::Commit),
            Phase::Finalized => Some(RunState::Finalized),
            Phase::Failed => None,
        }
    }
}

/// Whether a prepare message is for the block with a digest.
pub fn verify_prepare_fn(prepare: &PrepareMessageSigned, digest: &[u8; 32]) -> (valid: bool)
    ensures
        valid == (prepare.proposed_block_digest == *digest),
{
    array_eq(&prepare.proposed_block_digest, digest)
}

/// Whether a commit message is for the block with a digest.
pub fn verify_commit_fn(commit: &CommitMessageSigned, digest: &[u8; 32]) -> (valid: bool)
    ensures
        valid == (commit.proposed_block_digest == *digest),
{
    array_eq(&commit.proposed_block_digest, digest)
}

/// The seals of commit messages, and the own seal behind them.
pub open spec fn seals_of(commits: Seq<CommitMessageSigned>, own: Signature) -> Seq<Signature> {
    Seq::new(commits.len(), |i: int| commits[i].commit_seal).push(own)
}

/// Gathers the seals of commit messages and puts the own seal behind them.
pub fn collect_seals(commits: Vec<CommitMessageSigned>, own: Signature) -> (seals: CommitSeals)
    ensures
        seals@ == seals_of(commits@, own),
{
    let mut seals: Vec<Signature> = Vec::new();
    let mut i: usize = 0;
    while i < commits.len()
        invariant
            i <= commits@.len(),
            seals@.len() == i,
            forall|j: int| 0 <= j < i ==> #[trigger] seals@[j] == commits@[j].commit_seal,
        decreases commits@.len() - i,
    {
        seals.push(commits[i].commit_seal);
        i += 1;
    }
    seals.push(own);
    assert(seals@ =~= seals_of(commits@, own));
    seals
}

/// Why a proposal is refused in a view before its block is judged.
pub open spec fn proposal_fault(view: ConsensusView, proposal: ProposalMessageSigned) -> Option<
    IBFTError,
> {
    if proposal.proposed_block.round != view.round {
        Some(IBFTError::IncorrectProposedBlockRound)
    } else if !proposal.has_block_digest() {
        Some(IBFTError::IncorrectProposalDigest)
    } else {
        None
    }
}

/// Whether a phase and an action follow from the attempt to build a block: without a
/// block the round fails, and with one the proposal is sent.
pub open spec fn proposal_follows(
    signer: Signer,
    view: ConsensusView,
    built: Result<RawBlock, String>,
    phase: Phase,
    action: RoundAction,
) -> bool {
    match built {
        Ok(raw_block) => match (phase, action) {
            (Phase::ProposalSend { digest }, RoundAction::SendProposal(proposal)) => {
                &&& proposal.is_proposal_of(view, raw_block, signer)
                &&& digest == proposal.proposed_block_digest
            },
            _ => false,
        },
        Err(reason) => phase == Phase::Failed && action == RoundAction::Fail(
            IBFTError::BlockBuild(reason),
        ),
    }
}

/// Whether a phase and an action follow the entry into the prepare state: the own prepare
/// message is sent.
pub open spec fn entry_follows(
    signer: Signer,
    view: ConsensusView,
    digest: [u8; 32],
    phase: Phase,
    action: RoundAction,
) -> bool {
    &&& phase == (Phase::PrepareSend { digest })
    &&& action matches RoundAction::SendPrepare(prepare) && prepare.is_prepare_of(
        view,
        digest,
        signer,
    )
}

/// Whether a phase and an action follow the verdict on the block of a proposal.
pub open spec fn verdict_follows(
    digest: [u8; 32],
    verdict: Result<(), String>,
    phase: Phase,
    action: RoundAction,
) -> bool {
    match verdict {
        Ok(()) => phase == (Phase::PrepareEnter { digest }) && action == RoundAction::EnterPrepare,
        Err(reason) => phase == Phase::Failed && action == RoundAction::Fail(
            IBFTError::InvalidBlock(reason),
        ),
    }
}

/// Whether a phase and an action follow when a proposal has been taken.
pub open spec fn proposal_taken_follows<V: ValidatorManager, BV: BlockVerifier, BB: BlockBuilder>(
    ibft: IBFT<V, BV, BB>,
    view: ConsensusView,
    proposal: ProposalMessageSigned,
    phase: Phase,
    action: RoundAction,
) -> bool {
    match proposal_fault(view, proposal) {
        Some(fault) => phase == Phase::Failed && action == RoundAction::Fail(fault),
        None => exists|verdict: Result<(), String>|
            #[trigger] ibft.block_verifier.judges(
                proposal.proposed_block.raw_block.bytes@,
                verdict,
            ) && verdict_follows(
                proposal.proposed_block_digest,
                verdict,
                phase,
                action,
            ),
    }
}

/// Whether a round and an action open a view.
pub open spec fn round_opens<V: ValidatorManager, BV: BlockVerifier, BB: BlockBuilder>(
    ibft: IBFT<V, BV, BB>,
    view: ConsensusView,
    round: Round,
    action: RoundAction,
) -> bool {
    &&& round.view == view
    &&& round.quorum == ibft.validator_manager.quorum_at(view.height)
    &&& if ibft.validator_manager.proposes(ibft.signer.spec_address().bytes@, view) {
        exists|built: Result<RawBlock, String>|
            #[trigger] ibft.block_builder.builds(view.height, built) && proposal_follows(
                ibft.signer,
                view,
                built,
                round.phase,
                action,
            )
    } else {
        round.phase == (Phase::ProposalTake { announced: false }) && action
            == RoundAction::OpenProposals
    }
}

/// Whether `event` takes the round `before` to the round `after` and calls for `action`.
pub open spec fn round_advances<V: ValidatorManager, BV: BlockVerifier, BB: BlockBuilder>(
    ibft: IBFT<V, BV, BB>,
    before: Round,
    event: RoundEvent,
    after: Round,
    action: RoundAction,
) -> bool {
    let view = before.view;
    let need = (before.quorum - 1) as usize;
    let phase = after.phase;
    &&& after.view == view
    &&& after.quorum == before.quorum
    &&& match (before.phase, event) {
        (Phase::ProposalTake { .. }, RoundEvent::Proposal(proposal)) => match proposal {
            Some(proposal) => proposal_taken_follows(ibft, view, proposal, phase, action),
            None => phase == Phase::ProposalWait && action == RoundAction::AwaitProposal,
        },
        (Phase::ProposalWait, RoundEvent::ProposalAnnounced(announced)) => if announced != view {
            phase == Phase::ProposalWait && action == RoundAction::AwaitProposal
        } else {
            phase == (Phase::ProposalTake { announced: true }) && action
                == RoundAction::TakeProposal
        },
        (Phase::ProposalSend { digest }, RoundEvent::Sent) => phase == (Phase::PrepareEnter {
            digest,
        }) && action == RoundAction::EnterPrepare,
        (Phase::PrepareEnter { digest }, RoundEvent::Entered) => entry_follows(
            ibft.signer,
            view,
            digest,
            phase,
            action,
        ),
        (Phase::PrepareSend { digest }, RoundEvent::Sent) => phase == (Phase::PrepareCollect {
            digest,
        }) && action == (RoundAction::OpenPrepares { digest, need }),
        (Phase::PrepareCollect { digest }, RoundEvent::Prepares { need_more, .. }) => if need_more
            > 0 {
            phase == (Phase::PrepareWait { digest, need_more }) && action
                == RoundAction::AwaitPrepare
        } else {
            match (phase, action) {
                (Phase::CommitSend { digest: kept, seal }, RoundAction::SendCommit(commit)) => {
                    &&& kept == digest
                    &&& seal == commit.commit_seal
                    &&& commit.is_commit_of(view, digest, ibft.signer)
                },
                _ => false,
            }
        },
        (Phase::PrepareWait { digest, need_more }, RoundEvent::PrepareAnnounced(announced)) => if announced
            != view {
            phase == before.phase && action == RoundAction::AwaitPrepare
        } else if need_more == 1 {
            phase == (Phase::PrepareCollect { digest }) && action == (RoundAction::CollectPrepares {
                digest,
                need,
            })
        } else {
            phase == (Phase::PrepareWait { digest, need_more: (need_more - 1) as usize }) && action
                == RoundAction::AwaitPrepare
        },
        (Phase::CommitSend { digest, seal }, RoundEvent::Sent) => phase == (Phase::CommitCollect {
            digest,
            seal,
        }) && action == (RoundAction::OpenCommits { digest, need }),
        (Phase::CommitCollect { digest, seal }, RoundEvent::Commits { messages, need_more }) => if need_more
            > 0 {
            phase == (Phase::CommitWait { digest, seal, need_more }) && action
                == RoundAction::AwaitCommit
        } else {
            &&& phase == Phase::Finalized
            &&& action matches RoundAction::Finish(seals) && seals@ == seals_of(messages->0@, seal)
        },
        (
            Phase::CommitWait { digest, seal, need_more },
            RoundEvent::CommitAnnounced(announced),
        ) => if announced != view {
            phase == before.phase && action == RoundAction::AwaitCommit
        } else if need_more == 1 {
            phase == (Phase::CommitCollect { digest, seal }) && action
                == (RoundAction::CollectCommits { digest, need })
        } else {
            phase == (Phase::CommitWait { digest, seal, need_more: (need_more - 1) as usize })
                && action == RoundAction::AwaitCommit
        },
        _ => false,
    }
}

/// What has come about while a round was running.
#[derive(Debug, Clone)]
pub struct RoundOutcome {
    /// The run was called off.
    pub cancelled: bool,
    /// The time of the round is up.
    pub timed_out: bool,
    /// The watch for a proposal of a later round is over.
    pub future_proposal: bool,
    /// The watch for round changes is over.
    pub rcc: bool,
    /// The round ended with the seals of a quorum.
    pub finished: Option<CommitSeals>,
}

/// How the run goes on.
#[derive(Debug, Clone)]
pub enum RunStep {
    /// The run ends without a block.
    Cancelled,
    /// The run ends with a block under these seals.
    Finished(CommitSeals),
    /// The round of the view begins.
    NextRound,
    /// The round goes on.
    Running,
}

/// What comes of an outcome, and the view after it. Of several things that have come
/// about, a cancellation goes before the timeout, which moves on to the next round; the
/// ends of the watches come before the end of the round and start the round again.
pub open spec fn run_step(view: ConsensusView, outcome: RoundOutcome) -> (ConsensusView, RunStep) {
    if outcome.cancelled {
        (view, RunStep::Cancelled)
    } else if outcome.timed_out {
        (ConsensusView { round: (view.round + 1) as u32, ..view }, RunStep::NextRound)
    } else if outcome.future_proposal || outcome.rcc {
        (view, RunStep::NextRound)
    } else {
        match outcome.finished {
            Some(seals) => (view, RunStep::Finished(seals)),
            None => (view, RunStep::Running),
        }
    }
}

/// Puts the final block of a round together.
pub fn finalize(proposal: ProposalMessageSigned, commit_seals: CommitSeals) -> (block:
    FinalizedBlock)
    ensures
        block.proposed_block == proposal.proposed_block,
        block.commit_seals == commit_seals,
{
    FinalizedBlock::new(proposal.proposed_block, commit_seals)
}

impl<V: ValidatorManager, BV: BlockVerifier, BB: BlockBuilder> IBFT<V, BV, BB> {
    /// A validator.
    pub fn new(validator_manager: V, block_verifier: BV, block_builder: BB, signer: Signer) -> (ibft:
        Self)
        ensures
            ibft == (IBFT { validator_manager, block_verifier, block_builder, signer }),
    {
        IBFT { validator_manager, block_verifier, block_builder, signer }
    }

    /// Decides how the run at a height goes on when something has come about.
    pub fn run(&self, view: ConsensusView, outcome: RoundOutcome) -> (next: (
        ConsensusView,
        RunStep,
    ))
        requires
            outcome.timed_out && !outcome.cancelled ==> view.round < u32::MAX,
        ensures
            next == run_step(view, outcome),
    {
        let mut view = view;
        if outcome.cancelled {
            return (view, RunStep::Cancelled);
        }
        if outcome.timed_out {
            view.round = view.round + 1;
            return (view, RunStep::NextRound);
        }
        if outcome.future_proposal || outcome.rcc {
            return (view, RunStep::NextRound);
        }
        match outcome.finished {
            Some(commit_seals) => (view, RunStep::Finished(commit_seals)),
            None => (view, RunStep::Running),
        }
    }

    /// Proposes a block that was built, or fails with the reason why none was.
    pub fn propose(&self, view: ConsensusView, built: Result<RawBlock, String>) -> (next: (
        Phase,
        RoundAction,
    ))
        ensures
            proposal_follows(self.signer, view, built, next.0, next.1),
    {
        match built {
            Ok(raw_block) => {
                let proposal = ProposalMessageSigned::new(view, raw_block, &self.signer);
                let digest: [u8; 32] = proposal.proposed_block_digest;
                (Phase::ProposalSend { digest }, RoundAction::SendProposal(proposal))
            },
            Err(reason) => (Phase::Failed, RoundAction::Fail(IBFTError::BlockBuild(reason))),
        }
    }

    /// Opens round zero of a height: the proposer builds and proposes a block, the others
    /// look for its proposal.
    pub fn run_ibft_round0(&self, view: ConsensusView) -> (next: (Round, RoundAction))
        requires
            view.round == 0,
        ensures
            next.0.wf(),
            round_opens(*self, view, next.0, next.1),
    {
        let quorum: usize = self.validator_manager.quorum(view.height);
        let (phase, action) = if self.validator_manager.is_proposer(self.signer.address(), view) {
            let built = self.block_builder.build_block(view.height);
            self.propose(view, built)
        } else {
            (Phase::ProposalTake { announced: false }, RoundAction::OpenProposals)
        };
        (Round { view, quorum, phase }, action)
    }

    /// Answers an accepted proposal with a prepare message.
    fn prepare(&self, view: ConsensusView, digest: [u8; 32]) -> (next: (Phase, RoundAction))
        ensures
            entry_follows(self.signer, view, digest, next.0, next.1),
    {
        let prepare = PrepareMessageSigned::new(view, digest, &self.signer);
        (Phase::PrepareSend { digest }, RoundAction::SendPrepare(prepare))
    }

    /// Answers the verdict on the block of a proposal.
    pub fn answer_verdict(&self, digest: [u8; 32], verdict: Result<(), String>) -> (next: (
        Phase,
        RoundAction,
    ))
        ensures
            verdict_follows(digest, verdict, next.0, next.1),
    {
        match verdict {
            Ok(()) => (Phase::PrepareEnter { digest }, RoundAction::EnterPrepare),
            Err(reason) => (Phase::Failed, RoundAction::Fail(IBFTError::InvalidBlock(reason))),
        }
    }

    /// Answers the proposal of the view.
    pub fn answer_proposal(&self, view: ConsensusView, proposal: &ProposalMessageSigned) -> (next: (
        Phase,
        RoundAction,
    ))
        ensures
            proposal_taken_follows(*self, view, *proposal, next.0, next.1),
    {
        if proposal.proposed_block.round != view.round {
            return (
                Phase::Failed,
                RoundAction::Fail(IBFTError::IncorrectProposedBlockRound),
            );
        }
        if !proposal.verify_digest() {
            return (Phase::Failed, RoundAction::Fail(IBFTError::IncorrectProposalDigest));
        }
        let verdict = self.block_verifier.verify_block(&proposal.proposed_block.raw_block);
        self.answer_verdict(proposal.proposed_block_digest, verdict)
    }

    /// Takes a round on by an event.
    pub fn advance_round(&self, round: Round, event: RoundEvent) -> (next: (Round, RoundAction))
        requires
            round.wf(),
            round.expects(event),
        ensures
            next.0.wf(),
            round_advances(*self, round, event, next.0, next.1),
    {
        let view = round.view;
        let (phase, action) = match (round.phase, event) {
            (Phase::ProposalTake { .. }, RoundEvent::Proposal(proposal)) => match proposal {
                Some(proposal) => self.answer_proposal(view, &proposal),
                None => (Phase::ProposalWait, RoundAction::AwaitProposal),
            },
            (Phase::ProposalWait, RoundEvent::ProposalAnnounced(announced)) => {
                if announced != view {
                    (Phase::ProposalWait, RoundAction::AwaitProposal)
                } else {
                    (Phase::ProposalTake { announced: true }, RoundAction::TakeProposal)
                }
            },
            (Phase::ProposalSend { digest }, RoundEvent::Sent) => {
                (Phase::PrepareEnter { digest }, RoundAction::EnterPrepare)
            },
            (Phase::PrepareEnter { digest }, RoundEvent::Entered) => self.prepare(view, digest),
            (Phase::PrepareSend { digest }, RoundEvent::Sent) => {
                let need: usize = round.quorum - 1;
                (Phase::PrepareCollect { digest }, RoundAction::OpenPrepares { digest, need })
            },
            (Phase::PrepareCollect { digest }, RoundEvent::Prepares { need_more, .. }) => {
                if need_more > 0 {
                    (Phase::PrepareWait { digest, need_more }, RoundAction::AwaitPrepare)
                } else {
                    let commit = CommitMessageSigned::new(view, digest, &self.signer);
                    let seal = commit.commit_seal;
                    (Phase::CommitSend { digest, seal }, RoundAction::SendCommit(commit))
                }
            },
            (Phase::PrepareWait { digest, need_more }, RoundEvent::PrepareAnnounced(announced)) => {
                if announced != view {
                    (round.phase, RoundAction::AwaitPrepare)
                } else if need_more == 1 {
                    let need: usize = round.quorum - 1;
                    (Phase::PrepareCollect { digest }, RoundAction::CollectPrepares { digest, need })
                } else {
                    (
                        Phase::PrepareWait { digest, need_more: need_more - 1 },
                        RoundAction::AwaitPrepare,
                    )
                }
            },
            (Phase::CommitSend { digest, seal }, RoundEvent::Sent) => {
                let need: usize = round.quorum - 1;
                (Phase::CommitCollect { digest, seal }, RoundAction::OpenCommits { digest, need })
            },
            (Phase::CommitCollect { digest, seal }, RoundEvent::Commits { messages, need_more }) => {
                if need_more > 0 {
                    (Phase::CommitWait { digest, seal, need_more }, RoundAction::AwaitCommit)
                } else {
                    let seals: CommitSeals = collect_seals(messages.unwrap(), seal);
                    (Phase::Finalized, RoundAction::Finish(seals))
                }
            },
            (
                Phase::CommitWait { digest, seal, need_more },
                RoundEvent::CommitAnnounced(announced),
            ) => {
                if announced != view {
                    (round.phase, RoundAction::AwaitCommit)
                } else if need_more == 1 {
                    let need: usize = round.quorum - 1;
                    (
                        Phase::CommitCollect { digest, seal },
                        RoundAction::CollectCommits { digest, need },
                    )
                } else {
                    (
                        Phase::CommitWait { digest, seal, need_more: need_more - 1 },
                        RoundAction::AwaitCommit,
                    )
                }
            },
            // No other event is expected.
            _ => (Phase::Failed, RoundAction::AwaitProposal),
        };
        (Round { view, quorum: round.quorum, phase }, action)
    }
}

} // verus!
