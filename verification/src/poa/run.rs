//! The run of consensus at one height: from round to round until a block is final.

use crate::poa::backend::{BlockService, ValidatorManager};
use crate::poa::ibft::{RunState, IBFT, MAX_ROUND};
use crate::poa::round::{Round, RoundAction};
use crate::poa::types::{
    CommitSeals, ConsensusView, FinalizedBlock, PrepareMessageSigned, PreparedCertificate,
    PreparedProposed, ProposalMessageSigned, RoundChangeMessage, RoundChangeMessageSigned,
};
use crate::primitives::signer::Signer;
use vstd::prelude::*;

verus! {

/// The state of the run at a height between two rounds: the round that comes next, and
/// the round change message that was sent last.
#[derive(Debug, Clone)]
pub struct HeightRun {
    pub height: u64,
    pub round: u8,
    pub latest_self_round_change: Option<RoundChangeMessageSigned>,
}

/// What has come about while a round was running.
#[derive(Debug, Clone)]
pub struct RoundOutcome {
    /// The run was called off.
    pub cancelled: bool,
    /// The round ended with the seals of a quorum.
    pub finished: Option<CommitSeals>,
    /// A valid proposal of a later round was found.
    pub future_proposal: Option<u8>,
    /// A quorum of round changes to a later round was found.
    pub future_rcc: Option<u8>,
    /// The time of the round is up.
    pub timed_out: bool,
}

/// How the run goes on.
#[derive(Debug, Clone)]
pub enum RunStep {
    /// The run ends without a block.
    Cancelled,
    /// The run ends with a block under these seals.
    Finished(CommitSeals),
    /// The next round begins.
    NextRound,
    /// A round change is due; after it the next round begins.
    TimedOut,
    /// The round goes on.
    Running,
}

impl HeightRun {
    /// Whether the round change message that was sent last is for the height.
    pub open spec fn wf(self) -> bool {
        self.latest_self_round_change matches Some(round_change) ==> round_change.view.height
            == self.height
    }

    /// The view of the round that comes next.
    pub open spec fn spec_view(self) -> ConsensusView {
        ConsensusView { height: self.height, round: self.round }
    }

    /// The run at the start of a height.
    pub fn new(height: u64) -> (run: Self)
        ensures
            run.wf(),
            run == (HeightRun { height, round: 0, latest_self_round_change: None }),
    {
        HeightRun { height, round: 0, latest_self_round_change: None }
    }

    /// The view of the round that comes next.
    pub fn view(&self) -> (view: ConsensusView)
        ensures
            view == self.spec_view(),
    {
        ConsensusView::new(self.height, self.round)
    }

    /// Whether there are no rounds left, so that the height cannot be finished.
    pub open spec fn spec_is_dead(self) -> bool {
        self.round > MAX_ROUND
    }

    /// Whether there are no rounds left, so that the height cannot be finished.
    pub fn is_dead(&self) -> (dead: bool)
        ensures
            dead == self.spec_is_dead(),
    {
        self.round > MAX_ROUND
    }
}

/// What comes of an outcome, and the round after it. Of several things that have come
/// about, a cancellation goes before the end of the round, that before a proposal of a
/// later round, that before round changes to a later round, and all before the timeout.
pub open spec fn run_step(run: HeightRun, outcome: RoundOutcome) -> (HeightRun, RunStep) {
    if outcome.cancelled {
        (run, RunStep::Cancelled)
    } else if outcome.finished is Some {
        (run, RunStep::Finished(outcome.finished->0))
    } else if outcome.future_proposal is Some {
        (HeightRun { round: outcome.future_proposal->0, ..run }, RunStep::NextRound)
    } else if outcome.future_rcc is Some {
        (HeightRun { round: outcome.future_rcc->0, ..run }, RunStep::NextRound)
    } else if outcome.timed_out {
        (run, RunStep::TimedOut)
    } else {
        (run, RunStep::Running)
    }
}

/// What a validator tells the others to have prepared when a round times out: the block
/// of the round if it came as far as the commit state, otherwise what it told before.
pub open spec fn prepared_to_tell(
    prepared: Option<(ProposalMessageSigned, Vec<PrepareMessageSigned>)>,
    latest: Option<RoundChangeMessageSigned>,
) -> Option<PreparedProposed> {
    match prepared {
        Some((proposal, prepares)) => Some(
            PreparedProposed {
                proposed_block: proposal.message.proposed_block,
                prepared_certificate: PreparedCertificate {
                    proposal: proposal.metadata(),
                    prepare_messages: prepares,
                },
            },
        ),
        None => match latest {
            Some(round_change) => round_change.latest_prepared_proposed,
            None => None,
        },
    }
}

/// Whether `next` is where the run goes when the round of `run` has timed out: on to the
/// next round, with a round change to it that tells what was prepared.
pub open spec fn timeout_follows(
    signer: Signer,
    run: HeightRun,
    prepared: Option<(ProposalMessageSigned, Vec<PrepareMessageSigned>)>,
    next: HeightRun,
) -> bool {
    &&& next.wf()
    &&& next.height == run.height
    &&& next.round == run.round + 1
    &&& next.latest_self_round_change matches Some(round_change) && {
        &&& round_change.is_round_change_of(
            next.spec_view(),
            prepared_to_tell(prepared, run.latest_self_round_change),
            signer,
        )
        &&& round_change.signer() == Some(signer.spec_address().bytes@)
    }
}

/// Puts the final block of a round together.
pub fn handle_round_finish(proposal: ProposalMessageSigned, commit_seals: CommitSeals) -> (block:
    FinalizedBlock)
    ensures
        block.proposed_block == proposal.message.proposed_block,
        block.commit_seals == commit_seals,
{
    FinalizedBlock::new(proposal.message.proposed_block, commit_seals)
}

impl<V: ValidatorManager, BS: BlockService> IBFT<V, BS> {
    /// Whether the own round change message belongs among the stored ones when a round
    /// starts: in a later round, if it is for its view and the validator is its
    /// proposer.
    pub open spec fn counts_own_round_change(
        self,
        view: ConsensusView,
        latest: Option<RoundChangeMessageSigned>,
    ) -> bool {
        &&& view.round != 0
        &&& latest matches Some(round_change) && round_change.view == view
        &&& self.validator_manager.proposes(self.signer.spec_address().bytes@, view)
    }

    /// Decides whether the own round change message is to be stored before a round
    /// starts.
    pub fn start_ibft_round(
        &self,
        view: ConsensusView,
        latest_self_round_change: &Option<RoundChangeMessageSigned>,
    ) -> (store: bool)
        ensures
            store == self.counts_own_round_change(view, *latest_self_round_change),
    {
        if view.round == 0 {
            return false;
        }
        match latest_self_round_change {
            Some(round_change) => round_change.view == view && self.validator_manager.is_proposer(
                self.signer.address(),
                view,
            ),
            None => false,
        }
    }

    /// Opens the round of a view.
    pub fn open_round(&self, view: ConsensusView) -> (next: (Round, RoundAction))
        requires
            self.validator_manager.quorum_at(view.height) > 0,
        ensures
            next.0.wf(),
            crate::poa::round::round_opens(*self, view, next.0, next.1),
    {
        if view.round == 0 {
            self.run_ibft_round_0(view)
        } else {
            self.run_ibft_round_1(view)
        }
    }

    /// Decides how the run at a height goes on when something has come about in a round
    /// that was started.
    pub fn run(&self, run: HeightRun, outcome: RoundOutcome) -> (next: (HeightRun, RunStep))
        requires
            run.wf(),
            !run.spec_is_dead(),
        ensures
            next.0.wf(),
            next == run_step(run, outcome),
    {
        let mut run = run;
        if outcome.cancelled {
            return (run, RunStep::Cancelled);
        }
        if let Some(commit_seals) = outcome.finished {
            return (run, RunStep::Finished(commit_seals));
        }
        if let Some(new_round) = outcome.future_proposal {
            run.round = new_round;
            return (run, RunStep::NextRound);
        }
        if let Some(new_round) = outcome.future_rcc {
            run.round = new_round;
            return (run, RunStep::NextRound);
        }
        if outcome.timed_out {
            (run, RunStep::TimedOut)
        } else {
            (run, RunStep::Running)
        }
    }

    /// Signs the round change that is due when a round has timed out, and moves on to
    /// the next round. `prepared` is the proposal of the round with the prepare messages
    /// for it, which there is when the round came as far as the commit state.
    pub fn handle_timeout(
        &self,
        run: HeightRun,
        run_state: RunState,
        prepared: Option<(ProposalMessageSigned, Vec<PrepareMessageSigned>)>,
    ) -> (next: HeightRun)
        requires
            run.wf(),
            run.round < u8::MAX,
            run_state == RunState::Commit <==> prepared is Some,
            prepared matches Some((_, prepares)) ==> prepares@.len()
                >= self.validator_manager.quorum_at(run.height) - 1,
        ensures
            timeout_follows(self.signer, run, prepared, next),
    {
        let next_round: u8 = run.round + 1;
        let view = ConsensusView::new(run.height, next_round);
        let round_change = match run_state {
            RunState::Commit => {
                let (proposal, prepares) = prepared.unwrap();
                let prepared_proposed = PreparedProposed::new(proposal, prepares);
                RoundChangeMessage::new(view, Some(prepared_proposed)).into_signed(&self.signer)
            },
            _ => match run.latest_self_round_change {
                Some(round_change) => {
                    let mut round_change = round_change;
                    round_change.update_and_resign(next_round, &self.signer);
                    round_change
                },
                None => RoundChangeMessage::new(view, None).into_signed(&self.signer),
            },
        };
        HeightRun {
            height: run.height,
            round: next_round,
            latest_self_round_change: Some(round_change),
        }
    }
}

} // verus!
