//! The course of one round, from the proposal to the seals of a quorum.
//!
//! A round is a state machine. It tells what is to be done next, its surroundings do it
//! and report back what happened.

use crate::poa::backend::{BlockService, ValidatorManager};
use crate::poa::ibft::{RunState, IBFT};
use crate::poa::types::{
    CommitMessage, CommitMessageSigned, CommitSeals, ConsensusView, IBFTError, PrepareMessage,
    PrepareMessageSigned, ProposalMessage, ProposalMessageSigned, RawBlock,
    RoundChangeCertificate, RoundChangeMessageSigned, RoundChangeMetadata,
};
use crate::primitives::signer::Signer;
use vstd::prelude::*;

verus! {

/// What a round is waiting for.
#[derive(Debug, Clone, Copy)]
pub enum Phase {
    /// The round changes for the view, asked for by its proposer.
    RoundChangeQuery,
    /// Further round changes; so many are there.
    RoundChangeWait { count: usize },
    /// The digest of the proposal; `announced` once a proposal has been announced.
    ProposalQuery { announced: bool },
    /// The announcement of a proposal.
    ProposalWait,
    /// The sending of the own proposal.
    ProposalSend { digest: [u8; 32] },
    /// The sending of the own prepare message.
    PrepareSend { digest: [u8; 32] },
    /// The number of prepare messages.
    PrepareQuery { digest: [u8; 32] },
    /// Further prepare messages; so many are there.
    PrepareWait { digest: [u8; 32], count: usize },
    /// The sending of the own commit message.
    CommitSend { digest: [u8; 32] },
    /// The commit seals.
    CommitQuery { digest: [u8; 32] },
    /// Further commit messages; so many are there.
    CommitWait { digest: [u8; 32], count: usize },
    /// Nothing: the round is over.
    Ended,
}

/// A round in progress.
#[derive(Debug, Clone, Copy)]
pub struct Round {
    pub view: ConsensusView,
    pub quorum: usize,
    pub phase: Phase,
}

/// What is to be done for a round.
#[derive(Debug, Clone)]
pub enum RoundAction {
    /// Subscribe to round changes, then take the valid ones of the view.
    OpenRoundChanges,
    /// Take the valid round changes of the view.
    TakeRoundChanges,
    /// Wait for the announcement of a round change.
    AwaitRoundChange,
    /// Subscribe to proposals, then look for a valid one of the view.
    OpenProposals,
    /// Look for a valid proposal of the view.
    QueryProposal,
    /// Wait for the announcement of a proposal.
    AwaitProposal,
    /// Broadcast the own proposal, then store it.
    SendProposal(ProposalMessageSigned),
    /// Broadcast the own prepare message, then store it.
    SendPrepare(PrepareMessageSigned),
    /// Subscribe to prepare messages, then count those of the view for the digest.
    OpenPrepares { digest: [u8; 32] },
    /// Count the prepare messages of the view for the digest.
    CountPrepares { digest: [u8; 32] },
    /// Wait for the announcement of a prepare message.
    AwaitPrepare,
    /// Broadcast the own commit message, then store it.
    SendCommit(CommitMessageSigned),
    /// Subscribe to commit messages, then take the seals of the view for the digest.
    OpenCommits { digest: [u8; 32] },
    /// Take the seals of the view for the digest.
    TakeCommits { digest: [u8; 32] },
    /// Wait for the announcement of a commit message.
    AwaitCommit,
    /// The round ends with the seals of a quorum.
    Finish(CommitSeals),
    /// The round ends without a block.
    Fail(IBFTError),
}

/// What happened in reply to an action.
#[derive(Debug, Clone)]
pub enum RoundEvent {
    /// The number of valid round changes, with the messages if they are a quorum.
    RoundChanges { messages: Option<Vec<RoundChangeMessageSigned>>, count: usize },
    /// A round change for a view was announced.
    RoundChangeAnnounced(ConsensusView),
    /// The digest of the stored proposal of the view, or why it is refused; nothing
    /// without a proposal.
    ProposalDigest(Option<Result<[u8; 32], IBFTError>>),
    /// A proposal for a view was announced.
    ProposalAnnounced(ConsensusView),
    /// A message was sent and stored.
    Sent,
    /// The number of valid prepare messages.
    PrepareCount(usize),
    /// A prepare message for a view was announced.
    PrepareAnnounced(ConsensusView),
    /// The number of valid commit messages, with the seals if they are a quorum.
    Commits { seals: Option<CommitSeals>, count: usize },
    /// A commit message for a view was announced.
    CommitAnnounced(ConsensusView),
}

impl Round {
    /// Whether a count that is not yet enough is on record where one is.
    pub open spec fn wf(self) -> bool {
        &&& self.quorum > 0
        &&& match self.phase {
            Phase::RoundChangeWait { count } => count < self.quorum,
            Phase::PrepareWait { count, .. } => count < self.quorum - 1,
            Phase::CommitWait { count, .. } => count < self.quorum,
            _ => true,
        }
    }

    /// Whether an event can happen in the phase of the round. A quorum comes with its
    /// messages, and a proposal that was announced is there.
    pub open spec fn expects(self, event: RoundEvent) -> bool {
        match (self.phase, event) {
            (Phase::RoundChangeQuery, RoundEvent::RoundChanges { messages, count }) => count
                >= self.quorum ==> messages is Some,
            (Phase::RoundChangeWait { .. }, RoundEvent::RoundChangeAnnounced(_)) => true,
            (Phase::ProposalQuery { announced }, RoundEvent::ProposalDigest(digest)) => announced
                ==> digest is Some,
            (Phase::ProposalWait, RoundEvent::ProposalAnnounced(_)) => true,
            (Phase::ProposalSend { .. }, RoundEvent::Sent) => true,
            (Phase::PrepareSend { .. }, RoundEvent::Sent) => true,
            (Phase::PrepareQuery { .. }, RoundEvent::PrepareCount(_)) => true,
            (Phase::PrepareWait { .. }, RoundEvent::PrepareAnnounced(_)) => true,
            (Phase::CommitSend { .. }, RoundEvent::Sent) => true,
            (Phase::CommitQuery { .. }, RoundEvent::Commits { seals, count }) => count
                >= self.quorum ==> seals is Some,
            (Phase::CommitWait { .. }, RoundEvent::CommitAnnounced(_)) => true,
            _ => false,
        }
    }

    /// Whether an event can happen in the phase of the round.
    pub fn is_expected(&self, event: &RoundEvent) -> (expected: bool)
        ensures
            expected == self.expects(*event),
    {
        match (&self.phase, event) {
            (Phase::RoundChangeQuery, RoundEvent::RoundChanges { messages, count }) => *count
                < self.quorum || messages.is_some(),
            (Phase::RoundChangeWait { .. }, RoundEvent::RoundChangeAnnounced(_)) => true,
            (Phase::ProposalQuery { announced }, RoundEvent::ProposalDigest(digest)) => !*announced
                || digest.is_some(),
            (Phase::ProposalWait, RoundEvent::ProposalAnnounced(_)) => true,
            (Phase::ProposalSend { .. }, RoundEvent::Sent) => true,
            (Phase::PrepareSend { .. }, RoundEvent::Sent) => true,
            (Phase::PrepareQuery { .. }, RoundEvent::PrepareCount(_)) => true,
            (Phase::PrepareWait { .. }, RoundEvent::PrepareAnnounced(_)) => true,
            (Phase::CommitSend { .. }, RoundEvent::Sent) => true,
            (Phase::CommitQuery { .. }, RoundEvent::Commits { seals, count }) => *count
                < self.quorum || seals.is_some(),
            (Phase::CommitWait { .. }, RoundEvent::CommitAnnounced(_)) => true,
            _ => false,
        }
    }

    /// How far the round has come.
    pub open spec fn spec_run_state(self) -> RunState {
        match self.phase {
            Phase::PrepareQuery { .. } => RunState::Prepare,
            Phase::PrepareWait { .. } => RunState::Prepare,
            Phase::CommitSend { .. } => RunState::Prepare,
            Phase::CommitQuery { .. } => RunState::Commit,
            Phase::CommitWait { .. } => RunState::Commit,
            _ => RunState::Proposal,
        }
    }

    /// How far the round has come; nothing once it is over.
    pub fn run_state(&self) -> (state: Option<RunState>)
        ensures
            state == if self.phase is Ended {
                None
            } else {
                Some(self.spec_run_state())
            },
    {
        match self.phase {
            Phase::PrepareQuery { .. } => Some(RunState::Prepare),
            Phase::PrepareWait { .. } => Some(RunState::Prepare),
            Phase::CommitSend { .. } => Some(RunState::Prepare),
            Phase::CommitQuery { .. } => Some(RunState::Commit),
            Phase::CommitWait { .. } => Some(RunState::Commit),
            Phase::Ended => None,
            _ => Some(RunState::Proposal),
        }
    }
}

/// Round changes without their prepared blocks.
pub open spec fn metadata_list(round_changes: Seq<RoundChangeMessageSigned>) -> Seq<
    RoundChangeMetadata,
> {
    Seq::new(round_changes.len(), |i: int| round_changes[i].metadata())
}

/// Where, among round changes, the block that was prepared last is found: the first one
/// whose prepared certificate has the greatest round.
pub open spec fn latest_prepared(round_changes: Seq<RoundChangeMessageSigned>) -> Option<int> {
    crate::poa::verification::highest_prepared(metadata_list(round_changes))
}

/// The round changes of the certificate that a proposer puts together: the one with the
/// block that was prepared last goes to the end, and the last one takes its place.
pub open spec fn certificate_messages(round_changes: Seq<RoundChangeMessageSigned>) -> Seq<
    RoundChangeMetadata,
> {
    match latest_prepared(round_changes) {
        Some(i) => metadata_list(
            round_changes.update(i, round_changes.last()).drop_last(),
        ).push(round_changes[i].metadata()),
        None => metadata_list(round_changes),
    }
}

/// The block that a proposer takes over from round changes: the one that was prepared
/// last.
pub open spec fn certificate_block(round_changes: Seq<RoundChangeMessageSigned>) -> Option<
    RawBlock,
> {
    match latest_prepared(round_changes) {
        Some(i) => Some(
            round_changes[i].latest_prepared_proposed->0.proposed_block.raw_block,
        ),
        None => None,
    }
}

/// Finds the round change with the block that was prepared last.
fn find_latest_prepared(round_changes: &Vec<RoundChangeMessageSigned>) -> (found: Option<usize>)
    ensures
        match found {
            Some(i) => {
                &&& i < round_changes@.len()
                &&& round_changes@[i as int].latest_prepared_proposed is Some
                &&& latest_prepared(round_changes@) == Some(i as int)
            },
            None => latest_prepared(round_changes@) is None,
        },
{
    let ghost list = metadata_list(round_changes@);
    let mut found: Option<usize> = None;
    let mut found_round: u8 = 0;
    let mut i: usize = 0;
    while i < round_changes.len()
        invariant
            i <= round_changes@.len(),
            list == metadata_list(round_changes@),
            match found {
                Some(at) => {
                    &&& at < i
                    &&& round_changes@[at as int].latest_prepared_proposed is Some
                    &&& crate::poa::verification::prepared_round(list[at as int]) == found_round
                    &&& crate::poa::verification::is_highest_prepared(
                        list.take(i as int),
                        Some(at as int),
                    )
                },
                None => crate::poa::verification::is_highest_prepared(list.take(i as int), None),
            },
        decreases round_changes@.len() - i,
    {
        let ghost before = list.take(i as int);
        let ghost after = list.take(i + 1);
        assert(forall|j: int| 0 <= j < i ==> before[j] == #[trigger] after[j]);
        assert(after[i as int] == round_changes@[i as int].metadata());
        if let Some(prepared) = &round_changes[i].latest_prepared_proposed {
            let round: u8 = prepared.prepared_certificate.proposal.view.round;
            if found.is_none() || round > found_round {
                found = Some(i);
                found_round = round;
            }
        }
        i += 1;
    }
    proof {
        assert(list.take(i as int) =~= list);
        match found {
            Some(at) => crate::poa::verification::lemma_highest_prepared(list, Some(at as int)),
            None => crate::poa::verification::lemma_highest_prepared(list, None),
        }
    }
    found
}

/// Takes the prepared blocks out of round changes.
fn into_metadata_list(round_changes: Vec<RoundChangeMessageSigned>) -> (list: Vec<
    RoundChangeMetadata,
>)
    ensures
        list@ == metadata_list(round_changes@),
{
    let mut list: Vec<RoundChangeMetadata> = Vec::new();
    for round_change in iter: round_changes.into_iter()
        invariant
            list@.len() == iter.index(),
            iter.seq() == round_changes@,
            forall|j: int|
                0 <= j < list@.len() ==> #[trigger] list@[j] == round_changes@[j].metadata(),
    {
        list.push(round_change.into_metadata().1);
    }
    assert(list@ =~= metadata_list(round_changes@));
    list
}

/// Puts a round change certificate together, and hands over the block that was prepared
/// last if the round changes bring one along.
pub fn create_certificate(round_changes: Vec<RoundChangeMessageSigned>) -> (created: (
    RoundChangeCertificate,
    Option<RawBlock>,
))
    ensures
        created.0.round_change_messages@ == certificate_messages(round_changes@),
        created.1 == certificate_block(round_changes@),
{
    match find_latest_prepared(&round_changes) {
        Some(position) => {
            let mut round_changes = round_changes;
            let round_change = round_changes.swap_remove(position);
            let (proposed_block, metadata) = round_change.into_metadata();
            let mut list: Vec<RoundChangeMetadata> = into_metadata_list(round_changes);
            list.push(metadata);
            let raw_block = match proposed_block {
                Some(proposed_block) => Some(proposed_block.raw_block),
                None => None,
            };
            (RoundChangeCertificate { round_change_messages: list }, raw_block)
        },
        None => {
            let list: Vec<RoundChangeMetadata> = into_metadata_list(round_changes);
            (RoundChangeCertificate { round_change_messages: list }, None)
        },
    }
}

/// Whether a phase and an action follow from the attempt to build a block for a
/// proposal: without a block the round fails, and with one the proposal is sent.
pub open spec fn proposal_follows(
    signer: Signer,
    view: ConsensusView,
    built: Result<RawBlock, String>,
    certificate: Option<RoundChangeCertificate>,
    phase: Phase,
    action: RoundAction,
) -> bool {
    match built {
        Ok(raw_block) => match (phase, action) {
            (Phase::ProposalSend { digest }, RoundAction::SendProposal(proposal)) => {
                &&& proposal.is_proposal_of(view, raw_block, certificate, signer)
                &&& proposal.metadata().signer() == Some(signer.spec_address().bytes@)
                &&& digest == proposal.message.proposed_block_digest
            },
            _ => false,
        },
        Err(reason) => {
            &&& phase == Phase::Ended
            &&& action == RoundAction::Fail(IBFTError::BlockBuild(reason))
        },
    }
}

/// Whether a phase and an action open the proposal state of round zero.
pub open spec fn proposal_0_opens<V: ValidatorManager, BS: BlockService>(
    ibft: IBFT<V, BS>,
    view: ConsensusView,
    phase: Phase,
    action: RoundAction,
) -> bool {
    if ibft.validator_manager.proposes(ibft.signer.spec_address().bytes@, view) {
        exists|built: Result<RawBlock, String>|
            #[trigger] ibft.block_service.builds(view.height, built) && proposal_follows(
                ibft.signer,
                view,
                built,
                None,
                phase,
                action,
            )
    } else {
        phase == (Phase::ProposalQuery { announced: false }) && action == RoundAction::OpenProposals
    }
}

/// Whether a phase and an action open the proposal state of a later round.
pub open spec fn proposal_1_opens<V: ValidatorManager, BS: BlockService>(
    ibft: IBFT<V, BS>,
    view: ConsensusView,
    phase: Phase,
    action: RoundAction,
) -> bool {
    if ibft.validator_manager.proposes(ibft.signer.spec_address().bytes@, view) {
        phase == Phase::RoundChangeQuery && action == RoundAction::OpenRoundChanges
    } else {
        phase == (Phase::ProposalQuery { announced: false }) && action == RoundAction::OpenProposals
    }
}

/// Whether a round and an action open a view.
pub open spec fn round_opens<V: ValidatorManager, BS: BlockService>(
    ibft: IBFT<V, BS>,
    view: ConsensusView,
    round: Round,
    action: RoundAction,
) -> bool {
    &&& round.view == view
    &&& round.quorum == ibft.validator_manager.quorum_at(view.height)
    &&& if view.round == 0 {
        proposal_0_opens(ibft, view, round.phase, action)
    } else {
        proposal_1_opens(ibft, view, round.phase, action)
    }
}

/// Whether a phase and an action follow when a quorum of round changes is there: the
/// block that was prepared last is proposed again, and a new one if there is none.
pub open spec fn round_changes_follow<V: ValidatorManager, BS: BlockService>(
    ibft: IBFT<V, BS>,
    view: ConsensusView,
    messages: Seq<RoundChangeMessageSigned>,
    phase: Phase,
    action: RoundAction,
) -> bool {
    exists|certificate: RoundChangeCertificate, built: Result<RawBlock, String>|
        {
            &&& #[trigger] certificate.round_change_messages@ == certificate_messages(messages)
            &&& match certificate_block(messages) {
                Some(raw_block) => built == Ok::<RawBlock, String>(raw_block),
                None => ibft.block_service.builds(view.height, built),
            }
            &&& #[trigger] proposal_follows(
                ibft.signer,
                view,
                built,
                Some(certificate),
                phase,
                action,
            )
        }
}

/// Whether a phase and an action follow the report of a number of prepare messages: a
/// quorum together with the proposer moves the round on to the commit message.
pub open spec fn prepare_count_follows(
    signer: Signer,
    round: Round,
    digest: [u8; 32],
    count: usize,
    phase: Phase,
    action: RoundAction,
) -> bool {
    if count < round.quorum - 1 {
        phase == (Phase::PrepareWait { digest, count }) && action == RoundAction::AwaitPrepare
    } else {
        &&& phase == (Phase::CommitSend { digest })
        &&& action matches RoundAction::SendCommit(commit) && {
            &&& commit.is_commit_of(round.view, digest, signer)
            &&& commit.signer() == Some(signer.spec_address().bytes@)
            &&& commit.commit_seal.signer_of_prehash(digest@) == Some(
                signer.spec_address().bytes@,
            )
        }
    }
}

/// Whether a phase and an action follow the report on the proposal of the view: an
/// accepted proposal is answered with a prepare message, a refused one ends the round.
pub open spec fn proposal_digest_follows(
    signer: Signer,
    view: ConsensusView,
    answer: Option<Result<[u8; 32], IBFTError>>,
    phase: Phase,
    action: RoundAction,
) -> bool {
    match answer {
        None => phase == Phase::ProposalWait && action == RoundAction::AwaitProposal,
        Some(Err(error)) => phase == Phase::Ended && action == RoundAction::Fail(error),
        Some(Ok(digest)) => {
            &&& phase == (Phase::PrepareSend { digest })
            &&& action matches RoundAction::SendPrepare(prepare) && {
                &&& prepare.is_prepare_of(view, digest, signer)
                &&& prepare.signer() == Some(signer.spec_address().bytes@)
            }
        },
    }
}

/// Whether `event` takes the round `before` to the round `after` and calls for `action`.
pub open spec fn round_advances<V: ValidatorManager, BS: BlockService>(
    ibft: IBFT<V, BS>,
    before: Round,
    event: RoundEvent,
    after: Round,
    action: RoundAction,
) -> bool {
    let view = before.view;
    let quorum = before.quorum;
    let phase = after.phase;
    &&& after.view == view
    &&& after.quorum == quorum
    &&& match (before.phase, event) {
        (Phase::RoundChangeQuery, RoundEvent::RoundChanges { messages, count }) => if count
            < quorum {
            phase == (Phase::RoundChangeWait { count }) && action == RoundAction::AwaitRoundChange
        } else {
            round_changes_follow(ibft, view, messages->0@, phase, action)
        },
        (Phase::RoundChangeWait { count }, RoundEvent::RoundChangeAnnounced(announced)) => if announced
            != view {
            phase == before.phase && action == RoundAction::AwaitRoundChange
        } else if count + 1 == quorum {
            phase == Phase::RoundChangeQuery && action == RoundAction::TakeRoundChanges
        } else {
            phase == (Phase::RoundChangeWait { count: (count + 1) as usize }) && action
                == RoundAction::AwaitRoundChange
        },
        (Phase::ProposalQuery { .. }, RoundEvent::ProposalDigest(answer)) =>
            proposal_digest_follows(ibft.signer, view, answer, phase, action),
        (Phase::ProposalWait, RoundEvent::ProposalAnnounced(announced)) => if announced != view {
            phase == Phase::ProposalWait && action == RoundAction::AwaitProposal
        } else {
            phase == (Phase::ProposalQuery { announced: true }) && action
                == RoundAction::QueryProposal
        },
        (Phase::ProposalSend { digest }, RoundEvent::Sent) => phase == (Phase::PrepareQuery {
            digest,
        }) && action == (RoundAction::OpenPrepares { digest }),
        (Phase::PrepareSend { digest }, RoundEvent::Sent) => phase == (Phase::PrepareQuery {
            digest,
        }) && action == (RoundAction::OpenPrepares { digest }),
        (Phase::PrepareQuery { digest }, RoundEvent::PrepareCount(count)) => prepare_count_follows(
            ibft.signer,
            before,
            digest,
            count,
            phase,
            action,
        ),
        (Phase::PrepareWait { digest, count }, RoundEvent::PrepareAnnounced(announced)) => if announced
            != view {
            phase == before.phase && action == RoundAction::AwaitPrepare
        } else if count + 1 == quorum - 1 {
            phase == (Phase::PrepareQuery { digest }) && action == (RoundAction::CountPrepares {
                digest,
            })
        } else {
            phase == (Phase::PrepareWait { digest, count: (count + 1) as usize }) && action
                == RoundAction::AwaitPrepare
        },
        (Phase::CommitSend { digest }, RoundEvent::Sent) => phase == (Phase::CommitQuery {
            digest,
        }) && action == (RoundAction::OpenCommits { digest }),
        (Phase::CommitQuery { digest }, RoundEvent::Commits { seals, count }) => if count < quorum {
            phase == (Phase::CommitWait { digest, count }) && action == RoundAction::AwaitCommit
        } else {
            phase == Phase::Ended && action == RoundAction::Finish(seals->0)
        },
        (Phase::CommitWait { digest, count }, RoundEvent::CommitAnnounced(announced)) => if announced
            != view {
            phase == before.phase && action == RoundAction::AwaitCommit
        } else if count + 1 == quorum {
            phase == (Phase::CommitQuery { digest }) && action == (RoundAction::TakeCommits {
                digest,
            })
        } else {
            phase == (Phase::CommitWait { digest, count: (count + 1) as usize }) && action
                == RoundAction::AwaitCommit
        },
        _ => false,
    }
}

impl<V: ValidatorManager, BS: BlockService> IBFT<V, BS> {
    /// Proposes a block that was built, or fails with the reason why none was.
    pub fn propose(
        &self,
        view: ConsensusView,
        built: Result<RawBlock, String>,
        certificate: Option<RoundChangeCertificate>,
    ) -> (next: (Phase, RoundAction))
        ensures
            proposal_follows(self.signer, view, built, certificate, next.0, next.1),
    {
        match built {
            Ok(raw_block) => {
                let proposal = ProposalMessage::new(view, raw_block, certificate).into_signed(
                    &self.signer,
                );
                let digest: [u8; 32] = proposal.message.proposed_block_digest;
                (Phase::ProposalSend { digest }, RoundAction::SendProposal(proposal))
            },
            Err(reason) => (Phase::Ended, RoundAction::Fail(IBFTError::BlockBuild(reason))),
        }
    }

    /// Opens the proposal state of round zero: the proposer builds and proposes a block,
    /// the others look for its proposal.
    pub fn run_proposal_0(&self, view: ConsensusView) -> (next: (Phase, RoundAction))
        ensures
            proposal_0_opens(*self, view, next.0, next.1),
    {
        if self.validator_manager.is_proposer(self.signer.address(), view) {
            let built = self.block_service.build_block(view.height);
            self.propose(view, built, None)
        } else {
            (Phase::ProposalQuery { announced: false }, RoundAction::OpenProposals)
        }
    }

    /// Opens the proposal state of a later round: the proposer collects round changes,
    /// the others look for its proposal.
    pub fn run_proposal_1(&self, view: ConsensusView) -> (next: (Phase, RoundAction))
        ensures
            proposal_1_opens(*self, view, next.0, next.1),
    {
        if self.validator_manager.is_proposer(self.signer.address(), view) {
            (Phase::RoundChangeQuery, RoundAction::OpenRoundChanges)
        } else {
            (Phase::ProposalQuery { announced: false }, RoundAction::OpenProposals)
        }
    }

    /// Opens round zero of a height.
    pub fn run_ibft_round_0(&self, view: ConsensusView) -> (next: (Round, RoundAction))
        requires
            view.round == 0,
            self.validator_manager.quorum_at(view.height) > 0,
        ensures
            next.0.wf(),
            round_opens(*self, view, next.0, next.1),
    {
        let quorum: usize = self.validator_manager.quorum(view.height);
        let (phase, action) = self.run_proposal_0(view);
        (Round { view, quorum, phase }, action)
    }

    /// Opens a later round of a height.
    pub fn run_ibft_round_1(&self, view: ConsensusView) -> (next: (Round, RoundAction))
        requires
            view.round != 0,
            self.validator_manager.quorum_at(view.height) > 0,
        ensures
            next.0.wf(),
            round_opens(*self, view, next.0, next.1),
    {
        let quorum: usize = self.validator_manager.quorum(view.height);
        let (phase, action) = self.run_proposal_1(view);
        (Round { view, quorum, phase }, action)
    }

    /// Proposes with a quorum of round changes.
    fn propose_certified(
        &self,
        view: ConsensusView,
        messages: Vec<RoundChangeMessageSigned>,
    ) -> (next: (Phase, RoundAction))
        ensures
            round_changes_follow(*self, view, messages@, next.0, next.1),
    {
        let (certificate, raw_block) = create_certificate(messages);
        let built = match raw_block {
            Some(raw_block) => Ok(raw_block),
            None => self.block_service.build_block(view.height),
        };
        let next = self.propose(view, built, Some(certificate));
        assert(certificate.round_change_messages@ == certificate_messages(messages@));
        next
    }

    /// Goes on in the collection of round changes.
    pub fn wait_rcc(&self, round: Round, event: RoundEvent) -> (next: (Phase, RoundAction))
        requires
            round.wf(),
            round.expects(event),
            round.phase is RoundChangeQuery || round.phase is RoundChangeWait,
        ensures
            round_advances(*self, round, event, (Round { phase: next.0, ..round }), next.1),
            (Round { phase: next.0, ..round }).wf(),
    {
        match (round.phase, event) {
            (Phase::RoundChangeQuery, RoundEvent::RoundChanges { messages, count }) => {
                if count < round.quorum {
                    (Phase::RoundChangeWait { count }, RoundAction::AwaitRoundChange)
                } else {
                    self.propose_certified(round.view, messages.unwrap())
                }
            },
            (Phase::RoundChangeWait { count }, RoundEvent::RoundChangeAnnounced(announced)) => {
                if announced != round.view {
                    (round.phase, RoundAction::AwaitRoundChange)
                } else if count + 1 == round.quorum {
                    (Phase::RoundChangeQuery, RoundAction::TakeRoundChanges)
                } else {
                    (Phase::RoundChangeWait { count: count + 1 }, RoundAction::AwaitRoundChange)
                }
            },
            // No other event is expected.
            _ => (Phase::Ended, RoundAction::AwaitRoundChange),
        }
    }

    /// Answers what was found out about the proposal of the view.
    pub fn answer_proposal(
        &self,
        view: ConsensusView,
        answer: Option<Result<[u8; 32], IBFTError>>,
    ) -> (next: (Phase, RoundAction))
        ensures
            proposal_digest_follows(self.signer, view, answer, next.0, next.1),
    {
        match answer {
            None => (Phase::ProposalWait, RoundAction::AwaitProposal),
            Some(Err(error)) => (Phase::Ended, RoundAction::Fail(error)),
            Some(Ok(digest)) => {
                let prepare = PrepareMessage::new(view, digest).into_signed(&self.signer);
                (Phase::PrepareSend { digest }, RoundAction::SendPrepare(prepare))
            },
        }
    }

    /// Goes on in the prepare state.
    pub fn run_prepare(&self, round: Round, event: RoundEvent) -> (next: (Phase, RoundAction))
        requires
            round.wf(),
            round.expects(event),
            round.phase is PrepareQuery || round.phase is PrepareWait,
        ensures
            round_advances(*self, round, event, (Round { phase: next.0, ..round }), next.1),
            (Round { phase: next.0, ..round }).wf(),
    {
        match (round.phase, event) {
            (Phase::PrepareQuery { digest }, RoundEvent::PrepareCount(count)) => {
                if count < round.quorum - 1 {
                    (Phase::PrepareWait { digest, count }, RoundAction::AwaitPrepare)
                } else {
                    let commit = CommitMessage::new(round.view, digest, &self.signer).into_signed(
                        &self.signer,
                    );
                    (Phase::CommitSend { digest }, RoundAction::SendCommit(commit))
                }
            },
            (Phase::PrepareWait { digest, count }, RoundEvent::PrepareAnnounced(announced)) => {
                if announced != round.view {
                    (round.phase, RoundAction::AwaitPrepare)
                } else if count + 1 == round.quorum - 1 {
                    (Phase::PrepareQuery { digest }, RoundAction::CountPrepares { digest })
                } else {
                    (Phase::PrepareWait { digest, count: count + 1 }, RoundAction::AwaitPrepare)
                }
            },
            // No other event is expected.
            _ => (Phase::Ended, RoundAction::AwaitPrepare),
        }
    }

    /// Goes on in the commit state.
    pub fn run_commit(&self, round: Round, event: RoundEvent) -> (next: (Phase, RoundAction))
        requires
            round.wf(),
            round.expects(event),
            round.phase is CommitQuery || round.phase is CommitWait,
        ensures
            round_advances(*self, round, event, (Round { phase: next.0, ..round }), next.1),
            (Round { phase: next.0, ..round }).wf(),
    {
        match (round.phase, event) {
            (Phase::CommitQuery { digest }, RoundEvent::Commits { seals, count }) => {
                if count < round.quorum {
                    (Phase::CommitWait { digest, count }, RoundAction::AwaitCommit)
                } else {
                    (Phase::Ended, RoundAction::Finish(seals.unwrap()))
                }
            },
            (Phase::CommitWait { digest, count }, RoundEvent::CommitAnnounced(announced)) => {
                if announced != round.view {
                    (round.phase, RoundAction::AwaitCommit)
                } else if count + 1 == round.quorum {
                    (Phase::CommitQuery { digest }, RoundAction::TakeCommits { digest })
                } else {
                    (Phase::CommitWait { digest, count: count + 1 }, RoundAction::AwaitCommit)
                }
            },
            // No other event is expected.
            _ => (Phase::Ended, RoundAction::AwaitCommit),
        }
    }

    /// Takes a round on by an event.
    pub fn advance_round(&self, round: Round, event: RoundEvent) -> (next: (Round, RoundAction))
        requires
            round.wf(),
            round.expects(event),
        ensures
            next.0.wf(),
            round_advances(*self, round, event, next.0, next.1),
    {
        let (phase, action) = match round.phase {
            Phase::RoundChangeQuery | Phase::RoundChangeWait { .. } => self.wait_rcc(round, event),
            Phase::PrepareQuery { .. } | Phase::PrepareWait { .. } => self.run_prepare(
                round,
                event,
            ),
            Phase::CommitQuery { .. } | Phase::CommitWait { .. } => self.run_commit(round, event),
            _ => match (round.phase, event) {
                (Phase::ProposalQuery { .. }, RoundEvent::ProposalDigest(answer)) => {
                    self.answer_proposal(round.view, answer)
                },
                (Phase::ProposalWait, RoundEvent::ProposalAnnounced(announced)) => {
                    if announced != round.view {
                        (Phase::ProposalWait, RoundAction::AwaitProposal)
                    } else {
                        (Phase::ProposalQuery { announced: true }, RoundAction::QueryProposal)
                    }
                },
                (Phase::ProposalSend { digest }, RoundEvent::Sent) => {
                    (Phase::PrepareQuery { digest }, RoundAction::OpenPrepares { digest })
                },
                (Phase::PrepareSend { digest }, RoundEvent::Sent) => {
                    (Phase::PrepareQuery { digest }, RoundAction::OpenPrepares { digest })
                },
                (Phase::CommitSend { digest }, RoundEvent::Sent) => {
                    (Phase::CommitQuery { digest }, RoundAction::OpenCommits { digest })
                },
                // No other event is expected.
                _ => (Phase::Ended, RoundAction::AwaitProposal),
            },
        };
        (Round { view: round.view, quorum: round.quorum, phase }, action)
    }
}

} // verus!
