use tonic_ibft::consensus::backend::{BlockBuilder, BlockVerifier, ValidatorManager};
use tonic_ibft::consensus::ibft::{
    collect_seals, finalize, get_round_timeout, verify_commit_fn, verify_prepare_fn, Round,
    RoundAction, RoundEvent, RoundOutcome, RunState, RunStep, SharedRunState, IBFT,
};
use tonic_ibft::consensus::types::{
    CommitMessageSigned, ConsensusView, IBFTError, PrepareMessageSigned, ProposalMessageSigned,
    RawBlock,
};
use tonic_ibft::primitives::address::Address;
use tonic_ibft::primitives::signer::Signer;

struct Validators {
    proposer: Address,
    quorum: usize,
}

impl ValidatorManager for Validators {
    fn quorum(&self, _height: u64) -> usize {
        self.quorum
    }

    fn is_proposer(&self, address: Address, _view: ConsensusView) -> bool {
        self.proposer == address
    }
}

struct Builder {
    fails: bool,
}

impl BlockBuilder for Builder {
    fn build_block(&self, _height: u64) -> Result<RawBlock, String> {
        if self.fails {
            Err("no transactions".to_string())
        } else {
            Ok(raw(&[9]))
        }
    }
}

struct Verifier;

impl BlockVerifier for Verifier {
    fn verify_block(&self, raw_block: &RawBlock) -> Result<(), String> {
        if raw_block.bytes == vec![13] {
            Err("unlucky".to_string())
        } else {
            Ok(())
        }
    }
}

fn signer(index: u8) -> Signer {
    Signer::new([index + 1; 32])
}

fn raw(bytes: &[u8]) -> RawBlock {
    RawBlock { bytes: bytes.to_vec() }
}

fn view() -> ConsensusView {
    ConsensusView { height: 7, round: 0 }
}

fn validator_with(
    index: u8,
    fails: bool,
    quorum: usize,
) -> IBFT<Validators, Verifier, Builder> {
    let proposer = signer(0).address();
    IBFT::new(Validators { proposer, quorum }, Verifier, Builder { fails }, signer(index))
}

fn validator(index: u8, fails: bool) -> IBFT<Validators, Verifier, Builder> {
    validator_with(index, fails, 3)
}

#[test]
fn fixed_round_timeouts() {
    let expected = [4, 8, 16, 32, 64, 128, 128, 128];
    for (round, secs) in expected.iter().enumerate() {
        assert_eq!(get_round_timeout(round as u32), *secs);
    }
    assert_eq!(get_round_timeout(u32::MAX), 128);
}

#[test]
fn proposal_is_accepted_after_the_proposal_state() {
    assert_eq!(RunState::default(), RunState::Proposal);
    let mut shared = SharedRunState::new(view());
    assert!(!shared.proposal_accepted());
    for state in [RunState::Prepare, RunState::Commit, RunState::Finalized] {
        shared.set_state(state);
        assert!(shared.proposal_accepted());
    }
    shared.set_state(RunState::Proposal);
    assert!(!shared.proposal_accepted());
    assert_eq!(shared.view, view());
}

#[test]
fn digest_covers_the_wide_round() {
    let proposal = ProposalMessageSigned::new(view(), raw(&[1, 2, 3]), &signer(0));
    assert_eq!(proposal.proposed_block_digest[..4], [0x33, 0x03, 0x9f, 0xca]);
    assert!(proposal.verify_digest());
    assert_eq!(proposal.recover_signer(), Ok(signer(0).address()));
}

#[test]
fn proposer_goes_through_the_round() {
    let ibft = validator(0, false);
    let (round, action) = ibft.run_ibft_round0(view());
    let digest = match action {
        RoundAction::SendProposal(proposal) => {
            assert_eq!(proposal.proposed_block.raw_block, raw(&[9]));
            proposal.proposed_block_digest
        }
        other => panic!("{:?}", other),
    };
    assert_eq!(round.run_state(), Some(RunState::Proposal));

    let (round, action) = ibft.advance_round(round, RoundEvent::Sent);
    assert!(matches!(action, RoundAction::EnterPrepare));
    assert_eq!(round.run_state(), Some(RunState::Prepare));
    let (round, action) = ibft.advance_round(round, RoundEvent::Entered);
    match action {
        RoundAction::SendPrepare(prepare) => {
            assert_eq!(prepare.proposed_block_digest, digest);
            assert_eq!(prepare.recover_signer(), Ok(signer(0).address()));
            assert!(verify_prepare_fn(&prepare, &digest));
            assert!(!verify_prepare_fn(&prepare, &[0; 32]));
        }
        other => panic!("{:?}", other),
    }
    assert_eq!(round.run_state(), Some(RunState::Prepare));

    let (round, action) = ibft.advance_round(round, RoundEvent::Sent);
    assert!(matches!(action, RoundAction::OpenPrepares { need: 2, .. }));
    let missing = RoundEvent::Prepares { messages: None, need_more: 2 };
    let (round, action) = ibft.advance_round(round, missing);
    assert!(matches!(action, RoundAction::AwaitPrepare));
    let other = ConsensusView { height: 8, round: 0 };
    let (round, action) = ibft.advance_round(round, RoundEvent::PrepareAnnounced(other));
    assert!(matches!(action, RoundAction::AwaitPrepare));
    let (round, action) = ibft.advance_round(round, RoundEvent::PrepareAnnounced(view()));
    assert!(matches!(action, RoundAction::AwaitPrepare));
    let (round, action) = ibft.advance_round(round, RoundEvent::PrepareAnnounced(view()));
    assert!(matches!(action, RoundAction::CollectPrepares { need: 2, .. }));
    assert!(!round.is_expected(&RoundEvent::Prepares { messages: None, need_more: 0 }));
    let prepares: Vec<PrepareMessageSigned> =
        (1..3).map(|i| PrepareMessageSigned::new(view(), digest, &signer(i))).collect();
    let all = RoundEvent::Prepares { messages: Some(prepares), need_more: 0 };
    let (round, action) = ibft.advance_round(round, all);
    match action {
        RoundAction::SendCommit(commit) => {
            assert_eq!(commit.recover_signer(), Ok(signer(0).address()));
            assert!(verify_commit_fn(&commit, &digest));
            assert!(!verify_commit_fn(&commit, &[0; 32]));
        }
        other => panic!("{:?}", other),
    }
    assert_eq!(round.run_state(), Some(RunState::Commit));

    let (round, action) = ibft.advance_round(round, RoundEvent::Sent);
    assert!(matches!(action, RoundAction::OpenCommits { need: 2, .. }));
    let missing = RoundEvent::Commits { messages: None, need_more: 1 };
    let (round, action) = ibft.advance_round(round, missing);
    assert!(matches!(action, RoundAction::AwaitCommit));
    let (round, action) = ibft.advance_round(round, RoundEvent::CommitAnnounced(view()));
    assert!(matches!(action, RoundAction::CollectCommits { need: 2, .. }));
    let commits: Vec<CommitMessageSigned> =
        (1..3).map(|i| CommitMessageSigned::new(view(), digest, &signer(i))).collect();
    let all = RoundEvent::Commits { messages: Some(commits), need_more: 0 };
    let (round, action) = ibft.advance_round(round, all);
    match action {
        RoundAction::Finish(seals) => {
            let signers: Vec<Address> =
                seals.iter().map(|seal| seal.recover_prehash(digest).unwrap()).collect();
            let expected: Vec<Address> = [1, 2, 0].iter().map(|i| signer(*i).address()).collect();
            assert_eq!(signers, expected);
        }
        other => panic!("{:?}", other),
    }
    assert_eq!(round.run_state(), Some(RunState::Finalized));
}

#[test]
fn missing_block_fails_the_round() {
    let (round, action) = validator(0, true).run_ibft_round0(view());
    match action {
        RoundAction::Fail(error) => {
            assert_eq!(error, IBFTError::BlockBuild("no transactions".to_string()))
        }
        other => panic!("{:?}", other),
    }
    assert_eq!(round.run_state(), None);
}

fn answer(proposal: ProposalMessageSigned, quorum: usize) -> (Round, RoundAction) {
    let ibft = validator_with(1, false, quorum);
    let (round, action) = ibft.run_ibft_round0(view());
    assert!(matches!(action, RoundAction::OpenProposals));
    let (round, action) = ibft.advance_round(round, RoundEvent::Proposal(None));
    assert!(matches!(action, RoundAction::AwaitProposal));
    let (round, action) = ibft.advance_round(round, RoundEvent::ProposalAnnounced(view()));
    assert!(matches!(action, RoundAction::TakeProposal));
    assert!(!round.is_expected(&RoundEvent::Proposal(None)));
    ibft.advance_round(round, RoundEvent::Proposal(Some(proposal)))
}

#[test]
fn good_proposal_is_answered() {
    let proposal = ProposalMessageSigned::new(view(), raw(&[1]), &signer(0));
    let digest = proposal.proposed_block_digest;
    let (round, action) = answer(proposal, 3);
    assert!(matches!(action, RoundAction::EnterPrepare));
    assert!(round.is_expected(&RoundEvent::Entered));
    match validator(1, false).advance_round(round, RoundEvent::Entered).1 {
        RoundAction::SendPrepare(prepare) => assert_eq!(prepare.proposed_block_digest, digest),
        other => panic!("{:?}", other),
    }
}

#[test]
fn quorum_is_asked_for_only_after_the_proposal() {
    let (round, action) = validator_with(0, true, 0).run_ibft_round0(view());
    assert!(matches!(action, RoundAction::Fail(IBFTError::BlockBuild(_))));
    assert_eq!(round.run_state(), None);
    let refused = ProposalMessageSigned::new(view(), raw(&[13]), &signer(0));
    let (_, action) = answer(refused, 0);
    assert!(matches!(action, RoundAction::Fail(IBFTError::InvalidBlock(_))));
    let good = ProposalMessageSigned::new(view(), raw(&[1]), &signer(0));
    let (round, action) = answer(good, 0);
    assert!(matches!(action, RoundAction::EnterPrepare));
    assert!(!round.is_expected(&RoundEvent::Entered));
}

#[test]
fn proposal_of_another_round_is_refused() {
    let mut proposal = ProposalMessageSigned::new(view(), raw(&[1]), &signer(0));
    proposal.proposed_block.round = 1;
    assert!(matches!(
        answer(proposal, 3).1,
        RoundAction::Fail(IBFTError::IncorrectProposedBlockRound)
    ));
}

#[test]
fn proposal_with_wrong_digest_is_refused() {
    let mut proposal = ProposalMessageSigned::new(view(), raw(&[1]), &signer(0));
    proposal.proposed_block_digest = [0; 32];
    assert!(matches!(answer(proposal, 3).1, RoundAction::Fail(IBFTError::IncorrectProposalDigest)));
}

#[test]
fn proposal_with_bad_block_is_refused() {
    let proposal = ProposalMessageSigned::new(view(), raw(&[13]), &signer(0));
    match answer(proposal, 3).1 {
        RoundAction::Fail(error) => {
            assert_eq!(error, IBFTError::InvalidBlock("unlucky".to_string()))
        }
        other => panic!("{:?}", other),
    }
}

#[test]
fn own_seal_comes_last() {
    let digest = [3; 32];
    let commits = vec![CommitMessageSigned::new(view(), digest, &signer(1))];
    let seals = collect_seals(commits, signer(2).sign_prehash(digest));
    assert_eq!(seals[0].recover_prehash(digest), Ok(signer(1).address()));
    assert_eq!(seals[1].recover_prehash(digest), Ok(signer(2).address()));
    assert_eq!(seals.len(), 2);
}

#[test]
fn final_block_keeps_the_proposed_block() {
    let proposal = ProposalMessageSigned::new(view(), raw(&[1]), &signer(0));
    let block = finalize(proposal, vec![]);
    assert_eq!(block.proposed_block.raw_block, raw(&[1]));
    assert!(block.commit_seals.is_empty());
}

#[test]
fn run_steps_by_urgency() {
    let ibft = validator(0, false);
    let outcome = RoundOutcome {
        cancelled: true,
        timed_out: true,
        future_proposal: true,
        rcc: true,
        finished: Some(vec![]),
    };
    let (next, step) = ibft.run(view(), outcome.clone());
    assert!(matches!(step, RunStep::Cancelled));
    assert_eq!(next, view());
    let outcome = RoundOutcome { cancelled: false, ..outcome };
    let (next, step) = ibft.run(view(), outcome.clone());
    assert!(matches!(step, RunStep::NextRound));
    assert_eq!(next, ConsensusView { height: 7, round: 1 });
    let outcome = RoundOutcome { timed_out: false, ..outcome };
    let (next, step) = ibft.run(view(), outcome.clone());
    assert!(matches!(step, RunStep::NextRound));
    assert_eq!(next, view());
    let outcome = RoundOutcome { future_proposal: false, rcc: false, ..outcome };
    let (_, step) = ibft.run(view(), outcome.clone());
    assert!(matches!(step, RunStep::Finished(_)));
    let outcome = RoundOutcome { finished: None, ..outcome };
    assert!(matches!(ibft.run(view(), outcome).1, RunStep::Running));
}

#[test]
fn one_message_of_each_kind_in_a_round() {
    for index in 0..3 {
        let ibft = validator(index, false);
        let (mut round, mut action) = ibft.run_ibft_round0(view());
        let mut sent = [0, 0, 0];
        loop {
            let event = match action {
                RoundAction::OpenProposals | RoundAction::TakeProposal => {
                    let proposal = ProposalMessageSigned::new(view(), raw(&[1]), &signer(0));
                    RoundEvent::Proposal(Some(proposal))
                }
                RoundAction::AwaitProposal => RoundEvent::ProposalAnnounced(view()),
                RoundAction::SendProposal(_) => {
                    sent[0] += 1;
                    RoundEvent::Sent
                }
                RoundAction::EnterPrepare => RoundEvent::Entered,
                RoundAction::SendPrepare(_) => {
                    sent[1] += 1;
                    RoundEvent::Sent
                }
                RoundAction::OpenPrepares { .. } => {
                    RoundEvent::Prepares { messages: None, need_more: 1 }
                }
                RoundAction::CollectPrepares { .. } => {
                    RoundEvent::Prepares { messages: Some(vec![]), need_more: 0 }
                }
                RoundAction::AwaitPrepare => RoundEvent::PrepareAnnounced(view()),
                RoundAction::SendCommit(_) => {
                    sent[2] += 1;
                    RoundEvent::Sent
                }
                RoundAction::OpenCommits { .. } => {
                    RoundEvent::Commits { messages: None, need_more: 1 }
                }
                RoundAction::CollectCommits { .. } => {
                    RoundEvent::Commits { messages: Some(vec![]), need_more: 0 }
                }
                RoundAction::AwaitCommit => RoundEvent::CommitAnnounced(view()),
                RoundAction::Finish(seals) => {
                    assert_eq!(seals.len(), 1);
                    break;
                }
                RoundAction::Fail(error) => panic!("{:?}", error),
            };
            assert!(round.is_expected(&event));
            (round, action) = ibft.advance_round(round, event);
        }
        assert_eq!(sent, [if index == 0 { 1 } else { 0 }, 1, 1]);
    }
}
