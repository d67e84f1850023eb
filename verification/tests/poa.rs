use tonic_ibft::poa::backend::{BlockService, ValidatorManager};
use tonic_ibft::poa::ibft::{RoundTime, RunState, IBFT, MAX_ROUND, ROUND_ARRAY_SIZE};
use tonic_ibft::poa::round::{create_certificate, Phase, Round, RoundAction, RoundEvent};
use tonic_ibft::poa::run::{handle_round_finish, HeightRun, RoundOutcome, RunStep};
use tonic_ibft::poa::types::{
    digest_block, CommitMessage, ConsensusView, IBFTError, PrepareMessage, PrepareMessageSigned,
    PreparedProposed, ProposalMessage, ProposalMessageSigned, RawBlock, RoundChangeCertificate,
    RoundChangeMessage, RoundChangeMessageSigned,
};
use tonic_ibft::poa::verification::{
    commit_verify_fn, judge_proposal, prepare_verify_fn, ProposalCheck,
};
use tonic_ibft::poa::watch::WatchAction;
use tonic_ibft::primitives::address::Address;
use tonic_ibft::primitives::signer::Signer;

const HEIGHT: u64 = 7;

/// Four validators take turns as proposers; three of them are a quorum.
struct Validators {
    addresses: Vec<Address>,
}

impl ValidatorManager for Validators {
    fn quorum(&self, _height: u64) -> usize {
        3
    }

    fn is_validator(&self, address: Address, _height: u64) -> bool {
        self.addresses.contains(&address)
    }

    fn is_proposer(&self, address: Address, view: ConsensusView) -> bool {
        self.addresses[view.round as usize % 4] == address
    }
}

/// Builds the block `[9]` unless told to fail, and refuses the block `[13]`.
struct Blocks {
    fails: bool,
}

impl BlockService for Blocks {
    fn build_block(&self, _height: u64) -> Result<RawBlock, String> {
        if self.fails {
            Err("no transactions".to_string())
        } else {
            Ok(raw(&[9]))
        }
    }

    fn verify_block(&self, raw_block: &RawBlock) -> Result<(), String> {
        if raw_block.bytes == vec![13] {
            Err("unlucky".to_string())
        } else {
            Ok(())
        }
    }
}

fn signer(index: u8) -> Signer {
    Signer::new([index + 1; 32])
}

fn raw(bytes: &[u8]) -> RawBlock {
    RawBlock { bytes: bytes.to_vec() }
}

fn view(round: u8) -> ConsensusView {
    ConsensusView::new(HEIGHT, round)
}

fn validator_with(index: u8, fails: bool) -> IBFT<Validators, Blocks> {
    let addresses = (0..4).map(|i| signer(i).address()).collect();
    IBFT::new(
        Validators { addresses },
        Blocks { fails },
        signer(index),
        RoundTime { secs: 2, subsec_nanos: 500_000_000 },
    )
}

fn validator(index: u8) -> IBFT<Validators, Blocks> {
    validator_with(index, false)
}

fn proposal(index: u8, round: u8, block: &[u8]) -> ProposalMessageSigned {
    ProposalMessage::new(view(round), raw(block), None).into_signed(&signer(index))
}

fn prepare(index: u8, round: u8, digest: [u8; 32]) -> PrepareMessageSigned {
    PrepareMessage::new(view(round), digest).into_signed(&signer(index))
}

/// The block as prepared in a round: proposed by its proposer, prepared by two others.
fn prepared(round: u8, block: &[u8]) -> PreparedProposed {
    let proposal = proposal(round % 4, round, block);
    let digest = proposal.message.proposed_block_digest;
    let prepares = vec![
        prepare((round + 1) % 4, round, digest),
        prepare((round + 2) % 4, round, digest),
    ];
    PreparedProposed::new(proposal, prepares)
}

fn round_change(
    index: u8,
    round: u8,
    prepared: Option<PreparedProposed>,
) -> RoundChangeMessageSigned {
    RoundChangeMessage::new(view(round), prepared).into_signed(&signer(index))
}

/// The proposal that the proposer of a round makes of round changes.
fn certified(
    round: u8,
    changes: Vec<RoundChangeMessageSigned>,
    block: &[u8],
) -> ProposalMessageSigned {
    let (certificate, _) = create_certificate(changes);
    ProposalMessage::new(view(round), raw(block), Some(certificate)).into_signed(&signer(round % 4))
}

#[test]
fn block_digest_covers_block_and_round() {
    let digest = digest_block(&raw(&[1, 2, 3]), 0);
    assert_eq!(digest[..4], [0x16, 0x66, 0xd9, 0x84]);
    assert_eq!(digest[28..], [0xdf, 0x9e, 0xea, 0xdc]);
    let later = digest_block(&raw(&[1, 2, 3]), 2);
    assert_eq!(later[..4], [0x12, 0x75, 0x5c, 0x70]);
    let message = ProposalMessage::new(view(2), raw(&[1, 2, 3]), None);
    assert_eq!(message.proposed_block.digest(), later);
    assert_eq!(message.proposed_block_digest, later);
}

#[test]
fn messages_lead_to_their_signers() {
    let digest = [5; 32];
    let address = signer(1).address();
    assert_eq!(prepare(1, 3, digest).recover_signer(), Ok(address));
    let commit = CommitMessage::new(view(3), digest, &signer(1)).into_signed(&signer(1));
    assert_eq!(commit.recover_signer(), Ok(address));
    assert_eq!(commit.commit_seal.recover_prehash(digest), Ok(address));
    let change = round_change(1, 3, Some(prepared(2, &[1])));
    assert_eq!(change.recover_signer(), Ok(address));
    let (block, metadata) = change.into_metadata();
    assert_eq!(metadata.recover_signer(), Ok(address));
    assert_eq!(block.map(|block| block.raw_block), Some(raw(&[1])));
    let without = round_change(1, 3, None).into_metadata();
    assert!(without.0.is_none());
    assert_eq!(without.1.recover_signer(), Ok(address));
    let evidence = prepared(2, &[1]).prepared_certificate.proposal;
    assert_eq!(evidence.recover_signer(), Ok(signer(2).address()));
}

#[test]
fn altered_messages_lead_elsewhere() {
    let address = signer(1).address();
    let mut message = prepare(1, 3, [5; 32]);
    message.view = view(4);
    assert_ne!(message.recover_signer(), Ok(address));
    let mut change = round_change(1, 3, Some(prepared(2, &[1])));
    change.latest_prepared_proposed = None;
    assert_ne!(change.recover_signer(), Ok(address));
}

#[test]
fn round_change_is_signed_again() {
    let mut change = round_change(1, 3, Some(prepared(2, &[1])));
    change.update_and_resign(6, &signer(1));
    assert_eq!(change.view, view(6));
    assert!(change.latest_prepared_proposed.is_some());
    assert_eq!(change.recover_signer(), Ok(signer(1).address()));
}

#[test]
fn run_state_numbers() {
    for state in [RunState::Proposal, RunState::Prepare, RunState::Commit] {
        assert_eq!(RunState::from_u8(state.to_u8()), state);
    }
    assert_eq!(RunState::from_u8(0), RunState::Proposal);
    assert_eq!(RunState::from_u8(1), RunState::Prepare);
    assert_eq!(RunState::from_u8(2), RunState::Commit);
}

#[test]
fn round_timeout_doubles() {
    let ibft = validator(0);
    assert_eq!(ibft.get_round_timeout(0), RoundTime { secs: 2, subsec_nanos: 500_000_000 });
    assert_eq!(ibft.get_round_timeout(1), RoundTime { secs: 5, subsec_nanos: 0 });
    assert_eq!(ibft.get_round_timeout(3), RoundTime { secs: 20, subsec_nanos: 0 });
    assert_eq!(ibft.get_round_timeout(31), RoundTime { secs: 5_368_709_120, subsec_nanos: 0 });
}

#[test]
fn round_timeout_saturates() {
    let mut ibft = validator(0);
    ibft.base_round_time = RoundTime { secs: u64::MAX / 2 + 1, subsec_nanos: 1 };
    assert_eq!(
        ibft.get_round_timeout(1),
        RoundTime { secs: u64::MAX, subsec_nanos: 999_999_999 }
    );
    ibft.base_round_time = RoundTime { secs: u64::MAX / 2, subsec_nanos: 999_999_999 };
    assert_eq!(
        ibft.get_round_timeout(1),
        RoundTime { secs: u64::MAX, subsec_nanos: 999_999_998 }
    );
}

#[test]
fn prepared_certificate_is_accepted() {
    let certificate = prepared(1, &[1]).prepared_certificate;
    assert!(validator(0).verify_prepared_certificate(&certificate, HEIGHT, 2));
    assert!(validator(0).verify_prepared_certificate(&certificate, HEIGHT, 9));
}

#[test]
fn prepared_certificate_of_another_view_is_refused() {
    let certificate = prepared(1, &[1]).prepared_certificate;
    assert!(!validator(0).verify_prepared_certificate(&certificate, HEIGHT + 1, 2));
    assert!(!validator(0).verify_prepared_certificate(&certificate, HEIGHT, 1));
}

#[test]
fn prepared_certificate_needs_the_proposer() {
    let message = proposal(2, 1, &[1]);
    let digest = message.message.proposed_block_digest;
    let prepares = vec![prepare(0, 1, digest), prepare(3, 1, digest)];
    let certificate = PreparedProposed::new(message, prepares).prepared_certificate;
    assert!(!validator(0).verify_prepared_certificate(&certificate, HEIGHT, 2));
}

#[test]
fn prepared_certificate_needs_a_quorum() {
    let mut certificate = prepared(1, &[1]).prepared_certificate;
    certificate.prepare_messages.pop();
    assert!(!validator(0).verify_prepared_certificate(&certificate, HEIGHT, 2));
}

#[test]
fn prepared_certificate_needs_good_prepares() {
    let good = prepared(1, &[1]).prepared_certificate;
    let digest = good.proposal.proposed_block_digest;
    let bad = [
        // Another view.
        prepare(0, 2, digest),
        // Another digest.
        prepare(0, 1, [0; 32]),
        // The proposer itself.
        prepare(1, 1, digest),
        // Not a validator.
        prepare(9, 1, digest),
        // A signer that is there already.
        prepare(2, 1, digest),
    ];
    for message in bad {
        let mut certificate = good.clone();
        certificate.prepare_messages.push(message);
        assert!(!validator(0).verify_prepared_certificate(&certificate, HEIGHT, 2));
    }
    let mut certificate = good;
    certificate.prepare_messages.push(prepare(0, 1, digest));
    assert!(validator(0).verify_prepared_certificate(&certificate, HEIGHT, 2));
}

#[test]
fn round_changes_are_judged() {
    let ibft = validator(0);
    assert!(ibft.round_change_verify_fn(HEIGHT, &round_change(1, 3, None)));
    assert!(ibft.round_change_verify_fn(HEIGHT, &round_change(1, 3, Some(prepared(2, &[1])))));
    assert!(!ibft.round_change_verify_fn(HEIGHT, &round_change(1, 2, Some(prepared(2, &[1])))));
    let mut swapped = prepared(2, &[1]);
    swapped.proposed_block.raw_block = raw(&[2]);
    assert!(!ibft.round_change_verify_fn(HEIGHT, &round_change(1, 3, Some(swapped))));
}

#[test]
fn proposals_of_round_zero_are_judged() {
    let ibft = validator(1);
    let good = proposal(0, 0, &[1]);
    assert_eq!(ibft.proposal_0_verify_fn(&good), Ok(()));
    assert_eq!(ibft.proposal_verify_fn(view(0), &good), Ok(()));
    let mut wrong = proposal(0, 0, &[1]);
    wrong.message.proposed_block_digest = [0; 32];
    assert_eq!(ibft.proposal_0_verify_fn(&wrong), Err(IBFTError::IncorrectProposalDigest));
    assert_eq!(
        ibft.proposal_0_verify_fn(&proposal(0, 0, &[13])),
        Err(IBFTError::InvalidProposalBlock("unlucky".to_string()))
    );
}

#[test]
fn verdict_on_the_block_decides() {
    assert_eq!(judge_proposal(Ok(())), Ok(()));
    assert_eq!(
        judge_proposal(Err("bad".to_string())),
        Err(IBFTError::InvalidProposalBlock("bad".to_string()))
    );
}

#[test]
fn later_proposal_with_new_block() {
    let ibft = validator(3);
    let changes = vec![round_change(0, 2, None), round_change(1, 2, None), round_change(3, 2, None)];
    let good = certified(2, changes.clone(), &[1]);
    assert_eq!(ibft.check_proposal_1(&good, 3), ProposalCheck::BlockUnverified);
    assert_eq!(ibft.proposal_1_verify_fn(3, &good), Ok(()));
    assert_eq!(ibft.proposal_verify_fn(view(2), &good), Ok(()));
    assert_eq!(
        ibft.proposal_1_verify_fn(3, &certified(2, changes, &[13])),
        Err(IBFTError::InvalidProposalBlock("unlucky".to_string()))
    );
}

#[test]
fn later_proposal_with_wrong_digest() {
    let changes = vec![round_change(0, 2, None), round_change(1, 2, None), round_change(3, 2, None)];
    let mut wrong = certified(2, changes, &[1]);
    wrong.message.proposed_block.raw_block = raw(&[2]);
    assert_eq!(
        validator(3).proposal_1_verify_fn(3, &wrong),
        Err(IBFTError::IncorrectProposalDigest)
    );
}

#[test]
fn later_proposal_without_certificate() {
    assert_eq!(
        validator(3).proposal_1_verify_fn(3, &proposal(2, 2, &[1])),
        Err(IBFTError::MissingRoundChangeCertificate)
    );
}

#[test]
fn later_proposal_without_quorum() {
    let changes = vec![round_change(0, 2, None), round_change(1, 2, None)];
    assert_eq!(
        validator(3).proposal_1_verify_fn(3, &certified(2, changes, &[1])),
        Err(IBFTError::RoundChangeCertificateQuorumNotReached)
    );
}

#[test]
fn later_proposal_with_invalid_round_change() {
    let bad = [
        // Another view.
        round_change(3, 1, None),
        // Not a validator.
        round_change(9, 2, None),
    ];
    for message in bad {
        let changes = vec![round_change(0, 2, None), round_change(1, 2, None), message];
        assert_eq!(
            validator(3).proposal_1_verify_fn(3, &certified(2, changes, &[1])),
            Err(IBFTError::InvalidRoundChangeInCertificate)
        );
    }
}

#[test]
fn later_proposal_with_duplicate_round_change() {
    let changes = vec![round_change(0, 2, None), round_change(1, 2, None), round_change(0, 2, None)];
    assert_eq!(
        validator(3).proposal_1_verify_fn(3, &certified(2, changes, &[1])),
        Err(IBFTError::DuplicateRoundChangeInCertificate)
    );
}

#[test]
fn first_fault_is_reported() {
    let changes = vec![round_change(0, 2, None), round_change(0, 2, None), round_change(9, 2, None)];
    assert_eq!(
        validator(3).proposal_1_verify_fn(3, &certified(2, changes, &[1])),
        Err(IBFTError::DuplicateRoundChangeInCertificate)
    );
}

#[test]
fn prepared_block_must_be_proposed_again() {
    let changes = vec![
        round_change(0, 3, None),
        round_change(1, 3, Some(prepared(2, &[13]))),
        round_change(2, 3, None),
    ];
    // The block service is not asked about a block that was prepared.
    let good = certified(3, changes.clone(), &[13]);
    assert_eq!(validator(0).check_proposal_1(&good, 3), ProposalCheck::Accepted);
    assert_eq!(validator(0).proposal_1_verify_fn(3, &good), Ok(()));
    assert_eq!(
        validator(0).proposal_1_verify_fn(3, &certified(3, changes, &[1])),
        Err(IBFTError::InvalidRoundChangeInCertificate)
    );
}

#[test]
fn latest_prepared_block_counts() {
    let changes = vec![
        round_change(0, 3, Some(prepared(1, &[1]))),
        round_change(1, 3, Some(prepared(2, &[2]))),
        round_change(2, 3, None),
    ];
    // The block of round two is taken over, though another one comes first.
    let (certificate, block) = create_certificate(changes.clone());
    assert_eq!(block, Some(raw(&[2])));
    let order: Vec<Address> = certificate
        .round_change_messages
        .iter()
        .map(|message| message.recover_signer().unwrap())
        .collect();
    let expected: Vec<Address> = [0, 2, 1].iter().map(|i| signer(*i).address()).collect();
    assert_eq!(order, expected);
    assert_eq!(
        validator(0).check_proposal_1(&certified(3, changes.clone(), &[2]), 3),
        ProposalCheck::Accepted
    );
    assert_eq!(
        validator(0).proposal_1_verify_fn(3, &certified(3, changes, &[1])),
        Err(IBFTError::InvalidRoundChangeInCertificate)
    );
}

#[test]
fn block_prepared_in_round_zero_must_be_proposed_again() {
    let changes = vec![
        round_change(0, 1, Some(prepared(0, &[1]))),
        round_change(2, 1, None),
        round_change(3, 1, None),
    ];
    let (_, block) = create_certificate(changes.clone());
    assert_eq!(block, Some(raw(&[1])));
    assert_eq!(
        validator(0).check_proposal_1(&certified(1, changes.clone(), &[1]), 3),
        ProposalCheck::Accepted
    );
    assert_eq!(
        validator(0).proposal_1_verify_fn(3, &certified(1, changes, &[2])),
        Err(IBFTError::InvalidRoundChangeInCertificate)
    );
}

#[test]
fn unfounded_prepared_block_is_refused() {
    let mut unfounded = prepared(2, &[1]);
    unfounded.prepared_certificate.prepare_messages.pop();
    let changes = vec![
        round_change(0, 3, None),
        round_change(1, 3, Some(unfounded)),
        round_change(2, 3, None),
    ];
    assert_eq!(
        validator(0).proposal_1_verify_fn(3, &certified(3, changes, &[1])),
        Err(IBFTError::InvalidRoundChangeInCertificate)
    );
}

#[test]
fn certificate_puts_the_prepared_round_change_last() {
    let changes = vec![
        round_change(0, 3, None),
        round_change(1, 3, Some(prepared(2, &[1]))),
        round_change(2, 3, None),
        round_change(3, 3, None),
    ];
    let (certificate, block) = create_certificate(changes);
    assert_eq!(block, Some(raw(&[1])));
    let order: Vec<Address> = certificate
        .round_change_messages
        .iter()
        .map(|message| message.recover_signer().unwrap())
        .collect();
    let expected: Vec<Address> = [0, 3, 2, 1].iter().map(|i| signer(*i).address()).collect();
    assert_eq!(order, expected);
    let (certificate, block) = create_certificate(vec![]);
    assert!(certificate.round_change_messages.is_empty());
    assert!(block.is_none());
}

#[test]
fn votes_are_matched_by_digest() {
    let digest = [5; 32];
    assert!(prepare_verify_fn(&prepare(1, 0, digest), &digest));
    assert!(!prepare_verify_fn(&prepare(1, 0, digest), &[6; 32]));
    let commit = CommitMessage::new(view(0), digest, &signer(1)).into_signed(&signer(1));
    assert!(commit_verify_fn(&commit, &digest));
    assert!(!commit_verify_fn(&commit, &[6; 32]));
}

#[test]
fn proposer_runs_round_zero() {
    let ibft = validator(0);
    let (round, action) = ibft.open_round(view(0));
    let digest = digest_block(&raw(&[9]), 0);
    match action {
        RoundAction::SendProposal(proposal) => {
            assert_eq!(proposal.message.proposed_block.raw_block, raw(&[9]));
            assert!(proposal.message.round_change_certificate.is_none());
            assert_eq!(proposal.message.proposed_block_digest, digest);
            assert_eq!(validator(1).proposal_0_verify_fn(&proposal), Ok(()));
        }
        other => panic!("{:?}", other),
    }
    assert_eq!(round.run_state(), Some(RunState::Proposal));

    let (round, action) = ibft.advance_round(round, RoundEvent::Sent);
    assert!(matches!(action, RoundAction::OpenPrepares { digest: d } if d == digest));
    assert_eq!(round.run_state(), Some(RunState::Prepare));

    let (round, action) = ibft.advance_round(round, RoundEvent::PrepareCount(0));
    assert!(matches!(action, RoundAction::AwaitPrepare));
    let (round, action) = ibft.advance_round(round, RoundEvent::PrepareAnnounced(view(1)));
    assert!(matches!(action, RoundAction::AwaitPrepare));
    let (round, action) = ibft.advance_round(round, RoundEvent::PrepareAnnounced(view(0)));
    assert!(matches!(action, RoundAction::AwaitPrepare));
    let (round, action) = ibft.advance_round(round, RoundEvent::PrepareAnnounced(view(0)));
    assert!(matches!(action, RoundAction::CountPrepares { .. }));
    let (round, action) = ibft.advance_round(round, RoundEvent::PrepareCount(2));
    match action {
        RoundAction::SendCommit(commit) => {
            assert_eq!(commit.proposed_block_digest, digest);
            assert_eq!(commit.recover_signer(), Ok(signer(0).address()));
        }
        other => panic!("{:?}", other),
    }
    assert_eq!(round.run_state(), Some(RunState::Prepare));

    let (round, action) = ibft.advance_round(round, RoundEvent::Sent);
    assert!(matches!(action, RoundAction::OpenCommits { digest: d } if d == digest));
    assert_eq!(round.run_state(), Some(RunState::Commit));
    let (round, action) =
        ibft.advance_round(round, RoundEvent::Commits { seals: None, count: 2 });
    assert!(matches!(action, RoundAction::AwaitCommit));
    let (round, action) = ibft.advance_round(round, RoundEvent::CommitAnnounced(view(0)));
    assert!(matches!(action, RoundAction::TakeCommits { .. }));
    let seals = vec![signer(0).sign_prehash(digest); 3];
    let (round, action) =
        ibft.advance_round(round, RoundEvent::Commits { seals: Some(seals), count: 3 });
    match action {
        RoundAction::Finish(seals) => assert_eq!(seals.len(), 3),
        other => panic!("{:?}", other),
    }
    assert_eq!(round.run_state(), None);
}

#[test]
fn proposer_without_block_fails() {
    let (round, action) = validator_with(0, true).open_round(view(0));
    match action {
        RoundAction::Fail(error) => {
            assert_eq!(error, IBFTError::BlockBuild("no transactions".to_string()))
        }
        other => panic!("{:?}", other),
    }
    assert!(matches!(round.phase, Phase::Ended));
}

#[test]
fn validator_answers_the_proposal() {
    let ibft = validator(1);
    let (round, action) = ibft.open_round(view(0));
    assert!(matches!(action, RoundAction::OpenProposals));
    let (round, action) = ibft.advance_round(round, RoundEvent::ProposalDigest(None));
    assert!(matches!(action, RoundAction::AwaitProposal));
    let (round, action) = ibft.advance_round(round, RoundEvent::ProposalAnnounced(view(3)));
    assert!(matches!(action, RoundAction::AwaitProposal));
    let (round, action) = ibft.advance_round(round, RoundEvent::ProposalAnnounced(view(0)));
    assert!(matches!(action, RoundAction::QueryProposal));
    assert!(!round.is_expected(&RoundEvent::ProposalDigest(None)));
    let digest = [8; 32];
    let (round, action) =
        ibft.advance_round(round, RoundEvent::ProposalDigest(Some(Ok(digest))));
    match action {
        RoundAction::SendPrepare(message) => {
            assert_eq!(message.view, view(0));
            assert_eq!(message.proposed_block_digest, digest);
            assert_eq!(message.recover_signer(), Ok(signer(1).address()));
        }
        other => panic!("{:?}", other),
    }
    let (round, action) = ibft.advance_round(round, RoundEvent::Sent);
    assert!(matches!(action, RoundAction::OpenPrepares { digest: d } if d == digest));
    assert_eq!(round.run_state(), Some(RunState::Prepare));
}

#[test]
fn refused_proposal_ends_the_round() {
    let ibft = validator(1);
    let (round, _) = ibft.open_round(view(0));
    let event = RoundEvent::ProposalDigest(Some(Err(IBFTError::IncorrectProposalDigest)));
    assert!(round.is_expected(&event));
    let (round, action) = ibft.advance_round(round, event);
    assert!(matches!(action, RoundAction::Fail(IBFTError::IncorrectProposalDigest)));
    assert_eq!(round.run_state(), None);
}

#[test]
fn later_proposer_collects_round_changes() {
    let ibft = validator(3);
    let (round, action) = ibft.open_round(view(3));
    assert!(matches!(action, RoundAction::OpenRoundChanges));
    let none = RoundEvent::RoundChanges { messages: None, count: 1 };
    let (round, action) = ibft.advance_round(round, none);
    assert!(matches!(action, RoundAction::AwaitRoundChange));
    let (round, action) = ibft.advance_round(round, RoundEvent::RoundChangeAnnounced(view(2)));
    assert!(matches!(action, RoundAction::AwaitRoundChange));
    let (round, action) = ibft.advance_round(round, RoundEvent::RoundChangeAnnounced(view(3)));
    assert!(matches!(action, RoundAction::AwaitRoundChange));
    let (round, action) = ibft.advance_round(round, RoundEvent::RoundChangeAnnounced(view(3)));
    assert!(matches!(action, RoundAction::TakeRoundChanges));
    assert!(!round.is_expected(&RoundEvent::RoundChanges { messages: None, count: 3 }));
    let changes = vec![
        round_change(0, 3, None),
        round_change(1, 3, Some(prepared(2, &[4]))),
        round_change(3, 3, None),
    ];
    let event = RoundEvent::RoundChanges { messages: Some(changes), count: 3 };
    let (_, action) = ibft.advance_round(round, event);
    match action {
        RoundAction::SendProposal(proposal) => {
            assert_eq!(proposal.message.proposed_block.raw_block, raw(&[4]));
            assert_eq!(validator(0).proposal_1_verify_fn(3, &proposal), Ok(()));
        }
        other => panic!("{:?}", other),
    }
}

#[test]
fn later_proposer_builds_a_new_block() {
    let changes = vec![round_change(0, 3, None), round_change(1, 3, None), round_change(3, 3, None)];
    let event = RoundEvent::RoundChanges { messages: Some(changes), count: 3 };
    let (round, _) = validator(3).open_round(view(3));
    let (_, action) = validator(3).advance_round(round, event.clone());
    match action {
        RoundAction::SendProposal(proposal) => {
            assert_eq!(proposal.message.proposed_block.raw_block, raw(&[9]));
            assert_eq!(validator(0).proposal_1_verify_fn(3, &proposal), Ok(()));
        }
        other => panic!("{:?}", other),
    }
    let (_, action) = validator_with(3, true).advance_round(round, event);
    assert!(matches!(action, RoundAction::Fail(IBFTError::BlockBuild(_))));
}

#[test]
fn later_validator_looks_for_the_proposal() {
    let (round, action) = validator(0).open_round(view(3));
    assert!(matches!(action, RoundAction::OpenProposals));
    assert!(matches!(round.phase, Phase::ProposalQuery { announced: false }));
}

#[test]
fn recount_can_fall_short() {
    let ibft = validator(0);
    let waiting =
        Round { view: view(0), quorum: 3, phase: Phase::PrepareWait { digest: [1; 32], count: 1 } };
    let (round, action) = ibft.advance_round(waiting, RoundEvent::PrepareAnnounced(view(0)));
    assert!(matches!(action, RoundAction::CountPrepares { .. }));
    let (round, action) = ibft.advance_round(round, RoundEvent::PrepareCount(1));
    assert!(matches!(action, RoundAction::AwaitPrepare));
    assert!(matches!(round.phase, Phase::PrepareWait { count: 1, .. }));
}

#[test]
fn own_round_change_is_stored_by_the_proposer() {
    let change = Some(round_change(3, 3, None));
    assert!(validator(3).start_ibft_round(view(3), &change));
    assert!(!validator(2).start_ibft_round(view(3), &change));
    assert!(!validator(3).start_ibft_round(view(7), &change));
    assert!(!validator(3).start_ibft_round(view(3), &None));
    assert!(!validator(0).start_ibft_round(view(0), &Some(round_change(0, 0, None))));
}

fn nothing() -> RoundOutcome {
    RoundOutcome {
        cancelled: false,
        finished: None,
        future_proposal: None,
        future_rcc: None,
        timed_out: false,
    }
}

#[test]
fn run_follows_the_most_urgent_outcome() {
    let ibft = validator(0);
    let run = HeightRun::new(HEIGHT);
    let all = RoundOutcome {
        cancelled: true,
        finished: Some(vec![]),
        future_proposal: Some(4),
        future_rcc: Some(5),
        timed_out: true,
    };
    let (_, step) = ibft.run(run.clone(), all.clone());
    assert!(matches!(step, RunStep::Cancelled));
    let all = RoundOutcome { cancelled: false, ..all };
    let (_, step) = ibft.run(run.clone(), all.clone());
    assert!(matches!(step, RunStep::Finished(_)));
    let all = RoundOutcome { finished: None, ..all };
    let (next, step) = ibft.run(run.clone(), all.clone());
    assert!(matches!(step, RunStep::NextRound));
    assert_eq!(next.view(), view(4));
    let all = RoundOutcome { future_proposal: None, ..all };
    let (next, step) = ibft.run(run.clone(), all.clone());
    assert!(matches!(step, RunStep::NextRound));
    assert_eq!(next.view(), view(5));
    let all = RoundOutcome { future_rcc: None, ..all };
    let (next, step) = ibft.run(run.clone(), all);
    assert!(matches!(step, RunStep::TimedOut));
    assert_eq!(next.view(), view(0));
    let (_, step) = ibft.run(run, nothing());
    assert!(matches!(step, RunStep::Running));
}

#[test]
fn run_ends_after_the_last_round() {
    let mut run = HeightRun::new(HEIGHT);
    assert!(!run.is_dead());
    run.round = MAX_ROUND;
    assert!(!run.is_dead());
    run.round = MAX_ROUND + 1;
    assert!(run.is_dead());
}

#[test]
fn timeout_in_commit_tells_the_prepared_block() {
    let ibft = validator(1);
    let mut run = HeightRun::new(HEIGHT);
    run.round = 2;
    let message = proposal(2, 2, &[1]);
    let digest = message.message.proposed_block_digest;
    let prepares = vec![prepare(1, 2, digest), prepare(3, 2, digest)];
    let next = ibft.handle_timeout(run, RunState::Commit, Some((message, prepares)));
    assert_eq!(next.view(), view(3));
    let change = next.latest_self_round_change.unwrap();
    assert_eq!(change.view, view(3));
    assert_eq!(change.recover_signer(), Ok(signer(1).address()));
    assert!(validator(0).round_change_verify_fn(HEIGHT, &change));
    let block = change.latest_prepared_proposed.unwrap().proposed_block;
    assert_eq!(block.raw_block, raw(&[1]));
    assert_eq!(block.round, 2);
}

#[test]
fn timeout_before_commit_repeats_the_last_round_change() {
    let ibft = validator(1);
    let next = ibft.handle_timeout(HeightRun::new(HEIGHT), RunState::Proposal, None);
    let change = next.latest_self_round_change.as_ref().unwrap();
    assert_eq!(change.view, view(1));
    assert!(change.latest_prepared_proposed.is_none());

    let mut run = HeightRun::new(HEIGHT);
    run.round = 3;
    run.latest_self_round_change = Some(round_change(1, 3, Some(prepared(2, &[1]))));
    let next = ibft.handle_timeout(run, RunState::Prepare, None);
    let change = next.latest_self_round_change.as_ref().unwrap();
    assert_eq!(next.view(), view(4));
    assert_eq!(change.view, view(4));
    assert!(change.latest_prepared_proposed.is_some());
    assert_eq!(change.recover_signer(), Ok(signer(1).address()));
    assert!(validator(0).round_change_verify_fn(HEIGHT, change));
}

#[test]
fn final_block_has_the_block_and_the_seals() {
    let message = proposal(0, 0, &[1]);
    let digest = message.message.proposed_block_digest;
    let seals = vec![signer(2).sign_prehash(digest)];
    let block = handle_round_finish(message, seals);
    assert_eq!(block.proposed_block.raw_block, raw(&[1]));
    assert_eq!(block.commit_seals.len(), 1);
    assert_eq!(block.commit_seals[0].recover_prehash(digest), Ok(signer(2).address()));
}

#[test]
fn future_round_changes_are_found_from_the_last_round_down() {
    let ibft = validator(0);
    let mut counts = vec![0; ROUND_ARRAY_SIZE];
    counts[0] = 9;
    counts[1] = 9;
    counts[2] = 3;
    counts[4] = 2;
    counts[5] = 4;
    let (watch, action) = ibft.wait_future_rcc(view(1), counts);
    assert_eq!(action, WatchAction::Query(view(5)));
    let (found, action) = watch.clone().counted(3);
    assert_eq!(action, WatchAction::Found(5));
    assert_eq!(found.counts[5], 3);
    let (watch, action) = watch.counted(2);
    assert_eq!(action, WatchAction::Query(view(2)));
    let (watch, action) = watch.counted(0);
    assert_eq!(action, WatchAction::Await);
    assert_eq!(watch.counts[2], 0);
    assert_eq!(watch.counts[5], 2);
}

#[test]
fn future_round_changes_are_counted_as_they_come() {
    let ibft = validator(0);
    let (watch, action) = ibft.wait_future_rcc(view(1), vec![0; ROUND_ARRAY_SIZE]);
    assert_eq!(action, WatchAction::Await);
    let other = ConsensusView::new(HEIGHT + 1, 3);
    let mut watch = watch;
    for announced in [view(3), view(1), other, view(3)] {
        let (next, action) = watch.announced(announced);
        assert_eq!(action, WatchAction::Await);
        watch = next;
    }
    assert_eq!(watch.counts[3], 2);
    let (watch, action) = watch.announced(view(3));
    assert_eq!(action, WatchAction::Query(view(3)));
    let (watch, action) = watch.counted(2);
    assert_eq!(action, WatchAction::Await);
    let (watch, action) = watch.announced(view(3));
    assert_eq!(action, WatchAction::Query(view(3)));
    let (_, action) = watch.counted(3);
    assert_eq!(action, WatchAction::Found(3));
}

#[test]
fn future_proposals_are_found_from_the_last_round_down() {
    let ibft = validator(0);
    let mut has_proposal = vec![false; ROUND_ARRAY_SIZE];
    has_proposal[1] = true;
    has_proposal[3] = true;
    has_proposal[31] = true;
    let (watch, action) = ibft.wait_future_proposal(view(1), has_proposal);
    assert_eq!(action, WatchAction::Query(view(31)));
    let (watch, action) = watch.judged(false);
    assert_eq!(action, WatchAction::Query(view(3)));
    assert_eq!(watch.clone().judged(true).1, WatchAction::Found(3));
    let (watch, action) = watch.judged(false);
    assert_eq!(action, WatchAction::Await);
    let (watch, action) = watch.announced(view(1));
    assert_eq!(action, WatchAction::Await);
    let (watch, action) = watch.announced(ConsensusView::new(HEIGHT + 1, 4));
    assert_eq!(action, WatchAction::Await);
    let (watch, action) = watch.announced(view(4));
    assert_eq!(action, WatchAction::Query(view(4)));
    let (watch, action) = watch.judged(false);
    assert_eq!(action, WatchAction::Await);
    let (watch, _) = watch.announced(view(6));
    assert_eq!(watch.judged(true).1, WatchAction::Found(6));
}

#[test]
fn empty_certificate_has_no_quorum() {
    let certificate = RoundChangeCertificate { round_change_messages: vec![] };
    let message =
        ProposalMessage::new(view(1), raw(&[1]), Some(certificate)).into_signed(&signer(1));
    assert_eq!(
        validator(0).proposal_1_verify_fn(3, &message),
        Err(IBFTError::RoundChangeCertificateQuorumNotReached)
    );
}

/// Everything that a validator is called on to do in a round in which nothing fails.
fn course(index: u8, round: u8) -> Vec<RoundAction> {
    let ibft = validator(index);
    let view = view(round);
    let (mut round_now, mut action) = ibft.open_round(view);
    let mut actions = vec![action.clone()];
    loop {
        let event = match action {
            RoundAction::OpenRoundChanges => RoundEvent::RoundChanges { messages: None, count: 2 },
            RoundAction::TakeRoundChanges => {
                let changes = (0..3).map(|i| round_change(i, round, None)).collect();
                RoundEvent::RoundChanges { messages: Some(changes), count: 3 }
            }
            RoundAction::AwaitRoundChange => RoundEvent::RoundChangeAnnounced(view),
            RoundAction::OpenProposals => RoundEvent::ProposalDigest(None),
            RoundAction::QueryProposal => RoundEvent::ProposalDigest(Some(Ok([5; 32]))),
            RoundAction::AwaitProposal => RoundEvent::ProposalAnnounced(view),
            RoundAction::SendProposal(_)
            | RoundAction::SendPrepare(_)
            | RoundAction::SendCommit(_) => RoundEvent::Sent,
            RoundAction::OpenPrepares { .. } => RoundEvent::PrepareCount(1),
            RoundAction::CountPrepares { .. } => RoundEvent::PrepareCount(2),
            RoundAction::AwaitPrepare => RoundEvent::PrepareAnnounced(view),
            RoundAction::OpenCommits { .. } => RoundEvent::Commits { seals: None, count: 1 },
            RoundAction::TakeCommits { .. } => RoundEvent::Commits { seals: Some(vec![]), count: 3 },
            RoundAction::AwaitCommit => RoundEvent::CommitAnnounced(view),
            RoundAction::Finish(_) | RoundAction::Fail(_) => return actions,
        };
        assert!(round_now.is_expected(&event));
        (round_now, action) = ibft.advance_round(round_now, event);
        actions.push(action.clone());
    }
}

#[test]
fn one_vote_of_each_kind_in_a_round() {
    for round in [0, 2] {
        for index in 0..4 {
            let actions = course(index, round);
            assert!(matches!(actions.last(), Some(RoundAction::Finish(_))));
            let proposals = actions.iter().filter(|a| matches!(a, RoundAction::SendProposal(_)));
            let prepares = actions.iter().filter(|a| matches!(a, RoundAction::SendPrepare(_)));
            let commits = actions.iter().filter(|a| matches!(a, RoundAction::SendCommit(_)));
            let proposer = index == round;
            assert_eq!(proposals.count(), if proposer { 1 } else { 0 });
            assert_eq!(prepares.count(), if proposer { 0 } else { 1 });
            assert_eq!(commits.count(), 1);
        }
    }
}

#[test]
fn own_round_change_counts_after_a_timeout() {
    for index in 0..4 {
        let ibft = validator(index);
        let next = ibft.handle_timeout(HeightRun::new(HEIGHT), RunState::Prepare, None);
        assert_eq!(next.view(), view(1));
        let stored = ibft.start_ibft_round(next.view(), &next.latest_self_round_change);
        assert_eq!(stored, index == 1);
    }
}

#[test]
fn block_prepared_twice_is_taken_over_from_the_later_round() {
    let changes = vec![
        round_change(0, 3, Some(prepared(1, &[1]))),
        round_change(1, 3, Some(prepared(2, &[1]))),
        round_change(2, 3, None),
    ];
    let (certificate, block) = create_certificate(changes);
    assert_eq!(
        certificate.round_change_messages[2].recover_signer(),
        Ok(signer(1).address())
    );
    assert_eq!(block, Some(raw(&[1])));
    let proposal = ProposalMessage::new(view(3), block.unwrap(), Some(certificate));
    let proposal = proposal.into_signed(&signer(3));
    assert_eq!(validator(0).check_proposal_1(&proposal, 3), ProposalCheck::Accepted);
}

#[test]
fn proposals_are_judged_by_their_round() {
    let ibft = validator(0);
    assert_eq!(ibft.proposal_verify_fn(view(0), &proposal(0, 0, &[1])), Ok(()));
    assert_eq!(
        ibft.proposal_verify_fn(view(1), &proposal(1, 1, &[1])),
        Err(IBFTError::MissingRoundChangeCertificate)
    );
}

#[test]
fn first_of_equal_rounds_is_taken_over() {
    let changes = vec![
        round_change(0, 3, None),
        round_change(1, 3, Some(prepared(2, &[1]))),
        round_change(2, 3, Some(prepared(2, &[2]))),
    ];
    let (_, block) = create_certificate(changes);
    assert_eq!(block, Some(raw(&[1])));
}

#[test]
fn rounds_of_a_height_grow() {
    let ibft = validator(0);
    let mut run = HeightRun::new(HEIGHT);
    let mut rounds = vec![];
    while !run.is_dead() {
        rounds.push(run.view().round);
        // The second round is left for a later one, all others time out.
        let outcome = if rounds.len() == 2 {
            let mut counts = vec![0; ROUND_ARRAY_SIZE];
            counts[5] = 3;
            let (watch, action) = ibft.wait_future_rcc(run.view(), counts);
            assert_eq!(action, WatchAction::Query(view(5)));
            let (_, action) = watch.counted(3);
            assert_eq!(action, WatchAction::Found(5));
            RoundOutcome { future_rcc: Some(5), ..nothing() }
        } else {
            RoundOutcome { timed_out: true, ..nothing() }
        };
        let (next, step) = ibft.run(run, outcome);
        run = match step {
            RunStep::TimedOut => ibft.handle_timeout(next, RunState::Proposal, None),
            RunStep::NextRound => next,
            other => panic!("{:?}", other),
        };
        assert_eq!(run.height, HEIGHT);
    }
    let mut expected = vec![0, 1];
    expected.extend(5..=MAX_ROUND);
    assert_eq!(rounds, expected);
}
