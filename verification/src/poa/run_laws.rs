//! What the run at a height does between its rounds.

use crate::poa::backend::{BlockService, ValidatorManager};
use crate::poa::ibft::{RoundTime, RunState, IBFT, MAX_ROUND, ROUND_ARRAY_SIZE};
use crate::poa::run::{HeightRun, RoundOutcome, RunStep};
use crate::poa::types::{
    ConsensusView, PrepareMessageSigned, ProposalMessageSigned, RoundChangeMessageSigned,
};
use crate::primitives::signer::Signer;
use vstd::prelude::*;

verus! {

/// A run starts in round zero without a round change, its view is its height and its
/// round, and it is dead exactly after the last of the rounds.
pub proof fn law_run_and_its_view(
    height: u64,
    fresh: HeightRun,
    run: HeightRun,
    view: ConsensusView,
    dead: bool,
)
    requires
        call_ensures(HeightRun::new, (height,), fresh),
        call_ensures(HeightRun::view, (&run,), view),
        call_ensures(HeightRun::is_dead, (&run,), dead),
    ensures
        fresh.height == height,
        fresh.round == 0,
        fresh.latest_self_round_change is None,
        view.height == run.height,
        view.round == run.round,
        dead <==> run.round > MAX_ROUND,
        dead <==> run.round >= ROUND_ARRAY_SIZE,
{
}

/// Of what has come about, a cancellation counts before everything else, then the end of
/// the round, then a proposal of a later round, then round changes to a later round, and
/// last the timeout. The round changes only to one that was found; height and round change
/// stay.
pub proof fn law_outcomes_in_order<V: ValidatorManager, BS: BlockService>(
    ibft: IBFT<V, BS>,
    run: HeightRun,
    outcome: RoundOutcome,
    next: (HeightRun, RunStep),
)
    requires
        call_ensures(IBFT::<V, BS>::run, (&ibft, run, outcome), next),
    ensures
        next.0.height == run.height,
        next.0.latest_self_round_change == run.latest_self_round_change,
        !(next.1 is NextRound) ==> next.0.round == run.round,
        next.1 is Cancelled <==> outcome.cancelled,
        next.1 is Finished <==> !outcome.cancelled && outcome.finished is Some,
        next.1 is Finished ==> next.1->Finished_0 == outcome.finished->0,
        next.1 is NextRound <==> !outcome.cancelled && outcome.finished is None && (
        outcome.future_proposal is Some || outcome.future_rcc is Some),
        next.1 is NextRound && outcome.future_proposal is Some ==> next.0.round
            == outcome.future_proposal->0,
        next.1 is NextRound && outcome.future_proposal is None ==> next.0.round
            == outcome.future_rcc->0,
        next.1 is TimedOut <==> outcome.timed_out && !outcome.cancelled && outcome.finished is None
            && outcome.future_proposal is None && outcome.future_rcc is None,
{
}

/// After a timeout comes the next round of the height, and a round change to it that the
/// validator signed.
pub proof fn law_timeout_leads_to_next_round<V: ValidatorManager, BS: BlockService>(
    ibft: IBFT<V, BS>,
    run: HeightRun,
    run_state: RunState,
    prepared: Option<(ProposalMessageSigned, Vec<PrepareMessageSigned>)>,
    next: HeightRun,
)
    requires
        call_ensures(IBFT::<V, BS>::handle_timeout, (&ibft, run, run_state, prepared), next),
    ensures
        next.height == run.height,
        next.round == run.round + 1,
        next.latest_self_round_change is Some,
        ({
            let round_change = next.latest_self_round_change->0;
            &&& round_change.view.height == run.height
            &&& round_change.view.round == run.round + 1
            &&& crate::poa::message_laws::comes_from(
                round_change.signature,
                ibft.signer,
                round_change.payload(),
            )
        }),
{
}

/// A round that times out in the commit state is told with its block: the round change
/// carries the proposed block, with the proposal and exactly the given prepare messages as
/// evidence, whatever round change was sent before.
pub proof fn law_prepared_block_is_told<V: ValidatorManager, BS: BlockService>(
    ibft: IBFT<V, BS>,
    run: HeightRun,
    run_state: RunState,
    proposal: ProposalMessageSigned,
    prepares: Vec<PrepareMessageSigned>,
    next: HeightRun,
)
    requires
        call_ensures(
            IBFT::<V, BS>::handle_timeout,
            (&ibft, run, run_state, Some((proposal, prepares))),
            next,
        ),
    ensures
        ({
            let round_change = next.latest_self_round_change->0;
            let told = round_change.latest_prepared_proposed->0;
            &&& round_change.latest_prepared_proposed is Some
            &&& told.proposed_block == proposal.message.proposed_block
            &&& told.prepared_certificate.proposal.view == proposal.message.view
            &&& told.prepared_certificate.proposal.proposed_block_digest
                == proposal.message.proposed_block_digest
            &&& told.prepared_certificate.proposal.signature == proposal.signature
            &&& told.prepared_certificate.prepare_messages@ == prepares@
        }),
{
}

/// A round that times out before the commit state tells what was told last, and nothing if
/// nothing was told.
pub proof fn law_last_told_block_is_told_again<V: ValidatorManager, BS: BlockService>(
    ibft: IBFT<V, BS>,
    run: HeightRun,
    run_state: RunState,
    next: HeightRun,
)
    requires
        call_ensures(
            IBFT::<V, BS>::handle_timeout,
            (&ibft, run, run_state, None::<(ProposalMessageSigned, Vec<PrepareMessageSigned>)>),
            next,
        ),
    ensures
        run.latest_self_round_change is Some
            ==> next.latest_self_round_change->0.latest_prepared_proposed
            == run.latest_self_round_change->0.latest_prepared_proposed,
        run.latest_self_round_change is None
            ==> next.latest_self_round_change->0.latest_prepared_proposed is None,
{
}

/// The own round change is stored before a round exactly if it is a later round, the round
/// change is to it, and the validator is its proposer.
pub proof fn law_own_round_change_is_stored<V: ValidatorManager, BS: BlockService>(
    ibft: IBFT<V, BS>,
    view: ConsensusView,
    latest: Option<RoundChangeMessageSigned>,
    store: bool,
)
    requires
        call_ensures(IBFT::<V, BS>::start_ibft_round, (&ibft, view, &latest), store),
    ensures
        store <==> view.round > 0 && latest is Some && latest->0.view.height == view.height
            && latest->0.view.round == view.round && ibft.validator_manager.proposes(
            ibft.signer.spec_address().bytes@,
            view,
        ),
{
}

/// The nanoseconds of a span.
pub open spec fn nanoseconds(time: RoundTime) -> int {
    time.secs * 1_000_000_000 + time.subsec_nanos
}

/// The most nanoseconds that a span can have.
pub open spec fn most_nanoseconds() -> int {
    0xFFFF_FFFF_FFFF_FFFFint * 1_000_000_000 + 999_999_999
}

/// A span taken several times has as many times the nanoseconds, up to the longest span.
pub proof fn law_span_taken_several_times(time: RoundTime, factor: u32, product: RoundTime)
    requires
        call_ensures(RoundTime::saturating_mul, (time, factor), product),
    ensures
        product.subsec_nanos < 1_000_000_000,
        nanoseconds(product) == if nanoseconds(time) * factor <= most_nanoseconds() {
            nanoseconds(time) * factor
        } else {
            most_nanoseconds()
        },
{
}

/// Round zero is given the base time, and every later round twice the time of the round
/// before, up to the longest span.
pub proof fn law_next_round_is_given_twice_the_time<V: ValidatorManager, BS: BlockService>(
    ibft: IBFT<V, BS>,
    round: u8,
    next_round: u8,
    first: RoundTime,
    timeout: RoundTime,
    next_timeout: RoundTime,
)
    requires
        ibft.base_round_time.wf(),
        next_round == round + 1,
        call_ensures(IBFT::<V, BS>::get_round_timeout, (&ibft, 0), first),
        call_ensures(IBFT::<V, BS>::get_round_timeout, (&ibft, round), timeout),
        call_ensures(IBFT::<V, BS>::get_round_timeout, (&ibft, next_round), next_timeout),
    ensures
        first == ibft.base_round_time,
        nanoseconds(next_timeout) == if 2 * nanoseconds(timeout) <= most_nanoseconds() {
            2 * nanoseconds(timeout)
        } else {
            most_nanoseconds()
        },
{
    crate::poa::laws::law_timeouts_double(ibft.base_round_time, round as nat);
    assert(ibft.base_round_time.total_nanos() <= RoundTime::longest().total_nanos());
    assert(first.secs == ibft.base_round_time.secs);
}

/// The states are numbered from zero in the order in which a round goes through them, and
/// the number of a state gives it back.
pub proof fn law_state_numbers(state: RunState, number: u8, again: RunState)
    requires
        call_ensures(RunState::to_u8, (state,), number),
        call_ensures(RunState::from_u8, (number,), again),
    ensures
        state == RunState::Proposal <==> number == 0,
        state == RunState::Prepare <==> number == 1,
        state == RunState::Commit <==> number == 2,
        again == state,
{
}

/// There is one more round than the number of the last one, since they start with zero.
pub proof fn law_rounds_are_counted_from_zero()
    ensures
        ROUND_ARRAY_SIZE == MAX_ROUND + 1,
{
}

/// A validator is made of what it is given.
pub proof fn law_new_validator<V: ValidatorManager, BS: BlockService>(
    validator_manager: V,
    block_service: BS,
    signer: Signer,
    base_round_time: RoundTime,
    ibft: IBFT<V, BS>,
)
    requires
        call_ensures(
            IBFT::<V, BS>::new,
            (validator_manager, block_service, signer, base_round_time),
            ibft,
        ),
    ensures
        ibft.validator_manager == validator_manager,
        ibft.block_service == block_service,
        ibft.signer == signer,
        ibft.base_round_time == base_round_time,
{
}

/// As long as a run is not dead, whatever comes about in its round can be dealt with, and
/// so can its timeout.
pub proof fn law_run_can_go_on<V: ValidatorManager, BS: BlockService>(
    ibft: IBFT<V, BS>,
    height: u64,
    fresh: HeightRun,
    run: HeightRun,
    outcome: RoundOutcome,
    next: (HeightRun, RunStep),
    run_state: RunState,
)
    requires
        call_ensures(HeightRun::new, (height,), fresh),
        call_ensures(IBFT::<V, BS>::run, (&ibft, run, outcome), next),
        next.0.round <= MAX_ROUND,
    ensures
        call_requires(IBFT::<V, BS>::run, (&ibft, fresh, outcome)),
        call_requires(IBFT::<V, BS>::run, (&ibft, next.0, outcome)),
        run_state != RunState::Commit ==> call_requires(
            IBFT::<V, BS>::handle_timeout,
            (&ibft, next.0, run_state, None::<(ProposalMessageSigned, Vec<PrepareMessageSigned>)>),
        ),
{
}

/// A round that times out in the commit state can be told with the prepare messages of a
/// quorum, the proposer's missing.
pub proof fn law_prepared_block_can_be_told<V: ValidatorManager, BS: BlockService>(
    ibft: IBFT<V, BS>,
    run: HeightRun,
    outcome: RoundOutcome,
    next: (HeightRun, RunStep),
    proposal: ProposalMessageSigned,
    prepares: Vec<PrepareMessageSigned>,
)
    requires
        call_ensures(IBFT::<V, BS>::run, (&ibft, run, outcome), next),
        next.0.round <= MAX_ROUND,
        prepares@.len() + 1 >= ibft.validator_manager.quorum_at(next.0.height),
    ensures
        call_requires(
            IBFT::<V, BS>::handle_timeout,
            (&ibft, next.0, RunState::Commit, Some((proposal, prepares))),
        ),
{
}

} // verus!
