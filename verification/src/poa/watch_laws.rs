//! What the watches for later rounds look at and find.

use crate::poa::backend::{BlockService, ValidatorManager};
use crate::poa::ibft::{IBFT, ROUND_ARRAY_SIZE};
use crate::poa::types::ConsensusView;
use crate::poa::watch::{FutureProposal, FutureRcc, WatchAction};
use vstd::prelude::*;

verus! {

/// Whether the watch for round changes looks at the last of the rounds after its own and
/// below `below` to which a quorum of round changes is known; it waits if there is none.
pub open spec fn looks_at_last_quorum(
    view: ConsensusView,
    quorum: usize,
    counts: Seq<usize>,
    below: int,
    after: FutureRcc,
    action: WatchAction,
) -> bool {
    &&& after.view == view
    &&& after.quorum == quorum
    &&& after.counts@ == counts
    &&& match action {
        WatchAction::Query(looked_at) => {
            let round = looked_at.round;
            &&& looked_at.height == view.height
            &&& view.round < round < below
            &&& counts[round as int] >= quorum
            &&& forall|r: int| round < r < below ==> (#[trigger] counts[r]) < quorum
            &&& after.pending == Some(round)
            &&& after.scanning
        },
        WatchAction::Await => {
            &&& forall|r: int| view.round < r < below ==> (#[trigger] counts[r]) < quorum
            &&& after.pending is None
            &&& !after.scanning
        },
        WatchAction::Found(_) => false,
    }
}

/// What a scan comes to.
proof fn lemma_scanned(watch: FutureRcc, below: int, after: FutureRcc, action: WatchAction)
    requires
        watch.scanned(below, after, action),
    ensures
        looks_at_last_quorum(watch.view, watch.quorum, watch.counts@, below, after, action),
{
    let marks = crate::poa::watch::has_quorum(watch.counts@, watch.quorum);
    assert(forall|r: int| #[trigger] marks(r) <==> watch.counts@[r] >= watch.quorum);
    assert forall|r: int| watch.view.round < r < below && (after.pending is Some
        ==> after.pending->0 < r) implies (#[trigger] watch.counts@[r]) < watch.quorum by {
        assert(!marks(r));
    }
}

/// The watch for round changes starts with the last round after its own to which a quorum
/// of round changes is known.
pub proof fn law_rcc_watch_starts<V: ValidatorManager, BS: BlockService>(
    ibft: IBFT<V, BS>,
    view: ConsensusView,
    counts: Vec<usize>,
    next: (FutureRcc, WatchAction),
)
    requires
        call_ensures(IBFT::<V, BS>::wait_future_rcc, (&ibft, view, counts), next),
    ensures
        looks_at_last_quorum(
            view,
            ibft.validator_manager.quorum_at(view.height),
            counts@,
            ROUND_ARRAY_SIZE as int,
            next.0,
            next.1,
        ),
{
    let fresh = FutureRcc {
        view,
        quorum: ibft.validator_manager.quorum_at(view.height),
        counts,
        scanning: false,
        pending: None,
    };
    lemma_scanned(fresh, ROUND_ARRAY_SIZE as int, next.0, next.1);
}

/// When the valid round changes to the pending round have been counted, a quorum ends the
/// watch with that round. Otherwise the watch goes on with the earlier rounds, if it has
/// not come through them, or waits.
pub proof fn law_counted_round_changes(
    watch: FutureRcc,
    count: usize,
    next: (FutureRcc, WatchAction),
)
    requires
        call_ensures(FutureRcc::counted, (watch, count), next),
        watch.wf(),
        watch.pending is Some,
    ensures
        ({
            let round = watch.pending->0;
            let counts = watch.counts@.update(round as int, count);
            &&& next.0.view == watch.view
            &&& next.0.quorum == watch.quorum
            &&& next.0.counts@ == counts
            &&& next.1 == WatchAction::Found(round) <==> count >= watch.quorum
            &&& next.1 is Found ==> next.1 == WatchAction::Found(round)
            &&& count < watch.quorum && watch.scanning ==> looks_at_last_quorum(
                watch.view,
                watch.quorum,
                counts,
                round as int,
                next.0,
                next.1,
            )
            &&& count < watch.quorum && !watch.scanning ==> next.1 == WatchAction::Await
                && next.0.pending is None && !next.0.scanning
        }),
{
    let noted = FutureRcc { counts: next.0.counts, ..watch };
    if count < watch.quorum && watch.scanning {
        lemma_scanned(noted, watch.pending->0 as int, next.0, next.1);
    }
}

/// A waiting watch counts the announcement of a round change to any later round of its
/// height, and as soon as there is a quorum it looks at exactly that view. It takes no
/// notice of any other announcement.
pub proof fn law_announced_round_change(
    watch: FutureRcc,
    announced: ConsensusView,
    next: (FutureRcc, WatchAction),
)
    requires
        call_ensures(FutureRcc::announced, (watch, announced), next),
        watch.wf(),
        watch.pending is None,
        announced.height == watch.view.height && watch.view.round < announced.round
            ==> announced.round < ROUND_ARRAY_SIZE,
    ensures
        ({
            let later = announced.height == watch.view.height && watch.view.round < announced.round;
            let round = announced.round as int;
            let count = watch.counts@[round] + 1;
            &&& !later ==> next.0 == watch && next.1 == WatchAction::Await
            &&& later ==> {
                &&& next.0.view == watch.view
                &&& next.0.quorum == watch.quorum
                &&& next.0.counts@.len() == watch.counts@.len()
                &&& next.0.counts@[round] == count
                &&& forall|r: int|
                    0 <= r < watch.counts@.len() && r != round ==> (#[trigger] next.0.counts@[r])
                        == watch.counts@[r]
                &&& next.0.scanning == watch.scanning
            }
            &&& later && count >= watch.quorum ==> next.1 == WatchAction::Query(announced)
                && next.0.pending == Some(announced.round)
            &&& later && count < watch.quorum ==> next.1 == WatchAction::Await
                && next.0.pending is None
        }),
{
    if watch.concerns(announced) {
        assert(watch.counts@[announced.round as int] < watch.quorum);
    }
}

/// Whether the watch for proposals looks at the last of the rounds after its own and below
/// `below` in which a proposal is known; it waits if there is none.
pub open spec fn looks_at_last_proposal(
    view: ConsensusView,
    has_proposal: Seq<bool>,
    below: int,
    after: FutureProposal,
    action: WatchAction,
) -> bool {
    &&& after.view == view
    &&& after.has_proposal@ == has_proposal
    &&& match action {
        WatchAction::Query(looked_at) => {
            let round = looked_at.round;
            &&& looked_at.height == view.height
            &&& view.round < round < below
            &&& has_proposal[round as int]
            &&& forall|r: int| round < r < below ==> !(#[trigger] has_proposal[r])
            &&& after.pending == Some(round)
            &&& after.scanning
        },
        WatchAction::Await => {
            &&& forall|r: int| view.round < r < below ==> !(#[trigger] has_proposal[r])
            &&& after.pending is None
            &&& !after.scanning
        },
        WatchAction::Found(_) => false,
    }
}

/// What a scan comes to.
proof fn lemma_proposals_scanned(
    watch: FutureProposal,
    below: int,
    after: FutureProposal,
    action: WatchAction,
)
    requires
        watch.scanned(below, after, action),
    ensures
        looks_at_last_proposal(watch.view, watch.has_proposal@, below, after, action),
{
    let marks = crate::poa::watch::proposal_known(watch.has_proposal@);
    assert(forall|r: int| #[trigger] marks(r) <==> watch.has_proposal@[r]);
    assert forall|r: int| watch.view.round < r < below && (after.pending is Some
        ==> after.pending->0 < r) implies !(#[trigger] watch.has_proposal@[r]) by {
        assert(!marks(r));
    }
}

/// The watch for proposals starts with the last round after its own in which a proposal is
/// known.
pub proof fn law_proposal_watch_starts<V: ValidatorManager, BS: BlockService>(
    ibft: IBFT<V, BS>,
    view: ConsensusView,
    has_proposal: Vec<bool>,
    next: (FutureProposal, WatchAction),
)
    requires
        call_ensures(IBFT::<V, BS>::wait_future_proposal, (&ibft, view, has_proposal), next),
    ensures
        looks_at_last_proposal(
            view,
            has_proposal@,
            ROUND_ARRAY_SIZE as int,
            next.0,
            next.1,
        ),
{
    let fresh = FutureProposal { view, has_proposal, scanning: false, pending: None };
    lemma_proposals_scanned(fresh, ROUND_ARRAY_SIZE as int, next.0, next.1);
}

/// A valid proposal ends the watch with its round. After any other the watch goes on with
/// the earlier rounds, if it has not come through them, or waits.
pub proof fn law_judged_proposal(
    watch: FutureProposal,
    valid: bool,
    next: (FutureProposal, WatchAction),
)
    requires
        call_ensures(FutureProposal::judged, (watch, valid), next),
        watch.wf(),
        watch.pending is Some,
    ensures
        ({
            let round = watch.pending->0;
            &&& next.1 == WatchAction::Found(round) <==> valid
            &&& next.1 is Found ==> next.1 == WatchAction::Found(round)
            &&& next.0.view == watch.view
            &&& next.0.has_proposal@ == watch.has_proposal@
            &&& !valid && watch.scanning ==> looks_at_last_proposal(
                watch.view,
                watch.has_proposal@,
                round as int,
                next.0,
                next.1,
            )
            &&& !valid && !watch.scanning ==> next.1 == WatchAction::Await
                && next.0.pending is None && !next.0.scanning
        }),
{
    if !valid && watch.scanning {
        lemma_proposals_scanned(watch, watch.pending->0 as int, next.0, next.1);
    }
}

/// A waiting watch looks at every proposal that is announced for a later round of its
/// height, that of the next round included, and takes no notice of any other.
pub proof fn law_announced_proposal(
    watch: FutureProposal,
    announced: ConsensusView,
    next: (FutureProposal, WatchAction),
)
    requires
        call_ensures(FutureProposal::announced, (watch, announced), next),
    ensures
        next.0.view == watch.view,
        next.0.has_proposal@ == watch.has_proposal@,
        next.0.scanning == watch.scanning,
        ({
            let later = announced.height == watch.view.height && watch.view.round < announced.round;
            &&& later ==> next.1 == WatchAction::Query(announced) && next.0.pending == Some(
                announced.round,
            )
            &&& !later ==> next.0 == watch && next.1 == WatchAction::Await
        }),
{
}

/// A valid proposal that is announced for a later round of the height is where the
/// validator goes.
pub proof fn law_announced_valid_proposal_is_found(
    watch: FutureProposal,
    announced: ConsensusView,
    looking: (FutureProposal, WatchAction),
    found: (FutureProposal, WatchAction),
)
    requires
        call_ensures(FutureProposal::announced, (watch, announced), looking),
        call_ensures(FutureProposal::judged, (looking.0, true), found),
        announced.height == watch.view.height,
        announced.round > watch.view.round,
    ensures
        looking.1 == WatchAction::Query(announced),
        found.1 == WatchAction::Found(announced.round),
{
}

/// A quorum of valid round changes to a later round of the height is where the validator
/// goes, once they have been announced.
pub proof fn law_announced_quorum_is_found(
    watch: FutureRcc,
    announced: ConsensusView,
    count: usize,
    looking: (FutureRcc, WatchAction),
    found: (FutureRcc, WatchAction),
)
    requires
        watch.wf(),
        watch.pending is None,
        call_ensures(FutureRcc::announced, (watch, announced), looking),
        call_ensures(FutureRcc::counted, (looking.0, count), found),
        announced.height == watch.view.height,
        watch.view.round < announced.round < ROUND_ARRAY_SIZE,
        watch.counts@[announced.round as int] + 1 >= watch.quorum,
        count >= watch.quorum,
    ensures
        looking.1 == WatchAction::Query(announced),
        found.1 == WatchAction::Found(announced.round),
{
    assert(watch.counts@[announced.round as int] < watch.quorum);
}

/// A watch can be started with an entry for every round, and what it calls for can be
/// answered: the round that it looks at, or any announcement of a round that exists while
/// it waits.
pub proof fn law_watches_can_be_answered<V: ValidatorManager, BS: BlockService>(
    ibft: IBFT<V, BS>,
    view: ConsensusView,
    counts: Vec<usize>,
    has_proposal: Vec<bool>,
    count: usize,
    valid: bool,
    announced: ConsensusView,
    rcc: (FutureRcc, WatchAction),
    proposal: (FutureProposal, WatchAction),
)
    requires
        counts@.len() == ROUND_ARRAY_SIZE,
        has_proposal@.len() == ROUND_ARRAY_SIZE,
        announced.round < ROUND_ARRAY_SIZE,
        call_ensures(IBFT::<V, BS>::wait_future_rcc, (&ibft, view, counts), rcc),
        call_ensures(
            IBFT::<V, BS>::wait_future_proposal,
            (&ibft, view, has_proposal),
            proposal,
        ),
    ensures
        call_requires(IBFT::<V, BS>::wait_future_rcc, (&ibft, view, counts)),
        call_requires(IBFT::<V, BS>::wait_future_proposal, (&ibft, view, has_proposal)),
        rcc.1 is Query ==> call_requires(FutureRcc::counted, (rcc.0, count)),
        rcc.1 is Await ==> call_requires(FutureRcc::announced, (rcc.0, announced)),
        proposal.1 is Query ==> call_requires(FutureProposal::judged, (proposal.0, valid)),
        proposal.1 is Await ==> call_requires(FutureProposal::announced, (proposal.0, announced)),
{
}

} // verus!
