//! The watch for a later round that others have already moved to.

use crate::poa::backend::{BlockService, ValidatorManager};
use crate::poa::ibft::{IBFT, ROUND_ARRAY_SIZE};
use crate::poa::types::ConsensusView;
use vstd::prelude::*;

verus! {

/// What is to be done for a watch.
#[derive(Debug, Clone, Copy, PartialEq, Eq)]
pub enum WatchAction {
    /// Look at the messages of a view.
    Query(ConsensusView),
    /// Wait for the announcement of a message.
    Await,
    /// The watch is over: move to a round.
    Found(u8),
}

/// Whether `last` is the last round below `below` and after `after` that is marked.
pub open spec fn is_last_marked(
    marks: spec_fn(int) -> bool,
    after: u8,
    below: int,
    last: Option<u8>,
) -> bool {
    match last {
        Some(round) => {
            &&& after < round < below
            &&& marks(round as int)
            &&& forall|r: int| round < r < below ==> !#[trigger] marks(r)
        },
        None => forall|r: int| after < r < below ==> !#[trigger] marks(r),
    }
}

/// The watch for a quorum of round changes to a round after that of `view`.
///
/// `counts` holds how many round changes to each round are known. The round in `pending`
/// is being looked at; while the watch is `scanning`, the earlier rounds are still to
/// come.
#[derive(Debug, Clone)]
pub struct FutureRcc {
    pub view: ConsensusView,
    pub quorum: usize,
    pub counts: Vec<usize>,
    pub scanning: bool,
    pub pending: Option<u8>,
}

/// Whether a round has enough round changes.
pub open spec fn has_quorum(counts: Seq<usize>, quorum: usize) -> spec_fn(int) -> bool {
    |round: int| counts[round] >= quorum
}

impl FutureRcc {
    /// Whether there is a count for every round, and too few round changes to every
    /// later round that has been dealt with.
    pub open spec fn wf(self) -> bool {
        &&& self.counts@.len() == ROUND_ARRAY_SIZE
        &&& self.pending matches Some(round) ==> self.view.round < round < ROUND_ARRAY_SIZE
        &&& self.scanning ==> self.pending is Some
        &&& forall|r: int|
            self.view.round < r < ROUND_ARRAY_SIZE && (self.scanning ==> self.pending->0 < r)
                && self.pending != Some(r as u8) ==> (#[trigger] self.counts@[r]) < self.quorum
    }

    /// Whether the watch and the action are what comes after the scan of the rounds
    /// below `below`: the last one with enough round changes is looked at, and without
    /// any the watch waits.
    pub open spec fn scanned(self, below: int, after: Self, action: WatchAction) -> bool {
        let marks = has_quorum(self.counts@, self.quorum);
        &&& after.view == self.view
        &&& after.quorum == self.quorum
        &&& after.counts@ == self.counts@
        &&& is_last_marked(marks, self.view.round, below, after.pending)
        &&& after.scanning == after.pending is Some
        &&& action == match after.pending {
            Some(round) => WatchAction::Query(
                ConsensusView { height: self.view.height, round },
            ),
            None => WatchAction::Await,
        }
    }

    /// Looks for the last round below `below` with enough round changes.
    fn scan(self, below: usize) -> (next: (Self, WatchAction))
        requires
            self.counts@.len() == ROUND_ARRAY_SIZE,
            below <= ROUND_ARRAY_SIZE,
            forall|r: int|
                self.view.round < r && below <= r < ROUND_ARRAY_SIZE ==> (
                #[trigger] self.counts@[r]) < self.quorum,
        ensures
            next.0.wf(),
            self.scanned(below as int, next.0, next.1),
    {
        let mut watch = self;
        let ghost marks = has_quorum(self.counts@, self.quorum);
        let mut index: usize = below;
        while index > 0
            invariant
                index <= below <= ROUND_ARRAY_SIZE,
                watch == self,
                watch.counts@.len() == ROUND_ARRAY_SIZE,
                marks == has_quorum(self.counts@, self.quorum),
                forall|r: int| self.view.round < r && index <= r < below ==> !#[trigger] marks(r),
                forall|r: int|
                    self.view.round < r && below <= r < ROUND_ARRAY_SIZE ==> (
                    #[trigger] self.counts@[r]) < self.quorum,
            ensures
                index <= self.view.round + 1,
            decreases index,
        {
            let round: u8 = (index - 1) as u8;
            if round <= watch.view.round {
                break ;
            }
            if watch.counts[index - 1] >= watch.quorum {
                watch.scanning = true;
                watch.pending = Some(round);
                assert(marks(round as int));
                proof {
                    assert forall|r: int|
                        self.view.round < r < ROUND_ARRAY_SIZE && round
                            < r implies (#[trigger] self.counts@[r]) < self.quorum by {
                        if r < below {
                            assert(!marks(r));
                        }
                    }
                }
                let action = WatchAction::Query(ConsensusView::new(watch.view.height, round));
                return (watch, action);
            }
            assert(!marks(index - 1));
            index -= 1;
        }
        watch.scanning = false;
        watch.pending = None;
        proof {
            assert forall|r: int| self.view.round < r < ROUND_ARRAY_SIZE implies (
            #[trigger] self.counts@[r]) < self.quorum by {
                if r < below {
                    assert(!marks(r));
                }
            }
        }
        (watch, WatchAction::Await)
    }

    /// Whether the watch and the action are what comes after the count of the valid round
    /// changes to the pending round: with a quorum the watch is over, otherwise it goes
    /// on.
    pub open spec fn count_follows(self, count: usize, after: Self, action: WatchAction) -> bool {
        let round = self.pending->0;
        let noted = FutureRcc { counts: after.counts, ..self };
        &&& after.wf()
        &&& after.counts@ == self.counts@.update(round as int, count)
        &&& round > self.view.round
        &&& if count >= self.quorum {
            action == WatchAction::Found(round) && after == noted
        } else if self.scanning {
            noted.scanned(round as int, after, action)
        } else {
            action == WatchAction::Await && after == (FutureRcc { pending: None, ..noted })
        }
    }

    /// Takes note of how many valid round changes to the pending round there are: with a
    /// quorum the watch is over, otherwise it goes on.
    pub fn counted(self, count: usize) -> (next: (Self, WatchAction))
        requires
            self.wf(),
            self.pending is Some,
        ensures
            next.0.wf(),
            self.count_follows(count, next.0, next.1),
    {
        let mut watch = self;
        let round: u8 = watch.pending.unwrap();
        let index: usize = round as usize;
        watch.counts[index] = count;
        if count >= watch.quorum {
            (watch, WatchAction::Found(round))
        } else if watch.scanning {
            watch.scan(index)
        } else {
            watch.pending = None;
            (watch, WatchAction::Await)
        }
    }

    /// Whether the announcement of a round change to a view concerns the watch.
    pub open spec fn concerns(self, announced: ConsensusView) -> bool {
        announced.height == self.view.height && announced.round > self.view.round
    }

    /// Whether the watch and the action are what comes after the announcement of a round
    /// change: one to a later round of the height is counted, and with enough of them the
    /// round is looked at.
    pub open spec fn announcement_follows(
        self,
        announced: ConsensusView,
        after: Self,
        action: WatchAction,
    ) -> bool {
        let round = announced.round as int;
        let noted = FutureRcc { counts: after.counts, ..self };
        &&& after.wf()
        &&& if !self.concerns(announced) {
            after == self && action == WatchAction::Await
        } else {
            &&& after.counts@ == self.counts@.update(round, (self.counts@[round] + 1) as usize)
            &&& if self.counts@[round] + 1 >= self.quorum {
                &&& after == (FutureRcc { pending: Some(announced.round), ..noted })
                &&& action == WatchAction::Query(announced)
            } else {
                after == noted && action == WatchAction::Await
            }
        }
    }

    /// Takes note of the announcement of a round change: one to a later round of the
    /// height is counted, and with enough of them the round is looked at.
    pub fn announced(self, announced: ConsensusView) -> (next: (Self, WatchAction))
        requires
            self.wf(),
            self.pending is None,
            self.concerns(announced) ==> announced.round < ROUND_ARRAY_SIZE,
        ensures
            next.0.wf(),
            self.announcement_follows(announced, next.0, next.1),
    {
        if announced.height != self.view.height || announced.round <= self.view.round {
            return (self, WatchAction::Await);
        }
        let mut watch = self;
        let index: usize = announced.round as usize;
        assert(watch.counts@[index as int] < watch.quorum);
        let count: usize = watch.counts[index] + 1;
        watch.counts[index] = count;
        if count >= watch.quorum {
            watch.pending = Some(announced.round);
            (watch, WatchAction::Query(announced))
        } else {
            (watch, WatchAction::Await)
        }
    }
}

/// The watch for a valid proposal in a round after that of `view`.
///
/// `has_proposal` tells in which rounds a proposal is known. The one of the round in
/// `pending` is being looked at; while the watch is `scanning`, the earlier rounds are
/// still to come.
#[derive(Debug, Clone)]
pub struct FutureProposal {
    pub view: ConsensusView,
    pub has_proposal: Vec<bool>,
    pub scanning: bool,
    pub pending: Option<u8>,
}

/// Whether a round has a proposal.
pub open spec fn proposal_known(has_proposal: Seq<bool>) -> spec_fn(int) -> bool {
    |round: int| has_proposal[round]
}

impl FutureProposal {
    /// Whether there is an entry for every round, and a later round is looked at.
    pub open spec fn wf(self) -> bool {
        &&& self.has_proposal@.len() == ROUND_ARRAY_SIZE
        &&& self.pending matches Some(round) ==> self.view.round < round
        &&& self.scanning ==> self.pending is Some && self.pending->0 < ROUND_ARRAY_SIZE
    }

    /// Whether the watch and the action are what comes after the scan of the rounds
    /// below `below`: the last one with a proposal is looked at, and without any the
    /// watch waits.
    pub open spec fn scanned(self, below: int, after: Self, action: WatchAction) -> bool {
        let marks = proposal_known(self.has_proposal@);
        &&& after.view == self.view
        &&& after.has_proposal@ == self.has_proposal@
        &&& is_last_marked(marks, self.view.round, below, after.pending)
        &&& after.scanning == after.pending is Some
        &&& action == match after.pending {
            Some(round) => WatchAction::Query(
                ConsensusView { height: self.view.height, round },
            ),
            None => WatchAction::Await,
        }
    }

    /// Looks for the last round below `below` with a proposal.
    fn scan(self, below: usize) -> (next: (Self, WatchAction))
        requires
            self.has_proposal@.len() == ROUND_ARRAY_SIZE,
            below <= ROUND_ARRAY_SIZE,
        ensures
            next.0.wf(),
            self.scanned(below as int, next.0, next.1),
    {
        let mut watch = self;
        let ghost marks = proposal_known(self.has_proposal@);
        let mut index: usize = below;
        while index > 0
            invariant
                index <= below <= ROUND_ARRAY_SIZE,
                watch == self,
                watch.has_proposal@.len() == ROUND_ARRAY_SIZE,
                marks == proposal_known(self.has_proposal@),
                forall|r: int| self.view.round < r && index <= r < below ==> !#[trigger] marks(r),
            ensures
                index <= self.view.round + 1,
            decreases index,
        {
            let round: u8 = (index - 1) as u8;
            if round <= watch.view.round {
                break ;
            }
            if watch.has_proposal[index - 1] {
                watch.scanning = true;
                watch.pending = Some(round);
                assert(marks(round as int));
                let action = WatchAction::Query(ConsensusView::new(watch.view.height, round));
                return (watch, action);
            }
            assert(!marks(index - 1));
            index -= 1;
        }
        watch.scanning = false;
        watch.pending = None;
        (watch, WatchAction::Await)
    }

    /// Whether the watch and the action are what comes after the verdict on the proposal of
    /// the pending round: if it is valid the watch is over, otherwise it goes on.
    pub open spec fn verdict_follows(self, valid: bool, after: Self, action: WatchAction) -> bool {
        let round = self.pending->0;
        &&& after.wf()
        &&& round > self.view.round
        &&& if valid {
            after == self && action == WatchAction::Found(round)
        } else if self.scanning {
            self.scanned(round as int, after, action)
        } else {
            after == (FutureProposal { pending: None, ..self }) && action == WatchAction::Await
        }
    }

    /// Takes note of whether the proposal of the pending round is valid: if so the watch
    /// is over, otherwise it goes on.
    pub fn judged(self, valid: bool) -> (next: (Self, WatchAction))
        requires
            self.wf(),
            self.pending is Some,
        ensures
            next.0.wf(),
            self.verdict_follows(valid, next.0, next.1),
    {
        let mut watch = self;
        let round: u8 = watch.pending.unwrap();
        if valid {
            (watch, WatchAction::Found(round))
        } else if watch.scanning {
            watch.scan(round as usize)
        } else {
            watch.pending = None;
            (watch, WatchAction::Await)
        }
    }

    /// Whether the watch and the action are what comes after the announcement of a
    /// proposal: one for a later round of the height is looked at.
    pub open spec fn announcement_follows(
        self,
        announced: ConsensusView,
        after: Self,
        action: WatchAction,
    ) -> bool {
        &&& after.wf()
        &&& if announced.height == self.view.height && announced.round > self.view.round {
            &&& after == (FutureProposal { pending: Some(announced.round), ..self })
            &&& action == WatchAction::Query(announced)
        } else {
            after == self && action == WatchAction::Await
        }
    }

    /// Takes note of the announcement of a proposal: one for a later round of the height
    /// is looked at.
    pub fn announced(self, announced: ConsensusView) -> (next: (Self, WatchAction))
        requires
            self.wf(),
            self.pending is None,
        ensures
            next.0.wf(),
            self.announcement_follows(announced, next.0, next.1),
    {
        let mut watch = self;
        if announced.height == watch.view.height && announced.round > watch.view.round {
            watch.pending = Some(announced.round);
            (watch, WatchAction::Query(announced))
        } else {
            (watch, WatchAction::Await)
        }
    }
}

/// Whether a watch and an action open the watch for round changes to a round after that
/// of `view`: all rounds after it are scanned.
pub open spec fn rcc_watch_opens<V: ValidatorManager, BS: BlockService>(
    ibft: IBFT<V, BS>,
    view: ConsensusView,
    counts: Vec<usize>,
    watch: FutureRcc,
    action: WatchAction,
) -> bool {
    let quorum = ibft.validator_manager.quorum_at(view.height);
    let fresh = FutureRcc { view, quorum, counts, scanning: false, pending: None };
    watch.wf() && fresh.scanned(ROUND_ARRAY_SIZE as int, watch, action)
}

/// Whether a watch and an action open the watch for a proposal in a round after that of
/// `view`: all rounds after it are scanned.
pub open spec fn proposal_watch_opens(
    view: ConsensusView,
    has_proposal: Vec<bool>,
    watch: FutureProposal,
    action: WatchAction,
) -> bool {
    let fresh = FutureProposal { view, has_proposal, scanning: false, pending: None };
    watch.wf() && fresh.scanned(ROUND_ARRAY_SIZE as int, watch, action)
}

impl<V: ValidatorManager, BS: BlockService> IBFT<V, BS> {
    /// Starts the watch for a quorum of round changes to a later round, of which the
    /// last is looked at first.
    pub fn wait_future_rcc(&self, view: ConsensusView, counts: Vec<usize>) -> (next: (
        FutureRcc,
        WatchAction,
    ))
        requires
            counts@.len() == ROUND_ARRAY_SIZE,
        ensures
            next.0.wf(),
            rcc_watch_opens(*self, view, counts, next.0, next.1),
    {
        let quorum: usize = self.validator_manager.quorum(view.height);
        let watch = FutureRcc { view, quorum, counts, scanning: false, pending: None };
        watch.scan(ROUND_ARRAY_SIZE)
    }

    /// Starts the watch for a valid proposal in a later round, of which the last is
    /// looked at first.
    pub fn wait_future_proposal(&self, view: ConsensusView, has_proposal: Vec<bool>) -> (next: (
        FutureProposal,
        WatchAction,
    ))
        requires
            has_proposal@.len() == ROUND_ARRAY_SIZE,
        ensures
            next.0.wf(),
            proposal_watch_opens(view, has_proposal, next.0, next.1),
    {
        let watch = FutureProposal { view, has_proposal, scanning: false, pending: None };
        watch.scan(ROUND_ARRAY_SIZE)
    }
}

} // verus!
