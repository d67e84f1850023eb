//! The engine's configuration, the timeout of a round and the state of a run.

use crate::poa::backend::{BlockService, ValidatorManager};
use crate::primitives::signer::Signer;
use vstd::prelude::*;

verus! {

/// The last round in which a block may be agreed on.
pub const MAX_ROUND: u8 = 31;

/// The number of rounds, the first of which is round zero.
pub const ROUND_ARRAY_SIZE: usize = 32;

/// The nanoseconds of a second.
pub const NANOS_PER_SEC: u32 = 1_000_000_000;

/// A span of time: seconds, and nanoseconds that make up less than a second.
#[derive(Debug, Clone, Copy, PartialEq, Eq)]
pub struct RoundTime {
    pub secs: u64,
    pub subsec_nanos: u32,
}

impl RoundTime {
    /// Whether the nanoseconds make up less than a second.
    pub open spec fn wf(self) -> bool {
        self.subsec_nanos < NANOS_PER_SEC
    }

    /// The span in nanoseconds.
    pub open spec fn total_nanos(self) -> nat {
        (self.secs * NANOS_PER_SEC + self.subsec_nanos) as nat
    }

    /// The longest span.
    pub open spec fn longest() -> Self {
        RoundTime { secs: u64::MAX, subsec_nanos: (NANOS_PER_SEC - 1) as u32 }
    }

    /// The span taken `factor` times, or the longest span if that would be longer.
    pub fn saturating_mul(self, factor: u32) -> (product: Self)
        requires
            self.wf(),
        ensures
            product.wf(),
            product.total_nanos() == at_most_longest(self.total_nanos() * factor as nat),
    {
        let total: u128 = self.secs as u128 * 1_000_000_000 + self.subsec_nanos as u128;
        assert(total == self.total_nanos());
        assert(total * factor <= 0x1_0000_0000_0000_0000 * 1_000_000_000 * 0x1_0000_0000)
            by (nonlinear_arith)
            requires
                total <= 0x1_0000_0000_0000_0000 * 1_000_000_000,
                factor <= 0x1_0000_0000,
        ;
        assert(0 <= total * factor) by (nonlinear_arith);
        let nanos: u128 = total * factor as u128;
        let secs: u128 = nanos / 1_000_000_000;
        if secs > u64::MAX as u128 {
            RoundTime { secs: u64::MAX, subsec_nanos: NANOS_PER_SEC - 1 }
        } else {
            RoundTime { secs: secs as u64, subsec_nanos: (nanos % 1_000_000_000) as u32 }
        }
    }
}

/// A number of nanoseconds, cut down to the longest span.
pub open spec fn at_most_longest(nanos: nat) -> nat {
    if nanos <= RoundTime::longest().total_nanos() {
        nanos
    } else {
        RoundTime::longest().total_nanos()
    }
}

/// How far the round in progress has come.
#[derive(Debug, Clone, Copy, PartialEq, Eq, PartialOrd, Ord, Structural)]
pub enum RunState {
    Proposal,
    Prepare,
    Commit,
}

impl RunState {
    /// The number of the state, in the order in which a round goes through them.
    pub open spec fn number(self) -> u8 {
        match self {
            RunState::Proposal => 0,
            RunState::Prepare => 1,
            RunState::Commit => 2,
        }
    }

    /// The number of the state.
    pub fn to_u8(self) -> (v: u8)
        ensures
            v == self.number(),
    {
        match self {
            RunState::Proposal => 0,
            RunState::Prepare => 1,
            RunState::Commit => 2,
        }
    }

    /// The state with a number.
    pub fn from_u8(v: u8) -> (state: Self)
        requires
            v <= 2,
        ensures
            state.number() == v,
    {
        match v {
            0 => RunState::Proposal,
            1 => RunState::Prepare,
            _ => RunState::Commit,
        }
    }
}

/// A validator: whom it regards as validators, where its blocks come from, the key it
/// signs with, and the time that it gives to round zero.
pub struct IBFT<V: ValidatorManager, BS: BlockService> {
    pub validator_manager: V,
    pub block_service: BS,
    pub signer: Signer,
    pub base_round_time: RoundTime,
}

impl<V: ValidatorManager, BS: BlockService> IBFT<V, BS> {
    /// A validator.
    pub fn new(
        validator_manager: V,
        block_service: BS,
        signer: Signer,
        base_round_time: RoundTime,
    ) -> (ibft: Self)
        ensures
            ibft == (IBFT { validator_manager, block_service, signer, base_round_time }),
    {
        IBFT { validator_manager, block_service, signer, base_round_time }
    }

    /// The time that is given to a round: the base time, doubled with every round, and
    /// at most the longest span.
    pub fn get_round_timeout(&self, round: u8) -> (timeout: RoundTime)
        requires
            self.base_round_time.wf(),
            round < ROUND_ARRAY_SIZE,
        ensures
            timeout.wf(),
            timeout.total_nanos() == round_nanos(self.base_round_time, round as nat),
    {
        proof {
            vstd::arithmetic::power2::lemma2_to64();
            if round < 31 {
                vstd::arithmetic::power2::lemma_pow2_strictly_increases(round as nat, 31);
            }
            vstd::bits::lemma_u32_shl_is_mul(1, round as u32);
        }
        let multiplier: u32 = 1u32 << round;
        self.base_round_time.saturating_mul(multiplier)
    }
}

/// The nanoseconds that are given to a round when round zero is given `base`.
pub open spec fn round_nanos(base: RoundTime, round: nat) -> nat {
    at_most_longest(base.total_nanos() * vstd::arithmetic::power2::pow2(round))
}

} // verus!
