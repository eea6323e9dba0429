//! The market lifecycle as an explicit state machine: a market is active,
//! then completed, then migrated, and never moves backwards. The completed
//! flag lives on the curve record; the migrated fact is the external pool's
//! existence, which the hosting environment tracks, so the phase is derived
//! from both.

use vstd::prelude::*;

use crate::state::{BondingCurve, CurveModel};
use crate::swap::{buy_step, sell_step, SwapStep};

verus! {

/// Where a market stands in its life.
#[derive(Clone, Copy, Debug, PartialEq, Eq, Structural)]
pub enum MarketPhase {
    /// Trading along the curve.
    Active,
    /// Sold out: swaps are rejected, migration is allowed.
    Completed,
    /// Handed off to the external pool; the record is read-only history.
    Migrated,
}

/// The phases in their one-directional order.
pub open spec fn phase_rank(p: MarketPhase) -> int {
    match p {
        MarketPhase::Active => 0,
        MarketPhase::Completed => 1,
        MarketPhase::Migrated => 2,
    }
}

/// The phase determined by the completion flag and the migrated fact. A
/// market can only have migrated after completing, so a migrated fact
/// without completion is ignored.
pub open spec fn phase_of(is_completed: bool, migrated: bool) -> MarketPhase {
    if is_completed && migrated {
        MarketPhase::Migrated
    } else if is_completed {
        MarketPhase::Completed
    } else {
        MarketPhase::Active
    }
}

/// Reads a market's phase from its curve record and the migrated fact.
pub fn market_phase(curve: &BondingCurve, migrated: bool) -> (p: MarketPhase)
    ensures
        p == phase_of(curve.is_completed, migrated),
{
    if curve.is_completed && migrated {
        MarketPhase::Migrated
    } else if curve.is_completed {
        MarketPhase::Completed
    } else {
        MarketPhase::Active
    }
}

/// No swap moves the phase backwards: an executed buy or sell leaves an
/// unmigrated market's phase where it was or, for a completing buy, one
/// step forward.
pub proof fn lemma_swap_phase_monotone(
    c: CurveModel,
    bps: int,
    limitation: int,
    input: int,
    expected: int,
)
    ensures
        buy_step(c, bps, limitation, input, expected) matches SwapStep::Executed { next, .. }
            ==> phase_rank(phase_of(c.is_completed, false)) <= phase_rank(
            phase_of(next.is_completed, false),
        ),
        sell_step(c, bps, input, expected) matches SwapStep::Executed { next, .. } ==> phase_of(
            next.is_completed,
            false,
        ) == phase_of(c.is_completed, false),
{
}

} // verus!
