//! Structured, append-only records of what the market did. Emission is
//! bookkeeping, not state: handlers push records into an `EventLog` and no
//! acknowledgement ever gates the core logic.

use vstd::prelude::*;

use crate::state::AccountId;

verus! {

/// Which swap-shaped operation a `TransactionEvent` records.
#[derive(Clone, Copy, Debug, PartialEq, Eq, Structural)]
pub enum Operation {
    Buy,
    Sell,
    DevBuy,
}

/// One executed swap: who traded, what went in and out, and the fee taken.
#[derive(Clone, Copy, Debug, PartialEq, Eq, Structural)]
pub struct TransactionEvent {
    pub operation: Operation,
    pub creator: AccountId,
    pub input_amount: u64,
    pub output_amount: u64,
    pub platform_fee: u64,
    pub base_token_mint: AccountId,
    pub mint_address: AccountId,
    pub fee_wallet: AccountId,
}

/// A market crossed its completion limitation and stopped trading.
#[derive(Clone, Copy, Debug, PartialEq, Eq, Structural)]
pub struct BondingCurveCompleted {
    pub mint_address: AccountId,
    pub user_quote_token_ata: AccountId,
    pub pool: AccountId,
    pub quote_token_pool: AccountId,
}

/// A completed market's reserves were handed off to the external pool.
#[derive(Clone, Copy, Debug, PartialEq, Eq, Structural)]
pub struct MigrationEvent {
    pub mint_address: AccountId,
    pub raydium_pool: AccountId,
    pub contract: AccountId,
}

/// Any record the market can emit.
#[derive(Clone, Copy, Debug, PartialEq, Eq, Structural)]
pub enum EventRecord {
    Swap(TransactionEvent),
    Completed(BondingCurveCompleted),
    Migration(MigrationEvent),
}

/// The append-only log. Records are only ever pushed, never rewritten or
/// dropped.
pub struct EventLog {
    records: Vec<EventRecord>,
}

impl EventLog {
    /// What the log holds, oldest first.
    pub closed spec fn records(&self) -> Seq<EventRecord> {
        self.records@
    }

    /// An empty log.
    pub fn new() -> (log: EventLog)
        ensures
            log.records() == Seq::<EventRecord>::empty(),
    {
        EventLog { records: Vec::new() }
    }

    /// Appends one record at the end; everything already logged stays put.
    pub fn emit(&mut self, record: EventRecord)
        ensures
            final(self).records() == old(self).records().push(record),
    {
        self.records.push(record);
    }

    /// How many records have been logged.
    pub fn len(&self) -> (n: usize)
        ensures
            n == self.records().len(),
    {
        self.records.len()
    }

    /// The record at position `i`, oldest first.
    pub fn record_at(&self, i: usize) -> (r: EventRecord)
        requires
            i < self.records().len(),
        ensures
            r == self.records()[i as int],
    {
        self.records[i]
    }
}

} // verus!
