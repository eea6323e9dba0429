//! Persisted records of the market: the deployment-wide configuration and the
//! per-market bonding curve, together with the mathematical model of a curve
//! that the swap contracts are stated over.

use vstd::prelude::*;

verus! {

/// An opaque account identity. The market logic never inspects an identity
/// beyond comparing it with another, so a single machine word models it.
#[derive(Clone, Copy, Debug, PartialEq, Eq, Structural)]
pub struct AccountId {
    pub key: u64,
}

impl AccountId {
    /// True exactly when the two identities are the same account.
    pub fn same_as(&self, other: &AccountId) -> (r: bool)
        ensures
            r == (*self == *other),
    {
        self.key == other.key
    }

    /// The strict ordering of identities, used to place the two pool assets
    /// into their slots at migration.
    pub fn is_below(&self, other: &AccountId) -> (r: bool)
        ensures
            r == (self.key < other.key),
    {
        self.key < other.key
    }
}

/// The deployment-wide configuration, created once and mutated only through
/// the two admin-gated setters for `swap_fee` and `bonding_curve_limitation`.
#[derive(Clone, Copy, Debug, PartialEq, Eq, Structural)]
pub struct InitializeConfiguration {
    /// Fee rate in basis points, `0..=10000`, applied to every swap's input.
    pub swap_fee: u64,
    /// Cumulative base-reserve level at which a market is sold out.
    pub bonding_curve_limitation: u64,
    /// Virtual base reserve credited to every new market.
    pub initial_virtual_base_token: u64,
    /// Virtual quote reserve credited to every new market.
    pub initial_virtual_quote_token: u64,
    /// Flat fee charged at market creation.
    pub create_pool_fee_amount: u64,
    /// The one funding asset every market must trade against.
    pub base_token_ca: AccountId,
    /// Recipient of all fees.
    pub fee_wallet: AccountId,
    /// The only identity allowed to migrate a completed market.
    pub migration_authority: AccountId,
    /// The only identity allowed to change the two mutable fields.
    pub admin: AccountId,
    /// Flat fee charged at migration.
    pub raydium_migration_fee: u64,
}

/// The fee rate domain: basis points never exceed the whole, 10000.
pub open spec fn fee_bps_ok(bps: u64) -> bool {
    bps <= 10000
}

/// Per-market mutable state. `quote_token_reserves` counts the virtual quote
/// seeded at creation together with what the pool actually holds, so it is
/// the curve's whole quote side; `base_token_reserves` counts only real
/// deposits, and the virtual base is added wherever the curve is evaluated.
#[derive(Clone, Copy, Debug, PartialEq, Eq, Structural)]
pub struct BondingCurve {
    /// Virtual base reserve fixed at creation, never mutated afterwards.
    pub init_virtual_base_token: u64,
    /// Virtual quote reserve fixed at creation, never mutated afterwards.
    pub init_virtual_quote_token: u64,
    /// Live quote side of the curve, virtual seed included.
    pub quote_token_reserves: u64,
    /// Live tradable base reserves.
    pub base_token_reserves: u64,
    /// The constant-product target `init_virtual_base_token *
    /// init_virtual_quote_token`, computed once at creation and held fixed.
    pub k_value: u128,
    /// One-way completion flag: set when the base side first reaches the
    /// configured limitation, never cleared.
    pub is_completed: bool,
}

impl BondingCurve {
    /// Read access to the whole record.
    pub fn get(&self) -> (r: &BondingCurve)
        ensures
            r == self,
    {
        self
    }
}

/// The mathematical shadow of a `BondingCurve`: the same fields over
/// unbounded integers, which the swap specifications are written against.
pub struct CurveModel {
    pub init_virtual_base_token: int,
    pub init_virtual_quote_token: int,
    pub quote_token_reserves: int,
    pub base_token_reserves: int,
    pub k_value: int,
    pub is_completed: bool,
}

impl View for BondingCurve {
    type V = CurveModel;

    open spec fn view(&self) -> CurveModel {
        CurveModel {
            init_virtual_base_token: self.init_virtual_base_token as int,
            init_virtual_quote_token: self.init_virtual_quote_token as int,
            quote_token_reserves: self.quote_token_reserves as int,
            base_token_reserves: self.base_token_reserves as int,
            k_value: self.k_value as int,
            is_completed: self.is_completed,
        }
    }
}

/// The whole base side of the curve: virtual seed plus real reserves.
pub open spec fn effective_base(c: CurveModel) -> int {
    c.init_virtual_base_token + c.base_token_reserves
}

/// Range constraints that every `CurveModel` taken from a real
/// `BondingCurve` satisfies.
pub open spec fn model_in_range(c: CurveModel) -> bool {
    &&& 0 <= c.init_virtual_base_token <= u64::MAX
    &&& 0 <= c.init_virtual_quote_token <= u64::MAX
    &&& 0 <= c.quote_token_reserves <= u64::MAX
    &&& 0 <= c.base_token_reserves <= u64::MAX
    &&& 0 <= c.k_value <= u128::MAX
}

/// The curve never holds more value than its constant product allows: the
/// product of the effective reserves stays at or below `k_value`. Creation
/// establishes this and every swap preserves it; it is what makes a
/// buy-then-sell round trip unable to drain the pool.
pub open spec fn curve_consistent(c: CurveModel) -> bool {
    effective_base(c) * c.quote_token_reserves <= c.k_value
}

} // verus!
