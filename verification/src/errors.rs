//! The error taxonomy: every rejected operation surfaces one of these named
//! failures to its caller. No operation panics and none is retried internally.

use vstd::prelude::*;

verus! {

/// Every way an operation on the market can be rejected.
///
/// Authorization errors name a wrong identity, precondition errors a state or
/// argument the operation cannot accept, arithmetic errors a checked
/// computation that would overflow, underflow or divide by zero, and
/// `SlippageExceeded` a realized output below the caller's floor.
#[derive(Clone, Copy, Debug, PartialEq, Eq, Structural)]
pub enum CustomError {
    InvalidAdminAccount,
    InvalidMigrationAuth,
    SlippageExceeded,
    InvalidBaseToken,
    InvalidFeeWallet,
    BondingCurveIsCompleted,
    BondingCurveIsNotCompleted,
    NotEnoughBaseToken,
    NotEnoughQuoteToken,
    DevBuyAmountIsTooSmall,
    NotEnoughSolBalance,
    InvalidInitialTokenTransferPercent,
    OverflowEstimateOutQuote,
    OverflowEstimateOutBase,
    MathOverflow,
    MathUnderflow,
    MathDivisionByZero,
    TokenConstraintError,
    InvalidOpenTime,
}

impl CustomError {
    /// The human-readable message attached to each error.
    pub fn message(&self) -> (r: &'static str) {
        match self {
            CustomError::InvalidAdminAccount => "Invalid Admin Address!",
            CustomError::InvalidMigrationAuth => "Invalid Migration Authority!",
            CustomError::SlippageExceeded => "Slippage Mismatch Error!",
            CustomError::InvalidBaseToken => "Invalid Base Token Address!",
            CustomError::InvalidFeeWallet => "Invaild Fee Wallet!",
            CustomError::BondingCurveIsCompleted => "Bonding Curve Is Completed!",
            CustomError::BondingCurveIsNotCompleted => "Bonding Curve Is Processing!",
            CustomError::NotEnoughBaseToken => "Not enough base token!",
            CustomError::NotEnoughQuoteToken => "Not enough quote token!",
            CustomError::DevBuyAmountIsTooSmall => "DevBuy Amount is too small!",
            CustomError::NotEnoughSolBalance => "Not enough sol balance to create accounts!",
            CustomError::InvalidInitialTokenTransferPercent => {
                "Invalid initial token transfer percent!"
            },
            CustomError::OverflowEstimateOutQuote => "Overflow Estimate Out Quote!",
            CustomError::OverflowEstimateOutBase => "Overflow Estimate Out Base!",
            CustomError::MathOverflow => "Math Overflow!",
            CustomError::MathUnderflow => "Math Underflow!",
            CustomError::MathDivisionByZero => "Math Division By Zero!",
            CustomError::TokenConstraintError => "Token mint constraint error!",
            CustomError::InvalidOpenTime => "Invalid Open Time!",
        }
    }
}

} // verus!
