//! Error kinds of the redemption core. Every failure surfaces to the caller
//! and aborts the whole operation with no partial effect.

use vstd::prelude::*;
use crate::auth::Identity;

verus! {

/// Authorization failures: the requester is neither the owner nor a delegate,
/// or the requested burn exceeds the authorized spend.
#[derive(Clone, Copy, Debug, PartialEq, Eq, Structural)]
pub enum AuthError {
    /// The requester is neither the holding's owner nor its delegate.
    /// Carries both identities for diagnostics.
    UnauthorizedSigner { owner: Identity, requester: Identity },
    /// The requester owns the holding but its balance is below the burn amount.
    InsufficientOwnerFunds,
    /// The requester is the delegate but the allowance is below the burn amount.
    InsufficientDelegatedFunds,
}

/// Numeric-safety and economic failures of the proportional calculation.
#[derive(Clone, Copy, Debug, PartialEq, Eq, Structural)]
pub enum CalcError {
    /// The base reserve's floor exceeds its balance.
    ArithmeticUnderflow,
    /// A computed amount does not fit in 64 bits.
    CalculationFailure,
    /// No withdrawal is possible from a pool with zero virtual supply.
    DivisionByZeroSupply,
    /// The total value of the withdrawal, in base units, is below the
    /// pool's minimum-withdrawal threshold.
    WithdrawAmountTooLow,
}

/// Failures during the transfer/burn phase. Any of these aborts the whole
/// settlement: no partial multi-leg state change is ever observable.
#[derive(Clone, Copy, Debug, PartialEq, Eq, Structural)]
pub enum SettlementError {
    /// The base reserve leg holds less than the base amount owed.
    BaseReserveShort,
    /// The derivative reserve leg holds less than the derivative amount owed.
    DerivativeReserveShort,
    /// Crediting a destination account would overflow its balance.
    DestinationOverflow,
    /// The holding's balance is below the amount to burn.
    BurnExceedsBalance,
    /// A supply counter is below the amount to burn.
    SupplyUnderflow,
}

/// Every way a withdrawal request can fail, by phase.
#[derive(Clone, Copy, Debug, PartialEq, Eq, Structural)]
pub enum WithdrawalError {
    /// The pool is administratively halted.
    Paused,
    /// The authorization check failed.
    Auth(AuthError),
    /// The proportional calculation or the minimum-value floor failed.
    Calc(CalcError),
    /// The settlement phase failed.
    Settlement(SettlementError),
}

} // verus!
