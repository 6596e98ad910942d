//! All-or-nothing settlement of a computed withdrawal: the base-leg transfer,
//! the derivative-leg transfer and the burn are applied together or not at
//! all. Every balance update is checked before any is made.

use vstd::prelude::*;
use crate::auth::LiquidityHolding;
use crate::error::SettlementError;
use crate::pool::ReserveLedger;

verus! {

/// The requester's destination accounts, one per reserve leg.
#[derive(Clone, Copy, Debug, PartialEq, Eq, Structural)]
pub struct UserAccounts {
    pub base_balance: u64,
    pub derivative_balance: u64,
}

/// What the settlement does, or the first reason it cannot: debit each leg's
/// reserve and credit the matching destination, burn `tokens` from the holding
/// and from the actual mint supply. Checked in the order the legs are moved:
/// base transfer, derivative transfer, burn.
pub open spec fn spec_settle(
    ledger: ReserveLedger,
    holding: LiquidityHolding,
    user: UserAccounts,
    mint_supply: u64,
    base_out: u64,
    derivative_out: u64,
    tokens: u64,
) -> Result<(ReserveLedger, LiquidityHolding, UserAccounts, u64), SettlementError> {
    if base_out > ledger.base_reserve_balance {
        Err(SettlementError::BaseReserveShort)
    } else if user.base_balance + base_out > u64::MAX {
        Err(SettlementError::DestinationOverflow)
    } else if derivative_out > ledger.derivative_reserve_balance {
        Err(SettlementError::DerivativeReserveShort)
    } else if user.derivative_balance + derivative_out > u64::MAX {
        Err(SettlementError::DestinationOverflow)
    } else if tokens > holding.balance {
        Err(SettlementError::BurnExceedsBalance)
    } else if tokens > mint_supply {
        Err(SettlementError::SupplyUnderflow)
    } else {
        Ok(
            (
                ReserveLedger {
                    base_reserve_balance: (ledger.base_reserve_balance - base_out) as u64,
                    derivative_reserve_balance: (ledger.derivative_reserve_balance
                        - derivative_out) as u64,
                    base_reserve_floor: ledger.base_reserve_floor,
                    conversion_numerator: ledger.conversion_numerator,
                    conversion_denominator: ledger.conversion_denominator,
                },
                LiquidityHolding {
                    owner: holding.owner,
                    delegate: holding.delegate,
                    delegated_amount: holding.delegated_amount,
                    balance: (holding.balance - tokens) as u64,
                },
                UserAccounts {
                    base_balance: (user.base_balance + base_out) as u64,
                    derivative_balance: (user.derivative_balance + derivative_out) as u64,
                },
                (mint_supply - tokens) as u64,
            ),
        )
    }
}

/// Moves `base_out` from the base reserve leg and `derivative_out` from the
/// derivative reserve leg to the requester's destination accounts, burns
/// `tokens` from the holding and from the actual mint supply. All effects are
/// applied together or, on any failure, none: the state is unchanged on error.
pub fn settle(
    ledger: &mut ReserveLedger,
    holding: &mut LiquidityHolding,
    user: &mut UserAccounts,
    mint_supply: &mut u64,
    base_out: u64,
    derivative_out: u64,
    tokens: u64,
) -> (r: Result<(), SettlementError>)
    ensures
        match spec_settle(
            *old(ledger),
            *old(holding),
            *old(user),
            *old(mint_supply),
            base_out,
            derivative_out,
            tokens,
        ) {
            Ok((ledger2, holding2, user2, mint2)) => r is Ok
                && *final(ledger) == ledger2
                && *final(holding) == holding2
                && *final(user) == user2
                && *final(mint_supply) == mint2,
            Err(e) => r == Err::<(), SettlementError>(e)
                && *final(ledger) == *old(ledger)
                && *final(holding) == *old(holding)
                && *final(user) == *old(user)
                && *final(mint_supply) == *old(mint_supply),
        },
{
    if base_out > ledger.base_reserve_balance {
        return Err(SettlementError::BaseReserveShort);
    }
    if base_out > u64::MAX - user.base_balance {
        return Err(SettlementError::DestinationOverflow);
    }
    if derivative_out > ledger.derivative_reserve_balance {
        return Err(SettlementError::DerivativeReserveShort);
    }
    if derivative_out > u64::MAX - user.derivative_balance {
        return Err(SettlementError::DestinationOverflow);
    }
    if tokens > holding.balance {
        return Err(SettlementError::BurnExceedsBalance);
    }
    if tokens > *mint_supply {
        return Err(SettlementError::SupplyUnderflow);
    }
    ledger.base_reserve_balance = ledger.base_reserve_balance - base_out;
    ledger.derivative_reserve_balance = ledger.derivative_reserve_balance - derivative_out;
    user.base_balance = user.base_balance + base_out;
    user.derivative_balance = user.derivative_balance + derivative_out;
    holding.balance = holding.balance - tokens;
    *mint_supply = *mint_supply - tokens;
    Ok(())
}

} // verus!
