//! The proportional redemption calculator: given a burn amount, the reserve
//! ledger and the (reconciled) virtual supply, computes the base-asset and
//! derivative-asset amounts owed, flooring each leg independently so rounding
//! always favours the reserve, and enforces the minimum-value floor.

use vstd::prelude::*;
use crate::calc::{
    lemma_floor_div_bounds, lemma_proportional_share_bounded, proportional, spec_proportional,
};
use crate::error::CalcError;
use crate::pool::{spec_distributable_base, ReserveLedger};

verus! {

/// What the calculator returns, step by step: the distributable base reserve
/// (underflow of the floor rejected), the zero-supply guard, the floored
/// proportional share of each leg, the total value of both legs in base units
/// (overflow rejected), and the minimum-value floor on that total.
pub open spec fn spec_compute(
    tokens: u64,
    ledger: ReserveLedger,
    virtual_supply: u64,
    min_withdraw: u64,
) -> Result<(u64, u64), CalcError> {
    if ledger.base_reserve_floor > ledger.base_reserve_balance {
        Err(CalcError::ArithmeticUnderflow)
    } else if virtual_supply == 0 {
        Err(CalcError::DivisionByZeroSupply)
    } else {
        let distributable = spec_distributable_base(ledger) as u64;
        match spec_proportional(tokens, distributable, virtual_supply) {
            Err(e) => Err(e),
            Ok(base_out) => match spec_proportional(
                tokens,
                ledger.derivative_reserve_balance,
                virtual_supply,
            ) {
                Err(e) => Err(e),
                Ok(derivative_out) => match ledger.spec_convert(derivative_out) {
                    Err(e) => Err(e),
                    Ok(converted) => if base_out + converted > u64::MAX {
                        Err(CalcError::CalculationFailure)
                    } else if base_out + converted < min_withdraw {
                        Err(CalcError::WithdrawAmountTooLow)
                    } else {
                        Ok((base_out, derivative_out))
                    },
                },
            },
        }
    }
}

/// Computes the two amounts owed for burning `tokens` against `virtual_supply`:
/// `floor(tokens * distributable_base / virtual_supply)` on the base leg and
/// `floor(tokens * derivative_reserve_balance / virtual_supply)` on the
/// derivative leg. Rejects a floor above the base balance, a zero supply, a
/// total value that overflows, and a total value below `min_withdraw` — all
/// before any asset movement. When the burn does not exceed the supply, each
/// leg's payout is bounded by its reserve.
pub fn compute(tokens: u64, ledger: &ReserveLedger, virtual_supply: u64, min_withdraw: u64) -> (r:
    Result<(u64, u64), CalcError>)
    ensures
        r == spec_compute(tokens, *ledger, virtual_supply, min_withdraw),
        tokens <= virtual_supply ==> (r matches Ok((base_out, derivative_out)) ==> base_out
            <= spec_distributable_base(*ledger) && derivative_out
            <= ledger.derivative_reserve_balance),
{
    let distributable: u64 = match ledger.distributable_base() {
        Ok(d) => d,
        Err(e) => {
            return Err(e);
        },
    };
    if virtual_supply == 0 {
        return Err(CalcError::DivisionByZeroSupply);
    }
    proof {
        if tokens <= virtual_supply {
            lemma_proportional_share_bounded(tokens, distributable, virtual_supply);
            lemma_proportional_share_bounded(
                tokens,
                ledger.derivative_reserve_balance,
                virtual_supply,
            );
        }
    }
    let base_out: u64 = match proportional(tokens, distributable, virtual_supply) {
        Ok(v) => v,
        Err(e) => {
            return Err(e);
        },
    };
    let derivative_out: u64 = match proportional(
        tokens,
        ledger.derivative_reserve_balance,
        virtual_supply,
    ) {
        Ok(v) => v,
        Err(e) => {
            return Err(e);
        },
    };
    let converted: u64 = match ledger.convert_derivative_to_base(derivative_out) {
        Ok(v) => v,
        Err(e) => {
            return Err(e);
        },
    };
    if converted > u64::MAX - base_out {
        return Err(CalcError::CalculationFailure);
    }
    let total_value: u64 = base_out + converted;
    if total_value < min_withdraw {
        return Err(CalcError::WithdrawAmountTooLow);
    }
    Ok((base_out, derivative_out))
}

/// Proportionality law: for any burn of at most the supply, each leg's floored
/// payout `out` stays within one rounding unit of exact proportionality to its
/// reserve: `out * supply <= tokens * reserve < (out + 1) * supply`, and the
/// payout is never negative. Stated here for one leg; `spec_compute` applies
/// it to each leg with its own reserve.
pub proof fn lemma_proportionality(tokens: u64, reserve: u64, supply: u64)
    requires
        0 < supply,
        tokens <= supply,
    ensures
        spec_proportional(tokens, reserve, supply) matches Ok(out) && out * supply <= tokens
            * reserve && tokens * reserve < (out + 1) * supply,
{
    lemma_proportional_share_bounded(tokens, reserve, supply);
    lemma_floor_div_bounds(tokens * reserve, supply as int);
}

/// Solvency law: a successful calculation for a burn of at most the supply
/// owes at most the distributable base reserve on the base leg and at most the
/// derivative reserve balance on the derivative leg.
pub proof fn lemma_solvency(tokens: u64, ledger: ReserveLedger, supply: u64, min_withdraw: u64)
    requires
        tokens <= supply,
    ensures
        spec_compute(tokens, ledger, supply, min_withdraw) matches Ok((base_out, derivative_out))
            ==> base_out <= spec_distributable_base(ledger) && derivative_out
            <= ledger.derivative_reserve_balance,
{
    if ledger.base_reserve_floor <= ledger.base_reserve_balance && supply != 0 {
        let distributable = spec_distributable_base(ledger) as u64;
        lemma_proportional_share_bounded(tokens, distributable, supply);
        lemma_proportional_share_bounded(tokens, ledger.derivative_reserve_balance, supply);
    }
}

} // verus!
