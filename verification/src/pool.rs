//! Reserve ledger and pool accounting state: the two reserve legs with the
//! base reserve's permanent floor, the derivative-to-base conversion, the
//! virtual LP-supply counter, the minimum-withdrawal threshold and the pause
//! flag.

use vstd::prelude::*;
use crate::calc::{proportional, spec_proportional};
use crate::error::{CalcError, WithdrawalError};

verus! {

/// The reserve balances backing the liquidity token: a base leg, a derivative
/// leg, a floor amount that must remain in the base leg, and a pure conversion
/// from derivative units to base units given as a rate (numerator over
/// denominator; equal values make the rate one to one).
#[derive(Clone, Copy, Debug)]
pub struct ReserveLedger {
    pub base_reserve_balance: u64,
    pub derivative_reserve_balance: u64,
    pub base_reserve_floor: u64,
    pub conversion_numerator: u64,
    pub conversion_denominator: u64,
}

/// The distributable part of the base reserve: its balance less the floor.
/// Meaningful only when the floor does not exceed the balance.
pub open spec fn spec_distributable_base(ledger: ReserveLedger) -> int {
    ledger.base_reserve_balance - ledger.base_reserve_floor
}

impl ReserveLedger {
    /// What the conversion returns: the derivative amount scaled by the rate,
    /// floored, failing when the scaled value does not fit in 64 bits.
    pub open spec fn spec_convert(self, amount: u64) -> Result<u64, CalcError> {
        spec_proportional(amount, self.conversion_numerator, self.conversion_denominator)
    }

    /// Converts a derivative-asset amount to base-asset units at the ledger's
    /// rate, flooring; fails when the result does not fit in 64 bits.
    pub fn convert_derivative_to_base(&self, amount: u64) -> (r: Result<u64, CalcError>)
        ensures
            r == self.spec_convert(amount),
    {
        proportional(amount, self.conversion_numerator, self.conversion_denominator)
    }

    /// The base reserve's distributable balance: balance less floor, failing
    /// when the floor exceeds the balance (never distributed in any case).
    pub fn distributable_base(&self) -> (r: Result<u64, CalcError>)
        ensures
            match r {
                Ok(d) => self.base_reserve_floor <= self.base_reserve_balance && d
                    == spec_distributable_base(*self),
                Err(e) => e == CalcError::ArithmeticUnderflow && self.base_reserve_floor
                    > self.base_reserve_balance,
            },
    {
        if self.base_reserve_floor > self.base_reserve_balance {
            Err(CalcError::ArithmeticUnderflow)
        } else {
            Ok(self.base_reserve_balance - self.base_reserve_floor)
        }
    }
}

/// The pool's accounting state: the virtual LP-supply counter (only ever
/// lowered by this core), the minimum-withdrawal threshold in base units, the
/// pause flag, and the reserve ledger it owns.
#[derive(Clone, Copy, Debug)]
pub struct PoolAccountingState {
    pub virtual_lp_supply: u64,
    pub min_withdraw: u64,
    pub paused: bool,
    pub ledger: ReserveLedger,
}

impl PoolAccountingState {
    /// The virtual supply after reconciliation against the actual mint supply:
    /// capped down to the actual supply, never raised. An actual supply above
    /// the virtual one signals an out-of-band mint and leaves the counter
    /// untouched.
    pub open spec fn spec_reconciled_supply(self, actual_mint_supply: u64) -> u64 {
        if actual_mint_supply > self.virtual_lp_supply {
            self.virtual_lp_supply
        } else {
            actual_mint_supply
        }
    }

    /// Fails fast when the pool is administratively halted.
    pub fn check_not_paused(&self) -> (r: Result<(), WithdrawalError>)
        ensures
            r is Ok <==> !self.paused,
            r is Err ==> r == Err::<(), WithdrawalError>(WithdrawalError::Paused),
    {
        if self.paused {
            Err(WithdrawalError::Paused)
        } else {
            Ok(())
        }
    }

    /// Reconciles the virtual LP supply against the live actual mint supply:
    /// caps it down to the actual supply, never raises it. Returns whether
    /// drift was detected (actual above virtual), for the caller to surface;
    /// the drift itself is not corrected.
    pub fn reconcile_supply(&mut self, actual_mint_supply: u64) -> (drift: bool)
        ensures
            final(self).virtual_lp_supply == old(self).spec_reconciled_supply(actual_mint_supply),
            final(self).virtual_lp_supply <= old(self).virtual_lp_supply,
            drift == (actual_mint_supply > old(self).virtual_lp_supply),
            final(self).min_withdraw == old(self).min_withdraw,
            final(self).paused == old(self).paused,
            final(self).ledger == old(self).ledger,
    {
        if actual_mint_supply > self.virtual_lp_supply {
            true
        } else {
            self.virtual_lp_supply = actual_mint_supply;
            false
        }
    }
}

} // verus!
