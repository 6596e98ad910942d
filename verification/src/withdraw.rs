//! The withdrawal operation: gate on pause, authorize the burn, reconcile the
//! virtual supply against the live actual mint supply, compute the
//! proportional split, and settle. Executed as one indivisible step: a request
//! that fails anywhere leaves every balance and counter exactly as it was.

use vstd::prelude::*;
use crate::auth::{authorize, spec_authorize, Identity, LiquidityHolding};
use crate::error::{SettlementError, WithdrawalError};
use crate::pool::{spec_distributable_base, PoolAccountingState};
use crate::redeem::{compute, lemma_solvency, spec_compute};
use crate::settle::{settle, spec_settle, UserAccounts};

verus! {

/// One withdrawal request: the amount of liquidity tokens to burn and the
/// identity attempting the burn.
#[derive(Clone, Copy, Debug)]
pub struct WithdrawalRequest {
    pub tokens: u64,
    pub requester: Identity,
}

/// The result of a completed withdrawal: both output amounts, and a snapshot
/// of the pre-operation balances and supply, kept only for the record emitted
/// to off-system observers.
#[derive(Clone, Copy, Debug, PartialEq, Eq, Structural)]
pub struct WithdrawalOutcome {
    pub base_out: u64,
    pub derivative_out: u64,
    pub tokens_burned: u64,
    pub pre_base_reserve_balance: u64,
    pub pre_derivative_reserve_balance: u64,
    pub pre_holding_balance: u64,
    pub pre_user_base_balance: u64,
    pub pre_user_derivative_balance: u64,
    pub pre_mint_supply: u64,
}

/// The whole operation as a function of the pre-state: either the post-state
/// with the outcome, or the first error on the way — pause gate, then
/// authorization, then the proportional calculation against the reconciled
/// supply, then settlement. On success the virtual supply becomes the
/// reconciled supply less the burn.
pub open spec fn spec_remove_liquidity(
    pool: PoolAccountingState,
    holding: LiquidityHolding,
    user: UserAccounts,
    mint_supply: u64,
    request: WithdrawalRequest,
) -> Result<
    (PoolAccountingState, LiquidityHolding, UserAccounts, u64, WithdrawalOutcome),
    WithdrawalError,
> {
    if pool.paused {
        Err(WithdrawalError::Paused)
    } else {
        match spec_authorize(holding, request.requester, request.tokens) {
            Err(e) => Err(WithdrawalError::Auth(e)),
            Ok(_auth) => {
                let reconciled = pool.spec_reconciled_supply(mint_supply);
                match spec_compute(request.tokens, pool.ledger, reconciled, pool.min_withdraw) {
                    Err(e) => Err(WithdrawalError::Calc(e)),
                    Ok((base_out, derivative_out)) => if request.tokens > reconciled {
                        Err(WithdrawalError::Settlement(SettlementError::SupplyUnderflow))
                    } else {
                        match spec_settle(
                            pool.ledger,
                            holding,
                            user,
                            mint_supply,
                            base_out,
                            derivative_out,
                            request.tokens,
                        ) {
                            Err(e) => Err(WithdrawalError::Settlement(e)),
                            Ok((ledger2, holding2, user2, mint2)) => Ok(
                                (
                                    PoolAccountingState {
                                        virtual_lp_supply: (reconciled - request.tokens) as u64,
                                        min_withdraw: pool.min_withdraw,
                                        paused: pool.paused,
                                        ledger: ledger2,
                                    },
                                    holding2,
                                    user2,
                                    mint2,
                                    WithdrawalOutcome {
                                        base_out,
                                        derivative_out,
                                        tokens_burned: request.tokens,
                                        pre_base_reserve_balance: pool.ledger.base_reserve_balance,
                                        pre_derivative_reserve_balance:
                                            pool.ledger.derivative_reserve_balance,
                                        pre_holding_balance: holding.balance,
                                        pre_user_base_balance: user.base_balance,
                                        pre_user_derivative_balance: user.derivative_balance,
                                        pre_mint_supply: mint_supply,
                                    },
                                ),
                            ),
                        }
                    },
                }
            },
        }
    }
}

/// Redeems `request.tokens` liquidity tokens for a proportional share of both
/// reserve legs. The behaviour is exactly `spec_remove_liquidity` on the
/// pre-state: the listed post-state on success, the listed error and no state
/// change on failure. The virtual supply never rises, and a failed request —
/// pause gate, authorization, calculation, minimum-value floor or settlement —
/// changes no balance and no counter.
pub fn remove_liquidity(
    pool: &mut PoolAccountingState,
    holding: &mut LiquidityHolding,
    user: &mut UserAccounts,
    mint_supply: &mut u64,
    request: WithdrawalRequest,
) -> (r: Result<WithdrawalOutcome, WithdrawalError>)
    ensures
        match spec_remove_liquidity(
            *old(pool),
            *old(holding),
            *old(user),
            *old(mint_supply),
            request,
        ) {
            Ok((pool2, holding2, user2, mint2, outcome)) => r == Ok::<
                WithdrawalOutcome,
                WithdrawalError,
            >(outcome)
                && *final(pool) == pool2
                && *final(holding) == holding2
                && *final(user) == user2
                && *final(mint_supply) == mint2,
            Err(e) => r == Err::<WithdrawalOutcome, WithdrawalError>(e),
        },
        final(pool).virtual_lp_supply <= old(pool).virtual_lp_supply,
        r is Err ==> *final(pool) == *old(pool)
            && *final(holding) == *old(holding)
            && *final(user) == *old(user)
            && *final(mint_supply) == *old(mint_supply),
{
    pool.check_not_paused()?;
    if let Err(e) = authorize(holding, request.requester, request.tokens) {
        return Err(WithdrawalError::Auth(e));
    }
    let reconciled: u64 = if *mint_supply > pool.virtual_lp_supply {
        // Out-of-band mint detected: the caller surfaces the drift; the
        // counter is capped, never raised.
        pool.virtual_lp_supply
    } else {
        *mint_supply
    };
    let (base_out, derivative_out): (u64, u64) = match compute(
        request.tokens,
        &pool.ledger,
        reconciled,
        pool.min_withdraw,
    ) {
        Ok(amounts) => amounts,
        Err(e) => {
            return Err(WithdrawalError::Calc(e));
        },
    };
    if request.tokens > reconciled {
        return Err(WithdrawalError::Settlement(SettlementError::SupplyUnderflow));
    }
    let outcome = WithdrawalOutcome {
        base_out,
        derivative_out,
        tokens_burned: request.tokens,
        pre_base_reserve_balance: pool.ledger.base_reserve_balance,
        pre_derivative_reserve_balance: pool.ledger.derivative_reserve_balance,
        pre_holding_balance: holding.balance,
        pre_user_base_balance: user.base_balance,
        pre_user_derivative_balance: user.derivative_balance,
        pre_mint_supply: *mint_supply,
    };
    if let Err(e) = settle(
        &mut pool.ledger,
        holding,
        user,
        mint_supply,
        base_out,
        derivative_out,
        request.tokens,
    ) {
        return Err(WithdrawalError::Settlement(e));
    }
    pool.virtual_lp_supply = reconciled - request.tokens;
    Ok(outcome)
}

/// Atomicity law: a successful withdrawal carries all its effects together —
/// both reserve debits with the matching destination credits, the burn from
/// the holding and from the actual mint supply, and the supply-counter update.
/// (A failed one carries none: `remove_liquidity` leaves the state unchanged
/// on every error.)
pub proof fn lemma_withdrawal_atomicity(
    pool: PoolAccountingState,
    holding: LiquidityHolding,
    user: UserAccounts,
    mint_supply: u64,
    request: WithdrawalRequest,
)
    ensures
        spec_remove_liquidity(pool, holding, user, mint_supply, request) matches Ok(
            (pool2, holding2, user2, mint2, outcome),
        ) ==> outcome.tokens_burned == request.tokens
            && pool2.ledger.base_reserve_balance == pool.ledger.base_reserve_balance
            - outcome.base_out
            && user2.base_balance == user.base_balance + outcome.base_out
            && pool2.ledger.derivative_reserve_balance == pool.ledger.derivative_reserve_balance
            - outcome.derivative_out
            && user2.derivative_balance == user.derivative_balance + outcome.derivative_out
            && holding2.balance == holding.balance - request.tokens
            && mint2 == mint_supply - request.tokens
            && pool2.virtual_lp_supply == pool.spec_reconciled_supply(mint_supply)
            - request.tokens,
{
}

/// Supply-monotonicity law: a successful withdrawal only ever lowers the
/// virtual LP supply — reconciliation caps it and the burn subtracts from it.
/// A failed one leaves it untouched: `remove_liquidity` ensures the whole
/// state is unchanged on every error, and states the bound
/// `final(pool).virtual_lp_supply <= old(pool).virtual_lp_supply` outright.
pub proof fn lemma_supply_monotonic(
    pool: PoolAccountingState,
    holding: LiquidityHolding,
    user: UserAccounts,
    mint_supply: u64,
    request: WithdrawalRequest,
)
    ensures
        spec_remove_liquidity(pool, holding, user, mint_supply, request) matches Ok(
            (pool2, holding2, user2, mint2, outcome),
        ) ==> pool2.virtual_lp_supply <= pool.virtual_lp_supply,
{
}

/// Solvency law: a successful withdrawal pays out at most the distributable
/// base reserve on the base leg and at most the derivative reserve balance on
/// the derivative leg.
pub proof fn lemma_withdrawal_solvency(
    pool: PoolAccountingState,
    holding: LiquidityHolding,
    user: UserAccounts,
    mint_supply: u64,
    request: WithdrawalRequest,
)
    ensures
        spec_remove_liquidity(pool, holding, user, mint_supply, request) matches Ok(
            (pool2, holding2, user2, mint2, outcome),
        ) ==> outcome.base_out <= spec_distributable_base(pool.ledger) && outcome.derivative_out
            <= pool.ledger.derivative_reserve_balance,
{
    let reconciled = pool.spec_reconciled_supply(mint_supply);
    if request.tokens <= reconciled {
        lemma_solvency(request.tokens, pool.ledger, reconciled, pool.min_withdraw);
    }
}

} // verus!
