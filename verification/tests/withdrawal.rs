use liq_pool_redeem::auth::{Identity, LiquidityHolding};
use liq_pool_redeem::error::{CalcError, SettlementError, WithdrawalError};
use liq_pool_redeem::pool::{PoolAccountingState, ReserveLedger};
use liq_pool_redeem::settle::UserAccounts;
use liq_pool_redeem::withdraw::{remove_liquidity, WithdrawalRequest};

fn ledger() -> ReserveLedger {
    ReserveLedger {
        base_reserve_balance: 600,
        derivative_reserve_balance: 2000,
        base_reserve_floor: 100,
        conversion_numerator: 1,
        conversion_denominator: 1,
    }
}

fn pool() -> PoolAccountingState {
    PoolAccountingState {
        virtual_lp_supply: 1000,
        min_withdraw: 1,
        paused: false,
        ledger: ledger(),
    }
}

fn owner() -> Identity {
    Identity { key: 7 }
}

fn holding() -> LiquidityHolding {
    LiquidityHolding {
        owner: owner(),
        delegate: None,
        delegated_amount: 0,
        balance: 400,
    }
}

fn user() -> UserAccounts {
    UserAccounts { base_balance: 10, derivative_balance: 20 }
}

fn assert_unchanged(
    pool: &PoolAccountingState,
    holding: &LiquidityHolding,
    user: &UserAccounts,
    mint_supply: u64,
) {
    let fresh_pool = self::pool();
    assert_eq!(pool.virtual_lp_supply, fresh_pool.virtual_lp_supply);
    assert_eq!(pool.min_withdraw, fresh_pool.min_withdraw);
    assert_eq!(pool.ledger.base_reserve_balance, fresh_pool.ledger.base_reserve_balance);
    assert_eq!(
        pool.ledger.derivative_reserve_balance,
        fresh_pool.ledger.derivative_reserve_balance
    );
    assert_eq!(pool.ledger.base_reserve_floor, fresh_pool.ledger.base_reserve_floor);
    let fresh_holding = self::holding();
    assert_eq!(holding.balance, fresh_holding.balance);
    assert_eq!(holding.delegated_amount, fresh_holding.delegated_amount);
    let fresh_user = self::user();
    assert_eq!(user.base_balance, fresh_user.base_balance);
    assert_eq!(user.derivative_balance, fresh_user.derivative_balance);
    assert_eq!(mint_supply, 1000);
}

#[test]
fn successful_withdrawal_pays_proportionally() {
    let mut p = pool();
    let mut h = holding();
    let mut u = user();
    let mut mint: u64 = 1000;
    let r = remove_liquidity(
        &mut p,
        &mut h,
        &mut u,
        &mut mint,
        WithdrawalRequest { tokens: 100, requester: owner() },
    );
    let out = r.expect("withdrawal should succeed");
    assert_eq!(out.base_out, 50);
    assert_eq!(out.derivative_out, 200);
    assert_eq!(out.tokens_burned, 100);
    assert_eq!(out.pre_base_reserve_balance, 600);
    assert_eq!(out.pre_derivative_reserve_balance, 2000);
    assert_eq!(out.pre_holding_balance, 400);
    assert_eq!(out.pre_user_base_balance, 10);
    assert_eq!(out.pre_user_derivative_balance, 20);
    assert_eq!(out.pre_mint_supply, 1000);
    assert_eq!(p.virtual_lp_supply, 900);
    assert_eq!(p.ledger.base_reserve_balance, 550);
    assert_eq!(p.ledger.derivative_reserve_balance, 1800);
    assert_eq!(h.balance, 300);
    assert_eq!(u.base_balance, 60);
    assert_eq!(u.derivative_balance, 220);
    assert_eq!(mint, 900);
}

#[test]
fn below_minimum_floor_is_rejected_without_effects() {
    let mut p = pool();
    p.min_withdraw = 1000;
    let mut h = holding();
    let mut u = user();
    let mut mint: u64 = 1000;
    let r = remove_liquidity(
        &mut p,
        &mut h,
        &mut u,
        &mut mint,
        WithdrawalRequest { tokens: 100, requester: owner() },
    );
    assert_eq!(
        r,
        Err(WithdrawalError::Calc(CalcError::WithdrawAmountTooLow))
    );
    assert_eq!(p.min_withdraw, 1000);
    assert_eq!(p.virtual_lp_supply, 1000);
    assert_eq!(p.ledger.base_reserve_balance, 600);
    assert_eq!(p.ledger.derivative_reserve_balance, 2000);
    assert_eq!(h.balance, 400);
    assert_eq!(u.base_balance, 10);
    assert_eq!(u.derivative_balance, 20);
    assert_eq!(mint, 1000);
}

#[test]
fn delegate_over_allowance_is_rejected_without_effects() {
    let mut p = pool();
    let delegate = Identity { key: 9 };
    let mut h = holding();
    h.delegate = Some(delegate);
    h.delegated_amount = 50;
    let mut u = user();
    let mut mint: u64 = 1000;
    let r = remove_liquidity(
        &mut p,
        &mut h,
        &mut u,
        &mut mint,
        WithdrawalRequest { tokens: 100, requester: delegate },
    );
    assert_eq!(
        r,
        Err(WithdrawalError::Auth(
            liq_pool_redeem::error::AuthError::InsufficientDelegatedFunds
        ))
    );
    assert_eq!(h.delegated_amount, 50);
    assert_eq!(h.balance, 400);
    assert_unchanged(&p, &holding(), &u, mint);
}

#[test]
fn delegate_within_allowance_succeeds() {
    let mut p = pool();
    let delegate = Identity { key: 9 };
    let mut h = holding();
    h.delegate = Some(delegate);
    h.delegated_amount = 150;
    let mut u = user();
    let mut mint: u64 = 1000;
    let r = remove_liquidity(
        &mut p,
        &mut h,
        &mut u,
        &mut mint,
        WithdrawalRequest { tokens: 100, requester: delegate },
    );
    let out = r.expect("delegate withdrawal should succeed");
    assert_eq!(out.base_out, 50);
    assert_eq!(out.derivative_out, 200);
    assert_eq!(h.balance, 300);
    assert_eq!(p.virtual_lp_supply, 900);
}

#[test]
fn paused_pool_rejects_without_effects() {
    let mut p = pool();
    p.paused = true;
    let mut h = holding();
    let mut u = user();
    let mut mint: u64 = 1000;
    let r = remove_liquidity(
        &mut p,
        &mut h,
        &mut u,
        &mut mint,
        WithdrawalRequest { tokens: 100, requester: owner() },
    );
    assert_eq!(r, Err(WithdrawalError::Paused));
    assert!(p.paused);
    assert_unchanged(&p, &h, &u, mint);
}

#[test]
fn unauthorized_requester_is_rejected_with_identities() {
    let mut p = pool();
    let mut h = holding();
    let mut u = user();
    let mut mint: u64 = 1000;
    let stranger = Identity { key: 42 };
    let r = remove_liquidity(
        &mut p,
        &mut h,
        &mut u,
        &mut mint,
        WithdrawalRequest { tokens: 100, requester: stranger },
    );
    assert_eq!(
        r,
        Err(WithdrawalError::Auth(
            liq_pool_redeem::error::AuthError::UnauthorizedSigner {
                owner: owner(),
                requester: stranger,
            }
        ))
    );
    assert_unchanged(&p, &h, &u, mint);
}

#[test]
fn owner_over_balance_is_rejected() {
    let mut p = pool();
    let mut h = holding();
    let mut u = user();
    let mut mint: u64 = 1000;
    let r = remove_liquidity(
        &mut p,
        &mut h,
        &mut u,
        &mut mint,
        WithdrawalRequest { tokens: 401, requester: owner() },
    );
    assert_eq!(
        r,
        Err(WithdrawalError::Auth(
            liq_pool_redeem::error::AuthError::InsufficientOwnerFunds
        ))
    );
    assert_unchanged(&p, &h, &u, mint);
}

#[test]
fn zero_supply_pool_rejects_withdrawals() {
    let mut p = pool();
    p.virtual_lp_supply = 0;
    let mut h = holding();
    let mut u = user();
    let mut mint: u64 = 0;
    let r = remove_liquidity(
        &mut p,
        &mut h,
        &mut u,
        &mut mint,
        WithdrawalRequest { tokens: 100, requester: owner() },
    );
    assert_eq!(
        r,
        Err(WithdrawalError::Calc(CalcError::DivisionByZeroSupply))
    );
    assert_eq!(p.virtual_lp_supply, 0);
    assert_eq!(h.balance, 400);
}

#[test]
fn floor_above_balance_is_an_underflow() {
    let mut p = pool();
    p.ledger.base_reserve_floor = 601;
    let mut h = holding();
    let mut u = user();
    let mut mint: u64 = 1000;
    let r = remove_liquidity(
        &mut p,
        &mut h,
        &mut u,
        &mut mint,
        WithdrawalRequest { tokens: 100, requester: owner() },
    );
    assert_eq!(
        r,
        Err(WithdrawalError::Calc(CalcError::ArithmeticUnderflow))
    );
    assert_eq!(p.ledger.base_reserve_floor, 601);
    assert_eq!(p.ledger.base_reserve_balance, 600);
    assert_eq!(h.balance, 400);
}

#[test]
fn oversized_conversion_is_a_calculation_failure() {
    let mut p = pool();
    // Rate u64::MAX : 1 blows the converted derivative amount past 64 bits.
    p.ledger.conversion_numerator = u64::MAX;
    let mut h = holding();
    let mut u = user();
    let mut mint: u64 = 1000;
    let r = remove_liquidity(
        &mut p,
        &mut h,
        &mut u,
        &mut mint,
        WithdrawalRequest { tokens: 100, requester: owner() },
    );
    assert_eq!(
        r,
        Err(WithdrawalError::Calc(CalcError::CalculationFailure))
    );
    assert_eq!(h.balance, 400);
    assert_eq!(p.virtual_lp_supply, 1000);
}

#[test]
fn burn_above_reconciled_supply_fails_settlement_atomically() {
    let mut p = pool();
    let mut h = holding();
    let mut u = user();
    // The actual mint supply reconciles the virtual supply down to 50, below
    // the requested burn of 100: the settlement phase must abort with no
    // observable partial effect (no transfer, no burn, no counter change).
    let mut mint: u64 = 50;
    let r = remove_liquidity(
        &mut p,
        &mut h,
        &mut u,
        &mut mint,
        WithdrawalRequest { tokens: 100, requester: owner() },
    );
    assert_eq!(
        r,
        Err(WithdrawalError::Settlement(SettlementError::SupplyUnderflow))
    );
    assert_eq!(p.virtual_lp_supply, 1000);
    assert_eq!(p.ledger.base_reserve_balance, 600);
    assert_eq!(p.ledger.derivative_reserve_balance, 2000);
    assert_eq!(h.balance, 400);
    assert_eq!(u.base_balance, 10);
    assert_eq!(u.derivative_balance, 20);
    assert_eq!(mint, 50);
}

#[test]
fn burn_above_holding_balance_fails_settlement_atomically() {
    let mut p = pool();
    let delegate = Identity { key: 9 };
    let mut h = holding();
    // The delegate's allowance covers the burn but the holding's balance does
    // not: authorization passes, the burn itself cannot, and neither transfer
    // may survive it.
    h.delegate = Some(delegate);
    h.delegated_amount = 100;
    h.balance = 60;
    let mut u = user();
    let mut mint: u64 = 1000;
    let r = remove_liquidity(
        &mut p,
        &mut h,
        &mut u,
        &mut mint,
        WithdrawalRequest { tokens: 100, requester: delegate },
    );
    assert_eq!(
        r,
        Err(WithdrawalError::Settlement(SettlementError::BurnExceedsBalance))
    );
    assert_eq!(p.virtual_lp_supply, 1000);
    assert_eq!(p.ledger.base_reserve_balance, 600);
    assert_eq!(p.ledger.derivative_reserve_balance, 2000);
    assert_eq!(h.balance, 60);
    assert_eq!(u.base_balance, 10);
    assert_eq!(u.derivative_balance, 20);
    assert_eq!(mint, 1000);
}

#[test]
fn supply_drift_is_tolerated_and_not_absorbed() {
    let mut p = pool();
    let mut h = holding();
    let mut u = user();
    // Someone minted out of band: the actual supply (1200) exceeds the virtual
    // one (1000). The split uses the virtual supply, uncorrected.
    let mut mint: u64 = 1200;
    let r = remove_liquidity(
        &mut p,
        &mut h,
        &mut u,
        &mut mint,
        WithdrawalRequest { tokens: 100, requester: owner() },
    );
    let out = r.expect("withdrawal should succeed despite drift");
    assert_eq!(out.base_out, 50);
    assert_eq!(out.derivative_out, 200);
    assert_eq!(out.pre_mint_supply, 1200);
    assert_eq!(p.virtual_lp_supply, 900);
    assert_eq!(mint, 1100);
}

#[test]
fn supply_never_rises_after_any_call() {
    let cases: Vec<(u64, u64, u64)> = vec![
        (1000, 1000, 100),
        (1000, 900, 100),
        (1000, 1200, 100),
        (1000, 50, 100),
        (1000, 1000, 0),
        (1000, 1000, 5000),
    ];
    for (virtual_supply, actual, tokens) in cases {
        let mut p = pool();
        p.virtual_lp_supply = virtual_supply;
        let mut h = holding();
        h.balance = u64::MAX;
        let mut u = user();
        let mut mint: u64 = actual;
        let _ = remove_liquidity(
            &mut p,
            &mut h,
            &mut u,
            &mut mint,
            WithdrawalRequest { tokens, requester: owner() },
        );
        assert!(p.virtual_lp_supply <= virtual_supply);
    }
}
