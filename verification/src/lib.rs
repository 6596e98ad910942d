//! Verified core of the withdrawal (redemption) path of a dual-asset
//! liquidity pool.
//!
//! A holder burns liquidity (LP) tokens and receives a proportional share of
//! the pool's two reserve legs: a "base" reserve and a "derivative" reserve.
//! The core covers:
//! - reconciling the internally tracked (virtual) LP supply against the
//!   externally mutable actual mint supply, capping but never raising it;
//! - authorizing the burn for the direct owner or for a delegate with a
//!   sufficient allowance;
//! - a rounding-safe proportional split across both legs (floor division,
//!   favouring the reserve), with a minimum-value floor denominated in the
//!   base asset;
//! - an all-or-nothing settlement: two transfers, one burn and one counter
//!   update, applied together or not at all.
//!
//! The hosting platform's account handling, signing capabilities and transfer
//! primitives stay outside this crate; the core works on plain balances and
//! identities handed in by the caller.

pub mod auth;
pub mod calc;
pub mod error;
pub mod pool;
pub mod redeem;
pub mod settle;
pub mod withdraw;
