//! Authorization of a burn request against a liquidity-token holding: the
//! requester must be the holding's delegate with a sufficient allowance, or
//! its owner with a sufficient balance.

use vstd::prelude::*;
use crate::error::AuthError;

verus! {

/// An identity on the hosting platform (an account address), reduced to the
/// one thing this core reads of it: whether two identities are the same.
#[derive(Clone, Copy, Debug, PartialEq, Eq, Structural)]
pub struct Identity {
    pub key: u64,
}

/// One holder's liquidity-token account: its owner, an optional delegate with
/// a pre-authorized allowance, and the token balance. Mutated externally by
/// transfer and approve operations; this core reads it and burns from it.
#[derive(Clone, Copy, Debug)]
pub struct LiquidityHolding {
    pub owner: Identity,
    pub delegate: Option<Identity>,
    pub delegated_amount: u64,
    pub balance: u64,
}

/// Which capability authorizes the burn, resolved once per request.
#[derive(Clone, Copy, Debug, PartialEq, Eq, Structural)]
pub enum AuthKind {
    /// The requester owns the holding.
    OwnerAuth,
    /// The requester is the holding's delegate.
    DelegateAuth,
}

/// The authorization rule. The delegate branch is checked first: a requester
/// registered as the delegate is held to the delegated allowance even when it
/// also owns the holding.
pub open spec fn spec_authorize(
    holding: LiquidityHolding,
    requester: Identity,
    tokens: u64,
) -> Result<AuthKind, AuthError> {
    if holding.delegate == Some(requester) {
        if tokens <= holding.delegated_amount {
            Ok(AuthKind::DelegateAuth)
        } else {
            Err(AuthError::InsufficientDelegatedFunds)
        }
    } else if requester == holding.owner {
        if tokens <= holding.balance {
            Ok(AuthKind::OwnerAuth)
        } else {
            Err(AuthError::InsufficientOwnerFunds)
        }
    } else {
        Err(AuthError::UnauthorizedSigner { owner: holding.owner, requester })
    }
}

/// Validates that burning `tokens` from `holding` is covered by the
/// requester's capability: the delegated allowance when the requester is the
/// registered delegate, the owned balance when it is the owner. Pure
/// validation, no side effects.
pub fn authorize(
    holding: &LiquidityHolding,
    requester: Identity,
    tokens: u64,
) -> (r: Result<AuthKind, AuthError>)
    ensures
        r == spec_authorize(*holding, requester, tokens),
{
    let is_delegate = match holding.delegate {
        Some(d) => d == requester,
        None => false,
    };
    if is_delegate {
        if tokens <= holding.delegated_amount {
            Ok(AuthKind::DelegateAuth)
        } else {
            Err(AuthError::InsufficientDelegatedFunds)
        }
    } else if requester == holding.owner {
        if tokens <= holding.balance {
            Ok(AuthKind::OwnerAuth)
        } else {
            Err(AuthError::InsufficientOwnerFunds)
        }
    } else {
        Err(AuthError::UnauthorizedSigner { owner: holding.owner, requester })
    }
}

} // verus!
