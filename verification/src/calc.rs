//! Share pricing: conversion between token amounts and pool shares.
//!
//! Both directions round down, so value retention is always biased toward
//! the pool: depositors are never minted a share they did not fully pay for,
//! and withdrawers are never paid more than their shares are worth.

use vstd::prelude::*;
use crate::FlashLoanError;

verus! {

/// Shares minted for a deposit of `amount` tokens into a pool holding
/// `reserve` tokens against `supply` outstanding shares.
///
/// An empty share supply means a first deposit, priced one to one. A zero
/// reserve under a nonzero supply is an invariant violation, reported as a
/// calculation failure, as is a quotient too large for the share width.
pub open spec fn spec_shares_from_value(amount: u64, reserve: u64, supply: u64) -> Result<
    u64,
    FlashLoanError,
> {
    if supply == 0 {
        Ok(amount)
    } else if reserve == 0 {
        Err(FlashLoanError::CalculationFailure)
    } else if (amount as int) * (supply as int) / (reserve as int) > u64::MAX as int {
        Err(FlashLoanError::CalculationFailure)
    } else {
        Ok(((amount as int) * (supply as int) / (reserve as int)) as u64)
    }
}

/// Tokens owed for burning `shares` claim shares against the same pool.
/// A withdrawal needs an existing supply; zero supply is reported as a
/// calculation failure.
pub open spec fn spec_value_from_shares(shares: u64, reserve: u64, supply: u64) -> Result<
    u64,
    FlashLoanError,
> {
    if supply == 0 {
        Err(FlashLoanError::CalculationFailure)
    } else if (shares as int) * (reserve as int) / (supply as int) > u64::MAX as int {
        Err(FlashLoanError::CalculationFailure)
    } else {
        Ok(((shares as int) * (reserve as int) / (supply as int)) as u64)
    }
}

/// How many shares a deposit of `amount` buys: `floor(amount * supply / reserve)`,
/// or `amount` itself into an empty pool.
pub fn shares_from_value(amount: u64, reserve: u64, supply: u64) -> (r: Result<
    u64,
    FlashLoanError,
>)
    ensures
        r == spec_shares_from_value(amount, reserve, supply),
        supply == 0 ==> r == Ok::<u64, FlashLoanError>(amount),
{
    if supply == 0 {
        return Ok(amount);
    }
    if reserve == 0 {
        return Err(FlashLoanError::CalculationFailure);
    }
    proof {
        assert((amount as int) * (supply as int) <= u64::MAX as int * (u64::MAX as int))
            by (nonlinear_arith)
            requires
                amount <= u64::MAX,
                supply <= u64::MAX,
        ;
    }
    let q: u128 = (amount as u128) * (supply as u128) / (reserve as u128);
    if q > u64::MAX as u128 {
        Err(FlashLoanError::CalculationFailure)
    } else {
        Ok(q as u64)
    }
}

/// How many tokens burning `shares` pays out: `floor(shares * reserve / supply)`.
pub fn value_from_shares(shares: u64, reserve: u64, supply: u64) -> (r: Result<
    u64,
    FlashLoanError,
>)
    ensures
        r == spec_value_from_shares(shares, reserve, supply),
{
    if supply == 0 {
        return Err(FlashLoanError::CalculationFailure);
    }
    proof {
        assert((shares as int) * (reserve as int) <= u64::MAX as int * (u64::MAX as int))
            by (nonlinear_arith)
            requires
                shares <= u64::MAX,
                reserve <= u64::MAX,
        ;
    }
    let q: u128 = (shares as u128) * (reserve as u128) / (supply as u128);
    if q > u64::MAX as u128 {
        Err(FlashLoanError::CalculationFailure)
    } else {
        Ok(q as u64)
    }
}

/// Round trip never favors the depositor: withdrawing the shares minted by a
/// deposit pays out at most the deposited amount.
pub proof fn lemma_share_round_trip(amount: u64, reserve: u64, supply: u64)
    requires
        reserve > 0,
        supply > 0,
    ensures
        spec_shares_from_value(amount, reserve, supply) matches Ok(sh) ==> {
            &&& spec_value_from_shares(sh, reserve, supply) is Ok
            &&& spec_value_from_shares(sh, reserve, supply)->Ok_0 <= amount
        },
{
    let a = amount as int;
    let rs = reserve as int;
    let s = supply as int;
    if spec_shares_from_value(amount, reserve, supply) is Ok {
        let sh = a * s / rs;
        vstd::arithmetic::mul::lemma_mul_nonnegative(a, s);
        vstd::arithmetic::div_mod::lemma_div_pos_is_pos(a * s, rs);
        // sh * rs <= a * s, because rs * sh is a * s rounded down to a multiple of rs
        vstd::arithmetic::div_mod::lemma_fundamental_div_mod(a * s, rs);
        vstd::arithmetic::div_mod::lemma_mod_bound(a * s, rs);
        assert(rs * sh <= a * s);
        vstd::arithmetic::mul::lemma_mul_is_commutative(rs, sh);
        // hence sh * rs / s <= a * s / s == a
        vstd::arithmetic::div_mod::lemma_div_is_ordered(sh * rs, a * s, s);
        vstd::arithmetic::div_mod::lemma_div_by_multiple(a, s);
        vstd::arithmetic::mul::lemma_mul_is_commutative(a, s);
        vstd::arithmetic::mul::lemma_mul_nonnegative(sh, rs);
        vstd::arithmetic::div_mod::lemma_div_pos_is_pos(sh * rs, s);
    }
}

} // verus!
