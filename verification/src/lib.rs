//! A pooled-liquidity flash-loan facility.
//!
//! Depositors place fungible tokens into a per-token pool and receive
//! proportional claim shares; a borrower may take the pool's reserve for the
//! duration of one atomic transaction, provided the same transaction already
//! carries a repay operation for the borrowed amount plus a fee. The borrow
//! step proves this structurally, by scanning the transaction's ordered
//! operation list for the matching repay, and the host's all-or-nothing
//! execution turns that structural fact into an actual repayment guarantee.
//!
//! The crate holds the decision logic only: share pricing, fee arithmetic,
//! the pool state machine, and the instruction scan. Account provisioning,
//! token transfers and signature checks belong to the surrounding host.

use vstd::prelude::*;

pub mod calc;
pub mod digest;
pub mod encoding;
pub mod fee;
pub mod ops;
pub mod scan;
pub mod state;

verus! {

/// Identity of an externally held account: a registry, pool, mint, token
/// account or program. The logic only ever compares identities for equality.
pub type AccountId = u64;

/// Every way an operation of the facility can fail. Any error aborts the
/// enclosing transaction; no partial state survives.
#[derive(Clone, Copy, Debug, PartialEq, Eq, Structural)]
pub enum FlashLoanError {
    /// The scan reached the end of the transaction without finding a repay
    /// for the borrowed pool.
    NoRepay,
    /// A repay for the borrowed pool was found, but for the wrong amount.
    IncorrectRepay,
    /// Borrow was invoked indirectly (nested call) rather than top-level.
    CpiBorrow,
    /// Repay was invoked indirectly (nested call) rather than top-level.
    CpiRepay,
    /// The pool is lent out; deposits and withdrawals must wait.
    Borrowing,
    /// Arithmetic overflow in fee or share math.
    CalculationFailure,
}

} // verus!
