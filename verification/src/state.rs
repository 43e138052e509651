//! Persisted records: the registry and its per-token pools.

use vstd::prelude::*;
use crate::AccountId;
use crate::fee::Fee;

verus! {

/// The registry record, one per deployment: the administrator's identity,
/// the derivation salt of the custody authority, and the fee schedule that
/// new pools inherit. All fields are set at creation and never change.
#[derive(Clone, Copy, Debug, PartialEq, Eq, Structural)]
pub struct FlashLoan {
    pub token_authority_bump: u8,
    pub authority: AccountId,
    pub fee: Fee,
}

impl FlashLoan {
    pub open spec fn wf(self) -> bool {
        self.fee.wf()
    }
}

/// A per-token pool record. `borrowing` is the pool's only mutable runtime
/// state: it is the single-slot lock that keeps at most one loan outstanding
/// and blocks deposits and withdrawals while the reserve is lent out.
#[derive(Clone, Copy, Debug, PartialEq, Eq, Structural)]
pub struct Pool {
    pub bump: u8,
    pub borrowing: bool,
    pub fee: Fee,
    pub token_mint: AccountId,
    pub pool_token: AccountId,
    pub lp_token_mint: AccountId,
}

impl Pool {
    pub open spec fn wf(self) -> bool {
        self.fee.wf()
    }
}

/// The pool once a loan is taken: lent out, everything else untouched.
pub open spec fn pool_after_borrow(p: Pool) -> Pool {
    Pool { borrowing: true, ..p }
}

/// The pool once a loan is repaid: idle again, everything else untouched.
pub open spec fn pool_after_repay(p: Pool) -> Pool {
    Pool { borrowing: false, ..p }
}

/// Repaying right after borrowing returns an idle pool to its exact prior
/// state: the two transitions cancel.
pub proof fn lemma_borrow_repay_cancel(p: Pool)
    requires
        !p.borrowing,
    ensures
        pool_after_repay(pool_after_borrow(p)) == p,
{
}

} // verus!
