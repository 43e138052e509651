//! The operations layer: what each submitted operation decides and records.
//!
//! Each operation works on a context of plain values read from the accounts
//! the host passed in, and returns the event to record; the host performs the
//! token transfers the event describes. Any error aborts the enclosing
//! transaction, so no mutation ever needs undoing.

use vstd::prelude::*;
use crate::{AccountId, FlashLoanError};
use crate::calc::{shares_from_value, spec_shares_from_value, spec_value_from_shares, value_from_shares};
use crate::digest::{repay_discriminator, spec_repay_discriminator};
use crate::fee::Fee;
use crate::scan::{InstructionRecord, find_repay, is_repay_for_pool, scan_spec, spec_amount_of};
use crate::state::{FlashLoan, Pool, pool_after_borrow, pool_after_repay};

verus! {

/// What creating a registry needs: the custody authority's derivation salt
/// and the administrator to record.
pub struct Initialize {
    pub token_authority_bump: u8,
    pub authority: AccountId,
}

/// What provisioning a pool needs: the registry whose fee it inherits, its
/// own derivation salt, and the identities of its token accounts.
pub struct AddPool {
    pub flashloan: FlashLoan,
    pub bump: u8,
    pub token_mint: AccountId,
    pub pool_token: AccountId,
    pub lp_token_mint: AccountId,
}

/// What a deposit consults: the pool record and the live reserve and share
/// supply, read before the deposited tokens land.
pub struct Deposit {
    pub pool: Pool,
    pub pool_reserve: u64,
    pub share_supply: u64,
}

/// What a withdrawal consults: the pool record and the live reserve and
/// share supply, read before the payout leaves.
pub struct Withdraw {
    pub pool: Pool,
    pub pool_reserve: u64,
    pub share_supply: u64,
}

/// The voucher operation carries no state.
pub struct MintVoucher {}

/// What a borrow consults: the pool record, the pool account's own identity,
/// this program's identity, and the enclosing transaction's ordered operation
/// list with the borrow's position in it.
pub struct Borrow {
    pub pool: Pool,
    pub pool_key: AccountId,
    pub program_id: AccountId,
    pub instructions: Vec<InstructionRecord>,
    pub current_index: usize,
}

/// What a repay consults: the pool record, this program's identity, and the
/// transaction's operation list with the repay's position in it.
pub struct Repay {
    pub pool: Pool,
    pub program_id: AccountId,
    pub instructions: Vec<InstructionRecord>,
    pub current_index: usize,
}

#[derive(Clone, Copy, Debug, PartialEq, Eq, Structural)]
pub struct DepositEvent {
    pub token_mint: AccountId,
    pub token_amount: u64,
    pub lp_amount: u64,
}

#[derive(Clone, Copy, Debug, PartialEq, Eq, Structural)]
pub struct WithdrawEvent {
    pub token_mint: AccountId,
    pub token_amount: u64,
    pub lp_amount: u64,
}

#[derive(Clone, Copy, Debug, PartialEq, Eq, Structural)]
pub struct BorrowEvent {
    pub token_mint: AccountId,
    pub amount: u64,
}

#[derive(Clone, Copy, Debug, PartialEq, Eq, Structural)]
pub struct RepayEvent {
    pub token_mint: AccountId,
    pub amount: u64,
}

/// Create the registry record. The caller of the host-level operation
/// becomes the administrator; the fee schedule is fixed here and inherited
/// by every pool added later.
pub fn initialize(ctx: &Initialize, basis_points: u32) -> (r: FlashLoan)
    requires
        basis_points <= 10000,
    ensures
        r == (FlashLoan {
            token_authority_bump: ctx.token_authority_bump,
            authority: ctx.authority,
            fee: Fee { basis_points },
        }),
        r.wf(),
{
    FlashLoan {
        token_authority_bump: ctx.token_authority_bump,
        authority: ctx.authority,
        fee: Fee::from_basis_points(basis_points),
    }
}

/// Provision the pool record for one token mint: idle, with the registry's
/// current fee. The host checks that the registry's administrator signed.
pub fn add_pool(ctx: &AddPool) -> (r: Pool)
    ensures
        r == (Pool {
            bump: ctx.bump,
            borrowing: false,
            fee: ctx.flashloan.fee,
            token_mint: ctx.token_mint,
            pool_token: ctx.pool_token,
            lp_token_mint: ctx.lp_token_mint,
        }),
        ctx.flashloan.wf() ==> r.wf(),
        !r.borrowing,
{
    Pool {
        bump: ctx.bump,
        borrowing: false,
        fee: ctx.flashloan.fee,
        token_mint: ctx.token_mint,
        pool_token: ctx.pool_token,
        lp_token_mint: ctx.lp_token_mint,
    }
}

/// What a deposit of `amount` decides: rejected while the pool is lent out,
/// otherwise the shares priced against the pre-deposit reserve and supply.
pub open spec fn spec_deposit(ctx: Deposit, amount: u64) -> Result<DepositEvent, FlashLoanError> {
    if ctx.pool.borrowing {
        Err(FlashLoanError::Borrowing)
    } else {
        match spec_shares_from_value(amount, ctx.pool_reserve, ctx.share_supply) {
            Ok(shares) => Ok(
                DepositEvent {
                    token_mint: ctx.pool.token_mint,
                    token_amount: amount,
                    lp_amount: shares,
                },
            ),
            Err(e) => Err(e),
        }
    }
}

/// Take `amount` tokens into the pool and mint the matching shares. The
/// event tells the host to move `token_amount` into custody and mint
/// `lp_amount` shares to the depositor.
pub fn deposit(ctx: &Deposit, amount: u64) -> (r: Result<DepositEvent, FlashLoanError>)
    ensures
        r == spec_deposit(*ctx, amount),
        ctx.pool.borrowing ==> r == Err::<DepositEvent, FlashLoanError>(FlashLoanError::Borrowing),
{
    if ctx.pool.borrowing {
        return Err(FlashLoanError::Borrowing);
    }
    let shares = match shares_from_value(amount, ctx.pool_reserve, ctx.share_supply) {
        Ok(shares) => shares,
        Err(e) => {
            return Err(e);
        },
    };
    Ok(DepositEvent { token_mint: ctx.pool.token_mint, token_amount: amount, lp_amount: shares })
}

/// What a withdrawal of `amount` shares decides: rejected while the pool is
/// lent out, otherwise the payout priced against the pre-withdraw reserve
/// and supply.
pub open spec fn spec_withdraw(ctx: Withdraw, amount: u64) -> Result<
    WithdrawEvent,
    FlashLoanError,
> {
    if ctx.pool.borrowing {
        Err(FlashLoanError::Borrowing)
    } else {
        match spec_value_from_shares(amount, ctx.pool_reserve, ctx.share_supply) {
            Ok(tokens) => Ok(
                WithdrawEvent {
                    token_mint: ctx.pool.token_mint,
                    token_amount: tokens,
                    lp_amount: amount,
                },
            ),
            Err(e) => Err(e),
        }
    }
}

/// Burn `amount` shares and pay out what they are worth. The event tells the
/// host to burn `lp_amount` shares and move `token_amount` out of custody.
pub fn withdraw(ctx: &Withdraw, amount: u64) -> (r: Result<WithdrawEvent, FlashLoanError>)
    ensures
        r == spec_withdraw(*ctx, amount),
        ctx.pool.borrowing ==> r == Err::<WithdrawEvent, FlashLoanError>(FlashLoanError::Borrowing),
{
    if ctx.pool.borrowing {
        return Err(FlashLoanError::Borrowing);
    }
    let tokens = match value_from_shares(amount, ctx.pool_reserve, ctx.share_supply) {
        Ok(tokens) => tokens,
        Err(e) => {
            return Err(e);
        },
    };
    Ok(WithdrawEvent { token_mint: ctx.pool.token_mint, token_amount: tokens, lp_amount: amount })
}

/// The voucher operation does nothing.
pub fn mint_voucher(_ctx: &MintVoucher) -> (r: Result<(), FlashLoanError>)
    ensures
        r == Ok::<(), FlashLoanError>(()),
{
    Ok(())
}

/// The repayment a borrow of `amount` must find queued: principal plus fee.
pub open spec fn spec_expected_repay(fee: Fee, amount: u64) -> int {
    amount + fee.spec_apply(amount)
}

/// Was the current operation entered top-level? The entry at the executing
/// index must name this program; a nested call from another program shows a
/// different identity there.
pub open spec fn spec_top_level(ctx_instructions: Seq<InstructionRecord>, current: int, program: AccountId) -> bool {
    ctx_instructions[current].program_id == program
}

/// What a borrow of `amount` decides, in order: the pool must be idle, the
/// call must be top-level, principal plus fee must fit the transfer width,
/// and the scan from the next entry must find the matching repay.
pub open spec fn spec_borrow(ctx: Borrow, amount: u64) -> Result<BorrowEvent, FlashLoanError> {
    if ctx.pool.borrowing {
        Err(FlashLoanError::Borrowing)
    } else if !spec_top_level(ctx.instructions@, ctx.current_index as int, ctx.program_id) {
        Err(FlashLoanError::CpiBorrow)
    } else if spec_expected_repay(ctx.pool.fee, amount) > u64::MAX as int {
        Err(FlashLoanError::CalculationFailure)
    } else {
        match scan_spec(
            ctx.instructions@,
            ctx.current_index + 1,
            ctx.program_id,
            spec_repay_discriminator(),
            ctx.pool_key,
            spec_expected_repay(ctx.pool.fee, amount),
        ) {
            Ok(_) => Ok(BorrowEvent { token_mint: ctx.pool.token_mint, amount }),
            Err(e) => Err(e),
        }
    }
}

/// Lend the pool's tokens for the rest of the transaction. Succeeds only if
/// a repay of exactly `amount` plus fee for this pool is already queued later
/// in the transaction; then the pool is lent out and the event tells the host
/// to move `amount` out of custody. On any failure the pool is untouched.
pub fn borrow(ctx: &mut Borrow, amount: u64) -> (r: Result<BorrowEvent, FlashLoanError>)
    requires
        old(ctx).pool.fee.wf(),
        old(ctx).current_index < old(ctx).instructions@.len(),
    ensures
        r == spec_borrow(*old(ctx), amount),
        r is Ok ==> *final(ctx) == (Borrow { pool: pool_after_borrow(old(ctx).pool), ..*old(ctx) }),
        r is Err ==> *final(ctx) == *old(ctx),
        old(ctx).pool.borrowing ==> r == Err::<BorrowEvent, FlashLoanError>(
            FlashLoanError::Borrowing,
        ),
{
    if ctx.pool.borrowing {
        return Err(FlashLoanError::Borrowing);
    }
    // the executable length witnesses that the list, and so the next index,
    // fits the index type
    let _len: usize = ctx.instructions.len();
    if ctx.instructions[ctx.current_index].program_id != ctx.program_id {
        return Err(FlashLoanError::CpiBorrow);
    }
    let fee_amount = ctx.pool.fee.apply(amount);
    if amount > u64::MAX - fee_amount {
        return Err(FlashLoanError::CalculationFailure);
    }
    let expected = amount + fee_amount;
    let discriminator = repay_discriminator();
    let scan = find_repay(
        &ctx.instructions,
        ctx.current_index + 1,
        ctx.program_id,
        discriminator,
        ctx.pool_key,
        expected,
    );
    match scan {
        Ok(_) => {
            ctx.pool.borrowing = true;
            Ok(BorrowEvent { token_mint: ctx.pool.token_mint, amount })
        },
        Err(e) => Err(e),
    }
}

/// What a repay of `amount` decides: only that the call is top-level; the
/// amount itself was already checked by the borrow's scan.
pub open spec fn spec_repay(ctx: Repay, amount: u64) -> Result<RepayEvent, FlashLoanError> {
    if !spec_top_level(ctx.instructions@, ctx.current_index as int, ctx.program_id) {
        Err(FlashLoanError::CpiRepay)
    } else {
        Ok(RepayEvent { token_mint: ctx.pool.token_mint, amount })
    }
}

/// Return `amount` tokens to custody and set the pool idle. A standalone
/// repay with no matching borrow in the transaction also clears the flag and
/// keeps the funds: the borrow-side scan alone guards the protocol, so this
/// only ever donates to the pool. A nested call is rejected with the repay
/// side's own error.
pub fn repay(ctx: &mut Repay, amount: u64) -> (r: Result<RepayEvent, FlashLoanError>)
    requires
        old(ctx).current_index < old(ctx).instructions@.len(),
    ensures
        r == spec_repay(*old(ctx), amount),
        r is Ok ==> *final(ctx) == (Repay { pool: pool_after_repay(old(ctx).pool), ..*old(ctx) }),
        r is Err ==> *final(ctx) == *old(ctx),
{
    if ctx.instructions[ctx.current_index].program_id != ctx.program_id {
        return Err(FlashLoanError::CpiRepay);
    }
    ctx.pool.borrowing = false;
    Ok(RepayEvent { token_mint: ctx.pool.token_mint, amount })
}

/// A borrow whose transaction queues, right behind it, a repay of exactly
/// principal plus fee for the same pool succeeds and lends the pool out; the
/// queued repay then returns the pool to exactly its prior idle state.
pub proof fn lemma_borrow_then_repay(bctx: Borrow, amount: u64, rctx: Repay, repaid: u64)
    requires
        bctx.pool.fee.wf(),
        !bctx.pool.borrowing,
        bctx.current_index + 1 < bctx.instructions@.len(),
        spec_top_level(bctx.instructions@, bctx.current_index as int, bctx.program_id),
        spec_expected_repay(bctx.pool.fee, amount) <= u64::MAX as int,
        is_repay_for_pool(
            bctx.instructions@[bctx.current_index + 1],
            bctx.program_id,
            spec_repay_discriminator(),
            bctx.pool_key,
        ),
        spec_amount_of(bctx.instructions@[bctx.current_index + 1]) == spec_expected_repay(
            bctx.pool.fee,
            amount,
        ),
        rctx.pool == pool_after_borrow(bctx.pool),
        rctx.current_index < rctx.instructions@.len(),
        spec_top_level(rctx.instructions@, rctx.current_index as int, rctx.program_id),
    ensures
        spec_borrow(bctx, amount) == Ok::<BorrowEvent, FlashLoanError>(
            BorrowEvent { token_mint: bctx.pool.token_mint, amount },
        ),
        pool_after_borrow(bctx.pool).borrowing,
        spec_repay(rctx, repaid) == Ok::<RepayEvent, FlashLoanError>(
            RepayEvent { token_mint: bctx.pool.token_mint, amount: repaid },
        ),
        pool_after_repay(rctx.pool) == bctx.pool,
{
    assert(scan_spec(
        bctx.instructions@,
        bctx.current_index + 1,
        bctx.program_id,
        spec_repay_discriminator(),
        bctx.pool_key,
        spec_expected_repay(bctx.pool.fee, amount),
    ) == Ok::<int, FlashLoanError>(bctx.current_index + 1));
}

/// A borrow whose transaction holds no repay for its pool anywhere after it
/// fails with `NoRepay`.
pub proof fn lemma_borrow_no_repay(bctx: Borrow, amount: u64)
    requires
        bctx.pool.fee.wf(),
        !bctx.pool.borrowing,
        bctx.current_index < bctx.instructions@.len(),
        spec_top_level(bctx.instructions@, bctx.current_index as int, bctx.program_id),
        spec_expected_repay(bctx.pool.fee, amount) <= u64::MAX as int,
        forall|k: int|
            bctx.current_index + 1 <= k < bctx.instructions@.len() ==> !is_repay_for_pool(
                #[trigger] bctx.instructions@[k],
                bctx.program_id,
                spec_repay_discriminator(),
                bctx.pool_key,
            ),
    ensures
        spec_borrow(bctx, amount) == Err::<BorrowEvent, FlashLoanError>(FlashLoanError::NoRepay),
{
    crate::scan::lemma_scan_no_match(
        bctx.instructions@,
        bctx.current_index + 1,
        bctx.program_id,
        spec_repay_discriminator(),
        bctx.pool_key,
        spec_expected_repay(bctx.pool.fee, amount),
    );
}

/// If the first repay for the pool after the borrow carries the wrong
/// amount, the borrow fails with `IncorrectRepay` — even if a repay with the
/// right amount, for this pool or another, appears later still.
pub proof fn lemma_borrow_incorrect_repay(bctx: Borrow, amount: u64, j: int)
    requires
        bctx.pool.fee.wf(),
        !bctx.pool.borrowing,
        bctx.current_index < bctx.instructions@.len(),
        spec_top_level(bctx.instructions@, bctx.current_index as int, bctx.program_id),
        spec_expected_repay(bctx.pool.fee, amount) <= u64::MAX as int,
        bctx.current_index + 1 <= j < bctx.instructions@.len(),
        is_repay_for_pool(
            bctx.instructions@[j],
            bctx.program_id,
            spec_repay_discriminator(),
            bctx.pool_key,
        ),
        spec_amount_of(bctx.instructions@[j]) != spec_expected_repay(bctx.pool.fee, amount),
        forall|k: int|
            bctx.current_index + 1 <= k < j ==> !is_repay_for_pool(
                #[trigger] bctx.instructions@[k],
                bctx.program_id,
                spec_repay_discriminator(),
                bctx.pool_key,
            ),
    ensures
        spec_borrow(bctx, amount) == Err::<BorrowEvent, FlashLoanError>(
            FlashLoanError::IncorrectRepay,
        ),
{
    crate::scan::lemma_scan_first_match(
        bctx.instructions@,
        bctx.current_index + 1,
        j,
        bctx.program_id,
        spec_repay_discriminator(),
        bctx.pool_key,
        spec_expected_repay(bctx.pool.fee, amount),
    );
}

} // verus!
