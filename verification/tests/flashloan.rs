use flashloan::FlashLoanError;
use flashloan::calc::{shares_from_value, value_from_shares};
use flashloan::digest::{encode_repay_data, repay_discriminator};
use flashloan::fee::Fee;
use flashloan::ops::{
    add_pool, borrow, deposit, initialize, mint_voucher, repay, withdraw, AddPool, Borrow,
    BorrowEvent, Deposit, DepositEvent, Initialize, MintVoucher, Repay, RepayEvent, Withdraw,
    WithdrawEvent,
};
use flashloan::scan::InstructionRecord;
use flashloan::state::Pool;

const PROGRAM: u64 = 9001;
const REGISTRY: u64 = 1;
const AUTHORITY: u64 = 2;
const TOKEN_MINT: u64 = 3;
const POOL_TOKEN: u64 = 4;
const LP_MINT: u64 = 5;
const POOL_KEY: u64 = 6;

fn sample_pool(borrowing: bool, basis_points: u32) -> Pool {
    Pool {
        bump: 255,
        borrowing,
        fee: Fee::from_basis_points(basis_points),
        token_mint: TOKEN_MINT,
        pool_token: POOL_TOKEN,
        lp_token_mint: LP_MINT,
    }
}

fn plain_instruction(program_id: u64) -> InstructionRecord {
    InstructionRecord { program_id, accounts: vec![REGISTRY, AUTHORITY], data: vec![0u8; 8] }
}

fn repay_instruction(pool_key: u64, amount: u64) -> InstructionRecord {
    InstructionRecord {
        program_id: PROGRAM,
        accounts: vec![REGISTRY, AUTHORITY, pool_key, POOL_TOKEN],
        data: encode_repay_data(amount),
    }
}

// ---- share pricing ----------------------------------------------------------

#[test]
fn first_deposit_is_one_to_one() {
    assert_eq!(shares_from_value(7, 0, 0), Ok(7));
    assert_eq!(shares_from_value(100, 500, 0), Ok(100));
    assert_eq!(shares_from_value(0, 0, 0), Ok(0));
}

#[test]
fn deposit_example_values() {
    // reserve=1000, supply=1000, deposit=100 -> shares=100
    assert_eq!(shares_from_value(100, 1000, 1000), Ok(100));
}

#[test]
fn withdraw_example_values() {
    // reserve=1100, supply=1100, withdraw shares=550 -> tokens=550
    assert_eq!(value_from_shares(550, 1100, 1100), Ok(550));
}

#[test]
fn shares_round_down() {
    // 100 * 1000 / 333 = 300.3 -> 300
    assert_eq!(shares_from_value(100, 333, 1000), Ok(300));
    // withdrawing those shares pays back at most the deposit: 300*333/1000 = 99
    assert_eq!(value_from_shares(300, 333, 1000), Ok(99));
}

#[test]
fn shares_zero_reserve_with_supply_fails() {
    assert_eq!(shares_from_value(10, 0, 5), Err(FlashLoanError::CalculationFailure));
}

#[test]
fn shares_overflow_fails() {
    assert_eq!(shares_from_value(u64::MAX, 1, 2), Err(FlashLoanError::CalculationFailure));
}

#[test]
fn value_zero_supply_fails() {
    assert_eq!(value_from_shares(5, 100, 0), Err(FlashLoanError::CalculationFailure));
}

#[test]
fn value_overflow_fails() {
    assert_eq!(value_from_shares(u64::MAX, u64::MAX, 1), Err(FlashLoanError::CalculationFailure));
}

// ---- fee --------------------------------------------------------------------

#[test]
fn fee_example_values() {
    // 30 basis points (0.3%) on 10000 -> 30, expected repay 10030
    let fee = Fee::from_basis_points(30);
    assert_eq!(fee.apply(10_000), 30);
    assert_eq!(10_000 + fee.apply(10_000), 10_030);
}

#[test]
fn fee_rounds_down() {
    let fee = Fee::from_basis_points(30);
    assert_eq!(fee.apply(100), 0);
    assert_eq!(fee.apply(9_999), 29);
}

#[test]
fn fee_monotonic_on_samples() {
    let fee = Fee::from_basis_points(30);
    let mut last: u64 = 0;
    for amount in [0u64, 1, 333, 9_999, 10_000, 123_456_789] {
        let charged = fee.apply(amount);
        assert!(charged >= last);
        assert!(charged <= amount);
        last = charged;
    }
}

#[test]
fn fee_extremes() {
    assert_eq!(Fee::from_basis_points(0).apply(123_456), 0);
    assert_eq!(Fee::from_basis_points(10_000).apply(123_456), 123_456);
    assert_eq!(Fee::from_basis_points(10_000).apply(u64::MAX), u64::MAX);
}

// ---- wire format ------------------------------------------------------------

#[test]
fn repay_discriminator_matches_sha256_of_tag() {
    // sha256("global:repay") = ea674352d0eadba6...; first eight bytes big-endian.
    assert_eq!(repay_discriminator(), 0xea674352d0eadba6);
}

#[test]
fn repay_data_layout() {
    let data = encode_repay_data(10_030);
    assert_eq!(data.len(), 16);
    assert_eq!(&data[..8], &[0xea, 0x67, 0x43, 0x52, 0xd0, 0xea, 0xdb, 0xa6]);
    assert_eq!(&data[8..], &[0x2e, 0x27, 0, 0, 0, 0, 0, 0]);
}

// ---- registry and pool lifecycle -------------------------------------------

#[test]
fn initialize_records_authority_and_fee() {
    let registry = initialize(
        &Initialize { token_authority_bump: 254, authority: AUTHORITY },
        30,
    );
    assert_eq!(registry.token_authority_bump, 254);
    assert_eq!(registry.authority, AUTHORITY);
    assert_eq!(registry.fee, Fee::from_basis_points(30));
}

#[test]
fn add_pool_starts_idle_with_inherited_fee() {
    let registry = initialize(
        &Initialize { token_authority_bump: 254, authority: AUTHORITY },
        30,
    );
    let pool = add_pool(&AddPool {
        flashloan: registry,
        bump: 253,
        token_mint: TOKEN_MINT,
        pool_token: POOL_TOKEN,
        lp_token_mint: LP_MINT,
    });
    assert!(!pool.borrowing);
    assert_eq!(pool.bump, 253);
    assert_eq!(pool.fee, Fee::from_basis_points(30));
    assert_eq!(pool.token_mint, TOKEN_MINT);
    assert_eq!(pool.pool_token, POOL_TOKEN);
    assert_eq!(pool.lp_token_mint, LP_MINT);
}

#[test]
fn mint_voucher_does_nothing() {
    assert_eq!(mint_voucher(&MintVoucher {}), Ok(()));
}

// ---- deposit / withdraw -----------------------------------------------------

#[test]
fn deposit_mints_shares() {
    let ctx = Deposit { pool: sample_pool(false, 30), pool_reserve: 1000, share_supply: 1000 };
    assert_eq!(
        deposit(&ctx, 100),
        Ok(DepositEvent { token_mint: TOKEN_MINT, token_amount: 100, lp_amount: 100 })
    );
}

#[test]
fn deposit_rejected_while_borrowing() {
    let ctx = Deposit { pool: sample_pool(true, 30), pool_reserve: 1000, share_supply: 1000 };
    assert_eq!(deposit(&ctx, 100), Err(FlashLoanError::Borrowing));
}

#[test]
fn withdraw_pays_out_share_value() {
    let ctx = Withdraw { pool: sample_pool(false, 30), pool_reserve: 1100, share_supply: 1100 };
    assert_eq!(
        withdraw(&ctx, 550),
        Ok(WithdrawEvent { token_mint: TOKEN_MINT, token_amount: 550, lp_amount: 550 })
    );
}

#[test]
fn withdraw_rejected_while_borrowing() {
    let ctx = Withdraw { pool: sample_pool(true, 30), pool_reserve: 1100, share_supply: 1100 };
    assert_eq!(withdraw(&ctx, 550), Err(FlashLoanError::Borrowing));
}

// ---- borrow / repay protocol ------------------------------------------------

fn borrow_ctx(instructions: Vec<InstructionRecord>) -> Borrow {
    Borrow {
        pool: sample_pool(false, 30),
        pool_key: POOL_KEY,
        program_id: PROGRAM,
        instructions,
        current_index: 0,
    }
}

#[test]
fn borrow_with_queued_repay_succeeds_and_repay_returns_pool_to_idle() {
    let instructions = vec![
        plain_instruction(PROGRAM),
        plain_instruction(7777),  // unrelated operation in between is skipped
        repay_instruction(POOL_KEY, 10_030),
    ];
    let mut ctx = borrow_ctx(instructions);
    let idle = ctx.pool;
    assert_eq!(
        borrow(&mut ctx, 10_000),
        Ok(BorrowEvent { token_mint: TOKEN_MINT, amount: 10_000 })
    );
    assert!(ctx.pool.borrowing);

    let mut rctx = Repay {
        pool: ctx.pool,
        program_id: PROGRAM,
        instructions: vec![plain_instruction(PROGRAM)],
        current_index: 0,
    };
    assert_eq!(
        repay(&mut rctx, 10_030),
        Ok(RepayEvent { token_mint: TOKEN_MINT, amount: 10_030 })
    );
    assert!(!rctx.pool.borrowing);
    assert_eq!(rctx.pool, idle);
}

#[test]
fn borrow_without_repay_fails() {
    let instructions = vec![
        plain_instruction(PROGRAM),
        plain_instruction(7777),
        repay_instruction(8888, 10_030),  // repay, but for another pool
    ];
    let mut ctx = borrow_ctx(instructions);
    assert_eq!(borrow(&mut ctx, 10_000), Err(FlashLoanError::NoRepay));
    assert!(!ctx.pool.borrowing);
}

#[test]
fn borrow_with_wrong_repay_amount_fails() {
    // The first repay for this pool carries the wrong amount; a correct one
    // for a different pool, and even one for the same pool, come later.
    let instructions = vec![
        plain_instruction(PROGRAM),
        repay_instruction(POOL_KEY, 9_999),
        repay_instruction(8888, 10_030),
        repay_instruction(POOL_KEY, 10_030),
    ];
    let mut ctx = borrow_ctx(instructions);
    assert_eq!(borrow(&mut ctx, 10_000), Err(FlashLoanError::IncorrectRepay));
    assert!(!ctx.pool.borrowing);
}

#[test]
fn borrow_rejected_when_nested() {
    let instructions = vec![
        plain_instruction(5555),  // the executing entry names another program
        repay_instruction(POOL_KEY, 10_030),
    ];
    let mut ctx = borrow_ctx(instructions);
    assert_eq!(borrow(&mut ctx, 10_000), Err(FlashLoanError::CpiBorrow));
}

#[test]
fn borrow_rejected_while_borrowing() {
    let instructions = vec![plain_instruction(PROGRAM), repay_instruction(POOL_KEY, 10_030)];
    let mut ctx = borrow_ctx(instructions);
    ctx.pool.borrowing = true;
    assert_eq!(borrow(&mut ctx, 10_000), Err(FlashLoanError::Borrowing));
}

#[test]
fn borrow_fee_overflow_fails() {
    // 100% fee on the largest amount: principal plus fee exceeds the width.
    let instructions = vec![
        plain_instruction(PROGRAM),
        repay_instruction(POOL_KEY, u64::MAX),
    ];
    let mut ctx = borrow_ctx(instructions);
    ctx.pool.fee = Fee::from_basis_points(10_000);
    assert_eq!(borrow(&mut ctx, u64::MAX), Err(FlashLoanError::CalculationFailure));
}

#[test]
fn repay_rejected_when_nested() {
    let mut rctx = Repay {
        pool: sample_pool(true, 30),
        program_id: PROGRAM,
        instructions: vec![plain_instruction(5555)],
        current_index: 0,
    };
    assert_eq!(repay(&mut rctx, 10_030), Err(FlashLoanError::CpiRepay));
    assert!(rctx.pool.borrowing);
}

#[test]
fn standalone_repay_clears_the_flag() {
    // A repay with no preceding borrow still sets the pool idle; the
    // borrow-side scan alone guards the protocol.
    let mut rctx = Repay {
        pool: sample_pool(true, 30),
        program_id: PROGRAM,
        instructions: vec![plain_instruction(PROGRAM)],
        current_index: 0,
    };
    assert_eq!(
        repay(&mut rctx, 5),
        Ok(RepayEvent { token_mint: TOKEN_MINT, amount: 5 })
    );
    assert!(!rctx.pool.borrowing);
}

#[test]
fn borrow_skips_short_entries() {
    // Entries too short to carry a discriminator or an amount never match.
    let short = InstructionRecord { program_id: PROGRAM, accounts: vec![], data: vec![] };
    let instructions = vec![
        plain_instruction(PROGRAM),
        short,
        repay_instruction(POOL_KEY, 10_030),
    ];
    let mut ctx = borrow_ctx(instructions);
    assert_eq!(
        borrow(&mut ctx, 10_000),
        Ok(BorrowEvent { token_mint: TOKEN_MINT, amount: 10_000 })
    );
}
