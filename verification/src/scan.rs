//! The instruction scan: the structural search through the transaction's
//! ordered operation list that a borrow uses to prove a matching repay is
//! already queued behind it.

use vstd::prelude::*;
use crate::{AccountId, FlashLoanError};
use crate::encoding::{be64, le64, take8, u64_from_be8, u64_from_le8};

verus! {

/// One operation of the enclosing atomic transaction, as the host exposes it:
/// the program it calls, the accounts it names, and its argument data.
#[derive(Debug)]
pub struct InstructionRecord {
    pub program_id: AccountId,
    pub accounts: Vec<AccountId>,
    pub data: Vec<u8>,
}

/// The discriminator carried in an operation's argument data.
pub open spec fn spec_discriminator_of(ixn: InstructionRecord) -> int
    recommends
        ixn.data@.len() >= 8,
{
    be64(ixn.data@.take(8))
}

/// The amount carried in an operation's argument data.
pub open spec fn spec_amount_of(ixn: InstructionRecord) -> int
    recommends
        ixn.data@.len() >= 16,
{
    le64(ixn.data@.subrange(8, 16))
}

/// Position of the pool account in a repay operation's account list.
pub open spec fn spec_pool_account_index() -> int {
    2
}

/// Does `ixn` repay the pool at account `pool`? It must call this program,
/// open with the repay discriminator, be long enough to carry an amount, and
/// name the pool in the repay position of its account list. An entry too
/// short for a discriminator, an amount or the pool account cannot have been
/// produced by this program's encoder and never matches.
pub open spec fn is_repay_for_pool(
    ixn: InstructionRecord,
    program: AccountId,
    discriminator: int,
    pool: AccountId,
) -> bool {
    &&& ixn.program_id == program
    &&& ixn.data@.len() >= 16
    &&& spec_discriminator_of(ixn) == discriminator
    &&& ixn.accounts@.len() > spec_pool_account_index()
    &&& ixn.accounts@[spec_pool_account_index()] == pool
}

/// What the forward scan starting at entry `i` returns: the index of the
/// first repay for the pool if its amount is exactly `expected`; an
/// incorrect-repay failure if that first repay carries any other amount (the
/// slot is reserved for this borrow, a mismatch is fatal, not skippable); and
/// a no-repay failure if the list ends without any repay for the pool.
/// Unrelated entries in between are skipped.
pub open spec fn scan_spec(
    ixns: Seq<InstructionRecord>,
    i: int,
    program: AccountId,
    discriminator: int,
    pool: AccountId,
    expected: int,
) -> Result<int, FlashLoanError>
    decreases ixns.len() - i,
{
    if i < 0 || i >= ixns.len() {
        Err(FlashLoanError::NoRepay)
    } else if is_repay_for_pool(ixns[i], program, discriminator, pool) {
        if spec_amount_of(ixns[i]) == expected {
            Ok(i)
        } else {
            Err(FlashLoanError::IncorrectRepay)
        }
    } else {
        scan_spec(ixns, i + 1, program, discriminator, pool, expected)
    }
}

/// Scan the transaction's operations from `start` for a repay of `pool` for
/// exactly `expected` tokens.
pub fn find_repay(
    ixns: &Vec<InstructionRecord>,
    start: usize,
    program: AccountId,
    discriminator: u64,
    pool: AccountId,
    expected: u64,
) -> (r: Result<usize, FlashLoanError>)
    ensures
        match r {
            Ok(i) => scan_spec(ixns@, start as int, program, discriminator as int, pool, expected as int)
                == Ok::<int, FlashLoanError>(i as int),
            Err(e) => scan_spec(ixns@, start as int, program, discriminator as int, pool, expected as int)
                == Err::<int, FlashLoanError>(e),
        },
{
    let mut idx: usize = start;
    loop
        invariant
            start <= idx,
            scan_spec(ixns@, start as int, program, discriminator as int, pool, expected as int)
                == scan_spec(ixns@, idx as int, program, discriminator as int, pool, expected as int),
        decreases ixns@.len() - idx,
    {
        if idx >= ixns.len() {
            return Err(FlashLoanError::NoRepay);
        }
        let ixn = &ixns[idx];
        let mut matched = false;
        if ixn.program_id == program && ixn.data.len() >= 16 && ixn.accounts.len() > 2 {
            let disc = u64_from_be8(take8(ixn.data.as_slice(), 0));
            proof {
                assert(ixn.data@.subrange(0, 8) =~= ixn.data@.take(8));
            }
            if disc == discriminator && ixn.accounts[2] == pool {
                matched = true;
            }
        }
        if matched {
            assert(is_repay_for_pool(ixns@[idx as int], program, discriminator as int, pool));
            let amount = u64_from_le8(take8(ixn.data.as_slice(), 8));
            if amount == expected {
                return Ok(idx);
            } else {
                return Err(FlashLoanError::IncorrectRepay);
            }
        }
        assert(!is_repay_for_pool(ixns@[idx as int], program, discriminator as int, pool));
        idx = idx + 1;
    }
}

/// If no entry from `i` on repays the pool, the scan fails with `NoRepay`.
pub proof fn lemma_scan_no_match(
    ixns: Seq<InstructionRecord>,
    i: int,
    program: AccountId,
    discriminator: int,
    pool: AccountId,
    expected: int,
)
    requires
        0 <= i,
        forall|k: int|
            i <= k < ixns.len() ==> !is_repay_for_pool(#[trigger] ixns[k], program, discriminator, pool),
    ensures
        scan_spec(ixns, i, program, discriminator, pool, expected) == Err::<
            int,
            FlashLoanError,
        >(FlashLoanError::NoRepay),
    decreases ixns.len() - i,
{
    if i < ixns.len() {
        lemma_scan_no_match(ixns, i + 1, program, discriminator, pool, expected);
    }
}

/// The first repay for the pool decides the scan: with the expected amount
/// the scan succeeds there; with any other amount it fails with
/// `IncorrectRepay`, whatever comes later in the list.
pub proof fn lemma_scan_first_match(
    ixns: Seq<InstructionRecord>,
    i: int,
    j: int,
    program: AccountId,
    discriminator: int,
    pool: AccountId,
    expected: int,
)
    requires
        0 <= i <= j < ixns.len(),
        is_repay_for_pool(ixns[j], program, discriminator, pool),
        forall|k: int|
            i <= k < j ==> !is_repay_for_pool(#[trigger] ixns[k], program, discriminator, pool),
    ensures
        spec_amount_of(ixns[j]) == expected ==> scan_spec(ixns, i, program, discriminator, pool, expected)
            == Ok::<int, FlashLoanError>(j),
        spec_amount_of(ixns[j]) != expected ==> scan_spec(ixns, i, program, discriminator, pool, expected)
            == Err::<int, FlashLoanError>(FlashLoanError::IncorrectRepay),
    decreases j - i,
{
    if i < j {
        lemma_scan_first_match(ixns, i + 1, j, program, discriminator, pool, expected);
    }
}

} // verus!
