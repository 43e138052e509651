//! The fee schedule: a flat charge in basis points on the borrowed principal.

use vstd::prelude::*;

verus! {

/// A proportional fee, expressed in basis points (1/10000). The charge is
/// rounded down, so it never exceeds the nominal percentage of the principal.
#[derive(Clone, Copy, Debug, Default, PartialEq, Eq, PartialOrd, Ord, Structural)]
pub struct Fee {
    pub basis_points: u32,
}

impl Fee {
    /// A fee schedule never charges more than the whole principal.
    pub open spec fn wf(self) -> bool {
        self.basis_points <= 10000
    }

    /// The fee owed on `amount`: `amount * basis_points / 10000`, rounded down.
    pub open spec fn spec_apply(self, amount: u64) -> int {
        (amount as int) * (self.basis_points as int) / 10000
    }

    pub fn from_basis_points(basis_points: u32) -> (r: Self)
        requires
            basis_points <= 10000,
        ensures
            r == (Fee { basis_points }),
            r.wf(),
    {
        Self { basis_points }
    }

    /// Charge the fee on `amount`. The product is taken in a wider type, so
    /// the computation cannot overflow, and the result never exceeds `amount`.
    pub fn apply(&self, amount: u64) -> (r: u64)
        requires
            self.wf(),
        ensures
            r == self.spec_apply(amount),
            r <= amount,
    {
        proof {
            lemma_fee_le_amount(*self, amount);
            assert((amount as int) * (self.basis_points as int) <= u64::MAX as int * 10000)
                by (nonlinear_arith)
                requires
                    amount <= u64::MAX,
                    self.basis_points <= 10000,
            ;
        }
        ((amount as u128) * (self.basis_points as u128) / 10_000u128) as u64
    }
}

/// Within a valid schedule the fee never exceeds the principal itself.
pub proof fn lemma_fee_le_amount(fee: Fee, amount: u64)
    requires
        fee.wf(),
    ensures
        0 <= fee.spec_apply(amount) <= amount,
{
    let a = amount as int;
    let bp = fee.basis_points as int;
    vstd::arithmetic::mul::lemma_mul_nonnegative(a, bp);
    vstd::arithmetic::div_mod::lemma_div_pos_is_pos(a * bp, 10000);
    vstd::arithmetic::mul::lemma_mul_inequality(bp, 10000, a);
    vstd::arithmetic::mul::lemma_mul_is_commutative(a, bp);
    vstd::arithmetic::mul::lemma_mul_is_commutative(a, 10000);
    vstd::arithmetic::div_mod::lemma_div_is_ordered(a * bp, a * 10000, 10000);
    vstd::arithmetic::div_mod::lemma_div_by_multiple(a, 10000);
}

/// The fee is monotonic: a larger principal is never charged less.
pub proof fn lemma_fee_monotonic(fee: Fee, a: u64, b: u64)
    requires
        a <= b,
    ensures
        fee.spec_apply(a) <= fee.spec_apply(b),
{
    let bp = fee.basis_points as int;
    vstd::arithmetic::mul::lemma_mul_inequality(a as int, b as int, bp);
    vstd::arithmetic::mul::lemma_mul_is_commutative(a as int, bp);
    vstd::arithmetic::mul::lemma_mul_is_commutative(b as int, bp);
    vstd::arithmetic::div_mod::lemma_div_is_ordered((a as int) * bp, (b as int) * bp, 10000);
}

/// The fee stays under the cap: with at most `bp_max` basis points the charge
/// is at most `amount * bp_max / 10000`.
pub proof fn lemma_fee_bound(fee: Fee, amount: u64, bp_max: u32)
    requires
        fee.basis_points <= bp_max,
    ensures
        fee.spec_apply(amount) <= (amount as int) * (bp_max as int) / 10000,
{
    let a = amount as int;
    vstd::arithmetic::mul::lemma_mul_inequality(fee.basis_points as int, bp_max as int, a);
    vstd::arithmetic::mul::lemma_mul_is_commutative(a, fee.basis_points as int);
    vstd::arithmetic::mul::lemma_mul_is_commutative(a, bp_max as int);
    vstd::arithmetic::div_mod::lemma_div_is_ordered(
        a * (fee.basis_points as int),
        a * (bp_max as int),
        10000,
    );
}

} // verus!
