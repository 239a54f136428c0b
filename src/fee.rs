use vstd::prelude::*;
use crate::types::Address;

verus! {

/// Fee rates are in basis points: 10 000 is the whole amount.
pub const BASIS_POINTS: i128 = 10_000;

/// The largest fee rate that can be configured (10%).
pub const MAX_FEE_RATE: i128 = 1_000;

/// The global fee settings.
#[derive(Clone, Copy, Debug, PartialEq, Eq, Structural)]
pub struct FeeConfig {
    pub lock_fee_rate: i128,
    pub release_fee_rate: i128,
    pub fee_recipient: Address,
    pub fee_enabled: bool,
}

impl FeeConfig {
    /// Both rates lie in `[0, MAX_FEE_RATE]`.
    pub open spec fn wf(self) -> bool {
        &&& 0 <= self.lock_fee_rate <= MAX_FEE_RATE
        &&& 0 <= self.release_fee_rate <= MAX_FEE_RATE
    }
}

/// Integer division that rounds toward zero, as Rust's `/` does.
pub open spec fn div_toward_zero(x: int, d: int) -> int
    recommends
        d > 0,
{
    if x >= 0 {
        x / d
    } else {
        -((-x) / d)
    }
}

/// The fee on `amount` at `rate` basis points: zero at rate zero, and zero where the
/// product does not fit in an `i128`.
pub open spec fn fee_of(amount: int, rate: int) -> int {
    if rate == 0 {
        0
    } else if amount * rate < i128::MIN || amount * rate > i128::MAX {
        0
    } else {
        div_toward_zero(amount * rate, BASIS_POINTS as int)
    }
}

/// A fee at a configurable rate never exceeds the amount it is taken from.
pub proof fn lemma_fee_bounded(amount: int, rate: int)
    requires
        0 <= amount,
        0 <= rate <= MAX_FEE_RATE,
    ensures
        0 <= fee_of(amount, rate) <= amount,
        amount > 0 ==> fee_of(amount, rate) < amount,
{
    if rate != 0 && !(amount * rate < i128::MIN || amount * rate > i128::MAX) {
        assert(0 <= amount * rate <= amount * 1000) by (nonlinear_arith)
            requires
                0 <= amount,
                0 <= rate <= 1000,
        ;
        assert((amount * rate) / 10000 <= (amount * 1000) / 10000) by (nonlinear_arith)
            requires
                0 <= amount * rate <= amount * 1000,
        ;
        assert((amount * 1000) / 10000 <= amount / 10) by (nonlinear_arith)
            requires
                0 <= amount,
        ;
        assert(0 <= (amount * rate) / 10000) by (nonlinear_arith)
            requires
                0 <= amount * rate,
        ;
    }
}

} // verus!
