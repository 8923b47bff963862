//! The platform fee.

use vstd::prelude::*;
use crate::rules::platform_fee;

verus! {

/// Splitting off whole multiples of the divisor does not change the
/// remaining quotient.
proof fn lemma_split_quotient(q: int, r: int, f: int)
    requires
        0 <= q,
        0 <= r,
        0 <= f,
    ensures
        (q * 10000 + r) * f / 10000 == q * f + r * f / 10000,
{
    assert((q * 10000 + r) * f == (q * f) * 10000 + r * f) by (nonlinear_arith);
    assert(0 <= r * f) by (nonlinear_arith)
        requires
            0 <= r,
            0 <= f,
    ;
    vstd::arithmetic::div_mod::lemma_hoist_over_denominator(r * f, q * f, 10000);
}

/// The fee on `total` at `fee_bps` basis points: `total * fee_bps / 10000`,
/// rounded down. It is computed without an intermediate product that could
/// leave the 128-bit range, so it is exact for every `total`.
pub fn fee_amount(total: i128, fee_bps: u32) -> (fee: i128)
    requires
        0 <= total,
        fee_bps <= 10000,
    ensures
        fee == platform_fee(total as int, fee_bps as int),
        0 <= fee <= total,
{
    let rate: i128 = fee_bps as i128;
    let whole: i128 = total / 10000;
    let rest: i128 = total % 10000;
    proof {
        lemma_split_quotient(whole as int, rest as int, rate as int);
        assert(0 <= whole * rate <= whole * 10000) by (nonlinear_arith)
            requires
                0 <= whole,
                0 <= rate <= 10000,
        ;
        assert(0 <= rest * rate <= rest * 10000) by (nonlinear_arith)
            requires
                0 <= rest,
                0 <= rate <= 10000,
        ;
        assert(rest * rate / 10000 <= rest) by (nonlinear_arith)
            requires
                0 <= rest * rate <= rest * 10000,
        ;
    }
    whole * rate + rest * rate / 10000
}

} // verus!
