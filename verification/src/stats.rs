//! Read-only aggregates over a campaign.

use vstd::prelude::*;

verus! {

/// Aggregates derived from the current state of a campaign.
#[derive(Clone, Copy, Debug, PartialEq, Eq, Structural)]
pub struct CampaignStats {
    /// Total amount raised so far.
    pub total_raised: i128,
    /// The funding goal.
    pub goal: i128,
    /// Progress towards the goal in basis points (10000 = 100%).
    pub progress_bps: u32,
    /// Number of contributors.
    pub contributor_count: usize,
    /// Average contribution amount.
    pub average_contribution: i128,
    /// Largest contribution amount.
    pub largest_contribution: i128,
}

/// Progress towards `goal` in basis points: `total_raised * 10000 / goal`,
/// rounded down and capped at 10000; zero where there is no goal.
pub open spec fn progress_bps(total_raised: int, goal: int) -> int {
    if goal <= 0 {
        0
    } else if total_raised * 10000 / goal > 10000 {
        10000
    } else {
        total_raised * 10000 / goal
    }
}

/// The average contribution: the total divided by the number of
/// contributors, rounded down; zero where there are none.
pub open spec fn average(total_raised: int, contributors: int) -> int {
    if contributors <= 0 {
        0
    } else {
        total_raised / contributors
    }
}

/// At or past the goal the quotient reaches 10000.
proof fn lemma_full(total_raised: int, goal: int)
    requires
        0 < goal <= total_raised,
    ensures
        total_raised * 10000 / goal >= 10000,
{
    assert(total_raised * 10000 >= goal * 10000) by (nonlinear_arith)
        requires
            goal <= total_raised,
    ;
    vstd::arithmetic::div_mod::lemma_div_is_ordered(goal * 10000, total_raised * 10000, goal);
    vstd::arithmetic::div_mod::lemma_div_multiples_vanish(10000, goal);
    assert(goal * 10000 == 10000 * goal) by (nonlinear_arith);
}

/// A quotient is below its multiplier where the dividend is below the
/// divisor.
proof fn lemma_quotient_below(a: int, g: int, k: int, q: int, r: int)
    requires
        0 <= a < g,
        0 <= k,
        0 <= q,
        0 <= r,
        a * k == q * g + r,
    ensures
        q <= k,
        k > 0 ==> q < k,
{
    if q >= k && k > 0 {
        assert(q * g >= k * g) by (nonlinear_arith)
            requires
                q >= k,
                g > 0,
        ;
        assert(a * k < g * k) by (nonlinear_arith)
            requires
                a < g,
                k > 0,
        ;
        assert(k * g == g * k) by (nonlinear_arith);
    }
    if k == 0 {
        assert(a * k == 0) by (nonlinear_arith)
            requires
                k == 0,
        ;
        assert(q * g >= q) by (nonlinear_arith)
            requires
                q >= 0,
                g >= 1,
        ;
    }
}

/// `a * 10000 / g` for a dividend below the divisor, by binary long
/// multiplication: no intermediate value leaves the 128-bit range.
fn scaled_quotient(a: u128, g: u128) -> (q: u128)
    requires
        a < g <= i128::MAX,
    ensures
        q == a * 10000 / (g as int),
        q < 10000,
{
    let mut rest: u32 = 10000;
    let ghost mut weight: int = 1;
    let ghost mut done: int = 0;
    // a * weight == step_q * g + step_r
    let mut step_q: u128 = 0;
    let mut step_r: u128 = a;
    // a * done == q * g + r
    let mut q: u128 = 0;
    let mut r: u128 = 0;
    assert(a * 1 == 0 * g + a) by (nonlinear_arith);
    assert(a * 0 == 0 * g + 0) by (nonlinear_arith);
    while rest > 0
        invariant
            a < g <= i128::MAX,
            rest <= 10000,
            1 <= weight <= 20000,
            0 <= done <= 10000,
            10000 == rest * weight + done,
            a * weight == step_q * g + step_r,
            step_r < g,
            step_q <= weight,
            a * done == q * g + r,
            r < g,
            q <= done,
        decreases rest,
    {
        let ghost bit: int = (rest % 2) as int;
        let ghost half: int = (rest / 2) as int;
        assert(rest * weight >= weight) by (nonlinear_arith)
            requires
                rest >= 1,
                weight >= 1,
        ;
        assert(half * (2 * weight) + (done + bit * weight) == rest * weight + done)
            by (nonlinear_arith)
            requires
                rest == 2 * half + bit,
        ;
        assert(bit * weight == if bit == 1 { weight } else { 0 }) by (nonlinear_arith)
            requires
                bit == 0 || bit == 1,
        ;
        if rest % 2 == 1 {
            assert(a * (done + weight) == (q + step_q) * g + (r + step_r)) by (nonlinear_arith)
                requires
                    a * weight == step_q * g + step_r,
                    a * done == q * g + r,
            ;
            q = q + step_q;
            r = r + step_r;
            if r >= g {
                assert(a * (done + weight) == (q + 1) * g + (r - g)) by (nonlinear_arith)
                    requires
                        a * (done + weight) == q * g + r,
                ;
                r = r - g;
                q = q + 1;
            }
            proof {
                done = done + weight;
                lemma_quotient_below(a as int, g as int, done, q as int, r as int);
            }
        }
        assert(a * (2 * weight) == (2 * step_q) * g + (2 * step_r)) by (nonlinear_arith)
            requires
                a * weight == step_q * g + step_r,
        ;
        step_q = 2 * step_q;
        step_r = 2 * step_r;
        if step_r >= g {
            assert(a * (2 * weight) == (step_q + 1) * g + (step_r - g)) by (nonlinear_arith)
                requires
                    a * (2 * weight) == step_q * g + step_r,
            ;
            step_r = step_r - g;
            step_q = step_q + 1;
        }
        proof {
            weight = 2 * weight;
            lemma_quotient_below(a as int, g as int, weight, step_q as int, step_r as int);
        }
        rest = rest / 2;
    }
    proof {
        assert(rest * weight == 0) by (nonlinear_arith)
            requires
                rest == 0,
        ;
        lemma_quotient_below(a as int, g as int, 10000, q as int, r as int);
        vstd::arithmetic::div_mod::lemma_fundamental_div_mod_converse(
            a * 10000,
            g as int,
            q as int,
            r as int,
        );
    }
    q
}

/// Progress towards `goal` in basis points. It is exact for every total and
/// every goal.
pub fn progress(total_raised: i128, goal: i128) -> (r: u32)
    requires
        0 <= total_raised,
    ensures
        r == progress_bps(total_raised as int, goal as int),
        r <= 10000,
{
    if goal <= 0 {
        0
    } else if total_raised >= goal {
        proof {
            lemma_full(total_raised as int, goal as int);
        }
        10000
    } else {
        let q: u128 = scaled_quotient(total_raised as u128, goal as u128);
        q as u32
    }
}

/// The average of `contributors` contributions that sum to `total_raised`.
pub fn average_contribution(total_raised: i128, contributors: usize) -> (r: i128)
    requires
        0 <= total_raised,
    ensures
        r == average(total_raised as int, contributors as int),
{
    if contributors == 0 {
        0
    } else {
        total_raised / (contributors as i128)
    }
}

} // verus!
