//! How far a campaign has come, in hundredths of a percent.

use vstd::prelude::*;
use vstd::arithmetic::div_mod::lemma_fundamental_div_mod_converse;
use crate::model::progress_of;

verus! {

/// Where the goal is reached, the quotient is at least 10000.
proof fn lemma_goal_reached(total_raised: int, goal: int)
    requires
        0 < goal <= total_raised,
    ensures
        total_raised * 10000 / goal >= 10000,
{
    let q = total_raised * 10000 / goal;
    let r = total_raised * 10000 % goal;
    assert(total_raised * 10000 == goal * q + r && 0 <= r < goal) by {
        vstd::arithmetic::div_mod::lemma_fundamental_div_mod(total_raised * 10000, goal);
        vstd::arithmetic::div_mod::lemma_mod_bound(total_raised * 10000, goal);
    }
    assert(q >= 10000) by (nonlinear_arith)
        requires
            0 < goal <= total_raised,
            total_raised * 10000 == goal * q + r,
            0 <= r < goal,
    ;
}

/// A factor is below 10000 where its product with a positive number is.
proof fn lemma_factor_below(q: int, goal: int)
    requires
        0 < goal,
        q * goal < 10000 * goal,
    ensures
        q < 10000,
{
    assert(q < 10000) by (nonlinear_arith)
        requires
            0 < goal,
            q * goal < 10000 * goal,
    ;
}

/// The share of the goal that has been raised, in hundredths of a percent and
/// rounded down: 10000 from the goal on, zero for a goal that is not positive.
///
/// The quotient is built by doubling and adding, each time reduced by the
/// goal, so that no intermediate value leaves the range of the amounts.
pub fn progress_percentage(total_raised: i128, goal: i128) -> (percentage: u32)
    requires
        total_raised >= 0,
    ensures
        percentage == progress_of(total_raised as int, goal as int),
        percentage <= 10000,
{
    if goal <= 0 {
        return 0;
    }
    if total_raised >= goal {
        proof {
            lemma_goal_reached(total_raised as int, goal as int);
        }
        return 10000;
    }
    let ghost target = 10000 * (total_raised as int);
    // `left` times the step, added to the sum so far, is the target.
    let mut left: u32 = 10000;
    let mut step_quot: u32 = 0;
    let mut step_rest: i128 = total_raised;
    let mut sum_quot: u32 = 0;
    let mut sum_rest: i128 = 0;
    assert(target < 10000 * goal) by (nonlinear_arith)
        requires
            target == 10000 * (total_raised as int),
            total_raised < goal,
    ;
    assert(0 * goal + 0 + 10000 * (0 * goal + total_raised) == target) by (nonlinear_arith)
        requires
            target == 10000 * (total_raised as int),
    ;
    while left > 0
        invariant
            0 < goal,
            left <= 10000,
            0 <= step_rest < goal,
            0 <= sum_rest < goal,
            target < 10000 * goal,
            (sum_quot * goal + sum_rest) + left * (step_quot * goal + step_rest) == target,
        decreases left,
    {
        let ghost step = step_quot * goal + step_rest;
        let ghost sum = sum_quot * goal + sum_rest;
        proof {
            assert(0 <= step_quot * goal && 0 <= sum_quot * goal) by (nonlinear_arith)
                requires
                    0 < goal,
                    0 <= step_quot,
                    0 <= sum_quot,
            ;
            assert(step <= left * step) by (nonlinear_arith)
                requires
                    left >= 1,
                    step >= 0,
            ;
            lemma_factor_below(step_quot as int, goal as int);
            lemma_factor_below(sum_quot as int, goal as int);
        }
        if left % 2 == 1 {
            proof {
                assert(sum + step <= target) by (nonlinear_arith)
                    requires
                        sum + left * step == target,
                        left >= 1,
                        step >= 0,
                ;
            }
            if sum_rest >= goal - step_rest {
                proof {
                    assert((sum_quot + step_quot + 1) * goal + (sum_rest - (goal - step_rest)) == sum
                        + step) by (nonlinear_arith)
                        requires
                            sum == sum_quot * goal + sum_rest,
                            step == step_quot * goal + step_rest,
                    ;
                    assert((sum_quot + step_quot + 1) * goal <= sum + step);
                    lemma_factor_below(sum_quot + step_quot + 1, goal as int);
                }
                sum_rest = sum_rest - (goal - step_rest);
                sum_quot = sum_quot + step_quot + 1;
            } else {
                proof {
                    assert((sum_quot + step_quot) * goal + (sum_rest + step_rest) == sum + step)
                        by (nonlinear_arith)
                        requires
                            sum == sum_quot * goal + sum_rest,
                            step == step_quot * goal + step_rest,
                    ;
                    lemma_factor_below(sum_quot + step_quot, goal as int);
                }
                sum_rest = sum_rest + step_rest;
                sum_quot = sum_quot + step_quot;
            }
        }
        let ghost sum_now = sum_quot * goal + sum_rest;
        let ghost half = (left / 2) as int;
        assert(sum_now + half * (2 * step) == target) by (nonlinear_arith)
            requires
                sum + left * step == target,
                left % 2 == 1 ==> sum_now == sum + step && left == 2 * half + 1,
                left % 2 != 1 ==> sum_now == sum && left == 2 * half,
        ;
        left = left / 2;
        if left > 0 {
            proof {
                assert(2 * step <= target) by (nonlinear_arith)
                    requires
                        sum_now + half * (2 * step) == target,
                        sum_now >= 0,
                        half >= 1,
                        step >= 0,
                ;
            }
            if step_rest >= goal - step_rest {
                proof {
                    assert((2 * step_quot + 1) * goal + (step_rest - (goal - step_rest)) == 2 * step)
                        by (nonlinear_arith)
                        requires
                            step == step_quot * goal + step_rest,
                    ;
                    lemma_factor_below(2 * step_quot + 1, goal as int);
                }
                step_rest = step_rest - (goal - step_rest);
                step_quot = 2 * step_quot + 1;
            } else {
                proof {
                    assert((2 * step_quot) * goal + (step_rest + step_rest) == 2 * step)
                        by (nonlinear_arith)
                        requires
                            step == step_quot * goal + step_rest,
                    ;
                    lemma_factor_below(2 * step_quot, goal as int);
                }
                step_rest = step_rest + step_rest;
                step_quot = 2 * step_quot;
            }
        } else {
            assert(sum_now + left * (step_quot * goal + step_rest) == target) by (nonlinear_arith)
                requires
                    sum_now + half * (2 * step) == target,
                    half == 0,
                    left == 0,
            ;
        }
    }
    proof {
        assert(sum_quot * goal + sum_rest == target) by (nonlinear_arith)
            requires
                (sum_quot * goal + sum_rest) + left * (step_quot * goal + step_rest) == target,
                left == 0,
        ;
        lemma_fundamental_div_mod_converse(target, goal as int, sum_quot as int, sum_rest as int);
        assert(sum_quot * goal <= target);
        lemma_factor_below(sum_quot as int, goal as int);
        assert(total_raised * 10000 == target);
    }
    sum_quot
}

} // verus!
