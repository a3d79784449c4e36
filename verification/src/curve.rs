//! The pricing curve of one outcome.
//!
//! An outcome's pool holds `real_token` unsold tokens against `total_sol`
//! collateral, the latter being the market's fixed virtual offset plus the
//! collateral really paid in. A trade moves along the curve on which the
//! product of the two stays constant, up to the rounding of whole units:
//! every quotient is rounded down.

use vstd::prelude::*;

verus! {

/// The curve's constant: unsold tokens times total collateral.
pub open spec fn curve_product(real_token: int, total_sol: int) -> int {
    real_token * total_sol
}

/// The tokens left in the pool once `sol_in` more collateral stands
/// against them.
pub open spec fn token_reserve_after_buy(real_token: int, total_sol: int, sol_in: int) -> int {
    curve_product(real_token, total_sol) / (total_sol + sol_in)
}

/// The tokens a buyer gets for `sol_in` collateral.
pub open spec fn buy_tokens_out(real_token: int, total_sol: int, sol_in: int) -> int {
    real_token - token_reserve_after_buy(real_token, total_sol, sol_in)
}

/// The total collateral left once `tokens_in` more tokens stand against it.
pub open spec fn total_sol_after_sell(real_token: int, total_sol: int, tokens_in: int) -> int {
    curve_product(real_token, total_sol) / (real_token + tokens_in)
}

/// The collateral a seller gets for `tokens_in` tokens, before fees.
pub open spec fn sell_sol_out(real_token: int, total_sol: int, tokens_in: int) -> int {
    total_sol - total_sol_after_sell(real_token, total_sol, tokens_in)
}

/// What the rounding of a buy hands the buyer on top of the exact price,
/// measured in collateral: zero exactly when the buy divides evenly.
pub open spec fn rounding_gain(real_token: int, total_sol: int, sol_in: int) -> int {
    let remainder = curve_product(real_token, total_sol) % (total_sol + sol_in);
    if remainder == 0 {
        0
    } else {
        (remainder - 1) / real_token + 1
    }
}

/// A buy never hands out more tokens than the pool holds, nor a negative
/// number of them.
pub proof fn lemma_buy_within_reserve(real_token: int, total_sol: int, sol_in: int)
    requires
        0 <= real_token,
        0 <= total_sol,
        0 < sol_in,
    ensures
        0 <= token_reserve_after_buy(real_token, total_sol, sol_in) <= real_token,
        0 <= buy_tokens_out(real_token, total_sol, sol_in) <= real_token,
{
    let k = real_token * total_sol;
    let d = total_sol + sol_in;
    assert(0 <= k <= real_token * d) by (nonlinear_arith)
        requires
            0 <= real_token,
            0 <= total_sol <= d,
            k == real_token * total_sol,
    ;
    lemma_quotient_bounds(k, d, real_token);
}

/// A sell never releases more than the curve's total collateral, nor a
/// negative amount.
pub proof fn lemma_sell_within_total(real_token: int, total_sol: int, tokens_in: int)
    requires
        0 <= real_token,
        0 <= total_sol,
        0 < tokens_in,
    ensures
        0 <= total_sol_after_sell(real_token, total_sol, tokens_in) <= total_sol,
        0 <= sell_sol_out(real_token, total_sol, tokens_in) <= total_sol,
{
    let k = real_token * total_sol;
    let d = real_token + tokens_in;
    assert(0 <= k <= total_sol * d) by (nonlinear_arith)
        requires
            0 <= total_sol,
            0 <= real_token <= d,
            k == real_token * total_sol,
    ;
    lemma_quotient_bounds(k, d, total_sol);
}

/// If `0 <= k <= bound * d` then `0 <= k / d <= bound`.
pub proof fn lemma_quotient_bounds(k: int, d: int, bound: int)
    requires
        0 < d,
        0 <= k <= bound * d,
    ensures
        0 <= k / d <= bound,
        (k / d) * d <= k,
        k == (k / d) * d + k % d,
        0 <= k % d < d,
{
    vstd::arithmetic::div_mod::lemma_fundamental_div_mod(k, d);
    vstd::arithmetic::div_mod::lemma_mod_bound(k, d);
    let q = k / d;
    assert(k == d * q + k % d);
    assert(d * q == q * d) by (nonlinear_arith);
    assert(0 <= q) by (nonlinear_arith)
        requires
            0 < d,
            0 <= k,
            k == q * d + k % d,
            k % d < d,
    ;
    assert(q <= bound) by (nonlinear_arith)
        requires
            0 < d,
            q * d <= bound * d,
    ;
}

/// A buy lowers the curve's product by exactly what its division leaves
/// over, and so never raises it.
pub proof fn lemma_buy_product(real_token: int, total_sol: int, sol_in: int)
    requires
        0 <= real_token,
        0 <= total_sol,
        0 < sol_in,
    ensures
        curve_product(
            real_token - buy_tokens_out(real_token, total_sol, sol_in),
            total_sol + sol_in,
        ) == curve_product(real_token, total_sol) - curve_product(real_token, total_sol) % (
        total_sol + sol_in),
        curve_product(
            real_token - buy_tokens_out(real_token, total_sol, sol_in),
            total_sol + sol_in,
        ) <= curve_product(real_token, total_sol),
{
    lemma_buy_within_reserve(real_token, total_sol, sol_in);
    let k = real_token * total_sol;
    let d = total_sol + sol_in;
    assert(0 <= k <= real_token * d) by (nonlinear_arith)
        requires
            0 <= real_token,
            0 <= total_sol <= d,
            k == real_token * total_sol,
    ;
    lemma_quotient_bounds(k, d, real_token);
}

/// A sell lowers the curve's product by exactly what its division leaves
/// over, and so never raises it.
pub proof fn lemma_sell_product(real_token: int, total_sol: int, tokens_in: int)
    requires
        0 <= real_token,
        0 <= total_sol,
        0 < tokens_in,
    ensures
        curve_product(
            real_token + tokens_in,
            total_sol - sell_sol_out(real_token, total_sol, tokens_in),
        ) == curve_product(real_token, total_sol) - curve_product(real_token, total_sol) % (
        real_token + tokens_in),
        curve_product(
            real_token + tokens_in,
            total_sol - sell_sol_out(real_token, total_sol, tokens_in),
        ) <= curve_product(real_token, total_sol),
{
    let k = real_token * total_sol;
    let d = real_token + tokens_in;
    assert(0 <= k <= total_sol * d) by (nonlinear_arith)
        requires
            0 <= total_sol,
            0 <= real_token <= d,
            k == real_token * total_sol,
    ;
    lemma_quotient_bounds(k, d, total_sol);
    assert(d * (k / d) == (k / d) * d) by (nonlinear_arith);
}

/// Selling at once the tokens that a buy of `sol_in` gave releases the
/// collateral paid in plus the rounding gain of the buy.
pub proof fn lemma_round_trip(real_token: int, total_sol: int, sol_in: int)
    requires
        0 < real_token,
        0 <= total_sol,
        0 < sol_in,
    ensures
        0 <= rounding_gain(real_token, total_sol, sol_in),
        sell_sol_out(
            real_token - buy_tokens_out(real_token, total_sol, sol_in),
            total_sol + sol_in,
            buy_tokens_out(real_token, total_sol, sol_in),
        ) == sol_in + rounding_gain(real_token, total_sol, sol_in),
{
    let k = real_token * total_sol;
    let d = total_sol + sol_in;
    assert(0 <= k <= real_token * d) by (nonlinear_arith)
        requires
            0 <= real_token,
            0 <= total_sol <= d,
            k == real_token * total_sol,
    ;
    lemma_quotient_bounds(k, d, real_token);
    let kept = k / d;
    let rest = k % d;
    let gain = rounding_gain(real_token, total_sol, sol_in);
    // What stands against the tokens after the buy.
    let after = kept * d;
    assert(after == k - rest);
    assert(curve_product(kept, d) == after);
    assert(real_token - buy_tokens_out(real_token, total_sol, sol_in) == kept);
    assert(kept + buy_tokens_out(real_token, total_sol, sol_in) == real_token);
    if rest == 0 {
        assert(after == total_sol * real_token + 0) by (nonlinear_arith)
            requires
                after == real_token * total_sol,
        ;
        vstd::arithmetic::div_mod::lemma_fundamental_div_mod_converse(
            after,
            real_token,
            total_sol,
            0,
        );
    } else {
        let steps = (rest - 1) / real_token;
        let left = (rest - 1) % real_token;
        vstd::arithmetic::div_mod::lemma_fundamental_div_mod(rest - 1, real_token);
        vstd::arithmetic::div_mod::lemma_mod_bound(rest - 1, real_token);
        assert(0 <= steps) by (nonlinear_arith)
            requires
                0 < real_token,
                0 <= rest - 1,
                rest - 1 == real_token * steps + left,
                left < real_token,
        ;
        assert(gain == steps + 1);
        assert(after == (total_sol - gain) * real_token + (real_token - 1 - left))
            by (nonlinear_arith)
            requires
                after == real_token * total_sol - rest,
                rest - 1 == real_token * steps + left,
                gain == steps + 1,
        ;
        vstd::arithmetic::div_mod::lemma_fundamental_div_mod_converse(
            after,
            real_token,
            total_sol - gain,
            real_token - 1 - left,
        );
    }
    assert(after / real_token == total_sol - gain);
}

} // verus!
