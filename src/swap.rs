use vstd::prelude::*;

use crate::arith::{mul_div_floor, lemma_quotient_ordered, lemma_quotient_times_divisor};
use crate::liquidity::fits_u64;
use crate::pool::{ErrorCode, Pool, ReserveView};

verus! {

/// The price of a one-sided swap: the output before the fee, the fee kept in
/// the pool, and what the trader receives.
#[derive(Clone, Copy, Debug, PartialEq, Eq, Structural)]
pub struct SwapQuote {
    pub raw_out: u64,
    pub fee: u64,
    pub out_after_fee: u64,
}

/// Output of a swap before the fee, from the pre-trade reserves.
pub open spec fn raw_output(reserve_in: u64, reserve_out: u64, amount_in: u64) -> int {
    reserve_out * amount_in / (reserve_in as int)
}

/// The fee taken from an output of `raw`.
pub open spec fn fee_of(raw: int, fee_numerator: u64, fee_denominator: u64) -> int {
    raw * fee_numerator / (fee_denominator as int)
}

/// The outcome of pricing `amount_in` against the pre-trade reserves.
pub open spec fn quote_outcome(
    reserve_in: u64,
    reserve_out: u64,
    amount_in: u64,
    fee_numerator: u64,
    fee_denominator: u64,
) -> Result<SwapQuote, ErrorCode> {
    if reserve_in == 0 || reserve_out == 0 {
        Err(ErrorCode::InsufficientLiquidity)
    } else {
        let raw = raw_output(reserve_in, reserve_out, amount_in);
        let fee = fee_of(raw, fee_numerator, fee_denominator);
        if !fits_u64(raw) {
            Err(ErrorCode::ArithmeticOverflow)
        } else {
            Ok(SwapQuote { raw_out: raw as u64, fee: fee as u64, out_after_fee: (raw - fee) as u64 })
        }
    }
}

/// The reserve as it stood before a deposit of `amount_in` that `balance`
/// already includes; zero when the balance cannot account for the deposit.
pub open spec fn reserve_before(balance: u64, amount_in: u64) -> u64 {
    if balance >= amount_in { (balance - amount_in) as u64 } else { 0 }
}

/// What a swap pays out once the caller's minimum is enforced.
pub open spec fn bounded_outcome(q: Result<SwapQuote, ErrorCode>, min_out: u64) -> Result<u64, ErrorCode> {
    match q {
        Err(e) => Err(e),
        Ok(q) => if q.out_after_fee < min_out {
            Err(ErrorCode::SlippageExceeded)
        } else {
            Ok(q.out_after_fee)
        },
    }
}

/// The outcome of swapping `token_amount` tokens for base asset; `view` holds
/// the balances read after the tokens reached the vault.
pub open spec fn swap_token_for_sol_outcome(
    pool: Pool,
    view: ReserveView,
    token_amount: u64,
    min_sol_out: u64,
) -> Result<u64, ErrorCode> {
    bounded_outcome(
        quote_outcome(
            reserve_before(view.token_reserve, token_amount),
            view.base_reserve,
            token_amount,
            pool.fee_numerator,
            pool.fee_denominator,
        ),
        min_sol_out,
    )
}

/// The outcome of swapping `lamport_amount` base units for tokens; `view` holds
/// the balances read after the base asset reached the vault.
pub open spec fn swap_sol_for_token_outcome(
    pool: Pool,
    view: ReserveView,
    lamport_amount: u64,
    min_token_out: u64,
) -> Result<u64, ErrorCode> {
    bounded_outcome(
        quote_outcome(
            reserve_before(view.base_reserve, lamport_amount),
            view.token_reserve,
            lamport_amount,
            pool.fee_numerator,
            pool.fee_denominator,
        ),
        min_token_out,
    )
}

/// Prices a swap of `amount_in` against the pre-trade reserves: the output is
/// the input's share of the other reserve at the current price, less the fee.
pub fn quote_swap(
    reserve_in: u64,
    reserve_out: u64,
    amount_in: u64,
    fee_numerator: u64,
    fee_denominator: u64,
) -> (r: Result<SwapQuote, ErrorCode>)
    requires
        fee_denominator > 0,
        fee_numerator <= fee_denominator,
    ensures
        r == quote_outcome(reserve_in, reserve_out, amount_in, fee_numerator, fee_denominator),
        r is Ok ==> r->Ok_0.fee <= r->Ok_0.raw_out,
{
    if reserve_in == 0 || reserve_out == 0 {
        return Err(ErrorCode::InsufficientLiquidity);
    }
    let raw = mul_div_floor(reserve_out, amount_in, reserve_in);
    if raw > u64::MAX as u128 {
        return Err(ErrorCode::ArithmeticOverflow);
    }
    let raw = raw as u64;
    let fee = mul_div_floor(raw, fee_numerator, fee_denominator);
    proof {
        assert((raw as int) * (fee_numerator as int) <= (raw as int) * (fee_denominator as int))
            by (nonlinear_arith)
            requires fee_numerator <= fee_denominator;
        crate::arith::lemma_quotient_at_most(
            (raw as int) * (fee_numerator as int),
            fee_denominator as int,
            raw as int,
        );
        lemma_quotient_times_divisor((raw as int) * (fee_numerator as int), fee_denominator as int);
    }
    let fee = fee as u64;
    Ok(SwapQuote { raw_out: raw, fee, out_after_fee: raw - fee })
}

/// Prices a swap of `token_amount` tokens for base asset. The tokens have
/// already been deposited, so `view` holds the post-deposit balances and the
/// pre-trade token reserve is recovered by taking the deposit back out.
pub fn swap_token_for_sol(
    pool: &Pool,
    view: &ReserveView,
    token_amount: u64,
    min_sol_out: u64,
) -> (r: Result<u64, ErrorCode>)
    requires
        pool.wf(),
    ensures
        r == swap_token_for_sol_outcome(*pool, *view, token_amount, min_sol_out),
        view.base_reserve == 0 ==> r == Err::<u64, ErrorCode>(ErrorCode::InsufficientLiquidity),
{
    let token_reserve = view.token_reserve.saturating_sub(token_amount);
    let q = quote_swap(token_reserve, view.base_reserve, token_amount, pool.fee_numerator, pool.fee_denominator);
    match q {
        Err(e) => Err(e),
        Ok(q) => {
            if q.out_after_fee < min_sol_out {
                Err(ErrorCode::SlippageExceeded)
            } else {
                Ok(q.out_after_fee)
            }
        },
    }
}

/// Prices a swap of `lamport_amount` base units for tokens. The base asset has
/// already been deposited, so `view` holds the post-deposit balances and the
/// pre-trade base reserve is recovered by taking the deposit back out.
pub fn swap_sol_for_token(
    pool: &Pool,
    view: &ReserveView,
    lamport_amount: u64,
    min_token_out: u64,
) -> (r: Result<u64, ErrorCode>)
    requires
        pool.wf(),
    ensures
        r == swap_sol_for_token_outcome(*pool, *view, lamport_amount, min_token_out),
        view.token_reserve == 0 ==> r == Err::<u64, ErrorCode>(ErrorCode::InsufficientLiquidity),
{
    let sol_reserve = view.base_reserve.saturating_sub(lamport_amount);
    let q = quote_swap(sol_reserve, view.token_reserve, lamport_amount, pool.fee_numerator, pool.fee_denominator);
    match q {
        Err(e) => Err(e),
        Ok(q) => {
            if q.out_after_fee < min_token_out {
                Err(ErrorCode::SlippageExceeded)
            } else {
                Ok(q.out_after_fee)
            }
        },
    }
}

/// Swapping tokens for base asset never shrinks the product of the two
/// reserves when the payout is at most the input's share of the base reserve
/// at the post-trade token reserve, `out * (t + x) <= b * x`; the product
/// strictly grows when that bound is strict. The bound is also necessary: the
/// product after the trade is `t * b + (b * x - out * (t + x))`.
pub proof fn lemma_swap_product_growth(t: u64, b: u64, x: u64, fee_numerator: u64, fee_denominator: u64)
    requires
        fee_denominator > 0,
        fee_numerator <= fee_denominator,
        quote_outcome(t, b, x, fee_numerator, fee_denominator) is Ok,
        quote_outcome(t, b, x, fee_numerator, fee_denominator)->Ok_0.out_after_fee * (t + x) <= b * x,
    ensures
        ({
            let out = quote_outcome(t, b, x, fee_numerator, fee_denominator)->Ok_0.out_after_fee as int;
            &&& (t + x) * (b - out) == t * b + (b * x - out * (t + x))
            &&& (t + x) * (b - out) >= t * b
            &&& out * (t + x) < b * x ==> (t + x) * (b - out) > t * b
        }),
{
    let out = quote_outcome(t, b, x, fee_numerator, fee_denominator)->Ok_0.out_after_fee as int;
    let ti = t as int;
    let bi = b as int;
    let xi = x as int;
    assert((ti + xi) * (bi - out) == ti * bi + (bi * xi - out * (ti + xi))) by (nonlinear_arith);
}

/// Raising the fee numerator, with reserves, input and denominator held fixed,
/// never raises the trader's output; it strictly lowers it once the raise is
/// worth at least one unit of the raw output, `raw * (n2 - n1) >= d`.
pub proof fn lemma_fee_monotone(
    reserve_in: u64,
    reserve_out: u64,
    amount_in: u64,
    n1: u64,
    n2: u64,
    d: u64,
)
    requires
        d > 0,
        n1 < n2,
        n2 <= d,
        quote_outcome(reserve_in, reserve_out, amount_in, n1, d) is Ok,
    ensures
        ({
            let q1 = quote_outcome(reserve_in, reserve_out, amount_in, n1, d);
            let q2 = quote_outcome(reserve_in, reserve_out, amount_in, n2, d);
            &&& q2 is Ok
            &&& q2->Ok_0.out_after_fee <= q1->Ok_0.out_after_fee
            &&& q1->Ok_0.raw_out * (n2 - n1) >= d ==> q2->Ok_0.out_after_fee < q1->Ok_0.out_after_fee
        }),
{
    let raw = raw_output(reserve_in, reserve_out, amount_in);
    let di = d as int;
    let f1 = fee_of(raw, n1, d);
    let f2 = fee_of(raw, n2, d);
    assert(0 <= raw * n1 <= raw * n2 <= raw * d) by (nonlinear_arith)
        requires 0 <= raw, n1 < n2, n2 <= d;
    lemma_quotient_ordered(raw * n1, raw * n2, di);
    crate::arith::lemma_quotient_at_most(raw * n2, di, raw);
    lemma_quotient_times_divisor(raw * n1, di);
    lemma_quotient_times_divisor(raw * n2, di);
    if raw * (n2 - n1) >= d {
        assert(raw * n2 >= raw * n1 + di) by (nonlinear_arith)
            requires raw * (n2 - n1) >= di;
        lemma_quotient_ordered(raw * n1 + di, raw * n2, di);
        vstd::arithmetic::div_mod::lemma_div_plus_one(raw * n1, di);
        assert(f2 >= f1 + 1);
    }
}

/// A token-for-base swap whose price can be computed is rejected for slippage
/// exactly when what the trader would receive falls short of the stated
/// minimum; otherwise it pays out that amount.
pub proof fn lemma_slippage_enforced(pool: Pool, view: ReserveView, token_amount: u64, min_sol_out: u64)
    requires
        pool.wf(),
        quote_outcome(
            reserve_before(view.token_reserve, token_amount),
            view.base_reserve,
            token_amount,
            pool.fee_numerator,
            pool.fee_denominator,
        ) is Ok,
    ensures
        ({
            let out = quote_outcome(
                reserve_before(view.token_reserve, token_amount),
                view.base_reserve,
                token_amount,
                pool.fee_numerator,
                pool.fee_denominator,
            )->Ok_0.out_after_fee;
            let r = swap_token_for_sol_outcome(pool, view, token_amount, min_sol_out);
            &&& (r == Err::<u64, ErrorCode>(ErrorCode::SlippageExceeded) <==> out < min_sol_out)
            &&& (out >= min_sol_out ==> r == Ok::<u64, ErrorCode>(out))
        }),
{
}

} // verus!
