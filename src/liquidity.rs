use vstd::prelude::*;

use crate::arith::{mul_div_floor, lemma_quotient_at_most, lemma_quotient_times_divisor};
use crate::pool::{ErrorCode, ReserveView, BOOTSTRAP_SCALE};

verus! {

/// What a deposit costs in base asset and what it earns in shares.
#[derive(Clone, Copy, Debug, PartialEq, Eq, Structural)]
pub struct Deposit {
    pub base_amount: u64,
    pub lp_tokens: u64,
}

/// What a redemption of shares releases.
#[derive(Clone, Copy, Debug, PartialEq, Eq, Structural)]
pub struct Withdrawal {
    pub token_amount: u64,
    pub base_amount: u64,
}

pub open spec fn fits_u64(x: int) -> bool {
    0 <= x <= u64::MAX
}

pub open spec fn min_int(a: int, b: int) -> int {
    if a <= b { a } else { b }
}

/// Shares of a deposit that sets the initial share-to-asset ratio.
pub open spec fn bootstrap_shares(token_amount: u64) -> int {
    token_amount * BOOTSTRAP_SCALE
}

/// Base asset a deposit must bring: on an empty pool what the depositor offers,
/// otherwise the token amount at the pool's current price, rounded down.
pub open spec fn deposit_base(v: ReserveView, token_amount: u64, base_offered: u64) -> int {
    if v.token_reserve == 0 {
        base_offered as int
    } else {
        token_amount * v.base_reserve / (v.token_reserve as int)
    }
}

/// Shares a deposit earns: the smaller of its two proportional claims, or the
/// bootstrap amount when the pool has no token reserve or no shares yet.
pub open spec fn deposit_shares(v: ReserveView, token_amount: u64, base_offered: u64) -> int {
    if v.token_reserve == 0 || v.share_supply == 0 {
        bootstrap_shares(token_amount)
    } else {
        min_int(
            token_amount * v.share_supply / (v.token_reserve as int),
            deposit_base(v, token_amount, base_offered) * v.share_supply / (v.base_reserve as int),
        )
    }
}

/// The outcome of a deposit of `token_amount` against the snapshot `v`, taken
/// before the deposit moves anything.
pub open spec fn add_liquidity_outcome(
    v: ReserveView,
    token_amount: u64,
    min_lp_tokens: u64,
    base_offered: u64,
) -> Result<Deposit, ErrorCode> {
    let base = deposit_base(v, token_amount, base_offered);
    let shares = deposit_shares(v, token_amount, base_offered);
    if v.token_reserve != 0 && v.base_reserve == 0 {
        Err(ErrorCode::InsufficientLiquidity)
    } else if !fits_u64(base) || !fits_u64(shares) {
        Err(ErrorCode::ArithmeticOverflow)
    } else if shares < min_lp_tokens {
        Err(ErrorCode::SlippageExceeded)
    } else {
        Ok(Deposit { base_amount: base as u64, lp_tokens: shares as u64 })
    }
}

/// The outcome of redeeming `lp_amount` shares against the snapshot `v`.
pub open spec fn remove_liquidity_outcome(
    v: ReserveView,
    lp_amount: u64,
    min_token_amount: u64,
    min_sol_amount: u64,
) -> Result<Withdrawal, ErrorCode> {
    if v.share_supply == 0 {
        Err(ErrorCode::InsufficientLiquidity)
    } else {
        let t = v.token_reserve * lp_amount / (v.share_supply as int);
        let b = v.base_reserve * lp_amount / (v.share_supply as int);
        if !fits_u64(t) || !fits_u64(b) {
            Err(ErrorCode::ArithmeticOverflow)
        } else if t < min_token_amount || b < min_sol_amount {
            Err(ErrorCode::SlippageExceeded)
        } else {
            Ok(Withdrawal { token_amount: t as u64, base_amount: b as u64 })
        }
    }
}

/// Prices a deposit of `token_amount` tokens. `view` is the snapshot taken
/// before the deposit; `base_offered` is the base asset the depositor commits to
/// a first deposit, when the pool holds no tokens yet.
pub fn add_liquidity(
    view: &ReserveView,
    token_amount: u64,
    min_lp_tokens: u64,
    base_offered: u64,
) -> (r: Result<Deposit, ErrorCode>)
    ensures
        r == add_liquidity_outcome(*view, token_amount, min_lp_tokens, base_offered),
        view.token_reserve == 0 && fits_u64(bootstrap_shares(token_amount))
            && bootstrap_shares(token_amount) >= min_lp_tokens ==> r == Ok::<Deposit, ErrorCode>(
            Deposit { base_amount: base_offered, lp_tokens: (token_amount * BOOTSTRAP_SCALE) as u64 },
        ),
{
    let v = *view;
    let base: u128;
    let shares: u128;
    proof {
        crate::arith::lemma_mul_fits_u128(token_amount, BOOTSTRAP_SCALE);
    }
    if v.token_reserve == 0 {
        base = base_offered as u128;
        shares = (token_amount as u128) * (BOOTSTRAP_SCALE as u128);
    } else {
        if v.base_reserve == 0 {
            return Err(ErrorCode::InsufficientLiquidity);
        }
        base = mul_div_floor(token_amount, v.base_reserve, v.token_reserve);
        if v.share_supply == 0 {
            shares = (token_amount as u128) * (BOOTSTRAP_SCALE as u128);
        } else {
            let token_ratio = mul_div_floor(token_amount, v.share_supply, v.token_reserve);
            if base > u64::MAX as u128 {
                return Err(ErrorCode::ArithmeticOverflow);
            }
            let base_ratio = mul_div_floor(base as u64, v.share_supply, v.base_reserve);
            shares = if token_ratio <= base_ratio { token_ratio } else { base_ratio };
        }
    }
    if base > u64::MAX as u128 || shares > u64::MAX as u128 {
        return Err(ErrorCode::ArithmeticOverflow);
    }
    if (shares as u64) < min_lp_tokens {
        return Err(ErrorCode::SlippageExceeded);
    }
    Ok(Deposit { base_amount: base as u64, lp_tokens: shares as u64 })
}

/// Prices a redemption of `lp_amount` shares against the snapshot `view`.
pub fn remove_liquidity(
    view: &ReserveView,
    lp_amount: u64,
    min_token_amount: u64,
    min_sol_amount: u64,
) -> (r: Result<Withdrawal, ErrorCode>)
    ensures
        r == remove_liquidity_outcome(*view, lp_amount, min_token_amount, min_sol_amount),
{
    let v = *view;
    if v.share_supply == 0 {
        return Err(ErrorCode::InsufficientLiquidity);
    }
    let t = mul_div_floor(v.token_reserve, lp_amount, v.share_supply);
    let b = mul_div_floor(v.base_reserve, lp_amount, v.share_supply);
    if t > u64::MAX as u128 || b > u64::MAX as u128 {
        return Err(ErrorCode::ArithmeticOverflow);
    }
    if (t as u64) < min_token_amount || (b as u64) < min_sol_amount {
        return Err(ErrorCode::SlippageExceeded);
    }
    Ok(Withdrawal { token_amount: t as u64, base_amount: b as u64 })
}

/// The snapshot after a deposit has been applied in full.
pub open spec fn after_deposit(v: ReserveView, token_amount: u64, d: Deposit) -> ReserveView {
    ReserveView {
        token_reserve: (v.token_reserve + token_amount) as u64,
        base_reserve: (v.base_reserve + d.base_amount) as u64,
        share_supply: (v.share_supply + d.lp_tokens) as u64,
    }
}

/// Depositing and then at once redeeming every share just minted never hands
/// back more of either asset than was put in: rounding only goes down. This is
/// stated for a pool that is either empty of both assets or holds both assets
/// and outstanding shares.
pub proof fn lemma_deposit_then_withdraw_never_gains(
    v: ReserveView,
    token_amount: u64,
    min_lp_tokens: u64,
    base_offered: u64,
)
    requires
        (v.token_reserve == 0 && v.base_reserve == 0) || (v.token_reserve > 0 && v.base_reserve > 0
            && v.share_supply > 0),
        add_liquidity_outcome(v, token_amount, min_lp_tokens, base_offered) is Ok,
        fits_u64(v.token_reserve + token_amount),
        fits_u64(v.base_reserve + add_liquidity_outcome(v, token_amount, min_lp_tokens, base_offered)->Ok_0.base_amount),
        fits_u64(v.share_supply + add_liquidity_outcome(v, token_amount, min_lp_tokens, base_offered)->Ok_0.lp_tokens),
    ensures
        ({
            let d = add_liquidity_outcome(v, token_amount, min_lp_tokens, base_offered)->Ok_0;
            let w = remove_liquidity_outcome(after_deposit(v, token_amount, d), d.lp_tokens, 0, 0);
            &&& (v.share_supply + d.lp_tokens > 0 ==> w is Ok)
            &&& (w is Ok ==> w->Ok_0.token_amount <= token_amount && w->Ok_0.base_amount <= d.base_amount)
        }),
{
    let d = add_liquidity_outcome(v, token_amount, min_lp_tokens, base_offered)->Ok_0;
    let a = token_amount as int;
    let b = d.base_amount as int;
    let m = d.lp_tokens as int;
    let t = v.token_reserve as int;
    let r = v.base_reserve as int;
    let s = v.share_supply as int;
    if s + m > 0 {
        // the new pool pays out its reserves pro rata: (t + a) * m / (s + m) and (r + b) * m / (s + m)
        if t == 0 {
            assert((t + a) * m <= a * (s + m)) by (nonlinear_arith)
                requires t == 0, s >= 0, m >= 0, a >= 0;
            assert((r + b) * m <= b * (s + m)) by (nonlinear_arith)
                requires r == 0, s >= 0, m >= 0, b >= 0;
        } else {
            let q1 = a * s / t;
            let q2 = b * s / r;
            assert(b == a * r / t);
            assert(m == min_int(q1, q2));
            lemma_quotient_times_divisor(a * s, t);
            lemma_quotient_times_divisor(b * s, r);
            assert(m * t <= a * s) by (nonlinear_arith)
                requires m <= q1, q1 * t <= a * s, t > 0, m >= 0;
            assert(m * r <= b * s) by (nonlinear_arith)
                requires m <= q2, q2 * r <= b * s, r > 0, m >= 0;
            assert((t + a) * m <= a * (s + m)) by (nonlinear_arith)
                requires m * t <= a * s;
            assert((r + b) * m <= b * (s + m)) by (nonlinear_arith)
                requires m * r <= b * s;
        }
        lemma_quotient_at_most((t + a) * m, s + m, a);
        lemma_quotient_at_most((r + b) * m, s + m, b);
        assert(0 <= (t + a) * m) by (nonlinear_arith)
            requires t + a >= 0, m >= 0;
        assert(0 <= (r + b) * m) by (nonlinear_arith)
            requires r + b >= 0, m >= 0;
        lemma_quotient_times_divisor((t + a) * m, s + m);
        lemma_quotient_times_divisor((r + b) * m, s + m);
    }
}

} // verus!
