//! Constant-product pool arithmetic (`reserve_in * reserve_out = k`) on whole
//! lamports and whole token units.
//!
//! The model is exact: prices, impacts and the simulated trades are rational
//! numbers, and each quantity handed out is rounded down once, at the end.
//! No product wider than 128 bits is ever formed.
use vstd::prelude::*;
use vstd::arithmetic::div_mod::{
    lemma_div_denominator,
    lemma_div_is_ordered,
    lemma_div_is_ordered_by_denominator,
    lemma_div_multiples_vanish,
    lemma_fundamental_div_mod,
    lemma_fundamental_div_mod_converse,
    lemma_mod_pos_bound,
};
use vstd::arithmetic::mul::lemma_mul_upper_bound;

verus! {

/// Price impact is expressed in parts per million of the price before the trade.
pub const PPM: u64 = 1_000_000;

/// A target whose price impact is below one percent is not worth bracketing.
pub const MIN_PRICE_IMPACT_PPM: u64 = 10_000;

/// Fee estimate for one submitted transaction: 0.001 SOL, in lamports.
pub const GAS_ESTIMATE_LAMPORTS: u64 = 1_000_000;

/// The front-run multiplier is fifty times the price impact, capped at two.
pub const FRONT_RUN_IMPACT_FACTOR: u64 = 50;

/// Numerator of the exact price impact of adding `amount_in` to `reserve_in`.
///
/// Before the trade the price is `reserve_out / reserve_in`; after it the output
/// reserve is `k / s` with `s = reserve_in + amount_in`, so the price is
/// `reserve_out * reserve_in / s^2`. The relative change is
/// `1 - reserve_in^2 / s^2 = amount_in * (reserve_in + s) / s^2`, whatever
/// `reserve_out` is.
pub open spec fn impact_num(reserve_in: int, amount_in: int) -> int {
    amount_in * (2 * reserve_in + amount_in)
}

/// Denominator of the exact price impact: the squared input reserve after the trade.
pub open spec fn impact_den(reserve_in: int, amount_in: int) -> int {
    (reserve_in + amount_in) * (reserve_in + amount_in)
}

/// The price impact in parts per million, rounded down.
pub open spec fn price_impact_ppm_spec(reserve_in: int, amount_in: int) -> int {
    if reserve_in + amount_in == 0 {
        0
    } else {
        (PPM * impact_num(reserve_in, amount_in)) / impact_den(reserve_in, amount_in)
    }
}

/// `(m * d + y) / d == m + y / d` for a positive divisor and non-negative `y`.
proof fn lemma_div_add_multiple(m: int, y: int, d: int)
    requires
        d > 0,
        y >= 0,
    ensures
        (m * d + y) / d == m + y / d,
{
    lemma_fundamental_div_mod(y, d);
    lemma_mod_pos_bound(y, d);
    let q = y / d;
    let r = y % d;
    assert(m * d + y == (m + q) * d + r) by (nonlinear_arith)
        requires
            y == d * q + r,
    ;
    lemma_fundamental_div_mod_converse(m * d + y, d, m + q, r);
}

/// Price impact of a trade of `amount_in` against `reserve_in`, in parts per million.
///
/// Computed without forming any product wider than 128 bits.
pub fn price_impact_ppm(reserve_in: u64, amount_in: u64) -> (r: u64)
    ensures
        r == price_impact_ppm_spec(reserve_in as int, amount_in as int),
        r <= PPM,
{
    let s: u128 = reserve_in as u128 + amount_in as u128;
    if s == 0 {
        return 0;
    }
    let ghost ri = reserve_in as int;
    let ghost a = amount_in as int;
    let ghost si = s as int;
    let ghost ppm = PPM as int;
    proof {
        lemma_mul_upper_bound(a, u64::MAX as int, ri, u64::MAX as int);
        assert((u64::MAX as int) * (u64::MAX as int) <= u128::MAX) by (nonlinear_arith);
    }
    let p: u128 = amount_in as u128 * reserve_in as u128;
    let q: u128 = p / s;
    let rem: u128 = p % s;
    proof {
        lemma_div_is_ordered_by_denominator(p as int, if ri > 0 { ri } else { 1 }, si);
        if ri > 0 {
            lemma_div_multiples_vanish(a, ri);
            assert(p as int == ri * a) by (nonlinear_arith)
                requires
                    p as int == a * ri,
            ;
        } else {
            assert(p == 0) by (nonlinear_arith)
                requires
                    p as int == a * ri,
                    ri == 0,
            ;
        }
        assert(q <= amount_in);
        lemma_mod_pos_bound(p as int, si);
    }
    let v: u128 = 1_000_000u128 * amount_in as u128 + 1_000_000u128 * q + (1_000_000u128 * rem) / s;
    proof {
        lemma_div_is_ordered((ppm * rem) as int, ppm * si, si);
        lemma_div_multiples_vanish(ppm, si);
        assert(ppm * si == si * ppm) by (nonlinear_arith);
    }
    let r: u128 = v / s;
    proof {
        let num = impact_num(ri, a);
        let x = ppm * num;
        lemma_fundamental_div_mod(p as int, si);
        assert(x == (ppm * a + ppm * q) * si + ppm * rem) by (nonlinear_arith)
            requires
                x == ppm * (a * (2 * ri + a)),
                si == ri + a,
                p as int == a * ri,
                p as int == si * (q as int) + rem as int,
        ;
        lemma_div_add_multiple(ppm * a + ppm * q, ppm * rem, si);
        assert(x >= 0) by (nonlinear_arith)
            requires
                x == ppm * (a * (2 * ri + a)),
                a >= 0,
                ri >= 0,
                ppm >= 0,
        ;
        lemma_div_denominator(x, si, si);
        assert(impact_den(ri, a) == si * si);
        assert(r as int == price_impact_ppm_spec(ri, a));
        assert(num <= si * si) by (nonlinear_arith)
            requires
                num == a * (2 * ri + a),
                si == ri + a,
                ri >= 0,
        ;
        assert(x <= ppm * (si * si)) by (nonlinear_arith)
            requires
                x == ppm * num,
                num <= si * si,
                ppm >= 0,
        ;
        lemma_div_is_ordered(x, ppm * (si * si), si * si);
        lemma_div_multiples_vanish(ppm, si * si);
        assert(ppm * (si * si) == (si * si) * ppm) by (nonlinear_arith);
    }
    r as u64
}

/// Price impact is zero for an empty trade and grows strictly with the trade's
/// size on a fixed pool; rounded to parts per million it never falls.
pub proof fn lemma_price_impact_increasing(reserve_in: int, amount_small: int, amount_large: int)
    requires
        reserve_in > 0,
        0 <= amount_small < amount_large,
    ensures
        impact_num(reserve_in, 0) == 0,
        price_impact_ppm_spec(reserve_in, 0) == 0,
        impact_num(reserve_in, amount_small) * impact_den(reserve_in, amount_large) < impact_num(
            reserve_in,
            amount_large,
        ) * impact_den(reserve_in, amount_small),
        price_impact_ppm_spec(reserve_in, amount_small) <= price_impact_ppm_spec(
            reserve_in,
            amount_large,
        ),
{
    let ri = reserve_in;
    let s1 = reserve_in + amount_small;
    let s2 = reserve_in + amount_large;
    let n1 = impact_num(ri, amount_small);
    let n2 = impact_num(ri, amount_large);
    let d1 = impact_den(ri, amount_small);
    let d2 = impact_den(ri, amount_large);
    assert(impact_den(ri, 0) == ri * ri);
    assert(ri * ri > 0) by (nonlinear_arith)
        requires
            ri > 0,
    ;
    assert(price_impact_ppm_spec(ri, 0) == 0) by {
        assert(impact_num(ri, 0) == 0);
        assert((PPM * 0) / (ri * ri) == 0) by {
            lemma_div_multiples_vanish(0, ri * ri);
        }
    }
    assert(n1 == s1 * s1 - ri * ri && n2 == s2 * s2 - ri * ri) by (nonlinear_arith)
        requires
            n1 == amount_small * (2 * ri + amount_small),
            n2 == amount_large * (2 * ri + amount_large),
            s1 == ri + amount_small,
            s2 == ri + amount_large,
    ;
    assert(s1 * s1 < s2 * s2) by (nonlinear_arith)
        requires
            0 < s1 < s2,
    ;
    assert(n1 * d2 < n2 * d1) by (nonlinear_arith)
        requires
            n1 == s1 * s1 - ri * ri,
            n2 == s2 * s2 - ri * ri,
            d1 == s1 * s1,
            d2 == s2 * s2,
            s1 * s1 < s2 * s2,
            ri * ri > 0,
    ;
    let ppm = PPM as int;
    let f1 = (ppm * n1) / d1;
    assert(d1 > 0 && d2 > 0) by (nonlinear_arith)
        requires
            d1 == s1 * s1,
            d2 == s2 * s2,
            0 < s1 < s2,
    ;
    assert(n1 >= 0) by (nonlinear_arith)
        requires
            n1 == amount_small * (2 * ri + amount_small),
            amount_small >= 0,
            ri > 0,
    ;
    lemma_fundamental_div_mod(ppm * n1, d1);
    lemma_mod_pos_bound(ppm * n1, d1);
    assert(f1 * d2 <= ppm * n2) by (nonlinear_arith)
        requires
            ppm * n1 == d1 * f1 + (ppm * n1) % d1,
            0 <= (ppm * n1) % d1,
            n1 * d2 < n2 * d1,
            d1 > 0,
            d2 > 0,
            ppm > 0,
    ;
    lemma_div_is_ordered(f1 * d2, ppm * n2, d2);
    lemma_div_multiples_vanish(f1, d2);
    assert(f1 * d2 == d2 * f1) by (nonlinear_arith);
}

/// Front-run size: the target's input times `min(50 * impact, 2)`, with the
/// exact impact, rounded down once and never above the position limit.
pub open spec fn front_run_amount_spec(reserve_in: int, target_amount: int, max_position: int) -> int {
    let n = impact_num(reserve_in, target_amount);
    let d = impact_den(reserve_in, target_amount);
    let scaled = if 25 * n >= d {
        2 * target_amount
    } else {
        (FRONT_RUN_IMPACT_FACTOR * target_amount * n) / d
    };
    if scaled <= max_position {
        scaled
    } else {
        max_position
    }
}

/// Lamports the back-run returns, rounded down once.
///
/// The three trades run in order against one `k = reserve_in * reserve_out`.
/// With `r1 = reserve_in + front_run` and `s = r1 + target_amount`: after the
/// front-run the pool holds `(r1, k / r1)` and the bot `reserve_out - k / r1`
/// tokens; after the target it holds `(s, k / s)`; selling the bot's tokens
/// brings the output side to `reserve_out * (s * r1 - reserve_in * target_amount) / (s * r1)`,
/// so the input side falls to `reserve_in * s * r1 / (s * r1 - reserve_in * target_amount)`
/// and the bot receives `s` less that. The output reserve cancels.
pub open spec fn back_run_proceeds(reserve_in: int, front_run: int, target_amount: int) -> int {
    let r1 = reserve_in + front_run;
    let s = r1 + target_amount;
    (s * (s * r1 - reserve_in * target_amount - reserve_in * r1)) / (s * r1 - reserve_in
        * target_amount)
}

/// Net result of the bracket: proceeds less the front-run outlay and two fees.
pub open spec fn bracket_net(reserve_in: int, front_run: int, target_amount: int) -> int {
    back_run_proceeds(reserve_in, front_run, target_amount) - front_run - 2 * GAS_ESTIMATE_LAMPORTS
}

/// Estimated profit: the net result, or zero where it is negative.
pub open spec fn estimated_profit_spec(reserve_in: int, front_run: int, target_amount: int) -> int {
    let net = bracket_net(reserve_in, front_run, target_amount);
    if net > 0 {
        net
    } else {
        0
    }
}

/// `a * b` as a quotient and remainder by `d`, one bit of `b` at a time.
fn mul_divmod(a: u128, b: u128, d: u128) -> (r: (u128, u128))
    requires
        a < d,
    ensures
        r.0 * d + r.1 == a * b,
        r.1 < d,
        b > 0 ==> r.0 < b,
        b == 0 ==> r.0 == 0,
    decreases b,
{
    if b == 0 {
        proof {
            assert(a * b == 0) by (nonlinear_arith)
                requires
                    b == 0,
            ;
        }
        return (0, 0);
    }
    let half = b / 2;
    let bit = b % 2;
    let (q1, r1) = mul_divmod(a, half, d);
    let ghost gq1 = q1 as int;
    let ghost gr1 = r1 as int;
    let ghost di = d as int;
    let q2: u128;
    let r2: u128;
    if r1 >= d - r1 {
        q2 = 2 * q1 + 1;
        r2 = r1 - (d - r1);
    } else {
        q2 = 2 * q1;
        r2 = r1 + r1;
    }
    proof {
        assert(q2 * di + r2 == 2 * (gq1 * di + gr1)) by (nonlinear_arith)
            requires
                (q2 == 2 * gq1 + 1 && r2 == 2 * gr1 - di) || (q2 == 2 * gq1 && r2 == 2 * gr1),
        ;
        assert(a * b == 2 * (a * half) + a * bit) by (nonlinear_arith)
            requires
                b == 2 * half + bit,
        ;
    }
    let q: u128;
    let r: u128;
    if bit == 1 && r2 >= d - a {
        q = q2 + 1;
        r = r2 - (d - a);
    } else if bit == 1 {
        q = q2;
        r = r2 + a;
    } else {
        q = q2;
        r = r2;
    }
    proof {
        assert(a * bit == if bit == 1 { a as int } else { 0 }) by (nonlinear_arith)
            requires
                bit == 0 || bit == 1,
        ;
        assert(q * di + r == q2 * di + r2 + a * bit) by (nonlinear_arith)
            requires
                (q == q2 + 1 && r == r2 + a - di && bit == 1) || (q == q2 && r == r2 + a && bit
                    == 1) || (q == q2 && r == r2 && bit == 0),
        ;
        assert(q < b) by (nonlinear_arith)
            requires
                q * di + r == a * b,
                0 <= r,
                a < di,
                b > 0,
                q >= 0,
        ;
    }
    (q, r)
}

/// `a * b / d`, rounded down, for `a < d`; no intermediate exceeds 128 bits.
pub fn mul_div(a: u128, b: u128, d: u128) -> (q: u128)
    requires
        a < d,
    ensures
        q as int == (a as int * b as int) / (d as int),
{
    let (q, r) = mul_divmod(a, b, d);
    proof {
        lemma_fundamental_div_mod_converse(a * b, d as int, q as int, r as int);
    }
    q
}

/// Front-run and back-run sizes for a target of `target_amount` lamports on a
/// pool whose input side holds `reserve_in`: the back-run sells exactly what
/// the front-run bought.
///
/// The input reserve is a `u64` on chain, so the trade must leave it one.
pub fn bracket_amounts(reserve_in: u64, target_amount: u64, max_position: u64) -> (r: (u64, u64))
    requires
        reserve_in + target_amount <= u64::MAX,
    ensures
        r.0 == front_run_amount_spec(reserve_in as int, target_amount as int, max_position as int),
        r.0 <= max_position,
        r.1 == r.0,
{
    let ghost ri = reserve_in as int;
    let ghost t = target_amount as int;
    let s: u128 = reserve_in as u128 + target_amount as u128;
    proof {
        lemma_mul_upper_bound(s as int, u64::MAX as int, s as int, u64::MAX as int);
        lemma_mul_upper_bound(ri, s as int, ri, s as int);
        assert((u64::MAX as int) * (u64::MAX as int) <= u128::MAX - 100) by (nonlinear_arith);
    }
    let den: u128 = s * s;
    let num: u128 = den - reserve_in as u128 * reserve_in as u128;
    let ghost n = num as int;
    let ghost d = den as int;
    proof {
        assert(n == impact_num(ri, t) && d == impact_den(ri, t)) by (nonlinear_arith)
            requires
                d == (s as int) * (s as int),
                n == d - ri * ri,
                s as int == ri + t,
        ;
        assert(n >= 0);
        lemma_fundamental_div_mod(d + 24, 25);
        lemma_mod_pos_bound(d + 24, 25);
    }
    let scaled: u128;
    if num >= (den + 24) / 25 {
        assert(25 * n >= d);
        scaled = 2 * target_amount as u128;
    } else {
        assert(25 * n < d);
        let c: u128 = 50 * target_amount as u128;
        let qc = c / den;
        let rc = c % den;
        proof {
            let x = (c as int) * n;
            lemma_fundamental_div_mod(c as int, d);
            lemma_mod_pos_bound(c as int, d);
            assert(x == ((qc as int) * n) * d + (rc as int) * n) by (nonlinear_arith)
                requires
                    x == (c as int) * n,
                    c as int == d * (qc as int) + rc as int,
            ;
            assert((rc as int) * n >= 0) by (nonlinear_arith)
                requires
                    rc >= 0,
                    n >= 0,
            ;
            lemma_div_add_multiple((qc as int) * n, (rc as int) * n, d);
            assert(x <= (2 * t) * d) by (nonlinear_arith)
                requires
                    x == (c as int) * n,
                    c as int == 50 * t,
                    25 * n < d,
                    t >= 0,
            ;
            lemma_div_is_ordered(x, (2 * t) * d, d);
            lemma_div_multiples_vanish(2 * t, d);
            assert((2 * t) * d == d * (2 * t)) by (nonlinear_arith);
            assert((rc as int) * n / d >= 0) by {
                lemma_div_is_ordered(0, (rc as int) * n, d);
            }
            assert(x / d <= 2 * t);
            assert(FRONT_RUN_IMPACT_FACTOR * t * n == x);
        }
        let q2 = mul_div(rc, num, den);
        scaled = qc * num + q2;
    }
    let front_run: u64 = if scaled <= max_position as u128 {
        scaled as u64
    } else {
        max_position
    };
    (front_run, front_run)
}

/// Estimated profit of bracketing a buy of `target_amount` with a front-run of
/// `front_run`, on a pool whose input side holds `reserve_in`.
///
/// The input reserve is a `u64` on chain, so the three trades must leave it one.
pub fn estimate_profit(reserve_in: u64, front_run: u64, target_amount: u64) -> (r: u128)
    requires
        reserve_in > 0,
        reserve_in + front_run + target_amount <= u64::MAX,
    ensures
        r == estimated_profit_spec(reserve_in as int, front_run as int, target_amount as int),
        r <= reserve_in as int + front_run as int + target_amount as int,
{
    let ghost ri = reserve_in as int;
    let ghost f = front_run as int;
    let ghost t = target_amount as int;
    let r1: u128 = reserve_in as u128 + front_run as u128;
    let s: u128 = r1 + target_amount as u128;
    let ghost r1i = r1 as int;
    let ghost si = s as int;
    proof {
        assert((u64::MAX as int) * (u64::MAX as int) <= u128::MAX) by (nonlinear_arith);
        assert(r1i * r1i + t * f <= r1i * si && r1i * si <= (u64::MAX as int) * (u64::MAX as int)
            && f * si <= r1i * r1i + t * f) by (nonlinear_arith)
            requires
                r1i == ri + f,
                si == r1i + t,
                ri > 0,
                f >= 0,
                t >= 0,
                si <= u64::MAX,
        ;
    }
    let den: u128 = r1 * r1 + target_amount as u128 * front_run as u128;
    let a: u128 = front_run as u128 * s;
    let ghost d = den as int;
    let ghost ai = a as int;
    proof {
        assert(d > 0) by (nonlinear_arith)
            requires
                d == r1i * r1i + t * f,
                r1i > 0,
                t >= 0,
                f >= 0,
        ;
    }
    let qa = a / den;
    let ra = a % den;
    proof {
        let x = ai * si;
        lemma_fundamental_div_mod(ai, d);
        lemma_mod_pos_bound(ai, d);
        assert(x == ((qa as int) * si) * d + (ra as int) * si) by (nonlinear_arith)
            requires
                x == ai * si,
                ai == d * (qa as int) + ra as int,
        ;
        assert((ra as int) * si >= 0) by (nonlinear_arith)
            requires
                ra >= 0,
                si >= 0,
        ;
        lemma_div_add_multiple((qa as int) * si, (ra as int) * si, d);
        assert(x <= si * d) by (nonlinear_arith)
            requires
                x == ai * si,
                ai <= d,
                si >= 0,
        ;
        lemma_div_is_ordered(x, si * d, d);
        lemma_div_multiples_vanish(si, d);
        assert(si * d == d * si) by (nonlinear_arith);
        lemma_div_is_ordered(0, (ra as int) * si, d);
        assert(si * (si * r1i - ri * t - ri * r1i) == x && si * r1i - ri * t == d) by (nonlinear_arith)
            requires
                x == ai * si,
                ai == f * si,
                d == r1i * r1i + t * f,
                r1i == ri + f,
                si == r1i + t,
        ;
        assert(back_run_proceeds(ri, f, t) == x / d);
    }
    let q2 = mul_div(ra, s, den);
    let proceeds: u128 = qa * s + q2;
    let cost: u128 = front_run as u128 + 2 * GAS_ESTIMATE_LAMPORTS as u128;
    if proceeds > cost {
        proceeds - cost
    } else {
        0
    }
}

/// The simulation keeps the constant product through all three trades.
///
/// After the front-run the pool holds `(r1, k / r1)` and after the target
/// `(s, k / s)`, each of product `k` by construction. Once the back-run has
/// sold the front-run's `reserve_out - k / r1` tokens, the output side holds
/// `k / s + reserve_out - k / r1 = out_num / out_den` and the input side
/// `in_num / in_den`, as below: their
/// product is again exactly `k`, and the bot receives `s - in_num / in_den`,
/// which rounded down is `back_run_proceeds`.
pub proof fn lemma_bracket_keeps_product(reserve_in: int, reserve_out: int, front_run: int, target_amount: int)
    requires
        reserve_in > 0,
        reserve_out > 0,
        front_run >= 0,
        target_amount >= 0,
    ensures
        ({
            let k = reserve_in * reserve_out;
            let r1 = reserve_in + front_run;
            let s = r1 + target_amount;
            let out_num = reserve_out * (s * r1 - reserve_in * target_amount);
            let out_den = s * r1;
            let in_num = reserve_in * s * r1;
            let in_den = s * r1 - reserve_in * target_amount;
            &&& in_den > 0
            &&& out_num == k * r1 + (reserve_out * r1 - k) * s
            &&& out_num * in_num == k * out_den * in_den
            &&& back_run_proceeds(reserve_in, front_run, target_amount) == (s * in_den - in_num) / in_den
        }),
{
    let k = reserve_in * reserve_out;
    let r1 = reserve_in + front_run;
    let s = r1 + target_amount;
    let out_num = reserve_out * (s * r1 - reserve_in * target_amount);
    let out_den = s * r1;
    let in_num = reserve_in * s * r1;
    let in_den = s * r1 - reserve_in * target_amount;
    assert(in_den == r1 * r1 + target_amount * front_run) by (nonlinear_arith)
        requires
            in_den == s * r1 - reserve_in * target_amount,
            r1 == reserve_in + front_run,
            s == r1 + target_amount,
    ;
    assert(in_den > 0) by (nonlinear_arith)
        requires
            in_den == r1 * r1 + target_amount * front_run,
            r1 > 0,
            target_amount >= 0,
            front_run >= 0,
    ;
    assert(out_num == k * r1 + (reserve_out * r1 - k) * s) by (nonlinear_arith)
        requires
            k == reserve_in * reserve_out,
            out_num == reserve_out * (s * r1 - reserve_in * target_amount),
            target_amount == s - r1,
    ;
    assert(out_num * in_num == k * out_den * in_den) by (nonlinear_arith)
        requires
            k == reserve_in * reserve_out,
            out_num == reserve_out * in_den,
            in_num == reserve_in * s * r1,
            out_den == s * r1,
    ;
    assert(s * in_den - in_num == s * (s * r1 - reserve_in * target_amount - reserve_in * r1)) by (nonlinear_arith)
        requires
            in_den == s * r1 - reserve_in * target_amount,
            in_num == reserve_in * s * r1,
    ;
}

/// A front-run sold straight back, with no target trade between, returns
/// exactly what it cost: the bracket loses the two fees and nothing else.
pub proof fn lemma_round_trip_loses_fees(reserve_in: int, front_run: int)
    requires
        reserve_in > 0,
        front_run >= 0,
    ensures
        back_run_proceeds(reserve_in, front_run, 0) == front_run,
        bracket_net(reserve_in, front_run, 0) == -2 * GAS_ESTIMATE_LAMPORTS,
{
    let r1 = reserve_in + front_run;
    assert(r1 * (r1 * r1 - reserve_in * 0 - reserve_in * r1) == front_run * (r1 * r1) && r1 * r1
        - reserve_in * 0 == r1 * r1) by (nonlinear_arith)
        requires
            r1 == reserve_in + front_run,
    ;
    assert(r1 * r1 > 0) by (nonlinear_arith)
        requires
            r1 > 0,
    ;
    lemma_div_multiples_vanish(front_run, r1 * r1);
    assert(front_run * (r1 * r1) == (r1 * r1) * front_run) by (nonlinear_arith);
}

/// Whatever the target's size and the pool, the front-run never exceeds the
/// position limit.
pub proof fn lemma_front_run_within_position(reserve_in: int, target_amount: int, max_position: int)
    ensures
        front_run_amount_spec(reserve_in, target_amount, max_position) <= max_position,
{
}

}
