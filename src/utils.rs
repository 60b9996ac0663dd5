//! Small conversions between addresses, amounts and text.
use vstd::prelude::*;
use vstd::string::StringExecFns;
use crate::address::{address_from_base58, address_of_base58};
use crate::config::LAMPORTS_PER_SOL;
use crate::types::Address;

verus! {

pub open spec fn digit_char(d: nat) -> char {
    if d == 0 {
        '0'
    } else if d == 1 {
        '1'
    } else if d == 2 {
        '2'
    } else if d == 3 {
        '3'
    } else if d == 4 {
        '4'
    } else if d == 5 {
        '5'
    } else if d == 6 {
        '6'
    } else if d == 7 {
        '7'
    } else if d == 8 {
        '8'
    } else {
        '9'
    }
}

/// Decimal digits of `n`, without leading zeros.
pub open spec fn decimal(n: nat) -> Seq<char>
    decreases n,
{
    if n < 10 {
        seq![digit_char(n)]
    } else {
        decimal(n / 10) + seq![digit_char(n % 10)]
    }
}

/// `2^53`: integers below it are exact as `f64`.
pub const TWO_POW_53: u128 = 9_007_199_254_740_992;

/// `2^52 * 10^9`: a quotient by `10^9` scaled past it has 53 significant bits.
pub const SCALED_MANTISSA_MIN: u128 = 4_503_599_627_370_496_000_000_000;

/// `n / d` rounded to the nearest integer, ties to the even one.
pub open spec fn round_half_even(n: nat, d: nat) -> nat {
    let q = n / d;
    let r = n % d;
    if 2 * r > d || (2 * r == d && q % 2 == 1) {
        q + 1
    } else {
        q
    }
}

/// The power of two by which `q * unit` must be cut to fit 53 bits.
pub open spec fn f64_unit(q: nat, unit: nat) -> nat
    decreases q,
{
    if q < TWO_POW_53 {
        unit
    } else {
        f64_unit(q / 2, 2 * unit)
    }
}

/// `lamports` as the `f64` that holds it: rounded to 53 significant bits.
pub open spec fn lamports_as_f64(lamports: nat) -> nat {
    let unit = f64_unit(lamports, 1);
    round_half_even(lamports, unit) * unit
}

/// Doubles `scaled` (and `unit` with it) until it has 53 significant bits
/// once divided by `10^9`.
pub open spec fn scale_up(scaled: nat, unit: nat) -> (nat, nat)
    decreases if scaled < SCALED_MANTISSA_MIN { SCALED_MANTISSA_MIN - scaled } else { 0 },
{
    if scaled == 0 || scaled >= SCALED_MANTISSA_MIN {
        (scaled, unit)
    } else {
        scale_up(2 * scaled, 2 * unit)
    }
}

/// `lamports` in ten-thousandths of a SOL, as `{:.4}` prints the `f64`
/// quotient `lamports as f64 / 1e9`: the lamports rounded to an `f64`, the
/// quotient rounded to an `f64` (`mantissa / unit`), and that rounded to four
/// decimals; every rounding is to nearest, ties to even.
pub open spec fn ten_thousandths(lamports: nat) -> nat {
    let (scaled, unit) = scale_up(lamports_as_f64(lamports), 1);
    let mantissa = round_half_even(scaled, LAMPORTS_PER_SOL as nat);
    round_half_even(mantissa * 10_000, unit)
}

/// `lamports` as SOL with four decimals, then " SOL".
pub open spec fn format_sol_spec(lamports: nat) -> Seq<char> {
    let units = ten_thousandths(lamports);
    let frac = units % 10_000;
    decimal(units / 10_000) + seq![
        '.',
        digit_char(frac / 1000),
        digit_char((frac / 100) % 10),
        digit_char((frac / 10) % 10),
        digit_char(frac % 10),
    ] + " SOL"@
}

fn round_half_even_exec(n: u128, d: u128) -> (r: u128)
    requires
        d > 0,
    ensures
        r == round_half_even(n as nat, d as nat),
        r <= n / d + 1,
{
    let q = n / d;
    let m = n % d;
    proof {
        vstd::arithmetic::div_mod::lemma_fundamental_div_mod(n as int, d as int);
        vstd::arithmetic::div_mod::lemma_mod_pos_bound(n as int, d as int);
    }
    if m > d - m || (m == d - m && q % 2 == 1) {
        proof {
            assert(q < n) by (nonlinear_arith)
                requires
                    n == d * q + m,
                    m >= 1,
                    d >= 1,
                    q >= 0,
            ;
        }
        q + 1
    } else {
        q
    }
}

fn digit_str(d: u128) -> (r: &'static str)
    requires
        d < 10,
    ensures
        r@ == seq![digit_char(d as nat)],
{
    proof {
        reveal_strlit("0");
        reveal_strlit("1");
        reveal_strlit("2");
        reveal_strlit("3");
        reveal_strlit("4");
        reveal_strlit("5");
        reveal_strlit("6");
        reveal_strlit("7");
        reveal_strlit("8");
        reveal_strlit("9");
    }
    if d == 0 {
        "0"
    } else if d == 1 {
        "1"
    } else if d == 2 {
        "2"
    } else if d == 3 {
        "3"
    } else if d == 4 {
        "4"
    } else if d == 5 {
        "5"
    } else if d == 6 {
        "6"
    } else if d == 7 {
        "7"
    } else if d == 8 {
        "8"
    } else {
        "9"
    }
}

fn push_decimal(out: &mut String, n: u128)
    ensures
        final(out)@ == old(out)@ + decimal(n as nat),
    decreases n,
{
    if n >= 10 {
        push_decimal(out, n / 10);
    }
    out.append(digit_str(n % 10));
    proof {
        if n >= 10 {
            assert(final(out)@ =~= old(out)@ + decimal(n as nat));
        } else {
            assert(final(out)@ =~= old(out)@ + decimal(n as nat));
        }
    }
}

/// Lamports as SOL with four decimals, as `{:.4}` prints the `f64`
/// `lamports as f64 / 1e9`: `"1.2346 SOL"`.
pub fn format_sol(lamports: u64) -> (r: String)
    ensures
        r@ == format_sol_spec(lamports as nat),
{
    let l = lamports as u128;
    let mut q: u128 = l;
    let mut unit: u128 = 1;
    while q >= TWO_POW_53
        invariant
            f64_unit(l as nat, 1) == f64_unit(q as nat, unit as nat),
            q as int == (l as int) / (unit as int),
            1 <= unit <= 0x1_0000_0000_0000_0000u128,
            l <= u64::MAX,
        decreases q,
    {
        proof {
            let li = l as int;
            let u2 = 2 * (unit as int);
            vstd::arithmetic::div_mod::lemma_div_denominator(li, unit as int, 2);
            vstd::arithmetic::div_mod::lemma_fundamental_div_mod(li, u2);
            vstd::arithmetic::div_mod::lemma_mod_pos_bound(li, u2);
            assert(li / u2 == (q as int) / 2);
            assert(u2 <= li) by (nonlinear_arith)
                requires
                    li == u2 * (li / u2) + li % u2,
                    li / u2 >= 1,
                    li % u2 >= 0,
                    u2 > 0,
            ;
        }
        q = q / 2;
        unit = unit * 2;
    }
    let rounded = round_half_even_exec(l, unit);
    proof {
        vstd::arithmetic::div_mod::lemma_fundamental_div_mod(l as int, unit as int);
        vstd::arithmetic::div_mod::lemma_mod_pos_bound(l as int, unit as int);
        assert(rounded * unit <= l + unit) by (nonlinear_arith)
            requires
                rounded <= l / unit + 1,
                l == unit * (l / unit) + l % unit,
                l % unit >= 0,
                unit >= 1,
        ;
    }
    let as_f64 = rounded * unit;
    let mut scaled: u128 = as_f64;
    let mut scale: u128 = 1;
    while scaled != 0 && scaled < SCALED_MANTISSA_MIN
        invariant
            scale_up(as_f64 as nat, 1) == scale_up(scaled as nat, scale as nat),
            1 <= scale,
            scaled == 0 || scale <= scaled,
            scaled < 2 * SCALED_MANTISSA_MIN,
        decreases if scaled < SCALED_MANTISSA_MIN { SCALED_MANTISSA_MIN - scaled } else { 0 },
    {
        scaled = scaled * 2;
        scale = scale * 2;
    }
    let mantissa = round_half_even_exec(scaled, LAMPORTS_PER_SOL as u128);
    let units = round_half_even_exec(mantissa * 10_000, scale);
    let frac = units % 10_000;
    let mut out = String::new();
    push_decimal(&mut out, units / 10_000);
    out.append(".");
    out.append(digit_str(frac / 1000));
    out.append(digit_str((frac / 100) % 10));
    out.append(digit_str((frac / 10) % 10));
    out.append(digit_str(frac % 10));
    out.append(" SOL");
    proof {
        reveal_strlit(".");
        reveal_strlit(" SOL");
        assert(out@ =~= format_sol_spec(lamports as nat));
    }
    out
}

/// The address whose base58 text is `s`.
pub fn parse_pubkey(s: &str) -> (r: Result<Address, String>)
    ensures
        match r {
            Ok(a) => address_of_base58(s@) == Some(a.bytes@),
            Err(message) => address_of_base58(s@).is_none() && message@ == "Invalid pubkey"@,
        },
{
    match address_from_base58(s) {
        Some(address) => Ok(address),
        None => {
            proof {
                reveal_strlit("Invalid pubkey");
            }
            Err(String::from_str("Invalid pubkey"))
        },
    }
}

} // verus!
