//! Human-readable byte counts and transfer rates.
//!
//! The figures are printed the way Rust prints an `f64` with a fixed number
//! of decimals: the byte count is first converted to the nearest `f64`
//! (ties to even), divided exactly by a power of 1024, and rounded to the
//! requested number of decimals with ties to even.  All of it is computed
//! here with integers, so the result is exact.

use vstd::prelude::*;
use vstd::arithmetic::div_mod::{lemma_div_denominator, lemma_fundamental_div_mod};
use crate::text::{decimal, digit_char, push_char, push_decimal, digit_to_char};

verus! {

/// 2^n.
pub open spec fn two_pow(n: nat) -> nat
    decreases n,
{
    if n == 0 { 1 } else { 2 * two_pow((n - 1) as nat) }
}

/// 1024^k.
pub open spec fn pow1024(k: nat) -> nat
    decreases k,
{
    if k == 0 { 1 } else { 1024 * pow1024((k - 1) as nat) }
}

/// 2^53: the first integer beyond which not every integer is an `f64`.
pub open spec fn f64_exact_limit() -> nat {
    0x20_0000_0000_0000
}

/// How many low bits of `x` fall outside a 53-bit mantissa.
pub open spec fn mantissa_shift(x: nat) -> nat
    decreases x,
{
    if x < f64_exact_limit() { 0 } else { 1 + mantissa_shift(x / 2) }
}

/// `num / den` rounded to the nearest integer, ties to even.
pub open spec fn round_half_even(num: nat, den: nat) -> nat {
    let q = num / den;
    let r = num % den;
    if r * 2 > den || (r * 2 == den && q % 2 == 1) { q + 1 } else { q }
}

/// The value of `x as f64` for an unsigned integer `x`: `x` itself below
/// 2^53, otherwise `x` rounded to 53 significant bits, ties to even.
pub open spec fn f64_value(x: nat) -> nat {
    let s = mantissa_shift(x);
    let p = two_pow(s);
    if s == 0 { x } else { round_half_even(x, p) * p }
}

/// How many times (at most `max`) the value can be divided by 1024 while
/// staying at or above 1024 before the division.
pub open spec fn unit_steps(v: nat, max: nat) -> nat
    decreases max,
{
    if max > 0 && v >= 1024 { 1 + unit_steps(v / 1024, (max - 1) as nat) } else { 0 }
}

/// A count of tenths printed with one decimal, e.g. 15 → "1.5".
pub open spec fn one_decimal(tenths: nat) -> Seq<char> {
    decimal(tenths / 10) + seq!['.', digit_char((tenths % 10) as int)]
}

/// The unit name after `k` divisions by 1024.
pub open spec fn size_unit(k: nat) -> Seq<char> {
    if k == 0 { "B"@ } else if k == 1 { "KB"@ } else if k == 2 { "MB"@ }
    else if k == 3 { "GB"@ } else if k == 4 { "TB"@ } else { "PB"@ }
}

/// `bytes` printed in the largest unit (at most `max` steps above bytes) in
/// which the value is at least 1: plain bytes as an integer ("512 B"),
/// larger units with one decimal ("1.5 KB").
pub open spec fn size_text(bytes: nat, max: nat) -> Seq<char> {
    let v = f64_value(bytes);
    let k = unit_steps(v, max);
    if k == 0 {
        decimal(bytes) + " B"@
    } else {
        one_decimal(round_half_even(10 * v, pow1024(k))) + seq![' '] + size_unit(k)
    }
}

/// A transfer rate as `format_rate` prints it: "0 B/s", whole bytes below
/// 1 KiB/s, whole KB/s below 1 MiB/s, then MB/s and GB/s with one decimal.
pub open spec fn rate_text(bps: nat) -> Seq<char> {
    let v = f64_value(bps);
    if bps == 0 {
        "0 B/s"@
    } else if bps >= pow1024(3) {
        one_decimal(round_half_even(10 * v, pow1024(3))) + " GB/s"@
    } else if bps >= pow1024(2) {
        one_decimal(round_half_even(10 * v, pow1024(2))) + " MB/s"@
    } else if bps >= 1024 {
        decimal(round_half_even(v, 1024)) + " KB/s"@
    } else {
        decimal(bps) + " B/s"@
    }
}

/// A transfer speed as the progress overlay prints it: whole bytes below
/// 1 KiB/s, otherwise KB/s, MB/s or GB/s with one decimal.
pub open spec fn speed_text(bps: nat) -> Seq<char> {
    let v = f64_value(bps);
    if bps >= pow1024(3) {
        one_decimal(round_half_even(10 * v, pow1024(3))) + " GB/s"@
    } else if bps >= pow1024(2) {
        one_decimal(round_half_even(10 * v, pow1024(2))) + " MB/s"@
    } else if bps >= 1024 {
        one_decimal(round_half_even(10 * v, 1024)) + " KB/s"@
    } else {
        decimal(bps) + " B/s"@
    }
}

proof fn lemma_pow1024_values()
    ensures
        pow1024(1) == 1024,
        pow1024(2) == 1048576,
        pow1024(3) == 1073741824,
        pow1024(4) == 1099511627776,
        pow1024(5) == 1125899906842624,
{
    reveal_with_fuel(pow1024, 6);
}

/// `num / den` rounded to the nearest integer, ties to even.
fn round_half_even_exec(num: u128, den: u128) -> (r: u128)
    requires
        den > 0,
    ensures
        r == round_half_even(num as nat, den as nat),
{
    let q = num / den;
    let rem = num % den;
    proof {
        lemma_fundamental_div_mod(num as int, den as int);
    }
    if rem > den - rem || (rem == den - rem && q % 2 == 1) {
        assert(den >= 2);
        assert(q <= num / 2) by (nonlinear_arith)
            requires
                q == num / den,
                den >= 2,
        {
            lemma_div_denominator_le(num as int, den as int);
        }
        q + 1
    } else {
        q
    }
}

proof fn lemma_div_denominator_le(x: int, d: int)
    requires
        x >= 0,
        d >= 2,
    ensures
        x / d <= x / 2,
{
    vstd::arithmetic::div_mod::lemma_div_is_ordered_by_denominator(x, 2, d);
}

/// The value of `x as f64`, exactly, as an integer.
pub fn f64_value_exec(x: u64) -> (v: u128)
    ensures
        v == f64_value(x as nat),
        v <= 0x2_0000_0000_0000_0000,
{
    let mut q: u128 = x as u128;
    let mut p: u128 = 1;
    let ghost mut s: nat = 0;
    while q >= 0x20_0000_0000_0000
        invariant
            p == two_pow(s),
            p >= 1,
            q == (x as nat) / (p as nat),
            mantissa_shift(x as nat) == s + mantissa_shift(q as nat),
            p <= x as nat || s == 0,
        decreases q,
    {
        proof {
            assert(2 * p <= x) by (nonlinear_arith)
                requires
                    q == (x as nat) / (p as nat),
                    q >= 2,
                    p >= 1,
            {
                lemma_fundamental_div_mod(x as int, p as int);
            }
            lemma_div_denominator(x as int, p as int, 2);
        }
        q = q / 2;
        p = p * 2;
        proof {
            s = s + 1;
        }
    }
    assert(mantissa_shift(q as nat) == 0);
    if p == 1 {
        assert(s == 0) by {
            if s > 0 {
                lemma_two_pow_ge(s);
            }
        }
        return x as u128;
    }
    assert(s > 0);
    let r = round_half_even_exec(x as u128, p);
    proof {
        lemma_fundamental_div_mod(x as int, p as int);
        assert(r <= q + 1);
        assert(r * p <= q * p + p) by (nonlinear_arith)
            requires r <= q + 1;
        assert(p * q <= x as int);
        assert(p <= x);
    }
    r * p
}

proof fn lemma_two_pow_ge(n: nat)
    requires
        n > 0,
    ensures
        two_pow(n) >= 2,
    decreases n,
{
    reveal_with_fuel(two_pow, 2);
    if n > 1 {
        lemma_two_pow_ge((n - 1) as nat);
    }
}

/// Appends `tenths` printed with one decimal.
fn push_one_decimal(s: &mut String, tenths: u128)
    ensures
        final(s)@ == old(s)@ + one_decimal(tenths as nat),
{
    push_decimal(s, tenths / 10);
    push_char(s, '.');
    push_char(s, digit_to_char((tenths % 10) as u8));
}

/// `bytes` in the largest of the first `max_steps + 1` units in which the
/// value is at least 1.
pub fn format_size_steps(bytes: u64, max_steps: usize) -> (s: String)
    requires
        max_steps <= 5,
    ensures
        s@ == size_text(bytes as nat, max_steps as nat),
{
    let v = f64_value_exec(bytes);
    let mut k: usize = 0;
    let mut w: u128 = v;
    let mut den: u128 = 1;
    proof {
        lemma_pow1024_values();
        reveal_with_fuel(pow1024, 1);
    }
    while k < max_steps && w >= 1024
        invariant
            k <= max_steps,
            max_steps <= 5,
            den == pow1024(k as nat),
            w == (v as nat) / (den as nat),
            unit_steps(v as nat, max_steps as nat) == k + unit_steps(w as nat, (max_steps - k) as nat),
        decreases max_steps - k,
    {
        proof {
            lemma_pow1024_values();
            lemma_div_denominator(v as int, den as int, 1024);
        }
        w = w / 1024;
        den = den * 1024;
        k = k + 1;
    }
    let mut s = String::new();
    if k == 0 {
        push_decimal(&mut s, bytes as u128);
        s.append(" B");
    } else {
        let t = round_half_even_exec(10 * v, den);
        push_one_decimal(&mut s, t);
        push_char(&mut s, ' ');
        if k == 1 {
            s.append("KB");
        } else if k == 2 {
            s.append("MB");
        } else if k == 3 {
            s.append("GB");
        } else if k == 4 {
            s.append("TB");
        } else {
            s.append("PB");
        }
    }
    s
}

/// Format a bytes-per-second rate for display.
pub fn format_rate(bps: u64) -> (s: String)
    ensures
        s@ == rate_text(bps as nat),
{
    proof {
        lemma_pow1024_values();
    }
    let v = f64_value_exec(bps);
    let mut s = String::new();
    if bps == 0 {
        s.append("0 B/s");
    } else if bps >= 1_073_741_824 {
        push_one_decimal(&mut s, round_half_even_exec(10 * v, 1_073_741_824));
        s.append(" GB/s");
    } else if bps >= 1_048_576 {
        push_one_decimal(&mut s, round_half_even_exec(10 * v, 1_048_576));
        s.append(" MB/s");
    } else if bps >= 1024 {
        push_decimal(&mut s, round_half_even_exec(v, 1024));
        s.append(" KB/s");
    } else {
        push_decimal(&mut s, bps as u128);
        s.append(" B/s");
    }
    s
}

/// Format a transfer speed for the progress overlay.
pub fn format_speed(bps: u64) -> (s: String)
    ensures
        s@ == speed_text(bps as nat),
{
    proof {
        lemma_pow1024_values();
    }
    let v = f64_value_exec(bps);
    let mut s = String::new();
    if bps >= 1_073_741_824 {
        push_one_decimal(&mut s, round_half_even_exec(10 * v, 1_073_741_824));
        s.append(" GB/s");
    } else if bps >= 1_048_576 {
        push_one_decimal(&mut s, round_half_even_exec(10 * v, 1_048_576));
        s.append(" MB/s");
    } else if bps >= 1024 {
        push_one_decimal(&mut s, round_half_even_exec(10 * v, 1024));
        s.append(" KB/s");
    } else {
        push_decimal(&mut s, bps as u128);
        s.append(" B/s");
    }
    s
}

} // verus!
