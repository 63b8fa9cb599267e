//! Numbers of bytes as text: `KB` without decimals, `MB` and `GB` with two.

use vstd::prelude::*;
use crate::text::{decimal, decimal_text};

verus! {

/// From here on a double-precision number no longer holds every integer.
pub const FLOAT_EXACT: u64 = 0x20_0000_0000_0000;

pub const KB: u64 = 0x400;

pub const MB: u64 = 0x10_0000;

pub const GB: u64 = 0x4000_0000;

/// `a / b` rounded to the nearest integer, and to the even one of two that are as near.
pub open spec fn half_even(a: nat, b: nat) -> nat {
    let q = a / b;
    let twice = 2 * (a % b);
    if twice < b || (twice == b && q % 2 == 0) {
        q
    } else {
        q + 1
    }
}

/// The distance between neighbouring double-precision numbers around `n`.
pub open spec fn float_step(n: nat) -> nat
    decreases n,
{
    if n < FLOAT_EXACT {
        1
    } else {
        2 * float_step(n / 2)
    }
}

/// `n` as a double-precision number.
pub open spec fn as_float(n: nat) -> nat {
    half_even(n, float_step(n)) * float_step(n)
}

/// `b / unit` with two decimals.
pub open spec fn two_decimals(b: nat, unit: nat) -> Seq<char> {
    let hundredths = half_even(b * 100, unit);
    let rest = hundredths % 100;
    decimal(hundredths / 100) + "."@ + decimal(rest / 10) + decimal(rest % 10)
}

/// A number of bytes as text.
pub open spec fn size_text(bytes: nat) -> Seq<char> {
    let b = as_float(bytes);
    if b >= GB {
        two_decimals(b, GB as nat) + " GB"@
    } else if b >= MB {
        two_decimals(b, MB as nat) + " MB"@
    } else {
        decimal(half_even(b, KB as nat)) + " KB"@
    }
}

/// See [`half_even`].
fn round_half_even(a: u128, b: u128) -> (r: u128)
    requires
        0 < b <= 0x1_0000_0000_0000_0000,
        a <= 0x1_0000_0000_0000_0000_0000_0000,
    ensures
        r == half_even(a as nat, b as nat),
        r <= a / b + 1,
{
    let q: u128 = a / b;
    let twice: u128 = 2 * (a % b);
    assert(q <= a) by (nonlinear_arith)
        requires
            q == a / b,
            b > 0,
    ;
    if twice < b || (twice == b && q % 2 == 0) {
        q
    } else {
        q + 1
    }
}

/// See [`float_step`].
fn step_of(n: u64) -> (r: u64)
    ensures
        r == float_step(n as nat),
        1 <= r,
        r <= 1 || r <= n / 0x10_0000_0000_0000,
    decreases n,
{
    if n < FLOAT_EXACT {
        1
    } else {
        2 * step_of(n / 2)
    }
}

/// See [`as_float`].
fn rounded(n: u64) -> (r: u128)
    ensures
        r == as_float(n as nat),
        r <= 0x2000_0000_0000_0000_0000,
{
    let step: u64 = step_of(n);
    assert(step <= 4096);
    let quotient: u128 = round_half_even(n as u128, step as u128);
    assert(n as u128 / step as u128 <= n as u128) by (nonlinear_arith)
        requires
            step >= 1,
    ;
    assert(quotient * step as u128 <= 0x1_0000_0000_0000_0000 * 4096) by (nonlinear_arith)
        requires
            quotient <= 0x1_0000_0000_0000_0000,
            step <= 4096,
    ;
    quotient * step as u128
}

/// See [`two_decimals`].
fn with_two_decimals(b: u128, unit: u64) -> (r: String)
    requires
        unit == MB || unit == GB,
        b <= 0x2000_0000_0000_0000_0000,
    ensures
        r@ == two_decimals(b as nat, unit as nat),
{
    let hundredths: u128 = round_half_even(b * 100, unit as u128);
    assert(hundredths / 100 <= u64::MAX);
    let rest: u64 = (hundredths % 100) as u64;
    let mut out: String = decimal_text((hundredths / 100) as u64);
    out.append(".");
    out.append(decimal_text(rest / 10).as_str());
    out.append(decimal_text(rest % 10).as_str());
    out
}

/// A number of bytes as text; see [`size_text`].
pub fn format_bytes(bytes: u64) -> (r: String)
    ensures
        r@ == size_text(bytes as nat),
{
    let b: u128 = rounded(bytes);
    if b >= GB as u128 {
        let mut out: String = with_two_decimals(b, GB);
        out.append(" GB");
        out
    } else if b >= MB as u128 {
        let mut out: String = with_two_decimals(b, MB);
        out.append(" MB");
        out
    } else {
        let mut out: String = decimal_text(round_half_even(b, KB as u128) as u64);
        out.append(" KB");
        out
    }
}

/// Rounding gives the nearest integer, and the even one of two that are as near.
pub proof fn law_rounding_gives_the_nearest(a: nat, b: nat, h: nat)
    requires
        b > 0,
    ensures
        2 * (a - half_even(a, b) * b) <= b,
        2 * (half_even(a, b) * b - a) <= b,
        2 * (a - h * b) < b && 2 * (h * b - a) < b ==> half_even(a, b) == h,
        2 * (a - h * b) == b && h % 2 == 0 ==> half_even(a, b) == h,
        2 * (h * b - a) == b && h % 2 == 0 ==> half_even(a, b) == h,
{
    let q: int = (a / b) as int;
    let m: int = (a % b) as int;
    let r: int = half_even(a, b) as int;
    let b: int = b as int;
    let h: int = h as int;
    let a: int = a as int;
    vstd::arithmetic::div_mod::lemma_fundamental_div_mod(a, b);
    assert(a == q * b + m) by (nonlinear_arith)
        requires
            a == b * q + m,
    ;
    assert(0 <= m < b);
    assert((q + 1) * b == q * b + b) by (nonlinear_arith);
    let close = 2 * (a - h * b) <= b && 2 * (h * b - a) <= b;
    if close {
        assert(h == q || h == q + 1) by (nonlinear_arith)
            requires
                b > 0,
                0 <= m < b,
                a == q * b + m,
                2 * (a - h * b) <= b,
                2 * (h * b - a) <= b,
        ;
    }
}

/// A number below 2^53 is a double-precision number.
pub proof fn law_small_numbers_are_exact(n: nat)
    requires
        n < 0x20_0000_0000_0000,
    ensures
        as_float(n) == n,
{
    assert(float_step(n) == 1);
    assert(n / 1 == n);
    assert(n % 1 == 0);
}

/// The distance between neighbouring double-precision numbers doubles with the number.
pub proof fn law_steps_double(n: nat)
    ensures
        n < 0x20_0000_0000_0000 ==> float_step(n) == 1,
        n >= 0x10_0000_0000_0000 ==> float_step(2 * n) == 2 * float_step(n),
        n >= 0x10_0000_0000_0000 ==> float_step(2 * n + 1) == 2 * float_step(n),
{
    assert((2 * n) / 2 == n);
    assert((2 * n + 1) / 2 == n);
}

/// Whether `h` is the integer nearest to `a / b`, and the even one of two that are as near.
pub open spec fn is_nearest(a: int, b: int, h: int) -> bool {
    &&& 2 * (a - h * b) <= b
    &&& 2 * (h * b - a) <= b
    &&& 2 * (a - h * b) == b || 2 * (h * b - a) == b ==> h % 2 == 0
}

/// A number of bytes is given in gibibytes from one on, else in mebibytes from one on, and else in
/// kibibytes: the first two to the nearest hundredth, the last to the nearest whole.
pub proof fn law_how_a_number_of_bytes_is_told(bytes: nat, b: nat, h: nat)
    requires
        b == as_float(bytes),
    ensures
        b >= 0x4000_0000 && is_nearest(b as int * 100, 0x4000_0000, h as int) ==> size_text(bytes)
            == decimal(h / 100) + "."@ + decimal((h / 10) % 10) + decimal(h % 10) + " GB"@,
        0x10_0000 <= b < 0x4000_0000 && is_nearest(b as int * 100, 0x10_0000, h as int) ==> size_text(
            bytes,
        ) == decimal(h / 100) + "."@ + decimal((h / 10) % 10) + decimal(h % 10) + " MB"@,
        b < 0x10_0000 && is_nearest(b as int, 0x400, h as int) ==> size_text(bytes) == decimal(h)
            + " KB"@,
{
    law_rounding_gives_the_nearest(b * 100, 0x4000_0000, h);
    law_rounding_gives_the_nearest(b * 100, 0x10_0000, h);
    law_rounding_gives_the_nearest(b, 0x400, h);
    assert((h % 100) / 10 == (h / 10) % 10);
    assert((h % 100) % 10 == h % 10);
}

/// A number as a double-precision number is the nearest multiple of the distance between
/// neighbours.
pub proof fn law_floats_are_the_nearest(n: nat, h: nat)
    requires
        is_nearest(n as int, float_step(n) as int, h as int),
    ensures
        as_float(n) == h * float_step(n),
{
    lemma_step_is_positive(n);
    law_rounding_gives_the_nearest(n, float_step(n), h);
}

proof fn lemma_step_is_positive(n: nat)
    ensures
        float_step(n) > 0,
    decreases n,
{
    if n >= FLOAT_EXACT {
        lemma_step_is_positive(n / 2);
    }
}

} // verus!
