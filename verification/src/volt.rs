//! The voltage-to-code transfer function.
//!
//! A requested voltage is first scaled by the caller's reference: the scaled
//! term is `round(voltage * 65536 / (4 * vref))`, an integer the rest of the
//! conversion works from. The code is then
//! `round((scaled + 4 * ofs + 32768 - c) * 65536 / (m + 1))`, wrapped to 16
//! bits, where `ofs` is the group's span offset and `c` and `m` the
//! channel's offset and gain trim.

use vstd::arithmetic::div_mod::{lemma_div_is_ordered, lemma_div_pos_is_pos};
use vstd::prelude::*;

verus! {

/// Rounds the rational `n / d` to the nearest integer, halves away from
/// zero.
pub open spec fn round_div(n: int, d: int) -> int
    recommends
        d > 0,
{
    if n >= 0 {
        (2 * n + d) / (2 * d)
    } else {
        -((2 * (-n) + d) / (2 * d))
    }
}

/// The span- and offset-compensated sum the transfer function scales:
/// `scaled + 4 * ofs + 32768 - c`.
pub open spec fn spec_scaled_sum(scaled: int, ofs: u16, c: u16) -> int {
    scaled + 4 * ofs + 0x8000 - c
}

/// The 16-bit code for a scaled voltage term under span offset `ofs`,
/// offset trim `c` and gain trim `m`. Overflow wraps, as the chip's
/// registers do.
pub open spec fn spec_voltage_code(scaled: int, ofs: u16, c: u16, m: u16) -> u16 {
    (round_div(spec_scaled_sum(scaled, ofs, c) * 0x10000, m + 1) % 0x10000) as u16
}

/// Computes the transfer function. The scaled term is bounded so the
/// intermediate products fit the machine word.
pub fn voltage_code(scaled: i64, ofs: u16, c: u16, m: u16) -> (r: u16)
    requires
        -0x8000_0000 <= scaled <= 0x7FFF_FFFF,
    ensures
        r == spec_voltage_code(scaled as int, ofs, c, m),
{
    let x: i64 = scaled + 4 * (ofs as i64) + 0x8000 - (c as i64);
    let n: i64 = x * 0x10000;
    let d: i64 = (m as i64) + 1;
    let q: i64 = if n >= 0 {
        (2 * n + d) / (2 * d)
    } else {
        -((2 * (-n) + d) / (2 * d))
    };
    let rem: i64 = q % 0x10000;
    let w: i64 = (rem + 0x10000) % 0x10000;
    proof {
        assert(w == round_div(x as int * 0x10000, m + 1) % 0x10000);
    }
    w as u16
}

/// Monotonicity law: for a fixed trim pair and span offset, the transfer
/// function is non-decreasing in the scaled voltage term wherever the
/// pre-wrap result stays within 16 bits.
pub proof fn lemma_voltage_code_monotone(s1: int, s2: int, ofs: u16, c: u16, m: u16)
    requires
        s1 <= s2,
        0 <= round_div(spec_scaled_sum(s1, ofs, c) * 0x10000, m + 1),
        round_div(spec_scaled_sum(s2, ofs, c) * 0x10000, m + 1) < 0x10000,
    ensures
        spec_voltage_code(s1, ofs, c, m) <= spec_voltage_code(s2, ofs, c, m),
{
    let n1 = spec_scaled_sum(s1, ofs, c) * 0x10000;
    let n2 = spec_scaled_sum(s2, ofs, c) * 0x10000;
    assert(n1 <= n2) by (nonlinear_arith)
        requires
            s1 <= s2,
            n1 == (s1 + 4 * ofs + 0x8000 - c) * 0x10000,
            n2 == (s2 + 4 * ofs + 0x8000 - c) * 0x10000,
    ;
    lemma_round_div_monotone(n1, n2, (m + 1) as int);
    let q1 = round_div(n1, m + 1);
    let q2 = round_div(n2, m + 1);
    assert(0 <= q1 && q2 < 0x10000);
    assert(q1 % 0x10000 == q1);
    assert(q2 % 0x10000 == q2);
}

/// Rounding a rational to the nearest integer is monotone in the numerator.
pub proof fn lemma_round_div_monotone(n1: int, n2: int, d: int)
    requires
        n1 <= n2,
        d > 0,
    ensures
        round_div(n1, d) <= round_div(n2, d),
{
    if n1 >= 0 {
        lemma_div_is_ordered(2 * n1 + d, 2 * n2 + d, 2 * d);
    } else if n2 < 0 {
        lemma_div_is_ordered(2 * (-n2) + d, 2 * (-n1) + d, 2 * d);
    } else {
        lemma_div_pos_is_pos(2 * (-n1) + d, 2 * d);
        lemma_div_pos_is_pos(2 * n2 + d, 2 * d);
    }
}

/// Midscale law: a zero scaled voltage term under the power-on default
/// trims and span offset yields the constant those defaults imply.
pub proof fn lemma_default_midscale()
    ensures
        spec_voltage_code(0, 0x1555, 0x2000, 0x3FFF) == 0xD550,
{
    let n = spec_scaled_sum(0, 0x1555, 0x2000) * 0x10000;
    assert(n == 3042181120);
    assert((2 * n + 16384) / 32768 == 185680);
    assert(round_div(n, 0x4000) == 185680);
    assert(185680int % 0x10000 == 0xD550);
}

} // verus!
