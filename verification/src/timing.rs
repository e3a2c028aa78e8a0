//! The divider settings of the basic timer that paces the DAC: the prescaler
//! and auto-reload values that make it emit one trigger per sample.
//!
//! The hardware period is `(ARR + 1) * (PSC + 1)` kernel-clock cycles, so the
//! values are worked out here rather than by the HAL's frequency helper.

use vstd::prelude::*;

verus! {

/// Kernel-clock cycles per sample, rounded to the nearest, at least one.
pub open spec fn spec_ticks(kernel_clk_hz: u32, sample_rate_hz: u32) -> int {
    let t = (kernel_clk_hz + sample_rate_hz / 2) / (sample_rate_hz as int);
    if t < 1 {
        1
    } else {
        t
    }
}

/// The prescaler for a number of cycles: the auto-reload counter holds at
/// most 65536 cycles.
pub open spec fn spec_psc(ticks: int) -> int {
    (ticks - 1) / 65536
}

/// The auto-reload value for a number of cycles and a prescaler.
pub open spec fn spec_arr(ticks: int, psc: int) -> int {
    ticks / (psc + 1) - 1
}

/// The divider settings of the trigger timer.
#[derive(Clone, Copy, Debug, PartialEq, Eq, Structural)]
pub struct Tim6Timing {
    /// Prescaler register value.
    pub psc: u16,
    /// Auto-reload register value.
    pub arr: u16,
    /// The sample rate that these settings give, in Hz.
    pub actual_hz: u32,
}

/// Prescaler and auto-reload values that make a timer clocked at
/// `kernel_clk_hz` emit `sample_rate_hz` triggers per second, as near as the
/// integer division allows, and the rate that they give.
pub fn tim6_timing(kernel_clk_hz: u32, sample_rate_hz: u32) -> (t: Tim6Timing)
    requires
        sample_rate_hz > 0,
    ensures
        t.psc == spec_psc(spec_ticks(kernel_clk_hz, sample_rate_hz)),
        t.arr == spec_arr(spec_ticks(kernel_clk_hz, sample_rate_hz), t.psc as int),
        t.actual_hz == kernel_clk_hz as int / ((t.psc as int + 1) * (t.arr as int + 1)),
{
    let q: u64 = (kernel_clk_hz as u64 + sample_rate_hz as u64 / 2) / sample_rate_hz as u64;
    let ticks: u64 = if q < 1 {
        1
    } else {
        q
    };
    let ghost tk = spec_ticks(kernel_clk_hz, sample_rate_hz);
    assert(ticks == tk);
    proof {
        lemma_ticks_bound(kernel_clk_hz, sample_rate_hz);
    }
    let psc: u64 = (ticks - 1) / 65_536;
    let d: u64 = ticks / (psc + 1);
    proof {
        lemma_reload_range(ticks as int);
    }
    let r: u64 = if d < 1 {
        1
    } else if d > 65_536 {
        65_536
    } else {
        d
    };
    let arr: u64 = r - 1;
    assert(r == d);
    proof {
        lemma_period_bound(ticks as int, psc as int);
    }
    let period: u64 = (psc + 1) * (arr + 1);
    let actual: u32 = kernel_clk_hz / (period as u32);
    Tim6Timing { psc: psc as u16, arr: arr as u16, actual_hz: actual }
}

/// The number of cycles per sample fits in 32 bits.
pub proof fn lemma_ticks_bound(kernel_clk_hz: u32, sample_rate_hz: u32)
    requires
        sample_rate_hz > 0,
    ensures
        1 <= spec_ticks(kernel_clk_hz, sample_rate_hz) <= 0xFFFF_FFFF,
{
    let k = kernel_clk_hz as int;
    let s = sample_rate_hz as int;
    if s == 1 {
        assert((k + s / 2) / s == k);
    } else {
        assert((k + s / 2) / s <= k) by (nonlinear_arith)
            requires
                s >= 2,
                k >= 0,
        ;
    }
}

/// For any positive number of cycles the prescaler fits in 16 bits and the
/// quotient that becomes `ARR + 1` lies in 1..=65536.
pub proof fn lemma_reload_range(ticks: int)
    requires
        1 <= ticks <= 0xFFFF_FFFF,
    ensures
        0 <= spec_psc(ticks) <= 0xFFFF,
        1 <= ticks / (spec_psc(ticks) + 1) <= 65536,
        spec_psc(ticks) + 1 <= ticks,
{
    let p = spec_psc(ticks);
    assert(0 <= p <= 0xFFFF) by (nonlinear_arith)
        requires
            p == (ticks - 1) / 65536,
            1 <= ticks <= 0xFFFF_FFFF,
    ;
    assert(p + 1 <= ticks) by (nonlinear_arith)
        requires
            p == (ticks - 1) / 65536,
            1 <= ticks,
    ;
    assert(ticks <= (p + 1) * 65536) by (nonlinear_arith)
        requires
            p == (ticks - 1) / 65536,
            1 <= ticks,
    ;
    assert(1 <= ticks / (p + 1) <= 65536) by (nonlinear_arith)
        requires
            1 <= p + 1 <= ticks,
            ticks <= (p + 1) * 65536,
    ;
}

/// The period that the two registers give is at most the requested number of
/// cycles and short of it by less than one prescaler step.
pub proof fn lemma_period_bound(ticks: int, psc: int)
    requires
        1 <= ticks <= 0xFFFF_FFFF,
        psc == spec_psc(ticks),
    ensures
        1 <= (psc + 1) * (spec_arr(ticks, psc) + 1) <= ticks,
        ticks - (psc + 1) * (spec_arr(ticks, psc) + 1) < psc + 1,
{
    lemma_reload_range(ticks);
    let q = ticks / (psc + 1);
    assert(1 <= (psc + 1) * q <= ticks && ticks - (psc + 1) * q < psc + 1) by (nonlinear_arith)
        requires
            psc + 1 >= 1,
            q == ticks / (psc + 1),
            q >= 1,
    ;
}

/// The cycles per sample are the whole number nearest to the clock divided by
/// the sample rate (halves rounded up), and at least one.
pub proof fn lemma_ticks_nearest(kernel_clk_hz: u32, sample_rate_hz: u32)
    requires
        sample_rate_hz > 0,
    ensures
        spec_ticks(kernel_clk_hz, sample_rate_hz) >= 1,
        2 * kernel_clk_hz >= sample_rate_hz ==> 2 * sample_rate_hz * spec_ticks(
            kernel_clk_hz,
            sample_rate_hz,
        ) <= 2 * kernel_clk_hz + sample_rate_hz,
        2 * kernel_clk_hz >= sample_rate_hz ==> 2 * kernel_clk_hz + sample_rate_hz < 2
            * sample_rate_hz * (spec_ticks(kernel_clk_hz, sample_rate_hz) + 1) + (
        sample_rate_hz % 2),
        2 * kernel_clk_hz < sample_rate_hz ==> spec_ticks(kernel_clk_hz, sample_rate_hz) == 1,
{
    let k = kernel_clk_hz as int;
    let s = sample_rate_hz as int;
    let q = (k + s / 2) / s;
    assert(s * q <= k + s / 2 < s * (q + 1)) by (nonlinear_arith)
        requires
            s > 0,
            q == (k + s / 2) / s,
            k >= 0,
    ;
    assert(2 * (s / 2) + s % 2 == s);
    if 2 * k >= s {
        assert(k + s / 2 >= s) by (nonlinear_arith)
            requires
                2 * k >= s,
                2 * (s / 2) + s % 2 == s,
                s > 0,
                0 <= s % 2 < 2,
        ;
        assert(q >= 1) by (nonlinear_arith)
            requires
                s > 0,
                q == (k + s / 2) / s,
                k + s / 2 >= s,
        ;
        assert(2 * s * q <= 2 * k + s && 2 * k + s < 2 * s * (q + 1) + s % 2) by (
        nonlinear_arith)
            requires
                s * q <= k + s / 2 < s * (q + 1),
                2 * (s / 2) + s % 2 == s,
        ;
    } else {
        assert(k + s / 2 < s);
        assert(q == 0) by (nonlinear_arith)
            requires
                s > 0,
                q == (k + s / 2) / s,
                0 <= k + s / 2 < s,
        ;
    }
}

/// Up to 65536 cycles per sample the prescaler stays at zero and the period
/// is exactly the requested number of cycles.
pub proof fn lemma_period_exact(ticks: int)
    requires
        1 <= ticks <= 65536,
    ensures
        spec_psc(ticks) == 0,
        spec_arr(ticks, 0) + 1 == ticks,
{
}

} // verus!
