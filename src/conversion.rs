//! The linear map between mechanical angle, pulse width and duty-register value.
//!
//! Pulse widths are kept as integers by scaling them with the width of the
//! angle range: `scaled_pulse(a) == pulse_us(a) * angle_span()`, exactly.
use vstd::arithmetic::div_mod::{
    lemma_div_denominator, lemma_div_is_ordered, lemma_div_multiples_vanish,
    lemma_fundamental_div_mod, lemma_mod_bound,
};
use vstd::prelude::*;

verus! {

/// PWM carrier frequency in hertz.
pub const FREQUENCY_HZ: u32 = 50;

/// Bit width of the duty register that the timer is configured with.
pub const RESOLUTION_BITS: u32 = 11;

/// Period of the PWM carrier in microseconds (one over `FREQUENCY_HZ`).
pub const PERIOD_US: u64 = 20_000;

/// Pulse width in microseconds that commands `MIN_ANGLE`.
pub const MIN_PULSE_US: u64 = 500;

/// Pulse width in microseconds that commands `MAX_ANGLE`.
pub const MAX_PULSE_US: u64 = 2400;

/// Lowest angle of the nominal range, in degrees.
pub const MIN_ANGLE: i64 = -90;

/// Highest angle of the nominal range, in degrees.
pub const MAX_ANGLE: i64 = 90;

/// Width of the nominal angle range in degrees.
pub open spec fn angle_span() -> int {
    MAX_ANGLE - MIN_ANGLE
}

/// Width of the pulse range in microseconds.
pub open spec fn pulse_span() -> int {
    MAX_PULSE_US - MIN_PULSE_US
}

/// Pulse width commanded by `angle`, multiplied by `angle_span()`.
///
/// This is the linear interpolation through (`MIN_ANGLE`, `MIN_PULSE_US`) and
/// (`MAX_ANGLE`, `MAX_PULSE_US`); it is not clamped to the nominal range.
pub open spec fn scaled_pulse(angle: int) -> int {
    pulse_span() * (angle - MIN_ANGLE) + MIN_PULSE_US * angle_span()
}

/// Duty-register value commanded by `angle` when the register's top value is
/// `max_duty`: `max_duty * pulse_us / PERIOD_US`, truncated toward zero and
/// saturated to the range of `u32`.
pub open spec fn duty_of(angle: int, max_duty: int) -> int {
    let raw = max_duty * scaled_pulse(angle);
    let den = PERIOD_US * angle_span();
    if raw <= 0 {
        0
    } else if raw / den > u32::MAX {
        u32::MAX as int
    } else {
        raw / den
    }
}

/// Quotient of `a` by a positive `b`, rounded toward zero.
pub open spec fn trunc_div(a: int, b: int) -> int {
    if a >= 0 {
        a / b
    } else {
        -((-a) / b)
    }
}

/// `v` saturated to the range of `i16`.
pub open spec fn clamp_i16(v: int) -> int {
    if v > i16::MAX {
        i16::MAX as int
    } else if v < i16::MIN {
        i16::MIN as int
    } else {
        v
    }
}

/// Numerator of the angle recovered from a duty value, over the denominator
/// `pulse_span() * max_duty`.
pub open spec fn estimate_numerator(duty: int, max_duty: int) -> int {
    (duty * PERIOD_US - MIN_PULSE_US * max_duty) * angle_span() + MIN_ANGLE * pulse_span()
        * max_duty
}

/// Angle recovered from the duty-register value `duty`: the inverse of the two
/// steps of `duty_of`, truncated toward zero and saturated to `i16`.
///
/// With `max_duty == 0` the register has no steps: a zero register reads as
/// zero degrees and any other value as the top of the `i16` range.
pub open spec fn estimate_of(duty: int, max_duty: int) -> int {
    if max_duty == 0 {
        if duty == 0 {
            0
        } else {
            i16::MAX as int
        }
    } else {
        clamp_i16(trunc_div(estimate_numerator(duty, max_duty), pulse_span() * max_duty))
    }
}

/// For `b > 0`, `x / b` is the largest `q` with `b * q <= x`.
proof fn lemma_div_bracket(x: int, b: int)
    requires
        b > 0,
    ensures
        b * (x / b) <= x < b * (x / b) + b,
{
    lemma_fundamental_div_mod(x, b);
    lemma_mod_bound(x, b);
}

/// A larger angle never commands a smaller duty value, whatever the
/// register's top value.
pub proof fn lemma_duty_monotonic(angle1: int, angle2: int, max_duty: int)
    requires
        angle1 <= angle2,
        0 <= max_duty,
    ensures
        duty_of(angle1, max_duty) <= duty_of(angle2, max_duty),
{
    let s1 = scaled_pulse(angle1);
    let s2 = scaled_pulse(angle2);
    assert(max_duty * s1 <= max_duty * s2) by (nonlinear_arith)
        requires
            s1 <= s2,
            0 <= max_duty,
    ;
    lemma_div_is_ordered(max_duty * s1, max_duty * s2, PERIOD_US * angle_span());
}

/// The ends of the angle range command exactly the ends of the pulse range,
/// so their duty values are `max_duty * pulse_us / PERIOD_US`, truncated.
pub proof fn lemma_range_ends(max_duty: int)
    requires
        0 <= max_duty <= u32::MAX,
    ensures
        scaled_pulse(MIN_ANGLE as int) == MIN_PULSE_US * angle_span(),
        scaled_pulse(MAX_ANGLE as int) == MAX_PULSE_US * angle_span(),
        duty_of(MIN_ANGLE as int, max_duty) == max_duty * MIN_PULSE_US / PERIOD_US as int,
        duty_of(MAX_ANGLE as int, max_duty) == max_duty * MAX_PULSE_US / PERIOD_US as int,
{
    lemma_scaled_duty(max_duty * MIN_PULSE_US);
    lemma_scaled_duty(max_duty * MAX_PULSE_US);
    assert(max_duty * MAX_PULSE_US <= u32::MAX * PERIOD_US) by (nonlinear_arith)
        requires
            0 <= max_duty <= u32::MAX,
    ;
    lemma_div_is_ordered(max_duty * MAX_PULSE_US, u32::MAX * PERIOD_US, PERIOD_US as int);
    lemma_div_multiples_vanish(u32::MAX as int, PERIOD_US as int);
}

/// Scaling a pulse width and the period alike leaves the duty value as it is.
proof fn lemma_scaled_duty(x: int)
    requires
        0 <= x,
    ensures
        (x * angle_span()) / (PERIOD_US * angle_span()) == x / PERIOD_US as int,
{
    lemma_div_multiples_vanish(x, angle_span());
    assert(x * angle_span() == angle_span() * x) by (nonlinear_arith);
    lemma_div_denominator(x * angle_span(), angle_span(), PERIOD_US as int);
    assert(angle_span() * PERIOD_US == PERIOD_US * angle_span()) by (nonlinear_arith);
}

/// Reading back the duty value written for an angle of the nominal range
/// gives that angle or the one below it, provided one duty step is finer than
/// one degree (`pulse_span() * max_duty > PERIOD_US * angle_span()`).
pub proof fn lemma_readback_within_one_degree(angle: int, max_duty: int)
    requires
        MIN_ANGLE <= angle <= MAX_ANGLE,
        max_duty <= u32::MAX,
        pulse_span() * max_duty > PERIOD_US * angle_span(),
    ensures
        angle - 1 <= estimate_of(duty_of(angle, max_duty), max_duty) <= angle,
{
    let k: int = PERIOD_US * angle_span();
    let s = scaled_pulse(angle);
    let raw = max_duty * s;
    let d = raw / k;
    assert(0 < raw <= 432_000 * u32::MAX) by (nonlinear_arith)
        requires
            90_000 <= s <= 432_000,
            0 < max_duty <= u32::MAX,
            raw == max_duty * s,
    ;
    lemma_div_bracket(raw, k);
    assert(0 <= d <= u32::MAX) by (nonlinear_arith)
        requires
            k * d <= raw <= 432_000 * u32::MAX,
            0 < raw,
            raw < k * d + k,
            k == 3_600_000,
    ;
    assert(duty_of(angle, max_duty) == d);
    let den = pulse_span() * max_duty;
    let num = estimate_numerator(d, max_duty);
    assert(den * (angle - 1) < num <= den * angle) by (nonlinear_arith)
        requires
            num == k * d - 261_000 * max_duty,
            raw == max_duty * (1900 * angle + 261_000),
            k * d <= raw < k * d + k,
            den == 1900 * max_duty,
            den > k,
    ;
    if num >= 0 {
        let q = num / den;
        lemma_div_bracket(num, den);
        assert(angle - 1 <= q <= angle) by (nonlinear_arith)
            requires
                den * (angle - 1) < num <= den * angle,
                den * q <= num < den * q + den,
                den > 0,
        ;
    } else {
        let p = (-num) / den;
        lemma_div_bracket(-num, den);
        assert(p == -angle) by (nonlinear_arith)
            requires
                den * (angle - 1) < num <= den * angle,
                den * p <= -num < den * p + den,
                den > 0,
        ;
    }
}

} // verus!
