//! Timer scaling with wide intermediate precision.

use vstd::prelude::*;

verus! {

/// The value `value * mul / div` rounded down, saturated at `u64::MAX`;
/// a zero divisor also saturates.
pub open spec fn mul_div_floor_spec(value: u64, mul: u64, div: u64) -> u64 {
    if div == 0 {
        u64::MAX
    } else if (value as int * mul as int) / (div as int) > u64::MAX as int {
        u64::MAX
    } else {
        ((value as int * mul as int) / (div as int)) as u64
    }
}

/// Scale `value * mul / div` with u128 intermediate precision, rounding down.
/// Saturates at `u64::MAX` on overflow or when `div == 0`.
pub fn mul_div_floor(value: u64, mul: u64, div: u64) -> (r: u64)
    ensures
        r == mul_div_floor_spec(value, mul, div),
{
    if div == 0 {
        return u64::MAX;
    }
    assert(value as int * mul as int <= u64::MAX as int * u64::MAX as int) by (nonlinear_arith);
    assert(u64::MAX as int * u64::MAX as int <= u128::MAX);
    let wide: u128 = (value as u128) * (mul as u128);
    let result: u128 = wide / (div as u128);
    if result > u64::MAX as u128 {
        u64::MAX
    } else {
        result as u64
    }
}

/// Scaling is monotonic in the scaled value: a larger tick count never
/// yields fewer nanoseconds (and vice versa), saturation included.
pub proof fn lemma_mul_div_floor_monotonic(v1: u64, v2: u64, mul: u64, div: u64)
    requires
        v1 <= v2,
    ensures
        mul_div_floor_spec(v1, mul, div) <= mul_div_floor_spec(v2, mul, div),
{
    if div != 0 {
        assert(v1 as int * mul as int <= v2 as int * mul as int) by (nonlinear_arith)
            requires
                v1 <= v2,
        ;
        vstd::arithmetic::div_mod::lemma_div_is_ordered(
            v1 as int * mul as int,
            v2 as int * mul as int,
            div as int,
        );
    }
}

/// Converting ticks to nanoseconds and back (with a tick frequency no larger
/// than the nanosecond rate) loses at most one tick and never gains any,
/// provided the forward conversion does not saturate.
pub proof fn lemma_mul_div_floor_round_trip(ticks: u64, nanos: u64, freq: u64)
    requires
        0 < freq <= nanos,
        (ticks as int * nanos as int) / (freq as int) <= u64::MAX,
    ensures
        ({
            let n = mul_div_floor_spec(ticks, nanos, freq);
            let back = mul_div_floor_spec(n, freq, nanos);
            &&& back <= ticks
            &&& back + 1 >= ticks
        }),
{
    let t = ticks as int;
    let nn = nanos as int;
    let f = freq as int;
    let x = (t * nn) / f;
    vstd::arithmetic::div_mod::lemma_fundamental_div_mod(t * nn, f);
    vstd::arithmetic::div_mod::lemma_mod_bound(t * nn, f);
    assert(mul_div_floor_spec(ticks, nanos, freq) == x);
    let n = mul_div_floor_spec(ticks, nanos, freq);
    // x * f <= t * nn < x * f + f
    assert(x * f <= t * nn && t * nn < x * f + f) by (nonlinear_arith)
        requires
            t * nn == f * x + (t * nn) % f,
            0 <= (t * nn) % f < f,
    ;
    let y = x * f;
    assert(y == n as int * freq as int);
    vstd::arithmetic::div_mod::lemma_fundamental_div_mod(y, nn);
    vstd::arithmetic::div_mod::lemma_mod_bound(y, nn);
    let b = y / nn;
    // b * nn <= y <= t * nn  ==> b <= t
    assert(b <= t) by (nonlinear_arith)
        requires
            y == nn * b + y % nn,
            0 <= y % nn < nn,
            y <= t * nn,
            nn > 0,
    ;
    // y > t * nn - f >= t * nn - nn  and y < b * nn + nn  ==> b > t - 2
    assert(b + 1 >= t) by (nonlinear_arith)
        requires
            y == nn * b + y % nn,
            0 <= y % nn < nn,
            t * nn < y + f,
            f <= nn,
            nn > 0,
    ;
    assert(b >= 0) by (nonlinear_arith)
        requires
            y == nn * b + y % nn,
            0 <= y % nn < nn,
            y >= 0,
            nn > 0,
    ;
    assert(b <= u64::MAX);
    assert(mul_div_floor_spec(n, freq, nanos) == b);
}

/// When the forward conversion is exact (no remainder), converting back
/// recovers the tick count it started from.
pub proof fn lemma_mul_div_floor_exact_round_trip(ticks: u64, nanos: u64, freq: u64)
    requires
        0 < freq,
        0 < nanos,
        (ticks as int * nanos as int) % (freq as int) == 0,
        (ticks as int * nanos as int) / (freq as int) <= u64::MAX,
    ensures
        mul_div_floor_spec(mul_div_floor_spec(ticks, nanos, freq), freq, nanos) == ticks,
{
    let t = ticks as int;
    let nn = nanos as int;
    let f = freq as int;
    vstd::arithmetic::div_mod::lemma_fundamental_div_mod(t * nn, f);
    let x = (t * nn) / f;
    assert(x * f == t * nn) by (nonlinear_arith)
        requires
            t * nn == f * x + (t * nn) % f,
            (t * nn) % f == 0,
    ;
    assert(x * f == nn * t) by (nonlinear_arith)
        requires
            x * f == t * nn,
    ;
    vstd::arithmetic::div_mod::lemma_div_multiples_vanish(t, nn);
    assert((x * f) / nn == t);
}

} // verus!
