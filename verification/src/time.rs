//! Time tick generation and formatting.
//!
//! Time is a scalar count of seconds. Ticks fall on steps chosen from a fixed
//! list of seconds, minutes and hours, and labels read `h:mm:ss`, `m:ss` or
//! plain seconds.

use vstd::prelude::*;
use crate::fixed::{Fixed, UNIT, abs_int, ceil_div, div_ceil, max_int, min_int};
use crate::format::{
    decimal,
    decimal_padded,
    magnitude,
    push_decimal,
    push_decimal_padded,
};
use crate::ticks::{TICK_LIMIT, holds, in_tick_range, ticks_between, ticks_over};

verus! {

/// How many candidate steps there are.
pub const TIME_STEP_CANDIDATES: usize = 17;

/// The `k`-th candidate step in whole seconds, in ascending order: seconds
/// `1, 2, 5, 10, 15, 30`, minutes `1, 2, 5, 10, 15, 30` and hours
/// `1, 2, 3, 6, 12`.
pub open spec fn time_candidate(k: int) -> int {
    if k == 0 {
        1
    } else if k == 1 {
        2
    } else if k == 2 {
        5
    } else if k == 3 {
        10
    } else if k == 4 {
        15
    } else if k == 5 {
        30
    } else if k == 6 {
        60
    } else if k == 7 {
        120
    } else if k == 8 {
        300
    } else if k == 9 {
        600
    } else if k == 10 {
        900
    } else if k == 11 {
        1_800
    } else if k == 12 {
        3_600
    } else if k == 13 {
        7_200
    } else if k == 14 {
        10_800
    } else if k == 15 {
        21_600
    } else {
        43_200
    }
}

/// Whether a step of `seconds` whole seconds is at least the naive step
/// `span / count`.
pub open spec fn covers(seconds: int, span: int, count: int) -> bool {
    seconds * UNIT * count >= span
}

/// The step used when no candidate is large enough: the naive step rounded up
/// to whole hours, and at least one hour.
pub open spec fn hourly_step(span: int, count: int) -> int {
    max_int(div_ceil(span, count * (3_600 * UNIT)), 1) * (3_600 * UNIT)
}

/// The first candidate from the `k`-th on that covers the naive step, as a
/// scalar, or the hourly step when none does.
pub open spec fn time_step_from(k: int, span: int, count: int) -> int
    decreases TIME_STEP_CANDIDATES - k,
{
    if k >= TIME_STEP_CANDIDATES || k < 0 {
        hourly_step(span, count)
    } else if covers(time_candidate(k), span, count) {
        time_candidate(k) * UNIT
    } else {
        time_step_from(k + 1, span, count)
    }
}

/// The nice time step for `count` intervals over `span`: the first candidate
/// that is at least the naive step, else the naive step rounded up to whole
/// hours.
pub open spec fn time_step_of(span: int, count: int) -> int {
    if span <= 0 {
        0
    } else {
        time_step_from(0, span, max_int(count, 1))
    }
}

/// The nice time ticks for the interval between `min` and `max`, in either
/// order: none for a count of zero, the single value for an empty interval,
/// else the multiples of the nice time step that enclose the interval.
pub open spec fn nice_time_ticks_of(min: int, max: int, count: int) -> Seq<int> {
    if count <= 0 {
        Seq::empty()
    } else if min == max {
        seq![min]
    } else {
        let lo = min_int(min, max);
        let hi = max_int(min, max);
        ticks_over(lo, hi, time_step_of(hi - lo, count))
    }
}

/// The text of a time of `v` given a tick step of `step`.
///
/// The value is rounded to whole seconds, halves away from zero. Hours show
/// when the step is at least an hour or the value has any; failing that,
/// minutes show when the step is at least a minute or the value has any;
/// failing that, plain seconds. A negative value gets a minus sign.
pub open spec fn time_text(v: int, step: int) -> Seq<char> {
    let sign = if v < 0 {
        seq!['-']
    } else {
        Seq::<char>::empty()
    };
    let secs = (2 * abs_int(v) + UNIT) / (2 * UNIT);
    let h = (secs / 3_600) as nat;
    let m = ((secs / 60) % 60) as nat;
    let s = (secs % 60) as nat;
    if abs_int(step) >= 3_600 * UNIT || h > 0 {
        sign + decimal(h) + seq![':'] + decimal_padded(m, 2) + seq![':'] + decimal_padded(s, 2)
    } else if abs_int(step) >= 60 * UNIT || m > 0 {
        sign + decimal(m) + seq![':'] + decimal_padded(s, 2)
    } else {
        sign + decimal(s)
    }
}

/// The nice time step is at least one second and within a bound that keeps
/// the ticks representable.
pub proof fn lemma_time_step_bounds(k: int, span: int, count: int)
    requires
        0 <= k <= TIME_STEP_CANDIDATES,
        count > 0,
        1 <= span <= 2 * TICK_LIMIT,
    ensures
        UNIT <= time_step_from(k, span, count) <= 4 * TICK_LIMIT,
    decreases TIME_STEP_CANDIDATES - k,
{
    if k >= TIME_STEP_CANDIDATES {
        let d = count * (3_600 * UNIT);
        assert(d >= 3_600 * UNIT) by (nonlinear_arith)
            requires
                count >= 1,
                d == count * (3_600 * UNIT),
        ;
        crate::fixed::lemma_floor_div_bounds(-span, d);
        let hours = max_int(div_ceil(span, d), 1);
        vstd::arithmetic::div_mod::lemma_fundamental_div_mod(-span, d);
        vstd::arithmetic::div_mod::lemma_mod_bound(-span, d);
        let g = (-span) / d;
        let up = -g;
        assert(d * up == -(d * g)) by (nonlinear_arith)
            requires
                up == -g,
        ;
        assert(d * up < span + d);
        if up >= 2 {
            assert(d * up >= d * 2) by (nonlinear_arith)
                requires
                    up >= 2,
                    d > 0,
            ;
            assert((3_600 * UNIT) * up <= d * up) by (nonlinear_arith)
                requires
                    up >= 0,
                    d >= 3_600 * UNIT,
            ;
        }
        assert(hours * (3_600 * UNIT) == (3_600 * UNIT) * hours) by (nonlinear_arith);
    } else if covers(time_candidate(k), span, count) {
    } else {
        lemma_time_step_bounds(k + 1, span, count);
    }
}

/// The `k`-th candidate step in whole seconds.
fn candidate(k: usize) -> (c: i128)
    requires
        k < TIME_STEP_CANDIDATES,
    ensures
        c == time_candidate(k as int),
        1 <= c <= 43_200,
{
    match k {
        0 => 1,
        1 => 2,
        2 => 5,
        3 => 10,
        4 => 15,
        5 => 30,
        6 => 60,
        7 => 120,
        8 => 300,
        9 => 600,
        10 => 900,
        11 => 1_800,
        12 => 3_600,
        13 => 7_200,
        14 => 10_800,
        15 => 21_600,
        _ => 43_200,
    }
}

/// Computes the nice time step for the naive step `span / count`.
///
/// A span that is not positive has the step zero, and a count of zero counts
/// as one. Otherwise the step is the least candidate that is at least the
/// naive step, or beyond the candidates the naive step rounded up to whole
/// hours.
pub fn nice_time_step_seconds(span: i128, count: usize) -> (step: i128)
    requires
        span <= 2 * TICK_LIMIT,
    ensures
        step == time_step_of(span as int, count as int),
        span >= 1 ==> UNIT <= step <= 4 * TICK_LIMIT,
{
    if span <= 0 {
        return 0;
    }
    let n: i128 = if count == 0 {
        1
    } else {
        count as i128
    };
    proof {
        lemma_time_step_bounds(0, span as int, n as int);
    }
    let mut k: usize = 0;
    while k < TIME_STEP_CANDIDATES
        invariant
            0 <= k <= TIME_STEP_CANDIDATES,
            n == max_int(count as int, 1),
            n > 0,
            time_step_of(span as int, n as int) == time_step_from(k as int, span as int, n as int),
        decreases TIME_STEP_CANDIDATES - k,
    {
        let c: i128 = candidate(k);
        assert(c * (UNIT as int) * n <= 43_200 * (UNIT as int) * 0x1_0000_0000_0000_0000)
            by (nonlinear_arith)
            requires
                1 <= c <= 43_200,
                0 < n < 0x1_0000_0000_0000_0000,
        ;
        if c * (UNIT as i128) * n >= span {
            return c * (UNIT as i128);
        }
        k = k + 1;
    }
    let hour: i128 = 3_600 * (UNIT as i128);
    assert(0 < n * hour <= 0x1_0000_0000_0000_0000 * hour) by (nonlinear_arith)
        requires
            0 < n < 0x1_0000_0000_0000_0000,
            hour > 0,
    ;
    let hours: i128 = ceil_div(span, n * hour);
    let hours: i128 = if hours < 1 {
        1
    } else {
        hours
    };
    assert(hours * hour == time_step_from(k as int, span as int, n as int));
    hours * hour
}

/// Returns the nice ticks for a time interval expressed in seconds.
///
/// The bounds may come in either order. A count of zero gives no ticks and an
/// empty interval gives its single value. Otherwise the ticks are the whole
/// multiples of the nice time step that enclose the interval, at most
/// `MAX_TICKS` of them.
pub fn nice_time_ticks_seconds(min: Fixed, max: Fixed, count: usize) -> (ticks: Vec<Fixed>)
    requires
        in_tick_range(min as int),
        in_tick_range(max as int),
    ensures
        holds(ticks@, nice_time_ticks_of(min as int, max as int, count as int)),
{
    if count == 0 {
        return Vec::new();
    }
    if min == max {
        let mut single: Vec<Fixed> = Vec::new();
        single.push(min);
        return single;
    }
    let (lo, hi): (Fixed, Fixed) = if min > max {
        (max, min)
    } else {
        (min, max)
    };
    let span: i128 = hi as i128 - lo as i128;
    let step: i128 = nice_time_step_seconds(span, count);
    ticks_between(lo, hi, step)
}

/// Formats a tick value in seconds, given the tick step in seconds.
pub fn format_time_seconds(v: Fixed, step: Fixed) -> (label: String)
    ensures
        label@ == time_text(v as int, step as int),
{
    let unit: u128 = UNIT as u128;
    let secs: u64 = ((2 * (magnitude(v) as u128) + unit) / (2 * unit)) as u64;
    let step_abs: u64 = magnitude(step);
    let h: u64 = secs / 3_600;
    let m: u64 = (secs / 60) % 60;
    let s: u64 = secs % 60;
    let mut label = String::new();
    if v < 0 {
        label.append("-");
    }
    proof {
        reveal_strlit("-");
        reveal_strlit(":");
    }
    let ghost sign = label@;
    assert(sign =~= if v < 0 {
        seq!['-']
    } else {
        Seq::<char>::empty()
    });
    if step_abs >= 3_600 * (UNIT as u64) || h > 0 {
        push_decimal(&mut label, h);
        label.append(":");
        push_decimal_padded(&mut label, m, 2);
        label.append(":");
        push_decimal_padded(&mut label, s, 2);
        assert(label@ =~= sign + decimal(h as nat) + seq![':'] + decimal_padded(m as nat, 2)
            + seq![':'] + decimal_padded(s as nat, 2));
    } else if step_abs >= 60 * (UNIT as u64) || m > 0 {
        push_decimal(&mut label, m);
        label.append(":");
        push_decimal_padded(&mut label, s, 2);
        assert(label@ =~= sign + decimal(m as nat) + seq![':'] + decimal_padded(s as nat, 2));
    } else {
        push_decimal(&mut label, s);
    }
    label
}

/// The nice time step covers the naive step: it is at least `span / count`.
pub proof fn lemma_time_step_covers(k: int, span: int, count: int)
    requires
        0 <= k <= TIME_STEP_CANDIDATES,
        count > 0,
        span >= 1,
    ensures
        time_step_from(k, span, count) * count >= span,
    decreases TIME_STEP_CANDIDATES - k,
{
    if k >= TIME_STEP_CANDIDATES {
        let hour = 3_600 * UNIT;
        let d = count * hour;
        assert(d >= 1) by (nonlinear_arith)
            requires
                count >= 1,
                hour >= 1,
                d == count * hour,
        ;
        vstd::arithmetic::div_mod::lemma_fundamental_div_mod(-span, d);
        vstd::arithmetic::div_mod::lemma_mod_bound(-span, d);
        let up = div_ceil(span, d);
        assert(d * up == -(d * ((-span) / d))) by (nonlinear_arith)
            requires
                up == -((-span) / d),
        ;
        assert(d * up >= span);
        let hours = max_int(up, 1);
        assert(d * hours >= d * up) by (nonlinear_arith)
            requires
                hours >= up,
                d >= 1,
        ;
        assert((hours * hour) * count == d * hours) by (nonlinear_arith)
            requires
                d == count * hour,
        ;
    } else if covers(time_candidate(k), span, count) {
        assert((time_candidate(k) * UNIT) * count == time_candidate(k) * UNIT * count);
    } else {
        lemma_time_step_covers(k + 1, span, count);
    }
}

/// The candidate steps ascend.
pub proof fn lemma_candidates_ascend(i: int, j: int)
    requires
        0 <= i <= j < TIME_STEP_CANDIDATES,
    ensures
        1 <= time_candidate(i) <= time_candidate(j),
{
}

/// The nice time step is no larger than any candidate that covers the naive
/// step: among the candidates that do, it is the least.
pub proof fn lemma_time_step_is_least(k: int, span: int, count: int, j: int)
    requires
        0 <= k <= j < TIME_STEP_CANDIDATES,
        covers(time_candidate(j), span, count),
    ensures
        time_step_from(k, span, count) <= time_candidate(j) * UNIT,
        exists|i: int|
            k <= i <= j && covers(time_candidate(i), span, count) && time_step_from(k, span, count)
                == #[trigger] time_candidate(i) * UNIT,
    decreases j - k,
{
    if covers(time_candidate(k), span, count) {
        lemma_candidates_ascend(k, j);
        assert(time_candidate(k) * UNIT <= time_candidate(j) * UNIT) by (nonlinear_arith)
            requires
                time_candidate(k) <= time_candidate(j),
                UNIT > 0,
        ;
        assert(k <= k <= j && covers(time_candidate(k), span, count) && time_step_from(
            k,
            span,
            count,
        ) == time_candidate(k) * UNIT);
    } else {
        lemma_time_step_is_least(k + 1, span, count, j);
        let i = choose|i: int|
            k + 1 <= i <= j && covers(time_candidate(i), span, count) && time_step_from(
                k + 1,
                span,
                count,
            ) == #[trigger] time_candidate(i) * UNIT;
        assert(k <= i <= j && covers(time_candidate(i), span, count) && time_step_from(
            k,
            span,
            count,
        ) == time_candidate(i) * UNIT);
    }
}

} // verus!
