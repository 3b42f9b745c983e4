//! The nice-tick algorithm.
//!
//! Given a span and a desired number of intervals, the algorithm rounds the
//! naive step `span / count` to one of `1`, `2`, `5` or `10` times a power of
//! ten, and runs ticks over the whole multiples of that step that enclose the
//! interval.

use vstd::prelude::*;
use crate::fixed::{Fixed, ceil_div, div_ceil, floor_div, lemma_floor_div_bounds, max_int, min_int};
use crate::format::pow10;

verus! {

/// The most ticks a sequence holds: a safety bound on what is generated.
pub const MAX_TICKS: i64 = 10_000;

/// Largest magnitude of an interval end that ticks are generated for.
///
/// It is forty times the coordinate limit, so that the ticks of a domain that
/// was itself widened to nice ticks can still be generated, and small enough
/// that every tick is representable.
pub const TICK_LIMIT: i64 = 400_000_000_000_000_000;

/// Whether `v` lies within `[-TICK_LIMIT, TICK_LIMIT]`.
pub open spec fn in_tick_range(v: int) -> bool {
    -TICK_LIMIT <= v <= TICK_LIMIT
}

/// The order of magnitude of the naive step `span / count`: the largest power
/// of ten `b` with `b * count <= span`, and `1` when there is none.
///
/// A step is never finer than one raw step of a [`Fixed`], so a naive step
/// below `1` has magnitude `1`.
pub open spec fn decade(span: int, count: int) -> int
    decreases span,
{
    if count > 0 && span >= 10 * count {
        10 * decade(span / 10, count)
    } else {
        1
    }
}

/// The multiplier that rounds the naive step to a nice one, by its ratio
/// `e = span / (count * base)` to the magnitude `base`: `10` from `7.5`, `5`
/// from `3.5`, `2` from `1.5`, and `1` below.
pub open spec fn nice_multiplier(span: int, count: int, base: int) -> int {
    if 2 * span >= 15 * (count * base) {
        10
    } else if 2 * span >= 7 * (count * base) {
        5
    } else if 2 * span >= 3 * (count * base) {
        2
    } else {
        1
    }
}

/// The nice step for the naive step `span / count`: zero for a span that is
/// not positive, and otherwise the magnitude of the naive step times its
/// nice multiplier. A count of zero counts as one.
pub open spec fn nice_step_of(span: int, count: int) -> int {
    let intervals = max_int(count, 1);
    if span <= 0 {
        0
    } else {
        nice_multiplier(span, intervals, decade(span, intervals)) * decade(span, intervals)
    }
}

/// Index of the first tick: the largest multiple of `step` not above `lo`.
pub open spec fn first_index(lo: int, step: int) -> int {
    lo / step
}

/// Index of the last tick before capping: the smallest multiple of `step` not
/// below `hi`.
pub open spec fn last_index(hi: int, step: int) -> int {
    div_ceil(hi, step)
}

/// Number of steps the tick sequence runs over: from the first to the last
/// index, capped so that there are no more than [`MAX_TICKS`] ticks.
pub open spec fn tick_steps(lo: int, hi: int, step: int) -> int {
    min_int(last_index(hi, step) - first_index(lo, step), MAX_TICKS - 1)
}

/// The ticks at whole multiples of `step` from the one at or below `lo` to
/// the one at or above `hi`, capped in number.
pub open spec fn ticks_over(lo: int, hi: int, step: int) -> Seq<int> {
    Seq::new(
        (tick_steps(lo, hi, step) + 1) as nat,
        |i: int| (first_index(lo, step) + i) * step,
    )
}

/// The nice ticks for the interval between `min` and `max`, in either order.
///
/// No ticks for a count of zero, the single value for an empty interval, and
/// otherwise the multiples of the nice step that enclose the interval.
pub open spec fn nice_ticks_of(min: int, max: int, count: int) -> Seq<int> {
    if count <= 0 {
        Seq::empty()
    } else if min == max {
        seq![min]
    } else {
        let lo = min_int(min, max);
        let hi = max_int(min, max);
        ticks_over(lo, hi, nice_step_of(hi - lo, count))
    }
}

/// Whether a vector of scalars holds exactly the given integers.
pub open spec fn holds(v: Seq<Fixed>, s: Seq<int>) -> bool {
    &&& v.len() == s.len()
    &&& forall|i: int| 0 <= i < v.len() ==> #[trigger] v[i] as int == s[i]
}

/// The magnitude is at least one, fits the span, and is the largest power of
/// ten that does.
pub proof fn lemma_decade_bounds(span: int, count: int)
    requires
        count > 0,
        span >= 0,
    ensures
        decade(span, count) >= 1,
        span >= count ==> decade(span, count) * count <= span,
        span < 10 * (decade(span, count) * count),
        span >= 1 ==> decade(span, count) <= span,
    decreases span,
{
    if span >= 10 * count {
        let rest = span / 10;
        lemma_decade_bounds(rest, count);
        let b = decade(rest, count);
        assert(rest >= count);
        assert(10 * rest <= span < 10 * rest + 10);
        assert((10 * b) * count == 10 * (b * count)) by (nonlinear_arith);
        assert(rest + 1 <= 10 * (b * count));
        assert(b <= rest);
    } else {
        assert(1 * count == count);
    }
}

/// The magnitude is a power of ten.
pub proof fn lemma_decade_is_power_of_ten(span: int, count: int)
    ensures
        exists|e: nat| decade(span, count) == #[trigger] pow10(e),
    decreases span,
{
    if count > 0 && span >= 10 * count {
        lemma_decade_is_power_of_ten(span / 10, count);
        let e = choose|e: nat| decade(span / 10, count) == #[trigger] pow10(e);
        assert(decade(span, count) == pow10(e + 1));
    } else {
        assert(decade(span, count) == pow10(0));
    }
}

/// The nice step is at least one raw step and at most ten times the span.
pub proof fn lemma_nice_step_bounds(span: int, count: int)
    requires
        count > 0,
        span >= 1,
    ensures
        1 <= nice_step_of(span, count) <= 10 * span,
        decade(span, count) <= nice_step_of(span, count) <= 10 * decade(span, count),
{
    lemma_decade_bounds(span, count);
    let b = decade(span, count);
    let m = nice_multiplier(span, count, b);
    assert(1 <= m <= 10);
    assert(b <= m * b <= 10 * b) by (nonlinear_arith)
        requires
            1 <= m <= 10,
            b >= 1,
    ;
}

/// The nice step is never below four sevenths of the naive step, so the ticks
/// run over fewer than `7 * count / 4 + 2` steps.
pub proof fn lemma_nice_step_covers(span: int, count: int)
    requires
        count > 0,
        span >= 1,
    ensures
        4 * span < 7 * (count * nice_step_of(span, count)),
{
    lemma_decade_bounds(span, count);
    let b = decade(span, count);
    let m = nice_multiplier(span, count, b);
    let cb = count * b;
    assert(nice_step_of(span, count) == m * b);
    assert(count * (m * b) == m * cb) by (nonlinear_arith)
        requires
            cb == count * b,
    ;
    assert(span < 10 * cb) by {
        assert(b * count == count * b) by (nonlinear_arith);
    }
    assert(cb >= 1) by (nonlinear_arith)
        requires
            count >= 1,
            b >= 1,
            cb == count * b,
    ;
}

/// The first tick is at or below `lo` and the uncapped last tick at or above
/// `hi`, each by less than one step.
pub proof fn lemma_tick_indices(lo: int, hi: int, step: int)
    requires
        step >= 1,
        lo <= hi,
    ensures
        first_index(lo, step) * step <= lo < first_index(lo, step) * step + step,
        last_index(hi, step) * step - step < hi <= last_index(hi, step) * step,
        first_index(lo, step) <= last_index(hi, step),
{
    let f = lo / step;
    vstd::arithmetic::div_mod::lemma_fundamental_div_mod(lo, step);
    vstd::arithmetic::div_mod::lemma_mod_bound(lo, step);
    assert(f * step == step * f) by (nonlinear_arith);
    let g = (-hi) / step;
    vstd::arithmetic::div_mod::lemma_fundamental_div_mod(-hi, step);
    vstd::arithmetic::div_mod::lemma_mod_bound(-hi, step);
    assert((-g) * step == -(step * g)) by (nonlinear_arith);
    let l = last_index(hi, step);
    assert(l == -g);
    if f > l {
        assert(f * step >= (l + 1) * step) by (nonlinear_arith)
            requires
                f >= l + 1,
                step >= 1,
        ;
        assert((l + 1) * step == l * step + step) by (nonlinear_arith);
    }
}

/// Whether the tick sequence for `[lo, hi]` stops short of `hi` because it
/// would hold more than [`MAX_TICKS`] ticks.
pub open spec fn capped(lo: int, hi: int, step: int) -> bool {
    last_index(hi, step) - first_index(lo, step) > MAX_TICKS - 1
}

/// For up to five thousand intervals the nice step is coarse enough that the
/// cap on the number of ticks is never reached.
pub proof fn lemma_nice_ticks_uncapped(lo: int, hi: int, count: int)
    requires
        lo < hi,
        0 < count <= 5_000,
    ensures
        !capped(lo, hi, nice_step_of(hi - lo, count)),
{
    let span = hi - lo;
    let step = nice_step_of(span, count);
    lemma_nice_step_bounds(span, count);
    lemma_nice_step_covers(span, count);
    lemma_tick_indices(lo, hi, step);
    let f = first_index(lo, step);
    let l = last_index(hi, step);
    let n = l - f;
    assert(n * step == l * step - f * step) by (nonlinear_arith)
        requires
            n == l - f,
    ;
    assert(4 * (n * step) < 7 * (count * step) + 8 * step);
    assert(7 * (count * step) + 8 * step == (7 * count + 8) * step) by (nonlinear_arith);
    assert(4 * (n * step) == (4 * n) * step) by (nonlinear_arith);
    assert(4 * n < 7 * count + 8) by (nonlinear_arith)
        requires
            (4 * n) * step < (7 * count + 8) * step,
            step >= 1,
    ;
}

/// Nice ticks never decrease, start at or below the lower bound and, unless
/// the cap on their number is reached, end at or above the upper bound.
pub proof fn lemma_nice_ticks_enclose(min: int, max: int, count: int)
    requires
        min != max,
        count > 0,
    ensures
        nice_ticks_of(min, max, count).len() >= 1,
        forall|i: int, j: int|
            0 <= i <= j < nice_ticks_of(min, max, count).len() ==> nice_ticks_of(
                min,
                max,
                count,
            )[i] <= nice_ticks_of(min, max, count)[j],
        nice_ticks_of(min, max, count).first() <= min_int(min, max),
        !capped(
            min_int(min, max),
            max_int(min, max),
            nice_step_of(max_int(min, max) - min_int(min, max), count),
        ) ==> nice_ticks_of(min, max, count).last() >= max_int(min, max),
{
    let lo = min_int(min, max);
    let hi = max_int(min, max);
    let step = nice_step_of(hi - lo, count);
    lemma_nice_step_bounds(hi - lo, count);
    lemma_tick_indices(lo, hi, step);
    let ticks = nice_ticks_of(min, max, count);
    let f = first_index(lo, step);
    assert(ticks =~= ticks_over(lo, hi, step));
    assert forall|i: int, j: int| 0 <= i <= j < ticks.len() implies ticks[i] <= ticks[j] by {
        assert((f + i) * step <= (f + j) * step) by (nonlinear_arith)
            requires
                i <= j,
                step >= 1,
        ;
    }
    assert(ticks.first() == f * step);
    if !capped(lo, hi, step) {
        assert(ticks.last() == (f + (last_index(hi, step) - f)) * step);
    }
}

/// Computes the nice step for the naive step `span / count`.
///
/// A span that is not positive has the step zero, and a count of zero counts
/// as one.
pub fn nice_step(span: i128, count: usize) -> (step: i128)
    requires
        span <= 2 * TICK_LIMIT,
    ensures
        step == nice_step_of(span as int, count as int),
        span >= 1 ==> 1 <= step <= 10 * span,
{
    if span <= 0 {
        return 0;
    }
    let n: i128 = if count == 0 {
        1
    } else {
        count as i128
    };
    proof {
        lemma_decade_bounds(span as int, n as int);
        lemma_nice_step_bounds(span as int, n as int);
    }
    if n > span {
        assert(1 * n == n && n * 1 == n);
        assert(decade(span as int, n as int) == 1);
        assert(nice_multiplier(span as int, n as int, 1) == 1);
        assert(nice_step_of(span as int, count as int) == 1);
        return 1;
    }
    let mut base: i128 = 1;
    let mut rest: i128 = span;
    while rest >= 10 * n
        invariant
            n == max_int(count as int, 1),
            0 < n <= span,
            n <= rest <= span,
            1 <= base,
            base * rest <= span,
            1 <= span <= 2 * TICK_LIMIT,
            decade(span as int, n as int) == base * decade(rest as int, n as int),
        decreases rest,
    {
        let ghost old_rest = rest;
        let ghost old_base = base;
        rest = rest / 10;
        assert(base * 10 * rest <= span) by (nonlinear_arith)
            requires
                old_base * old_rest <= span,
                10 * rest <= old_rest,
                base == old_base,
                base >= 1,
        ;
        assert(base * 10 <= span) by (nonlinear_arith)
            requires
                base * 10 * rest <= span,
                rest >= 1,
                base >= 1,
        ;
        base = base * 10;
        assert(old_base * (10 * decade(rest as int, n as int)) == (old_base * 10) * decade(
            rest as int,
            n as int,
        )) by (nonlinear_arith);
    }
    assert(base == decade(span as int, n as int)) by {
        assert(base * 1 == base);
    }
    assert(base * n == n * base) by (nonlinear_arith);
    let slots: i128 = n * base;
    let twice: i128 = 2 * span;
    let multiplier: i128 = if twice >= 15 * slots {
        10
    } else if twice >= 7 * slots {
        5
    } else if twice >= 3 * slots {
        2
    } else {
        1
    };
    assert(multiplier * base <= 10 * base) by (nonlinear_arith)
        requires
            1 <= multiplier <= 10,
            base >= 1,
    ;
    multiplier * base
}

/// Generates the ticks at multiples of `step` that enclose `[lo, hi]`.
pub fn ticks_between(lo: Fixed, hi: Fixed, step: i128) -> (ticks: Vec<Fixed>)
    requires
        in_tick_range(lo as int),
        in_tick_range(hi as int),
        lo <= hi,
        1 <= step <= 20 * TICK_LIMIT,
    ensures
        holds(ticks@, ticks_over(lo as int, hi as int, step as int)),
{
    proof {
        lemma_tick_indices(lo as int, hi as int, step as int);
        lemma_floor_div_bounds(lo as int, step as int);
        lemma_floor_div_bounds(-(hi as int), step as int);
    }
    let first: i128 = floor_div(lo as i128, step);
    let last: i128 = ceil_div(hi as i128, step);
    let steps: i128 = if last - first > MAX_TICKS as i128 - 1 {
        MAX_TICKS as i128 - 1
    } else {
        last - first
    };
    let mut ticks: Vec<Fixed> = Vec::new();
    let mut i: i128 = 0;
    while i <= steps
        invariant
            0 <= i <= steps + 1,
            0 <= steps < MAX_TICKS,
            steps == tick_steps(lo as int, hi as int, step as int),
            steps <= last - first,
            first == first_index(lo as int, step as int),
            last == last_index(hi as int, step as int),
            first * step <= lo < first * step + step,
            last * step - step < hi <= last * step,
            in_tick_range(lo as int),
            in_tick_range(hi as int),
            1 <= step <= 20 * TICK_LIMIT,
            ticks@.len() == i,
            forall|j: int| 0 <= j < i ==> #[trigger] ticks@[j] as int == (first + j) * step,
        decreases steps + 1 - i,
    {
        assert(first * step <= (first + i) * step <= last * step) by (nonlinear_arith)
            requires
                0 <= i <= last - first,
                step >= 1,
        ;
        let tick: i128 = (first + i) * step;
        ticks.push(tick as i64);
        i = i + 1;
    }
    assert(ticks@.len() == ticks_over(lo as int, hi as int, step as int).len());
    ticks
}

/// Returns the nice ticks for the interval between `min` and `max`.
///
/// The bounds may come in either order. A count of zero gives no ticks and an
/// empty interval gives its single value. Otherwise the ticks are the whole
/// multiples of the nice step from the one at or below the lower bound to the
/// one at or above the upper bound, at most `MAX_TICKS` of them.
pub fn nice_ticks(min: Fixed, max: Fixed, count: usize) -> (ticks: Vec<Fixed>)
    requires
        in_tick_range(min as int),
        in_tick_range(max as int),
    ensures
        holds(ticks@, nice_ticks_of(min as int, max as int, count as int)),
{
    if count == 0 {
        return Vec::new();
    }
    if min == max {
        let mut single: Vec<Fixed> = Vec::new();
        single.push(min);
        return single;
    }
    let (lo, hi): (Fixed, Fixed) = if min > max {
        (max, min)
    } else {
        (min, max)
    };
    let span: i128 = hi as i128 - lo as i128;
    let step: i128 = nice_step(span, count);
    ticks_between(lo, hi, step)
}

/// Every tick over `[lo, hi]` lies less than one step outside the interval.
pub proof fn lemma_ticks_over_bounded(lo: int, hi: int, step: int)
    requires
        step >= 1,
        lo <= hi,
    ensures
        forall|i: int|
            0 <= i < ticks_over(lo, hi, step).len() ==> lo - step < #[trigger] ticks_over(
                lo,
                hi,
                step,
            )[i] < hi + step,
{
    lemma_tick_indices(lo, hi, step);
    let f = first_index(lo, step);
    let l = last_index(hi, step);
    assert forall|i: int| 0 <= i < ticks_over(lo, hi, step).len() implies lo - step
        < #[trigger] ticks_over(lo, hi, step)[i] < hi + step by {
        assert(f * step <= (f + i) * step <= l * step) by (nonlinear_arith)
            requires
                0 <= i <= l - f,
                step >= 1,
        ;
    }
}

/// Every nice tick lies within ten spans of the interval it was made for.
pub proof fn lemma_nice_ticks_bounded(min: int, max: int, count: int)
    ensures
        forall|i: int|
            0 <= i < nice_ticks_of(min, max, count).len() ==> min_int(min, max) - 10 * (max_int(
                min,
                max,
            ) - min_int(min, max)) <= #[trigger] nice_ticks_of(min, max, count)[i] <= max_int(
                min,
                max,
            ) + 10 * (max_int(min, max) - min_int(min, max)),
{
    if count > 0 && min != max {
        let lo = min_int(min, max);
        let hi = max_int(min, max);
        lemma_nice_step_bounds(hi - lo, count);
        lemma_ticks_over_bounded(lo, hi, nice_step_of(hi - lo, count));
    }
}

/// Returns whether ticks can be generated for an interval end.
pub fn is_in_tick_range(v: Fixed) -> (r: bool)
    ensures
        r == in_tick_range(v as int),
{
    -TICK_LIMIT <= v && v <= TICK_LIMIT
}

/// Neighbouring ticks are exactly one step apart, so ticks strictly
/// increase.
pub proof fn lemma_ticks_evenly_spaced(lo: int, hi: int, step: int, i: int)
    requires
        step >= 1,
        0 <= i,
        i + 1 < ticks_over(lo, hi, step).len(),
    ensures
        ticks_over(lo, hi, step)[i + 1] - ticks_over(lo, hi, step)[i] == step,
        ticks_over(lo, hi, step)[i] < ticks_over(lo, hi, step)[i + 1],
{
    let f = first_index(lo, step);
    assert((f + (i + 1)) * step == (f + i) * step + step) by (nonlinear_arith);
}

/// With a positive count and a proper interval there are at least two nice
/// ticks.
pub proof fn lemma_nice_ticks_at_least_two(min: int, max: int, count: int)
    requires
        min != max,
        count > 0,
    ensures
        nice_ticks_of(min, max, count).len() >= 2,
{
    let lo = min_int(min, max);
    let hi = max_int(min, max);
    let step = nice_step_of(hi - lo, count);
    lemma_nice_step_bounds(hi - lo, count);
    lemma_tick_indices(lo, hi, step);
    let f = first_index(lo, step);
    let l = last_index(hi, step);
    if l <= f {
        assert(l * step <= f * step) by (nonlinear_arith)
            requires
                l <= f,
                step >= 1,
        ;
    }
}

} // verus!
