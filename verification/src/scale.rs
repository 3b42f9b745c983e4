//! Scales: mappings from data values to coordinates, and their ticks.
//!
//! A scale specification holds a domain and options. Bound to a range of
//! coordinates it becomes a scale instance, a plain value that is derived
//! anew on every layout pass. The range may be reversed to flip the
//! direction of an axis.

use vstd::prelude::*;
use crate::fixed::{
    Fixed,
    LIMIT,
    UNIT,
    abs_int,
    clamp_int,
    floor_div,
    in_range,
    interpolate,
    interpolate_fixed,
    lemma_floor_div_bounds,
    lemma_interpolate_ends,
    min_int,
    saturate,
    saturate_to_fixed,
};
use crate::ticks::{holds, in_tick_range, nice_ticks, nice_ticks_of};
use crate::time::{nice_time_ticks_of, nice_time_ticks_seconds};

verus! {

/// Whether both ends of an interval lie within the accepted coordinate range.
pub open spec fn pair_in_range(p: (Fixed, Fixed)) -> bool {
    in_range(p.0 as int) && in_range(p.1 as int)
}

/// Whether ticks can be generated for both ends of an interval.
pub open spec fn pair_in_tick_range(p: (Fixed, Fixed)) -> bool {
    in_tick_range(p.0 as int) && in_tick_range(p.1 as int)
}

/// A linear mapping from a continuous domain to a range of coordinates.
#[derive(Clone, Copy, Debug, PartialEq, Eq)]
pub struct ScaleLinear {
    /// The domain, as authored; the ends need not be ordered.
    pub domain: (Fixed, Fixed),
    /// The range of coordinates.
    pub range: (Fixed, Fixed),
}

/// Specification for a linear scale: a domain and options, no range yet.
#[derive(Clone, Copy, Debug, PartialEq, Eq)]
pub struct ScaleLinearSpec {
    /// Domain in data units.
    pub domain: (Fixed, Fixed),
    /// Whether the domain is widened to the nice ticks that enclose it.
    pub nice: bool,
}

impl ScaleLinear {
    /// Whether the range lies within the accepted coordinate range. The
    /// domain is free.
    pub open spec fn in_range(&self) -> bool {
        pair_in_range(self.range)
    }

    /// The exact position of `x`: the linear interpolation
    /// `r0 + (x - d0) * (r1 - r0) / (d1 - d0)`, rounded toward negative
    /// infinity, and `r0` for a degenerate domain.
    pub open spec fn position(&self, x: int) -> int {
        interpolate(
            self.domain.0 as int,
            self.domain.1 as int,
            self.range.0 as int,
            self.range.1 as int,
            x,
        )
    }

    /// Creates a scale that maps `domain` onto `range`.
    pub fn new(domain: (Fixed, Fixed), range: (Fixed, Fixed)) -> (s: ScaleLinear)
        ensures
            s.domain == domain,
            s.range == range,
    {
        ScaleLinear { domain, range }
    }

    /// Maps a value from the domain into the range.
    ///
    /// Values outside the domain are extrapolated; a position beyond the
    /// representable coordinates is pinned to their nearest end.
    pub fn map(&self, x: Fixed) -> (r: Fixed)
        requires
            self.in_range(),
        ensures
            r == saturate(self.position(x as int)),
    {
        interpolate_fixed(self.domain.0, self.domain.1, self.range.0, self.range.1, x)
    }

    /// Returns the first end of the domain, as authored.
    pub fn domain_min(&self) -> (d: Fixed)
        ensures
            d == self.domain.0,
    {
        self.domain.0
    }

    /// Returns the second end of the domain, as authored.
    pub fn domain_max(&self) -> (d: Fixed)
        ensures
            d == self.domain.1,
    {
        self.domain.1
    }

    /// Returns the nice ticks for the domain.
    pub fn ticks(&self, count: usize) -> (ticks: Vec<Fixed>)
        requires
            pair_in_tick_range(self.domain),
        ensures
            holds(ticks@, nice_ticks_of(self.domain.0 as int, self.domain.1 as int, count as int)),
    {
        nice_ticks(self.domain.0, self.domain.1, count)
    }

    /// A linear scale maps the ends of a proper domain exactly onto the ends
    /// of its range.
    pub proof fn lemma_map_hits_range_ends(&self)
        requires
            self.domain.0 != self.domain.1,
        ensures
            saturate(self.position(self.domain.0 as int)) == self.range.0,
            saturate(self.position(self.domain.1 as int)) == self.range.1,
    {
        lemma_interpolate_ends(
            self.domain.0 as int,
            self.domain.1 as int,
            self.range.0 as int,
            self.range.1 as int,
        );
    }
}

impl ScaleLinearSpec {
    /// The effective domain for an axis of `tick_count` ticks: the authored
    /// domain, or with `nice` set the first and last of the nice ticks over
    /// it when there are at least two.
    pub open spec fn resolved(&self, tick_count: int) -> (int, int) {
        let ticks = nice_ticks_of(self.domain.0 as int, self.domain.1 as int, tick_count);
        if self.nice && ticks.len() >= 2 {
            (ticks.first(), ticks.last())
        } else {
            (self.domain.0 as int, self.domain.1 as int)
        }
    }

    /// Creates a linear scale specification without nice-domain behavior.
    pub fn new(domain: (Fixed, Fixed)) -> (s: ScaleLinearSpec)
        ensures
            s.domain == domain,
            !s.nice,
    {
        ScaleLinearSpec { domain, nice: false }
    }

    /// Enables or disables nice-domain behavior.
    pub fn with_nice(self, nice: bool) -> (s: ScaleLinearSpec)
        ensures
            s.domain == self.domain,
            s.nice == nice,
    {
        ScaleLinearSpec { domain: self.domain, nice }
    }

    /// Returns the effective domain after applying `nice`.
    ///
    /// The result depends on the tick count: a nice domain runs from the
    /// first to the last nice tick for that count.
    pub fn resolved_domain(&self, tick_count: usize) -> (d: (Fixed, Fixed))
        requires
            pair_in_tick_range(self.domain),
        ensures
            d.0 == self.resolved(tick_count as int).0,
            d.1 == self.resolved(tick_count as int).1,
    {
        if !self.nice {
            return self.domain;
        }
        let ticks = nice_ticks(self.domain.0, self.domain.1, tick_count);
        if ticks.len() >= 2 {
            (ticks[0], ticks[ticks.len() - 1])
        } else {
            self.domain
        }
    }

    /// Instantiates a scale over the authored domain for a given range.
    pub fn instantiate(&self, range: (Fixed, Fixed)) -> (s: ScaleLinear)
        ensures
            s.domain == self.domain,
            s.range == range,
    {
        ScaleLinear::new(self.domain, range)
    }

    /// Instantiates a scale over the resolved domain for a given range.
    pub fn instantiate_resolved(&self, range: (Fixed, Fixed), tick_count: usize) -> (s:
        ScaleLinear)
        requires
            pair_in_tick_range(self.domain),
        ensures
            s.domain.0 == self.resolved(tick_count as int).0,
            s.domain.1 == self.resolved(tick_count as int).1,
            s.range == range,
    {
        ScaleLinear::new(self.resolved_domain(tick_count), range)
    }
}

/// Largest padding of a discrete scale, in band or step units.
pub const MAX_PADDING: Fixed = 1_000_000_000;

/// Largest number of bands or points a discrete scale positions, and the
/// largest index it accepts.
pub const MAX_COUNT: usize = 1_000_000_000;

/// `padding` pinned into `[0, MAX_PADDING]`.
pub open spec fn padding_of(padding: Fixed) -> Fixed {
    clamp_int(padding as int, 0, MAX_PADDING as int) as Fixed
}

fn clamp_padding(padding: Fixed) -> (p: Fixed)
    ensures
        p == padding_of(padding),
        0 <= p <= MAX_PADDING,
{
    if padding < 0 {
        0
    } else if padding > MAX_PADDING {
        MAX_PADDING
    } else {
        padding
    }
}

/// A discrete band scale for categorical charts.
#[derive(Clone, Copy, Debug, PartialEq, Eq)]
pub struct ScaleBand {
    /// The range of coordinates; may be reversed.
    pub range: (Fixed, Fixed),
    /// Number of bands.
    pub count: usize,
    /// Gap between neighbouring bands, in band widths.
    pub padding_inner: Fixed,
    /// Gap before the first and after the last band, in band widths.
    pub padding_outer: Fixed,
}

/// Specification for a band scale: count and padding, no range yet.
#[derive(Clone, Copy, Debug, PartialEq, Eq)]
pub struct ScaleBandSpec {
    /// Number of bands.
    pub count: usize,
    /// Inner padding in band widths.
    pub padding_inner: Fixed,
    /// Outer padding in band widths.
    pub padding_outer: Fixed,
}

impl ScaleBand {
    /// Whether the scale can be evaluated: range within the accepted
    /// coordinate range, paddings within `[0, MAX_PADDING]`, and at most
    /// `MAX_COUNT` bands.
    pub open spec fn wf(&self) -> bool {
        &&& pair_in_range(self.range)
        &&& 0 <= self.padding_inner <= MAX_PADDING
        &&& 0 <= self.padding_outer <= MAX_PADDING
        &&& self.count <= MAX_COUNT
    }

    /// Length of the range.
    pub open spec fn span(&self) -> int {
        abs_int(self.range.1 - self.range.0)
    }

    /// The lower end of the range, where the first band starts whichever way
    /// the range runs.
    pub open spec fn start(&self) -> int {
        min_int(self.range.0 as int, self.range.1 as int)
    }

    /// The number of band widths the range is divided into, as a scalar:
    /// `n + padding_inner * (n - 1) + 2 * padding_outer`.
    pub open spec fn slots(&self) -> int {
        self.count * UNIT + self.padding_inner * (self.count - 1) + 2 * self.padding_outer
    }

    /// The width of one band, `span / slots`, rounded toward negative
    /// infinity; zero for a scale without bands.
    pub open spec fn width(&self) -> int {
        if self.count == 0 {
            0
        } else {
            (self.span() * UNIT) / self.slots()
        }
    }

    /// The exact position of the band at `index`:
    /// `start + width * padding_outer + index * width * (1 + padding_inner)`
    /// computed from the unrounded width and rounded once, toward negative
    /// infinity.
    pub open spec fn position(&self, index: int) -> int {
        if self.count == 0 {
            self.start()
        } else {
            self.start() + (self.span() * (self.padding_outer + index * (UNIT
                + self.padding_inner))) / self.slots()
        }
    }

    /// Creates a band scale of `count` bands over `range` with inner and
    /// outer padding of a tenth of a band.
    pub fn new(range: (Fixed, Fixed), count: usize) -> (s: ScaleBand)
        ensures
            s == (ScaleBand { range, count, padding_inner: 100_000, padding_outer: 100_000 }),
    {
        ScaleBand { range, count, padding_inner: 100_000, padding_outer: 100_000 }
    }

    /// Sets inner and outer padding in band widths, each pinned into
    /// `[0, MAX_PADDING]`.
    pub fn with_padding(self, inner: Fixed, outer: Fixed) -> (s: ScaleBand)
        ensures
            s == (ScaleBand {
                range: self.range,
                count: self.count,
                padding_inner: padding_of(inner),
                padding_outer: padding_of(outer),
            }),
    {
        ScaleBand {
            range: self.range,
            count: self.count,
            padding_inner: clamp_padding(inner),
            padding_outer: clamp_padding(outer),
        }
    }

    /// Returns the computed band width.
    pub fn band_width(&self) -> (w: Fixed)
        requires
            self.wf(),
        ensures
            w == self.width(),
            0 <= w <= self.span(),
    {
        if self.count == 0 {
            return 0;
        }
        let span: i128 = span_of(self.range);
        let slots: i128 = self.slot_count();
        proof {
            lemma_floor_div_bounds(span * UNIT, slots as int);
            vstd::arithmetic::div_mod::lemma_div_is_ordered_by_denominator(
                span * UNIT,
                UNIT as int,
                slots as int,
            );
            vstd::arithmetic::div_mod::lemma_div_multiples_vanish(span as int, UNIT as int);
            assert(span * UNIT == UNIT * span) by (nonlinear_arith);
        }
        floor_div(span * (UNIT as i128), slots) as i64
    }

    /// Returns the number of bands.
    pub fn count(&self) -> (n: usize)
        ensures
            n == self.count,
    {
        self.count
    }

    /// Returns the position of the band at `index`.
    ///
    /// An index past the last band extrapolates; a position beyond the
    /// representable coordinates is pinned to their nearest end.
    pub fn x(&self, index: usize) -> (x: Fixed)
        requires
            self.wf(),
            index <= MAX_COUNT,
        ensures
            x == saturate(self.position(index as int)),
    {
        let start: Fixed = if self.range.1 >= self.range.0 {
            self.range.0
        } else {
            self.range.1
        };
        if self.count == 0 {
            return start;
        }
        let span: i128 = span_of(self.range);
        let slots: i128 = self.slot_count();
        let stride: i128 = UNIT as i128 + self.padding_inner as i128;
        assert(0 <= (index as i128) * stride <= 1_001_000_000_000_000_000) by (nonlinear_arith)
            requires
                0 <= index <= 1_000_000_000,
                0 <= stride <= 1_001_000_000,
        ;
        let offset: i128 = self.padding_outer as i128 + (index as i128) * stride;
        assert(0 <= span * offset <= 40_000_000_000_000_000_000_000_000_000_000_000)
            by (nonlinear_arith)
            requires
                0 <= span <= 20_000_000_000_000_000,
                0 <= offset <= 2_000_000_000_000_000_000,
        ;
        proof {
            lemma_floor_div_bounds(span * offset, slots as int);
        }
        saturate_to_fixed(start as i128 + floor_div(span * offset, slots))
    }

    /// The number of band widths the range is divided into.
    fn slot_count(&self) -> (slots: i128)
        requires
            self.wf(),
            self.count > 0,
        ensures
            slots == self.slots(),
            UNIT <= slots,
            slots <= MAX_COUNT * UNIT + MAX_PADDING * MAX_COUNT + 2 * MAX_PADDING,
    {
        let n: i128 = self.count as i128;
        assert(0 <= (self.padding_inner as i128) * (n - 1) <= MAX_PADDING * MAX_COUNT)
            by (nonlinear_arith)
            requires
                0 <= self.padding_inner <= MAX_PADDING,
                1 <= n <= MAX_COUNT,
        ;
        assert(n * (UNIT as i128) == 1_000_000 * n) by (nonlinear_arith)
            requires
                UNIT == 1_000_000,
        ;
        1_000_000 * n + (self.padding_inner as i128) * (n - 1) + 2 * (self.padding_outer as i128)
    }
}

/// Length of an interval of coordinates.
fn span_of(range: (Fixed, Fixed)) -> (span: i128)
    requires
        pair_in_range(range),
    ensures
        span == abs_int(range.1 - range.0),
        0 <= span <= 2 * LIMIT,
{
    let d: i128 = range.1 as i128 - range.0 as i128;
    if d < 0 {
        -d
    } else {
        d
    }
}

impl ScaleBandSpec {
    /// The scale this specification gives over `range`.
    pub open spec fn bound_to(&self, range: (Fixed, Fixed)) -> ScaleBand {
        ScaleBand {
            range,
            count: self.count,
            padding_inner: padding_of(self.padding_inner),
            padding_outer: padding_of(self.padding_outer),
        }
    }

    /// Creates a band scale specification with padding of a tenth of a band.
    pub fn new(count: usize) -> (s: ScaleBandSpec)
        ensures
            s == (ScaleBandSpec { count, padding_inner: 100_000, padding_outer: 100_000 }),
    {
        ScaleBandSpec { count, padding_inner: 100_000, padding_outer: 100_000 }
    }

    /// Sets inner and outer padding in band widths, each pinned into
    /// `[0, MAX_PADDING]`.
    pub fn with_padding(self, inner: Fixed, outer: Fixed) -> (s: ScaleBandSpec)
        ensures
            s == (ScaleBandSpec {
                count: self.count,
                padding_inner: padding_of(inner),
                padding_outer: padding_of(outer),
            }),
    {
        ScaleBandSpec {
            count: self.count,
            padding_inner: clamp_padding(inner),
            padding_outer: clamp_padding(outer),
        }
    }

    /// Instantiates a scale for a given range.
    pub fn instantiate(&self, range: (Fixed, Fixed)) -> (s: ScaleBand)
        ensures
            s == self.bound_to(range),
    {
        ScaleBand::new(range, self.count).with_padding(self.padding_inner, self.padding_outer)
    }
}

/// A discrete point scale: like a band scale without width.
#[derive(Clone, Copy, Debug, PartialEq, Eq)]
pub struct ScalePoint {
    /// The range of coordinates; may be reversed.
    pub range: (Fixed, Fixed),
    /// Number of points.
    pub count: usize,
    /// Gap before the first and after the last point, in steps.
    pub padding: Fixed,
}

/// Specification for a point scale: count and padding, no range yet.
#[derive(Clone, Copy, Debug, PartialEq, Eq)]
pub struct ScalePointSpec {
    /// Number of points.
    pub count: usize,
    /// Outer padding in steps.
    pub padding: Fixed,
}

impl ScalePoint {
    /// Whether the scale can be evaluated: range within the accepted
    /// coordinate range, padding within `[0, MAX_PADDING]`, and at most
    /// `MAX_COUNT` points.
    pub open spec fn wf(&self) -> bool {
        &&& pair_in_range(self.range)
        &&& 0 <= self.padding <= MAX_PADDING
        &&& self.count <= MAX_COUNT
    }

    /// Length of the range.
    pub open spec fn span(&self) -> int {
        abs_int(self.range.1 - self.range.0)
    }

    /// The lower end of the range.
    pub open spec fn start(&self) -> int {
        min_int(self.range.0 as int, self.range.1 as int)
    }

    /// The number of steps the range is divided into, as a scalar:
    /// `(n - 1) + 2 * padding`.
    pub open spec fn slots(&self) -> int {
        (self.count - 1) * UNIT + 2 * self.padding
    }

    /// The exact position of the point at `index`:
    /// `start + padding * step + index * step` with
    /// `step = span / slots`, rounded once, toward negative infinity. With
    /// fewer than two points, or nothing to divide the range into, the step is
    /// zero and every point sits at the start.
    pub open spec fn position(&self, index: int) -> int {
        if self.count <= 1 || self.slots() == 0 {
            self.start()
        } else {
            self.start() + (self.span() * (self.padding + index * UNIT)) / self.slots()
        }
    }

    /// Creates a point scale with an outer padding of half a step.
    pub fn new(range: (Fixed, Fixed), count: usize) -> (s: ScalePoint)
        ensures
            s == (ScalePoint { range, count, padding: 500_000 }),
    {
        ScalePoint { range, count, padding: 500_000 }
    }

    /// Sets the outer padding in steps, pinned into `[0, MAX_PADDING]`.
    pub fn with_padding(self, padding: Fixed) -> (s: ScalePoint)
        ensures
            s == (ScalePoint { range: self.range, count: self.count, padding: padding_of(padding) }),
    {
        ScalePoint { range: self.range, count: self.count, padding: clamp_padding(padding) }
    }

    /// Returns the position of the point at `index`.
    ///
    /// An index past the last point extrapolates; a position beyond the
    /// representable coordinates is pinned to their nearest end.
    pub fn x(&self, index: usize) -> (x: Fixed)
        requires
            self.wf(),
            index <= MAX_COUNT,
        ensures
            x == saturate(self.position(index as int)),
    {
        let start: Fixed = if self.range.1 >= self.range.0 {
            self.range.0
        } else {
            self.range.1
        };
        if self.count <= 1 {
            return start;
        }
        let span: i128 = span_of(self.range);
        let steps: i128 = self.count as i128 - 1;
        assert(steps * (UNIT as i128) == 1_000_000 * steps) by (nonlinear_arith)
            requires
                UNIT == 1_000_000,
        ;
        assert((index as i128) * (UNIT as i128) == 1_000_000 * (index as i128)) by (nonlinear_arith)
            requires
                UNIT == 1_000_000,
        ;
        let slots: i128 = 1_000_000 * steps + 2 * (self.padding as i128);
        let offset: i128 = self.padding as i128 + 1_000_000 * (index as i128);
        assert(0 <= offset <= 2_000_000_000_000_000);
        assert(0 <= span * offset <= 40_000_000_000_000_000_000_000_000_000_000)
            by (nonlinear_arith)
            requires
                0 <= span <= 20_000_000_000_000_000,
                0 <= offset <= 2_000_000_000_000_000,
        ;
        proof {
            lemma_floor_div_bounds(span * offset, slots as int);
        }
        saturate_to_fixed(start as i128 + floor_div(span * offset, slots))
    }
}

impl ScalePointSpec {
    /// The scale this specification gives over `range`.
    pub open spec fn bound_to(&self, range: (Fixed, Fixed)) -> ScalePoint {
        ScalePoint { range, count: self.count, padding: padding_of(self.padding) }
    }

    /// Creates a point scale specification with a padding of half a step.
    pub fn new(count: usize) -> (s: ScalePointSpec)
        ensures
            s == (ScalePointSpec { count, padding: 500_000 }),
    {
        ScalePointSpec { count, padding: 500_000 }
    }

    /// Sets the outer padding in steps, pinned into `[0, MAX_PADDING]`.
    pub fn with_padding(self, padding: Fixed) -> (s: ScalePointSpec)
        ensures
            s == (ScalePointSpec { count: self.count, padding: padding_of(padding) }),
    {
        ScalePointSpec { count: self.count, padding: clamp_padding(padding) }
    }

    /// Instantiates a scale for a given range.
    pub fn instantiate(&self, range: (Fixed, Fixed)) -> (s: ScalePoint)
        ensures
            s == self.bound_to(range),
    {
        ScalePoint::new(range, self.count).with_padding(self.padding)
    }
}

/// A time scale: a linear scale over seconds with ticks on time steps.
#[derive(Clone, Copy, Debug, PartialEq, Eq)]
pub struct ScaleTime {
    /// The linear scale that maps the seconds.
    pub inner: ScaleLinear,
}

/// Specification for a time scale: a domain in seconds, no range yet.
#[derive(Clone, Copy, Debug, PartialEq, Eq)]
pub struct ScaleTimeSpec {
    /// Domain in seconds.
    pub domain: (Fixed, Fixed),
}

impl ScaleTime {
    /// Creates a time scale that maps `domain` onto `range`.
    pub fn new(domain: (Fixed, Fixed), range: (Fixed, Fixed)) -> (s: ScaleTime)
        ensures
            s.inner.domain == domain,
            s.inner.range == range,
    {
        ScaleTime { inner: ScaleLinear::new(domain, range) }
    }

    /// Maps a time in seconds into the range, as the linear scale does.
    pub fn map(&self, t: Fixed) -> (r: Fixed)
        requires
            self.inner.in_range(),
        ensures
            r == saturate(self.inner.position(t as int)),
    {
        self.inner.map(t)
    }

    /// A time scale maps the ends of a proper domain exactly onto the ends of
    /// its range.
    pub proof fn lemma_map_hits_range_ends(&self)
        requires
            self.inner.domain.0 != self.inner.domain.1,
        ensures
            saturate(self.inner.position(self.inner.domain.0 as int)) == self.inner.range.0,
            saturate(self.inner.position(self.inner.domain.1 as int)) == self.inner.range.1,
    {
        self.inner.lemma_map_hits_range_ends();
    }

    /// Returns the nice time ticks for the domain.
    pub fn ticks(&self, count: usize) -> (ticks: Vec<Fixed>)
        requires
            pair_in_tick_range(self.inner.domain),
        ensures
            holds(
                ticks@,
                nice_time_ticks_of(
                    self.inner.domain.0 as int,
                    self.inner.domain.1 as int,
                    count as int,
                ),
            ),
    {
        nice_time_ticks_seconds(self.inner.domain_min(), self.inner.domain_max(), count)
    }

    /// Returns the first end of the domain, as authored.
    pub fn domain_min(&self) -> (d: Fixed)
        ensures
            d == self.inner.domain.0,
    {
        self.inner.domain_min()
    }

    /// Returns the second end of the domain, as authored.
    pub fn domain_max(&self) -> (d: Fixed)
        ensures
            d == self.inner.domain.1,
    {
        self.inner.domain_max()
    }
}

impl ScaleTimeSpec {
    /// Creates a time scale specification.
    pub fn new(domain: (Fixed, Fixed)) -> (s: ScaleTimeSpec)
        ensures
            s.domain == domain,
    {
        ScaleTimeSpec { domain }
    }

    /// Instantiates a scale for a given range.
    pub fn instantiate(&self, range: (Fixed, Fixed)) -> (s: ScaleTime)
        ensures
            s.inner.domain == self.domain,
            s.inner.range == range,
    {
        ScaleTime::new(self.domain, range)
    }
}

/// A floor quotient of a sum is at least the sum of the floor quotients.
pub proof fn lemma_floor_div_superadditive(a: int, b: int, d: int)
    requires
        d > 0,
    ensures
        (a + b) / d >= a / d + b / d,
{
    let qa = a / d;
    let qb = b / d;
    vstd::arithmetic::div_mod::lemma_fundamental_div_mod(a, d);
    vstd::arithmetic::div_mod::lemma_fundamental_div_mod(b, d);
    vstd::arithmetic::div_mod::lemma_mod_bound(a, d);
    vstd::arithmetic::div_mod::lemma_mod_bound(b, d);
    assert(d * (qa + qb) == d * qa + d * qb) by (nonlinear_arith);
    assert(a + b >= d * (qa + qb));
    vstd::arithmetic::div_mod::lemma_div_is_ordered(d * (qa + qb), a + b, d);
    vstd::arithmetic::div_mod::lemma_div_multiples_vanish(qa + qb, d);
}

impl ScaleBand {
    /// The slots of a scale with at least one band amount to at least one
    /// band width.
    pub proof fn lemma_slots_positive(&self)
        requires
            self.count >= 1,
            self.padding_inner >= 0,
            self.padding_outer >= 0,
        ensures
            self.slots() >= UNIT,
    {
        assert(self.count * UNIT >= UNIT) by (nonlinear_arith)
            requires
                self.count >= 1,
                UNIT > 0,
        ;
        assert(self.padding_inner * (self.count - 1) >= 0) by (nonlinear_arith)
            requires
                self.padding_inner >= 0,
                self.count >= 1,
        ;
    }

    /// Band positions increase strictly with the index, by at least one band
    /// width each, as long as a band is at least one raw step wide.
    pub proof fn lemma_positions_increase(&self, i: int, j: int)
        requires
            self.count >= 1,
            self.padding_inner >= 0,
            self.padding_outer >= 0,
            self.width() >= 1,
            0 <= i < j,
        ensures
            self.position(i) + self.width() <= self.position(j),
            self.position(i) < self.position(j),
    {
        self.lemma_slots_positive();
        let t = self.slots();
        let span = self.span();
        let stride = UNIT + self.padding_inner;
        let a = span * (self.padding_outer + i * stride);
        let b = span * (self.padding_outer + j * stride);
        let w = span * UNIT;
        assert(b >= a + w) by (nonlinear_arith)
            requires
                a == span * (self.padding_outer + i * stride),
                b == span * (self.padding_outer + j * stride),
                w == span * UNIT,
                span >= 0,
                stride >= UNIT,
                UNIT > 0,
                0 <= i < j,
        ;
        lemma_floor_div_superadditive(a, w, t);
        vstd::arithmetic::div_mod::lemma_div_is_ordered(a + w, b, t);
    }

    /// Band positions never decrease with the index, however narrow the
    /// bands are.
    pub proof fn lemma_positions_never_decrease(&self, i: int, j: int)
        requires
            self.count >= 1,
            self.padding_inner >= 0,
            self.padding_outer >= 0,
            0 <= i <= j,
        ensures
            self.position(i) <= self.position(j),
    {
        self.lemma_slots_positive();
        let t = self.slots();
        let span = self.span();
        let stride = UNIT + self.padding_inner;
        let a = span * (self.padding_outer + i * stride);
        let b = span * (self.padding_outer + j * stride);
        assert(a <= b) by (nonlinear_arith)
            requires
                a == span * (self.padding_outer + i * stride),
                b == span * (self.padding_outer + j * stride),
                span >= 0,
                stride >= 0,
                0 <= i <= j,
        ;
        vstd::arithmetic::div_mod::lemma_div_is_ordered(a, b, t);
    }

    /// The last band ends within the range: for non-negative paddings the
    /// bands fit.
    pub proof fn lemma_bands_fit(&self)
        requires
            self.count >= 1,
            self.padding_inner >= 0,
            self.padding_outer >= 0,
        ensures
            self.position(self.count - 1) + self.width() <= self.start() + self.span(),
    {
        self.lemma_slots_positive();
        let t = self.slots();
        let span = self.span();
        let last = self.padding_outer + (self.count - 1) * (UNIT + self.padding_inner);
        let a = span * last;
        let w = span * UNIT;
        assert(last + UNIT == t - self.padding_outer) by (nonlinear_arith)
            requires
                last == self.padding_outer + (self.count - 1) * (UNIT + self.padding_inner),
                t == self.count * UNIT + self.padding_inner * (self.count - 1) + 2
                    * self.padding_outer,
        ;
        assert(a + w <= t * span) by (nonlinear_arith)
            requires
                a == span * last,
                w == span * UNIT,
                last + UNIT <= t,
                span >= 0,
        ;
        lemma_floor_div_superadditive(a, w, t);
        vstd::arithmetic::div_mod::lemma_div_is_ordered(a + w, t * span, t);
        vstd::arithmetic::div_mod::lemma_div_multiples_vanish(span, t);
    }
}

impl ScaleBandSpec {
    /// The band width does not depend on the direction of the range.
    pub proof fn lemma_width_ignores_direction(&self, r0: Fixed, r1: Fixed)
        ensures
            self.bound_to((r0, r1)).width() == self.bound_to((r1, r0)).width(),
    {
    }
}

impl ScalePoint {
    /// Point positions increase strictly with the index as long as the step
    /// is at least one raw step.
    pub proof fn lemma_positions_increase(&self, i: int, j: int)
        requires
            self.count >= 2,
            self.padding >= 0,
            (self.span() * UNIT) / self.slots() >= 1,
            0 <= i < j,
        ensures
            self.position(i) < self.position(j),
    {
        let t = self.slots();
        assert(t >= UNIT) by (nonlinear_arith)
            requires
                t == (self.count - 1) * UNIT + 2 * self.padding,
                self.count >= 2,
                self.padding >= 0,
                UNIT > 0,
        ;
        let span = self.span();
        let a = span * (self.padding + i * UNIT);
        let b = span * (self.padding + j * UNIT);
        let w = span * UNIT;
        assert(b >= a + w) by (nonlinear_arith)
            requires
                a == span * (self.padding + i * UNIT),
                b == span * (self.padding + j * UNIT),
                w == span * UNIT,
                span >= 0,
                UNIT > 0,
                0 <= i < j,
        ;
        lemma_floor_div_superadditive(a, w, t);
        vstd::arithmetic::div_mod::lemma_div_is_ordered(a + w, b, t);
    }
}

/// Largest magnitude of a logarithm a log scale accepts: a thousand.
///
/// It bounds the number of ticks of a log scale and the work each of them
/// takes. The logarithm of every value a [`Fixed`] can hold is within it for
/// every base that is not within four hundredths of one.
pub const MAX_LOG: Fixed = 1_000_000_000;

/// Largest magnitude of a whole exponent a power is computed for.
pub const MAX_EXPONENT: i64 = 1_000;

/// The scalar for `base` to the power `e`, for a positive scalar `base` and
/// any whole exponent.
///
/// The power is built up one factor at a time from one: upward by
/// multiplying by the base, downward by dividing by it, each step rounded
/// toward negative infinity and pinned to the largest scalar. For a whole
/// base the powers with exponents from zero up are exact, and those below are
/// one over the power, rounded once.
pub open spec fn power_value(base: int, e: int) -> int
    decreases abs_int(e),
{
    if e == 0 {
        UNIT as int
    } else if e > 0 {
        min_int((power_value(base, e - 1) * base) / (UNIT as int), i64::MAX as int)
    } else {
        min_int((power_value(base, e + 1) * (UNIT as int)) / base, i64::MAX as int)
    }
}

/// Computes the scalar for `base` to the power `e`.
pub fn power_fixed(base: Fixed, e: i64) -> (r: Fixed)
    requires
        base > 0,
        -MAX_EXPONENT <= e <= MAX_EXPONENT,
    ensures
        r == power_value(base as int, e as int),
        r >= 0,
{
    let mut v: i128 = 1_000_000;
    let mut k: i64 = 0;
    if e >= 0 {
        while k < e
            invariant
                0 <= k <= e,
                base > 0,
                v == power_value(base as int, k as int),
                0 <= v <= i64::MAX,
            decreases e - k,
        {
            assert(0 <= v * (base as i128) <= 0x8000_0000_0000_0000 * 0x8000_0000_0000_0000)
                by (nonlinear_arith)
                requires
                    0 <= v <= 0x8000_0000_0000_0000,
                    0 < base <= 0x8000_0000_0000_0000,
            ;
            proof {
                lemma_floor_div_bounds(v * (base as int), UNIT as int);
            }
            let next: i128 = floor_div(v * (base as i128), 1_000_000);
            v = if next > i64::MAX as i128 {
                i64::MAX as i128
            } else {
                next
            };
            k = k + 1;
        }
    } else {
        while k > e
            invariant
                e <= k <= 0,
                base > 0,
                v == power_value(base as int, k as int),
                0 <= v <= i64::MAX,
            decreases k - e,
        {
            proof {
                lemma_floor_div_bounds(v * (UNIT as int), base as int);
            }
            let next: i128 = floor_div(v * 1_000_000, base as i128);
            v = if next > i64::MAX as i128 {
                i64::MAX as i128
            } else {
                next
            };
            k = k - 1;
        }
    }
    v as i64
}

/// A logarithmic mapping from a positive domain to a range of coordinates.
///
/// The scale computes no logarithms itself. The ends of its domain come with
/// their logarithms to the base of the scale, and so does every value to be
/// mapped; ticks are whole powers of the base, whose logarithms are exact.
/// The base is any positive scalar other than one.
#[derive(Clone, Copy, Debug, PartialEq, Eq)]
pub struct ScaleLog {
    /// The domain, as authored; meaningful only when both ends are positive.
    pub domain: (Fixed, Fixed),
    /// The logarithms of the two ends of the domain, to the base of the scale.
    pub log_domain: (Fixed, Fixed),
    /// The range of coordinates.
    pub range: (Fixed, Fixed),
    /// The base, a positive scalar other than one.
    pub base: Fixed,
}

/// Specification for a log scale: a domain with its logarithms and a base,
/// no range yet.
#[derive(Clone, Copy, Debug, PartialEq, Eq)]
pub struct ScaleLogSpec {
    /// Domain in data units; must be positive for meaningful output.
    pub domain: (Fixed, Fixed),
    /// The logarithms of the two ends of the domain, to `base`.
    pub log_domain: (Fixed, Fixed),
    /// The base; a base that is not positive, or one, stands for ten.
    pub base: Fixed,
}

/// The base a log scale uses for a requested `base`: the request if it is
/// positive and not one, and ten otherwise.
pub open spec fn base_of(base: Fixed) -> Fixed {
    if base > 0 && base != UNIT {
        base
    } else {
        10_000_000
    }
}

/// The whole part of a scalar, rounded toward negative infinity.
pub open spec fn floor_units(v: int) -> int {
    v / (UNIT as int)
}

/// The whole part of a scalar, rounded toward positive infinity.
pub open spec fn ceil_units(v: int) -> int {
    -((-v) / (UNIT as int))
}

impl ScaleLog {
    /// Whether the scale can be evaluated: range within the accepted
    /// coordinate range, logarithms within `[-MAX_LOG, MAX_LOG]` and a
    /// positive base other than one.
    pub open spec fn wf(&self) -> bool {
        &&& pair_in_range(self.range)
        &&& -MAX_LOG <= self.log_domain.0 <= MAX_LOG
        &&& -MAX_LOG <= self.log_domain.1 <= MAX_LOG
        &&& self.base > 0 && self.base != UNIT
    }

    /// Whether the domain is positive, so that the scale is meaningful.
    pub open spec fn positive(&self) -> bool {
        self.domain.0 > 0 && self.domain.1 > 0
    }

    /// The smaller end of the range: where every invalid input goes.
    pub open spec fn range_min(&self) -> int {
        min_int(self.range.0 as int, self.range.1 as int)
    }

    /// The exact position of a value `x` whose logarithm is `log_x`.
    ///
    /// An invalid input, that is an `x` or an end of the domain that is not
    /// positive, goes to the minimum of the range, whichever way the range
    /// runs. A valid input goes to the linear interpolation of its logarithm
    /// between the logarithms of the domain, and to the first end of the
    /// range when those two are equal.
    pub open spec fn position(&self, x: int, log_x: int) -> int {
        if x <= 0 || !self.positive() {
            self.range_min()
        } else {
            interpolate(
                self.log_domain.0 as int,
                self.log_domain.1 as int,
                self.range.0 as int,
                self.range.1 as int,
                log_x,
            )
        }
    }

    /// The logarithm of the smaller end of the domain.
    pub open spec fn log_min(&self) -> int {
        if self.domain.0 > self.domain.1 {
            self.log_domain.1 as int
        } else {
            self.log_domain.0 as int
        }
    }

    /// The logarithm of the larger end of the domain.
    pub open spec fn log_max(&self) -> int {
        if self.domain.0 > self.domain.1 {
            self.log_domain.0 as int
        } else {
            self.log_domain.1 as int
        }
    }

    /// The exponent of the lowest tick: the logarithm of the smaller end of
    /// the domain, rounded down.
    pub open spec fn first_exponent(&self) -> int {
        floor_units(self.log_min())
    }

    /// The exponent of the highest tick before truncation: the logarithm of
    /// the larger end of the domain, rounded up.
    pub open spec fn last_exponent(&self) -> int {
        ceil_units(self.log_max())
    }

    /// How many ticks the scale has for a requested `count`: one for every
    /// whole exponent from the first to the last, but for a nonzero `count`
    /// no more than `count`, and none for a domain with a non-positive end.
    pub open spec fn tick_count(&self, count: int) -> int {
        let all = self.last_exponent() - self.first_exponent() + 1;
        if min_int(self.domain.0 as int, self.domain.1 as int) <= 0 || all <= 0 {
            0
        } else if count != 0 && count < all {
            count
        } else {
            all
        }
    }

    /// The exponent of the `i`-th tick.
    pub open spec fn tick_exponent(&self, i: int) -> int {
        self.first_exponent() + i
    }

    /// The ticks for a requested `count`: the powers of the base at the
    /// whole exponents from the first on, lowest first.
    pub open spec fn ticks_of(&self, count: int) -> Seq<int> {
        Seq::new(
            self.tick_count(count) as nat,
            |i: int| power_value(self.base as int, self.tick_exponent(i)),
        )
    }

    /// Creates a log scale to base ten from a domain, the base-ten
    /// logarithms of its two ends, and a range.
    pub fn new(domain: (Fixed, Fixed), log_domain: (Fixed, Fixed), range: (Fixed, Fixed)) -> (s:
        ScaleLog)
        ensures
            s == (ScaleLog { domain, log_domain, range, base: 10_000_000 }),
    {
        ScaleLog { domain, log_domain, range, base: 10_000_000 }
    }

    /// Sets the base, and the logarithms of the two ends of the domain to
    /// that base. A base that is not positive, or one, stands for ten.
    pub fn with_base(self, base: Fixed, log_domain: (Fixed, Fixed)) -> (s: ScaleLog)
        ensures
            s == (ScaleLog {
                domain: self.domain,
                log_domain,
                range: self.range,
                base: base_of(base),
            }),
    {
        ScaleLog {
            domain: self.domain,
            log_domain,
            range: self.range,
            base: if base > 0 && base != 1_000_000 {
                base
            } else {
                10_000_000
            },
        }
    }

    /// Maps the value `x`, whose logarithm to the base of the scale is
    /// `log_x`, into the range.
    ///
    /// Returns the minimum of the range when `x` or an end of the domain is
    /// not positive. A position beyond the representable coordinates is
    /// pinned to their nearest end.
    pub fn map(&self, x: Fixed, log_x: Fixed) -> (r: Fixed)
        requires
            self.wf(),
        ensures
            r == saturate(self.position(x as int, log_x as int)),
    {
        if x <= 0 || self.domain.0 <= 0 || self.domain.1 <= 0 {
            return self.lower_end();
        }
        interpolate_fixed(self.log_domain.0, self.log_domain.1, self.range.0, self.range.1, log_x)
    }

    /// Returns the smaller end of the range.
    fn lower_end(&self) -> (r: Fixed)
        ensures
            r == self.range_min(),
    {
        if self.range.0 <= self.range.1 {
            self.range.0
        } else {
            self.range.1
        }
    }

    /// Maps the power of the base with the whole exponent `e` into the
    /// range. With an end of the domain that is not positive it goes to the
    /// minimum of the range.
    pub fn map_exponent(&self, e: i64) -> (r: Fixed)
        requires
            self.wf(),
            -MAX_LOG <= e * UNIT <= MAX_LOG,
        ensures
            r == saturate(self.position(1, e * UNIT)),
    {
        assert(e * UNIT == 1_000_000 * e) by (nonlinear_arith)
            requires
                UNIT == 1_000_000,
        ;
        if self.domain.0 <= 0 || self.domain.1 <= 0 {
            return self.lower_end();
        }
        interpolate_fixed(
            self.log_domain.0,
            self.log_domain.1,
            self.range.0,
            self.range.1,
            1_000_000 * e,
        )
    }

    /// The first and last tick exponents.
    pub fn exponents(&self) -> (e: (i64, i64))
        requires
            self.wf(),
        ensures
            e.0 == self.first_exponent(),
            e.1 == self.last_exponent(),
            -MAX_EXPONENT <= e.0 <= MAX_EXPONENT,
            -MAX_EXPONENT <= e.1 <= MAX_EXPONENT,
    {
        let (lo, hi): (Fixed, Fixed) = if self.domain.0 > self.domain.1 {
            (self.log_domain.1, self.log_domain.0)
        } else {
            (self.log_domain.0, self.log_domain.1)
        };
        proof {
            lemma_units_bounds(lo as int);
            lemma_units_bounds(hi as int);
        }
        let first: i128 = floor_div(lo as i128, 1_000_000);
        let last: i128 = -floor_div(-(hi as i128), 1_000_000);
        (first as i64, last as i64)
    }

    /// Returns the ticks of the scale: the powers of the base whose
    /// exponents lie between the logarithms of the domain, rounded outward.
    ///
    /// A nonzero `count` truncates the ticks to the `count` lowest powers. A
    /// domain with a non-positive end has no ticks.
    pub fn ticks(&self, count: usize) -> (ticks: Vec<Fixed>)
        requires
            self.wf(),
        ensures
            holds(ticks@, self.ticks_of(count as int)),
    {
        let min: Fixed = if self.domain.0 > self.domain.1 {
            self.domain.1
        } else {
            self.domain.0
        };
        let mut out: Vec<Fixed> = Vec::new();
        if min <= 0 {
            return out;
        }
        let (first, last) = self.exponents();
        let mut e: i64 = first;
        while e <= last
            invariant
                self.wf(),
                first == self.first_exponent(),
                last == self.last_exponent(),
                -MAX_EXPONENT <= first <= MAX_EXPONENT,
                -MAX_EXPONENT <= last <= MAX_EXPONENT,
                first <= e <= last + 1 || (e == first && first > last),
                min_int(self.domain.0 as int, self.domain.1 as int) > 0,
                out@.len() == e - first,
                count == 0 || out@.len() < count || out@.len() == 0,
                forall|i: int|
                    0 <= i < out@.len() ==> #[trigger] out@[i] as int == power_value(
                        self.base as int,
                        self.tick_exponent(i),
                    ),
            decreases last + 1 - e,
        {
            out.push(power_fixed(self.base, e));
            e = e + 1;
            if count != 0 && out.len() >= count {
                return out;
            }
        }
        out
    }

    /// Returns the first end of the domain, as authored.
    pub fn domain_min(&self) -> (d: Fixed)
        ensures
            d == self.domain.0,
    {
        self.domain.0
    }

    /// Returns the second end of the domain, as authored.
    pub fn domain_max(&self) -> (d: Fixed)
        ensures
            d == self.domain.1,
    {
        self.domain.1
    }

    /// An invalid input goes to the minimum of the range, whichever way the
    /// range runs.
    pub proof fn lemma_invalid_goes_to_range_min(&self, x: int, log_x: int)
        requires
            x <= 0 || self.domain.0 <= 0 || self.domain.1 <= 0,
        ensures
            saturate(self.position(x, log_x)) == min_int(
                self.range.0 as int,
                self.range.1 as int,
            ),
    {
    }

    /// A log scale maps the first end of a positive domain exactly onto the
    /// first end of its range, whatever the base and the second end.
    pub proof fn lemma_first_end_hits_range_start(&self)
        requires
            self.positive(),
        ensures
            saturate(self.position(self.domain.0 as int, self.log_domain.0 as int))
                == self.range.0,
    {
        if self.log_domain.0 != self.log_domain.1 {
            self.lemma_map_hits_range_ends();
        }
    }

    /// A log scale maps the ends of a positive domain exactly onto the ends
    /// of its range, whatever the base, when the logarithms of the two ends
    /// differ.
    pub proof fn lemma_map_hits_range_ends(&self)
        requires
            self.positive(),
            self.log_domain.0 != self.log_domain.1,
        ensures
            saturate(self.position(self.domain.0 as int, self.log_domain.0 as int))
                == self.range.0,
            saturate(self.position(self.domain.1 as int, self.log_domain.1 as int))
                == self.range.1,
    {
        lemma_interpolate_ends(
            self.log_domain.0 as int,
            self.log_domain.1 as int,
            self.range.0 as int,
            self.range.1 as int,
        );
    }
}

/// The whole parts of a logarithm within the accepted bounds are within
/// a thousand of zero.
pub proof fn lemma_units_bounds(v: int)
    requires
        -MAX_LOG <= v <= MAX_LOG,
    ensures
        -MAX_EXPONENT <= floor_units(v) <= MAX_EXPONENT,
        -MAX_EXPONENT <= ceil_units(v) <= MAX_EXPONENT,
{
    vstd::arithmetic::div_mod::lemma_fundamental_div_mod(v, UNIT as int);
    vstd::arithmetic::div_mod::lemma_mod_bound(v, UNIT as int);
    vstd::arithmetic::div_mod::lemma_fundamental_div_mod(-v, UNIT as int);
    vstd::arithmetic::div_mod::lemma_mod_bound(-v, UNIT as int);
}

impl ScaleLogSpec {
    /// The scale this specification gives over `range`.
    pub open spec fn bound_to(&self, range: (Fixed, Fixed)) -> ScaleLog {
        ScaleLog {
            domain: self.domain,
            log_domain: self.log_domain,
            range,
            base: base_of(self.base),
        }
    }

    /// Creates a log scale specification to base ten from a domain and the
    /// base-ten logarithms of its two ends.
    pub fn new(domain: (Fixed, Fixed), log_domain: (Fixed, Fixed)) -> (s: ScaleLogSpec)
        ensures
            s == (ScaleLogSpec { domain, log_domain, base: 10_000_000 }),
    {
        ScaleLogSpec { domain, log_domain, base: 10_000_000 }
    }

    /// Sets the base, and the logarithms of the two ends of the domain to
    /// that base.
    pub fn with_base(self, base: Fixed, log_domain: (Fixed, Fixed)) -> (s: ScaleLogSpec)
        ensures
            s == (ScaleLogSpec { domain: self.domain, log_domain, base }),
    {
        ScaleLogSpec { domain: self.domain, log_domain, base }
    }

    /// Instantiates a scale for a given range.
    pub fn instantiate(&self, range: (Fixed, Fixed)) -> (s: ScaleLog)
        ensures
            s == self.bound_to(range),
    {
        ScaleLog::new(self.domain, self.log_domain, range).with_base(self.base, self.log_domain)
    }
}

/// A scale specification: a domain and options, no range yet.
#[derive(Clone, Copy, Debug, PartialEq, Eq)]
pub enum ScaleSpec {
    /// Continuous linear scale.
    Linear(ScaleLinearSpec),
    /// Continuous log scale.
    Log(ScaleLogSpec),
    /// Continuous time scale over seconds.
    Time(ScaleTimeSpec),
    /// Discrete point scale.
    Point(ScalePointSpec),
    /// Discrete band scale.
    Band(ScaleBandSpec),
}

impl ScaleSpec {
    /// Whether the scale is continuous: linear, log or time.
    pub open spec fn is_continuous(&self) -> bool {
        self is Linear || self is Log || self is Time
    }
}

/// A continuous scale instance.
#[derive(Clone, Copy, Debug, PartialEq, Eq)]
pub enum ScaleContinuous {
    /// Linear scale.
    Linear(ScaleLinear),
    /// Log scale.
    Log(ScaleLog),
    /// Time scale.
    Time(ScaleTime),
}

impl ScaleContinuous {
    /// Whether the scale can be evaluated.
    pub open spec fn wf(&self) -> bool {
        match self {
            ScaleContinuous::Linear(s) => s.in_range(),
            ScaleContinuous::Log(s) => s.wf(),
            ScaleContinuous::Time(s) => s.inner.in_range(),
        }
    }

    /// The exact position of the value `x`, whose logarithm is `log_x`. Only
    /// a log scale looks at the logarithm.
    pub open spec fn position(&self, x: int, log_x: int) -> int {
        match self {
            ScaleContinuous::Linear(s) => s.position(x),
            ScaleContinuous::Log(s) => s.position(x, log_x),
            ScaleContinuous::Time(s) => s.inner.position(x),
        }
    }

    /// The domain, as authored.
    pub open spec fn domain(&self) -> (Fixed, Fixed) {
        match self {
            ScaleContinuous::Linear(s) => s.domain,
            ScaleContinuous::Log(s) => s.domain,
            ScaleContinuous::Time(s) => s.inner.domain,
        }
    }

    /// The ticks for a requested `count`.
    pub open spec fn ticks_of(&self, count: int) -> Seq<int> {
        match self {
            ScaleContinuous::Linear(s) => nice_ticks_of(
                s.domain.0 as int,
                s.domain.1 as int,
                count,
            ),
            ScaleContinuous::Log(s) => s.ticks_of(count),
            ScaleContinuous::Time(s) => nice_time_ticks_of(
                s.inner.domain.0 as int,
                s.inner.domain.1 as int,
                count,
            ),
        }
    }

    /// Maps the value `x` into the range. `log_x` is the logarithm of `x` to
    /// the base of a log scale; the other scales ignore it.
    pub fn map(&self, x: Fixed, log_x: Fixed) -> (r: Fixed)
        requires
            self.wf(),
        ensures
            r == saturate(self.position(x as int, log_x as int)),
    {
        match self {
            ScaleContinuous::Linear(s) => s.map(x),
            ScaleContinuous::Log(s) => s.map(x, log_x),
            ScaleContinuous::Time(s) => s.map(x),
        }
    }

    /// Returns tick values.
    pub fn ticks(&self, count: usize) -> (ticks: Vec<Fixed>)
        requires
            self.wf(),
            pair_in_tick_range(self.domain()),
        ensures
            holds(ticks@, self.ticks_of(count as int)),
    {
        match self {
            ScaleContinuous::Linear(s) => s.ticks(count),
            ScaleContinuous::Log(s) => s.ticks(count),
            ScaleContinuous::Time(s) => s.ticks(count),
        }
    }

    /// Returns the first end of the domain, as authored.
    pub fn domain_min(&self) -> (d: Fixed)
        ensures
            d == self.domain().0,
    {
        match self {
            ScaleContinuous::Linear(s) => s.domain_min(),
            ScaleContinuous::Log(s) => s.domain_min(),
            ScaleContinuous::Time(s) => s.domain_min(),
        }
    }

    /// Returns the second end of the domain, as authored.
    pub fn domain_max(&self) -> (d: Fixed)
        ensures
            d == self.domain().1,
    {
        match self {
            ScaleContinuous::Linear(s) => s.domain_max(),
            ScaleContinuous::Log(s) => s.domain_max(),
            ScaleContinuous::Time(s) => s.domain_max(),
        }
    }
}

impl From<ScaleLinearSpec> for ScaleSpec {
    fn from(value: ScaleLinearSpec) -> (s: ScaleSpec) {
        ScaleSpec::Linear(value)
    }
}

impl vstd::std_specs::convert::FromSpecImpl<ScaleLinearSpec> for ScaleSpec {
    open spec fn obeys_from_spec() -> bool {
        true
    }

    open spec fn from_spec(value: ScaleLinearSpec) -> ScaleSpec {
        ScaleSpec::Linear(value)
    }
}

impl From<ScaleLogSpec> for ScaleSpec {
    fn from(value: ScaleLogSpec) -> (s: ScaleSpec) {
        ScaleSpec::Log(value)
    }
}

impl vstd::std_specs::convert::FromSpecImpl<ScaleLogSpec> for ScaleSpec {
    open spec fn obeys_from_spec() -> bool {
        true
    }

    open spec fn from_spec(value: ScaleLogSpec) -> ScaleSpec {
        ScaleSpec::Log(value)
    }
}

impl From<ScaleTimeSpec> for ScaleSpec {
    fn from(value: ScaleTimeSpec) -> (s: ScaleSpec) {
        ScaleSpec::Time(value)
    }
}

impl vstd::std_specs::convert::FromSpecImpl<ScaleTimeSpec> for ScaleSpec {
    open spec fn obeys_from_spec() -> bool {
        true
    }

    open spec fn from_spec(value: ScaleTimeSpec) -> ScaleSpec {
        ScaleSpec::Time(value)
    }
}

impl From<ScalePointSpec> for ScaleSpec {
    fn from(value: ScalePointSpec) -> (s: ScaleSpec) {
        ScaleSpec::Point(value)
    }
}

impl vstd::std_specs::convert::FromSpecImpl<ScalePointSpec> for ScaleSpec {
    open spec fn obeys_from_spec() -> bool {
        true
    }

    open spec fn from_spec(value: ScalePointSpec) -> ScaleSpec {
        ScaleSpec::Point(value)
    }
}

impl From<ScaleBandSpec> for ScaleSpec {
    fn from(value: ScaleBandSpec) -> (s: ScaleSpec) {
        ScaleSpec::Band(value)
    }
}

impl vstd::std_specs::convert::FromSpecImpl<ScaleBandSpec> for ScaleSpec {
    open spec fn obeys_from_spec() -> bool {
        true
    }

    open spec fn from_spec(value: ScaleBandSpec) -> ScaleSpec {
        ScaleSpec::Band(value)
    }
}

/// Returns whether both ends of an interval lie within the accepted
/// coordinate range.
pub fn is_pair_in_range(p: (Fixed, Fixed)) -> (r: bool)
    ensures
        r == pair_in_range(p),
{
    crate::fixed::is_in_range(p.0) && crate::fixed::is_in_range(p.1)
}

/// Returns whether ticks can be generated for both ends of an interval.
pub fn is_pair_in_tick_range(p: (Fixed, Fixed)) -> (r: bool)
    ensures
        r == pair_in_tick_range(p),
{
    crate::ticks::is_in_tick_range(p.0) && crate::ticks::is_in_tick_range(p.1)
}

impl ScaleLinear {
    /// Returns whether the scale can map values.
    pub fn is_in_range(&self) -> (r: bool)
        ensures
            r == self.in_range(),
    {
        is_pair_in_range(self.range)
    }
}

impl ScaleBand {
    /// Returns whether the scale can be evaluated.
    pub fn is_wf(&self) -> (r: bool)
        ensures
            r == self.wf(),
    {
        is_pair_in_range(self.range) && 0 <= self.padding_inner && self.padding_inner
            <= MAX_PADDING && 0 <= self.padding_outer && self.padding_outer <= MAX_PADDING
            && self.count <= MAX_COUNT
    }
}

impl ScalePoint {
    /// Returns whether the scale can be evaluated.
    pub fn is_wf(&self) -> (r: bool)
        ensures
            r == self.wf(),
    {
        is_pair_in_range(self.range) && 0 <= self.padding && self.padding <= MAX_PADDING
            && self.count <= MAX_COUNT
    }
}

impl ScaleLog {
    /// Returns whether the scale can be evaluated.
    pub fn is_wf(&self) -> (r: bool)
        ensures
            r == self.wf(),
    {
        is_pair_in_range(self.range) && -MAX_LOG <= self.log_domain.0 && self.log_domain.0
            <= MAX_LOG && -MAX_LOG <= self.log_domain.1 && self.log_domain.1 <= MAX_LOG
            && self.base > 0 && self.base != 1_000_000
    }
}

impl ScaleContinuous {
    /// Returns whether the scale can be evaluated.
    pub fn is_wf(&self) -> (r: bool)
        ensures
            r == self.wf(),
    {
        match self {
            ScaleContinuous::Linear(s) => s.is_in_range(),
            ScaleContinuous::Log(s) => s.is_wf(),
            ScaleContinuous::Time(s) => s.inner.is_in_range(),
        }
    }
}

impl ScaleLogSpec {
    /// Creates the specification of a log scale whose domain runs from one
    /// whole power of the base to another: from `base` to the power `e0` to
    /// `base` to the power `e1`. The logarithms of such a domain are exact.
    pub fn between_powers(base: Fixed, e0: i16, e1: i16) -> (s: ScaleLogSpec)
        requires
            base > 0,
            -MAX_EXPONENT <= e0 <= MAX_EXPONENT,
            -MAX_EXPONENT <= e1 <= MAX_EXPONENT,
        ensures
            s == (ScaleLogSpec {
                domain: (
                    power_value(base as int, e0 as int) as Fixed,
                    power_value(base as int, e1 as int) as Fixed,
                ),
                log_domain: ((e0 * UNIT) as Fixed, (e1 * UNIT) as Fixed),
                base,
            }),
            -MAX_LOG <= s.log_domain.0 <= MAX_LOG,
            -MAX_LOG <= s.log_domain.1 <= MAX_LOG,
    {
        assert(e0 * UNIT == 1_000_000 * e0 && e1 * UNIT == 1_000_000 * e1) by (nonlinear_arith)
            requires
                UNIT == 1_000_000,
        ;
        ScaleLogSpec {
            domain: (power_fixed(base, e0 as i64), power_fixed(base, e1 as i64)),
            log_domain: (1_000_000 * (e0 as i64), 1_000_000 * (e1 as i64)),
            base,
        }
    }
}

} // verus!
