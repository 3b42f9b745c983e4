//! Axes: measured first, arranged once the plot rectangle is known.
//!
//! An [`AxisSpec`] owns one scale specification and the presentation options
//! of an axis. It is measured to learn how much margin it needs, before the
//! plot rectangle exists, and arranged into marks once the layout is known.
//! Both are pure functions of the specification and their inputs.

use vstd::prelude::*;
use vstd::std_specs::convert::IntoSpec;
use crate::fixed::{
    Fixed,
    LIMIT,
    UNIT,
    abs_int,
    floor_div,
    in_range,
    interpolate,
    max_int,
    min_int,
    saturate,
    saturate_to_fixed,
};
use crate::format::{format_tick_with_step, tick_text};
use crate::layout::{Rect, nonneg};
use crate::mark::Color;
use crate::scale::{
    MAX_COUNT,
    MAX_LOG,
    ScaleBand,
    ScaleContinuous,
    ScaleLinear,
    ScalePoint,
    ScaleSpec,
    ScaleTime,
    pair_in_range,
};
use crate::text::{TextMeasurer, TextMetrics, all_measured, measure_all, measure_pinned, measured, texts};
use crate::ticks::{
    holds,
    lemma_nice_ticks_bounded,
    nice_ticks,
    nice_ticks_of,
};
use crate::time::{format_time_seconds, nice_time_ticks_of, nice_time_ticks_seconds, time_text};

verus! {

/// A paint and width pair for stroked lines: domain lines, ticks, gridlines.
#[derive(Clone, Copy, Debug, PartialEq, Eq, Structural)]
pub struct StrokeStyle {
    /// Stroke paint.
    pub brush: Color,
    /// Stroke width.
    pub stroke_width: Fixed,
}

impl StrokeStyle {
    /// Convenience for a solid stroke.
    pub fn solid(brush: Color, stroke_width: Fixed) -> (s: StrokeStyle)
        ensures
            s == (StrokeStyle { brush, stroke_width }),
    {
        StrokeStyle { brush, stroke_width }
    }
}

impl Default for StrokeStyle {
    /// Opaque black, one unit wide.
    fn default() -> (s: StrokeStyle)
        ensures
            s == (StrokeStyle { brush: Color::black(), stroke_width: 1_000_000 }),
    {
        StrokeStyle { brush: Color { r: 0, g: 0, b: 0, a: 255 }, stroke_width: 1_000_000 }
    }
}

/// Axis styling.
#[derive(Clone, Copy, Debug, PartialEq, Eq, Structural)]
pub struct AxisStyle {
    /// Style for the axis domain line and tick marks.
    pub rule: StrokeStyle,
    /// Fill paint for tick labels.
    pub label_fill: Color,
    /// Font size for tick labels.
    pub label_font_size: Fixed,
    /// Fill paint for the axis title.
    pub title_fill: Color,
    /// Font size for the axis title.
    pub title_font_size: Fixed,
}

impl Default for AxisStyle {
    /// Black rules and text, labels at size ten and the title at size eleven.
    fn default() -> (s: AxisStyle)
        ensures
            s == (AxisStyle {
                rule: StrokeStyle { brush: Color::black(), stroke_width: 1_000_000 },
                label_fill: Color::black(),
                label_font_size: 10_000_000,
                title_fill: Color::black(),
                title_font_size: 11_000_000,
            }),
    {
        let rule = StrokeStyle::default();
        AxisStyle {
            rule,
            label_fill: rule.brush,
            label_font_size: 10_000_000,
            title_fill: rule.brush,
            title_font_size: 11_000_000,
        }
    }
}

/// Gridline styling.
#[derive(Clone, Copy, Debug, PartialEq, Eq, Structural)]
pub struct GridStyle {
    /// Stroke style for gridlines.
    pub stroke: StrokeStyle,
}

impl Default for GridStyle {
    /// Faint black, one unit wide.
    fn default() -> (s: GridStyle)
        ensures
            s == (GridStyle {
                stroke: StrokeStyle {
                    brush: Color { r: 0, g: 0, b: 0, a: 40 },
                    stroke_width: 1_000_000,
                },
            }),
    {
        GridStyle {
            stroke: StrokeStyle { brush: Color { r: 0, g: 0, b: 0, a: 40 }, stroke_width: 1_000_000 },
        }
    }
}

/// Axis orientation relative to the plot.
#[derive(Clone, Copy, Debug, PartialEq, Eq, Structural, Hash)]
pub enum AxisOrient {
    /// A horizontal axis placed above the plot area.
    Top,
    /// A horizontal axis placed below the plot area.
    Bottom,
    /// A vertical axis placed to the left of the plot area.
    Left,
    /// A vertical axis placed to the right of the plot area.
    Right,
}

impl AxisOrient {
    /// Whether the axis runs horizontally: top or bottom.
    pub open spec fn horizontal(&self) -> bool {
        *self is Top || *self is Bottom
    }

    /// Returns whether the axis runs horizontally.
    pub fn is_horizontal(&self) -> (h: bool)
        ensures
            h == self.horizontal(),
    {
        match self {
            AxisOrient::Top | AxisOrient::Bottom => true,
            AxisOrient::Left | AxisOrient::Right => false,
        }
    }
}

/// A rotation: an angle in degrees together with its sine and cosine.
///
/// The crate computes no trigonometric functions. Whoever makes an angle
/// supplies its sine and cosine as scalars.
#[derive(Clone, Copy, Debug, PartialEq, Eq, Structural)]
pub struct Angle {
    /// The angle in degrees.
    pub degrees: Fixed,
    /// The sine of the angle.
    pub sin: Fixed,
    /// The cosine of the angle.
    pub cos: Fixed,
}

impl Angle {
    /// Whether sine and cosine lie within `[-1, 1]`.
    pub open spec fn wf(&self) -> bool {
        -UNIT <= self.sin <= UNIT && -UNIT <= self.cos <= UNIT
    }

    /// Whether sine and cosine are those of a real angle up to rounding:
    /// their magnitudes add up to at least one.
    pub open spec fn proper(&self) -> bool {
        abs_int(self.sin as int) + abs_int(self.cos as int) >= UNIT
    }

    /// No rotation.
    pub open spec fn none() -> Angle {
        Angle { degrees: 0, sin: 0, cos: 1_000_000 }
    }

    /// Returns the angle of no rotation.
    pub fn zero() -> (a: Angle)
        ensures
            a == Angle::none(),
    {
        Angle { degrees: 0, sin: 0, cos: 1_000_000 }
    }

    /// Creates an angle from its degrees, sine and cosine. Sine and cosine
    /// are pinned into `[-1, 1]`.
    pub fn new(degrees: Fixed, sin: Fixed, cos: Fixed) -> (a: Angle)
        ensures
            a.degrees == degrees,
            a.sin == crate::fixed::clamp_int(sin as int, -UNIT as int, UNIT as int),
            a.cos == crate::fixed::clamp_int(cos as int, -UNIT as int, UNIT as int),
            a.wf(),
    {
        Angle { degrees, sin: clamp_unit(sin), cos: clamp_unit(cos) }
    }
}

fn clamp_unit(v: Fixed) -> (r: Fixed)
    ensures
        r == crate::fixed::clamp_int(v as int, -UNIT as int, UNIT as int),
{
    if v < -1_000_000 {
        -1_000_000
    } else if v > 1_000_000 {
        1_000_000
    } else {
        v
    }
}

/// An axis specification: one scale, an orientation and presentation
/// options.
#[derive(Clone, Debug, PartialEq, Eq)]
pub struct AxisSpec {
    /// Stable-id base; each generated mark has a fixed offset from it.
    pub id_base: u64,
    /// The axis scale specification.
    pub scale: ScaleSpec,
    /// Axis placement relative to the plot.
    pub orient: AxisOrient,
    /// Approximate number of ticks.
    pub tick_count: usize,
    /// Tick line length; the direction depends on the orientation.
    pub tick_size: Fixed,
    /// Whether to draw tick marks.
    pub ticks: bool,
    /// Whether to draw tick labels.
    pub labels: bool,
    /// Whether to draw the axis domain line.
    pub show_domain: bool,
    /// Padding between the tick end and the tick label.
    pub tick_padding: Fixed,
    /// Extra padding between the ticks and the tick labels.
    pub label_padding: Fixed,
    /// Axis styling.
    pub style: AxisStyle,
    /// Gridline styling; gridlines span the plot when set.
    pub grid: Option<GridStyle>,
    /// Axis title text.
    pub title: Option<String>,
    /// Distance from the tick labels to the title.
    pub title_offset: Fixed,
    /// Tick label rotation.
    pub label_angle: Angle,
    /// Tick label texts of the caller, in tick order. Where there is a text
    /// for a tick it is used to measure and to arrange the axis in place of
    /// the default label.
    pub tick_labels: Option<Vec<String>>,
}

/// The largest index a discrete scale is asked for when a tick is placed.
pub const MAX_DISCRETE_INDEX: usize = 10_000;

/// The distance between the first two of a sequence of ticks, and zero for
/// fewer than two.
pub open spec fn tick_gap(ticks: Seq<int>) -> int {
    if ticks.len() >= 2 {
        abs_int(ticks[1] - ticks[0])
    } else {
        0
    }
}

/// Whether a list of texts holds exactly the given character sequences.
pub open spec fn texts_hold(v: Seq<String>, s: Seq<Seq<char>>) -> bool {
    &&& v.len() == s.len()
    &&& forall|i: int| 0 <= i < v.len() ==> #[trigger] v[i]@ == s[i]
}

impl AxisSpec {
    /// Whether the axis can be measured and arranged: its scalars lie within
    /// the accepted coordinate range, its rotation is well formed, and its
    /// scale can be evaluated.
    pub open spec fn wf(&self) -> bool {
        &&& in_range(self.tick_size as int)
        &&& in_range(self.tick_padding as int)
        &&& in_range(self.label_padding as int)
        &&& in_range(self.title_offset as int)
        &&& in_range(self.style.label_font_size as int)
        &&& in_range(self.style.title_font_size as int)
        &&& self.label_angle.wf()
        &&& match self.scale {
            ScaleSpec::Linear(s) => pair_in_range(s.domain),
            ScaleSpec::Log(s) => -MAX_LOG <= s.log_domain.0 <= MAX_LOG && -MAX_LOG
                <= s.log_domain.1 <= MAX_LOG,
            ScaleSpec::Time(s) => pair_in_range(s.domain),
            ScaleSpec::Point(s) => s.count <= MAX_COUNT,
            ScaleSpec::Band(s) => s.count <= MAX_COUNT,
        }
    }

    /// The axis `new` makes: ten ticks of size five, ticks, labels and
    /// domain line on, a tick padding of twelve for a horizontal and six for
    /// a vertical axis, no label padding, the default style, no grid, no
    /// title, a title offset of ten, unrotated labels and default label
    /// texts.
    pub open spec fn fresh(id_base: u64, scale: ScaleSpec, orient: AxisOrient) -> AxisSpec {
        AxisSpec {
            id_base,
            scale,
            orient,
            tick_count: 10,
            tick_size: 5_000_000,
            ticks: true,
            labels: true,
            show_domain: true,
            tick_padding: if orient.horizontal() {
                12_000_000
            } else {
                6_000_000
            },
            label_padding: 0,
            style: AxisStyle {
                rule: StrokeStyle { brush: Color::black(), stroke_width: 1_000_000 },
                label_fill: Color::black(),
                label_font_size: 10_000_000,
                title_fill: Color::black(),
                title_font_size: 11_000_000,
            },
            grid: None,
            title: None,
            title_offset: 10_000_000,
            label_angle: Angle::none(),
            tick_labels: None,
        }
    }

    /// Creates an axis specification for a scale of any kind, with the
    /// defaults of [`AxisSpec::fresh`].
    pub fn new<S: Into<ScaleSpec>>(id_base: u64, scale: S, orient: AxisOrient) -> (a: AxisSpec)
        ensures
            S::obeys_into_spec() ==> a == AxisSpec::fresh(id_base, scale.into_spec(), orient),
    {
        AxisSpec::from_scale(id_base, scale.into(), orient)
    }

    /// Creates an axis specification for a scale specification, with the
    /// defaults of [`AxisSpec::fresh`].
    pub fn from_scale(id_base: u64, scale: ScaleSpec, orient: AxisOrient) -> (a: AxisSpec)
        ensures
            a == AxisSpec::fresh(id_base, scale, orient),
    {
        let tick_padding: Fixed = if orient.is_horizontal() {
            12_000_000
        } else {
            6_000_000
        };
        AxisSpec {
            id_base,
            scale,
            orient,
            tick_count: 10,
            tick_size: 5_000_000,
            ticks: true,
            labels: true,
            show_domain: true,
            tick_padding,
            label_padding: 0,
            style: AxisStyle::default(),
            grid: None,
            title: None,
            title_offset: 10_000_000,
            label_angle: Angle::zero(),
            tick_labels: None,
        }
    }

    /// Convenience constructor for a bottom axis.
    pub fn bottom<S: Into<ScaleSpec>>(id_base: u64, scale: S) -> (a: AxisSpec)
        ensures
            S::obeys_into_spec() ==> a == AxisSpec::fresh(
                id_base,
                scale.into_spec(),
                AxisOrient::Bottom,
            ),
    {
        AxisSpec::new(id_base, scale, AxisOrient::Bottom)
    }

    /// Convenience constructor for a top axis.
    pub fn top<S: Into<ScaleSpec>>(id_base: u64, scale: S) -> (a: AxisSpec)
        ensures
            S::obeys_into_spec() ==> a == AxisSpec::fresh(
                id_base,
                scale.into_spec(),
                AxisOrient::Top,
            ),
    {
        AxisSpec::new(id_base, scale, AxisOrient::Top)
    }

    /// Convenience constructor for a left axis.
    pub fn left<S: Into<ScaleSpec>>(id_base: u64, scale: S) -> (a: AxisSpec)
        ensures
            S::obeys_into_spec() ==> a == AxisSpec::fresh(
                id_base,
                scale.into_spec(),
                AxisOrient::Left,
            ),
    {
        AxisSpec::new(id_base, scale, AxisOrient::Left)
    }

    /// Convenience constructor for a right axis.
    pub fn right<S: Into<ScaleSpec>>(id_base: u64, scale: S) -> (a: AxisSpec)
        ensures
            S::obeys_into_spec() ==> a == AxisSpec::fresh(
                id_base,
                scale.into_spec(),
                AxisOrient::Right,
            ),
    {
        AxisSpec::new(id_base, scale, AxisOrient::Right)
    }

    /// Sets the approximate tick count.
    pub fn with_tick_count(self, tick_count: usize) -> (a: AxisSpec)
        ensures
            a == (AxisSpec { tick_count, ..self }),
    {
        AxisSpec { tick_count, ..self }
    }

    /// Sets the tick size.
    pub fn with_tick_size(self, tick_size: Fixed) -> (a: AxisSpec)
        ensures
            a == (AxisSpec { tick_size, ..self }),
    {
        AxisSpec { tick_size, ..self }
    }

    /// Enables or disables tick marks.
    pub fn with_ticks(self, ticks: bool) -> (a: AxisSpec)
        ensures
            a == (AxisSpec { ticks, ..self }),
    {
        AxisSpec { ticks, ..self }
    }

    /// Enables or disables tick labels.
    pub fn with_labels(self, labels: bool) -> (a: AxisSpec)
        ensures
            a == (AxisSpec { labels, ..self }),
    {
        AxisSpec { labels, ..self }
    }

    /// Enables or disables the axis domain line.
    pub fn with_domain(self, domain: bool) -> (a: AxisSpec)
        ensures
            a == (AxisSpec { show_domain: domain, ..self }),
    {
        AxisSpec { show_domain: domain, ..self }
    }

    /// Sets the tick padding.
    pub fn with_tick_padding(self, tick_padding: Fixed) -> (a: AxisSpec)
        ensures
            a == (AxisSpec { tick_padding, ..self }),
    {
        AxisSpec { tick_padding, ..self }
    }

    /// Sets the label padding.
    pub fn with_label_padding(self, label_padding: Fixed) -> (a: AxisSpec)
        ensures
            a == (AxisSpec { label_padding, ..self }),
    {
        AxisSpec { label_padding, ..self }
    }

    /// Sets the tick label rotation.
    pub fn with_label_angle(self, angle: Angle) -> (a: AxisSpec)
        ensures
            a == (AxisSpec { label_angle: angle, ..self }),
    {
        AxisSpec { label_angle: angle, ..self }
    }

    /// Sets the axis style.
    pub fn with_style(self, style: AxisStyle) -> (a: AxisSpec)
        ensures
            a == (AxisSpec { style, ..self }),
    {
        AxisSpec { style, ..self }
    }

    /// Enables gridlines in the given style.
    pub fn with_grid(self, grid: GridStyle) -> (a: AxisSpec)
        ensures
            a == (AxisSpec { grid: Some(grid), ..self }),
    {
        AxisSpec { grid: Some(grid), ..self }
    }

    /// Disables gridlines.
    pub fn without_grid(self) -> (a: AxisSpec)
        ensures
            a == (AxisSpec { grid: None, ..self }),
    {
        AxisSpec { grid: None, ..self }
    }

    /// Sets the axis title.
    pub fn with_title(self, title: String) -> (a: AxisSpec)
        ensures
            a == (AxisSpec { title: Some(title), ..self }),
    {
        AxisSpec { title: Some(title), ..self }
    }

    /// Clears the axis title.
    pub fn without_title(self) -> (a: AxisSpec)
        ensures
            a == (AxisSpec { title: None, ..self }),
    {
        AxisSpec { title: None, ..self }
    }

    /// Sets the title offset.
    pub fn with_title_offset(self, title_offset: Fixed) -> (a: AxisSpec)
        ensures
            a == (AxisSpec { title_offset, ..self }),
    {
        AxisSpec { title_offset, ..self }
    }

    /// Enables or disables nice-domain behavior. Only a linear scale has
    /// it; any other scale is left as it is.
    pub fn with_nice_domain(self, nice_domain: bool) -> (a: AxisSpec)
        ensures
            a == (AxisSpec {
                scale: match self.scale {
                    ScaleSpec::Linear(s) => ScaleSpec::Linear(
                        crate::scale::ScaleLinearSpec { domain: s.domain, nice: nice_domain },
                    ),
                    other => other,
                },
                ..self
            }),
    {
        let scale = match self.scale {
            ScaleSpec::Linear(s) => ScaleSpec::Linear(s.with_nice(nice_domain)),
            other => other,
        };
        AxisSpec { scale, ..self }
    }
}

/// The index a discrete scale is asked for when the `i`-th tick is placed.
pub open spec fn discrete_index_of(i: int) -> int {
    min_int(i, MAX_DISCRETE_INDEX as int)
}

impl AxisSpec {
    /// The range the scale of the axis is bound to for a plot rectangle: the
    /// horizontal extent for a horizontal axis, and for a vertical axis the
    /// vertical extent from bottom to top, so that values grow upward.
    pub open spec fn range_for(&self, plot: Rect) -> (Fixed, Fixed) {
        if self.orient.horizontal() {
            (plot.x0, plot.x1)
        } else {
            (plot.y1, plot.y0)
        }
    }

    /// The domain of a continuous axis scale, and `None` for a discrete one.
    /// A linear scale contributes its resolved domain.
    pub open spec fn continuous_domain_of(&self) -> Option<(int, int)> {
        match self.scale {
            ScaleSpec::Linear(s) => Some(s.resolved(self.tick_count as int)),
            ScaleSpec::Log(s) => Some((s.domain.0 as int, s.domain.1 as int)),
            ScaleSpec::Time(s) => Some((s.domain.0 as int, s.domain.1 as int)),
            ScaleSpec::Point(_) | ScaleSpec::Band(_) => None,
        }
    }

    /// The tick values of the axis. They depend on the domain alone, not on
    /// the range: the nice ticks of the resolved domain for a linear scale,
    /// the powers of the base for a log scale, the nice time ticks for a time
    /// scale, and one whole number per category for a discrete scale.
    pub open spec fn tick_values_of(&self) -> Seq<int> {
        match self.scale {
            ScaleSpec::Linear(s) => {
                let d = s.resolved(self.tick_count as int);
                nice_ticks_of(d.0, d.1, self.tick_count as int)
            },
            ScaleSpec::Log(s) => s.bound_to((0, 0)).ticks_of(self.tick_count as int),
            ScaleSpec::Time(s) => nice_time_ticks_of(
                s.domain.0 as int,
                s.domain.1 as int,
                self.tick_count as int,
            ),
            ScaleSpec::Point(s) => Seq::new(s.count as nat, |i: int| i * UNIT),
            ScaleSpec::Band(s) => Seq::new(s.count as nat, |i: int| i * UNIT),
        }
    }

    /// The tick step labels are formatted with: the distance between the
    /// first two ticks of a linear or time scale, zero for a log scale, and
    /// one for a discrete scale.
    pub open spec fn tick_step_of(&self) -> int {
        match self.scale {
            ScaleSpec::Linear(_) | ScaleSpec::Time(_) => saturate(tick_gap(self.tick_values_of())),
            ScaleSpec::Log(_) => 0,
            ScaleSpec::Point(_) | ScaleSpec::Band(_) => UNIT as int,
        }
    }

    /// The default label of a tick: the time text on a time scale and the
    /// decimal text elsewhere.
    pub open spec fn label_text(&self, value: int, step: int) -> Seq<char> {
        match self.scale {
            ScaleSpec::Time(_) => time_text(value, step),
            _ => tick_text(value, step),
        }
    }

    /// The default labels of the ticks, one per tick.
    pub open spec fn default_labels(&self) -> Seq<Seq<char>> {
        Seq::new(
            self.tick_values_of().len(),
            |i: int| self.label_text(self.tick_values_of()[i], self.tick_step_of()),
        )
    }

    /// The labels of the ticks, one per tick: the text the axis carries for
    /// the tick where it carries one, and the default label otherwise.
    pub open spec fn labels_of(&self) -> Seq<Seq<char>> {
        Seq::new(
            self.tick_values_of().len(),
            |i: int|
                match self.tick_labels {
                    Some(carried) => if i < carried@.len() {
                        carried@[i]@
                    } else {
                        self.default_labels()[i]
                    },
                    None => self.default_labels()[i],
                },
        )
    }

    /// The coordinate of the `i`-th tick along the axis, for a plot
    /// rectangle.
    ///
    /// A continuous scale maps the tick value, a log scale by the whole
    /// exponent of the tick. A point scale gives the position of the point
    /// and a band scale the middle of the band.
    pub open spec fn tick_position(&self, plot: Rect, i: int) -> int {
        let range = self.range_for(plot);
        match self.scale {
            ScaleSpec::Linear(s) => {
                let d = s.resolved(self.tick_count as int);
                saturate(
                    interpolate(d.0, d.1, range.0 as int, range.1 as int, self.tick_values_of()[i]),
                )
            },
            ScaleSpec::Log(s) => saturate(
                s.bound_to(range).position(1, (s.bound_to(range).first_exponent() + i) * UNIT),
            ),
            ScaleSpec::Time(s) => saturate(
                interpolate(
                    s.domain.0 as int,
                    s.domain.1 as int,
                    range.0 as int,
                    range.1 as int,
                    self.tick_values_of()[i],
                ),
            ),
            ScaleSpec::Point(s) => saturate(s.bound_to(range).position(discrete_index_of(i))),
            ScaleSpec::Band(s) => saturate(
                saturate(s.bound_to(range).position(discrete_index_of(i))) + s.bound_to(
                    range,
                ).width() / 2,
            ),
        }
    }

    /// The resolved domain of an axis within the accepted range lies within
    /// the range ticks can be generated for.
    pub proof fn lemma_resolved_in_tick_range(&self)
        requires
            self.wf(),
            self.scale is Linear,
        ensures
            crate::ticks::in_tick_range(self.scale->Linear_0.resolved(self.tick_count as int).0),
            crate::ticks::in_tick_range(self.scale->Linear_0.resolved(self.tick_count as int).1),
    {
        let s = self.scale->Linear_0;
        lemma_nice_ticks_bounded(s.domain.0 as int, s.domain.1 as int, self.tick_count as int);
        let ticks = nice_ticks_of(s.domain.0 as int, s.domain.1 as int, self.tick_count as int);
        if s.nice && ticks.len() >= 2 {
            assert(ticks.first() == ticks[0]);
            assert(ticks.last() == ticks[ticks.len() - 1]);
        }
    }

    /// Returns the range the scale is bound to for a plot rectangle.
    fn range_of(&self, plot: Rect) -> (r: (Fixed, Fixed))
        ensures
            r == self.range_for(plot),
    {
        match self.orient {
            AxisOrient::Top | AxisOrient::Bottom => (plot.x0, plot.x1),
            AxisOrient::Left | AxisOrient::Right => (plot.y1, plot.y0),
        }
    }

    /// Whether `scale` is the continuous scale of the axis bound to a plot
    /// rectangle: a linear scale over the resolved domain, a log scale or a
    /// time scale over the authored one, each onto the range of the axis.
    pub open spec fn binds_continuous(&self, plot: Rect, scale: ScaleContinuous) -> bool {
        match self.scale {
            ScaleSpec::Linear(s) => scale is Linear && scale->Linear_0.range == self.range_for(plot)
                && scale->Linear_0.domain.0 == s.resolved(self.tick_count as int).0
                && scale->Linear_0.domain.1 == s.resolved(self.tick_count as int).1,
            ScaleSpec::Log(s) => scale == ScaleContinuous::Log(s.bound_to(self.range_for(plot))),
            ScaleSpec::Time(s) => scale == ScaleContinuous::Time(
                ScaleTime { inner: ScaleLinear { domain: s.domain, range: self.range_for(plot) } },
            ),
            _ => false,
        }
    }

    /// Returns the continuous scale that maps axis values into the plot.
    ///
    /// The axis must have a continuous scale.
    pub fn scale_continuous(&self, plot: Rect) -> (scale: ScaleContinuous)
        requires
            self.wf(),
            self.scale.is_continuous(),
        ensures
            self.binds_continuous(plot, scale),
    {
        let range = self.range_of(plot);
        match self.scale {
            ScaleSpec::Linear(s) => ScaleContinuous::Linear(
                s.instantiate_resolved(range, self.tick_count),
            ),
            ScaleSpec::Log(s) => ScaleContinuous::Log(s.instantiate(range)),
            ScaleSpec::Time(s) => ScaleContinuous::Time(s.instantiate(range)),
            _ => {
                proof {
                    assert(false);
                }
                ScaleContinuous::Linear(ScaleLinear::new((0, 0), range))
            },
        }
    }

    /// Returns the point scale that maps indices into the plot.
    ///
    /// The axis must have a point scale.
    pub fn scale_point(&self, plot: Rect) -> (scale: ScalePoint)
        requires
            self.scale is Point,
        ensures
            scale == self.scale->Point_0.bound_to(self.range_for(plot)),
    {
        let range = self.range_of(plot);
        match self.scale {
            ScaleSpec::Point(s) => s.instantiate(range),
            _ => {
                proof {
                    assert(false);
                }
                ScalePoint::new(range, 0)
            },
        }
    }

    /// Returns the band scale that maps indices into the plot.
    ///
    /// The axis must have a band scale.
    pub fn scale_band(&self, plot: Rect) -> (scale: ScaleBand)
        requires
            self.scale is Band,
        ensures
            scale == self.scale->Band_0.bound_to(self.range_for(plot)),
    {
        let range = self.range_of(plot);
        match self.scale {
            ScaleSpec::Band(s) => s.instantiate(range),
            _ => {
                proof {
                    assert(false);
                }
                ScaleBand::new(range, 0)
            },
        }
    }

    /// Returns the tick values of the axis and the tick step its labels are
    /// formatted with.
    pub fn tick_values(&self) -> (r: (Vec<Fixed>, Fixed))
        requires
            self.wf(),
        ensures
            holds(r.0@, self.tick_values_of()),
            r.1 == self.tick_step_of(),
    {
        match self.scale {
            ScaleSpec::Linear(s) => {
                proof {
                    self.lemma_resolved_in_tick_range();
                }
                let domain = s.resolved_domain(self.tick_count);
                let ticks = nice_ticks(domain.0, domain.1, self.tick_count);
                let step = tick_step(&ticks);
                proof {
                    lemma_gap_of_held(ticks@, self.tick_values_of());
                }
                (ticks, step)
            },
            ScaleSpec::Log(s) => {
                let scale = s.instantiate((0, 0));
                (scale.ticks(self.tick_count), 0)
            },
            ScaleSpec::Time(s) => {
                let ticks = nice_time_ticks_seconds(s.domain.0, s.domain.1, self.tick_count);
                let step = tick_step(&ticks);
                proof {
                    lemma_gap_of_held(ticks@, self.tick_values_of());
                }
                (ticks, step)
            },
            ScaleSpec::Point(s) => (index_ticks(s.count), 1_000_000),
            ScaleSpec::Band(s) => (index_ticks(s.count), 1_000_000),
        }
    }

    /// Returns the labels of the ticks, one per tick: the text the axis
    /// carries for the tick where it carries one, and the default label
    /// otherwise.
    pub fn tick_labels(&self) -> (labels: Vec<String>)
        requires
            self.wf(),
        ensures
            texts_hold(labels@, self.labels_of()),
    {
        let defaults = self.default_tick_labels();
        match &self.tick_labels {
            None => defaults,
            Some(carried) => {
                let mut labels: Vec<String> = Vec::new();
                let mut i: usize = 0;
                while i < defaults.len()
                    invariant
                        0 <= i <= defaults@.len(),
                        self.tick_labels == Some(*carried),
                        texts_hold(defaults@, self.default_labels()),
                        labels@.len() == i,
                        forall|j: int| 0 <= j < i ==> #[trigger] labels@[j]@ == self.labels_of()[j],
                    decreases defaults@.len() - i,
                {
                    assert(defaults@[i as int]@ == self.default_labels()[i as int]);
                    let label = if i < carried.len() {
                        carried[i].clone()
                    } else {
                        defaults[i].clone()
                    };
                    labels.push(label);
                    i = i + 1;
                }
                labels
            },
        }
    }

    /// Returns the default labels of the ticks, one per tick.
    pub fn default_tick_labels(&self) -> (labels: Vec<String>)
        requires
            self.wf(),
        ensures
            texts_hold(labels@, self.default_labels()),
    {
        let (ticks, step) = self.tick_values();
        let is_time: bool = match self.scale {
            ScaleSpec::Time(_) => true,
            _ => false,
        };
        let mut labels: Vec<String> = Vec::new();
        let mut i: usize = 0;
        while i < ticks.len()
            invariant
                0 <= i <= ticks@.len(),
                holds(ticks@, self.tick_values_of()),
                step == self.tick_step_of(),
                is_time == (self.scale is Time),
                labels@.len() == i,
                forall|j: int|
                    0 <= j < i ==> #[trigger] labels@[j]@ == self.label_text(
                        self.tick_values_of()[j],
                        self.tick_step_of(),
                    ),
            decreases ticks@.len() - i,
        {
            let v: Fixed = ticks[i];
            assert(ticks@[i as int] as int == self.tick_values_of()[i as int]);
            let label = if is_time {
                format_time_seconds(v, step)
            } else {
                format_tick_with_step(v, step)
            };
            labels.push(label);
            i = i + 1;
        }
        labels
    }

    /// Returns the coordinate of every tick along the axis, for a plot
    /// rectangle.
    pub fn tick_positions(&self, plot: Rect, ticks: &Vec<Fixed>) -> (positions: Vec<Fixed>)
        requires
            self.wf(),
            plot.in_range(),
            holds(ticks@, self.tick_values_of()),
        ensures
            positions@.len() == ticks@.len(),
            forall|i: int|
                0 <= i < positions@.len() ==> #[trigger] positions@[i] as int
                    == self.tick_position(plot, i),
    {
        let range = self.range_of(plot);
        let mut positions: Vec<Fixed> = Vec::new();
        let mut i: usize = 0;
        match self.scale {
            ScaleSpec::Linear(s) => {
                proof {
                    self.lemma_resolved_in_tick_range();
                }
                let scale = s.instantiate_resolved(range, self.tick_count);
                while i < ticks.len()
                    invariant
                        0 <= i <= ticks@.len(),
                        self.scale == ScaleSpec::Linear(s),
                        range == self.range_for(plot),
                        holds(ticks@, self.tick_values_of()),
                        scale.in_range(),
                        scale.range == range,
                        scale.domain.0 == s.resolved(self.tick_count as int).0,
                        scale.domain.1 == s.resolved(self.tick_count as int).1,
                        positions@.len() == i,
                        forall|j: int|
                            0 <= j < i ==> #[trigger] positions@[j] as int == self.tick_position(
                                plot,
                                j,
                            ),
                    decreases ticks@.len() - i,
                {
                    assert(ticks@[i as int] as int == self.tick_values_of()[i as int]);
                    positions.push(scale.map(ticks[i]));
                    i = i + 1;
                }
            },
            ScaleSpec::Log(s) => {
                let scale = s.instantiate(range);
                let (first, last) = scale.exponents();
                assert(scale.first_exponent() == s.bound_to((0, 0)).first_exponent());
                assert(scale.last_exponent() == s.bound_to((0, 0)).last_exponent());
                assert(ticks@.len() == s.bound_to((0, 0)).tick_count(self.tick_count as int));
                while i < ticks.len()
                    invariant
                        0 <= i <= ticks@.len(),
                        self.scale == ScaleSpec::Log(s),
                        range == self.range_for(plot),
                        scale == s.bound_to(range),
                        scale.wf(),
                        first == scale.first_exponent(),
                        last == scale.last_exponent(),
                        -1_000 <= first <= 1_000,
                        -1_000 <= last <= 1_000,
                        ticks@.len() == 0 || ticks@.len() <= last - first + 1,
                        positions@.len() == i,
                        forall|j: int|
                            0 <= j < i ==> #[trigger] positions@[j] as int == self.tick_position(
                                plot,
                                j,
                            ),
                    decreases ticks@.len() - i,
                {
                    let e: i64 = first + i as i64;
                    assert(-MAX_LOG <= e * UNIT <= MAX_LOG) by (nonlinear_arith)
                        requires
                            -1_000 <= e <= 1_000,
                            UNIT == 1_000_000,
                            MAX_LOG == 1_000_000_000,
                    ;
                    positions.push(scale.map_exponent(e));
                    i = i + 1;
                }
            },
            ScaleSpec::Time(s) => {
                let scale = s.instantiate(range);
                while i < ticks.len()
                    invariant
                        0 <= i <= ticks@.len(),
                        self.scale == ScaleSpec::Time(s),
                        range == self.range_for(plot),
                        holds(ticks@, self.tick_values_of()),
                        scale.inner.in_range(),
                        scale.inner.range == range,
                        scale.inner.domain == s.domain,
                        positions@.len() == i,
                        forall|j: int|
                            0 <= j < i ==> #[trigger] positions@[j] as int == self.tick_position(
                                plot,
                                j,
                            ),
                    decreases ticks@.len() - i,
                {
                    assert(ticks@[i as int] as int == self.tick_values_of()[i as int]);
                    positions.push(scale.map(ticks[i]));
                    i = i + 1;
                }
            },
            ScaleSpec::Point(s) => {
                let scale = s.instantiate(range);
                while i < ticks.len()
                    invariant
                        0 <= i <= ticks@.len(),
                        self.scale == ScaleSpec::Point(s),
                        range == self.range_for(plot),
                        scale == s.bound_to(range),
                        scale.wf(),
                        positions@.len() == i,
                        forall|j: int|
                            0 <= j < i ==> #[trigger] positions@[j] as int == self.tick_position(
                                plot,
                                j,
                            ),
                    decreases ticks@.len() - i,
                {
                    positions.push(scale.x(discrete_index(i)));
                    i = i + 1;
                }
            },
            ScaleSpec::Band(s) => {
                let scale = s.instantiate(range);
                let half: i128 = (scale.band_width() / 2) as i128;
                while i < ticks.len()
                    invariant
                        0 <= i <= ticks@.len(),
                        self.scale == ScaleSpec::Band(s),
                        range == self.range_for(plot),
                        scale == s.bound_to(range),
                        scale.wf(),
                        half == scale.width() / 2,
                        0 <= half <= 2 * LIMIT,
                        positions@.len() == i,
                        forall|j: int|
                            0 <= j < i ==> #[trigger] positions@[j] as int == self.tick_position(
                                plot,
                                j,
                            ),
                    decreases ticks@.len() - i,
                {
                    let x: Fixed = scale.x(discrete_index(i));
                    positions.push(saturate_to_fixed(x as i128 + half));
                    i = i + 1;
                }
            },
        }
        positions
    }
}

/// The index a discrete scale is asked for when the `i`-th tick is placed.
fn discrete_index(i: usize) -> (index: usize)
    ensures
        index == discrete_index_of(i as int),
        index <= MAX_DISCRETE_INDEX,
{
    if i > MAX_DISCRETE_INDEX {
        MAX_DISCRETE_INDEX
    } else {
        i
    }
}

/// The whole numbers from zero up to `count`, as scalars.
fn index_ticks(count: usize) -> (ticks: Vec<Fixed>)
    requires
        count <= MAX_COUNT,
    ensures
        holds(ticks@, Seq::new(count as nat, |i: int| i * UNIT)),
{
    let mut ticks: Vec<Fixed> = Vec::new();
    let mut i: usize = 0;
    while i < count
        invariant
            0 <= i <= count <= MAX_COUNT,
            ticks@.len() == i,
            forall|j: int| 0 <= j < i ==> #[trigger] ticks@[j] as int == j * UNIT,
        decreases count - i,
    {
        assert(i * UNIT == 1_000_000 * i) by (nonlinear_arith)
            requires
                UNIT == 1_000_000,
        ;
        ticks.push(1_000_000 * (i as i64));
        i = i + 1;
    }
    ticks
}

/// The distance between the first two ticks, and zero for fewer than two.
fn tick_step(ticks: &Vec<Fixed>) -> (step: Fixed)
    ensures
        step == saturate(tick_gap(Seq::new(ticks@.len(), |i: int| ticks@[i] as int))),
{
    if ticks.len() >= 2 {
        let d: i128 = ticks[1] as i128 - ticks[0] as i128;
        saturate_to_fixed(if d < 0 {
            -d
        } else {
            d
        })
    } else {
        0
    }
}

/// The gap of a vector of ticks is the gap of the integers it holds.
proof fn lemma_gap_of_held(v: Seq<Fixed>, s: Seq<int>)
    requires
        holds(v, s),
    ensures
        tick_gap(Seq::new(v.len(), |i: int| v[i] as int)) == tick_gap(s),
{
    if v.len() >= 2 {
        assert(v[0] as int == s[0]);
        assert(v[1] as int == s[1]);
    }
}

/// Whether every metric of every entry lies within the accepted coordinate
/// range.
pub open spec fn metrics_in_range(ms: Seq<TextMetrics>) -> bool {
    forall|i: int| 0 <= i < ms.len() ==> (#[trigger] ms[i]).in_range()
}

impl AxisSpec {
    /// The length of the tick lines, and zero when ticks are off.
    pub open spec fn tick_extent(&self) -> int {
        if self.ticks {
            abs_int(self.tick_size as int)
        } else {
            0
        }
    }

    /// The gap between ticks and labels that measuring reserves: tick
    /// padding plus label padding, neither counted below zero.
    pub open spec fn measured_gap(&self) -> int {
        nonneg(self.tick_padding as int) + nonneg(self.label_padding as int)
    }

    /// The footprint of one rotated label along the normal of the axis:
    /// `|sin| * width + |cos| * height` for a horizontal axis, and with width
    /// and height swapped for a vertical one.
    pub open spec fn label_extent(&self, m: TextMetrics) -> int {
        let w = m.advance_width as int;
        let h = m.line_height_of();
        let s = abs_int(self.label_angle.sin as int);
        let c = abs_int(self.label_angle.cos as int);
        if self.orient.horizontal() {
            (s * w + c * h) / (UNIT as int)
        } else {
            (c * w + s * h) / (UNIT as int)
        }
    }

    /// The largest footprint among the labels, and zero without labels.
    pub open spec fn max_label_extent(&self, ms: Seq<TextMetrics>) -> int
        decreases ms.len(),
    {
        if ms.len() == 0 {
            0
        } else {
            max_int(self.max_label_extent(ms.drop_last()), self.label_extent(ms.last()))
        }
    }

    /// What the title adds to the thickness: nothing without a title, else
    /// the title offset, not counted below zero, plus the line height of the
    /// measured title. The same holds of every orientation: the title of a
    /// vertical axis is turned by a quarter, so that its line height lies
    /// along the normal of the axis. A title without metrics counts as one
    /// without height.
    pub open spec fn title_thickness(&self, title: Option<TextMetrics>) -> int {
        if self.title is None {
            0
        } else {
            nonneg(self.title_offset as int) + match title {
                Some(t) => t.line_height_of(),
                None => 0,
            }
        }
    }

    /// The thickness of the axis along its normal, given the metrics of its
    /// labels and of its title: tick extent, then with labels on the gap and
    /// the largest label footprint, then the title.
    pub open spec fn thickness(&self, labels: Seq<TextMetrics>, title: Option<TextMetrics>) -> int {
        self.tick_extent() + (if self.labels {
            self.measured_gap() + self.max_label_extent(labels)
        } else {
            0
        }) + self.title_thickness(title)
    }

    /// The footprint of any in-range label is within four times the
    /// coordinate limit.
    pub proof fn lemma_label_extent_bounded(&self, m: TextMetrics)
        requires
            self.label_angle.wf(),
            m.in_range(),
        ensures
            -4 * LIMIT <= self.label_extent(m) <= 4 * LIMIT,
    {
        let w = m.advance_width as int;
        let h = m.line_height_of();
        let s = abs_int(self.label_angle.sin as int);
        let c = abs_int(self.label_angle.cos as int);
        let u = UNIT as int;
        assert(-u * LIMIT <= s * w <= u * LIMIT && -u * LIMIT <= c * w <= u * LIMIT) by (nonlinear_arith)
            requires
                0 <= s <= u,
                0 <= c <= u,
                -LIMIT <= w <= LIMIT,
        ;
        assert(-u * (3 * LIMIT) <= s * h <= u * (3 * LIMIT) && -u * (3 * LIMIT) <= c * h <= u * (3
            * LIMIT)) by (nonlinear_arith)
            requires
                0 <= s <= u,
                0 <= c <= u,
                -3 * LIMIT <= h <= 3 * LIMIT,
        ;
        let total = if self.orient.horizontal() {
            s * w + c * h
        } else {
            c * w + s * h
        };
        vstd::arithmetic::div_mod::lemma_div_is_ordered(total, u * (4 * LIMIT), u);
        vstd::arithmetic::div_mod::lemma_div_is_ordered(u * (-4 * LIMIT), total, u);
        vstd::arithmetic::div_mod::lemma_div_multiples_vanish(4 * LIMIT, u);
        vstd::arithmetic::div_mod::lemma_div_multiples_vanish(-4 * LIMIT, u);
    }

    /// Computes the footprint of one rotated label.
    fn extent_of(&self, m: &TextMetrics) -> (e: Fixed)
        requires
            self.label_angle.wf(),
            m.in_range(),
        ensures
            e == self.label_extent(*m),
            -4 * LIMIT <= e <= 4 * LIMIT,
    {
        proof {
            self.lemma_label_extent_bounded(*m);
        }
        let w: i128 = m.advance_width as i128;
        let h: i128 = m.line_height() as i128;
        let s: i128 = if self.label_angle.sin < 0 {
            -(self.label_angle.sin as i128)
        } else {
            self.label_angle.sin as i128
        };
        let c: i128 = if self.label_angle.cos < 0 {
            -(self.label_angle.cos as i128)
        } else {
            self.label_angle.cos as i128
        };
        assert(-1_000_000 * LIMIT <= s * w <= 1_000_000 * LIMIT && -1_000_000 * LIMIT <= c * w
            <= 1_000_000 * LIMIT) by (nonlinear_arith)
            requires
                0 <= s <= 1_000_000,
                0 <= c <= 1_000_000,
                -LIMIT <= w <= LIMIT,
        ;
        assert(-1_000_000 * (3 * LIMIT) <= s * h <= 1_000_000 * (3 * LIMIT) && -1_000_000 * (3
            * LIMIT) <= c * h <= 1_000_000 * (3 * LIMIT)) by (nonlinear_arith)
            requires
                0 <= s <= 1_000_000,
                0 <= c <= 1_000_000,
                -3 * LIMIT <= h <= 3 * LIMIT,
        ;
        let total: i128 = if self.orient.is_horizontal() {
            s * w + c * h
        } else {
            c * w + s * h
        };
        floor_div(total, 1_000_000) as i64
    }

    /// Computes the thickness of the axis along its normal from the metrics
    /// of its tick labels, one per tick, and of its title.
    ///
    /// The metrics of the title are read only by an axis that has a title;
    /// `None` counts as a title without height.
    pub fn measure_with_metrics(
        &self,
        label_metrics: &Vec<TextMetrics>,
        title_metrics: Option<TextMetrics>,
    ) -> (thickness: Fixed)
        requires
            self.wf(),
            metrics_in_range(label_metrics@),
            title_metrics matches Some(t) ==> t.in_range(),
        ensures
            thickness == self.thickness(label_metrics@, title_metrics),
    {
        let tick_extent: Fixed = if self.ticks {
            magnitude_of(self.tick_size)
        } else {
            0
        };
        let label_gap: Fixed = floor_zero(self.tick_padding) + floor_zero(self.label_padding);
        let mut label_thickness: Fixed = 0;
        if self.labels {
            let mut max_label_extent: Fixed = 0;
            let mut i: usize = 0;
            while i < label_metrics.len()
                invariant
                    0 <= i <= label_metrics@.len(),
                    self.label_angle.wf(),
                    metrics_in_range(label_metrics@),
                    0 <= max_label_extent <= 4 * LIMIT,
                    max_label_extent == self.max_label_extent(label_metrics@.subrange(0, i as int)),
                decreases label_metrics@.len() - i,
            {
                let extent: Fixed = self.extent_of(&label_metrics[i]);
                proof {
                    let next = label_metrics@.subrange(0, i + 1);
                    assert(next.drop_last() =~= label_metrics@.subrange(0, i as int));
                    assert(next.last() == label_metrics@[i as int]);
                }
                if extent > max_label_extent {
                    max_label_extent = extent;
                }
                i = i + 1;
            }
            assert(label_metrics@.subrange(0, i as int) =~= label_metrics@);
            label_thickness = label_gap + max_label_extent;
        }
        let mut out: Fixed = tick_extent + label_thickness;
        if self.title.is_some() {
            let title_extent: Fixed = match title_metrics {
                Some(t) => t.line_height(),
                None => 0,
            };
            out = out + floor_zero(self.title_offset) + title_extent;
        }
        out
    }

    /// Whether `thickness` is what the axis measures to with `measurer` for
    /// the given tick labels: the thickness for metrics the measurer answers,
    /// each pinned into the accepted coordinate range.
    ///
    /// The measurer is asked for every label at the label font size when
    /// labels are on, and for the title at the title font size when the axis
    /// has one.
    pub open spec fn measures<M: TextMeasurer>(
        &self,
        measurer: &M,
        labels: Seq<Seq<char>>,
        thickness: Fixed,
    ) -> bool {
        exists|metrics: Seq<TextMetrics>, title: Option<TextMetrics>|
            #![trigger self.thickness(metrics, title)]
            {
                &&& if self.labels {
                    all_measured(measurer, labels, self.style.label_font_size, metrics)
                } else {
                    metrics.len() == 0
                }
                &&& match self.title {
                    Some(text) => title matches Some(t) && measured(
                        measurer,
                        text@,
                        self.style.title_font_size,
                        t,
                    ),
                    None => title is None,
                }
                &&& thickness == self.thickness(metrics, title)
            }
    }

    /// Measures the thickness the axis needs along its normal, for the given
    /// tick labels.
    pub fn measure_with_labels<M: TextMeasurer>(&self, measurer: &M, labels: &Vec<String>) -> (thickness:
        Fixed)
        requires
            self.wf(),
        ensures
            self.measures(measurer, texts(labels@), thickness),
    {
        let label_metrics: Vec<TextMetrics> = if self.labels {
            measure_all(measurer, labels, self.style.label_font_size)
        } else {
            Vec::new()
        };
        let title_metrics: Option<TextMetrics> = match &self.title {
            Some(title) => Some(
                measure_pinned(measurer, title.as_str(), self.style.title_font_size),
            ),
            None => None,
        };
        let thickness = self.measure_with_metrics(&label_metrics, title_metrics);
        assert(thickness == self.thickness(label_metrics@, title_metrics));
        thickness
    }

    /// Measures the thickness the axis needs along its normal, with the
    /// default label of every tick.
    pub fn measure<M: TextMeasurer>(&self, measurer: &M) -> (thickness: Fixed)
        requires
            self.wf(),
        ensures
            self.measures(measurer, self.labels_of(), thickness),
    {
        let labels = self.tick_labels();
        assert(texts(labels@) =~= self.labels_of());
        self.measure_with_labels(measurer, &labels)
    }

    /// Sets the tick label texts of the caller, in tick order.
    pub fn with_tick_labels(self, labels: Vec<String>) -> (a: AxisSpec)
        ensures
            a == (AxisSpec { tick_labels: Some(labels), ..self }),
    {
        AxisSpec { tick_labels: Some(labels), ..self }
    }

    /// Goes back to the default tick labels.
    pub fn without_tick_labels(self) -> (a: AxisSpec)
        ensures
            a == (AxisSpec { tick_labels: None, ..self }),
    {
        AxisSpec { tick_labels: None, ..self }
    }

    /// Sets a tick label formatter of the caller.
    ///
    /// The formatter is applied at once: it is given the value of every tick
    /// of the axis as it stands and the tick step, and the axis carries what
    /// it answered. The labels are used for both measuring and arranging.
    pub fn with_tick_formatter<F: Fn(Fixed, Fixed) -> String>(self, formatter: F) -> (a: AxisSpec)
        requires
            self.wf(),
            forall|value: Fixed, step: Fixed| call_requires(formatter, (value, step)),
        ensures
            a == (AxisSpec { tick_labels: a.tick_labels, ..self }),
            a.tick_labels matches Some(labels) && labels@.len() == self.tick_values_of().len()
                && forall|i: int|
                0 <= i < labels@.len() ==> call_ensures(
                    formatter,
                    (self.tick_values_of()[i] as Fixed, self.tick_step_of() as Fixed),
                    #[trigger] labels@[i],
                ),
    {
        let labels = self.labels_with_formatter(formatter);
        AxisSpec { tick_labels: Some(labels), ..self }
    }

    /// Formats the label of every tick with a formatter of the caller.
    ///
    /// The formatter is given the value of the tick and the tick step, and
    /// the result holds what it answered, one label per tick in tick order.
    pub fn labels_with_formatter<F: Fn(Fixed, Fixed) -> String>(&self, formatter: F) -> (labels:
        Vec<String>)
        requires
            self.wf(),
            forall|value: Fixed, step: Fixed| call_requires(formatter, (value, step)),
        ensures
            labels@.len() == self.tick_values_of().len(),
            forall|i: int|
                0 <= i < labels@.len() ==> call_ensures(
                    formatter,
                    (self.tick_values_of()[i] as Fixed, self.tick_step_of() as Fixed),
                    #[trigger] labels@[i],
                ),
    {
        let (ticks, step) = self.tick_values();
        let mut labels: Vec<String> = Vec::new();
        let mut i: usize = 0;
        while i < ticks.len()
            invariant
                0 <= i <= ticks@.len(),
                holds(ticks@, self.tick_values_of()),
                step == self.tick_step_of(),
                forall|value: Fixed, step: Fixed| call_requires(formatter, (value, step)),
                labels@.len() == i,
                forall|j: int|
                    0 <= j < i ==> call_ensures(
                        formatter,
                        (self.tick_values_of()[j] as Fixed, self.tick_step_of() as Fixed),
                        #[trigger] labels@[j],
                    ),
            decreases ticks@.len() - i,
        {
            assert(ticks@[i as int] as int == self.tick_values_of()[i as int]);
            labels.push(formatter(ticks[i], step));
            i = i + 1;
        }
        labels
    }

    /// An axis without ticks, labels and title needs no room, whether or
    /// not its domain line is drawn.
    pub proof fn lemma_bare_axis_measures_zero(
        &self,
        labels: Seq<TextMetrics>,
        title: Option<TextMetrics>,
    )
        requires
            !self.ticks,
            !self.labels,
            self.title is None,
        ensures
            self.thickness(labels, title) == 0,
    {
    }

    /// The largest label footprint only grows when every single footprint
    /// does.
    pub proof fn lemma_max_label_extent_grows(&self, other: &AxisSpec, ms: Seq<TextMetrics>)
        requires
            forall|i: int| 0 <= i < ms.len() ==> self.label_extent(#[trigger] ms[i]) <= other.label_extent(ms[i]),
        ensures
            self.max_label_extent(ms) <= other.max_label_extent(ms),
        decreases ms.len(),
    {
        if ms.len() > 0 {
            let rest = ms.drop_last();
            assert forall|i: int| 0 <= i < rest.len() implies self.label_extent(#[trigger] rest[i])
                <= other.label_extent(rest[i]) by {
                assert(rest[i] == ms[i]);
            }
            self.lemma_max_label_extent_grows(other, rest);
            assert(ms.last() == ms[ms.len() - 1]);
        }
    }

    /// Rotating the labels never shrinks the room an axis reserves, as long
    /// as no label is longer along the normal of the axis than along the axis
    /// itself: on a horizontal axis every label is at least as wide as it is
    /// high, on a vertical axis at least as high as it is wide.
    pub proof fn lemma_rotation_never_shrinks(
        &self,
        angle: Angle,
        labels: Seq<TextMetrics>,
        title: Option<TextMetrics>,
    )
        requires
            self.label_angle == Angle::none(),
            angle.wf(),
            angle.proper(),
            forall|i: int|
                0 <= i < labels.len() ==> if self.orient.horizontal() {
                    (#[trigger] labels[i]).advance_width >= labels[i].line_height_of() >= 0
                } else {
                    labels[i].line_height_of() >= labels[i].advance_width >= 0
                },
        ensures
            self.thickness(labels, title) <= (AxisSpec { label_angle: angle, ..*self }).thickness(
                labels,
                title,
            ),
    {
        let rotated = AxisSpec { label_angle: angle, ..*self };
        assert forall|i: int| 0 <= i < labels.len() implies self.label_extent(
            #[trigger] labels[i],
        ) <= rotated.label_extent(labels[i]) by {
            let m = labels[i];
            let w = m.advance_width as int;
            let h = m.line_height_of();
            let s = abs_int(angle.sin as int);
            let c = abs_int(angle.cos as int);
            let u = UNIT as int;
            let small = if self.orient.horizontal() {
                h
            } else {
                w
            };
            let rest = if self.orient.horizontal() {
                assert(0 * w + u * h == u * h) by (nonlinear_arith);
                assert(s * w + c * h >= u * h) by (nonlinear_arith)
                    requires
                        w >= h >= 0,
                        s + c >= u,
                        s >= 0,
                        c >= 0,
                ;
                s * w + c * h
            } else {
                assert(u * w + 0 * h == u * w) by (nonlinear_arith);
                assert(c * w + s * h >= u * w) by (nonlinear_arith)
                    requires
                        h >= w >= 0,
                        s + c >= u,
                        s >= 0,
                        c >= 0,
                ;
                c * w + s * h
            };
            vstd::arithmetic::div_mod::lemma_div_is_ordered(u * small, rest, u);
        }
        self.lemma_max_label_extent_grows(&rotated, labels);
    }
}

/// The magnitude of a scalar within the accepted coordinate range.
fn magnitude_of(v: Fixed) -> (m: Fixed)
    requires
        in_range(v as int),
    ensures
        m == abs_int(v as int),
{
    if v < 0 {
        -v
    } else {
        v
    }
}

/// A scalar with negative values replaced by zero.
fn floor_zero(v: Fixed) -> (r: Fixed)
    ensures
        r == nonneg(v as int),
{
    if v < 0 {
        0
    } else {
        v
    }
}

impl Angle {
    /// Returns whether sine and cosine lie within `[-1, 1]`.
    pub fn is_wf(&self) -> (r: bool)
        ensures
            r == self.wf(),
    {
        -1_000_000 <= self.sin && self.sin <= 1_000_000 && -1_000_000 <= self.cos && self.cos
            <= 1_000_000
    }
}

impl AxisSpec {
    /// Returns whether the axis can be measured and arranged.
    pub fn is_wf(&self) -> (r: bool)
        ensures
            r == self.wf(),
    {
        crate::fixed::is_in_range(self.tick_size) && crate::fixed::is_in_range(self.tick_padding)
            && crate::fixed::is_in_range(self.label_padding) && crate::fixed::is_in_range(
            self.title_offset,
        ) && crate::fixed::is_in_range(self.style.label_font_size) && crate::fixed::is_in_range(
            self.style.title_font_size,
        ) && self.label_angle.is_wf() && (match self.scale {
            ScaleSpec::Linear(s) => crate::scale::is_pair_in_range(s.domain),
            ScaleSpec::Log(s) => -MAX_LOG <= s.log_domain.0 && s.log_domain.0 <= MAX_LOG
                && -MAX_LOG <= s.log_domain.1 && s.log_domain.1 <= MAX_LOG,
            ScaleSpec::Time(s) => crate::scale::is_pair_in_range(s.domain),
            ScaleSpec::Point(s) => s.count <= MAX_COUNT,
            ScaleSpec::Band(s) => s.count <= MAX_COUNT,
        })
    }
}

impl Angle {
    /// The rotation by `quarters` quarter turns, whose sine and cosine are
    /// exact.
    pub open spec fn quarters(quarters: i8) -> Angle {
        let k = quarters as int % 4;
        Angle {
            degrees: (90 * UNIT * quarters) as Fixed,
            sin: if k == 1 {
                1_000_000
            } else if k == 3 {
                -1_000_000i64
            } else {
                0
            },
            cos: if k == 0 {
                1_000_000
            } else if k == 2 {
                -1_000_000i64
            } else {
                0
            },
        }
    }

    /// Returns the rotation by `quarters` quarter turns.
    pub fn quarter_turns(quarters: i8) -> (a: Angle)
        ensures
            a == Angle::quarters(quarters),
            a.wf(),
            a.proper(),
    {
        let q: i64 = quarters as i64;
        let k: i64 = ((q % 4) + 4) % 4;
        assert(k == quarters as int % 4) by {
            vstd::arithmetic::div_mod::lemma_fundamental_div_mod(quarters as int, 4);
            vstd::arithmetic::div_mod::lemma_mod_bound(quarters as int, 4);
        }
        assert(90 * UNIT * quarters == 90_000_000 * q) by (nonlinear_arith)
            requires
                UNIT == 1_000_000,
                q == quarters,
        ;
        Angle {
            degrees: 90_000_000 * q,
            sin: if k == 1 {
                1_000_000
            } else if k == 3 {
                -1_000_000
            } else {
                0
            },
            cos: if k == 0 {
                1_000_000
            } else if k == 2 {
                -1_000_000
            } else {
                0
            },
        }
    }
}

} // verus!
