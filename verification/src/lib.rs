//! Chart guide layout in exact fixed-point arithmetic.
//!
//! The crate turns abstract chart descriptions (data domains, axis
//! orientation, desired tick counts) into concrete geometry: positioned
//! lines, rectangles and text labels. It has three tightly coupled parts:
//!
//! - [`scale`]: scales that map data values to coordinates and choose tick
//!   values that look hand-picked ([`ticks`], [`time`]);
//! - [`axis`] and [`arrange`]: an axis that is measured before the plot
//!   rectangle is known and arranged into marks once it is;
//! - [`layout`]: the negotiator that reconciles the margins title, axes and
//!   legend ask for with a plot or view of fixed size.
//!
//! [`title`], [`legend`] and [`chart_spec`] complete the guides and compose
//! the two passes. [`mark`] holds the primitives that come out and the order
//! they paint in ([`z_order`]), and [`text`] the capability guides measure
//! their text with. [`format`] and [`xml`] write numbers and text, and
//! [`table`] and [`transform`] hold the plain tabular data charts are drawn
//! from. [`view`] computes the view box of a list of marks.
//!
//! # Numbers
//!
//! Every data value, coordinate, size and ratio is a [`fixed::Fixed`]: a
//! signed count of millionths of a unit, so `1.5` is `1_500_000`. All
//! arithmetic is exact integer arithmetic. A result that is not a whole
//! count of millionths is rounded once, toward negative infinity unless its
//! contract says otherwise, and a position beyond the representable range is
//! pinned to its nearest end. Scalars that enter layout must lie within
//! [`fixed::LIMIT`] of zero; each function states what it asks for.
//!
//! The crate computes no sines, cosines or logarithms. A rotation comes with
//! its sine and cosine ([`axis::Angle`]), and a log scale with the
//! logarithms of its domain ([`scale::ScaleLog`]).
//!
//! # Contracts
//!
//! Every function is verified against a contract over mathematical
//! integers and sequences. A contract pins the result down: the ticks of a
//! domain, the rectangles of a layout and the marks of an axis are each
//! given by a specification function that says what they are.

pub mod arrange;
pub mod axis;
pub mod chart_spec;
pub mod fixed;
pub mod format;
pub mod layout;
pub mod legend;
pub mod mark;
pub mod mark_spec;
pub mod scale;
pub mod symbol;
pub mod table;
pub mod text;
pub mod ticks;
pub mod time;
pub mod title;
pub mod transform;
pub mod view;
pub mod xml;
pub mod z_order;

pub use axis::{Angle, AxisOrient, AxisSpec, AxisStyle, GridStyle, StrokeStyle};
pub use chart_spec::{ChartSpec, MeasuredGuides};
pub use fixed::{Fixed, LIMIT, UNIT};
pub use layout::{
    ChartLayout, ChartLayoutSpec, LegendOrient, LegendPlacement, Rect, Size,
};
pub use legend::{LegendItem, LegendSwatches, LegendSwatchesSpec};
pub use mark::{
    paint_order, Color, Mark, RectMark, RuleMark, TextAnchor, TextBaseline, TextMark,
};
pub use mark_spec::{RectMarkSpec, RuleMarkSpec, TextMarkSpec};
pub use scale::{
    ScaleBand, ScaleBandSpec, ScaleContinuous, ScaleLinear, ScaleLinearSpec, ScaleLog,
    ScaleLogSpec, ScalePoint, ScalePointSpec, ScaleSpec, ScaleTime, ScaleTimeSpec,
};
pub use symbol::Symbol;
pub use table::{infer_domain_f64, TableFrame, TableFrameError};
pub use text::{
    FontFamily, FontStyle, FontWeight, HeuristicTextMeasurer, TextMeasurer, TextMetrics,
    TextStyle,
};
pub use time::{format_time_seconds, nice_time_ticks_seconds};
pub use title::TitleSpec;
pub use transform::{
    AggregateField, AggregateOp, ColId, CompareOp, Predicate, SortOrder, StackOffset, TableId,
};
pub use z_order::{
    AXIS_LABELS, AXIS_RULES, AXIS_TITLES, GRID_LINES, LEGEND_LABELS, LEGEND_SWATCHES,
    PLOT_BACKGROUND, SERIES_FILL, SERIES_POINTS, SERIES_STROKE, TITLES,
};
