//! The chart layout negotiator.
//!
//! Layout is a single pass of margin accumulation. The caller measures the
//! title, the axes and the legend first and hands the resulting thicknesses to
//! [`ChartLayout::arrange`], which places the plot rectangle, the inset data
//! rectangle and one reserved rectangle per guide.

use vstd::prelude::*;
use crate::fixed::{Fixed, in_range, max_int, min_int};

verus! {

/// An axis-aligned rectangle given by two corners.
#[derive(Clone, Copy, Debug, PartialEq, Eq, Structural)]
pub struct Rect {
    /// Left edge.
    pub x0: Fixed,
    /// Top edge.
    pub y0: Fixed,
    /// Right edge.
    pub x1: Fixed,
    /// Bottom edge.
    pub y1: Fixed,
}

impl Rect {
    /// Whether the four edges are exactly the given integers.
    pub open spec fn is(&self, x0: int, y0: int, x1: int, y1: int) -> bool {
        &&& self.x0 == x0
        &&& self.y0 == y0
        &&& self.x1 == x1
        &&& self.y1 == y1
    }

    /// Whether every edge lies within the accepted coordinate range.
    pub open spec fn in_range(&self) -> bool {
        &&& in_range(self.x0 as int)
        &&& in_range(self.y0 as int)
        &&& in_range(self.x1 as int)
        &&& in_range(self.y1 as int)
    }

    /// Creates a rectangle from its four edges.
    pub fn new(x0: Fixed, y0: Fixed, x1: Fixed, y1: Fixed) -> (r: Rect)
        ensures
            r == (Rect { x0, y0, x1, y1 }),
    {
        Rect { x0, y0, x1, y1 }
    }

    /// The signed width `x1 - x0`.
    pub fn width(&self) -> (w: Fixed)
        requires
            self.in_range(),
        ensures
            w == self.x1 - self.x0,
    {
        self.x1 - self.x0
    }

    /// The signed height `y1 - y0`.
    pub fn height(&self) -> (h: Fixed)
        requires
            self.in_range(),
        ensures
            h == self.y1 - self.y0,
    {
        self.y1 - self.y0
    }
}

/// A width/height pair used by chart layout.
#[derive(Clone, Copy, Debug, PartialEq, Eq, Structural)]
pub struct Size {
    /// Width in chart coordinate units.
    pub width: Fixed,
    /// Height in chart coordinate units.
    pub height: Fixed,
}

impl Size {
    /// Whether both extents lie within the accepted coordinate range.
    pub open spec fn in_range(&self) -> bool {
        in_range(self.width as int) && in_range(self.height as int)
    }
}

impl Default for Size {
    fn default() -> (s: Size)
        ensures
            s == (Size { width: 0, height: 0 }),
    {
        Size { width: 0, height: 0 }
    }
}

/// Where a legend sits relative to the chart.
#[derive(Clone, Copy, Debug, PartialEq, Eq, Structural)]
pub enum LegendOrient {
    /// To the left of the chart, outside the axes.
    Left,
    /// To the right of the chart, outside the axes.
    Right,
    /// Above the chart, outside the axes.
    Top,
    /// Below the chart, outside the axes.
    Bottom,
    /// Inside the upper-left corner of the data rectangle.
    TopLeft,
    /// Inside the upper-right corner of the data rectangle.
    TopRight,
    /// Inside the lower-left corner of the data rectangle.
    BottomLeft,
    /// Inside the lower-right corner of the data rectangle.
    BottomRight,
    /// No automatic placement: the explicit coordinates are used.
    Explicit,
}

impl LegendOrient {
    /// Whether a legend with this orientation takes part in the left, right,
    /// top or bottom margin. Corner orientations and `Explicit` are drawn inside
    /// the plot and reserve nothing.
    pub open spec fn consumes_margin(&self) -> bool {
        *self is Left || *self is Right || *self is Top || *self is Bottom
    }
}

/// Legend placement: orientation, offset and explicit position.
#[derive(Clone, Copy, Debug, PartialEq, Eq, Structural)]
pub struct LegendPlacement {
    /// Legend orientation.
    pub orient: LegendOrient,
    /// Distance away from the axes (or inward from a corner).
    pub offset: Fixed,
    /// Explicit x position, used only when `orient` is `Explicit`.
    pub x: Fixed,
    /// Explicit y position, used only when `orient` is `Explicit`.
    pub y: Fixed,
}

impl LegendPlacement {
    /// Whether every scalar lies within the accepted coordinate range.
    pub open spec fn in_range(&self) -> bool {
        &&& in_range(self.offset as int)
        &&& in_range(self.x as int)
        &&& in_range(self.y as int)
    }
}

impl Default for LegendPlacement {
    fn default() -> (p: LegendPlacement)
        ensures
            p == (LegendPlacement { orient: LegendOrient::Right, offset: 18_000_000, x: 0, y: 0 }),
    {
        LegendPlacement { orient: LegendOrient::Right, offset: 18_000_000, x: 0, y: 0 }
    }
}

/// Layout inputs for one chart: measured guide thicknesses, paddings and
/// either a plot size or a view size.
#[derive(Clone, Copy, Debug, PartialEq, Eq)]
pub struct ChartLayoutSpec {
    /// Thickness of the chart title, reserved above the plot and its guides.
    pub title_top: Option<Fixed>,
    /// The desired plot size, used when `view_size` is `None`.
    pub plot_size: Size,
    /// The outer view size. When set, the plot shrinks to what the margins
    /// leave of it.
    pub view_size: Option<Size>,
    /// Padding around the whole chart, applied on all four sides.
    pub outer_padding: Fixed,
    /// Inset of the data rectangle within the plot rectangle.
    pub plot_padding: Fixed,
    /// Measured thickness of the left axis, if there is one.
    pub axis_left: Option<Fixed>,
    /// Measured thickness of the right axis, if there is one.
    pub axis_right: Option<Fixed>,
    /// Measured thickness of the top axis, if there is one.
    pub axis_top: Option<Fixed>,
    /// Measured thickness of the bottom axis, if there is one.
    pub axis_bottom: Option<Fixed>,
    /// Measured legend size and its placement, if there is a legend.
    pub legend: Option<(Size, LegendPlacement)>,
}

/// `v` with negative values replaced by zero.
pub open spec fn nonneg(v: int) -> int {
    max_int(v, 0)
}

/// The non-negative thickness an optional guide asks for; zero when absent.
pub open spec fn thickness(t: Option<Fixed>) -> int {
    match t {
        Some(v) => nonneg(v as int),
        None => 0,
    }
}

impl ChartLayoutSpec {
    /// Whether every scalar input lies within the accepted coordinate range.
    pub open spec fn in_range(&self) -> bool {
        &&& self.title_top matches Some(v) ==> in_range(v as int)
        &&& self.plot_size.in_range()
        &&& self.view_size matches Some(v) ==> v.in_range()
        &&& in_range(self.outer_padding as int)
        &&& in_range(self.plot_padding as int)
        &&& self.axis_left matches Some(v) ==> in_range(v as int)
        &&& self.axis_right matches Some(v) ==> in_range(v as int)
        &&& self.axis_top matches Some(v) ==> in_range(v as int)
        &&& self.axis_bottom matches Some(v) ==> in_range(v as int)
        &&& self.legend matches Some(l) ==> l.0.in_range() && l.1.in_range()
    }

    /// What a legend with orientation `side` adds to the margin on that side:
    /// its extent along the margin's normal plus its offset.
    #[verifier::opaque]
    pub open spec fn legend_margin(&self, side: LegendOrient) -> int {
        match self.legend {
            Some((size, placement)) => if placement.orient == side {
                match side {
                    LegendOrient::Left | LegendOrient::Right => nonneg(size.width as int) + nonneg(
                        placement.offset as int,
                    ),
                    LegendOrient::Top | LegendOrient::Bottom => nonneg(size.height as int) + nonneg(
                        placement.offset as int,
                    ),
                    _ => 0,
                }
            } else {
                0
            },
            None => 0,
        }
    }

    /// Space reserved to the left of the plot.
    pub open spec fn margin_left(&self) -> int {
        nonneg(self.outer_padding as int) + thickness(self.axis_left) + self.legend_margin(
            LegendOrient::Left,
        )
    }

    /// Space reserved to the right of the plot.
    pub open spec fn margin_right(&self) -> int {
        nonneg(self.outer_padding as int) + thickness(self.axis_right) + self.legend_margin(
            LegendOrient::Right,
        )
    }

    /// Space reserved above the plot.
    pub open spec fn margin_top(&self) -> int {
        nonneg(self.outer_padding as int) + thickness(self.title_top) + thickness(self.axis_top)
            + self.legend_margin(LegendOrient::Top)
    }

    /// Space reserved below the plot.
    pub open spec fn margin_bottom(&self) -> int {
        nonneg(self.outer_padding as int) + thickness(self.axis_bottom) + self.legend_margin(
            LegendOrient::Bottom,
        )
    }

    /// Width of the plot rectangle: what the margins leave of a fixed view,
    /// never below zero, or the desired plot width.
    #[verifier::opaque]
    pub open spec fn plot_width(&self) -> int {
        match self.view_size {
            Some(v) => nonneg(nonneg(v.width as int) - self.margin_left() - self.margin_right()),
            None => nonneg(self.plot_size.width as int),
        }
    }

    /// Height of the plot rectangle: what the margins leave of a fixed view,
    /// never below zero, or the desired plot height.
    #[verifier::opaque]
    pub open spec fn plot_height(&self) -> int {
        match self.view_size {
            Some(v) => nonneg(nonneg(v.height as int) - self.margin_top() - self.margin_bottom()),
            None => nonneg(self.plot_size.height as int),
        }
    }

    /// Horizontal inset of the data rectangle: the plot padding, but never
    /// more than half the plot width.
    #[verifier::opaque]
    pub open spec fn inset_x(&self) -> int {
        min_int(nonneg(self.plot_padding as int), self.plot_width() / 2)
    }

    /// Vertical inset of the data rectangle: the plot padding, but never more
    /// than half the plot height.
    #[verifier::opaque]
    pub open spec fn inset_y(&self) -> int {
        min_int(nonneg(self.plot_padding as int), self.plot_height() / 2)
    }

    /// Left edge of the data rectangle.
    pub open spec fn data_x0(&self) -> int {
        self.margin_left() + self.inset_x()
    }

    /// Top edge of the data rectangle.
    pub open spec fn data_y0(&self) -> int {
        self.margin_top() + self.inset_y()
    }

    /// Right edge of the data rectangle.
    pub open spec fn data_x1(&self) -> int {
        self.margin_left() + self.plot_width() - self.inset_x()
    }

    /// Bottom edge of the data rectangle.
    pub open spec fn data_y1(&self) -> int {
        self.margin_top() + self.plot_height() - self.inset_y()
    }

    /// Width of the outer view: the fixed view width as given, or margins
    /// plus plot.
    pub open spec fn view_width(&self) -> int {
        match self.view_size {
            Some(v) => v.width as int,
            None => self.margin_left() + self.plot_width() + self.margin_right(),
        }
    }

    /// Height of the outer view: the fixed view height as given, or margins
    /// plus plot.
    pub open spec fn view_height(&self) -> int {
        match self.view_size {
            Some(v) => v.height as int,
            None => self.margin_top() + self.plot_height() + self.margin_bottom(),
        }
    }

    /// The four edges `(x0, y0, x1, y1)` of the legend rectangle for the
    /// given legend size and placement.
    ///
    /// Side orientations put the legend outside the axis on that side, at the
    /// placement's offset; corner orientations put it inside the data
    /// rectangle, the offset inward from both edges of the corner;
    /// `Explicit` puts it at the explicit position.
    #[verifier::opaque]
    pub open spec fn legend_edges(&self, size: Size, placement: LegendPlacement) -> (
        int,
        int,
        int,
        int,
    ) {
        let w = nonneg(size.width as int);
        let h = nonneg(size.height as int);
        let offset = nonneg(placement.offset as int);
        let x0 = self.data_x0();
        let y0 = self.data_y0();
        let x1 = self.data_x1();
        let y1 = self.data_y1();
        match placement.orient {
            LegendOrient::Right => {
                let left = x1 + thickness(self.axis_right) + offset;
                (left, y0, left + w, y0 + h)
            },
            LegendOrient::Left => {
                let right = x0 - thickness(self.axis_left) - offset;
                (right - w, y0, right, y0 + h)
            },
            LegendOrient::Top => {
                let bottom = y0 - thickness(self.axis_top) - offset;
                (x0, bottom - h, x0 + w, bottom)
            },
            LegendOrient::Bottom => {
                let top = y1 + thickness(self.axis_bottom) + offset;
                (x0, top, x0 + w, top + h)
            },
            LegendOrient::TopLeft => (x0 + offset, y0 + offset, x0 + offset + w, y0 + offset + h),
            LegendOrient::TopRight => (x1 - offset - w, y0 + offset, x1 - offset, y0 + offset + h),
            LegendOrient::BottomLeft => (
                x0 + offset,
                y1 - offset - h,
                x0 + offset + w,
                y1 - offset,
            ),
            LegendOrient::BottomRight => (
                x1 - offset - w,
                y1 - offset - h,
                x1 - offset,
                y1 - offset,
            ),
            LegendOrient::Explicit => (
                placement.x as int,
                placement.y as int,
                placement.x + w,
                placement.y + h,
            ),
        }
    }
}

/// Output of the arrange pass.
#[derive(Clone, Copy, Debug, PartialEq, Eq, Structural)]
pub struct ChartLayout {
    /// Outer chart bounds.
    pub view: Rect,
    /// Reserved rectangle for the chart title, if it has any thickness.
    pub title_top: Option<Rect>,
    /// The plot rectangle.
    pub plot: Rect,
    /// The data rectangle: the plot inset by the plot padding.
    pub data: Rect,
    /// Reserved rectangle for the left axis, if it has any thickness.
    pub axis_left: Option<Rect>,
    /// Reserved rectangle for the right axis, if it has any thickness.
    pub axis_right: Option<Rect>,
    /// Reserved rectangle for the top axis, if it has any thickness.
    pub axis_top: Option<Rect>,
    /// Reserved rectangle for the bottom axis, if it has any thickness.
    pub axis_bottom: Option<Rect>,
    /// Legend rectangle, if there is a legend.
    pub legend: Option<Rect>,
}

/// Whether an optional rectangle is present exactly when `present` holds and
/// then has the given edges.
pub open spec fn optional_rect_is(
    r: Option<Rect>,
    present: bool,
    x0: int,
    y0: int,
    x1: int,
    y1: int,
) -> bool {
    match r {
        Some(rect) => present && rect.is(x0, y0, x1, y1),
        None => !present,
    }
}

fn clamp_nonneg(v: Fixed) -> (r: Fixed)
    ensures
        r == nonneg(v as int),
{
    if v < 0 {
        0
    } else {
        v
    }
}

fn optional_thickness(t: Option<Fixed>) -> (r: Fixed)
    ensures
        r == thickness(t),
{
    match t {
        Some(v) => clamp_nonneg(v),
        None => 0,
    }
}

fn smaller(a: Fixed, b: Fixed) -> (r: Fixed)
    ensures
        r == min_int(a as int, b as int),
{
    if a <= b {
        a
    } else {
        b
    }
}

/// The margin a legend oriented to `side` reserves on that side.
fn legend_margin(spec: &ChartLayoutSpec, side: LegendOrient) -> (r: Fixed)
    requires
        spec.in_range(),
        side.consumes_margin(),
    ensures
        r == spec.legend_margin(side),
        0 <= r <= 2 * crate::fixed::LIMIT,
{
    proof {
        reveal(ChartLayoutSpec::legend_margin);
    }
    match spec.legend {
        Some((size, placement)) => {
            let extent: Fixed = match side {
                LegendOrient::Left | LegendOrient::Right => clamp_nonneg(size.width),
                _ => clamp_nonneg(size.height),
            };
            if same_orient(placement.orient, side) {
                extent + clamp_nonneg(placement.offset)
            } else {
                0
            }
        },
        None => 0,
    }
}

fn same_orient(a: LegendOrient, b: LegendOrient) -> (r: bool)
    ensures
        r == (a == b),
{
    a == b
}

/// The four margins `(left, right, top, bottom)`.
fn margins(spec: &ChartLayoutSpec) -> (m: (Fixed, Fixed, Fixed, Fixed))
    requires
        spec.in_range(),
    ensures
        m.0 == spec.margin_left(),
        m.1 == spec.margin_right(),
        m.2 == spec.margin_top(),
        m.3 == spec.margin_bottom(),
        0 <= m.0 <= 4 * crate::fixed::LIMIT,
        0 <= m.1 <= 4 * crate::fixed::LIMIT,
        0 <= m.2 <= 5 * crate::fixed::LIMIT,
        0 <= m.3 <= 4 * crate::fixed::LIMIT,
{
    let outer_padding: Fixed = clamp_nonneg(spec.outer_padding);
    let left: Fixed = outer_padding + optional_thickness(spec.axis_left) + legend_margin(
        spec,
        LegendOrient::Left,
    );
    let right: Fixed = outer_padding + optional_thickness(spec.axis_right) + legend_margin(
        spec,
        LegendOrient::Right,
    );
    let top: Fixed = outer_padding + optional_thickness(spec.title_top) + optional_thickness(
        spec.axis_top,
    ) + legend_margin(spec, LegendOrient::Top);
    let bottom: Fixed = outer_padding + optional_thickness(spec.axis_bottom) + legend_margin(
        spec,
        LegendOrient::Bottom,
    );
    (left, right, top, bottom)
}

/// Width and height of the plot rectangle, given the margins.
fn plot_extent(
    spec: &ChartLayoutSpec,
    margin_left: Fixed,
    margin_right: Fixed,
    margin_top: Fixed,
    margin_bottom: Fixed,
) -> (e: (Fixed, Fixed))
    requires
        spec.in_range(),
        margin_left == spec.margin_left(),
        margin_right == spec.margin_right(),
        margin_top == spec.margin_top(),
        margin_bottom == spec.margin_bottom(),
        0 <= margin_left <= 4 * crate::fixed::LIMIT,
        0 <= margin_right <= 4 * crate::fixed::LIMIT,
        0 <= margin_top <= 5 * crate::fixed::LIMIT,
        0 <= margin_bottom <= 4 * crate::fixed::LIMIT,
    ensures
        e.0 == spec.plot_width(),
        e.1 == spec.plot_height(),
        0 <= e.0 <= crate::fixed::LIMIT,
        0 <= e.1 <= crate::fixed::LIMIT,
{
    proof {
        reveal(ChartLayoutSpec::plot_width);
        reveal(ChartLayoutSpec::plot_height);
    }
    match spec.view_size {
        Some(v) => (
            clamp_nonneg(clamp_nonneg(v.width) - margin_left - margin_right),
            clamp_nonneg(clamp_nonneg(v.height) - margin_top - margin_bottom),
        ),
        None => (clamp_nonneg(spec.plot_size.width), clamp_nonneg(spec.plot_size.height)),
    }
}

/// Horizontal and vertical inset of the data rectangle, given the plot extent.
fn insets(spec: &ChartLayoutSpec, plot_w: Fixed, plot_h: Fixed) -> (i: (Fixed, Fixed))
    requires
        spec.in_range(),
        plot_w == spec.plot_width(),
        plot_h == spec.plot_height(),
        0 <= plot_w,
        0 <= plot_h,
    ensures
        i.0 == spec.inset_x(),
        i.1 == spec.inset_y(),
        0 <= 2 * i.0 <= plot_w,
        0 <= 2 * i.1 <= plot_h,
{
    proof {
        reveal(ChartLayoutSpec::inset_x);
        reveal(ChartLayoutSpec::inset_y);
    }
    let plot_padding: Fixed = clamp_nonneg(spec.plot_padding);
    (smaller(plot_padding, plot_w / 2), smaller(plot_padding, plot_h / 2))
}

impl ChartLayout {
    /// Whether this layout is the arrangement of `spec`.
    ///
    /// The view starts at the origin and is as large as the fixed view or as
    /// margins and plot together. The title spans the view below the outer
    /// padding. The plot lies within the margins, and the data rectangle is
    /// the plot inset by the plot padding. Every axis is adjacent to the data
    /// rectangle on its side and as thick as it asked to be. A guide without
    /// thickness has no rectangle. The legend lies where its placement puts
    /// it.
    pub open spec fn arranges(&self, spec: &ChartLayoutSpec) -> bool {
        &&& self.view.is(0, 0, spec.view_width(), spec.view_height())
        &&& optional_rect_is(
            self.title_top,
            thickness(spec.title_top) > 0,
            0,
            nonneg(spec.outer_padding as int),
            spec.view_width(),
            nonneg(spec.outer_padding as int) + thickness(spec.title_top),
        )
        &&& self.plot.is(
            spec.margin_left(),
            spec.margin_top(),
            spec.margin_left() + spec.plot_width(),
            spec.margin_top() + spec.plot_height(),
        )
        &&& self.data.is(spec.data_x0(), spec.data_y0(), spec.data_x1(), spec.data_y1())
        &&& optional_rect_is(
            self.axis_left,
            thickness(spec.axis_left) > 0,
            spec.data_x0() - thickness(spec.axis_left),
            spec.data_y0(),
            spec.data_x0(),
            spec.data_y1(),
        )
        &&& optional_rect_is(
            self.axis_right,
            thickness(spec.axis_right) > 0,
            spec.data_x1(),
            spec.data_y0(),
            spec.data_x1() + thickness(spec.axis_right),
            spec.data_y1(),
        )
        &&& optional_rect_is(
            self.axis_top,
            thickness(spec.axis_top) > 0,
            spec.data_x0(),
            spec.data_y0() - thickness(spec.axis_top),
            spec.data_x1(),
            spec.data_y0(),
        )
        &&& optional_rect_is(
            self.axis_bottom,
            thickness(spec.axis_bottom) > 0,
            spec.data_x0(),
            spec.data_y1(),
            spec.data_x1(),
            spec.data_y1() + thickness(spec.axis_bottom),
        )
        &&& match spec.legend {
            Some((size, placement)) => {
                let e = spec.legend_edges(size, placement);
                self.legend is Some && self.legend->0.is(e.0, e.1, e.2, e.3)
            },
            None => self.legend is None,
            }
    }

    /// Computes the layout for `spec`.
    ///
    /// Margins accumulate in one pass: the outer padding, the axis on that
    /// side, the title (top only) and a legend oriented to that side. The plot
    /// is the desired plot size, or what the margins leave of a fixed view.
    /// The data rectangle is the plot inset by the plot padding. Every axis
    /// rectangle is adjacent to the data rectangle, and the legend lies outside
    /// the axes or inside a corner of the data rectangle.
    pub fn arrange(spec: &ChartLayoutSpec) -> (layout: ChartLayout)
        requires
            spec.in_range(),
        ensures
            layout.arranges(spec),
    {
        let outer_padding: Fixed = clamp_nonneg(spec.outer_padding);
        let title_top_h: Fixed = optional_thickness(spec.title_top);
        let axis_left_w: Fixed = optional_thickness(spec.axis_left);
        let axis_right_w: Fixed = optional_thickness(spec.axis_right);
        let axis_top_h: Fixed = optional_thickness(spec.axis_top);
        let axis_bottom_h: Fixed = optional_thickness(spec.axis_bottom);

        let (margin_left, margin_right, margin_top, margin_bottom) = margins(spec);
        let (plot_w, plot_h) = plot_extent(spec, margin_left, margin_right, margin_top, margin_bottom);
        let (inset_x, inset_y) = insets(spec, plot_w, plot_h);

        let plot = Rect::new(margin_left, margin_top, margin_left + plot_w, margin_top + plot_h);
        let data = Rect::new(
            plot.x0 + inset_x,
            plot.y0 + inset_y,
            plot.x1 - inset_x,
            plot.y1 - inset_y,
        );

        let axis_left = if axis_left_w > 0 {
            Some(Rect::new(data.x0 - axis_left_w, data.y0, data.x0, data.y1))
        } else {
            None
        };
        let axis_right = if axis_right_w > 0 {
            Some(Rect::new(data.x1, data.y0, data.x1 + axis_right_w, data.y1))
        } else {
            None
        };
        let axis_top = if axis_top_h > 0 {
            Some(Rect::new(data.x0, data.y0 - axis_top_h, data.x1, data.y0))
        } else {
            None
        };
        let axis_bottom = if axis_bottom_h > 0 {
            Some(Rect::new(data.x0, data.y1, data.x1, data.y1 + axis_bottom_h))
        } else {
            None
        };

        let legend = match spec.legend {
            Some((legend_size, placement)) => Some(
                legend_rect(
                    spec,
                    data,
                    axis_left_w,
                    axis_right_w,
                    axis_top_h,
                    axis_bottom_h,
                    legend_size,
                    placement,
                ),
            ),
            None => None,
        };

        let view = match spec.view_size {
            Some(v) => Rect::new(0, 0, v.width, v.height),
            None => Rect::new(
                0,
                0,
                margin_left + plot_w + margin_right,
                margin_top + plot_h + margin_bottom,
            ),
        };

        let title_top = if title_top_h > 0 {
            Some(Rect::new(0, outer_padding, view.x1, outer_padding + title_top_h))
        } else {
            None
        };

        ChartLayout {
            view,
            title_top,
            plot,
            data,
            axis_left,
            axis_right,
            axis_top,
            axis_bottom,
            legend,
        }
    }
}

/// Places the legend rectangle relative to the data rectangle.
fn legend_rect(
    spec: &ChartLayoutSpec,
    data: Rect,
    axis_left_w: Fixed,
    axis_right_w: Fixed,
    axis_top_h: Fixed,
    axis_bottom_h: Fixed,
    size: Size,
    placement: LegendPlacement,
) -> (r: Rect)
    requires
        spec.in_range(),
        size.in_range(),
        placement.in_range(),
        data.is(spec.data_x0(), spec.data_y0(), spec.data_x1(), spec.data_y1()),
        axis_left_w == thickness(spec.axis_left),
        axis_right_w == thickness(spec.axis_right),
        axis_top_h == thickness(spec.axis_top),
        axis_bottom_h == thickness(spec.axis_bottom),
    ensures
        r.is(
            spec.legend_edges(size, placement).0,
            spec.legend_edges(size, placement).1,
            spec.legend_edges(size, placement).2,
            spec.legend_edges(size, placement).3,
        ),
{
    proof {
        reveal(ChartLayoutSpec::legend_edges);
    }
    let w: Fixed = clamp_nonneg(size.width);
    let h: Fixed = clamp_nonneg(size.height);
    let offset: Fixed = clamp_nonneg(placement.offset);
    proof {
        spec.lemma_edges_bounded();
    }
    match placement.orient {
        LegendOrient::Right => {
            let left: Fixed = data.x1 + axis_right_w + offset;
            Rect::new(left, data.y0, left + w, data.y0 + h)
        },
        LegendOrient::Left => {
            let right: Fixed = data.x0 - axis_left_w - offset;
            Rect::new(right - w, data.y0, right, data.y0 + h)
        },
        LegendOrient::Top => {
            let bottom: Fixed = data.y0 - axis_top_h - offset;
            Rect::new(data.x0, bottom - h, data.x0 + w, bottom)
        },
        LegendOrient::Bottom => {
            let top: Fixed = data.y1 + axis_bottom_h + offset;
            Rect::new(data.x0, top, data.x0 + w, top + h)
        },
        LegendOrient::TopLeft => Rect::new(
            data.x0 + offset,
            data.y0 + offset,
            data.x0 + offset + w,
            data.y0 + offset + h,
        ),
        LegendOrient::TopRight => Rect::new(
            data.x1 - offset - w,
            data.y0 + offset,
            data.x1 - offset,
            data.y0 + offset + h,
        ),
        LegendOrient::BottomLeft => Rect::new(
            data.x0 + offset,
            data.y1 - offset - h,
            data.x0 + offset + w,
            data.y1 - offset,
        ),
        LegendOrient::BottomRight => Rect::new(
            data.x1 - offset - w,
            data.y1 - offset - h,
            data.x1 - offset,
            data.y1 - offset,
        ),
        LegendOrient::Explicit => Rect::new(placement.x, placement.y, placement.x + w, placement.y + h),
    }
}

impl ChartLayoutSpec {
    /// Margins, plot extents and data edges of an in-range specification stay
    /// within a small multiple of the coordinate limit.
    pub proof fn lemma_edges_bounded(&self)
        requires
            self.in_range(),
        ensures
            0 <= self.margin_left() <= 4 * crate::fixed::LIMIT,
            0 <= self.margin_right() <= 4 * crate::fixed::LIMIT,
            0 <= self.margin_top() <= 5 * crate::fixed::LIMIT,
            0 <= self.margin_bottom() <= 4 * crate::fixed::LIMIT,
            0 <= self.plot_width() <= crate::fixed::LIMIT,
            0 <= self.plot_height() <= crate::fixed::LIMIT,
            0 <= 2 * self.inset_x() <= self.plot_width(),
            0 <= 2 * self.inset_y() <= self.plot_height(),
            self.margin_left() <= self.data_x0() <= self.data_x1() <= self.margin_left()
                + self.plot_width(),
            self.margin_top() <= self.data_y0() <= self.data_y1() <= self.margin_top()
                + self.plot_height(),
    {
        reveal(ChartLayoutSpec::legend_margin);
        reveal(ChartLayoutSpec::plot_width);
        reveal(ChartLayoutSpec::plot_height);
        reveal(ChartLayoutSpec::inset_x);
        reveal(ChartLayoutSpec::inset_y);
    }
}

impl ChartLayoutSpec {
    /// A title reserves room above the plot. With a plot of fixed size and no
    /// legend above or below it, the plot starts below the outer padding,
    /// the title and the top axis, and the view is as high as all of these,
    /// the plot, the bottom axis and the outer padding once more.
    pub proof fn lemma_title_reserves_space_above_plot(&self)
        requires
            self.view_size is None,
            self.legend matches Some(l) ==> !(l.1.orient is Top) && !(l.1.orient is Bottom),
        ensures
            self.margin_top() == nonneg(self.outer_padding as int) + thickness(self.title_top)
                + thickness(self.axis_top),
            self.view_height() == nonneg(self.outer_padding as int) + thickness(self.title_top)
                + thickness(self.axis_top) + nonneg(self.plot_size.height as int) + nonneg(
                self.outer_padding as int,
            ) + thickness(self.axis_bottom),
    {
        reveal(ChartLayoutSpec::legend_margin);
        reveal(ChartLayoutSpec::plot_height);
    }

    /// A legend in a corner of the plot, or at an explicit position, takes
    /// no room from any margin.
    pub proof fn lemma_inner_legend_reserves_nothing(&self, side: LegendOrient)
        requires
            self.legend matches Some(l) ==> !l.1.orient.consumes_margin(),
        ensures
            self.legend_margin(side) == 0,
    {
        reveal(ChartLayoutSpec::legend_margin);
    }

    /// With a view of fixed size the plot never grows beyond what the
    /// margins leave of it, and never turns negative.
    pub proof fn lemma_plot_fits_fixed_view(&self)
        requires
            self.view_size is Some,
        ensures
            0 <= self.plot_width(),
            0 <= self.plot_height(),
            self.plot_width() > 0 ==> self.margin_left() + self.plot_width() + self.margin_right()
                == nonneg(self.view_size->0.width as int),
            self.plot_height() > 0 ==> self.margin_top() + self.plot_height()
                + self.margin_bottom() == nonneg(self.view_size->0.height as int),
    {
        reveal(ChartLayoutSpec::plot_width);
        reveal(ChartLayoutSpec::plot_height);
    }
}

/// The thickness of an axis from its parts: the length of the ticks, tick
/// padding and label padding, neither counted below zero, and the extent of
/// the labels along the normal of the axis.
pub open spec fn axis_thickness(
    tick_size: Fixed,
    tick_padding: Fixed,
    label_padding: Fixed,
    label_extent: int,
) -> int {
    crate::fixed::abs_int(tick_size as int) + nonneg(tick_padding as int) + nonneg(
        label_padding as int,
    ) + label_extent
}

/// The largest of the scalars, and zero for none or for only negative ones.
pub open spec fn largest(values: Seq<Fixed>) -> int
    decreases values.len(),
{
    if values.len() == 0 {
        0
    } else {
        max_int(largest(values.drop_last()), values.last() as int)
    }
}

impl ChartLayout {
    /// Computes the thickness of a left axis from the widths of its tick
    /// labels.
    pub fn axis_left_thickness(
        label_widths: &Vec<Fixed>,
        tick_size: Fixed,
        tick_padding: Fixed,
        label_padding: Fixed,
    ) -> (thickness: Fixed)
        requires
            in_range(tick_size as int),
            in_range(tick_padding as int),
            in_range(label_padding as int),
            forall|i: int| 0 <= i < label_widths@.len() ==> in_range(#[trigger] label_widths@[i] as int),
        ensures
            thickness == axis_thickness(
                tick_size,
                tick_padding,
                label_padding,
                largest(label_widths@),
            ),
    {
        let mut widest: Fixed = 0;
        let mut i: usize = 0;
        while i < label_widths.len()
            invariant
                0 <= i <= label_widths@.len(),
                forall|k: int|
                    0 <= k < label_widths@.len() ==> in_range(#[trigger] label_widths@[k] as int),
                0 <= widest <= crate::fixed::LIMIT,
                widest == largest(label_widths@.subrange(0, i as int)),
            decreases label_widths@.len() - i,
        {
            proof {
                let next = label_widths@.subrange(0, i + 1);
                assert(next.drop_last() =~= label_widths@.subrange(0, i as int));
                assert(next.last() == label_widths@[i as int]);
            }
            if label_widths[i] > widest {
                widest = label_widths[i];
            }
            i = i + 1;
        }
        assert(label_widths@.subrange(0, i as int) =~= label_widths@);
        let ticks: Fixed = if tick_size < 0 {
            -tick_size
        } else {
            tick_size
        };
        ticks + clamp_nonneg(tick_padding) + clamp_nonneg(label_padding) + widest
    }

    /// Computes the thickness of a bottom axis from the height of a line
    /// of its tick labels.
    pub fn axis_bottom_thickness(
        line_height: Fixed,
        tick_size: Fixed,
        tick_padding: Fixed,
        label_padding: Fixed,
    ) -> (thickness: Fixed)
        requires
            in_range(tick_size as int),
            in_range(tick_padding as int),
            in_range(label_padding as int),
            -4 * crate::fixed::LIMIT <= line_height <= 4 * crate::fixed::LIMIT,
        ensures
            thickness == axis_thickness(tick_size, tick_padding, label_padding, line_height as int),
    {
        let ticks: Fixed = if tick_size < 0 {
            -tick_size
        } else {
            tick_size
        };
        ticks + clamp_nonneg(tick_padding) + clamp_nonneg(label_padding) + line_height
    }
}

/// The advance widths of a sequence of metrics.
pub open spec fn advance_widths(ms: Seq<crate::text::TextMetrics>) -> Seq<Fixed> {
    Seq::new(ms.len(), |i: int| ms[i].advance_width)
}

impl ChartLayout {
    /// Measures the thickness of a left axis with the given tick labels:
    /// the thickness for the widest of the widths the measurer answers, each
    /// pinned into the accepted coordinate range.
    pub fn measure_axis_left<M: crate::text::TextMeasurer>(
        measurer: &M,
        tick_labels: &Vec<String>,
        tick_size: Fixed,
        tick_padding: Fixed,
        label_padding: Fixed,
        font_size: Fixed,
    ) -> (thickness: Fixed)
        requires
            in_range(tick_size as int),
            in_range(tick_padding as int),
            in_range(label_padding as int),
            in_range(font_size as int),
        ensures
            exists|ms: Seq<crate::text::TextMetrics>|
                #![trigger advance_widths(ms)]
                crate::text::all_measured(measurer, crate::text::texts(tick_labels@), font_size, ms)
                    && thickness == axis_thickness(
                    tick_size,
                    tick_padding,
                    label_padding,
                    largest(advance_widths(ms)),
                ),
    {
        let ms = crate::text::measure_all(measurer, tick_labels, font_size);
        let mut widths: Vec<Fixed> = Vec::new();
        let mut i: usize = 0;
        while i < ms.len()
            invariant
                0 <= i <= ms@.len(),
                forall|k: int| 0 <= k < ms@.len() ==> (#[trigger] ms@[k]).in_range(),
                widths@.len() == i,
                forall|k: int| 0 <= k < i ==> #[trigger] widths@[k] == ms@[k].advance_width,
            decreases ms@.len() - i,
        {
            widths.push(ms[i].advance_width);
            i = i + 1;
        }
        assert(widths@ =~= advance_widths(ms@));
        ChartLayout::axis_left_thickness(&widths, tick_size, tick_padding, label_padding)
    }

    /// Measures the thickness of a bottom axis from the height of a sample
    /// line of text: the thickness for the line height of the metrics the
    /// measurer answers for the text `Mg`, pinned into the accepted coordinate
    /// range.
    pub fn measure_axis_bottom<M: crate::text::TextMeasurer>(
        measurer: &M,
        tick_size: Fixed,
        tick_padding: Fixed,
        label_padding: Fixed,
        font_size: Fixed,
    ) -> (thickness: Fixed)
        requires
            in_range(tick_size as int),
            in_range(tick_padding as int),
            in_range(label_padding as int),
            in_range(font_size as int),
        ensures
            exists|m: crate::text::TextMetrics|
                #![trigger m.line_height_of()]
                crate::text::measured(measurer, "Mg"@, font_size, m) && thickness == axis_thickness(
                    tick_size,
                    tick_padding,
                    label_padding,
                    m.line_height_of(),
                ),
    {
        let m = crate::text::measure_pinned(measurer, "Mg", font_size);
        let thickness = ChartLayout::axis_bottom_thickness(
            m.line_height(),
            tick_size,
            tick_padding,
            label_padding,
        );
        assert(thickness == axis_thickness(
            tick_size,
            tick_padding,
            label_padding,
            m.line_height_of(),
        ));
        thickness
    }
}

impl ChartLayoutSpec {
    /// Whether every scalar input lies within `[-part, part]`.
    pub open spec fn within(&self, part: int) -> bool {
        &&& self.title_top matches Some(v) ==> -part <= v <= part
        &&& -part <= self.plot_size.width <= part
        &&& -part <= self.plot_size.height <= part
        &&& self.view_size matches Some(v) ==> -part <= v.width <= part && -part <= v.height
            <= part
        &&& -part <= self.outer_padding <= part
        &&& -part <= self.plot_padding <= part
        &&& self.axis_left matches Some(v) ==> -part <= v <= part
        &&& self.axis_right matches Some(v) ==> -part <= v <= part
        &&& self.axis_top matches Some(v) ==> -part <= v <= part
        &&& self.axis_bottom matches Some(v) ==> -part <= v <= part
        &&& self.legend matches Some(l) ==> {
            &&& -part <= l.0.width <= part
            &&& -part <= l.0.height <= part
            &&& -part <= l.1.offset <= part
            &&& -part <= l.1.x <= part
            &&& -part <= l.1.y <= part
        }
    }

    /// A legend reserves at most two parts on any side.
    pub proof fn lemma_legend_margin_within(&self, part: int, side: LegendOrient)
        requires
            part >= 0,
            self.within(part),
        ensures
            0 <= self.legend_margin(side) <= 2 * part,
    {
        reveal(ChartLayoutSpec::legend_margin);
    }

    /// A guide is at most one part thick.
    pub proof fn lemma_thickness_within(t: Option<Fixed>, part: int)
        requires
            part >= 0,
            t matches Some(v) ==> -part <= v <= part,
        ensures
            0 <= thickness(t) <= part,
    {
    }

    /// When every input lies within `[-part, part]`, the margins are at most
    /// five parts.
    pub proof fn lemma_margins_within(&self, part: int)
        requires
            part >= 0,
            self.within(part),
        ensures
            0 <= self.margin_left() <= 4 * part,
            0 <= self.margin_right() <= 4 * part,
            0 <= self.margin_top() <= 5 * part,
            0 <= self.margin_bottom() <= 4 * part,
    {
        self.lemma_legend_margin_within(part, LegendOrient::Left);
        self.lemma_legend_margin_within(part, LegendOrient::Right);
        self.lemma_legend_margin_within(part, LegendOrient::Top);
        self.lemma_legend_margin_within(part, LegendOrient::Bottom);
        ChartLayoutSpec::lemma_thickness_within(self.title_top, part);
        ChartLayoutSpec::lemma_thickness_within(self.axis_left, part);
        ChartLayoutSpec::lemma_thickness_within(self.axis_right, part);
        ChartLayoutSpec::lemma_thickness_within(self.axis_top, part);
        ChartLayoutSpec::lemma_thickness_within(self.axis_bottom, part);
    }

    /// When every input lies within `[-part, part]`, the plot is at most one
    /// part wide and high.
    pub proof fn lemma_plot_within(&self, part: int)
        requires
            part >= 0,
            self.within(part),
        ensures
            0 <= self.plot_width() <= part,
            0 <= self.plot_height() <= part,
    {
        reveal(ChartLayoutSpec::plot_width);
        reveal(ChartLayoutSpec::plot_height);
        self.lemma_margins_within(part);
        let ml = self.margin_left();
        let mr = self.margin_right();
        let mt = self.margin_top();
        let mb = self.margin_bottom();
        match self.view_size {
            Some(v) => {
                assert(self.plot_width() == nonneg(nonneg(v.width as int) - ml - mr));
                assert(self.plot_height() == nonneg(nonneg(v.height as int) - mt - mb));
            },
            None => {},
        }
    }

    /// The data rectangle lies within the plot.
    pub proof fn lemma_data_within_plot(&self)
        requires
            self.plot_width() >= 0,
            self.plot_height() >= 0,
        ensures
            self.margin_left() <= self.data_x0() <= self.data_x1() <= self.margin_left()
                + self.plot_width(),
            self.margin_top() <= self.data_y0() <= self.data_y1() <= self.margin_top()
                + self.plot_height(),
    {
        reveal(ChartLayoutSpec::inset_x);
        reveal(ChartLayoutSpec::inset_y);
        let pw = self.plot_width();
        let ph = self.plot_height();
        assert(0 <= 2 * (pw / 2) <= pw);
        assert(0 <= 2 * (ph / 2) <= ph);
        assert(0 <= 2 * self.inset_x() <= pw);
        assert(0 <= 2 * self.inset_y() <= ph);
    }

    /// When every input lies within `[-part, part]`, the margins are at most
    /// five parts, the plot at most one, the data rectangle lies within the
    /// plot, and the view within ten parts.
    pub proof fn lemma_edges_within(&self, part: int)
        requires
            part >= 0,
            self.within(part),
        ensures
            0 <= self.margin_left() <= 4 * part,
            0 <= self.margin_right() <= 4 * part,
            0 <= self.margin_top() <= 5 * part,
            0 <= self.margin_bottom() <= 4 * part,
            0 <= self.plot_width() <= part,
            0 <= self.plot_height() <= part,
            self.margin_left() <= self.data_x0() <= self.data_x1() <= self.margin_left()
                + self.plot_width(),
            self.margin_top() <= self.data_y0() <= self.data_y1() <= self.margin_top()
                + self.plot_height(),
            0 <= thickness(self.title_top) <= part,
            0 <= thickness(self.axis_left) <= part,
            0 <= thickness(self.axis_right) <= part,
            0 <= thickness(self.axis_top) <= part,
            0 <= thickness(self.axis_bottom) <= part,
            -part <= self.view_width() <= 9 * part,
            -part <= self.view_height() <= 10 * part,
    {
        self.lemma_margins_within(part);
        self.lemma_plot_within(part);
        self.lemma_data_within_plot();
        ChartLayoutSpec::lemma_thickness_within(self.title_top, part);
        ChartLayoutSpec::lemma_thickness_within(self.axis_left, part);
        ChartLayoutSpec::lemma_thickness_within(self.axis_right, part);
        ChartLayoutSpec::lemma_thickness_within(self.axis_top, part);
        ChartLayoutSpec::lemma_thickness_within(self.axis_bottom, part);
        let ml = self.margin_left();
        let mr = self.margin_right();
        let mt = self.margin_top();
        let mb = self.margin_bottom();
        let pw = self.plot_width();
        let ph = self.plot_height();
        match self.view_size {
            Some(v) => {
                assert(self.view_width() == v.width);
                assert(self.view_height() == v.height);
            },
            None => {
                assert(self.view_width() == ml + pw + mr);
                assert(self.view_height() == mt + ph + mb);
            },
        }
    }

    /// When every input lies within `[-part, part]`, the legend lies within
    /// ten parts of the origin.
    pub proof fn lemma_legend_within(&self, part: int, size: Size, placement: LegendPlacement)
        requires
            part >= 0,
            self.within(part),
            -part <= size.width <= part,
            -part <= size.height <= part,
            -part <= placement.offset <= part,
            -part <= placement.x <= part,
            -part <= placement.y <= part,
        ensures
            -10 * part <= self.legend_edges(size, placement).0 <= 10 * part,
            -10 * part <= self.legend_edges(size, placement).1 <= 10 * part,
            -10 * part <= self.legend_edges(size, placement).2 <= 10 * part,
            -10 * part <= self.legend_edges(size, placement).3 <= 10 * part,
    {
        reveal(ChartLayoutSpec::legend_edges);
        self.lemma_edges_within(part);
        let x0 = self.data_x0();
        let y0 = self.data_y0();
        let x1 = self.data_x1();
        let y1 = self.data_y1();
        let w = nonneg(size.width as int);
        let h = nonneg(size.height as int);
        let offset = nonneg(placement.offset as int);
        let al = thickness(self.axis_left);
        let ar = thickness(self.axis_right);
        let at = thickness(self.axis_top);
        let ab = thickness(self.axis_bottom);
        assert(0 <= x0 <= x1 <= 5 * part);
        assert(0 <= y0 <= y1 <= 6 * part);
        assert(0 <= w <= part && 0 <= h <= part && 0 <= offset <= part);
        let e = self.legend_edges(size, placement);
        match placement.orient {
            LegendOrient::Right => {
                assert(e == (x1 + ar + offset, y0, x1 + ar + offset + w, y0 + h));
            },
            LegendOrient::Left => {
                assert(e == (x0 - al - offset - w, y0, x0 - al - offset, y0 + h));
            },
            LegendOrient::Top => {
                assert(e == (x0, y0 - at - offset - h, x0 + w, y0 - at - offset));
            },
            LegendOrient::Bottom => {
                assert(e == (x0, y1 + ab + offset, x0 + w, y1 + ab + offset + h));
            },
            LegendOrient::TopLeft => {
                assert(e == (x0 + offset, y0 + offset, x0 + offset + w, y0 + offset + h));
            },
            LegendOrient::TopRight => {
                assert(e == (x1 - offset - w, y0 + offset, x1 - offset, y0 + offset + h));
            },
            LegendOrient::BottomLeft => {
                assert(e == (x0 + offset, y1 - offset - h, x0 + offset + w, y1 - offset));
            },
            LegendOrient::BottomRight => {
                assert(e == (x1 - offset - w, y1 - offset - h, x1 - offset, y1 - offset));
            },
            LegendOrient::Explicit => {
                assert(e == (placement.x as int, placement.y as int, placement.x + w, placement.y + h));
            },
        }
    }
}

impl Rect {
    /// Whether every edge lies within `[-bound, bound]`.
    pub open spec fn within(&self, bound: int) -> bool {
        &&& -bound <= self.x0 <= bound
        &&& -bound <= self.y0 <= bound
        &&& -bound <= self.x1 <= bound
        &&& -bound <= self.y1 <= bound
    }
}

impl ChartLayout {
    /// Whether every rectangle of the layout lies within `[-bound, bound]`.
    pub open spec fn within(&self, bound: int) -> bool {
        &&& self.view.within(bound)
        &&& self.plot.within(bound)
        &&& self.data.within(bound)
        &&& self.title_top matches Some(r) ==> r.within(bound)
        &&& self.axis_left matches Some(r) ==> r.within(bound)
        &&& self.axis_right matches Some(r) ==> r.within(bound)
        &&& self.axis_top matches Some(r) ==> r.within(bound)
        &&& self.axis_bottom matches Some(r) ==> r.within(bound)
        &&& self.legend matches Some(r) ==> r.within(bound)
    }

    /// The arrangement of inputs within `[-part, part]` lies within ten
    /// parts of the origin.
    pub proof fn lemma_arrangement_within(&self, spec: &ChartLayoutSpec, part: int)
        requires
            part >= 0,
            spec.within(part),
            self.arranges(spec),
        ensures
            self.within(10 * part),
    {
        spec.lemma_edges_within(part);
        match spec.legend {
            Some((size, placement)) => {
                spec.lemma_legend_within(part, size, placement);
            },
            None => {},
        }
        let bound = 10 * part;
        let x0 = spec.data_x0();
        let y0 = spec.data_y0();
        let x1 = spec.data_x1();
        let y1 = spec.data_y1();
        lemma_rect_within(
            self.view,
            bound,
            0,
            0,
            spec.view_width(),
            spec.view_height(),
        );
        lemma_rect_within(
            self.plot,
            bound,
            spec.margin_left(),
            spec.margin_top(),
            spec.margin_left() + spec.plot_width(),
            spec.margin_top() + spec.plot_height(),
        );
        lemma_rect_within(self.data, bound, x0, y0, x1, y1);
        lemma_optional_rect_within(
            self.title_top,
            thickness(spec.title_top) > 0,
            bound,
            0,
            nonneg(spec.outer_padding as int),
            spec.view_width(),
            nonneg(spec.outer_padding as int) + thickness(spec.title_top),
        );
        lemma_optional_rect_within(
            self.axis_left,
            thickness(spec.axis_left) > 0,
            bound,
            x0 - thickness(spec.axis_left),
            y0,
            x0,
            y1,
        );
        lemma_optional_rect_within(
            self.axis_right,
            thickness(spec.axis_right) > 0,
            bound,
            x1,
            y0,
            x1 + thickness(spec.axis_right),
            y1,
        );
        lemma_optional_rect_within(
            self.axis_top,
            thickness(spec.axis_top) > 0,
            bound,
            x0,
            y0 - thickness(spec.axis_top),
            x1,
            y0,
        );
        lemma_optional_rect_within(
            self.axis_bottom,
            thickness(spec.axis_bottom) > 0,
            bound,
            x0,
            y1,
            x1,
            y1 + thickness(spec.axis_bottom),
        );
        match spec.legend {
            Some((size, placement)) => {
                let e = spec.legend_edges(size, placement);
                lemma_rect_within(self.legend->0, bound, e.0, e.1, e.2, e.3);
            },
            None => {},
        }
    }
}

/// A rectangle whose edges are integers within a bound lies within that
/// bound.
pub proof fn lemma_rect_within(r: Rect, bound: int, x0: int, y0: int, x1: int, y1: int)
    requires
        r.is(x0, y0, x1, y1),
        -bound <= x0 <= bound,
        -bound <= y0 <= bound,
        -bound <= x1 <= bound,
        -bound <= y1 <= bound,
    ensures
        r.within(bound),
{
}

/// An optional rectangle whose edges are integers within a bound lies
/// within that bound if it is there.
pub proof fn lemma_optional_rect_within(
    r: Option<Rect>,
    present: bool,
    bound: int,
    x0: int,
    y0: int,
    x1: int,
    y1: int,
)
    requires
        optional_rect_is(r, present, x0, y0, x1, y1),
        -bound <= x0 <= bound,
        -bound <= y0 <= bound,
        -bound <= x1 <= bound,
        -bound <= y1 <= bound,
    ensures
        r matches Some(rect) ==> rect.within(bound),
{
}

/// Whether two rectangles share no interior point: one lies entirely to one
/// side of the other.
pub open spec fn apart(a: Rect, b: Rect) -> bool {
    a.x1 <= b.x0 || b.x1 <= a.x0 || a.y1 <= b.y0 || b.y1 <= a.y0
}

impl ChartLayout {
    /// The guides of an arrangement do not overlap the data rectangle nor one
    /// another: every axis lies beside the data rectangle, axes on different
    /// sides lie apart, and the title lies above the top axis and the data
    /// rectangle.
    pub proof fn lemma_guides_lie_apart(&self, spec: &ChartLayoutSpec)
        requires
            self.arranges(spec),
        ensures
            self.axis_left matches Some(r) ==> apart(r, self.data),
            self.axis_right matches Some(r) ==> apart(r, self.data),
            self.axis_top matches Some(r) ==> apart(r, self.data),
            self.axis_bottom matches Some(r) ==> apart(r, self.data),
            self.axis_left matches Some(l) ==> (self.axis_right matches Some(r) ==> apart(l, r)),
            self.axis_top matches Some(t) ==> (self.axis_bottom matches Some(b) ==> apart(t, b)),
            self.axis_left matches Some(l) ==> (self.axis_top matches Some(t) ==> apart(l, t)),
            self.axis_left matches Some(l) ==> (self.axis_bottom matches Some(b) ==> apart(l, b)),
            self.axis_right matches Some(r) ==> (self.axis_top matches Some(t) ==> apart(r, t)),
            self.axis_right matches Some(r) ==> (self.axis_bottom matches Some(b) ==> apart(r, b)),
            self.title_top matches Some(t) ==> apart(t, self.data),
            self.title_top matches Some(t) ==> (self.axis_top matches Some(a) ==> apart(t, a)),
    {
        ChartLayoutSpec::lemma_thickness_within(spec.title_top, 0x8000_0000_0000_0000);
        ChartLayoutSpec::lemma_thickness_within(spec.axis_left, 0x8000_0000_0000_0000);
        ChartLayoutSpec::lemma_thickness_within(spec.axis_right, 0x8000_0000_0000_0000);
        ChartLayoutSpec::lemma_thickness_within(spec.axis_top, 0x8000_0000_0000_0000);
        ChartLayoutSpec::lemma_thickness_within(spec.axis_bottom, 0x8000_0000_0000_0000);
        spec.lemma_plot_nonneg();
        spec.lemma_data_within_plot();
        let x0 = spec.data_x0();
        let y0 = spec.data_y0();
        let x1 = spec.data_x1();
        let y1 = spec.data_y1();
        assert(self.data.is(x0, y0, x1, y1));
        assert(x0 <= x1 && y0 <= y1);
        assert(optional_rect_is(
            self.axis_left,
            thickness(spec.axis_left) > 0,
            x0 - thickness(spec.axis_left),
            y0,
            x0,
            y1,
        ));
        assert(optional_rect_is(
            self.axis_right,
            thickness(spec.axis_right) > 0,
            x1,
            y0,
            x1 + thickness(spec.axis_right),
            y1,
        ));
        assert(optional_rect_is(
            self.axis_top,
            thickness(spec.axis_top) > 0,
            x0,
            y0 - thickness(spec.axis_top),
            x1,
            y0,
        ));
        assert(optional_rect_is(
            self.axis_bottom,
            thickness(spec.axis_bottom) > 0,
            x0,
            y1,
            x1,
            y1 + thickness(spec.axis_bottom),
        ));
        assert(optional_rect_is(
            self.title_top,
            thickness(spec.title_top) > 0,
            0,
            nonneg(spec.outer_padding as int),
            spec.view_width(),
            nonneg(spec.outer_padding as int) + thickness(spec.title_top),
        ));
        spec.lemma_title_above_data();
    }
}

impl ChartLayoutSpec {
    /// The plot is never negative in width or height.
    pub proof fn lemma_plot_nonneg(&self)
        ensures
            self.plot_width() >= 0,
            self.plot_height() >= 0,
    {
        reveal(ChartLayoutSpec::plot_width);
        reveal(ChartLayoutSpec::plot_height);
    }

    /// The data rectangle starts below the outer padding, the title and the
    /// top axis.
    pub proof fn lemma_title_above_data(&self)
        ensures
            nonneg(self.outer_padding as int) + thickness(self.title_top) + thickness(
                self.axis_top,
            ) <= self.data_y0(),
    {
        reveal(ChartLayoutSpec::legend_margin);
        self.lemma_plot_nonneg();
        self.lemma_data_within_plot();
        assert(self.legend_margin(LegendOrient::Top) >= 0);
    }
}

impl Rect {
    /// Returns whether every edge lies within the accepted coordinate range.
    pub fn is_in_range(&self) -> (r: bool)
        ensures
            r == self.in_range(),
    {
        crate::fixed::is_in_range(self.x0) && crate::fixed::is_in_range(self.y0)
            && crate::fixed::is_in_range(self.x1) && crate::fixed::is_in_range(self.y1)
    }
}

impl Size {
    /// Returns whether both extents lie within the accepted coordinate
    /// range.
    pub fn is_in_range(&self) -> (r: bool)
        ensures
            r == self.in_range(),
    {
        crate::fixed::is_in_range(self.width) && crate::fixed::is_in_range(self.height)
    }
}

impl LegendPlacement {
    /// Returns whether every scalar lies within the accepted coordinate
    /// range.
    pub fn is_in_range(&self) -> (r: bool)
        ensures
            r == self.in_range(),
    {
        crate::fixed::is_in_range(self.offset) && crate::fixed::is_in_range(self.x)
            && crate::fixed::is_in_range(self.y)
    }
}

/// Returns whether an optional scalar, if there is one, lies within the
/// accepted coordinate range.
fn optional_in_range(t: Option<Fixed>) -> (r: bool)
    ensures
        r == (t matches Some(v) ==> in_range(v as int)),
{
    match t {
        Some(v) => crate::fixed::is_in_range(v),
        None => true,
    }
}

impl ChartLayoutSpec {
    /// Returns whether every scalar input lies within the accepted
    /// coordinate range, as [`ChartLayout::arrange`] asks.
    pub fn is_in_range(&self) -> (r: bool)
        ensures
            r == self.in_range(),
    {
        optional_in_range(self.title_top) && self.plot_size.is_in_range() && (match self.view_size {
            Some(v) => v.is_in_range(),
            None => true,
        }) && crate::fixed::is_in_range(self.outer_padding) && crate::fixed::is_in_range(
            self.plot_padding,
        ) && optional_in_range(self.axis_left) && optional_in_range(self.axis_right)
            && optional_in_range(self.axis_top) && optional_in_range(self.axis_bottom) && (
        match self.legend {
            Some(l) => l.0.is_in_range() && l.1.is_in_range(),
            None => true,
        })
    }
}

} // verus!
