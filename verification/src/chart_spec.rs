//! Chart composition: the two-pass protocol in one place.
//!
//! A [`ChartSpec`] owns the guides of a chart and its layout inputs. Its
//! guides are measured, the measured thicknesses go into the layout
//! negotiator, and the guides are arranged against the rectangles that come
//! out of it. Series marks are built by the caller against the same data
//! rectangle, so that everything lines up.

use vstd::prelude::*;
use crate::axis::AxisSpec;
use crate::fixed::{Fixed, clamp_int};
use crate::layout::{ChartLayout, ChartLayoutSpec, LegendPlacement, Rect, Size};
use crate::legend::LegendSwatchesSpec;
use crate::mark::{Mark, MarkModel, models};
use crate::scale::ScaleContinuous;
use crate::text::{TextMeasurer, TextMetrics};
use crate::title::TitleSpec;

verus! {

/// A composed chart description that owns guide specifications and layout
/// inputs.
#[derive(Clone, Debug, PartialEq, Eq)]
pub struct ChartSpec {
    /// Title.
    pub title: Option<TitleSpec>,
    /// Desired plot size, used when the layout has no fixed view size.
    pub plot_size: Size,
    /// Layout options: paddings and view size. Its guide thicknesses and
    /// plot size are filled in when the chart is laid out.
    pub layout: ChartLayoutSpec,
    /// Left axis.
    pub axis_left: Option<AxisSpec>,
    /// Right axis.
    pub axis_right: Option<AxisSpec>,
    /// Top axis.
    pub axis_top: Option<AxisSpec>,
    /// Bottom axis.
    pub axis_bottom: Option<AxisSpec>,
    /// Legend and its placement.
    pub legend: Option<(LegendSwatchesSpec, LegendPlacement)>,
}

/// The measured thicknesses of the guides of a chart.
#[derive(Clone, Copy, Debug, PartialEq, Eq)]
pub struct MeasuredGuides {
    /// Thickness of the title, if there is one.
    pub title_top: Option<Fixed>,
    /// Thickness of the left axis, if there is one.
    pub axis_left: Option<Fixed>,
    /// Thickness of the right axis, if there is one.
    pub axis_right: Option<Fixed>,
    /// Thickness of the top axis, if there is one.
    pub axis_top: Option<Fixed>,
    /// Thickness of the bottom axis, if there is one.
    pub axis_bottom: Option<Fixed>,
    /// Size of the legend, if there is one.
    pub legend: Option<Size>,
}

/// Largest magnitude of a single layout input of a composed chart: a
/// sixteenth of the coordinate limit, so that every rectangle of the layout
/// lies within the accepted coordinate range.
pub const PART_LIMIT: Fixed = 625_000_000_000_000;

/// Whether `v` lies within `[-PART_LIMIT, PART_LIMIT]`.
pub open spec fn is_part(v: int) -> bool {
    -PART_LIMIT <= v <= PART_LIMIT
}

/// A measured scalar pinned into `[-PART_LIMIT, PART_LIMIT]`.
pub open spec fn pinned_scalar(v: Fixed) -> Fixed {
    clamp_int(v as int, -PART_LIMIT as int, PART_LIMIT as int) as Fixed
}

/// An optional thickness pinned into `[-PART_LIMIT, PART_LIMIT]`.
pub open spec fn pinned_thickness(t: Option<Fixed>) -> Option<Fixed> {
    match t {
        Some(v) => Some(pinned_scalar(v)),
        None => None,
    }
}

/// The marks of an optional axis in an optional rectangle: those of the
/// axis with its default labels when both are there, and none otherwise.
pub open spec fn axis_marks_of(axis: Option<AxisSpec>, plot: Rect, rect: Option<Rect>) -> Seq<
    MarkModel,
> {
    match (axis, rect) {
        (Some(a), Some(r)) => a.marks_of(plot, r, a.labels_of()),
        _ => Seq::empty(),
    }
}

/// Whether `thickness` is what an optional axis measures to with
/// `measurer`, with its default labels: nothing for no axis.
pub open spec fn axis_measured<M: TextMeasurer>(
    axis: Option<AxisSpec>,
    measurer: &M,
    thickness: Option<Fixed>,
) -> bool {
    match axis {
        Some(a) => thickness matches Some(t) && a.measures(measurer, a.labels_of(), t),
        None => thickness is None,
    }
}

/// The models of two lists of marks, one after the other, are the models of
/// the lists joined.
pub proof fn lemma_models_concat(a: Seq<Mark>, b: Seq<Mark>)
    ensures
        models(a + b) == models(a) + models(b),
{
    assert(models(a + b) =~= models(a) + models(b));
}

impl ChartSpec {
    /// Whether the chart can be laid out and its guides arranged: its
    /// layout inputs lie within `[-PART_LIMIT, PART_LIMIT]` and every guide is
    /// well formed.
    pub open spec fn wf(&self) -> bool {
        &&& is_part(self.plot_size.width as int) && is_part(self.plot_size.height as int)
        &&& self.layout.view_size matches Some(v) ==> is_part(v.width as int) && is_part(
            v.height as int,
        )
        &&& is_part(self.layout.outer_padding as int)
        &&& is_part(self.layout.plot_padding as int)
        &&& self.title matches Some(t) ==> t.wf()
        &&& self.axis_left matches Some(a) ==> a.wf()
        &&& self.axis_right matches Some(a) ==> a.wf()
        &&& self.axis_top matches Some(a) ==> a.wf()
        &&& self.axis_bottom matches Some(a) ==> a.wf()
        &&& self.legend matches Some(l) ==> l.0.wf() && is_part(l.1.offset as int) && is_part(
            l.1.x as int,
        ) && is_part(l.1.y as int)
    }

    /// Whether `g` holds what the guides of the chart measure to with
    /// `measurer`: there is a thickness for every guide the chart has and none
    /// for any other, and each is what its guide measures to.
    pub open spec fn measured_by<M: TextMeasurer>(&self, measurer: &M, g: MeasuredGuides) -> bool {
        &&& match self.title {
            Some(t) => g.title_top matches Some(h) && t.measures(measurer, h),
            None => g.title_top is None,
        }
        &&& axis_measured(self.axis_left, measurer, g.axis_left)
        &&& axis_measured(self.axis_right, measurer, g.axis_right)
        &&& axis_measured(self.axis_top, measurer, g.axis_top)
        &&& axis_measured(self.axis_bottom, measurer, g.axis_bottom)
        &&& match self.legend {
            Some(l) => g.legend matches Some(size) && l.0.measures(measurer, size),
            None => g.legend is None,
        }
    }

    /// The layout specification of the chart for measured guides: the
    /// layout options of the chart with its plot size, the measured
    /// thicknesses and the measured legend size with its placement. Measured
    /// values are pinned into `[-PART_LIMIT, PART_LIMIT]`.
    pub open spec fn layout_spec(&self, g: MeasuredGuides) -> ChartLayoutSpec {
        ChartLayoutSpec {
            title_top: pinned_thickness(g.title_top),
            plot_size: self.plot_size,
            view_size: self.layout.view_size,
            outer_padding: self.layout.outer_padding,
            plot_padding: self.layout.plot_padding,
            axis_left: pinned_thickness(g.axis_left),
            axis_right: pinned_thickness(g.axis_right),
            axis_top: pinned_thickness(g.axis_top),
            axis_bottom: pinned_thickness(g.axis_bottom),
            legend: match (g.legend, self.legend) {
                (Some(size), Some(l)) => Some(
                    (
                        Size {
                            width: pinned_scalar(size.width),
                            height: pinned_scalar(size.height),
                        },
                        l.1,
                    ),
                ),
                _ => None,
            },
        }
    }

    /// The guide marks of the chart for a layout and the metrics of its
    /// title: the title, the bottom, top, left and right axis, each arranged
    /// against the data rectangle, and the legend at the corner of its
    /// rectangle. A guide without a rectangle in the layout has no marks.
    pub open spec fn guide_marks_of(
        &self,
        layout: &ChartLayout,
        title: TextMetrics,
        subtitle: Option<TextMetrics>,
    ) -> Seq<MarkModel> {
        (match (self.title, layout.title_top) {
            (Some(t), Some(r)) => t.marks_of(r, title, subtitle),
            _ => Seq::empty(),
        }) + axis_marks_of(self.axis_bottom, layout.data, layout.axis_bottom) + axis_marks_of(
            self.axis_top,
            layout.data,
            layout.axis_top,
        ) + axis_marks_of(self.axis_left, layout.data, layout.axis_left) + axis_marks_of(
            self.axis_right,
            layout.data,
            layout.axis_right,
        ) + (match (self.legend, layout.legend) {
            (Some(l), Some(r)) => l.0.placed(r.x0, r.y0).marks_of(),
            _ => Seq::empty(),
        })
    }

    /// Whether the rectangles of a layout that the guides are arranged
    /// against lie within the accepted coordinate range.
    pub open spec fn layout_in_range(layout: &ChartLayout) -> bool {
        &&& layout.data.in_range()
        &&& layout.title_top matches Some(r) ==> r.in_range()
        &&& layout.axis_left matches Some(r) ==> r.in_range()
        &&& layout.axis_right matches Some(r) ==> r.in_range()
        &&& layout.axis_top matches Some(r) ==> r.in_range()
        &&& layout.axis_bottom matches Some(r) ==> r.in_range()
        &&& layout.legend matches Some(r) ==> r.in_range()
    }

    /// Returns the bottom axis if present, otherwise the top axis.
    pub fn x_axis(&self) -> (axis: Option<&AxisSpec>)
        ensures
            match axis {
                Some(a) => Some(*a) == (if self.axis_bottom is Some {
                    self.axis_bottom
                } else {
                    self.axis_top
                }),
                None => self.axis_bottom is None && self.axis_top is None,
            },
    {
        match &self.axis_bottom {
            Some(a) => Some(a),
            None => match &self.axis_top {
                Some(a) => Some(a),
                None => None,
            },
        }
    }

    /// Returns the left axis if present, otherwise the right axis.
    pub fn y_axis(&self) -> (axis: Option<&AxisSpec>)
        ensures
            match axis {
                Some(a) => Some(*a) == (if self.axis_left is Some {
                    self.axis_left
                } else {
                    self.axis_right
                }),
                None => self.axis_left is None && self.axis_right is None,
            },
    {
        match &self.axis_left {
            Some(a) => Some(a),
            None => match &self.axis_right {
                Some(a) => Some(a),
                None => None,
            },
        }
    }

    /// Instantiates the scale of the x axis for a plot rectangle. Returns
    /// `None` if the chart has no x axis.
    ///
    /// The x axis, if there is one, must have a continuous scale.
    pub fn x_scale_continuous(&self, plot: Rect) -> (scale: Option<ScaleContinuous>)
        requires
            self.wf(),
            self.axis_bottom matches Some(a) ==> a.scale.is_continuous(),
            self.axis_bottom is None ==> (self.axis_top matches Some(a) ==> a.scale.is_continuous()),
        ensures
            match scale {
                Some(s) => (if self.axis_bottom is Some {
                    self.axis_bottom
                } else {
                    self.axis_top
                }) matches Some(a) && a.binds_continuous(plot, s),
                None => self.axis_bottom is None && self.axis_top is None,
            },
    {
        match self.x_axis() {
            Some(a) => Some(a.scale_continuous(plot)),
            None => None,
        }
    }

    /// Instantiates the scale of the y axis for a plot rectangle. Returns
    /// `None` if the chart has no y axis.
    ///
    /// The y axis, if there is one, must have a continuous scale.
    pub fn y_scale_continuous(&self, plot: Rect) -> (scale: Option<ScaleContinuous>)
        requires
            self.wf(),
            self.axis_left matches Some(a) ==> a.scale.is_continuous(),
            self.axis_left is None ==> (self.axis_right matches Some(a) ==> a.scale.is_continuous()),
        ensures
            match scale {
                Some(s) => (if self.axis_left is Some {
                    self.axis_left
                } else {
                    self.axis_right
                }) matches Some(a) && a.binds_continuous(plot, s),
                None => self.axis_left is None && self.axis_right is None,
            },
    {
        match self.y_axis() {
            Some(a) => Some(a.scale_continuous(plot)),
            None => None,
        }
    }

    /// The layout specification of a well-formed chart has every input
    /// within one part, whatever was measured.
    pub proof fn lemma_layout_spec_within(&self, measured: MeasuredGuides)
        requires
            self.wf(),
        ensures
            self.layout_spec(measured).within(PART_LIMIT as int),
            self.layout_spec(measured).in_range(),
    {
    }

    /// Every rectangle of the layout of a well-formed chart lies within the
    /// accepted coordinate range, whatever was measured.
    pub proof fn lemma_layout_in_range(&self, measured: MeasuredGuides, layout: &ChartLayout)
        requires
            self.wf(),
            layout.arranges(&self.layout_spec(measured)),
        ensures
            ChartSpec::layout_in_range(layout),
    {
        self.lemma_layout_spec_within(measured);
        layout.lemma_arrangement_within(&self.layout_spec(measured), PART_LIMIT as int);
        assert(layout.within(10 * PART_LIMIT));
    }

    /// Computes the layout of the chart from the measured thicknesses of its
    /// guides.
    pub fn layout_with(&self, measured: &MeasuredGuides) -> (layout: ChartLayout)
        requires
            self.wf(),
        ensures
            layout.arranges(&self.layout_spec(*measured)),
            ChartSpec::layout_in_range(&layout),
    {
        let legend = match (measured.legend, &self.legend) {
            (Some(size), Some(l)) => Some(
                (Size { width: pin_part(size.width), height: pin_part(size.height) }, l.1),
            ),
            _ => None,
        };
        let spec = ChartLayoutSpec {
            title_top: pin_thickness(measured.title_top),
            plot_size: self.plot_size,
            view_size: self.layout.view_size,
            outer_padding: self.layout.outer_padding,
            plot_padding: self.layout.plot_padding,
            axis_left: pin_thickness(measured.axis_left),
            axis_right: pin_thickness(measured.axis_right),
            axis_top: pin_thickness(measured.axis_top),
            axis_bottom: pin_thickness(measured.axis_bottom),
            legend,
        };
        assert(spec == self.layout_spec(*measured));
        proof {
            self.lemma_layout_spec_within(*measured);
        }
        let layout = ChartLayout::arrange(&spec);
        proof {
            self.lemma_layout_in_range(*measured, &layout);
        }
        layout
    }

    /// Measures every guide of the chart.
    pub fn measure_guides<M: TextMeasurer>(&self, measurer: &M) -> (measured: MeasuredGuides)
        requires
            self.wf(),
        ensures
            self.measured_by(measurer, measured),
    {
        MeasuredGuides {
            title_top: match &self.title {
                Some(t) => Some(t.measure(measurer)),
                None => None,
            },
            axis_left: match &self.axis_left {
                Some(a) => Some(a.measure(measurer)),
                None => None,
            },
            axis_right: match &self.axis_right {
                Some(a) => Some(a.measure(measurer)),
                None => None,
            },
            axis_top: match &self.axis_top {
                Some(a) => Some(a.measure(measurer)),
                None => None,
            },
            axis_bottom: match &self.axis_bottom {
                Some(a) => Some(a.measure(measurer)),
                None => None,
            },
            legend: match &self.legend {
                Some(l) => Some(l.0.measure(measurer)),
                None => None,
            },
        }
    }

    /// Computes the layout of the chart: measures every guide and arranges
    /// the chart for what was measured.
    pub fn layout<M: TextMeasurer>(&self, measurer: &M) -> (layout: ChartLayout)
        requires
            self.wf(),
        ensures
            ChartSpec::layout_in_range(&layout),
            exists|measured: MeasuredGuides|
                self.measured_by(measurer, measured) && layout.arranges(
                    &#[trigger] self.layout_spec(measured),
                ),
    {
        let measured = self.measure_guides(measurer);
        self.layout_with(&measured)
    }

    /// Arranges the guides of the chart against a layout, given the metrics
    /// of the title and of its subtitle.
    pub fn guide_marks_with_metrics(
        &self,
        layout: &ChartLayout,
        title: TextMetrics,
        subtitle: Option<TextMetrics>,
    ) -> (marks: Vec<Mark>)
        requires
            self.wf(),
            ChartSpec::layout_in_range(layout),
            title.in_range(),
            subtitle matches Some(s) ==> s.in_range(),
        ensures
            models(marks@) == self.guide_marks_of(layout, title, subtitle),
    {
        let mut out: Vec<Mark> = Vec::new();
        assert(models(out@) =~= Seq::<MarkModel>::empty());
        match (&self.title, layout.title_top) {
            (Some(t), Some(r)) => {
                let mut more = t.marks_with_metrics(r, title, subtitle);
                proof {
                    lemma_models_concat(out@, more@);
                }
                out.append(&mut more);
            },
            _ => {},
        }
        let plot = layout.data;
        push_axis(&self.axis_bottom, plot, layout.axis_bottom, &mut out);
        push_axis(&self.axis_top, plot, layout.axis_top, &mut out);
        push_axis(&self.axis_left, plot, layout.axis_left, &mut out);
        push_axis(&self.axis_right, plot, layout.axis_right, &mut out);
        match (&self.legend, layout.legend) {
            (Some(l), Some(r)) => {
                let mut more = l.0.marks(r.x0, r.y0);
                proof {
                    lemma_models_concat(out@, more@);
                }
                out.append(&mut more);
            },
            _ => {},
        }
        assert(models(out@) =~= self.guide_marks_of(layout, title, subtitle));
        out
    }

    /// Whether `title` and `subtitle` are metrics `measurer` answers for the
    /// title of the chart; any metrics will do for a chart without a title,
    /// whose guide marks do not depend on them.
    pub open spec fn title_measured<M: TextMeasurer>(
        &self,
        measurer: &M,
        title: TextMetrics,
        subtitle: Option<TextMetrics>,
    ) -> bool {
        self.title matches Some(t) ==> t.measured_texts(measurer, title, subtitle)
    }

    /// Whether `marks` is what the guides of the chart are arranged into
    /// against `layout` with `measurer`: the guide marks for metrics the
    /// measurer answers for the title.
    pub open spec fn arranges_guides<M: TextMeasurer>(
        &self,
        measurer: &M,
        layout: &ChartLayout,
        marks: Seq<MarkModel>,
    ) -> bool {
        exists|title: TextMetrics, subtitle: Option<TextMetrics>|
            #![trigger self.guide_marks_of(layout, title, subtitle)]
            self.title_measured(measurer, title, subtitle) && marks == self.guide_marks_of(
                layout,
                title,
                subtitle,
            )
    }

    /// Arranges the guides of the chart against a layout.
    pub fn guide_marks<M: TextMeasurer>(&self, measurer: &M, layout: &ChartLayout) -> (marks: Vec<
        Mark,
    >)
        requires
            self.wf(),
            ChartSpec::layout_in_range(layout),
        ensures
            self.arranges_guides(measurer, layout, models(marks@)),
    {
        let (title, subtitle) = match &self.title {
            Some(t) => t.measure_texts(measurer),
            None => (TextMetrics { advance_width: 0, ascent: 0, descent: 0, leading: 0 }, None),
        };
        let marks = self.guide_marks_with_metrics(layout, title, subtitle);
        assert(models(marks@) == self.guide_marks_of(layout, title, subtitle));
        marks
    }
}

impl ChartSpec {
    /// Produces the full mark list of the chart: the series marks, then the
    /// guide marks.
    ///
    /// The chart is laid out first. The series builder is then called with
    /// the chart and the data rectangle of the layout, and the guides are
    /// arranged against the same layout.
    pub fn marks<M: TextMeasurer, F: FnOnce(&ChartSpec, Rect) -> Vec<Mark>>(
        &self,
        measurer: &M,
        build_series: F,
    ) -> (r: (ChartLayout, Vec<Mark>))
        requires
            self.wf(),
            forall|data: Rect| call_requires(build_series, (self, data)),
        ensures
            ChartSpec::layout_in_range(&r.0),
            exists|measured: MeasuredGuides|
                self.measured_by(measurer, measured) && r.0.arranges(
                    &#[trigger] self.layout_spec(measured),
                ),
            exists|series: Vec<Mark>, guides: Seq<MarkModel>|
                #![trigger call_ensures(build_series, (self, r.0.data), series), self.arranges_guides(measurer, &r.0, guides)]
                {
                    &&& call_ensures(build_series, (self, r.0.data), series)
                    &&& self.arranges_guides(measurer, &r.0, guides)
                    &&& models(r.1@) == models(series@) + guides
                },
    {
        let layout = self.layout(measurer);
        let mut marks = build_series(self, layout.data);
        let ghost series = marks;
        let mut guides = self.guide_marks(measurer, &layout);
        proof {
            lemma_models_concat(marks@, guides@);
        }
        marks.append(&mut guides);
        (layout, marks)
    }
}

/// Appends the marks of an optional axis in an optional rectangle to `out`.
fn push_axis(axis: &Option<AxisSpec>, plot: Rect, rect: Option<Rect>, out: &mut Vec<Mark>)
    requires
        axis matches Some(a) ==> a.wf(),
        plot.in_range(),
        rect matches Some(r) ==> r.in_range(),
    ensures
        models(final(out)@) == models(old(out)@) + axis_marks_of(*axis, plot, rect),
{
    match (axis, rect) {
        (Some(a), Some(r)) => {
            let mut more = a.marks(plot, r);
            proof {
                lemma_models_concat(out@, more@);
            }
            out.append(&mut more);
        },
        _ => {
            assert(models(out@) =~= models(out@) + axis_marks_of(*axis, plot, rect));
        },
    }
}

/// A measured scalar pinned into `[-PART_LIMIT, PART_LIMIT]`.
fn pin_part(v: Fixed) -> (r: Fixed)
    ensures
        r == pinned_scalar(v),
        is_part(r as int),
{
    if v < -PART_LIMIT {
        -PART_LIMIT
    } else if v > PART_LIMIT {
        PART_LIMIT
    } else {
        v
    }
}

/// An optional thickness pinned into `[-PART_LIMIT, PART_LIMIT]`.
fn pin_thickness(t: Option<Fixed>) -> (r: Option<Fixed>)
    ensures
        r == pinned_thickness(t),
        r matches Some(v) ==> is_part(v as int),
{
    match t {
        Some(v) => Some(pin_part(v)),
        None => None,
    }
}

/// Returns whether a scalar lies within `[-PART_LIMIT, PART_LIMIT]`.
fn fits_part(v: Fixed) -> (r: bool)
    ensures
        r == is_part(v as int),
{
    -PART_LIMIT <= v && v <= PART_LIMIT
}

/// Returns whether an optional axis, if there is one, is well formed.
fn axis_is_wf(axis: &Option<AxisSpec>) -> (r: bool)
    ensures
        r == (axis matches Some(a) ==> a.wf()),
{
    match axis {
        Some(a) => a.is_wf(),
        None => true,
    }
}

impl ChartSpec {
    /// Returns whether the chart can be laid out and its guides arranged.
    pub fn is_wf(&self) -> (r: bool)
        ensures
            r == self.wf(),
    {
        fits_part(self.plot_size.width) && fits_part(self.plot_size.height) && (
        match self.layout.view_size {
            Some(v) => fits_part(v.width) && fits_part(v.height),
            None => true,
        }) && fits_part(self.layout.outer_padding) && fits_part(self.layout.plot_padding) && (
        match &self.title {
            Some(t) => t.is_wf(),
            None => true,
        }) && axis_is_wf(&self.axis_left) && axis_is_wf(&self.axis_right) && axis_is_wf(
            &self.axis_top,
        ) && axis_is_wf(&self.axis_bottom) && (match &self.legend {
            Some(l) => l.0.is_wf() && fits_part(l.1.offset) && fits_part(l.1.x) && fits_part(
                l.1.y,
            ),
            None => true,
        })
    }

    /// Returns whether the rectangles of a layout that the guides are
    /// arranged against lie within the accepted coordinate range.
    pub fn is_layout_in_range(layout: &ChartLayout) -> (r: bool)
        ensures
            r == ChartSpec::layout_in_range(layout),
    {
        layout.data.is_in_range() && rect_fits(layout.title_top) && rect_fits(layout.axis_left)
            && rect_fits(layout.axis_right) && rect_fits(layout.axis_top) && rect_fits(
            layout.axis_bottom,
        ) && rect_fits(layout.legend)
    }
}

/// Returns whether an optional rectangle, if there is one, lies within the
/// accepted coordinate range.
fn rect_fits(rect: Option<Rect>) -> (r: bool)
    ensures
        r == (rect matches Some(x) ==> x.in_range()),
{
    match rect {
        Some(x) => x.is_in_range(),
        None => true,
    }
}

} // verus!
