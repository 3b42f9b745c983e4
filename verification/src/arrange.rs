//! Arranging an axis into marks.
//!
//! Once the plot rectangle is known, an axis is arranged into gridlines, a
//! domain line, tick lines, tick labels and a title. The orientation selects
//! the fixed coordinate along the normal of the axis, the outward direction
//! and the anchoring of the labels; the steps are the same for all four
//! orientations.

use vstd::prelude::*;
use crate::axis::{AxisOrient, AxisSpec, StrokeStyle};
use crate::fixed::{Fixed, LIMIT, UNIT, abs_int, floor_div, in_range, interpolate, saturate};
use crate::layout::{Rect, nonneg};
use crate::mark::{
    Mark,
    MarkModel,
    RuleMark,
    RuleModel,
    TextAnchor,
    TextBaseline,
    TextMark,
    TextModel,
    models,
};
use crate::scale::{ScaleContinuous, ScaleSpec};
use crate::text::{heuristic_metrics, texts};
use crate::ticks::holds;
use crate::z_order::{AXIS_LABELS, AXIS_RULES, AXIS_TITLES, GRID_LINES};

verus! {

/// The rule mark with the given identity, paint order, end points and
/// stroke.
pub open spec fn rule_model(
    id: u64,
    z_index: i32,
    x0: int,
    y0: int,
    x1: int,
    y1: int,
    stroke: StrokeStyle,
) -> MarkModel {
    MarkModel::Rule(
        RuleModel {
            id,
            z_index,
            x0,
            y0,
            x1,
            y1,
            stroke: stroke.brush,
            stroke_width: stroke.stroke_width as int,
        },
    )
}

impl AxisSpec {
    /// Whether a coordinate along the axis falls within the plot.
    pub open spec fn visible(&self, plot: Rect, pos: int) -> bool {
        if self.orient.horizontal() {
            plot.x0 <= pos <= plot.x1
        } else {
            plot.y0 <= pos <= plot.y1
        }
    }

    /// Whether the `i`-th tick falls within the plot.
    pub open spec fn tick_visible(&self, plot: Rect, i: int) -> bool {
        self.visible(plot, self.tick_position(plot, i))
    }

    /// Whether the `i`-th tick is the first that falls within the plot.
    pub open spec fn first_visible(&self, plot: Rect, i: int) -> bool {
        &&& self.tick_visible(plot, i)
        &&& forall|j: int| 0 <= j < i ==> !#[trigger] self.tick_visible(plot, j)
    }

    /// Whether the `i`-th tick is the last that falls within the plot.
    pub open spec fn last_visible(&self, plot: Rect, i: int) -> bool {
        &&& self.tick_visible(plot, i)
        &&& forall|j: int|
            i < j < self.tick_values_of().len() ==> !#[trigger] self.tick_visible(plot, j)
    }

    /// The coordinate of the axis along its normal: the edge of the plot the
    /// axis sits on.
    pub open spec fn edge(&self, plot: Rect) -> int {
        match self.orient {
            AxisOrient::Bottom => plot.y1 as int,
            AxisOrient::Top => plot.y0 as int,
            AxisOrient::Left => plot.x0 as int,
            AxisOrient::Right => plot.x1 as int,
        }
    }

    /// The direction away from the plot along the normal of the axis: `1`
    /// for a bottom or right axis, `-1` for a top or left one.
    pub open spec fn outward(&self) -> int {
        match self.orient {
            AxisOrient::Bottom | AxisOrient::Right => 1,
            AxisOrient::Top | AxisOrient::Left => -1,
        }
    }

    /// The length of a tick line.
    pub open spec fn tick_length(&self) -> int {
        abs_int(self.tick_size as int)
    }

    /// The gap between ticks and labels that arranging leaves: the sum of
    /// tick padding and label padding, not counted below zero.
    pub open spec fn arranged_gap(&self) -> int {
        nonneg(self.tick_padding + self.label_padding)
    }

    /// The distance from the edge of the plot to the labels.
    pub open spec fn label_offset(&self) -> int {
        self.tick_extent() + self.arranged_gap()
    }

    /// The identity of the mark at `offset` from the base, then `i` further.
    pub open spec fn mark_id(&self, offset: u64, i: int) -> u64 {
        self.id_base.wrapping_add(offset).wrapping_add(i as u64)
    }

    /// The identity of the `j`-th gridline.
    pub open spec fn grid_id(&self, j: int) -> u64 {
        self.id_base.wrapping_sub(5_000).wrapping_add(j as u64)
    }

    /// The domain line: along the edge of the plot the axis sits on, over
    /// the full length of that edge.
    pub open spec fn domain_rule(&self, plot: Rect) -> MarkModel {
        if self.orient.horizontal() {
            rule_model(
                self.id_base,
                AXIS_RULES,
                plot.x0 as int,
                self.edge(plot),
                plot.x1 as int,
                self.edge(plot),
                self.style.rule,
            )
        } else {
            rule_model(
                self.id_base,
                AXIS_RULES,
                self.edge(plot),
                plot.y0 as int,
                self.edge(plot),
                plot.y1 as int,
                self.style.rule,
            )
        }
    }

    /// The tick line of the `i`-th tick at `pos`: from the edge of the plot
    /// outward by the tick length.
    pub open spec fn tick_rule(&self, plot: Rect, i: int, pos: int) -> MarkModel {
        let from = self.edge(plot);
        let to = from + self.outward() * self.tick_length();
        if self.orient.horizontal() {
            rule_model(self.mark_id(1, i), AXIS_RULES, pos, from, pos, to, self.style.rule)
        } else {
            rule_model(self.mark_id(1, i), AXIS_RULES, from, pos, to, pos, self.style.rule)
        }
    }

    /// The anchor of the label of the `i`-th tick.
    ///
    /// On a horizontal axis the first visible tick is anchored at its start,
    /// the last visible tick at its end, and every tick between them in the
    /// middle. On a left axis labels end at the axis and on a right axis they
    /// start there.
    pub open spec fn label_anchor(&self, plot: Rect, i: int) -> TextAnchor {
        match self.orient {
            AxisOrient::Left => TextAnchor::End,
            AxisOrient::Right => TextAnchor::Start,
            AxisOrient::Top | AxisOrient::Bottom => if self.first_visible(plot, i) {
                TextAnchor::Start
            } else if self.last_visible(plot, i) {
                TextAnchor::End
            } else {
                TextAnchor::Middle
            },
        }
    }

    /// The baseline of the tick labels: hanging below a bottom axis, sitting
    /// above a top axis, and centered beside a vertical axis.
    pub open spec fn label_baseline(&self) -> TextBaseline {
        match self.orient {
            AxisOrient::Bottom => TextBaseline::Hanging,
            AxisOrient::Top => TextBaseline::Ideographic,
            AxisOrient::Left | AxisOrient::Right => TextBaseline::Middle,
        }
    }

    /// The estimated width of a label: the heuristic advance width at the
    /// label font size.
    pub open spec fn estimated_width(&self, text: Seq<char>) -> int {
        heuristic_metrics(text.len(), self.style.label_font_size).advance_width as int
    }

    /// The compensation for rotating a label about its anchor, on a
    /// horizontal axis: half the estimated width times the sine of the angle,
    /// subtracted for a label anchored at its start, added for one anchored
    /// at its end, and nothing for one anchored in the middle or for an
    /// unrotated label.
    pub open spec fn rotation_shift(&self, anchor: TextAnchor, text: Seq<char>) -> int {
        let dy = (self.estimated_width(text) * self.label_angle.sin) / (2 * UNIT);
        if self.label_angle.degrees == 0 || self.label_angle.sin == 0 {
            0
        } else {
            match anchor {
                TextAnchor::Start => -dy,
                TextAnchor::End => dy,
                TextAnchor::Middle => 0,
            }
        }
    }

    /// The label of the `i`-th tick at `pos`, reading `text`.
    pub open spec fn label_mark(&self, plot: Rect, i: int, pos: int, text: Seq<char>) -> MarkModel {
        let anchor = self.label_anchor(plot, i);
        let away = self.edge(plot) + self.outward() * self.label_offset();
        MarkModel::Text(
            TextModel {
                id: self.mark_id(1_000, i),
                z_index: AXIS_LABELS,
                x: if self.orient.horizontal() {
                    pos
                } else {
                    away
                },
                y: if self.orient.horizontal() {
                    away + self.rotation_shift(anchor, text)
                } else {
                    pos
                },
                text,
                anchor,
                baseline: self.label_baseline(),
                angle: self.label_angle.degrees as int,
                font_size: self.style.label_font_size as int,
                fill: self.style.label_fill,
            },
        )
    }

    /// The marks of the `i`-th tick: nothing for a tick outside the plot,
    /// else its tick line when ticks are on, then its label when labels are
    /// on.
    pub open spec fn marks_for_tick(&self, plot: Rect, i: int, text: Seq<char>) -> Seq<MarkModel> {
        let pos = self.tick_position(plot, i);
        if !self.visible(plot, pos) {
            Seq::empty()
        } else {
            (if self.ticks {
                seq![self.tick_rule(plot, i, pos)]
            } else {
                Seq::empty()
            }) + (if self.labels {
                seq![self.label_mark(plot, i, pos, text)]
            } else {
                Seq::empty()
            })
        }
    }

    /// The marks of the first `k` ticks, in tick order.
    pub open spec fn tick_marks(&self, plot: Rect, labels: Seq<Seq<char>>, k: int) -> Seq<MarkModel>
        decreases k,
    {
        if k <= 0 {
            Seq::empty()
        } else {
            self.tick_marks(plot, labels, k - 1) + self.marks_for_tick(plot, k - 1, labels[k - 1])
        }
    }

    /// The coordinates of those of the first `k` ticks that fall within the
    /// plot, in tick order.
    pub open spec fn visible_positions(&self, plot: Rect, k: int) -> Seq<int>
        decreases k,
    {
        if k <= 0 {
            Seq::empty()
        } else if self.tick_visible(plot, k - 1) {
            self.visible_positions(plot, k - 1).push(self.tick_position(plot, k - 1))
        } else {
            self.visible_positions(plot, k - 1)
        }
    }

    /// Whether one of the first `k` ticks falls within the plot and sits at
    /// the coordinate `v`.
    pub open spec fn has_visible_tick(&self, plot: Rect, v: int, k: int) -> bool {
        exists|i: int| 0 <= i < k && self.visible_tick_at(plot, v, i)
    }

    /// Whether the `i`-th tick falls within the plot and sits at the
    /// coordinate `v`.
    pub open spec fn visible_tick_at(&self, plot: Rect, v: int, i: int) -> bool {
        self.tick_visible(plot, i) && self.tick_position(plot, i) == v
    }

    /// The coordinate of an end of the domain of a continuous scale: of the
    /// first end, or of the second.
    pub open spec fn end_position(&self, plot: Rect, first: bool) -> int {
        let range = self.range_for(plot);
        match self.scale {
            ScaleSpec::Linear(s) => {
                let d = s.resolved(self.tick_count as int);
                saturate(
                    interpolate(d.0, d.1, range.0 as int, range.1 as int, if first {
                        d.0
                    } else {
                        d.1
                    }),
                )
            },
            ScaleSpec::Log(s) => if first {
                saturate(s.bound_to(range).position(s.domain.0 as int, s.log_domain.0 as int))
            } else {
                saturate(s.bound_to(range).position(s.domain.1 as int, s.log_domain.1 as int))
            },
            ScaleSpec::Time(s) => saturate(
                interpolate(
                    s.domain.0 as int,
                    s.domain.1 as int,
                    range.0 as int,
                    range.1 as int,
                    if first {
                        s.domain.0 as int
                    } else {
                        s.domain.1 as int
                    },
                ),
            ),
            _ => 0,
        }
    }

    /// The coordinates of the gridlines: those of the ticks that fall within
    /// the plot and then, on a continuous scale, those of the two ends of the
    /// domain, each unless a gridline is already there. So there is a
    /// gridline at either end of the domain even where no tick falls on it. A
    /// discrete scale has no domain ends to add.
    pub open spec fn grid_positions_of(&self, plot: Rect) -> Seq<int> {
        let n = self.tick_values_of().len() as int;
        let kept = self.visible_positions(plot, n);
        match self.continuous_domain_of() {
            None => kept,
            Some(_) => {
                let at_first = self.end_position(plot, true);
                let at_second = self.end_position(plot, false);
                let first_missing = !self.has_visible_tick(plot, at_first, n);
                let second_missing = !self.has_visible_tick(plot, at_second, n) && !(first_missing
                    && at_second == at_first);
                let with_first = if first_missing {
                    kept.push(at_first)
                } else {
                    kept
                };
                if second_missing {
                    with_first.push(at_second)
                } else {
                    with_first
                }
            },
        }
    }

    /// The gridline at `pos`, the `j`-th of the grid: across the plot, from
    /// one edge to the opposite one.
    pub open spec fn grid_rule(&self, plot: Rect, j: int, pos: int, stroke: StrokeStyle) -> MarkModel {
        if self.orient.horizontal() {
            rule_model(self.grid_id(j), GRID_LINES, pos, plot.y0 as int, pos, plot.y1 as int, stroke)
        } else {
            rule_model(self.grid_id(j), GRID_LINES, plot.x0 as int, pos, plot.x1 as int, pos, stroke)
        }
    }

    /// The gridlines: none without a grid style, else one per grid
    /// coordinate.
    pub open spec fn grid_marks(&self, plot: Rect) -> Seq<MarkModel> {
        match self.grid {
            None => Seq::empty(),
            Some(grid) => Seq::new(
                self.grid_positions_of(plot).len(),
                |j: int| self.grid_rule(plot, j, self.grid_positions_of(plot)[j], grid.stroke),
            ),
        }
    }

    /// The title reading `text`.
    ///
    /// It is centered on the middle of the plot along the axis and placed
    /// against the outer edge of the rectangle reserved for the axis, not
    /// against the labels: a whole font size inside the outer edge on a
    /// horizontal axis, and half a font size inside it, turned by a quarter,
    /// on a vertical axis.
    pub open spec fn title_mark(&self, plot: Rect, axis_rect: Rect, text: Seq<char>) -> MarkModel {
        let size = self.style.title_font_size as int;
        MarkModel::Text(
            TextModel {
                id: self.id_base.wrapping_add(9_000),
                z_index: AXIS_TITLES,
                x: match self.orient {
                    AxisOrient::Top | AxisOrient::Bottom => (plot.x0 + plot.x1) / 2,
                    AxisOrient::Left => axis_rect.x0 + size / 2,
                    AxisOrient::Right => axis_rect.x1 - size / 2,
                },
                y: match self.orient {
                    AxisOrient::Bottom => axis_rect.y1 - size,
                    AxisOrient::Top => axis_rect.y0 + size,
                    AxisOrient::Left | AxisOrient::Right => (plot.y0 + plot.y1) / 2,
                },
                text,
                anchor: TextAnchor::Middle,
                baseline: match self.orient {
                    AxisOrient::Bottom => TextBaseline::Hanging,
                    AxisOrient::Top => TextBaseline::Ideographic,
                    AxisOrient::Left | AxisOrient::Right => TextBaseline::Middle,
                },
                angle: match self.orient {
                    AxisOrient::Top | AxisOrient::Bottom => 0,
                    AxisOrient::Left => -90 * UNIT,
                    AxisOrient::Right => 90 * UNIT,
                },
                font_size: size,
                fill: self.style.title_fill,
            },
        )
    }

    /// The domain line, if it is shown.
    pub open spec fn domain_marks(&self, plot: Rect) -> Seq<MarkModel> {
        if self.show_domain {
            seq![self.domain_rule(plot)]
        } else {
            Seq::empty()
        }
    }

    /// The title, if there is one.
    pub open spec fn title_marks(&self, plot: Rect, axis_rect: Rect) -> Seq<MarkModel> {
        match self.title {
            Some(title) => seq![self.title_mark(plot, axis_rect, title@)],
            None => Seq::empty(),
        }
    }

    /// The marks of the axis for a plot rectangle, the rectangle reserved
    /// for the axis and one label text per tick: the gridlines, the domain
    /// line, tick line and label of every tick within the plot, and the
    /// title.
    pub open spec fn marks_of(&self, plot: Rect, axis_rect: Rect, labels: Seq<Seq<char>>) -> Seq<
        MarkModel,
    > {
        self.grid_marks(plot) + self.domain_marks(plot) + self.tick_marks(
            plot,
            labels,
            self.tick_values_of().len() as int,
        ) + self.title_marks(plot, axis_rect)
    }
}

/// The models of a list of marks with one more mark are the models of the
/// list with one more model.
pub proof fn lemma_models_push(marks: Seq<Mark>, mark: Mark)
    ensures
        models(marks.push(mark)) == models(marks).push(mark@),
{
    assert(models(marks.push(mark)) =~= models(marks).push(mark@));
}

/// Makes a rule mark.
fn rule_mark(
    id: u64,
    z_index: i32,
    x0: Fixed,
    y0: Fixed,
    x1: Fixed,
    y1: Fixed,
    stroke: StrokeStyle,
) -> (m: Mark)
    ensures
        m@ == rule_model(id, z_index, x0 as int, y0 as int, x1 as int, y1 as int, stroke),
{
    Mark::Rule(
        RuleMark {
            id,
            z_index,
            x0,
            y0,
            x1,
            y1,
            stroke: stroke.brush,
            stroke_width: stroke.stroke_width,
        },
    )
}

impl AxisSpec {
    /// At most one tick is the first within the plot.
    pub proof fn lemma_first_visible_unique(&self, plot: Rect, a: int, b: int)
        requires
            0 <= a,
            0 <= b,
            self.first_visible(plot, a),
            self.first_visible(plot, b),
        ensures
            a == b,
    {
        if a < b {
            assert(!self.tick_visible(plot, a));
        } else if b < a {
            assert(!self.tick_visible(plot, b));
        }
    }

    /// At most one tick is the last within the plot.
    pub proof fn lemma_last_visible_unique(&self, plot: Rect, a: int, b: int)
        requires
            a < self.tick_values_of().len(),
            b < self.tick_values_of().len(),
            self.last_visible(plot, a),
            self.last_visible(plot, b),
        ensures
            a == b,
    {
        if a < b {
            assert(!self.tick_visible(plot, b));
        } else if b < a {
            assert(!self.tick_visible(plot, a));
        }
    }

    /// Looking at one more tick finds a visible tick of a given value
    /// exactly when it was found before or that tick is one.
    pub proof fn lemma_has_visible_tick_step(&self, plot: Rect, v: int, k: int)
        requires
            0 <= k,
        ensures
            self.has_visible_tick(plot, v, k + 1) == (self.has_visible_tick(plot, v, k)
                || self.visible_tick_at(plot, v, k)),
    {
        if self.has_visible_tick(plot, v, k + 1) {
            let i = choose|i: int| 0 <= i < k + 1 && self.visible_tick_at(plot, v, i);
            if i < k {
                assert(0 <= i < k && self.visible_tick_at(plot, v, i));
            }
        }
        if self.has_visible_tick(plot, v, k) {
            let i = choose|i: int| 0 <= i < k && self.visible_tick_at(plot, v, i);
            assert(0 <= i < k + 1 && self.visible_tick_at(plot, v, i));
        }
        if self.visible_tick_at(plot, v, k) {
            assert(0 <= k < k + 1 && self.visible_tick_at(plot, v, k));
        }
    }

    /// Returns whether a coordinate along the axis falls within the plot.
    fn is_visible(&self, plot: Rect, pos: Fixed) -> (v: bool)
        ensures
            v == self.visible(plot, pos as int),
    {
        match self.orient {
            AxisOrient::Top | AxisOrient::Bottom => plot.x0 <= pos && pos <= plot.x1,
            AxisOrient::Left | AxisOrient::Right => plot.y0 <= pos && pos <= plot.y1,
        }
    }

    /// Finds the first and the last tick that fall within the plot.
    fn visible_ends(&self, plot: Rect, positions: &Vec<Fixed>) -> (ends: (
        Option<usize>,
        Option<usize>,
    ))
        requires
            positions@.len() == self.tick_values_of().len(),
            forall|i: int|
                0 <= i < positions@.len() ==> #[trigger] positions@[i] as int
                    == self.tick_position(plot, i),
        ensures
            match ends.0 {
                Some(f) => f < positions@.len() && self.first_visible(plot, f as int),
                None => forall|j: int|
                    0 <= j < positions@.len() ==> !#[trigger] self.tick_visible(plot, j),
            },
            match ends.1 {
                Some(l) => l < positions@.len() && self.last_visible(plot, l as int),
                None => forall|j: int|
                    0 <= j < positions@.len() ==> !#[trigger] self.tick_visible(plot, j),
            },
    {
        let mut first: Option<usize> = None;
        let mut last: Option<usize> = None;
        let mut i: usize = 0;
        while i < positions.len()
            invariant
                0 <= i <= positions@.len(),
                positions@.len() == self.tick_values_of().len(),
                forall|k: int|
                    0 <= k < positions@.len() ==> #[trigger] positions@[k] as int
                        == self.tick_position(plot, k),
                match first {
                    Some(f) => f < i && self.first_visible(plot, f as int),
                    None => forall|j: int| 0 <= j < i ==> !#[trigger] self.tick_visible(plot, j),
                },
                match last {
                    Some(l) => l < i && self.tick_visible(plot, l as int) && forall|j: int|
                        l < j < i ==> !#[trigger] self.tick_visible(plot, j),
                    None => forall|j: int| 0 <= j < i ==> !#[trigger] self.tick_visible(plot, j),
                },
            decreases positions@.len() - i,
        {
            assert(positions@[i as int] as int == self.tick_position(plot, i as int));
            if self.is_visible(plot, positions[i]) {
                if first.is_none() {
                    first = Some(i);
                }
                last = Some(i);
            }
            i = i + 1;
        }
        (first, last)
    }

    /// Returns whether a tick within the plot sits at the coordinate `v`.
    fn has_tick(&self, plot: Rect, ticks: &Vec<Fixed>, positions: &Vec<Fixed>, v: Fixed) -> (found:
        bool)
        requires
            positions@.len() == ticks@.len(),
            forall|i: int|
                0 <= i < positions@.len() ==> #[trigger] positions@[i] as int
                    == self.tick_position(plot, i),
        ensures
            found == self.has_visible_tick(plot, v as int, ticks@.len() as int),
    {
        let mut found: bool = false;
        let mut i: usize = 0;
        while i < ticks.len()
            invariant
                0 <= i <= ticks@.len(),
                positions@.len() == ticks@.len(),
                forall|k: int|
                    0 <= k < positions@.len() ==> #[trigger] positions@[k] as int
                        == self.tick_position(plot, k),
                found == self.has_visible_tick(plot, v as int, i as int),
            decreases ticks@.len() - i,
        {
            proof {
                self.lemma_has_visible_tick_step(plot, v as int, i as int);
                assert(positions@[i as int] as int == self.tick_position(plot, i as int));
            }
            if self.is_visible(plot, positions[i]) && positions[i] == v {
                found = true;
            }
            i = i + 1;
        }
        found
    }

    /// The two ends of the domain of a continuous scale with their
    /// coordinates: `(d0, d1, at_d0, at_d1)`.
    fn domain_ends(&self, plot: Rect) -> (e: (Fixed, Fixed, Fixed, Fixed))
        requires
            self.wf(),
            plot.in_range(),
            self.scale.is_continuous(),
        ensures
            self.continuous_domain_of() == Some((e.0 as int, e.1 as int)),
            e.2 == self.end_position(plot, true),
            e.3 == self.end_position(plot, false),
    {
        match self.scale_continuous(plot) {
            ScaleContinuous::Linear(l) => (
                l.domain.0,
                l.domain.1,
                l.map(l.domain.0),
                l.map(l.domain.1),
            ),
            ScaleContinuous::Log(l) => (
                l.domain.0,
                l.domain.1,
                l.map(l.domain.0, l.log_domain.0),
                l.map(l.domain.1, l.log_domain.1),
            ),
            ScaleContinuous::Time(t) => (
                t.inner.domain.0,
                t.inner.domain.1,
                t.map(t.inner.domain.0),
                t.map(t.inner.domain.1),
            ),
        }
    }

    /// Computes the coordinates of the gridlines.
    fn grid_positions(&self, plot: Rect, ticks: &Vec<Fixed>, positions: &Vec<Fixed>) -> (grid: Vec<
        Fixed,
    >)
        requires
            self.wf(),
            plot.in_range(),
            holds(ticks@, self.tick_values_of()),
            positions@.len() == ticks@.len(),
            forall|i: int|
                0 <= i < positions@.len() ==> #[trigger] positions@[i] as int
                    == self.tick_position(plot, i),
        ensures
            holds(grid@, self.grid_positions_of(plot)),
    {
        let mut grid: Vec<Fixed> = Vec::new();
        let mut i: usize = 0;
        while i < positions.len()
            invariant
                0 <= i <= positions@.len(),
                positions@.len() == ticks@.len(),
                ticks@.len() == self.tick_values_of().len(),
                forall|k: int|
                    0 <= k < positions@.len() ==> #[trigger] positions@[k] as int
                        == self.tick_position(plot, k),
                holds(grid@, self.visible_positions(plot, i as int)),
            decreases positions@.len() - i,
        {
            assert(positions@[i as int] as int == self.tick_position(plot, i as int));
            if self.is_visible(plot, positions[i]) {
                grid.push(positions[i]);
            }
            i = i + 1;
        }
        let continuous: bool = match self.scale {
            ScaleSpec::Point(_) | ScaleSpec::Band(_) => false,
            _ => true,
        };
        if continuous {
            let (_d0, _d1, at_d0, at_d1) = self.domain_ends(plot);
            let first_missing: bool = !self.has_tick(plot, ticks, positions, at_d0);
            if first_missing {
                grid.push(at_d0);
            }
            let second_missing: bool = !self.has_tick(plot, ticks, positions, at_d1) && !(
            first_missing && at_d1 == at_d0);
            if second_missing {
                grid.push(at_d1);
            }
        }
        grid
    }

    /// The edge of the plot the axis sits on.
    fn edge_of(&self, plot: Rect) -> (e: Fixed)
        ensures
            e == self.edge(plot),
    {
        match self.orient {
            AxisOrient::Bottom => plot.y1,
            AxisOrient::Top => plot.y0,
            AxisOrient::Left => plot.x0,
            AxisOrient::Right => plot.x1,
        }
    }

    /// The coordinate `distance` outward from the edge of the plot.
    fn outward_from(&self, plot: Rect, distance: Fixed) -> (c: Fixed)
        requires
            plot.in_range(),
            -4 * LIMIT <= distance <= 4 * LIMIT,
        ensures
            c == self.edge(plot) + self.outward() * distance,
            -5 * LIMIT <= c <= 5 * LIMIT,
    {
        let e: Fixed = self.edge_of(plot);
        match self.orient {
            AxisOrient::Bottom | AxisOrient::Right => e + distance,
            AxisOrient::Top | AxisOrient::Left => e - distance,
        }
    }

    /// Makes the domain line.
    fn domain_line(&self, plot: Rect) -> (m: Mark)
        ensures
            m@ == self.domain_rule(plot),
    {
        let e: Fixed = self.edge_of(plot);
        if self.orient.is_horizontal() {
            rule_mark(self.id_base, AXIS_RULES, plot.x0, e, plot.x1, e, self.style.rule)
        } else {
            rule_mark(self.id_base, AXIS_RULES, e, plot.y0, e, plot.y1, self.style.rule)
        }
    }

    /// Makes the tick line of the `i`-th tick at `pos`.
    fn tick_line(&self, plot: Rect, i: usize, pos: Fixed) -> (m: Mark)
        requires
            self.wf(),
            plot.in_range(),
        ensures
            m@ == self.tick_rule(plot, i as int, pos as int),
    {
        let from: Fixed = self.edge_of(plot);
        let length: Fixed = if self.tick_size < 0 {
            -self.tick_size
        } else {
            self.tick_size
        };
        let to: Fixed = self.outward_from(plot, length);
        let id: u64 = self.id_base.wrapping_add(1).wrapping_add(i as u64);
        if self.orient.is_horizontal() {
            rule_mark(id, AXIS_RULES, pos, from, pos, to, self.style.rule)
        } else {
            rule_mark(id, AXIS_RULES, from, pos, to, pos, self.style.rule)
        }
    }

    /// Makes the `j`-th gridline at `pos`.
    fn grid_line(&self, plot: Rect, j: usize, pos: Fixed, stroke: StrokeStyle) -> (m: Mark)
        ensures
            m@ == self.grid_rule(plot, j as int, pos as int, stroke),
    {
        let id: u64 = self.id_base.wrapping_sub(5_000).wrapping_add(j as u64);
        if self.orient.is_horizontal() {
            rule_mark(id, GRID_LINES, pos, plot.y0, pos, plot.y1, stroke)
        } else {
            rule_mark(id, GRID_LINES, plot.x0, pos, plot.x1, pos, stroke)
        }
    }

    /// Computes the compensation for rotating a label about its anchor.
    fn shift_for(&self, anchor: TextAnchor, text: &String) -> (shift: Fixed)
        requires
            self.wf(),
        ensures
            shift == self.rotation_shift(anchor, text@),
            -LIMIT <= shift <= LIMIT,
    {
        let width: i128 = crate::text::heuristic_width(text.as_str(), self.style.label_font_size)
            as i128;
        let sin: i128 = self.label_angle.sin as i128;
        assert(-2_000_000 * LIMIT <= width * sin <= 2_000_000 * LIMIT) by (nonlinear_arith)
            requires
                -LIMIT <= width <= LIMIT,
                -1_000_000 <= sin <= 1_000_000,
        ;
        proof {
            vstd::arithmetic::div_mod::lemma_div_is_ordered(
                width * sin,
                2_000_000 * LIMIT,
                2_000_000,
            );
            vstd::arithmetic::div_mod::lemma_div_is_ordered(
                2_000_000 * (-LIMIT),
                width * sin,
                2_000_000,
            );
            vstd::arithmetic::div_mod::lemma_div_multiples_vanish(LIMIT as int, 2_000_000);
            vstd::arithmetic::div_mod::lemma_div_multiples_vanish(-LIMIT as int, 2_000_000);
        }
        let dy: Fixed = floor_div(width * sin, 2_000_000) as i64;
        if self.label_angle.degrees == 0 || self.label_angle.sin == 0 {
            0
        } else {
            match anchor {
                TextAnchor::Start => -dy,
                TextAnchor::End => dy,
                TextAnchor::Middle => 0,
            }
        }
    }

    /// Makes the label of the `i`-th tick at `pos`.
    fn label(&self, plot: Rect, i: usize, pos: Fixed, anchor: TextAnchor, text: &String) -> (m:
        Mark)
        requires
            self.wf(),
            plot.in_range(),
            anchor == self.label_anchor(plot, i as int),
        ensures
            m@ == self.label_mark(plot, i as int, pos as int, text@),
    {
        let tick_extent: Fixed = if self.ticks {
            if self.tick_size < 0 {
                -self.tick_size
            } else {
                self.tick_size
            }
        } else {
            0
        };
        let padding: Fixed = self.tick_padding + self.label_padding;
        let gap: Fixed = if padding < 0 {
            0
        } else {
            padding
        };
        let away: Fixed = self.outward_from(plot, tick_extent + gap);
        let baseline = match self.orient {
            AxisOrient::Bottom => TextBaseline::Hanging,
            AxisOrient::Top => TextBaseline::Ideographic,
            AxisOrient::Left | AxisOrient::Right => TextBaseline::Middle,
        };
        let (x, y): (Fixed, Fixed) = if self.orient.is_horizontal() {
            (pos, away + self.shift_for(anchor, text))
        } else {
            (away, pos)
        };
        Mark::Text(
            TextMark {
                id: self.id_base.wrapping_add(1_000).wrapping_add(i as u64),
                z_index: AXIS_LABELS,
                x,
                y,
                text: text.clone(),
                anchor,
                baseline,
                angle: self.label_angle.degrees,
                font_size: self.style.label_font_size,
                fill: self.style.label_fill,
            },
        )
    }

    /// Makes the title.
    fn title_text(&self, plot: Rect, axis_rect: Rect, title: &String) -> (m: Mark)
        requires
            self.wf(),
            plot.in_range(),
            axis_rect.in_range(),
        ensures
            m@ == self.title_mark(plot, axis_rect, title@),
    {
        let size: Fixed = self.style.title_font_size;
        proof {
            crate::fixed::lemma_floor_div_bounds(size as int, 2);
            crate::fixed::lemma_floor_div_bounds(plot.x0 + plot.x1, 2);
            crate::fixed::lemma_floor_div_bounds(plot.y0 + plot.y1, 2);
        }
        let half: Fixed = floor_div(size as i128, 2) as i64;
        let (x, y, baseline, angle): (Fixed, Fixed, TextBaseline, Fixed) = match self.orient {
            AxisOrient::Bottom => (
                floor_div(plot.x0 as i128 + plot.x1 as i128, 2) as i64,
                axis_rect.y1 - size,
                TextBaseline::Hanging,
                0,
            ),
            AxisOrient::Top => (
                floor_div(plot.x0 as i128 + plot.x1 as i128, 2) as i64,
                axis_rect.y0 + size,
                TextBaseline::Ideographic,
                0,
            ),
            AxisOrient::Left => (
                axis_rect.x0 + half,
                floor_div(plot.y0 as i128 + plot.y1 as i128, 2) as i64,
                TextBaseline::Middle,
                -90_000_000,
            ),
            AxisOrient::Right => (
                axis_rect.x1 - half,
                floor_div(plot.y0 as i128 + plot.y1 as i128, 2) as i64,
                TextBaseline::Middle,
                90_000_000,
            ),
        };
        Mark::Text(
            TextMark {
                id: self.id_base.wrapping_add(9_000),
                z_index: AXIS_TITLES,
                x,
                y,
                text: title.clone(),
                anchor: TextAnchor::Middle,
                baseline,
                angle,
                font_size: size,
                fill: self.style.title_fill,
            },
        )
    }
}

impl AxisSpec {
    /// Appends the gridlines to `out`.
    fn push_grid(
        &self,
        plot: Rect,
        ticks: &Vec<Fixed>,
        positions: &Vec<Fixed>,
        out: &mut Vec<Mark>,
    )
        requires
            self.wf(),
            plot.in_range(),
            holds(ticks@, self.tick_values_of()),
            positions@.len() == ticks@.len(),
            forall|i: int|
                0 <= i < positions@.len() ==> #[trigger] positions@[i] as int
                    == self.tick_position(plot, i),
        ensures
            models(final(out)@) == models(old(out)@) + self.grid_marks(plot),
    {
        let ghost before = models(out@);
        match self.grid {
            None => {
                assert(models(out@) =~= before + self.grid_marks(plot));
            },
            Some(grid) => {
                let grid_positions = self.grid_positions(plot, ticks, positions);
                let mut j: usize = 0;
                while j < grid_positions.len()
                    invariant
                        0 <= j <= grid_positions@.len(),
                        self.grid == Some(grid),
                        holds(grid_positions@, self.grid_positions_of(plot)),
                        models(out@) == before + Seq::new(
                            j as nat,
                            |k: int|
                                self.grid_rule(plot, k, self.grid_positions_of(plot)[k], grid.stroke),
                        ),
                    decreases grid_positions@.len() - j,
                {
                    let ghost so_far = out@;
                    assert(grid_positions@[j as int] as int == self.grid_positions_of(plot)[j as int]);
                    let m = self.grid_line(plot, j, grid_positions[j], grid.stroke);
                    out.push(m);
                    proof {
                        lemma_models_push(so_far, m);
                        assert(models(out@) =~= before + Seq::new(
                            (j + 1) as nat,
                            |k: int|
                                self.grid_rule(plot, k, self.grid_positions_of(plot)[k], grid.stroke),
                        ));
                    }
                    j = j + 1;
                }
                assert(models(out@) =~= before + self.grid_marks(plot));
            },
        }
    }

    /// Appends the tick lines and labels of the ticks within the plot to
    /// `out`.
    fn push_ticks(&self, plot: Rect, positions: &Vec<Fixed>, labels: &Vec<String>, out: &mut Vec<Mark>)
        requires
            self.wf(),
            plot.in_range(),
            positions@.len() == self.tick_values_of().len(),
            labels@.len() == positions@.len(),
            forall|i: int|
                0 <= i < positions@.len() ==> #[trigger] positions@[i] as int
                    == self.tick_position(plot, i),
        ensures
            models(final(out)@) == models(old(out)@) + self.tick_marks(
                plot,
                texts(labels@),
                positions@.len() as int,
            ),
    {
        let ghost before = models(out@);
        let (first, last) = self.visible_ends(plot, positions);
        let mut i: usize = 0;
        assert(models(out@) =~= before + self.tick_marks(plot, texts(labels@), 0));
        while i < positions.len()
            invariant
                0 <= i <= positions@.len(),
                self.wf(),
                plot.in_range(),
                positions@.len() == self.tick_values_of().len(),
                labels@.len() == positions@.len(),
                forall|k: int|
                    0 <= k < positions@.len() ==> #[trigger] positions@[k] as int
                        == self.tick_position(plot, k),
                match first {
                    Some(f) => f < positions@.len() && self.first_visible(plot, f as int),
                    None => forall|j: int|
                        0 <= j < positions@.len() ==> !#[trigger] self.tick_visible(plot, j),
                },
                match last {
                    Some(l) => l < positions@.len() && self.last_visible(plot, l as int),
                    None => forall|j: int|
                        0 <= j < positions@.len() ==> !#[trigger] self.tick_visible(plot, j),
                },
                models(out@) == before + self.tick_marks(plot, texts(labels@), i as int),
            decreases positions@.len() - i,
        {
            let pos: Fixed = positions[i];
            let ghost start = models(out@);
            let ghost text = texts(labels@)[i as int];
            assert(pos as int == self.tick_position(plot, i as int));
            assert(text == labels@[i as int]@);
            if self.is_visible(plot, pos) {
                assert(self.tick_visible(plot, i as int));
                if self.ticks {
                    let ghost so_far = out@;
                    let m = self.tick_line(plot, i, pos);
                    out.push(m);
                    proof {
                        lemma_models_push(so_far, m);
                    }
                }
                if self.labels {
                    let is_first: bool = match first {
                        Some(f) => f == i,
                        None => false,
                    };
                    let is_last: bool = match last {
                        Some(l) => l == i,
                        None => false,
                    };
                    proof {
                        if self.first_visible(plot, i as int) {
                            self.lemma_first_visible_unique(plot, i as int, first->0 as int);
                        }
                        if self.last_visible(plot, i as int) {
                            self.lemma_last_visible_unique(plot, i as int, last->0 as int);
                        }
                    }
                    let anchor = match self.orient {
                        AxisOrient::Left => TextAnchor::End,
                        AxisOrient::Right => TextAnchor::Start,
                        AxisOrient::Top | AxisOrient::Bottom => if is_first {
                            TextAnchor::Start
                        } else if is_last {
                            TextAnchor::End
                        } else {
                            TextAnchor::Middle
                        },
                    };
                    let ghost so_far = out@;
                    let m = self.label(plot, i, pos, anchor, &labels[i]);
                    out.push(m);
                    proof {
                        lemma_models_push(so_far, m);
                    }
                }
            }
            assert(models(out@) =~= start + self.marks_for_tick(plot, i as int, text));
            assert(models(out@) =~= before + self.tick_marks(plot, texts(labels@), i + 1));
            i = i + 1;
        }
    }

    /// Arranges the axis into marks, with one label text per tick.
    ///
    /// `plot` is the rectangle the scale is bound to and `axis_rect` the
    /// rectangle reserved for the axis, adjacent to it. `labels` holds the
    /// text of every tick in tick order, whichever formatter made it.
    pub fn marks_with_labels(&self, plot: Rect, axis_rect: Rect, labels: &Vec<String>) -> (marks:
        Vec<Mark>)
        requires
            self.wf(),
            plot.in_range(),
            axis_rect.in_range(),
            labels@.len() == self.tick_values_of().len(),
        ensures
            models(marks@) == self.marks_of(plot, axis_rect, texts(labels@)),
    {
        let (ticks, _step) = self.tick_values();
        let positions = self.tick_positions(plot, &ticks);
        let mut out: Vec<Mark> = Vec::new();
        assert(models(out@) =~= Seq::<MarkModel>::empty());
        self.push_grid(plot, &ticks, &positions, &mut out);
        if self.show_domain {
            let ghost so_far = out@;
            let m = self.domain_line(plot);
            out.push(m);
            proof {
                lemma_models_push(so_far, m);
            }
        }
        assert(models(out@) =~= self.grid_marks(plot) + self.domain_marks(plot));
        self.push_ticks(plot, &positions, labels, &mut out);
        match &self.title {
            Some(title) => {
                let ghost so_far = out@;
                let m = self.title_text(plot, axis_rect, title);
                out.push(m);
                proof {
                    lemma_models_push(so_far, m);
                }
            },
            None => {},
        }
        assert(models(out@) =~= self.marks_of(plot, axis_rect, texts(labels@)));
        out
    }

    /// Arranges the axis into marks, with the default label of every tick.
    pub fn marks(&self, plot: Rect, axis_rect: Rect) -> (marks: Vec<Mark>)
        requires
            self.wf(),
            plot.in_range(),
            axis_rect.in_range(),
        ensures
            models(marks@) == self.marks_of(plot, axis_rect, self.labels_of()),
    {
        let labels = self.tick_labels();
        assert(texts(labels@) =~= self.labels_of());
        self.marks_with_labels(plot, axis_rect, &labels)
    }
}

impl AxisSpec {
    /// An end of the domain of a continuous scale sits on an end of the
    /// range: on an edge of the plot.
    pub proof fn lemma_end_on_plot_edge(&self, plot: Rect, first: bool)
        requires
            self.scale.is_continuous(),
        ensures
            self.end_position(plot, first) == self.range_for(plot).0 || self.end_position(
                plot,
                first,
            ) == self.range_for(plot).1,
    {
        let range = self.range_for(plot);
        match self.scale {
            ScaleSpec::Linear(s) => {
                let d = s.resolved(self.tick_count as int);
                if d.0 != d.1 {
                    crate::fixed::lemma_interpolate_ends(d.0, d.1, range.0 as int, range.1 as int);
                }
            },
            ScaleSpec::Log(s) => {
                if s.log_domain.0 != s.log_domain.1 {
                    crate::fixed::lemma_interpolate_ends(
                        s.log_domain.0 as int,
                        s.log_domain.1 as int,
                        range.0 as int,
                        range.1 as int,
                    );
                }
            },
            ScaleSpec::Time(s) => {
                if s.domain.0 != s.domain.1 {
                    crate::fixed::lemma_interpolate_ends(
                        s.domain.0 as int,
                        s.domain.1 as int,
                        range.0 as int,
                        range.1 as int,
                    );
                }
            },
            _ => {},
        }
    }

    /// The coordinates of the visible ticks fall within the plot.
    pub proof fn lemma_visible_positions_within(&self, plot: Rect, k: int, j: int)
        requires
            0 <= j < self.visible_positions(plot, k).len(),
        ensures
            self.visible(plot, self.visible_positions(plot, k)[j]),
        decreases k,
    {
        if k > 0 {
            let rest = self.visible_positions(plot, k - 1);
            if j < rest.len() {
                self.lemma_visible_positions_within(plot, k - 1, j);
            }
        }
    }

    /// No gridline extends outside the plot: every gridline of a plot
    /// rectangle that is not turned inside out falls within it.
    pub proof fn lemma_grid_within_plot(&self, plot: Rect, j: int)
        requires
            plot.x0 <= plot.x1,
            plot.y0 <= plot.y1,
            0 <= j < self.grid_positions_of(plot).len(),
        ensures
            self.visible(plot, self.grid_positions_of(plot)[j]),
    {
        let n = self.tick_values_of().len() as int;
        let kept = self.visible_positions(plot, n);
        if j < kept.len() {
            self.lemma_visible_positions_within(plot, n, j);
        } else {
            self.lemma_end_on_plot_edge(plot, true);
            self.lemma_end_on_plot_edge(plot, false);
        }
    }
}

impl AxisSpec {
    /// The coordinate of every tick within the plot is among the
    /// coordinates of the visible ticks.
    pub proof fn lemma_visible_tick_is_kept(&self, plot: Rect, k: int, i: int)
        requires
            0 <= i < k,
            self.tick_visible(plot, i),
        ensures
            exists|j: int|
                0 <= j < self.visible_positions(plot, k).len() && #[trigger] self.visible_positions(
                    plot,
                    k,
                )[j] == self.tick_position(plot, i),
        decreases k,
    {
        let kept = self.visible_positions(plot, k);
        if i == k - 1 {
            let j = kept.len() - 1;
            assert(0 <= j < kept.len() && kept[j] == self.tick_position(plot, i));
        } else {
            self.lemma_visible_tick_is_kept(plot, k - 1, i);
            let rest = self.visible_positions(plot, k - 1);
            let j = choose|j: int|
                0 <= j < rest.len() && #[trigger] rest[j] == self.tick_position(plot, i);
            assert(0 <= j < kept.len() && kept[j] == self.tick_position(plot, i));
        }
    }

    /// The grid of a continuous scale reaches the ends of the domain: there
    /// is a gridline at the coordinate of either end, whether or not a tick
    /// falls on it.
    pub proof fn lemma_grid_reaches_domain_ends(&self, plot: Rect, first: bool)
        requires
            self.scale.is_continuous(),
        ensures
            exists|j: int|
                0 <= j < self.grid_positions_of(plot).len() && #[trigger] self.grid_positions_of(
                    plot,
                )[j] == self.end_position(plot, first),
    {
        let n = self.tick_values_of().len() as int;
        let kept = self.visible_positions(plot, n);
        let grid = self.grid_positions_of(plot);
        let end = self.end_position(plot, first);
        let at_first = self.end_position(plot, true);
        let at_second = self.end_position(plot, false);
        if self.has_visible_tick(plot, end, n) {
            let i = choose|i: int| 0 <= i < n && self.visible_tick_at(plot, end, i);
            self.lemma_visible_tick_is_kept(plot, n, i);
            let j = choose|j: int|
                0 <= j < kept.len() && #[trigger] kept[j] == self.tick_position(plot, i);
            assert(0 <= j < grid.len() && grid[j] == end);
        } else {
            let first_missing = !self.has_visible_tick(plot, at_first, n);
            if first {
                let j = kept.len() as int;
                assert(0 <= j < grid.len() && grid[j] == end);
            } else if first_missing && at_second == at_first {
                let j = kept.len() as int;
                assert(0 <= j < grid.len() && grid[j] == end);
            } else {
                let j = grid.len() - 1;
                assert(0 <= j < grid.len() && grid[j] == end);
            }
        }
    }

    /// Whether the scale is continuous and its domain proper: its two ends
    /// differ, and on a log scale both are positive and their logarithms
    /// differ.
    pub open spec fn proper_domain(&self) -> bool {
        match self.scale {
            ScaleSpec::Linear(s) => s.resolved(self.tick_count as int).0 != s.resolved(
                self.tick_count as int,
            ).1,
            ScaleSpec::Log(s) => s.domain.0 > 0 && s.domain.1 > 0 && s.log_domain.0
                != s.log_domain.1,
            ScaleSpec::Time(s) => s.domain.0 != s.domain.1,
            _ => false,
        }
    }

    /// The ends of a proper domain sit on the ends of the range: the first
    /// on the first and the second on the second.
    pub proof fn lemma_ends_on_range_ends(&self, plot: Rect)
        requires
            self.proper_domain(),
        ensures
            self.end_position(plot, true) == self.range_for(plot).0,
            self.end_position(plot, false) == self.range_for(plot).1,
    {
        let range = self.range_for(plot);
        match self.scale {
            ScaleSpec::Linear(s) => {
                let d = s.resolved(self.tick_count as int);
                crate::fixed::lemma_interpolate_ends(d.0, d.1, range.0 as int, range.1 as int);
            },
            ScaleSpec::Log(s) => {
                crate::fixed::lemma_interpolate_ends(
                    s.log_domain.0 as int,
                    s.log_domain.1 as int,
                    range.0 as int,
                    range.1 as int,
                );
            },
            ScaleSpec::Time(s) => {
                crate::fixed::lemma_interpolate_ends(
                    s.domain.0 as int,
                    s.domain.1 as int,
                    range.0 as int,
                    range.1 as int,
                );
            },
            _ => {},
        }
    }

    /// The gridlines of a continuous scale with a proper domain lie on both
    /// edges of the plot across the axis: there is a gridline at either end
    /// of the range.
    pub proof fn lemma_grid_on_both_plot_edges(&self, plot: Rect)
        requires
            self.proper_domain(),
        ensures
            exists|j: int|
                0 <= j < self.grid_positions_of(plot).len() && #[trigger] self.grid_positions_of(
                    plot,
                )[j] == self.range_for(plot).0,
            exists|j: int|
                0 <= j < self.grid_positions_of(plot).len() && #[trigger] self.grid_positions_of(
                    plot,
                )[j] == self.range_for(plot).1,
    {
        self.lemma_ends_on_range_ends(plot);
        self.lemma_grid_reaches_domain_ends(plot, true);
        self.lemma_grid_reaches_domain_ends(plot, false);
    }
}

} // verus!
