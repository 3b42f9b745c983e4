//! Legends: colour swatches with text labels.
//!
//! A legend specification is measured to learn its size, placed by the
//! chart layout, and arranged into one swatch and one label per item. Items
//! run top to bottom, then left to right into columns.

use vstd::prelude::*;
use crate::fixed::{
    Fixed,
    LIMIT,
    div_ceil,
    floor_div,
    in_range,
    lemma_floor_div_bounds,
    max_int,
    min_int,
    saturate,
    saturate_to_fixed,
};
use crate::layout::{Rect, Size};
use crate::mark::{
    Color,
    Mark,
    MarkModel,
    RectMark,
    RectModel,
    TextAnchor,
    TextBaseline,
    TextMark,
    TextModel,
    models,
};
use crate::text::{TextMeasurer, TextMetrics, all_measured, measure_pinned, measured};
use crate::z_order::{LEGEND_LABELS, LEGEND_SWATCHES};

verus! {

/// The smallest rectangle that contains both `a` and `b`.
pub open spec fn union_of(a: Rect, b: Rect) -> Rect {
    Rect {
        x0: min_int(a.x0 as int, b.x0 as int) as Fixed,
        y0: min_int(a.y0 as int, b.y0 as int) as Fixed,
        x1: max_int(a.x1 as int, b.x1 as int) as Fixed,
        y1: max_int(a.y1 as int, b.y1 as int) as Fixed,
    }
}

/// Returns the smallest rectangle that contains both `a` and `b`.
pub fn union_rect(a: Rect, b: Rect) -> (r: Rect)
    ensures
        r == union_of(a, b),
{
    Rect {
        x0: if a.x0 <= b.x0 {
            a.x0
        } else {
            b.x0
        },
        y0: if a.y0 <= b.y0 {
            a.y0
        } else {
            b.y0
        },
        x1: if a.x1 >= b.x1 {
            a.x1
        } else {
            b.x1
        },
        y1: if a.y1 >= b.y1 {
            a.y1
        } else {
            b.y1
        },
    }
}

/// The rectangle a text of width `w` and height `h` covers when it is set
/// at `(x, y)` with the given anchor and baseline, every edge pinned into
/// the range of a scalar.
///
/// The anchor places the text after, around or before `x`. A middle
/// baseline centers the text on `y`, a hanging one puts it below, and an
/// alphabetic or ideographic one above.
pub open spec fn text_bounds_of(
    x: int,
    y: int,
    w: int,
    h: int,
    anchor: TextAnchor,
    baseline: TextBaseline,
) -> Rect {
    let x0 = match anchor {
        TextAnchor::Start => x,
        TextAnchor::Middle => x - w / 2,
        TextAnchor::End => x - w,
    };
    let x1 = match anchor {
        TextAnchor::Start => x + w,
        TextAnchor::Middle => x - w / 2 + w,
        TextAnchor::End => x,
    };
    let y0 = match baseline {
        TextBaseline::Middle => y - h / 2,
        TextBaseline::Alphabetic | TextBaseline::Ideographic => y - h,
        TextBaseline::Hanging => y,
    };
    let y1 = match baseline {
        TextBaseline::Middle => y - h / 2 + h,
        TextBaseline::Alphabetic | TextBaseline::Ideographic => y,
        TextBaseline::Hanging => y + h,
    };
    Rect {
        x0: saturate(x0) as Fixed,
        y0: saturate(y0) as Fixed,
        x1: saturate(x1) as Fixed,
        y1: saturate(y1) as Fixed,
    }
}

/// Computes the rectangle a text covers.
pub fn text_bounds(
    x: Fixed,
    y: Fixed,
    size: (Fixed, Fixed),
    anchor: TextAnchor,
    baseline: TextBaseline,
) -> (r: Rect)
    ensures
        r == text_bounds_of(x as int, y as int, size.0 as int, size.1 as int, anchor, baseline),
{
    let x: i128 = x as i128;
    let y: i128 = y as i128;
    let w: i128 = size.0 as i128;
    let h: i128 = size.1 as i128;
    proof {
        lemma_floor_div_bounds(w as int, 2);
        lemma_floor_div_bounds(h as int, 2);
    }
    let half_w: i128 = floor_div(w, 2);
    let half_h: i128 = floor_div(h, 2);
    let (x0, x1): (i128, i128) = match anchor {
        TextAnchor::Start => (x, x + w),
        TextAnchor::Middle => (x - half_w, x - half_w + w),
        TextAnchor::End => (x - w, x),
    };
    let (y0, y1): (i128, i128) = match baseline {
        TextBaseline::Middle => (y - half_h, y - half_h + h),
        TextBaseline::Alphabetic | TextBaseline::Ideographic => (y - h, y),
        TextBaseline::Hanging => (y, y + h),
    };
    Rect {
        x0: saturate_to_fixed(x0),
        y0: saturate_to_fixed(y0),
        x1: saturate_to_fixed(x1),
        y1: saturate_to_fixed(y1),
    }
}

/// A legend item: a label and the paint of its swatch.
#[derive(Clone, Debug, PartialEq, Eq)]
pub struct LegendItem {
    /// The label shown next to the swatch.
    pub label: String,
    /// The swatch fill paint.
    pub fill: Color,
}

impl LegendItem {
    /// Convenience constructor for a swatch of a solid colour.
    pub fn solid(label: String, color: Color) -> (item: LegendItem)
        ensures
            item == (LegendItem { label, fill: color }),
    {
        LegendItem { label, fill: color }
    }
}

/// A positioned legend: a column grid of colour swatches with text labels.
#[derive(Clone, Debug, PartialEq, Eq)]
pub struct LegendSwatches {
    /// Stable-id base; each generated mark has a fixed offset from it.
    pub id_base: u64,
    /// Left edge of the legend.
    pub x: Fixed,
    /// Top edge of the legend.
    pub y: Fixed,
    /// Side of a swatch square.
    pub swatch_size: Fixed,
    /// Vertical gap between rows.
    pub row_gap: Fixed,
    /// Horizontal gap between swatch and label.
    pub label_dx: Fixed,
    /// Number of columns; zero counts as one.
    pub columns: usize,
    /// Horizontal gap between columns.
    pub column_gap: Fixed,
    /// Label font size.
    pub font_size: Fixed,
    /// Label paint.
    pub text_fill: Color,
    /// Items in display order.
    pub items: Vec<LegendItem>,
}

/// Whether every entry of `ms` lies within the accepted coordinate range.
pub open spec fn all_in_range(ms: Seq<TextMetrics>) -> bool {
    forall|i: int| 0 <= i < ms.len() ==> (#[trigger] ms[i]).in_range()
}

impl LegendSwatches {
    /// Whether the legend can be arranged: its scalars lie within the
    /// accepted coordinate range.
    pub open spec fn wf(&self) -> bool {
        &&& in_range(self.x as int)
        &&& in_range(self.y as int)
        &&& in_range(self.swatch_size as int)
        &&& in_range(self.row_gap as int)
        &&& in_range(self.label_dx as int)
        &&& in_range(self.column_gap as int)
        &&& in_range(self.font_size as int)
    }

    /// The number of rows in a full column: the items spread evenly over
    /// the columns, rounded up.
    pub open spec fn rows_per_column(&self) -> int {
        div_ceil(self.items@.len() as int, max_int(self.columns as int, 1))
    }

    /// The height of a row: that of the swatch or of the label, whichever
    /// is larger.
    pub open spec fn row_height(&self) -> int {
        max_int(self.swatch_size as int, self.font_size as int)
    }

    /// The distance from one column to the next: swatch, label offset and
    /// column gap. The width of the labels is not part of it.
    pub open spec fn column_stride(&self) -> int {
        self.swatch_size + self.label_dx + self.column_gap
    }

    /// The distance from one row to the next.
    pub open spec fn row_stride(&self) -> int {
        self.row_height() + self.row_gap
    }

    /// The left edge of the `i`-th item.
    pub open spec fn item_x(&self, i: int) -> int {
        saturate(self.x + (i / self.rows_per_column()) * self.column_stride())
    }

    /// The top edge of the `i`-th item.
    pub open spec fn item_y(&self, i: int) -> int {
        saturate(self.y + (i % self.rows_per_column()) * self.row_stride())
    }

    /// The top edge of the swatch of the `i`-th item, centered in its row.
    pub open spec fn swatch_y(&self, i: int) -> int {
        saturate(self.item_y(i) + (self.row_height() - self.swatch_size) / 2)
    }

    /// The position of the label of the `i`-th item: beside the swatch, on
    /// the middle of the row.
    pub open spec fn label_position(&self, i: int) -> (int, int) {
        (
            saturate(self.item_x(i) + self.swatch_size + self.label_dx),
            saturate(self.item_y(i) + self.row_height() / 2),
        )
    }

    /// The swatch of the `i`-th item.
    pub open spec fn swatch_mark(&self, i: int) -> MarkModel {
        MarkModel::Rect(
            RectModel {
                id: self.id_base.wrapping_add(i as u64),
                z_index: LEGEND_SWATCHES,
                x: self.item_x(i),
                y: self.swatch_y(i),
                w: self.swatch_size as int,
                h: self.swatch_size as int,
                fill: self.items@[i].fill,
            },
        )
    }

    /// The label of the `i`-th item.
    pub open spec fn label_mark(&self, i: int) -> MarkModel {
        MarkModel::Text(
            TextModel {
                id: self.id_base.wrapping_add(1_000).wrapping_add(i as u64),
                z_index: LEGEND_LABELS,
                x: self.label_position(i).0,
                y: self.label_position(i).1,
                text: self.items@[i].label@,
                anchor: TextAnchor::Start,
                baseline: TextBaseline::Middle,
                angle: 0,
                font_size: self.font_size as int,
                fill: self.text_fill,
            },
        )
    }

    /// The marks of the legend: for every item its swatch, then its label.
    pub open spec fn marks_of(&self) -> Seq<MarkModel> {
        Seq::new(
            2 * self.items@.len(),
            |k: int|
                if k % 2 == 0 {
                    self.swatch_mark(k / 2)
                } else {
                    self.label_mark(k / 2)
                },
        )
    }

    /// The rectangle the `i`-th item covers, given the metrics of its
    /// label: its swatch together with its label.
    pub open spec fn item_bounds(&self, i: int, m: TextMetrics) -> Rect {
        union_of(
            Rect {
                x0: self.item_x(i) as Fixed,
                y0: self.swatch_y(i) as Fixed,
                x1: saturate(self.item_x(i) + self.swatch_size) as Fixed,
                y1: saturate(self.swatch_y(i) + self.swatch_size) as Fixed,
            },
            text_bounds_of(
                self.label_position(i).0,
                self.label_position(i).1,
                m.advance_width as int,
                m.line_height_of(),
                TextAnchor::Start,
                TextBaseline::Middle,
            ),
        )
    }

    /// The rectangle the first `k` items cover, given the metrics of their
    /// labels; for no items, the empty rectangle at the origin of the legend.
    pub open spec fn bounds_of(&self, ms: Seq<TextMetrics>, k: int) -> Rect
        decreases k,
    {
        if k <= 0 {
            Rect { x0: self.x, y0: self.y, x1: self.x, y1: self.y }
        } else if k == 1 {
            self.item_bounds(0, ms[0])
        } else {
            union_of(self.bounds_of(ms, k - 1), self.item_bounds(k - 1, ms[k - 1]))
        }
    }

    /// The placement of the `i`-th item: `(x, swatch_y, label_x, label_y)`.
    fn place(&self, i: usize) -> (p: (Fixed, Fixed, Fixed, Fixed))
        requires
            self.wf(),
            i < self.items@.len(),
        ensures
            p.0 == self.item_x(i as int),
            p.1 == self.swatch_y(i as int),
            p.2 == self.label_position(i as int).0,
            p.3 == self.label_position(i as int).1,
    {
        let columns: i128 = if self.columns == 0 {
            1
        } else {
            self.columns as i128
        };
        let len: i128 = self.items.len() as i128;
        proof {
            lemma_floor_div_bounds(-(len as int), columns as int);
            vstd::arithmetic::div_mod::lemma_fundamental_div_mod(-(len as int), columns as int);
            vstd::arithmetic::div_mod::lemma_mod_bound(-(len as int), columns as int);
        }
        let rows: i128 = -floor_div(-len, columns);
        assert(rows >= 1) by {
            if rows <= 0 {
                let g = (-(len as int)) / (columns as int);
                assert(columns * g >= 0) by (nonlinear_arith)
                    requires
                        g >= 0,
                        columns >= 1,
                ;
            }
        }
        proof {
            lemma_floor_div_bounds(i as int, rows as int);
            vstd::arithmetic::div_mod::lemma_mod_bound(i as int, rows as int);
        }
        let col: i128 = floor_div(i as i128, rows);
        let row: i128 = (i as i128) % rows;
        let row_height: i128 = if self.swatch_size >= self.font_size {
            self.swatch_size as i128
        } else {
            self.font_size as i128
        };
        let column_stride: i128 = self.swatch_size as i128 + self.label_dx as i128
            + self.column_gap as i128;
        let row_stride: i128 = row_height + self.row_gap as i128;
        assert(-0x1_0000_0000_0000_0000 * (3 * LIMIT) <= col * column_stride
            <= 0x1_0000_0000_0000_0000 * (3 * LIMIT)) by (nonlinear_arith)
            requires
                0 <= col < 0x1_0000_0000_0000_0000,
                -3 * LIMIT <= column_stride <= 3 * LIMIT,
        ;
        assert(-0x1_0000_0000_0000_0000 * (2 * LIMIT) <= row * row_stride
            <= 0x1_0000_0000_0000_0000 * (2 * LIMIT)) by (nonlinear_arith)
            requires
                0 <= row < 0x1_0000_0000_0000_0000,
                -2 * LIMIT <= row_stride <= 2 * LIMIT,
        ;
        let x: Fixed = saturate_to_fixed(self.x as i128 + col * column_stride);
        let y: Fixed = saturate_to_fixed(self.y as i128 + row * row_stride);
        proof {
            lemma_floor_div_bounds(row_height - self.swatch_size, 2);
            lemma_floor_div_bounds(row_height as int, 2);
        }
        let swatch_y: Fixed = saturate_to_fixed(
            y as i128 + floor_div(row_height - self.swatch_size as i128, 2),
        );
        let label_x: Fixed = saturate_to_fixed(
            x as i128 + self.swatch_size as i128 + self.label_dx as i128,
        );
        let label_y: Fixed = saturate_to_fixed(y as i128 + floor_div(row_height, 2));
        (x, swatch_y, label_x, label_y)
    }

    /// Generates the legend marks: a swatch and a label per item.
    pub fn marks(&self) -> (marks: Vec<Mark>)
        requires
            self.wf(),
        ensures
            models(marks@) == self.marks_of(),
    {
        let mut out: Vec<Mark> = Vec::new();
        let mut i: usize = 0;
        while i < self.items.len()
            invariant
                0 <= i <= self.items@.len(),
                self.wf(),
                out@.len() == 2 * i,
                forall|k: int|
                    0 <= k < 2 * i ==> (#[trigger] out@[k])@ == (if k % 2 == 0 {
                        self.swatch_mark(k / 2)
                    } else {
                        self.label_mark(k / 2)
                    }),
            decreases self.items@.len() - i,
        {
            let (x, swatch_y, label_x, label_y) = self.place(i);
            let item = &self.items[i];
            out.push(
                Mark::Rect(
                    RectMark {
                        id: self.id_base.wrapping_add(i as u64),
                        z_index: LEGEND_SWATCHES,
                        x,
                        y: swatch_y,
                        w: self.swatch_size,
                        h: self.swatch_size,
                        fill: item.fill,
                    },
                ),
            );
            out.push(
                Mark::Text(
                    TextMark {
                        id: self.id_base.wrapping_add(1_000).wrapping_add(i as u64),
                        z_index: LEGEND_LABELS,
                        x: label_x,
                        y: label_y,
                        text: item.label.clone(),
                        anchor: TextAnchor::Start,
                        baseline: TextBaseline::Middle,
                        angle: 0,
                        font_size: self.font_size,
                        fill: self.text_fill,
                    },
                ),
            );
            i = i + 1;
        }
        assert(models(out@) =~= self.marks_of());
        out
    }

    /// Computes the rectangle the legend covers from the metrics of its
    /// labels, one per item.
    pub fn bounds_with_metrics(&self, label_metrics: &Vec<TextMetrics>) -> (bounds: Rect)
        requires
            self.wf(),
            label_metrics@.len() == self.items@.len(),
            all_in_range(label_metrics@),
        ensures
            bounds == self.bounds_of(label_metrics@, self.items@.len() as int),
    {
        let mut bounds = Rect { x0: self.x, y0: self.y, x1: self.x, y1: self.y };
        let mut i: usize = 0;
        while i < self.items.len()
            invariant
                0 <= i <= self.items@.len(),
                self.wf(),
                label_metrics@.len() == self.items@.len(),
                all_in_range(label_metrics@),
                bounds == self.bounds_of(label_metrics@, i as int),
            decreases self.items@.len() - i,
        {
            let (x, swatch_y, label_x, label_y) = self.place(i);
            let m = &label_metrics[i];
            assert(m.in_range());
            let swatch = Rect {
                x0: x,
                y0: swatch_y,
                x1: saturate_to_fixed(x as i128 + self.swatch_size as i128),
                y1: saturate_to_fixed(swatch_y as i128 + self.swatch_size as i128),
            };
            let label = text_bounds(
                label_x,
                label_y,
                (m.advance_width, m.line_height()),
                TextAnchor::Start,
                TextBaseline::Middle,
            );
            let item = union_rect(swatch, label);
            bounds = if i == 0 {
                item
            } else {
                union_rect(bounds, item)
            };
            i = i + 1;
        }
        bounds
    }

    /// The labels of the items, in order.
    pub open spec fn labels(&self) -> Seq<Seq<char>> {
        Seq::new(self.items@.len(), |i: int| self.items@[i].label@)
    }

    /// Whether `bounds` is the rectangle the legend covers with `measurer`:
    /// the rectangle for metrics the measurer answers for the labels, each at
    /// the label font size and pinned into the accepted coordinate range.
    pub open spec fn covers<M: TextMeasurer>(&self, measurer: &M, bounds: Rect) -> bool {
        exists|ms: Seq<TextMetrics>|
            #![trigger self.bounds_of(ms, self.items@.len() as int)]
            all_measured(measurer, self.labels(), self.font_size, ms) && bounds == self.bounds_of(
                ms,
                self.items@.len() as int,
            )
    }

    /// Measures the label of every item.
    pub fn label_metrics<M: TextMeasurer>(&self, measurer: &M) -> (ms: Vec<TextMetrics>)
        requires
            self.wf(),
        ensures
            all_measured(measurer, self.labels(), self.font_size, ms@),
            all_in_range(ms@),
    {
        let mut ms: Vec<TextMetrics> = Vec::new();
        let mut i: usize = 0;
        while i < self.items.len()
            invariant
                0 <= i <= self.items@.len(),
                in_range(self.font_size as int),
                ms@.len() == i,
                forall|k: int|
                    0 <= k < i ==> measured(
                        measurer,
                        self.labels()[k],
                        self.font_size,
                        #[trigger] ms@[k],
                    ),
                all_in_range(ms@),
            decreases self.items@.len() - i,
        {
            let m = measure_pinned(measurer, self.items[i].label.as_str(), self.font_size);
            ms.push(m);
            i = i + 1;
        }
        ms
    }

    /// Estimates the rectangle the legend covers.
    pub fn bounds<M: TextMeasurer>(&self, measurer: &M) -> (bounds: Rect)
        requires
            self.wf(),
        ensures
            self.covers(measurer, bounds),
    {
        let ms = self.label_metrics(measurer);
        let bounds = self.bounds_with_metrics(&ms);
        assert(bounds == self.bounds_of(ms@, self.items@.len() as int));
        bounds
    }
}

/// An unpositioned legend specification.
///
/// It is measured to learn its size and positioned with
/// [`LegendSwatchesSpec::at`] once its origin is known.
#[derive(Clone, Debug, PartialEq, Eq)]
pub struct LegendSwatchesSpec {
    /// Stable-id base; each generated mark has a fixed offset from it.
    pub id_base: u64,
    /// Side of a swatch square.
    pub swatch_size: Fixed,
    /// Vertical gap between rows.
    pub row_gap: Fixed,
    /// Horizontal gap between swatch and label.
    pub label_dx: Fixed,
    /// Number of columns.
    pub columns: usize,
    /// Horizontal gap between columns.
    pub column_gap: Fixed,
    /// Label font size.
    pub font_size: Fixed,
    /// Label paint.
    pub text_fill: Color,
    /// Items in display order.
    pub items: Vec<LegendItem>,
}

impl LegendSwatchesSpec {
    /// Whether the legend can be measured and arranged: its scalars lie
    /// within the accepted coordinate range.
    pub open spec fn wf(&self) -> bool {
        &&& in_range(self.swatch_size as int)
        &&& in_range(self.row_gap as int)
        &&& in_range(self.label_dx as int)
        &&& in_range(self.column_gap as int)
        &&& in_range(self.font_size as int)
    }

    /// The legend positioned at `(x, y)`.
    pub open spec fn placed(&self, x: Fixed, y: Fixed) -> LegendSwatches {
        LegendSwatches {
            id_base: self.id_base,
            x,
            y,
            swatch_size: self.swatch_size,
            row_gap: self.row_gap,
            label_dx: self.label_dx,
            columns: self.columns,
            column_gap: self.column_gap,
            font_size: self.font_size,
            text_fill: self.text_fill,
            items: self.items,
        }
    }

    /// The size of the legend, given the metrics of its labels: the extent
    /// of the rectangle it covers at the origin, each side pinned into the
    /// range of a scalar.
    pub open spec fn size_of(&self, ms: Seq<TextMetrics>) -> Size {
        let b = self.placed(0, 0).bounds_of(ms, self.items@.len() as int);
        Size { width: saturate(b.x1 - b.x0) as Fixed, height: saturate(b.y1 - b.y0) as Fixed }
    }

    /// Creates a legend specification with the defaults: swatches of size
    /// ten, gaps of six, one column, a column gap of twelve, and black labels
    /// of size ten.
    pub fn new(id_base: u64, items: Vec<LegendItem>) -> (s: LegendSwatchesSpec)
        ensures
            s == (LegendSwatchesSpec {
                id_base,
                swatch_size: 10_000_000,
                row_gap: 6_000_000,
                label_dx: 6_000_000,
                columns: 1,
                column_gap: 12_000_000,
                font_size: 10_000_000,
                text_fill: Color::black(),
                items,
            }),
    {
        LegendSwatchesSpec {
            id_base,
            swatch_size: 10_000_000,
            row_gap: 6_000_000,
            label_dx: 6_000_000,
            columns: 1,
            column_gap: 12_000_000,
            font_size: 10_000_000,
            text_fill: Color { r: 0, g: 0, b: 0, a: 255 },
            items,
        }
    }

    /// Sets the label paint.
    pub fn with_text_fill(self, text_fill: Color) -> (s: LegendSwatchesSpec)
        ensures
            s == (LegendSwatchesSpec { text_fill, ..self }),
    {
        LegendSwatchesSpec { text_fill, ..self }
    }

    /// Sets the label font size.
    pub fn with_font_size(self, font_size: Fixed) -> (s: LegendSwatchesSpec)
        ensures
            s == (LegendSwatchesSpec { font_size, ..self }),
    {
        LegendSwatchesSpec { font_size, ..self }
    }

    /// Sets the swatch size.
    pub fn with_swatch_size(self, swatch_size: Fixed) -> (s: LegendSwatchesSpec)
        ensures
            s == (LegendSwatchesSpec { swatch_size, ..self }),
    {
        LegendSwatchesSpec { swatch_size, ..self }
    }

    /// Sets the number of columns; zero counts as one.
    pub fn with_columns(self, columns: usize) -> (s: LegendSwatchesSpec)
        ensures
            s == (LegendSwatchesSpec { columns: max_int(columns as int, 1) as usize, ..self }),
    {
        LegendSwatchesSpec {
            columns: if columns == 0 {
                1
            } else {
                columns
            },
            ..self
        }
    }

    /// Sets the gap between columns; a negative gap counts as zero.
    pub fn with_column_gap(self, column_gap: Fixed) -> (s: LegendSwatchesSpec)
        ensures
            s == (LegendSwatchesSpec { column_gap: max_int(column_gap as int, 0) as Fixed, ..self }),
    {
        LegendSwatchesSpec {
            column_gap: if column_gap < 0 {
                0
            } else {
                column_gap
            },
            ..self
        }
    }

    /// Creates the legend positioned at the given origin.
    pub fn at(&self, x: Fixed, y: Fixed) -> (legend: LegendSwatches)
        ensures
            legend.same_as(&self.placed(x, y)),
    {
        let mut items: Vec<LegendItem> = Vec::new();
        let mut i: usize = 0;
        while i < self.items.len()
            invariant
                0 <= i <= self.items@.len(),
                items@.len() == i,
                forall|k: int|
                    0 <= k < i ==> (#[trigger] items@[k]).fill == self.items@[k].fill
                        && items@[k].label@ == self.items@[k].label@,
            decreases self.items@.len() - i,
        {
            let item = &self.items[i];
            items.push(LegendItem { label: item.label.clone(), fill: item.fill });
            i = i + 1;
        }
        LegendSwatches {
            id_base: self.id_base,
            x,
            y,
            swatch_size: self.swatch_size,
            row_gap: self.row_gap,
            label_dx: self.label_dx,
            columns: self.columns,
            column_gap: self.column_gap,
            font_size: self.font_size,
            text_fill: self.text_fill,
            items,
        }
    }
}

impl LegendSwatches {
    /// Whether two legends are laid out alike: they agree in everything but
    /// the storage of their items, which hold the same labels and paints.
    pub open spec fn same_as(&self, other: &LegendSwatches) -> bool {
        &&& self.id_base == other.id_base
        &&& self.x == other.x
        &&& self.y == other.y
        &&& self.swatch_size == other.swatch_size
        &&& self.row_gap == other.row_gap
        &&& self.label_dx == other.label_dx
        &&& self.columns == other.columns
        &&& self.column_gap == other.column_gap
        &&& self.font_size == other.font_size
        &&& self.text_fill == other.text_fill
        &&& self.items@.len() == other.items@.len()
        &&& forall|i: int|
            0 <= i < self.items@.len() ==> (#[trigger] self.items@[i]).fill == other.items@[i].fill
                && self.items@[i].label@ == other.items@[i].label@
    }

    /// Legends that are laid out alike cover the same rectangle.
    pub proof fn lemma_same_bounds(&self, other: &LegendSwatches, ms: Seq<TextMetrics>, k: int)
        requires
            self.same_as(other),
        ensures
            self.bounds_of(ms, k) == other.bounds_of(ms, k),
        decreases k,
    {
        if k > 1 {
            self.lemma_same_bounds(other, ms, k - 1);
        }
    }

    /// Legends that are laid out alike have the same marks.
    pub proof fn lemma_same_marks(&self, other: &LegendSwatches)
        requires
            self.same_as(other),
        ensures
            self.marks_of() == other.marks_of(),
    {
        assert forall|k: int| 0 <= k < 2 * self.items@.len() implies self.marks_of()[k]
            == other.marks_of()[k] by {
            let i = k / 2;
            assert(0 <= i < self.items@.len());
            assert(self.items@[i].fill == other.items@[i].fill);
        }
        assert(self.marks_of() =~= other.marks_of());
    }
}

impl LegendSwatchesSpec {
    /// Computes the size of the legend from the metrics of its labels, one
    /// per item.
    pub fn measure_with_metrics(&self, label_metrics: &Vec<TextMetrics>) -> (size: Size)
        requires
            self.wf(),
            label_metrics@.len() == self.items@.len(),
            all_in_range(label_metrics@),
        ensures
            size == self.size_of(label_metrics@),
    {
        let legend = self.at(0, 0);
        proof {
            legend.lemma_same_bounds(
                &self.placed(0, 0),
                label_metrics@,
                self.items@.len() as int,
            );
        }
        let b = legend.bounds_with_metrics(label_metrics);
        Size {
            width: saturate_to_fixed(b.x1 as i128 - b.x0 as i128),
            height: saturate_to_fixed(b.y1 as i128 - b.y0 as i128),
        }
    }

    /// Whether `size` is what the legend measures to with `measurer`: the
    /// size for metrics the measurer answers for the labels, each at the label
    /// font size and pinned into the accepted coordinate range.
    pub open spec fn measures<M: TextMeasurer>(&self, measurer: &M, size: Size) -> bool {
        exists|ms: Seq<TextMetrics>|
            #![trigger self.size_of(ms)]
            all_measured(measurer, self.placed(0, 0).labels(), self.font_size, ms) && size
                == self.size_of(ms)
    }

    /// Measures the size the legend asks for.
    pub fn measure<M: TextMeasurer>(&self, measurer: &M) -> (size: Size)
        requires
            self.wf(),
        ensures
            self.measures(measurer, size),
    {
        let legend = self.at(0, 0);
        let ms = legend.label_metrics(measurer);
        assert(legend.labels() =~= self.placed(0, 0).labels());
        let size = self.measure_with_metrics(&ms);
        assert(size == self.size_of(ms@));
        size
    }

    /// Generates the marks of the legend positioned at the given origin.
    pub fn marks(&self, x: Fixed, y: Fixed) -> (marks: Vec<Mark>)
        requires
            self.wf(),
            in_range(x as int),
            in_range(y as int),
        ensures
            models(marks@) == self.placed(x, y).marks_of(),
    {
        let legend = self.at(x, y);
        proof {
            legend.lemma_same_marks(&self.placed(x, y));
        }
        legend.marks()
    }
}

impl LegendSwatches {
    /// Returns whether the legend can be arranged.
    pub fn is_wf(&self) -> (r: bool)
        ensures
            r == self.wf(),
    {
        crate::fixed::is_in_range(self.x) && crate::fixed::is_in_range(self.y)
            && crate::fixed::is_in_range(self.swatch_size) && crate::fixed::is_in_range(
            self.row_gap,
        ) && crate::fixed::is_in_range(self.label_dx) && crate::fixed::is_in_range(
            self.column_gap,
        ) && crate::fixed::is_in_range(self.font_size)
    }
}

impl LegendSwatchesSpec {
    /// Returns whether the legend can be measured and arranged.
    pub fn is_wf(&self) -> (r: bool)
        ensures
            r == self.wf(),
    {
        crate::fixed::is_in_range(self.swatch_size) && crate::fixed::is_in_range(self.row_gap)
            && crate::fixed::is_in_range(self.label_dx) && crate::fixed::is_in_range(
            self.column_gap,
        ) && crate::fixed::is_in_range(self.font_size)
    }
}

} // verus!
