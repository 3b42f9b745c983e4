//! Chart titles.
//!
//! A title takes part in chart layout, where it reserves room above the
//! plot, and is arranged into one text mark, or two with a subtitle.

use vstd::prelude::*;
use crate::fixed::{Fixed, floor_div, in_range, lemma_floor_div_bounds};
use crate::layout::{Rect, nonneg};
use crate::mark::{Color, Mark, MarkModel, TextAnchor, TextBaseline, TextMark, TextModel, models};
use crate::text::{TextMeasurer, TextMetrics, measure_pinned, measured};
use crate::z_order::TITLES;

verus! {

/// A chart-level title.
#[derive(Clone, Debug, PartialEq, Eq)]
pub struct TitleSpec {
    /// Stable mark id.
    pub id: u64,
    /// Title text.
    pub text: String,
    /// Subtitle text.
    pub subtitle: Option<String>,
    /// Font size of the title.
    pub font_size: Fixed,
    /// Font size of the subtitle.
    pub subtitle_font_size: Fixed,
    /// Fill paint of the title.
    pub fill: Color,
    /// Fill paint of the subtitle.
    pub subtitle_fill: Color,
    /// Vertical padding around the title text, applied above and below.
    pub padding: Fixed,
    /// Vertical gap between the title and the subtitle.
    pub subtitle_gap: Fixed,
    /// Horizontal anchor within the title rectangle.
    pub anchor: TextAnchor,
    /// Vertical baseline within the title rectangle.
    pub baseline: TextBaseline,
    /// Paint order.
    pub z_index: i32,
}

impl TitleSpec {
    /// Whether the title can be measured and arranged: its scalars lie
    /// within the accepted coordinate range.
    pub open spec fn wf(&self) -> bool {
        &&& in_range(self.font_size as int)
        &&& in_range(self.subtitle_font_size as int)
        &&& in_range(self.padding as int)
        &&& in_range(self.subtitle_gap as int)
    }

    /// The thickness the title reserves, given the metrics of its title and
    /// subtitle: the padding above and below the line of the title, with a
    /// subtitle the gap and the line of the subtitle, and never less than
    /// zero.
    pub open spec fn thickness(&self, title: TextMetrics, subtitle: Option<TextMetrics>) -> int {
        nonneg(
            2 * nonneg(self.padding as int) + title.line_height_of() + (match self.subtitle {
                Some(_) => nonneg(self.subtitle_gap as int) + (match subtitle {
                    Some(s) => s.line_height_of(),
                    None => 0,
                }),
                None => 0,
            }),
        )
    }

    /// The horizontal position of the title within its rectangle: at the
    /// edge or the middle its anchor names.
    pub open spec fn anchor_x(&self, rect: Rect) -> int {
        match self.anchor {
            TextAnchor::Start => rect.x0 as int,
            TextAnchor::Middle => (rect.x0 + rect.x1) / 2,
            TextAnchor::End => rect.x1 as int,
        }
    }

    /// The title mark: half a line below the padding under the top of the
    /// rectangle.
    pub open spec fn title_mark(&self, rect: Rect, title: TextMetrics) -> MarkModel {
        MarkModel::Text(
            TextModel {
                id: self.id,
                z_index: self.z_index,
                x: self.anchor_x(rect),
                y: rect.y0 + nonneg(self.padding as int) + title.line_height_of() / 2,
                text: self.text@,
                anchor: self.anchor,
                baseline: self.baseline,
                angle: 0,
                font_size: self.font_size as int,
                fill: self.fill,
            },
        )
    }

    /// The subtitle mark: half a line below the gap under the line of the
    /// title.
    pub open spec fn subtitle_mark(
        &self,
        rect: Rect,
        text: Seq<char>,
        title: TextMetrics,
        subtitle: TextMetrics,
    ) -> MarkModel {
        MarkModel::Text(
            TextModel {
                id: self.id.wrapping_add(1),
                z_index: self.z_index,
                x: self.anchor_x(rect),
                y: rect.y0 + nonneg(self.padding as int) + title.line_height_of() + nonneg(
                    self.subtitle_gap as int,
                ) + subtitle.line_height_of() / 2,
                text,
                anchor: self.anchor,
                baseline: self.baseline,
                angle: 0,
                font_size: self.subtitle_font_size as int,
                fill: self.subtitle_fill,
            },
        )
    }

    /// The marks of the title within its rectangle: the title and, if there
    /// is one, the subtitle. A subtitle without metrics counts as one without
    /// height.
    pub open spec fn marks_of(&self, rect: Rect, title: TextMetrics, subtitle: Option<TextMetrics>) -> Seq<
        MarkModel,
    > {
        match self.subtitle {
            Some(text) => seq![
                self.title_mark(rect, title),
                self.subtitle_mark(
                    rect,
                    text@,
                    title,
                    match subtitle {
                        Some(s) => s,
                        None => TextMetrics { advance_width: 0, ascent: 0, descent: 0, leading: 0 },
                    },
                ),
            ],
            None => seq![self.title_mark(rect, title)],
        }
    }

    /// Creates a title with the default styling: size twelve, a subtitle
    /// size of eleven, transparent fills, a padding of six, a subtitle gap of
    /// two, anchored in the middle and painted with the chart titles.
    pub fn new(id: u64, text: String) -> (t: TitleSpec)
        ensures
            t == (TitleSpec {
                id,
                text,
                subtitle: None,
                font_size: 12_000_000,
                subtitle_font_size: 11_000_000,
                fill: Color { r: 0, g: 0, b: 0, a: 0 },
                subtitle_fill: Color { r: 0, g: 0, b: 0, a: 0 },
                padding: 6_000_000,
                subtitle_gap: 2_000_000,
                anchor: TextAnchor::Middle,
                baseline: TextBaseline::Middle,
                z_index: TITLES,
            }),
    {
        TitleSpec {
            id,
            text,
            subtitle: None,
            font_size: 12_000_000,
            subtitle_font_size: 11_000_000,
            fill: Color { r: 0, g: 0, b: 0, a: 0 },
            subtitle_fill: Color { r: 0, g: 0, b: 0, a: 0 },
            padding: 6_000_000,
            subtitle_gap: 2_000_000,
            anchor: TextAnchor::Middle,
            baseline: TextBaseline::Middle,
            z_index: TITLES,
        }
    }

    /// Sets the subtitle text.
    pub fn with_subtitle(self, subtitle: String) -> (t: TitleSpec)
        ensures
            t == (TitleSpec { subtitle: Some(subtitle), ..self }),
    {
        TitleSpec { subtitle: Some(subtitle), ..self }
    }

    /// Clears the subtitle text.
    pub fn without_subtitle(self) -> (t: TitleSpec)
        ensures
            t == (TitleSpec { subtitle: None, ..self }),
    {
        TitleSpec { subtitle: None, ..self }
    }

    /// Sets the font size.
    pub fn with_font_size(self, font_size: Fixed) -> (t: TitleSpec)
        ensures
            t == (TitleSpec { font_size, ..self }),
    {
        TitleSpec { font_size, ..self }
    }

    /// Sets the fill paint.
    pub fn with_fill(self, fill: Color) -> (t: TitleSpec)
        ensures
            t == (TitleSpec { fill, ..self }),
    {
        TitleSpec { fill, ..self }
    }

    /// Sets the subtitle fill paint.
    pub fn with_subtitle_fill(self, fill: Color) -> (t: TitleSpec)
        ensures
            t == (TitleSpec { subtitle_fill: fill, ..self }),
    {
        TitleSpec { subtitle_fill: fill, ..self }
    }

    /// Sets the subtitle font size.
    pub fn with_subtitle_font_size(self, font_size: Fixed) -> (t: TitleSpec)
        ensures
            t == (TitleSpec { subtitle_font_size: font_size, ..self }),
    {
        TitleSpec { subtitle_font_size: font_size, ..self }
    }

    /// Sets the gap between title and subtitle.
    pub fn with_subtitle_gap(self, gap: Fixed) -> (t: TitleSpec)
        ensures
            t == (TitleSpec { subtitle_gap: gap, ..self }),
    {
        TitleSpec { subtitle_gap: gap, ..self }
    }

    /// Sets the vertical padding.
    pub fn with_padding(self, padding: Fixed) -> (t: TitleSpec)
        ensures
            t == (TitleSpec { padding, ..self }),
    {
        TitleSpec { padding, ..self }
    }

    /// Computes the thickness the title reserves in chart layout from the
    /// metrics of its title and of its subtitle.
    pub fn measure_with_metrics(&self, title: TextMetrics, subtitle: Option<TextMetrics>) -> (h:
        Fixed)
        requires
            self.wf(),
            title.in_range(),
            subtitle matches Some(s) ==> s.in_range(),
        ensures
            h == self.thickness(title, subtitle),
    {
        let pad: Fixed = at_least_zero(self.padding);
        let mut total: Fixed = 2 * pad + title.line_height();
        if self.subtitle.is_some() {
            let sub_height: Fixed = match subtitle {
                Some(s) => s.line_height(),
                None => 0,
            };
            total = total + at_least_zero(self.subtitle_gap) + sub_height;
        }
        at_least_zero(total)
    }

    /// Whether `title` and `subtitle` are metrics `measurer` answers for the
    /// texts of this title, each at its font size and pinned into the accepted
    /// coordinate range. The subtitle has metrics exactly when there is one.
    pub open spec fn measured_texts<M: TextMeasurer>(
        &self,
        measurer: &M,
        title: TextMetrics,
        subtitle: Option<TextMetrics>,
    ) -> bool {
        &&& measured(measurer, self.text@, self.font_size, title)
        &&& match self.subtitle {
            Some(text) => subtitle matches Some(s) && measured(
                measurer,
                text@,
                self.subtitle_font_size,
                s,
            ),
            None => subtitle is None,
        }
    }

    /// Whether `h` is what the title measures to with `measurer`: the
    /// thickness for metrics the measurer answers.
    pub open spec fn measures<M: TextMeasurer>(&self, measurer: &M, h: Fixed) -> bool {
        exists|title: TextMetrics, subtitle: Option<TextMetrics>|
            #![trigger self.thickness(title, subtitle)]
            self.measured_texts(measurer, title, subtitle) && h == self.thickness(title, subtitle)
    }

    /// Whether `marks` is what the title is arranged into with `measurer`:
    /// the arrangement for metrics the measurer answers.
    pub open spec fn arranges<M: TextMeasurer>(
        &self,
        measurer: &M,
        rect: Rect,
        marks: Seq<MarkModel>,
    ) -> bool {
        exists|title: TextMetrics, subtitle: Option<TextMetrics>|
            #![trigger self.marks_of(rect, title, subtitle)]
            self.measured_texts(measurer, title, subtitle) && marks == self.marks_of(
                rect,
                title,
                subtitle,
            )
    }

    /// Measures the title and, if there is one, the subtitle.
    pub fn measure_texts<M: TextMeasurer>(&self, measurer: &M) -> (m: (
        TextMetrics,
        Option<TextMetrics>,
    ))
        requires
            self.wf(),
        ensures
            self.measured_texts(measurer, m.0, m.1),
            m.0.in_range(),
            m.1 matches Some(s) ==> s.in_range(),
    {
        let title = measure_pinned(measurer, self.text.as_str(), self.font_size);
        let subtitle = match &self.subtitle {
            Some(sub) => Some(measure_pinned(measurer, sub.as_str(), self.subtitle_font_size)),
            None => None,
        };
        (title, subtitle)
    }

    /// Returns the thickness the title reserves in chart layout.
    pub fn measure<M: TextMeasurer>(&self, measurer: &M) -> (h: Fixed)
        requires
            self.wf(),
        ensures
            h >= 0,
            self.measures(measurer, h),
    {
        let (title, subtitle) = self.measure_texts(measurer);
        let h = self.measure_with_metrics(title, subtitle);
        assert(h == self.thickness(title, subtitle));
        h
    }

    /// Arranges the title within its rectangle, given the metrics of its
    /// title and of its subtitle.
    pub fn marks_with_metrics(
        &self,
        title_rect: Rect,
        title: TextMetrics,
        subtitle: Option<TextMetrics>,
    ) -> (marks: Vec<Mark>)
        requires
            self.wf(),
            title_rect.in_range(),
            title.in_range(),
            subtitle matches Some(s) ==> s.in_range(),
        ensures
            models(marks@) == self.marks_of(title_rect, title, subtitle),
            marks@.len() == self.marks_of(title_rect, title, subtitle).len(),
    {
        proof {
            lemma_floor_div_bounds(title_rect.x0 + title_rect.x1, 2);
            lemma_floor_div_bounds(title.line_height_of(), 2);
        }
        let x: Fixed = match self.anchor {
            TextAnchor::Start => title_rect.x0,
            TextAnchor::Middle => floor_div(title_rect.x0 as i128 + title_rect.x1 as i128, 2) as i64,
            TextAnchor::End => title_rect.x1,
        };
        let pad: Fixed = at_least_zero(self.padding);
        let th: Fixed = title.line_height();
        let y_title: Fixed = title_rect.y0 + pad + floor_div(th as i128, 2) as i64;
        let mut out: Vec<Mark> = Vec::new();
        out.push(
            Mark::Text(
                TextMark {
                    id: self.id,
                    z_index: self.z_index,
                    x,
                    y: y_title,
                    text: self.text.clone(),
                    anchor: self.anchor,
                    baseline: self.baseline,
                    angle: 0,
                    font_size: self.font_size,
                    fill: self.fill,
                },
            ),
        );
        match &self.subtitle {
            Some(text) => {
                let sh: Fixed = match subtitle {
                    Some(s) => s.line_height(),
                    None => 0,
                };
                proof {
                    lemma_floor_div_bounds(sh as int, 2);
                }
                let y_sub: Fixed = title_rect.y0 + pad + th + at_least_zero(self.subtitle_gap)
                    + floor_div(sh as i128, 2) as i64;
                out.push(
                    Mark::Text(
                        TextMark {
                            id: self.id.wrapping_add(1),
                            z_index: self.z_index,
                            x,
                            y: y_sub,
                            text: text.clone(),
                            anchor: self.anchor,
                            baseline: self.baseline,
                            angle: 0,
                            font_size: self.subtitle_font_size,
                            fill: self.subtitle_fill,
                        },
                    ),
                );
            },
            None => {},
        }
        assert(models(out@) =~= self.marks_of(title_rect, title, subtitle));
        out
    }

    /// Arranges the title within its rectangle.
    pub fn marks<M: TextMeasurer>(&self, measurer: &M, title_rect: Rect) -> (marks: Vec<Mark>)
        requires
            self.wf(),
            title_rect.in_range(),
        ensures
            marks@.len() == (if self.subtitle is Some {
                2int
            } else {
                1int
            }),
            self.arranges(measurer, title_rect, models(marks@)),
    {
        let (title, subtitle) = self.measure_texts(measurer);
        let marks = self.marks_with_metrics(title_rect, title, subtitle);
        assert(models(marks@) == self.marks_of(title_rect, title, subtitle));
        marks
    }
}

/// A scalar with negative values replaced by zero.
fn at_least_zero(v: Fixed) -> (r: Fixed)
    ensures
        r == nonneg(v as int),
{
    if v < 0 {
        0
    } else {
        v
    }
}

impl TitleSpec {
    /// Returns whether the title can be measured and arranged.
    pub fn is_wf(&self) -> (r: bool)
        ensures
            r == self.wf(),
    {
        crate::fixed::is_in_range(self.font_size) && crate::fixed::is_in_range(
            self.subtitle_font_size,
        ) && crate::fixed::is_in_range(self.padding) && crate::fixed::is_in_range(
            self.subtitle_gap,
        )
    }
}

} // verus!
