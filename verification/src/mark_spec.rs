//! Specifications of single marks: rules, rectangles and text.

use vstd::prelude::*;
use crate::fixed::Fixed;
use crate::layout::Rect;
use crate::mark::{
    Color,
    Mark,
    MarkModel,
    RectMark,
    RectModel,
    RuleMark,
    RuleModel,
    TextAnchor,
    TextBaseline,
    TextMark,
    TextModel,
};
use crate::z_order::{SERIES_FILL, SERIES_STROKE, TITLES};

verus! {

/// A rule mark specification: a stroked line segment.
#[derive(Clone, Copy, Debug, PartialEq, Eq, Structural)]
pub struct RuleMarkSpec {
    /// Stable mark id.
    pub id: u64,
    /// Start point, x.
    pub x0: Fixed,
    /// Start point, y.
    pub y0: Fixed,
    /// End point, x.
    pub x1: Fixed,
    /// End point, y.
    pub y1: Fixed,
    /// Stroke paint.
    pub stroke: Color,
    /// Stroke width.
    pub stroke_width: Fixed,
    /// Paint order.
    pub z_index: i32,
}

impl RuleMarkSpec {
    /// Creates a rule between two points, with a transparent stroke one
    /// unit wide, painted with the series strokes.
    pub fn new(id: u64, x0: Fixed, y0: Fixed, x1: Fixed, y1: Fixed) -> (s: RuleMarkSpec)
        ensures
            s == (RuleMarkSpec {
                id,
                x0,
                y0,
                x1,
                y1,
                stroke: Color { r: 0, g: 0, b: 0, a: 0 },
                stroke_width: 1_000_000,
                z_index: SERIES_STROKE,
            }),
    {
        RuleMarkSpec {
            id,
            x0,
            y0,
            x1,
            y1,
            stroke: Color { r: 0, g: 0, b: 0, a: 0 },
            stroke_width: 1_000_000,
            z_index: SERIES_STROKE,
        }
    }

    /// Creates a horizontal rule at `y` from `x0` to `x1`.
    pub fn horizontal(id: u64, y: Fixed, x0: Fixed, x1: Fixed) -> (s: RuleMarkSpec)
        ensures
            s == (RuleMarkSpec {
                id,
                x0,
                y0: y,
                x1,
                y1: y,
                stroke: Color { r: 0, g: 0, b: 0, a: 0 },
                stroke_width: 1_000_000,
                z_index: SERIES_STROKE,
            }),
    {
        RuleMarkSpec::new(id, x0, y, x1, y)
    }

    /// Creates a vertical rule at `x` from `y0` to `y1`.
    pub fn vertical(id: u64, x: Fixed, y0: Fixed, y1: Fixed) -> (s: RuleMarkSpec)
        ensures
            s == (RuleMarkSpec {
                id,
                x0: x,
                y0,
                x1: x,
                y1,
                stroke: Color { r: 0, g: 0, b: 0, a: 0 },
                stroke_width: 1_000_000,
                z_index: SERIES_STROKE,
            }),
    {
        RuleMarkSpec::new(id, x, y0, x, y1)
    }

    /// Sets stroke paint and width.
    pub fn with_stroke(self, stroke: Color, stroke_width: Fixed) -> (s: RuleMarkSpec)
        ensures
            s == (RuleMarkSpec { stroke, stroke_width, ..self }),
    {
        RuleMarkSpec { stroke, stroke_width, ..self }
    }

    /// Sets the paint order.
    pub fn with_z_index(self, z_index: i32) -> (s: RuleMarkSpec)
        ensures
            s == (RuleMarkSpec { z_index, ..self }),
    {
        RuleMarkSpec { z_index, ..self }
    }

    /// Generates the rule mark.
    pub fn mark(&self) -> (m: Mark)
        ensures
            m@ == MarkModel::Rule(
                RuleModel {
                    id: self.id,
                    z_index: self.z_index,
                    x0: self.x0 as int,
                    y0: self.y0 as int,
                    x1: self.x1 as int,
                    y1: self.y1 as int,
                    stroke: self.stroke,
                    stroke_width: self.stroke_width as int,
                },
            ),
    {
        Mark::Rule(
            RuleMark {
                id: self.id,
                z_index: self.z_index,
                x0: self.x0,
                y0: self.y0,
                x1: self.x1,
                y1: self.y1,
                stroke: self.stroke,
                stroke_width: self.stroke_width,
            },
        )
    }
}

/// A rectangle mark specification.
#[derive(Clone, Copy, Debug, PartialEq, Eq, Structural)]
pub struct RectMarkSpec {
    /// Stable mark id.
    pub id: u64,
    /// Rectangle geometry.
    pub rect: Rect,
    /// Fill paint.
    pub fill: Color,
    /// Paint order.
    pub z_index: i32,
}

impl RectMarkSpec {
    /// Creates a rectangle mark specification with a transparent fill,
    /// painted with the series fills.
    pub fn new(id: u64, rect: Rect) -> (s: RectMarkSpec)
        ensures
            s == (RectMarkSpec {
                id,
                rect,
                fill: Color { r: 0, g: 0, b: 0, a: 0 },
                z_index: SERIES_FILL,
            }),
    {
        RectMarkSpec { id, rect, fill: Color { r: 0, g: 0, b: 0, a: 0 }, z_index: SERIES_FILL }
    }

    /// Sets the fill paint.
    pub fn with_fill(self, fill: Color) -> (s: RectMarkSpec)
        ensures
            s == (RectMarkSpec { fill, ..self }),
    {
        RectMarkSpec { fill, ..self }
    }

    /// Sets the paint order.
    pub fn with_z_index(self, z_index: i32) -> (s: RectMarkSpec)
        ensures
            s == (RectMarkSpec { z_index, ..self }),
    {
        RectMarkSpec { z_index, ..self }
    }

    /// Generates the mark: the corner of the rectangle with its signed width
    /// and height.
    pub fn mark(&self) -> (m: Mark)
        requires
            self.rect.in_range(),
        ensures
            m@ == MarkModel::Rect(
                RectModel {
                    id: self.id,
                    z_index: self.z_index,
                    x: self.rect.x0 as int,
                    y: self.rect.y0 as int,
                    w: self.rect.x1 - self.rect.x0,
                    h: self.rect.y1 - self.rect.y0,
                    fill: self.fill,
                },
            ),
    {
        Mark::Rect(
            RectMark {
                id: self.id,
                z_index: self.z_index,
                x: self.rect.x0,
                y: self.rect.y0,
                w: self.rect.width(),
                h: self.rect.height(),
                fill: self.fill,
            },
        )
    }
}

/// A text mark specification.
#[derive(Clone, Debug, PartialEq, Eq)]
pub struct TextMarkSpec {
    /// Stable mark id.
    pub id: u64,
    /// Anchor position, x.
    pub x: Fixed,
    /// Anchor position, y.
    pub y: Fixed,
    /// Text content.
    pub text: String,
    /// Font size.
    pub font_size: Fixed,
    /// Rotation in degrees.
    pub angle: Fixed,
    /// Horizontal anchor.
    pub anchor: TextAnchor,
    /// Vertical baseline.
    pub baseline: TextBaseline,
    /// Fill paint.
    pub fill: Color,
    /// Paint order.
    pub z_index: i32,
}

impl TextMarkSpec {
    /// Creates a text mark specification with the default styling: size
    /// twelve, unrotated, starting at its position on a middle baseline, with
    /// a transparent fill, painted with the chart titles.
    pub fn new(id: u64, x: Fixed, y: Fixed, text: String) -> (s: TextMarkSpec)
        ensures
            s == (TextMarkSpec {
                id,
                x,
                y,
                text,
                font_size: 12_000_000,
                angle: 0,
                anchor: TextAnchor::Start,
                baseline: TextBaseline::Middle,
                fill: Color { r: 0, g: 0, b: 0, a: 0 },
                z_index: TITLES,
            }),
    {
        TextMarkSpec {
            id,
            x,
            y,
            text,
            font_size: 12_000_000,
            angle: 0,
            anchor: TextAnchor::Start,
            baseline: TextBaseline::Middle,
            fill: Color { r: 0, g: 0, b: 0, a: 0 },
            z_index: TITLES,
        }
    }

    /// Sets the font size.
    pub fn with_font_size(self, font_size: Fixed) -> (s: TextMarkSpec)
        ensures
            s == (TextMarkSpec { font_size, ..self }),
    {
        TextMarkSpec { font_size, ..self }
    }

    /// Sets the fill paint.
    pub fn with_fill(self, fill: Color) -> (s: TextMarkSpec)
        ensures
            s == (TextMarkSpec { fill, ..self }),
    {
        TextMarkSpec { fill, ..self }
    }

    /// Sets the text anchor.
    pub fn with_anchor(self, anchor: TextAnchor) -> (s: TextMarkSpec)
        ensures
            s == (TextMarkSpec { anchor, ..self }),
    {
        TextMarkSpec { anchor, ..self }
    }

    /// Sets the text baseline.
    pub fn with_baseline(self, baseline: TextBaseline) -> (s: TextMarkSpec)
        ensures
            s == (TextMarkSpec { baseline, ..self }),
    {
        TextMarkSpec { baseline, ..self }
    }

    /// Sets the rotation in degrees.
    pub fn with_angle(self, angle: Fixed) -> (s: TextMarkSpec)
        ensures
            s == (TextMarkSpec { angle, ..self }),
    {
        TextMarkSpec { angle, ..self }
    }

    /// Sets the paint order.
    pub fn with_z_index(self, z_index: i32) -> (s: TextMarkSpec)
        ensures
            s == (TextMarkSpec { z_index, ..self }),
    {
        TextMarkSpec { z_index, ..self }
    }

    /// Generates the mark.
    pub fn mark(&self) -> (m: Mark)
        ensures
            m@ == MarkModel::Text(
                TextModel {
                    id: self.id,
                    z_index: self.z_index,
                    x: self.x as int,
                    y: self.y as int,
                    text: self.text@,
                    anchor: self.anchor,
                    baseline: self.baseline,
                    angle: self.angle as int,
                    font_size: self.font_size as int,
                    fill: self.fill,
                },
            ),
    {
        Mark::Text(
            TextMark {
                id: self.id,
                z_index: self.z_index,
                x: self.x,
                y: self.y,
                text: self.text.clone(),
                anchor: self.anchor,
                baseline: self.baseline,
                angle: self.angle,
                font_size: self.font_size,
                fill: self.fill,
            },
        )
    }
}

} // verus!
