//! The view box of a list of marks: what they cover, with a margin.

use vstd::prelude::*;
use crate::fixed::{Fixed, floor_div, in_range, lemma_floor_div_bounds, max_int, min_int, saturate, saturate_to_fixed};
use crate::layout::Rect;
use crate::legend::{union_of, union_rect};
use crate::mark::{Mark, TextAnchor, TextBaseline};
use crate::text::{heuristic_metrics, heuristic_width, scale_by, scaled};

verus! {

/// The margin of a view box around what the marks cover: ten units.
pub const VIEW_MARGIN: Fixed = 10_000_000;

/// The rectangle a text of `chars` characters is estimated to cover when it
/// is set at `(x, y)` at `font_size`, every edge pinned into the range of a
/// scalar.
///
/// The text is as wide as the heuristic advance width and one font size
/// high. Its middle line sits on `y` for a middle baseline, three tenths of
/// the font size above it for an alphabetic and below it for a hanging
/// baseline, and two tenths above it for an ideographic one. The anchor
/// places the text after, around or before `x`.
pub open spec fn text_estimate(
    x: int,
    y: int,
    font_size: Fixed,
    chars: nat,
    anchor: TextAnchor,
    baseline: TextBaseline,
) -> Rect {
    let width = heuristic_metrics(chars, font_size).advance_width as int;
    let half_height = font_size as int / 2;
    let middle = match baseline {
        TextBaseline::Middle => y,
        TextBaseline::Alphabetic => y - scaled(font_size as int, 3, 10),
        TextBaseline::Hanging => y + scaled(font_size as int, 3, 10),
        TextBaseline::Ideographic => y - scaled(font_size as int, 2, 10),
    };
    let x0 = match anchor {
        TextAnchor::Start => x,
        TextAnchor::Middle => x - width / 2,
        TextAnchor::End => x - width,
    };
    let x1 = match anchor {
        TextAnchor::Start => x + width,
        TextAnchor::Middle => x + width / 2,
        TextAnchor::End => x,
    };
    Rect {
        x0: saturate(x0) as Fixed,
        y0: saturate(middle - half_height) as Fixed,
        x1: saturate(x1) as Fixed,
        y1: saturate(middle + half_height) as Fixed,
    }
}

/// The rectangle a mark covers: the span of the end points of a rule, the
/// rectangle of a rectangle mark, and the estimate for a text. A text whose
/// font size lies outside the accepted coordinate range has none.
pub open spec fn bounds_of(mark: Mark) -> Option<Rect> {
    match mark {
        Mark::Rule(r) => Some(
            Rect {
                x0: min_int(r.x0 as int, r.x1 as int) as Fixed,
                y0: min_int(r.y0 as int, r.y1 as int) as Fixed,
                x1: max_int(r.x0 as int, r.x1 as int) as Fixed,
                y1: max_int(r.y0 as int, r.y1 as int) as Fixed,
            },
        ),
        Mark::Rect(r) => Some(
            Rect {
                x0: r.x,
                y0: r.y,
                x1: saturate(r.x + r.w) as Fixed,
                y1: saturate(r.y + r.h) as Fixed,
            },
        ),
        Mark::Text(t) => if in_range(t.font_size as int) {
            Some(
                text_estimate(
                    t.x as int,
                    t.y as int,
                    t.font_size,
                    t.text@.len(),
                    t.anchor,
                    t.baseline,
                ),
            )
        } else {
            None
        },
    }
}

/// What the first `k` marks cover together: nothing for no marks and
/// nothing as soon as one of them covers nothing.
pub open spec fn covered(marks: Seq<Mark>, k: int) -> Option<Rect>
    decreases k,
{
    if k <= 0 {
        None
    } else if k == 1 {
        bounds_of(marks[0])
    } else {
        match (covered(marks, k - 1), bounds_of(marks[k - 1])) {
            (Some(a), Some(b)) => Some(union_of(a, b)),
            _ => None,
        }
    }
}

/// A rectangle widened by the view margin on every side, every edge pinned
/// into the range of a scalar.
pub open spec fn widened(r: Rect) -> Rect {
    Rect {
        x0: saturate(r.x0 - VIEW_MARGIN) as Fixed,
        y0: saturate(r.y0 - VIEW_MARGIN) as Fixed,
        x1: saturate(r.x1 + VIEW_MARGIN) as Fixed,
        y1: saturate(r.y1 + VIEW_MARGIN) as Fixed,
    }
}

/// The view box of a list of marks: what they cover together, widened by
/// the view margin.
pub open spec fn view_box_of(marks: Seq<Mark>) -> Option<Rect> {
    match covered(marks, marks.len() as int) {
        Some(r) => Some(widened(r)),
        None => None,
    }
}

/// Some mark among the first `k` covers nothing exactly when what they cover
/// together is nothing, as long as there is a mark at all.
pub proof fn lemma_covered_is_some(marks: Seq<Mark>, k: int)
    requires
        1 <= k <= marks.len(),
    ensures
        covered(marks, k) is Some <==> forall|i: int| 0 <= i < k ==> bounds_of(#[trigger] marks[i]) is Some,
    decreases k,
{
    if k > 1 {
        lemma_covered_is_some(marks, k - 1);
    }
}

/// Estimates the rectangle a text covers.
pub fn estimate_text_bounds_anchored(
    x: Fixed,
    y: Fixed,
    font_size: Fixed,
    anchor: TextAnchor,
    baseline: TextBaseline,
    text: &str,
) -> (r: Rect)
    requires
        in_range(font_size as int),
    ensures
        r == text_estimate(x as int, y as int, font_size, text@.len(), anchor, baseline),
{
    let width: i128 = heuristic_width(text, font_size) as i128;
    proof {
        lemma_floor_div_bounds(font_size as int, 2);
        lemma_floor_div_bounds(width as int, 2);
    }
    let half_height: i128 = floor_div(font_size as i128, 2);
    let half_width: i128 = floor_div(width, 2);
    let x: i128 = x as i128;
    let y: i128 = y as i128;
    let middle: i128 = match baseline {
        TextBaseline::Middle => y,
        TextBaseline::Alphabetic => y - scale_by(font_size as i128, 3, 10) as i128,
        TextBaseline::Hanging => y + scale_by(font_size as i128, 3, 10) as i128,
        TextBaseline::Ideographic => y - scale_by(font_size as i128, 2, 10) as i128,
    };
    let (x0, x1): (i128, i128) = match anchor {
        TextAnchor::Start => (x, x + width),
        TextAnchor::Middle => (x - half_width, x + half_width),
        TextAnchor::End => (x - width, x),
    };
    Rect {
        x0: saturate_to_fixed(x0),
        y0: saturate_to_fixed(middle - half_height),
        x1: saturate_to_fixed(x1),
        y1: saturate_to_fixed(middle + half_height),
    }
}

/// Returns the rectangle a mark covers, if it covers any.
pub fn mark_bounds(mark: &Mark) -> (r: Option<Rect>)
    ensures
        r == bounds_of(*mark),
{
    match mark {
        Mark::Rule(m) => Some(
            Rect {
                x0: if m.x0 <= m.x1 {
                    m.x0
                } else {
                    m.x1
                },
                y0: if m.y0 <= m.y1 {
                    m.y0
                } else {
                    m.y1
                },
                x1: if m.x0 >= m.x1 {
                    m.x0
                } else {
                    m.x1
                },
                y1: if m.y0 >= m.y1 {
                    m.y0
                } else {
                    m.y1
                },
            },
        ),
        Mark::Rect(m) => Some(
            Rect {
                x0: m.x,
                y0: m.y,
                x1: saturate_to_fixed(m.x as i128 + m.w as i128),
                y1: saturate_to_fixed(m.y as i128 + m.h as i128),
            },
        ),
        Mark::Text(m) => {
            if crate::fixed::is_in_range(m.font_size) {
                Some(
                    estimate_text_bounds_anchored(
                        m.x,
                        m.y,
                        m.font_size,
                        m.anchor,
                        m.baseline,
                        m.text.as_str(),
                    ),
                )
            } else {
                None
            }
        },
    }
}

/// Returns the view box of a list of marks: what they cover together,
/// widened by a margin of ten units.
///
/// There is no view box for an empty list, nor for a list with a text mark
/// whose font size lies outside the accepted coordinate range.
pub fn view_box(marks: &Vec<Mark>) -> (r: Option<Rect>)
    ensures
        r == view_box_of(marks@),
        r is Some <==> marks@.len() > 0 && forall|i: int|
            0 <= i < marks@.len() ==> bounds_of(#[trigger] marks@[i]) is Some,
{
    if marks.len() == 0 {
        return None;
    }
    proof {
        lemma_covered_is_some(marks@, marks@.len() as int);
    }
    let mut all: Option<Rect> = mark_bounds(&marks[0]);
    let mut i: usize = 1;
    while i < marks.len()
        invariant
            1 <= i <= marks@.len(),
            all == covered(marks@, i as int),
        decreases marks@.len() - i,
    {
        let next = mark_bounds(&marks[i]);
        all = match (all, next) {
            (Some(a), Some(b)) => Some(union_rect(a, b)),
            _ => None,
        };
        i = i + 1;
    }
    match all {
        Some(r) => Some(
            Rect {
                x0: saturate_to_fixed(r.x0 as i128 - VIEW_MARGIN as i128),
                y0: saturate_to_fixed(r.y0 as i128 - VIEW_MARGIN as i128),
                x1: saturate_to_fixed(r.x1 as i128 + VIEW_MARGIN as i128),
                y1: saturate_to_fixed(r.y1 as i128 + VIEW_MARGIN as i128),
            },
        ),
        None => None,
    }
}

} // verus!
