use vizir_charts::layout::Rect;
use vizir_charts::mark::{Mark, TextAnchor, TextBaseline};
use vizir_charts::mark_spec::{RectMarkSpec, RuleMarkSpec, TextMarkSpec};
use vizir_charts::view::{estimate_text_bounds_anchored, mark_bounds, view_box, VIEW_MARGIN};

/// Converts a decimal number into a fixed-point scalar.
fn fx(v: f64) -> i64 {
    (v * 1_000_000.0).round() as i64
}

fn rect(x0: f64, y0: f64, x1: f64, y1: f64) -> Rect {
    Rect::new(fx(x0), fx(y0), fx(x1), fx(y1))
}

fn text(x: f64, y: f64, size: i64, content: &str) -> Mark {
    TextMarkSpec::new(1, fx(x), fx(y), String::from(content))
        .with_font_size(size)
        .mark()
}

#[test]
fn text_estimate_follows_anchor_and_baseline() {
    let at = |anchor, baseline| {
        estimate_text_bounds_anchored(fx(100.0), fx(50.0), fx(10.0), anchor, baseline, "abcde")
    };
    // Five characters of 0.6 * 10 each, one font size high.
    assert_eq!(
        at(TextAnchor::Start, TextBaseline::Middle),
        rect(100.0, 45.0, 130.0, 55.0)
    );
    assert_eq!(
        at(TextAnchor::Middle, TextBaseline::Alphabetic),
        rect(85.0, 42.0, 115.0, 52.0)
    );
    assert_eq!(
        at(TextAnchor::End, TextBaseline::Hanging),
        rect(70.0, 48.0, 100.0, 58.0)
    );
    assert_eq!(
        at(TextAnchor::End, TextBaseline::Ideographic),
        rect(70.0, 43.0, 100.0, 53.0)
    );
}

#[test]
fn marks_cover_what_they_draw() {
    let rule = RuleMarkSpec::new(1, fx(9.0), fx(2.0), fx(4.0), fx(7.0)).mark();
    assert_eq!(mark_bounds(&rule), Some(rect(4.0, 2.0, 9.0, 7.0)));
    let bar = RectMarkSpec::new(2, rect(1.0, 2.0, 11.0, 5.0)).mark();
    assert_eq!(mark_bounds(&bar), Some(rect(1.0, 2.0, 11.0, 5.0)));
    assert_eq!(
        mark_bounds(&text(0.0, 0.0, fx(10.0), "ab")),
        Some(rect(0.0, -5.0, 12.0, 5.0))
    );
    assert_eq!(mark_bounds(&text(0.0, 0.0, i64::MAX, "ab")), None);
}

#[test]
fn view_box_is_the_union_with_a_margin_of_ten() {
    assert_eq!(VIEW_MARGIN, fx(10.0));
    let marks = vec![
        RuleMarkSpec::new(1, fx(0.0), fx(0.0), fx(100.0), fx(0.0)).mark(),
        RectMarkSpec::new(2, rect(20.0, -30.0, 40.0, 10.0)).mark(),
        text(90.0, 50.0, fx(10.0), "abcd"),
    ];
    assert_eq!(view_box(&marks), Some(rect(-10.0, -40.0, 124.0, 65.0)));
    assert_eq!(
        view_box(&marks[..1].to_vec()),
        Some(rect(-10.0, -10.0, 110.0, 10.0))
    );
}

#[test]
fn there_is_no_view_box_without_marks_or_with_an_unmeasurable_text() {
    assert_eq!(view_box(&Vec::new()), None);
    let marks = vec![
        RuleMarkSpec::new(1, 0, 0, 1, 1).mark(),
        text(0.0, 0.0, i64::MIN, "x"),
        RuleMarkSpec::new(2, 0, 0, 1, 1).mark(),
    ];
    assert_eq!(view_box(&marks), None);
}

#[test]
fn view_box_is_pinned_to_the_scalar_range() {
    let marks = vec![RuleMarkSpec::new(1, i64::MIN, 0, i64::MAX, 0).mark()];
    assert_eq!(
        view_box(&marks),
        Some(Rect::new(i64::MIN, -VIEW_MARGIN, i64::MAX, VIEW_MARGIN))
    );
}
