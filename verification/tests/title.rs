use vizir_charts::layout::Rect;
use vizir_charts::mark::{Color, Mark, TextAnchor, TextBaseline};
use vizir_charts::text::{HeuristicTextMeasurer, TextMetrics};
use vizir_charts::title::TitleSpec;
use vizir_charts::z_order::TITLES;

/// Converts a decimal number into a fixed-point scalar.
fn fx(v: f64) -> i64 {
    (v * 1_000_000.0).round() as i64
}

fn line(height: f64) -> TextMetrics {
    TextMetrics {
        advance_width: fx(40.0),
        ascent: fx(height * 0.8),
        descent: fx(height * 0.2),
        leading: 0,
    }
}

#[test]
fn subtitle_increases_measured_height_and_emits_two_marks() {
    let measurer = HeuristicTextMeasurer;
    let title = TitleSpec::new(10, String::from("Title"))
        .with_subtitle(String::from("Subtitle"))
        .with_font_size(fx(12.0))
        .with_subtitle_font_size(fx(10.0));

    let h = title.measure(&measurer);
    assert!(h > fx(12.0));

    let rect = Rect::new(fx(0.0), fx(0.0), fx(200.0), h);
    let marks = title.marks(&measurer, rect);
    assert_eq!(marks.len(), 2);
}

#[test]
fn title_defaults() {
    let title = TitleSpec::new(10, String::from("Title"));
    assert_eq!(title.font_size, fx(12.0));
    assert_eq!(title.subtitle_font_size, fx(11.0));
    assert_eq!(title.padding, fx(6.0));
    assert_eq!(title.subtitle_gap, fx(2.0));
    assert_eq!(title.anchor, TextAnchor::Middle);
    assert_eq!(title.baseline, TextBaseline::Middle);
    assert_eq!(title.z_index, TITLES);
    assert_eq!(title.fill, Color::rgba(0, 0, 0, 0));
    assert!(title.subtitle.is_none());
}

#[test]
fn title_thickness_adds_padding_lines_and_gap() {
    let title = TitleSpec::new(10, String::from("Title"));
    // 2 * 6 + 12
    assert_eq!(title.measure_with_metrics(line(12.0), None), fx(24.0));
    assert_eq!(title.measure(&HeuristicTextMeasurer), fx(24.0));
    let both = title.clone().with_subtitle(String::from("Sub"));
    // 2 * 6 + 12 + 2 + 11
    assert_eq!(both.measure_with_metrics(line(12.0), Some(line(11.0))), fx(37.0));
    assert_eq!(both.measure(&HeuristicTextMeasurer), fx(37.0));
    assert_eq!(both.without_subtitle().measure(&HeuristicTextMeasurer), fx(24.0));
    // Negative padding and gap count as zero.
    let tight = title
        .with_subtitle(String::from("Sub"))
        .with_padding(fx(-5.0))
        .with_subtitle_gap(fx(-1.0));
    assert_eq!(tight.measure_with_metrics(line(12.0), Some(line(11.0))), fx(23.0));
    // The thickness is never negative.
    assert_eq!(tight.measure_with_metrics(line(-100.0), None), 0);
}

#[test]
fn title_marks_are_placed_within_the_rectangle() {
    let title = TitleSpec::new(10, String::from("Title"))
        .with_subtitle(String::from("Sub"))
        .with_fill(Color::rgba(1, 2, 3, 255))
        .with_subtitle_fill(Color::rgba(4, 5, 6, 255));
    let rect = Rect::new(fx(10.0), fx(20.0), fx(210.0), fx(60.0));
    let marks = title.marks_with_metrics(rect, line(12.0), Some(line(11.0)));
    assert_eq!(marks.len(), 2);
    let Mark::Text(main) = &marks[0] else {
        panic!("expected a text mark");
    };
    assert_eq!(main.id, 10);
    assert_eq!(main.text, "Title");
    assert_eq!((main.x, main.y), (fx(110.0), fx(20.0 + 6.0 + 6.0)));
    assert_eq!(main.font_size, fx(12.0));
    assert_eq!(main.fill, Color::rgba(1, 2, 3, 255));
    assert_eq!(main.angle, 0);
    let Mark::Text(sub) = &marks[1] else {
        panic!("expected a text mark");
    };
    assert_eq!(sub.id, 11);
    assert_eq!(sub.text, "Sub");
    assert_eq!((sub.x, sub.y), (fx(110.0), fx(20.0 + 6.0 + 12.0 + 2.0 + 5.5)));
    assert_eq!(sub.font_size, fx(11.0));
    assert_eq!(sub.fill, Color::rgba(4, 5, 6, 255));
    assert_eq!(sub.z_index, TITLES);
}

#[test]
fn title_anchor_selects_the_edge() {
    let rect = Rect::new(fx(10.0), fx(0.0), fx(210.0), fx(40.0));
    let mut title = TitleSpec::new(u64::MAX, String::from("T")).with_subtitle(String::from("S"));
    title.anchor = TextAnchor::Start;
    let marks = title.marks_with_metrics(rect, line(12.0), None);
    let Mark::Text(main) = &marks[0] else {
        panic!("expected a text mark");
    };
    assert_eq!(main.x, fx(10.0));
    // The identity of the subtitle wraps.
    assert_eq!(marks[1].id(), 0);
    title.anchor = TextAnchor::End;
    let marks = title.marks_with_metrics(rect, line(12.0), None);
    let Mark::Text(main) = &marks[0] else {
        panic!("expected a text mark");
    };
    assert_eq!(main.x, fx(210.0));
}
