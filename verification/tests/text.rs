use vizir_charts::text::{
    heuristic_width, FontFamily, FontStyle, FontWeight, HeuristicTextMeasurer, TextMeasurer,
    TextMetrics, TextStyle,
};

/// Converts a decimal number into a fixed-point scalar.
fn fx(v: f64) -> i64 {
    (v * 1_000_000.0).round() as i64
}

#[test]
fn css_family_names() {
    assert_eq!(FontFamily::Serif.as_css_family(), "serif");
    assert_eq!(FontFamily::SansSerif.as_css_family(), "sans-serif");
    assert_eq!(FontFamily::Monospace.as_css_family(), "monospace");
    assert_eq!(FontFamily::Named(String::from("Inter")).as_css_family(), "Inter");
}

#[test]
fn font_weights() {
    assert_eq!(FontWeight::normal(), FontWeight(400));
    assert_eq!(FontWeight::bold(), FontWeight(700));
    assert!(FontWeight::normal() < FontWeight::bold());
}

#[test]
fn default_text_style() {
    let style = TextStyle::new(fx(10.0));
    assert_eq!(style.font_size, fx(10.0));
    assert_eq!(style.font_family, FontFamily::SansSerif);
    assert_eq!(style.font_weight, FontWeight(400));
    assert_eq!(style.font_style, FontStyle::Normal);
    assert_eq!(TextStyle::default(), TextStyle::new(fx(12.0)));
}

#[test]
fn line_height_adds_up() {
    let m = TextMetrics {
        advance_width: fx(30.0),
        ascent: fx(8.0),
        descent: fx(2.0),
        leading: fx(1.5),
    };
    assert_eq!(m.line_height(), fx(11.5));
}

#[test]
fn heuristic_metrics_follow_the_font_size() {
    let m = HeuristicTextMeasurer.measure("hello", TextStyle::new(fx(10.0)));
    assert_eq!(
        m,
        TextMetrics {
            advance_width: fx(0.6 * 10.0 * 5.0),
            ascent: fx(8.0),
            descent: fx(2.0),
            leading: 0,
        }
    );
    assert_eq!(m.line_height(), fx(10.0));
    let empty = HeuristicTextMeasurer.measure("", TextStyle::new(fx(10.0)));
    assert_eq!(empty.advance_width, 0);
}

#[test]
fn heuristic_width_counts_characters_not_bytes() {
    assert_eq!(heuristic_width("abc", fx(10.0)), fx(18.0));
    assert_eq!(heuristic_width("äöü", fx(10.0)), fx(18.0));
    assert_eq!(heuristic_width("a", 1), 0);
    assert_eq!(heuristic_width("ab", 1), 1);
}

#[test]
fn heuristic_width_is_pinned_to_the_coordinate_limit() {
    let long = "x".repeat(1000);
    assert_eq!(
        heuristic_width(&long, 10_000_000_000_000_000),
        10_000_000_000_000_000
    );
}
