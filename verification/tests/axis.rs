use vizir_charts::axis::{Angle, AxisOrient, AxisSpec, GridStyle, StrokeStyle};
use vizir_charts::layout::Rect;
use vizir_charts::mark::{Color, Mark, TextAnchor, TextBaseline};
use vizir_charts::scale::{ScaleBandSpec, ScaleLinearSpec, ScaleLogSpec, ScalePointSpec, ScaleTimeSpec};
use vizir_charts::text::HeuristicTextMeasurer;
use vizir_charts::z_order::{AXIS_LABELS, AXIS_RULES, AXIS_TITLES, GRID_LINES};

/// Converts a decimal number into a fixed-point scalar.
fn fx(v: f64) -> i64 {
    (v * 1_000_000.0).round() as i64
}

fn rect(x0: f64, y0: f64, x1: f64, y1: f64) -> Rect {
    Rect::new(fx(x0), fx(y0), fx(x1), fx(y1))
}

fn angle(degrees: f64) -> Angle {
    let theta = degrees.to_radians();
    Angle::new(fx(degrees), fx(theta.sin()), fx(theta.cos()))
}

fn black() -> Color {
    Color::rgba(0, 0, 0, 255)
}

fn label_texts(marks: &[Mark]) -> Vec<String> {
    marks
        .iter()
        .filter_map(|m| match m {
            Mark::Text(t) => Some(t.text.clone()),
            _ => None,
        })
        .collect()
}

#[test]
fn axis_measure_respects_ticks_and_labels_toggles() {
    let measurer = HeuristicTextMeasurer;
    let axis = AxisSpec::left(1, ScaleLinearSpec::new((fx(0.0), fx(10.0)))).with_tick_count(3);

    let with_all = axis.measure(&measurer);
    let no_labels = axis.clone().with_labels(false).measure(&measurer);
    let no_ticks = axis.clone().with_ticks(false).measure(&measurer);
    let none = axis
        .clone()
        .with_ticks(false)
        .with_labels(false)
        .with_domain(false)
        .measure(&measurer);

    assert!(with_all > 0);
    assert!(no_labels < with_all);
    assert!(no_ticks < with_all);
    assert_eq!(none, 0);
}

#[test]
fn axis_measure_accounts_for_label_angle() {
    let measurer = HeuristicTextMeasurer;
    let axis = AxisSpec::bottom(1, ScaleLinearSpec::new((fx(0.0), fx(10.0))))
        .with_tick_count(6)
        .with_label_angle(angle(0.0));
    let a0 = axis.measure(&measurer);
    let a45 = axis.with_label_angle(angle(45.0)).measure(&measurer);
    assert!(a45 >= a0);
}

#[test]
fn axis_uses_custom_tick_formatter_for_labels() {
    let plot = rect(0.0, 0.0, 100.0, 50.0);
    let axis_rect = rect(0.0, 50.0, 100.0, 60.0);

    let axis = AxisSpec::bottom(1, ScaleLinearSpec::new((fx(0.0), fx(10.0))))
        .with_tick_count(3)
        .with_tick_formatter(|_v, _step| String::from("X"));

    let marks = axis.marks(plot, axis_rect);
    let mut saw_label = false;
    for m in marks {
        if let Mark::Text(t) = m {
            assert_eq!(t.text, "X");
            saw_label = true;
        }
    }
    assert!(saw_label);
}

fn title_of(marks: Vec<Mark>, id: u64) -> Option<(i64, i64)> {
    let mut found = None;
    for m in marks {
        if let Mark::Text(t) = m {
            if t.id == id {
                found = Some((t.x, t.y));
            }
        }
    }
    found
}

#[test]
fn axis_left_title_uses_axis_rect_edge_to_avoid_label_overlap() {
    let measurer = HeuristicTextMeasurer;
    let plot = rect(100.0, 0.0, 200.0, 100.0);

    let axis = AxisSpec::left(1, ScaleLinearSpec::new((fx(0.0), fx(10.0))))
        .with_tick_count(3)
        .with_title(String::from("Y"))
        .with_title_offset(fx(10.0));

    let w = axis.measure(&measurer);
    let axis_rect = Rect::new(plot.x0 - w, plot.y0, plot.x0, plot.y1);
    let marks = axis.marks(plot, axis_rect);

    let (title_x, _) = title_of(marks, 1 + 9000).expect("missing title x");
    let expected = axis_rect.x0 + axis.style.title_font_size / 2;
    assert_eq!(title_x, expected);
}

#[test]
fn axis_right_title_uses_axis_rect_edge_to_avoid_label_overlap() {
    let measurer = HeuristicTextMeasurer;
    let plot = rect(0.0, 0.0, 100.0, 100.0);

    let axis = AxisSpec::right(1, ScaleLinearSpec::new((fx(0.0), fx(10.0))))
        .with_tick_count(3)
        .with_title(String::from("Y"))
        .with_title_offset(fx(10.0));

    let w = axis.measure(&measurer);
    let axis_rect = Rect::new(plot.x1, plot.y0, plot.x1 + w, plot.y1);
    let marks = axis.marks(plot, axis_rect);

    let (title_x, _) = title_of(marks, 1 + 9000).expect("missing title x");
    let expected = axis_rect.x1 - axis.style.title_font_size / 2;
    assert_eq!(title_x, expected);
}

#[test]
fn axis_bottom_title_uses_axis_rect_edge_to_avoid_label_overlap() {
    let measurer = HeuristicTextMeasurer;
    let plot = rect(0.0, 0.0, 100.0, 100.0);

    let axis = AxisSpec::bottom(1, ScaleLinearSpec::new((fx(0.0), fx(10.0))))
        .with_tick_count(3)
        .with_title(String::from("X"))
        .with_title_offset(fx(10.0));

    let h = axis.measure(&measurer);
    let axis_rect = Rect::new(plot.x0, plot.y1, plot.x1, plot.y1 + h);
    let marks = axis.marks(plot, axis_rect);

    let (_, title_y) = title_of(marks, 1 + 9000).expect("missing title y");
    let expected = axis_rect.y1 - axis.style.title_font_size;
    assert_eq!(title_y, expected);
}

#[test]
fn axis_top_title_uses_axis_rect_edge_to_avoid_label_overlap() {
    let measurer = HeuristicTextMeasurer;
    let plot = rect(0.0, 0.0, 100.0, 100.0);

    let axis = AxisSpec::top(1, ScaleLinearSpec::new((fx(0.0), fx(10.0))))
        .with_tick_count(3)
        .with_title(String::from("X"))
        .with_title_offset(fx(10.0));

    let h = axis.measure(&measurer);
    let axis_rect = Rect::new(plot.x0, plot.y0 - h, plot.x1, plot.y0);
    let marks = axis.marks(plot, axis_rect);

    let (_, title_y) = title_of(marks, 1 + 9000).expect("missing title y");
    let expected = axis_rect.y0 + axis.style.title_font_size;
    assert_eq!(title_y, expected);
}

#[test]
fn rotated_bottom_labels_use_consistent_anchor() {
    let plot = rect(0.0, 0.0, 100.0, 50.0);
    let axis_rect = rect(0.0, 50.0, 100.0, 80.0);

    let axis = AxisSpec::bottom(1, ScaleLinearSpec::new((fx(0.0), fx(10.0))))
        .with_tick_count(3)
        .with_label_angle(angle(-45.0));

    let marks = axis.marks(plot, axis_rect);
    let mut saw = 0_usize;
    for m in marks {
        let Mark::Text(t) = &m else {
            continue;
        };
        if t.id <= 1000 || t.id >= 2000 {
            continue;
        }
        assert!(matches!(
            t.anchor,
            TextAnchor::Start | TextAnchor::Middle | TextAnchor::End
        ));
        saw += 1;
    }
    assert!(saw > 0);
}

#[test]
fn axis_without_ticks_emits_no_tick_path_marks() {
    let plot = rect(0.0, 0.0, 100.0, 50.0);
    let axis_rect = rect(0.0, 50.0, 100.0, 60.0);

    let axis = AxisSpec::bottom(1, ScaleLinearSpec::new((fx(0.0), fx(10.0))))
        .with_tick_count(3)
        .with_ticks(false)
        .with_domain(false);

    let marks = axis.marks(plot, axis_rect);
    assert!(
        marks.iter().all(|m| !matches!(m, Mark::Rule(_))),
        "expected no rule marks when ticks/domain are disabled"
    );
}

#[test]
fn axis_left_grid_does_not_extend_outside_plot() {
    let plot = rect(50.0, 30.0, 250.0, 130.0);
    let axis_rect = rect(0.0, 30.0, 50.0, 130.0);

    let axis = AxisSpec::left(1, ScaleLinearSpec::new((fx(-0.7), fx(3.29))))
        .with_tick_count(6)
        .with_grid(GridStyle {
            stroke: StrokeStyle::solid(black(), fx(1.0)),
        });

    let marks = axis.marks(plot, axis_rect);
    let mut saw_grid = false;
    for m in marks {
        if m.z_index() != GRID_LINES {
            continue;
        }
        let Mark::Rule(r) = &m else {
            continue;
        };
        saw_grid = true;
        assert!(r.y0.min(r.y1) >= plot.y0, "grid above plot: {r:?} vs {plot:?}");
        assert!(r.y0.max(r.y1) <= plot.y1, "grid below plot: {r:?} vs {plot:?}");
    }
    assert!(saw_grid);
}

#[test]
fn axis_grid_includes_domain_endpoints() {
    // Domain max is not a "nice" number; grid should still include a line at the plot edge.
    let plot = rect(10.0, 20.0, 110.0, 120.0);
    let axis_rect = rect(0.0, 20.0, 10.0, 120.0);
    let domain = (fx(0.0), fx(3.29));

    let axis = AxisSpec::left(1, ScaleLinearSpec::new(domain)).with_grid(GridStyle {
        stroke: StrokeStyle::solid(black(), fx(1.0)),
    });

    let marks = axis.marks(plot, axis_rect);
    let mut saw_top_edge = false;
    for m in marks {
        if m.z_index() != GRID_LINES {
            continue;
        }
        let Mark::Rule(r) = &m else {
            continue;
        };
        if r.y0 == plot.y0 && r.y1 == plot.y0 {
            saw_top_edge = true;
        }
    }
    assert!(
        saw_top_edge,
        "expected a grid line at plot.y0 for domain max"
    );
}

#[test]
fn time_axis_defaults_to_time_formatter() {
    let plot = rect(0.0, 0.0, 200.0, 100.0);
    let axis_rect = rect(0.0, 100.0, 200.0, 140.0);

    let axis = AxisSpec::bottom(1, ScaleTimeSpec::new((fx(0.0), fx(300.0)))).with_tick_count(6);
    let marks = axis.marks(plot, axis_rect);
    let labels = label_texts(&marks);
    assert!(
        labels.iter().any(|s| s.contains(':')),
        "expected at least one time-formatted label, got {labels:?}"
    );
}

#[test]
fn log_axis_includes_powers_of_base_in_ticks() {
    let plot = rect(0.0, 0.0, 200.0, 100.0);
    let axis_rect = rect(0.0, 0.0, 40.0, 100.0);

    let domain = (1.0_f64, 1000.0_f64);
    let logs = (fx(domain.0.log10()), fx(domain.1.log10()));
    let axis = AxisSpec::left(
        1,
        ScaleLogSpec::new((fx(domain.0), fx(domain.1)), logs).with_base(fx(10.0), logs),
    )
    .with_tick_count(10);

    let marks = axis.marks(plot, axis_rect);
    let labels = label_texts(&marks);
    assert!(labels.iter().any(|s| s == "1"), "missing '1' in {labels:?}");
    assert!(
        labels.iter().any(|s| s == "1000"),
        "missing '1000' in {labels:?}"
    );
}

#[test]
fn bottom_axis_arranges_domain_ticks_and_labels_exactly() {
    let plot = rect(0.0, 0.0, 100.0, 50.0);
    let axis_rect = rect(0.0, 50.0, 100.0, 80.0);
    let axis = AxisSpec::bottom(7, ScaleLinearSpec::new((fx(0.0), fx(10.0)))).with_tick_count(2);

    // Two intervals over ten: the step is five, the ticks are 0, 5 and 10.
    let (ticks, step) = axis.tick_values();
    assert_eq!(ticks, vec![fx(0.0), fx(5.0), fx(10.0)]);
    assert_eq!(step, fx(5.0));
    assert_eq!(axis.tick_labels(), vec!["0", "5", "10"]);

    let marks = axis.marks(plot, axis_rect);
    assert_eq!(marks.len(), 7);

    let Mark::Rule(domain) = &marks[0] else {
        panic!("expected the domain line first");
    };
    assert_eq!(domain.id, 7);
    assert_eq!(domain.z_index, AXIS_RULES);
    assert_eq!(
        (domain.x0, domain.y0, domain.x1, domain.y1),
        (fx(0.0), fx(50.0), fx(100.0), fx(50.0))
    );

    let Mark::Rule(tick) = &marks[3] else {
        panic!("expected the second tick line");
    };
    assert_eq!(tick.id, 7 + 1 + 1);
    assert_eq!(
        (tick.x0, tick.y0, tick.x1, tick.y1),
        (fx(50.0), fx(50.0), fx(50.0), fx(55.0))
    );

    let anchors: Vec<(u64, i64, i64, TextAnchor)> = marks
        .iter()
        .filter_map(|m| match m {
            Mark::Text(t) => Some((t.id, t.x, t.y, t.anchor)),
            _ => None,
        })
        .collect();
    assert_eq!(
        anchors,
        vec![
            (1007, fx(0.0), fx(67.0), TextAnchor::Start),
            (1008, fx(50.0), fx(67.0), TextAnchor::Middle),
            (1009, fx(100.0), fx(67.0), TextAnchor::End),
        ]
    );
    for m in &marks {
        if let Mark::Text(t) = m {
            assert_eq!(t.baseline, TextBaseline::Hanging);
            assert_eq!(t.z_index, AXIS_LABELS);
            assert_eq!(t.font_size, fx(10.0));
            assert_eq!(t.angle, 0);
        }
    }
}

#[test]
fn anchors_follow_the_first_and_last_visible_tick() {
    // The nice ticks of (0.2, 3.29) start below the domain and end above it;
    // only the ticks from 0.5 to 3.0 fall within the plot.
    let plot = rect(0.0, 0.0, 309.0, 50.0);
    let axis_rect = rect(0.0, 50.0, 309.0, 80.0);
    let axis = AxisSpec::bottom(1, ScaleLinearSpec::new((fx(0.2), fx(3.29)))).with_tick_count(6);
    let (ticks, _) = axis.tick_values();
    assert_eq!(ticks.first().copied(), Some(fx(0.0)));
    assert_eq!(ticks.last().copied(), Some(fx(3.5)));

    let marks = axis.marks(plot, axis_rect);
    let labels: Vec<(String, TextAnchor)> = marks
        .iter()
        .filter_map(|m| match m {
            Mark::Text(t) => Some((t.text.clone(), t.anchor)),
            _ => None,
        })
        .collect();
    assert_eq!(labels.first().unwrap(), &(String::from("0.5"), TextAnchor::Start));
    assert_eq!(labels.last().unwrap(), &(String::from("3.0"), TextAnchor::End));
    assert!(labels[1..labels.len() - 1]
        .iter()
        .all(|(_, a)| *a == TextAnchor::Middle));
}

#[test]
fn rotation_shifts_the_end_labels_of_a_horizontal_axis() {
    let plot = rect(0.0, 0.0, 100.0, 50.0);
    let axis_rect = rect(0.0, 50.0, 100.0, 80.0);
    // A quarter turn: sine one, cosine zero.
    let quarter = Angle::new(fx(90.0), fx(1.0), fx(0.0));
    let axis = AxisSpec::bottom(1, ScaleLinearSpec::new((fx(0.0), fx(10.0))))
        .with_tick_count(2)
        .with_label_angle(quarter);
    let marks = axis.marks(plot, axis_rect);
    let ys: Vec<i64> = marks
        .iter()
        .filter_map(|m| match m {
            Mark::Text(t) => Some(t.y),
            _ => None,
        })
        .collect();
    // Labels "0", "5", "10": estimated widths 6, 6 and 12; half of them is
    // taken off the first label and added to the last.
    assert_eq!(ys, vec![fx(67.0 - 3.0), fx(67.0), fx(67.0 + 6.0)]);
}

#[test]
fn left_axis_labels_end_at_the_axis() {
    let plot = rect(50.0, 30.0, 250.0, 130.0);
    let axis_rect = rect(0.0, 30.0, 50.0, 130.0);
    let axis = AxisSpec::left(1, ScaleLinearSpec::new((fx(0.0), fx(10.0)))).with_tick_count(2);
    let marks = axis.marks(plot, axis_rect);
    let labels: Vec<(i64, i64, TextAnchor, TextBaseline)> = marks
        .iter()
        .filter_map(|m| match m {
            Mark::Text(t) => Some((t.x, t.y, t.anchor, t.baseline)),
            _ => None,
        })
        .collect();
    // Values grow upward: 0 sits at the bottom edge, 10 at the top edge.
    assert_eq!(
        labels,
        vec![
            (fx(50.0 - 5.0 - 6.0), fx(130.0), TextAnchor::End, TextBaseline::Middle),
            (fx(50.0 - 5.0 - 6.0), fx(80.0), TextAnchor::End, TextBaseline::Middle),
            (fx(50.0 - 5.0 - 6.0), fx(30.0), TextAnchor::End, TextBaseline::Middle),
        ]
    );
}

#[test]
fn right_and_top_axes_mirror_left_and_bottom() {
    let plot = rect(0.0, 20.0, 100.0, 70.0);
    let axis = AxisSpec::right(1, ScaleLinearSpec::new((fx(0.0), fx(10.0)))).with_tick_count(2);
    let marks = axis.marks(plot, rect(100.0, 20.0, 140.0, 70.0));
    let Mark::Rule(tick) = &marks[1] else {
        panic!("expected a tick line");
    };
    assert_eq!((tick.x0, tick.x1), (fx(100.0), fx(105.0)));
    let Mark::Text(label) = &marks[2] else {
        panic!("expected a label");
    };
    assert_eq!(label.x, fx(100.0 + 5.0 + 6.0));
    assert_eq!(label.anchor, TextAnchor::Start);

    let axis = AxisSpec::top(1, ScaleLinearSpec::new((fx(0.0), fx(10.0)))).with_tick_count(2);
    let marks = axis.marks(plot, rect(0.0, 0.0, 100.0, 20.0));
    let Mark::Rule(tick) = &marks[1] else {
        panic!("expected a tick line");
    };
    assert_eq!((tick.y0, tick.y1), (fx(20.0), fx(15.0)));
    let Mark::Text(label) = &marks[2] else {
        panic!("expected a label");
    };
    assert_eq!(label.y, fx(20.0 - 5.0 - 12.0));
    assert_eq!(label.baseline, TextBaseline::Ideographic);
}

#[test]
fn vertical_titles_are_turned_by_a_quarter() {
    let plot = rect(100.0, 0.0, 200.0, 100.0);
    let left = AxisSpec::left(1, ScaleLinearSpec::new((fx(0.0), fx(10.0))))
        .with_title(String::from("Y"));
    let marks = left.marks(plot, rect(40.0, 0.0, 100.0, 100.0));
    let Some(Mark::Text(title)) = marks.last() else {
        panic!("expected the title last");
    };
    assert_eq!(title.z_index, AXIS_TITLES);
    assert_eq!(title.angle, fx(-90.0));
    assert_eq!(title.y, fx(50.0));
    assert_eq!(title.anchor, TextAnchor::Middle);

    let right = AxisSpec::right(1, ScaleLinearSpec::new((fx(0.0), fx(10.0))))
        .with_title(String::from("Y"));
    let marks = right.marks(plot, rect(200.0, 0.0, 260.0, 100.0));
    let Some(Mark::Text(title)) = marks.last() else {
        panic!("expected the title last");
    };
    assert_eq!(title.angle, fx(90.0));
    assert_eq!(title.x, fx(260.0 - 5.5));
}

#[test]
fn discrete_axes_have_one_tick_per_category_and_no_domain_gridlines() {
    let plot = rect(0.0, 0.0, 100.0, 50.0);
    let axis_rect = rect(0.0, 50.0, 100.0, 80.0);
    let grid = GridStyle {
        stroke: StrokeStyle::solid(black(), fx(1.0)),
    };

    let band = AxisSpec::bottom(1, ScaleBandSpec::new(4).with_padding(0, 0)).with_grid(grid);
    let (ticks, step) = band.tick_values();
    assert_eq!(ticks, vec![fx(0.0), fx(1.0), fx(2.0), fx(3.0)]);
    assert_eq!(step, fx(1.0));
    let marks = band.marks(plot, axis_rect);
    let grid_x: Vec<i64> = marks
        .iter()
        .filter_map(|m| match m {
            Mark::Rule(r) if r.z_index == GRID_LINES => Some(r.x0),
            _ => None,
        })
        .collect();
    // Four bands of width 25; ticks and gridlines sit in the middle of each.
    assert_eq!(grid_x, vec![fx(12.5), fx(37.5), fx(62.5), fx(87.5)]);

    let point = AxisSpec::bottom(1, ScalePointSpec::new(5)).with_grid(grid);
    let marks = point.marks(plot, axis_rect);
    let grid_x: Vec<i64> = marks
        .iter()
        .filter_map(|m| match m {
            Mark::Rule(r) if r.z_index == GRID_LINES => Some(r.x0),
            _ => None,
        })
        .collect();
    assert_eq!(grid_x, vec![fx(10.0), fx(30.0), fx(50.0), fx(70.0), fx(90.0)]);
}

#[test]
fn grid_ids_wrap_below_the_base() {
    let plot = rect(0.0, 0.0, 100.0, 50.0);
    let axis = AxisSpec::bottom(1, ScaleLinearSpec::new((fx(0.0), fx(10.0))))
        .with_tick_count(2)
        .with_grid(GridStyle::default());
    let marks = axis.marks(plot, rect(0.0, 50.0, 100.0, 80.0));
    let Mark::Rule(first) = &marks[0] else {
        panic!("expected a gridline first");
    };
    assert_eq!(first.id, 1_u64.wrapping_sub(5_000));
    assert_eq!(first.stroke, Color::rgba(0, 0, 0, 40));
}

#[test]
fn new_axis_has_the_documented_defaults() {
    let axis = AxisSpec::new(3, ScaleLinearSpec::new((0, fx(1.0))), AxisOrient::Left);
    assert_eq!(axis.tick_count, 10);
    assert_eq!(axis.tick_size, fx(5.0));
    assert_eq!(axis.tick_padding, fx(6.0));
    assert_eq!(axis.label_padding, 0);
    assert_eq!(axis.title_offset, fx(10.0));
    assert!(axis.ticks && axis.labels && axis.show_domain);
    assert!(axis.grid.is_none() && axis.title.is_none());
    assert_eq!(axis.label_angle, Angle::zero());
    let axis = AxisSpec::bottom(3, ScaleLinearSpec::new((0, fx(1.0))));
    assert_eq!(axis.tick_padding, fx(12.0));
    assert_eq!(axis.orient, AxisOrient::Bottom);
}

#[test]
fn labels_passed_in_are_kept_in_tick_order() {
    let plot = rect(0.0, 0.0, 100.0, 50.0);
    let axis = AxisSpec::bottom(1, ScaleLinearSpec::new((fx(0.0), fx(10.0)))).with_tick_count(2);
    let labels = vec![String::from("a"), String::from("b"), String::from("c")];
    let marks = axis.marks_with_labels(plot, rect(0.0, 50.0, 100.0, 80.0), &labels);
    assert_eq!(label_texts(&marks), vec!["a", "b", "c"]);
}

#[test]
fn a_formatter_of_the_caller_sees_every_tick_and_the_step() {
    let axis = AxisSpec::bottom(1, ScaleLinearSpec::new((fx(0.0), fx(10.0)))).with_tick_count(2);
    let labels = axis.labels_with_formatter(|v, step| format!("{}/{}", v / 1_000_000, step / 1_000_000));
    assert_eq!(labels, vec!["0/5", "5/5", "10/5"]);

    let measurer = HeuristicTextMeasurer;
    let plain = axis.measure(&measurer);
    let wide = axis.measure_with_labels(&measurer, &labels);
    // Labels are unrotated: only their height counts on a horizontal axis.
    assert_eq!(plain, wide);
    let left = AxisSpec::left(1, ScaleLinearSpec::new((fx(0.0), fx(10.0)))).with_tick_count(2);
    // "10/5" has four characters of 0.6 * 10 each.
    assert_eq!(left.measure_with_labels(&measurer, &labels), fx(5.0 + 6.0 + 24.0));
    assert_eq!(left.measure(&measurer), fx(5.0 + 6.0 + 12.0));
}

#[test]
fn measure_follows_the_formula() {
    let measurer = HeuristicTextMeasurer;
    let bottom = AxisSpec::bottom(1, ScaleLinearSpec::new((fx(0.0), fx(10.0)))).with_tick_count(2);
    // ticks 5, padding 12, a line of 10.
    assert_eq!(bottom.measure(&measurer), fx(27.0));
    // With a title: offset 10 and a line of 11.
    let titled = bottom.clone().with_title(String::from("X"));
    assert_eq!(titled.measure(&measurer), fx(27.0 + 10.0 + 11.0));
    // A quarter turn: the widest label, "10", now counts with its width.
    let turned = bottom
        .clone()
        .with_label_angle(Angle::new(fx(90.0), fx(1.0), fx(0.0)));
    assert_eq!(turned.measure(&measurer), fx(5.0 + 12.0 + 12.0));
    // Negative paddings count as zero, each on its own.
    let padded = bottom
        .clone()
        .with_tick_padding(fx(-3.0))
        .with_label_padding(fx(2.0));
    assert_eq!(padded.measure(&measurer), fx(5.0 + 2.0 + 10.0));
    // A negative tick size counts with its magnitude.
    assert_eq!(bottom.clone().with_tick_size(fx(-7.0)).measure(&measurer), fx(29.0));
    // A vertical title is turned: it counts with its font size.
    let left = AxisSpec::left(1, ScaleLinearSpec::new((fx(0.0), fx(10.0))))
        .with_tick_count(2)
        .with_title(String::from("Y"))
        .with_title_offset(fx(-1.0));
    assert_eq!(left.measure(&measurer), fx(5.0 + 6.0 + 12.0 + 11.0));
}

#[test]
fn bare_axis_measures_zero_for_every_orientation() {
    let measurer = HeuristicTextMeasurer;
    for orient in [AxisOrient::Top, AxisOrient::Bottom, AxisOrient::Left, AxisOrient::Right] {
        for show_domain in [false, true] {
            let axis = AxisSpec::new(1, ScaleBandSpec::new(3), orient)
                .with_ticks(false)
                .with_labels(false)
                .with_domain(show_domain);
            assert_eq!(axis.measure(&measurer), 0);
        }
    }
}

#[test]
fn rotation_never_shrinks_labels_wider_than_high() {
    let measurer = HeuristicTextMeasurer;
    // Labels "100000" to "200000": six characters, 36 wide and 10 high.
    let axis = AxisSpec::bottom(1, ScaleLinearSpec::new((fx(100_000.0), fx(200_000.0))))
        .with_tick_count(2);
    let flat = axis.measure(&measurer);
    for degrees in [-90.0, -60.0, -45.0, -10.0, 0.0, 1.0, 30.0, 45.0, 89.0, 90.0, 135.0, 180.0] {
        let turned = axis.clone().with_label_angle(angle(degrees)).measure(&measurer);
        assert!(turned >= flat, "shrank at {degrees} degrees");
    }
}

#[test]
fn carried_labels_replace_the_default_labels_tick_by_tick() {
    let plot = rect(0.0, 0.0, 100.0, 50.0);
    let axis_rect = rect(0.0, 50.0, 100.0, 80.0);
    let axis = AxisSpec::bottom(1, ScaleLinearSpec::new((fx(0.0), fx(10.0)))).with_tick_count(2);
    assert_eq!(axis.tick_labels(), vec!["0", "5", "10"]);
    assert_eq!(axis.default_tick_labels(), vec!["0", "5", "10"]);

    let formatted = axis
        .clone()
        .with_tick_formatter(|v, step| format!("{}|{}", v / 1_000_000, step / 1_000_000));
    assert_eq!(formatted.tick_labels(), vec!["0|5", "5|5", "10|5"]);
    assert_eq!(formatted.default_tick_labels(), vec!["0", "5", "10"]);
    assert_eq!(label_texts(&formatted.marks(plot, axis_rect)), vec!["0|5", "5|5", "10|5"]);
    assert_eq!(
        formatted.labels_with_formatter(|_, _| String::from("z")),
        vec!["z", "z", "z"]
    );

    // Fewer texts than ticks: the ticks without a text keep their default.
    let short = axis.clone().with_tick_labels(vec![String::from("none")]);
    assert_eq!(short.tick_labels(), vec!["none", "5", "10"]);
    // More texts than ticks: the texts beyond the ticks are not used.
    let long = axis.clone().with_tick_labels(
        ["a", "b", "c", "d", "e"].iter().map(|t| String::from(*t)).collect(),
    );
    assert_eq!(label_texts(&long.marks(plot, axis_rect)), vec!["a", "b", "c"]);
    assert_eq!(long.without_tick_labels().tick_labels(), vec!["0", "5", "10"]);

    // Carried labels are measured too.
    let measurer = HeuristicTextMeasurer;
    let left = AxisSpec::left(1, ScaleLinearSpec::new((fx(0.0), fx(10.0)))).with_tick_count(2);
    let wide = left
        .clone()
        .with_tick_formatter(|_, _| String::from("a wide label"));
    assert_eq!(left.measure(&measurer), fx(5.0 + 6.0 + 12.0));
    assert_eq!(wide.measure(&measurer), fx(5.0 + 6.0 + 0.6 * 10.0 * 12.0));
}

#[test]
fn log_grid_lies_on_both_plot_edges() {
    let plot = rect(10.0, 20.0, 110.0, 120.0);
    let axis_rect = rect(0.0, 20.0, 10.0, 120.0);
    // The logarithms handed in are a little off the whole exponents of the
    // ticks at the ends of the domain.
    let logs = (fx(0.000004), fx(2.999997));
    let axis = AxisSpec::left(
        1,
        ScaleLogSpec::new((fx(1.0), fx(1000.0)), logs).with_base(fx(10.0), logs),
    )
    .with_grid(GridStyle::default());
    let marks = axis.marks(plot, axis_rect);
    let grid: Vec<i64> = marks
        .iter()
        .filter_map(|m| match m {
            Mark::Rule(r) if r.z_index == GRID_LINES => Some(r.y0),
            _ => None,
        })
        .collect();
    assert!(grid.contains(&plot.y0), "no gridline on the upper edge in {grid:?}");
    assert!(grid.contains(&plot.y1), "no gridline on the lower edge in {grid:?}");
    assert!(grid.iter().all(|y| plot.y0 <= *y && *y <= plot.y1));
}

#[test]
fn a_title_counts_with_its_line_height_on_every_orientation() {
    struct Tall;
    impl vizir_charts::text::TextMeasurer for Tall {
        fn measure(
            &self,
            _text: &str,
            style: vizir_charts::text::TextStyle,
        ) -> vizir_charts::text::TextMetrics {
            vizir_charts::text::TextMetrics {
                advance_width: 0,
                ascent: 2 * style.font_size,
                descent: 0,
                leading: 0,
            }
        }
    }
    for orient in [AxisOrient::Top, AxisOrient::Bottom, AxisOrient::Left, AxisOrient::Right] {
        let axis = AxisSpec::new(1, ScaleBandSpec::new(0), orient)
            .with_ticks(false)
            .with_labels(false)
            .with_title(String::from("T"))
            .with_title_offset(fx(3.0));
        // Offset 3 and a line twice the title font size of 11.
        assert_eq!(axis.measure(&Tall), fx(3.0 + 22.0));
    }
}
