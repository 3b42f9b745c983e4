use vizir_charts::axis::AxisSpec;
use vizir_charts::chart_spec::{ChartSpec, MeasuredGuides};
use vizir_charts::layout::{
    ChartLayout, ChartLayoutSpec, LegendOrient, LegendPlacement, Rect, Size,
};
use vizir_charts::legend::{LegendItem, LegendSwatchesSpec};
use vizir_charts::mark::{paint_order, Color, Mark};
use vizir_charts::mark_spec::{RectMarkSpec, RuleMarkSpec, TextMarkSpec};
use vizir_charts::scale::{ScaleBandSpec, ScaleContinuous, ScaleLinearSpec};
use vizir_charts::table::{infer_domain_f64, TableFrame};
use vizir_charts::text::HeuristicTextMeasurer;
use vizir_charts::title::TitleSpec;
use vizir_charts::transform::ColId;
use vizir_charts::z_order::{
    AXIS_LABELS, AXIS_RULES, AXIS_TITLES, GRID_LINES, LEGEND_LABELS, LEGEND_SWATCHES,
    PLOT_BACKGROUND, SERIES_FILL, SERIES_POINTS, SERIES_STROKE, TITLES,
};

/// Converts a decimal number into a fixed-point scalar.
fn fx(v: f64) -> i64 {
    (v * 1_000_000.0).round() as i64
}

fn options() -> ChartLayoutSpec {
    ChartLayoutSpec {
        title_top: None,
        plot_size: Size { width: 0, height: 0 },
        view_size: None,
        outer_padding: fx(10.0),
        plot_padding: 0,
        axis_left: None,
        axis_right: None,
        axis_top: None,
        axis_bottom: None,
        legend: None,
    }
}

fn chart() -> ChartSpec {
    ChartSpec {
        title: Some(TitleSpec::new(1, String::from("Title"))),
        plot_size: Size {
            width: fx(200.0),
            height: fx(100.0),
        },
        layout: options(),
        axis_left: Some(AxisSpec::left(1_000, ScaleLinearSpec::new((fx(0.0), fx(10.0)))).with_tick_count(2)),
        axis_right: None,
        axis_top: None,
        axis_bottom: Some(AxisSpec::bottom(20_000, ScaleBandSpec::new(4))),
        legend: Some((
            LegendSwatchesSpec::new(
                40_000,
                vec![LegendItem::solid(String::from("A"), Color::rgba(255, 0, 0, 255))],
            ),
            LegendPlacement::default(),
        )),
    }
}

#[test]
fn chart_measures_every_guide_it_has() {
    let spec = chart();
    let measured = spec.measure_guides(&HeuristicTextMeasurer);
    assert_eq!(
        measured,
        MeasuredGuides {
            // 2 * 6 + 12
            title_top: Some(fx(24.0)),
            // ticks 5, padding 6, the widest label "10" at 0.6 * 10 * 2
            axis_left: Some(fx(5.0 + 6.0 + 12.0)),
            axis_right: None,
            axis_top: None,
            // ticks 5, padding 12, a line of 10
            axis_bottom: Some(fx(5.0 + 12.0 + 10.0)),
            legend: Some(Size {
                width: fx(10.0 + 6.0 + 6.0),
                height: fx(10.0),
            }),
        }
    );
}

#[test]
fn chart_layout_reserves_the_measured_margins() {
    let spec = chart();
    let layout = spec.layout(&HeuristicTextMeasurer);
    assert_eq!(
        layout.plot,
        Rect::new(fx(10.0 + 23.0), fx(10.0 + 24.0), fx(233.0), fx(134.0))
    );
    assert_eq!(layout.data, layout.plot);
    assert_eq!(layout.title_top.unwrap().y1, fx(34.0));
    assert_eq!(layout.axis_left.unwrap().x0, fx(10.0));
    assert_eq!(layout.axis_bottom.unwrap().y1, fx(134.0 + 27.0));
    assert_eq!(
        layout.legend,
        Some(Rect::new(fx(233.0 + 18.0), fx(34.0), fx(233.0 + 18.0 + 22.0), fx(44.0)))
    );
    assert_eq!(layout.view.x1, fx(233.0 + 10.0 + 22.0 + 18.0));
    assert_eq!(layout.view.y1, fx(134.0 + 10.0 + 27.0));
    assert_eq!(layout, spec.layout_with(&spec.measure_guides(&HeuristicTextMeasurer)));
}

#[test]
fn chart_layout_ignores_what_the_layout_options_say_of_guides() {
    let mut spec = chart();
    spec.layout.axis_right = Some(fx(500.0));
    spec.layout.plot_size = Size {
        width: fx(1.0),
        height: fx(1.0),
    };
    assert_eq!(spec.layout(&HeuristicTextMeasurer), chart().layout(&HeuristicTextMeasurer));
}

#[test]
fn guide_marks_come_in_a_fixed_order() {
    let spec = chart();
    let layout = spec.layout(&HeuristicTextMeasurer);
    let marks = spec.guide_marks(&HeuristicTextMeasurer, &layout);
    let order: Vec<i32> = marks.iter().map(|m| m.z_index()).collect();
    let mut expected = vec![TITLES];
    // Bottom axis: domain line, then tick and label for each of four bands.
    expected.push(AXIS_RULES);
    for _ in 0..4 {
        expected.extend([AXIS_RULES, AXIS_LABELS]);
    }
    // Left axis: domain line, then tick and label for each of three ticks.
    expected.push(AXIS_RULES);
    for _ in 0..3 {
        expected.extend([AXIS_RULES, AXIS_LABELS]);
    }
    expected.extend([LEGEND_SWATCHES, LEGEND_LABELS]);
    assert_eq!(order, expected);

    // Axis ticks sit on the edges of the data rectangle.
    let Mark::Rule(domain) = &marks[1] else {
        panic!("expected the domain line of the bottom axis");
    };
    assert_eq!(
        (domain.x0, domain.y0, domain.x1, domain.y1),
        (layout.data.x0, layout.data.y1, layout.data.x1, layout.data.y1)
    );
    // The legend starts at the corner of its rectangle.
    let Mark::Rect(swatch) = &marks[marks.len() - 2] else {
        panic!("expected the legend swatch");
    };
    assert_eq!((swatch.x, swatch.y), (layout.legend.unwrap().x0, layout.legend.unwrap().y0));
}

#[test]
fn guides_without_a_rectangle_have_no_marks() {
    let spec = chart();
    let layout = ChartLayout {
        title_top: None,
        axis_left: None,
        axis_bottom: None,
        legend: None,
        ..spec.layout(&HeuristicTextMeasurer)
    };
    assert!(spec.guide_marks(&HeuristicTextMeasurer, &layout).is_empty());
}

#[test]
fn chart_axes_and_scales() {
    let spec = chart();
    assert_eq!(spec.x_axis().map(|a| a.id_base), Some(20_000));
    assert_eq!(spec.y_axis().map(|a| a.id_base), Some(1_000));
    let plot = Rect::new(0, 0, fx(100.0), fx(50.0));
    let Some(ScaleContinuous::Linear(y)) = spec.y_scale_continuous(plot) else {
        panic!("expected a linear y scale");
    };
    assert_eq!(y.range, (fx(50.0), 0));
    assert_eq!(y.map(fx(10.0)), 0);

    let top_only = ChartSpec {
        axis_bottom: None,
        axis_top: Some(AxisSpec::top(7, ScaleLinearSpec::new((0, fx(1.0))))),
        axis_left: None,
        axis_right: Some(AxisSpec::right(8, ScaleLinearSpec::new((0, fx(1.0))))),
        ..chart()
    };
    assert_eq!(top_only.x_axis().map(|a| a.id_base), Some(7));
    assert_eq!(top_only.y_axis().map(|a| a.id_base), Some(8));
    assert!(top_only.x_scale_continuous(plot).is_some());
    let bare = ChartSpec {
        axis_top: None,
        axis_right: None,
        ..top_only
    };
    assert!(bare.x_axis().is_none() && bare.y_axis().is_none());
    assert!(bare.x_scale_continuous(plot).is_none());
    assert!(bare.y_scale_continuous(plot).is_none());
}

#[test]
fn corner_legend_is_drawn_inside_the_plot() {
    let mut spec = chart();
    spec.legend = spec.legend.map(|(l, p)| {
        (
            l,
            LegendPlacement {
                orient: LegendOrient::TopRight,
                offset: fx(4.0),
                ..p
            },
        )
    });
    let layout = spec.layout(&HeuristicTextMeasurer);
    assert_eq!(layout.view.x1, fx(233.0 + 10.0));
    assert_eq!(
        layout.legend,
        Some(Rect::new(fx(233.0 - 4.0 - 22.0), fx(38.0), fx(229.0), fx(48.0)))
    );
}

#[test]
fn axis_thickness_helpers() {
    let labels = vec![String::from("0"), String::from("100"), String::from("20")];
    assert_eq!(
        ChartLayout::measure_axis_left(
            &HeuristicTextMeasurer,
            &labels,
            fx(-5.0),
            fx(6.0),
            fx(-2.0),
            fx(10.0)
        ),
        fx(5.0 + 6.0 + 18.0)
    );
    assert_eq!(
        ChartLayout::measure_axis_bottom(&HeuristicTextMeasurer, fx(5.0), fx(12.0), 0, fx(10.0)),
        fx(5.0 + 12.0 + 10.0)
    );
    assert_eq!(
        ChartLayout::axis_left_thickness(&vec![fx(-3.0), fx(-1.0)], fx(5.0), 0, 0),
        fx(5.0)
    );
    assert_eq!(ChartLayout::axis_bottom_thickness(fx(7.0), fx(5.0), fx(1.0), fx(2.0)), fx(15.0));
}

#[test]
fn single_mark_specifications() {
    let rule = RuleMarkSpec::horizontal(3, fx(5.0), fx(1.0), fx(9.0))
        .with_stroke(Color::rgba(1, 2, 3, 4), fx(2.0))
        .with_z_index(GRID_LINES);
    let Mark::Rule(r) = rule.mark() else {
        panic!("expected a rule");
    };
    assert_eq!((r.x0, r.y0, r.x1, r.y1), (fx(1.0), fx(5.0), fx(9.0), fx(5.0)));
    assert_eq!((r.id, r.z_index, r.stroke_width), (3, GRID_LINES, fx(2.0)));
    assert_eq!(r.stroke, Color::rgba(1, 2, 3, 4));
    let v = RuleMarkSpec::vertical(3, fx(5.0), fx(1.0), fx(9.0));
    assert_eq!((v.x0, v.y0, v.x1, v.y1), (fx(5.0), fx(1.0), fx(5.0), fx(9.0)));
    assert_eq!(v.z_index, SERIES_STROKE);
    assert_eq!(v.stroke_width, fx(1.0));

    let rect = RectMarkSpec::new(4, Rect::new(fx(1.0), fx(2.0), fx(11.0), fx(7.0)))
        .with_fill(Color::rgba(9, 8, 7, 6))
        .with_z_index(PLOT_BACKGROUND);
    let Mark::Rect(r) = rect.mark() else {
        panic!("expected a rectangle");
    };
    assert_eq!((r.x, r.y, r.w, r.h), (fx(1.0), fx(2.0), fx(10.0), fx(5.0)));
    assert_eq!((r.id, r.z_index), (4, PLOT_BACKGROUND));
    assert_eq!(RectMarkSpec::new(4, Rect::new(0, 0, 1, 1)).z_index, SERIES_FILL);

    let text = TextMarkSpec::new(5, fx(1.0), fx(2.0), String::from("hi"))
        .with_font_size(fx(9.0))
        .with_angle(fx(-30.0))
        .with_fill(Color::rgba(0, 0, 0, 255))
        .with_z_index(AXIS_TITLES);
    let Mark::Text(t) = text.mark() else {
        panic!("expected text");
    };
    assert_eq!(t.text, "hi");
    assert_eq!((t.x, t.y, t.angle, t.font_size), (fx(1.0), fx(2.0), fx(-30.0), fx(9.0)));
    assert_eq!(t.z_index, AXIS_TITLES);
    assert!(SERIES_POINTS > SERIES_STROKE && SERIES_STROKE > SERIES_FILL);
}

#[test]
fn paint_orders_rise_from_background_to_titles() {
    let order = [
        PLOT_BACKGROUND,
        GRID_LINES,
        SERIES_FILL,
        SERIES_STROKE,
        SERIES_POINTS,
        AXIS_RULES,
        AXIS_LABELS,
        AXIS_TITLES,
        LEGEND_SWATCHES,
        LEGEND_LABELS,
        TITLES,
    ];
    assert!(order.windows(2).all(|w| w[0] < w[1]));
}

#[test]
fn domain_of_a_column() {
    let frame = TableFrame {
        row_keys: vec![1, 2, 3, 4],
        columns: vec![ColId(1), ColId(2), ColId(3)],
        data: vec![
            vec![Some(fx(4.0)), None, Some(fx(-2.5)), Some(fx(9.0))],
            vec![None, None, None, None],
        ],
    };
    assert_eq!(infer_domain_f64(&frame, ColId(1)), Some((fx(-2.5), fx(9.0))));
    assert_eq!(infer_domain_f64(&frame, ColId(2)), None);
    assert_eq!(infer_domain_f64(&frame, ColId(3)), None);
    assert_eq!(infer_domain_f64(&frame, ColId(4)), None);
    let single = TableFrame {
        row_keys: vec![1],
        columns: vec![ColId(1)],
        data: vec![vec![Some(7)]],
    };
    assert_eq!(infer_domain_f64(&single, ColId(1)), Some((7, 7)));
}

#[test]
fn chart_marks_put_the_series_before_the_guides() {
    let spec = chart();
    let (layout, marks) = spec.marks(&HeuristicTextMeasurer, |chart, data| {
        assert_eq!(chart.plot_size.width, fx(200.0));
        vec![RectMarkSpec::new(9, data)
            .with_fill(Color::rgba(0, 0, 255, 255))
            .mark()]
    });
    assert_eq!(layout, spec.layout(&HeuristicTextMeasurer));
    let guides = spec.guide_marks(&HeuristicTextMeasurer, &layout);
    assert_eq!(marks.len(), 1 + guides.len());
    let Mark::Rect(series) = &marks[0] else {
        panic!("expected the series mark first");
    };
    assert_eq!((series.x, series.y), (layout.data.x0, layout.data.y0));
    assert_eq!((series.w, series.h), (fx(200.0), fx(100.0)));
    assert_eq!(&marks[1..], &guides[..]);
}

#[test]
fn measured_guides_are_pinned_to_a_part_of_the_coordinate_range() {
    let spec = chart();
    let huge = MeasuredGuides {
        title_top: Some(i64::MAX),
        axis_left: Some(i64::MAX),
        axis_right: None,
        axis_top: None,
        axis_bottom: Some(i64::MIN),
        legend: None,
    };
    let layout = spec.layout_with(&huge);
    let part = vizir_charts::chart_spec::PART_LIMIT;
    assert_eq!(layout.plot.x0, fx(10.0) + part);
    assert_eq!(layout.plot.y0, fx(10.0) + part);
    assert_eq!(layout.axis_bottom, None);
}

#[test]
fn marks_paint_by_paint_order_then_identity_then_position() {
    let rule = |id: u64, z: i32| RuleMarkSpec::new(id, 0, 0, 1, 1).with_z_index(z).mark();
    let marks = vec![
        rule(5, AXIS_LABELS),
        rule(3, GRID_LINES),
        rule(9, AXIS_RULES),
        rule(3, AXIS_RULES),
        rule(3, GRID_LINES),
        rule(1, TITLES),
        rule(9, AXIS_RULES),
    ];
    assert_eq!(paint_order(&marks), vec![1, 4, 3, 2, 6, 0, 5]);
    assert_eq!(paint_order(&Vec::new()), Vec::<usize>::new());
    assert_eq!(paint_order(&marks[..1].to_vec()), vec![0]);
}

#[test]
fn guide_marks_paint_grid_first_and_titles_last() {
    let spec = ChartSpec {
        axis_left: Some(
            AxisSpec::left(1_000, ScaleLinearSpec::new((fx(0.0), fx(10.0))))
                .with_tick_count(2)
                .with_grid(vizir_charts::axis::GridStyle::default()),
        ),
        ..chart()
    };
    let layout = spec.layout(&HeuristicTextMeasurer);
    let marks = spec.guide_marks(&HeuristicTextMeasurer, &layout);
    let order = paint_order(&marks);
    let painted: Vec<i32> = order.iter().map(|i| marks[*i].z_index()).collect();
    assert!(painted.windows(2).all(|w| w[0] <= w[1]));
    assert_eq!(painted.first(), Some(&GRID_LINES));
    assert_eq!(painted.last(), Some(&TITLES));
}
