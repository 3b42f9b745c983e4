use vizir_charts::axis::{Angle, AxisOrient, AxisSpec};
use vizir_charts::chart_spec::{ChartSpec, PART_LIMIT};
use vizir_charts::fixed::{from_whole, is_in_range, pin, LIMIT, UNIT};
use vizir_charts::layout::{ChartLayout, ChartLayoutSpec, LegendPlacement, Rect, Size};
use vizir_charts::legend::LegendSwatchesSpec;
use vizir_charts::scale::{
    ScaleLogSpec, is_pair_in_range, is_pair_in_tick_range, ScaleBand, ScaleContinuous, ScaleLinear,
    ScaleLinearSpec, ScaleLog, ScalePoint, ScaleSpec, MAX_COUNT, MAX_LOG, MAX_PADDING,
};
use vizir_charts::text::TextMetrics;
use vizir_charts::ticks::{is_in_tick_range, TICK_LIMIT};
use vizir_charts::title::TitleSpec;

#[test]
fn scalars_within_the_limit_are_in_range() {
    assert!(is_in_range(0));
    assert!(is_in_range(LIMIT) && is_in_range(-LIMIT));
    assert!(!is_in_range(LIMIT + 1) && !is_in_range(-LIMIT - 1));
    assert_eq!(pin(LIMIT + 1), LIMIT);
    assert_eq!(pin(i64::MIN), -LIMIT);
    assert_eq!(pin(5 * UNIT), 5 * UNIT);
    assert!(is_in_tick_range(TICK_LIMIT) && !is_in_tick_range(TICK_LIMIT + 1));
    assert!(is_pair_in_range((0, LIMIT)) && !is_pair_in_range((LIMIT + 1, 0)));
    assert!(is_pair_in_tick_range((-TICK_LIMIT, 0)) && !is_pair_in_tick_range((0, i64::MAX)));
}

#[test]
fn rectangles_sizes_and_metrics() {
    assert!(Rect::new(0, 0, LIMIT, -LIMIT).is_in_range());
    assert!(!Rect::new(0, 0, LIMIT + 1, 0).is_in_range());
    assert!(Size { width: 1, height: 2 }.is_in_range());
    assert!(!Size { width: 1, height: i64::MIN }.is_in_range());
    assert!(LegendPlacement::default().is_in_range());
    let m = TextMetrics { advance_width: i64::MAX, ascent: 1, descent: 2, leading: i64::MIN };
    assert!(!m.is_in_range());
    assert_eq!(
        m.pin(),
        TextMetrics { advance_width: LIMIT, ascent: 1, descent: 2, leading: -LIMIT }
    );
    assert!(m.pin().is_in_range());
}

#[test]
fn scales_that_can_be_evaluated() {
    assert!(ScaleLinear::new((i64::MIN, i64::MAX), (0, LIMIT)).is_in_range());
    assert!(!ScaleLinear::new((0, 1), (0, LIMIT + 1)).is_in_range());
    assert!(ScaleBand::new((0, UNIT), MAX_COUNT).is_wf());
    assert!(!ScaleBand::new((0, UNIT), MAX_COUNT + 1).is_wf());
    assert!(!ScaleBand { padding_inner: -1, ..ScaleBand::new((0, UNIT), 1) }.is_wf());
    assert!(!ScaleBand { padding_outer: MAX_PADDING + 1, ..ScaleBand::new((0, UNIT), 1) }.is_wf());
    assert!(ScalePoint::new((0, UNIT), 3).is_wf());
    assert!(!ScalePoint::new((0, i64::MAX), 3).is_wf());
    let log = ScaleLog::new((UNIT, 10 * UNIT), (0, UNIT), (0, UNIT));
    assert!(log.is_wf());
    assert!(!ScaleLog { log_domain: (0, MAX_LOG + 1), ..log }.is_wf());
    assert!(!ScaleLog { base: UNIT, ..log }.is_wf());
    assert!(!ScaleLog { base: 0, ..log }.is_wf());
    assert!(!ScaleLog { base: -2 * UNIT, ..log }.is_wf());
    assert!(ScaleLog { base: 2_718_282, ..log }.is_wf());
    assert!(ScaleContinuous::Log(log).is_wf());
    assert!(!ScaleContinuous::Linear(ScaleLinear::new((0, 1), (i64::MIN, 0))).is_wf());
}

#[test]
fn axes_that_can_be_measured_and_arranged() {
    let axis = AxisSpec::from_scale(
        1,
        ScaleSpec::Linear(ScaleLinearSpec::new((0, UNIT))),
        AxisOrient::Left,
    );
    assert_eq!(axis, AxisSpec::left(1, ScaleLinearSpec::new((0, UNIT))));
    assert!(axis.is_wf());
    assert!(!axis.clone().with_tick_size(LIMIT + 1).is_wf());
    assert!(!axis.clone().with_title_offset(i64::MIN).is_wf());
    assert!(!AxisSpec::left(1, ScaleLinearSpec::new((0, LIMIT + 1))).is_wf());
    let skewed = Angle { degrees: 0, sin: 2 * UNIT, cos: 0 };
    assert!(!skewed.is_wf());
    assert!(!axis.clone().with_label_angle(skewed).is_wf());
    // Making an angle pins sine and cosine.
    assert_eq!(Angle::new(7, 2 * UNIT, -3 * UNIT), Angle { degrees: 7, sin: UNIT, cos: -UNIT });
    assert!(Angle::zero().is_wf());
}

#[test]
fn guides_and_charts() {
    assert!(TitleSpec::new(1, String::from("t")).is_wf());
    assert!(!TitleSpec::new(1, String::from("t")).with_padding(i64::MAX).is_wf());
    let legend = LegendSwatchesSpec::new(1, Vec::new());
    assert!(legend.is_wf() && legend.at(0, 0).is_wf());
    assert!(!legend.at(i64::MAX, 0).is_wf());
    assert!(!legend.clone().with_swatch_size(i64::MIN).is_wf());

    let options = ChartLayoutSpec {
        title_top: None,
        plot_size: Size { width: 0, height: 0 },
        view_size: None,
        outer_padding: 0,
        plot_padding: 0,
        axis_left: None,
        axis_right: None,
        axis_top: None,
        axis_bottom: None,
        legend: None,
    };
    assert!(options.is_in_range());
    assert!(!ChartLayoutSpec { axis_top: Some(LIMIT + 1), ..options }.is_in_range());
    let chart = ChartSpec {
        title: None,
        plot_size: Size { width: PART_LIMIT, height: -PART_LIMIT },
        layout: options,
        axis_left: None,
        axis_right: None,
        axis_top: None,
        axis_bottom: None,
        legend: None,
    };
    assert!(chart.is_wf());
    assert!(!ChartSpec { plot_size: Size { width: PART_LIMIT + 1, height: 0 }, ..chart.clone() }
        .is_wf());
    assert!(!ChartSpec {
        axis_top: Some(AxisSpec::top(1, ScaleLinearSpec::new((0, i64::MAX)))),
        ..chart.clone()
    }
    .is_wf());
    let layout = ChartLayout::arrange(&options);
    assert!(ChartSpec::is_layout_in_range(&layout));
    assert!(!ChartSpec::is_layout_in_range(&ChartLayout {
        data: Rect::new(0, 0, i64::MAX, 0),
        ..layout
    }));
}

#[test]
fn exact_constructors() {
    assert_eq!(from_whole(0), 0);
    assert_eq!(from_whole(12), 12 * UNIT);
    assert_eq!(from_whole(i32::MIN), i64::from(i32::MIN) * UNIT);

    assert_eq!(Angle::quarter_turns(0), Angle::zero());
    assert_eq!(Angle::quarter_turns(1), Angle { degrees: 90 * UNIT, sin: UNIT, cos: 0 });
    assert_eq!(Angle::quarter_turns(2), Angle { degrees: 180 * UNIT, sin: 0, cos: -UNIT });
    assert_eq!(Angle::quarter_turns(3), Angle { degrees: 270 * UNIT, sin: -UNIT, cos: 0 });
    assert_eq!(Angle::quarter_turns(4), Angle { degrees: 360 * UNIT, sin: 0, cos: UNIT });
    assert_eq!(Angle::quarter_turns(-1), Angle { degrees: -90 * UNIT, sin: -UNIT, cos: 0 });
    assert_eq!(Angle::quarter_turns(-6), Angle { degrees: -540 * UNIT, sin: 0, cos: -UNIT });

    let log = ScaleLogSpec::between_powers(10 * UNIT, 0, 3);
    assert_eq!(log.domain, (UNIT, 1000 * UNIT));
    assert_eq!(log.log_domain, (0, 3 * UNIT));
    assert_eq!(log.base, 10 * UNIT);
    let small = ScaleLogSpec::between_powers(2 * UNIT, -3, 4);
    assert_eq!(small.domain, (125_000, 16 * UNIT));
    assert_eq!(small.log_domain, (-3 * UNIT, 4 * UNIT));
    let scale = small.instantiate((0, 70 * UNIT));
    assert_eq!(scale.ticks(0).len(), 8);
    assert_eq!(scale.map_exponent(-3), 0);
    assert_eq!(scale.map_exponent(4), 70 * UNIT);
}
