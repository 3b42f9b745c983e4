use vizir_charts::scale::{
    power_fixed, ScaleBand, ScaleBandSpec, ScaleContinuous, ScaleLinear, ScaleLinearSpec,
    ScaleLog, ScaleLogSpec, ScalePoint, ScalePointSpec, ScaleSpec, ScaleTime, ScaleTimeSpec,
    MAX_PADDING,
};

/// Converts a decimal number into a fixed-point scalar.
fn fx(v: f64) -> i64 {
    (v * 1_000_000.0).round() as i64
}

#[test]
fn point_scale_positions_are_monotonic() {
    let scale = ScalePoint::new((fx(0.0), fx(100.0)), 5);
    let a = scale.x(0);
    let b = scale.x(1);
    let c = scale.x(2);
    assert!(a < b);
    assert!(b < c);
}

#[test]
fn log_scale_maps_endpoints_to_range() {
    let s = ScaleLog::new(
        (fx(1.0), fx(100.0)),
        (fx(1.0_f64.log10()), fx(100.0_f64.log10())),
        (fx(0.0), fx(10.0)),
    );
    assert_eq!(s.map(fx(1.0), fx(1.0_f64.log10())), fx(0.0));
    assert_eq!(s.map(fx(100.0), fx(100.0_f64.log10())), fx(10.0));
}

#[test]
fn linear_scale_interpolates_and_extrapolates() {
    let s = ScaleLinear::new((fx(0.0), fx(10.0)), (fx(0.0), fx(100.0)));
    assert_eq!(s.map(fx(5.0)), fx(50.0));
    assert_eq!(s.map(fx(2.5)), fx(25.0));
    assert_eq!(s.map(fx(-1.0)), fx(-10.0));
    assert_eq!(s.map(fx(12.0)), fx(120.0));
    assert_eq!(s.domain_min(), fx(0.0));
    assert_eq!(s.domain_max(), fx(10.0));
}

#[test]
fn linear_scale_hits_both_ends_of_its_range() {
    for (domain, range) in [
        ((fx(0.0), fx(3.29)), (fx(120.0), fx(20.0))),
        ((fx(-7.0), fx(11.0)), (fx(0.0), fx(640.0))),
        ((fx(5.0), fx(-5.0)), (fx(-3.0), fx(17.5))),
        ((1, 2), (0, 1)),
    ] {
        let s = ScaleLinear::new(domain, range);
        assert_eq!(s.map(domain.0), range.0);
        assert_eq!(s.map(domain.1), range.1);
        let t = ScaleTime::new(domain, range);
        assert_eq!(t.map(domain.0), range.0);
        assert_eq!(t.map(domain.1), range.1);
    }
}

#[test]
fn degenerate_domain_maps_everything_to_the_range_start() {
    let s = ScaleLinear::new((fx(4.0), fx(4.0)), (fx(10.0), fx(90.0)));
    assert_eq!(s.map(fx(4.0)), fx(10.0));
    assert_eq!(s.map(fx(-100.0)), fx(10.0));
    assert_eq!(s.map(fx(1.0e6)), fx(10.0));
}

#[test]
fn linear_scale_rounds_down_and_pins_to_the_representable() {
    let s = ScaleLinear::new((0, 3), (0, 10));
    // 1 * 10 / 3 and 2 * 10 / 3, rounded down.
    assert_eq!(s.map(1), 3);
    assert_eq!(s.map(2), 6);
    assert_eq!(s.map(-1), -4);
    let steep = ScaleLinear::new((0, 1), (0, fx(1.0e9)));
    assert_eq!(steep.map(i64::MAX), i64::MAX);
    assert_eq!(steep.map(i64::MIN), i64::MIN);
}

#[test]
fn reversed_range_flips_the_direction() {
    let s = ScaleLinear::new((fx(0.0), fx(10.0)), (fx(100.0), fx(0.0)));
    assert_eq!(s.map(fx(0.0)), fx(100.0));
    assert_eq!(s.map(fx(2.5)), fx(75.0));
    assert_eq!(s.map(fx(10.0)), fx(0.0));
}

#[test]
fn linear_ticks_are_the_nice_ticks_of_the_domain() {
    let s = ScaleLinear::new((fx(0.0), fx(10.0)), (0, 1));
    assert_eq!(s.ticks(5), vec![fx(0.0), fx(2.0), fx(4.0), fx(6.0), fx(8.0), fx(10.0)]);
    assert_eq!(s.ticks(0), Vec::<i64>::new());
}

#[test]
fn nice_domain_depends_on_the_tick_count() {
    let spec = ScaleLinearSpec::new((fx(0.0), fx(3.29)));
    assert_eq!(spec.resolved_domain(10), (fx(0.0), fx(3.29)));
    let nice = spec.with_nice(true);
    // Ten intervals: step 0.2, so the domain widens to 3.4.
    assert_eq!(nice.resolved_domain(10), (fx(0.0), fx(3.4)));
    // Six intervals: step 0.5.
    assert_eq!(nice.resolved_domain(6), (fx(0.0), fx(3.5)));
    // Three intervals: step 1.
    assert_eq!(nice.resolved_domain(3), (fx(0.0), fx(4.0)));
    // No ticks, no widening.
    assert_eq!(nice.resolved_domain(0), (fx(0.0), fx(3.29)));
    let scale = nice.instantiate_resolved((0, fx(70.0)), 6);
    assert_eq!(scale.domain, (fx(0.0), fx(3.5)));
    assert_eq!(scale.map(fx(3.5)), fx(70.0));
    let plain = nice.instantiate((0, fx(70.0)));
    assert_eq!(plain.domain, (fx(0.0), fx(3.29)));
}

#[test]
fn band_scale_follows_the_formula() {
    // span / (n + inner * (n - 1) + 2 * outer) = 100 / (4 + 0.3 + 0.2)
    let band = ScaleBand::new((fx(0.0), fx(100.0)), 4);
    assert_eq!(band.count(), 4);
    assert_eq!(band.band_width(), 22_222_222);
    // start + width * outer + i * width * (1 + inner), rounded once.
    assert_eq!(band.x(0), 2_222_222);
    assert_eq!(band.x(1), 26_666_666);
    assert_eq!(band.x(3), 75_555_555);
    let even = band.with_padding(0, 0);
    assert_eq!(even.band_width(), fx(25.0));
    assert_eq!(even.x(2), fx(50.0));
}

#[test]
fn band_scale_without_bands_has_no_width() {
    let band = ScaleBand::new((fx(10.0), fx(100.0)), 0);
    assert_eq!(band.band_width(), 0);
    assert_eq!(band.x(0), fx(10.0));
    assert_eq!(band.x(7), fx(10.0));
}

#[test]
fn bands_increase_and_fit_within_the_range() {
    for count in [2_usize, 3, 7, 40] {
        for (inner, outer) in [(0.0, 0.0), (0.1, 0.1), (0.5, 0.25), (2.0, 3.0)] {
            let band = ScaleBandSpec::new(count)
                .with_padding(fx(inner), fx(outer))
                .instantiate((fx(20.0), fx(620.0)));
            let width = band.band_width();
            assert!(width >= 1);
            for i in 1..count {
                assert!(band.x(i - 1) < band.x(i));
                assert!(band.x(i - 1) + width <= band.x(i));
            }
            assert!(band.x(count - 1) + width <= fx(620.0));
        }
    }
}

#[test]
fn band_width_ignores_the_direction_of_the_range() {
    for count in [1_usize, 2, 5, 12] {
        let spec = ScaleBandSpec::new(count).with_padding(fx(0.2), fx(0.4));
        let forward = spec.instantiate((fx(13.0), fx(347.0)));
        let backward = spec.instantiate((fx(347.0), fx(13.0)));
        assert_eq!(forward.band_width(), backward.band_width());
        // Bands always start from the lower end of the range.
        assert_eq!(forward.x(0), backward.x(0));
    }
}

#[test]
fn paddings_are_pinned_into_their_bounds() {
    let band = ScaleBand::new((0, fx(100.0)), 2).with_padding(fx(-1.0), i64::MAX);
    assert_eq!(band.padding_inner, 0);
    assert_eq!(band.padding_outer, MAX_PADDING);
    let point = ScalePointSpec::new(3).with_padding(fx(-0.5));
    assert_eq!(point.padding, 0);
    assert_eq!(ScalePoint::new((0, 1), 3).with_padding(i64::MAX).padding, MAX_PADDING);
}

#[test]
fn point_scale_follows_the_formula() {
    // step = span / ((n - 1) + 2 * padding) = 100 / 5
    let scale = ScalePoint::new((fx(0.0), fx(100.0)), 5);
    assert_eq!(scale.x(0), fx(10.0));
    assert_eq!(scale.x(1), fx(30.0));
    assert_eq!(scale.x(4), fx(90.0));
    let reversed = ScalePointSpec::new(5).instantiate((fx(100.0), fx(0.0)));
    assert_eq!(reversed.x(0), fx(10.0));
    let flush = ScalePoint::new((fx(0.0), fx(100.0)), 5).with_padding(0);
    assert_eq!(flush.x(0), fx(0.0));
    assert_eq!(flush.x(4), fx(100.0));
}

#[test]
fn point_scale_with_one_point_has_no_step() {
    let scale = ScalePoint::new((fx(30.0), fx(100.0)), 1);
    assert_eq!(scale.x(0), fx(30.0));
    assert_eq!(scale.x(5), fx(30.0));
    let empty = ScalePoint::new((fx(30.0), fx(100.0)), 0);
    assert_eq!(empty.x(0), fx(30.0));
}

#[test]
fn log_ticks_are_the_powers_of_the_base() {
    let logs = (fx(0.0), fx(3.0));
    let s = ScaleLog::new((fx(1.0), fx(1000.0)), logs, (0, fx(90.0)));
    assert_eq!(s.ticks(10), vec![fx(1.0), fx(10.0), fx(100.0), fx(1000.0)]);
    // All of them when no count is asked for.
    assert_eq!(s.ticks(0), vec![fx(1.0), fx(10.0), fx(100.0), fx(1000.0)]);
    // Truncated to the lowest powers.
    assert_eq!(s.ticks(2), vec![fx(1.0), fx(10.0)]);
    // Ticks sit at equal distances.
    assert_eq!(s.map_exponent(0), 0);
    assert_eq!(s.map_exponent(1), fx(30.0));
    assert_eq!(s.map_exponent(3), fx(90.0));
}

#[test]
fn log_ticks_enclose_a_domain_between_powers() {
    let domain = (2.0_f64, 500.0_f64);
    let logs = (fx(domain.0.log10()), fx(domain.1.log10()));
    let s = ScaleLog::new((fx(domain.0), fx(domain.1)), logs, (0, fx(100.0)));
    assert_eq!(s.ticks(0), vec![fx(1.0), fx(10.0), fx(100.0), fx(1000.0)]);
    // Reversed domains give the same ticks.
    let r = ScaleLog::new((fx(domain.1), fx(domain.0)), (logs.1, logs.0), (0, fx(100.0)));
    assert_eq!(r.ticks(0), vec![fx(1.0), fx(10.0), fx(100.0), fx(1000.0)]);
    let below = ScaleLog::new((fx(0.01), fx(1.0)), (fx(-2.0), 0), (0, fx(100.0)));
    assert_eq!(below.ticks(0), vec![fx(0.01), fx(0.1), fx(1.0)]);
}

#[test]
fn log_scale_with_another_base() {
    let logs = (fx(0.0), fx(4.0));
    let s = ScaleLogSpec::new((fx(1.0), fx(16.0)), logs)
        .with_base(fx(2.0), logs)
        .instantiate((0, fx(80.0)));
    assert_eq!(s.base, fx(2.0));
    assert_eq!(s.ticks(0), vec![fx(1.0), fx(2.0), fx(4.0), fx(8.0), fx(16.0)]);
    assert_eq!(s.map(fx(4.0), fx(2.0)), fx(40.0));
    // A base of one, or one that is not positive, stands for ten.
    let ten = ScaleLogSpec::new((fx(1.0), fx(16.0)), logs)
        .with_base(fx(1.0), logs)
        .instantiate((0, fx(80.0)));
    assert_eq!(ten.base, fx(10.0));
    assert_eq!(ScaleLog::new((1, 2), (0, 1), (0, 1)).with_base(0, (0, 1)).base, fx(10.0));
    assert_eq!(ScaleLog::new((1, 2), (0, 1), (0, 1)).with_base(fx(-2.0), (0, 1)).base, fx(10.0));
    assert_eq!(ScaleLog::new((1, 2), (0, 1), (0, 1)).with_base(fx(0.5), (0, 1)).base, fx(0.5));
}

#[test]
fn log_scale_to_the_natural_base() {
    let e = 2_718_282;
    let logs = (fx(0.0), fx(3.0));
    let s = ScaleLogSpec::new((fx(1.0), fx(20.085537)), logs)
        .with_base(e, logs)
        .instantiate((0, fx(90.0)));
    assert!(s.is_wf());
    assert_eq!(s.base, e);
    assert_eq!(s.ticks(0), vec![fx(1.0), 2_718_282, 7_389_057, 20_085_540]);
    assert_eq!(s.ticks(2), vec![fx(1.0), 2_718_282]);
    assert_eq!(s.map(fx(2.718282), fx(1.0)), fx(30.0));
    assert_eq!(s.map_exponent(2), fx(60.0));
    assert_eq!(power_fixed(e, -1), 367_879);
    assert_eq!(power_fixed(fx(1.5), 2), fx(2.25));
    assert_eq!(power_fixed(fx(0.5), 3), fx(0.125));
    assert_eq!(power_fixed(fx(0.5), -3), fx(8.0));
}

#[test]
fn log_scale_degrades_on_a_domain_that_is_not_positive() {
    let s = ScaleLog::new((fx(0.0), fx(100.0)), (0, fx(2.0)), (fx(5.0), fx(10.0)));
    assert_eq!(s.map(fx(10.0), fx(1.0)), fx(5.0));
    assert_eq!(s.ticks(5), Vec::<i64>::new());
    let negative = ScaleLog::new((fx(-1.0), fx(100.0)), (0, fx(2.0)), (fx(5.0), fx(10.0)));
    assert_eq!(negative.ticks(0), Vec::<i64>::new());
    let ok = ScaleLog::new((fx(1.0), fx(100.0)), (0, fx(2.0)), (fx(5.0), fx(10.0)));
    assert_eq!(ok.map(fx(0.0), 0), fx(5.0));
    assert_eq!(ok.map(fx(-3.0), fx(1.0)), fx(5.0));
    // On a reversed range the fallback is still the minimum of the range.
    let reversed = ScaleLog::new((fx(0.0), fx(100.0)), (0, fx(2.0)), (fx(120.0), fx(20.0)));
    assert_eq!(reversed.map(fx(10.0), fx(1.0)), fx(20.0));
    assert_eq!(reversed.map_exponent(1), fx(20.0));
    let upward = ScaleLog::new((fx(1.0), fx(100.0)), (0, fx(2.0)), (fx(120.0), fx(20.0)));
    assert_eq!(upward.map(fx(0.0), 0), fx(20.0));
    assert_eq!(upward.map(fx(-5.0), fx(1.0)), fx(20.0));
    assert_eq!(upward.map(fx(10.0), fx(1.0)), fx(70.0));
    assert_eq!(upward.map(fx(1.0), 0), fx(120.0));
    assert_eq!(ok.domain_min(), fx(1.0));
    assert_eq!(ok.domain_max(), fx(100.0));
}

#[test]
fn powers_are_exact_or_pinned() {
    assert_eq!(power_fixed(fx(10.0), 0), fx(1.0));
    assert_eq!(power_fixed(fx(10.0), 3), fx(1000.0));
    assert_eq!(power_fixed(fx(10.0), -2), fx(0.01));
    assert_eq!(power_fixed(fx(10.0), -6), 1);
    assert_eq!(power_fixed(fx(10.0), -7), 0);
    assert_eq!(power_fixed(fx(3.0), -1), 333_333);
    assert_eq!(power_fixed(fx(2.0), 10), fx(1024.0));
    assert_eq!(power_fixed(fx(10.0), 13), i64::MAX);
    assert_eq!(power_fixed(fx(2.0), 64), i64::MAX);
    assert_eq!(power_fixed(fx(2.0), -64), 0);
    assert_eq!(power_fixed(fx(2.0), 1000), i64::MAX);
    assert_eq!(power_fixed(fx(2.0), -1000), 0);
    assert_eq!(power_fixed(1, 1), 1);
    assert_eq!(power_fixed(1, 2), 0);
    assert_eq!(power_fixed(i64::MAX, 1), i64::MAX);
}

#[test]
fn time_scale_ticks_on_time_steps() {
    let s = ScaleTimeSpec::new((fx(0.0), fx(300.0))).instantiate((0, fx(100.0)));
    assert_eq!(s.domain_min(), fx(0.0));
    assert_eq!(s.domain_max(), fx(300.0));
    assert_eq!(
        s.ticks(5),
        vec![fx(0.0), fx(60.0), fx(120.0), fx(180.0), fx(240.0), fx(300.0)]
    );
    assert_eq!(s.map(fx(150.0)), fx(50.0));
}

#[test]
fn continuous_scale_dispatches_on_its_kind() {
    let linear = ScaleContinuous::Linear(ScaleLinear::new((0, fx(10.0)), (0, fx(100.0))));
    assert_eq!(linear.map(fx(5.0), 0), fx(50.0));
    assert_eq!(linear.ticks(2), vec![fx(0.0), fx(5.0), fx(10.0)]);
    assert_eq!(linear.domain_min(), 0);
    assert_eq!(linear.domain_max(), fx(10.0));

    let log = ScaleContinuous::Log(ScaleLog::new(
        (fx(1.0), fx(100.0)),
        (0, fx(2.0)),
        (0, fx(100.0)),
    ));
    assert_eq!(log.map(fx(10.0), fx(1.0)), fx(50.0));
    assert_eq!(log.ticks(0), vec![fx(1.0), fx(10.0), fx(100.0)]);
    assert_eq!(log.domain_max(), fx(100.0));

    let time = ScaleContinuous::Time(ScaleTime::new((0, fx(120.0)), (0, fx(60.0))));
    assert_eq!(time.map(fx(60.0), 0), fx(30.0));
    assert_eq!(time.ticks(2), vec![fx(0.0), fx(60.0), fx(120.0)]);
    assert_eq!(time.domain_min(), 0);
}

#[test]
fn scale_specs_convert_into_the_tagged_union() {
    let linear: ScaleSpec = ScaleLinearSpec::new((0, 1)).into();
    assert_eq!(linear, ScaleSpec::Linear(ScaleLinearSpec::new((0, 1))));
    let log: ScaleSpec = ScaleLogSpec::new((1, 2), (0, 1)).into();
    assert!(matches!(log, ScaleSpec::Log(_)));
    let time: ScaleSpec = ScaleTimeSpec::new((0, 1)).into();
    assert!(matches!(time, ScaleSpec::Time(_)));
    let point: ScaleSpec = ScalePointSpec::new(3).into();
    assert_eq!(point, ScaleSpec::Point(ScalePointSpec { count: 3, padding: fx(0.5) }));
    let band: ScaleSpec = ScaleBandSpec::new(3).into();
    assert_eq!(
        band,
        ScaleSpec::Band(ScaleBandSpec {
            count: 3,
            padding_inner: fx(0.1),
            padding_outer: fx(0.1)
        })
    );
}
