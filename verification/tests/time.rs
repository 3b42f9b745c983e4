use vizir_charts::time::{format_time_seconds, nice_time_step_seconds, nice_time_ticks_seconds};

/// Converts a decimal number into a fixed-point scalar.
fn fx(v: f64) -> i64 {
    (v * 1_000_000.0).round() as i64
}

#[test]
fn time_ticks_choose_minute_steps_for_minute_spans() {
    let ticks = nice_time_ticks_seconds(fx(0.0), fx(300.0), 5);
    assert!(ticks.len() >= 2);
    let step = (ticks[1] - ticks[0]).abs();
    assert!(step >= fx(60.0));
}

#[test]
fn time_format_seconds_minutes_hours() {
    assert_eq!(format_time_seconds(fx(5.0), fx(1.0)), "5");
    assert_eq!(format_time_seconds(fx(65.0), fx(1.0)), "1:05");
    assert_eq!(format_time_seconds(fx(3723.0), fx(60.0)), "1:02:03");
}

#[test]
fn time_format_follows_the_step_and_the_sign() {
    assert_eq!(format_time_seconds(fx(5.0), fx(60.0)), "0:05");
    assert_eq!(format_time_seconds(fx(5.0), fx(3600.0)), "0:00:05");
    assert_eq!(format_time_seconds(fx(5.0), fx(-3600.0)), "0:00:05");
    assert_eq!(format_time_seconds(fx(-65.0), fx(1.0)), "-1:05");
    assert_eq!(format_time_seconds(fx(-3723.0), fx(1.0)), "-1:02:03");
    assert_eq!(format_time_seconds(fx(0.0), fx(1.0)), "0");
    assert_eq!(format_time_seconds(fx(360_000.0), fx(1.0)), "100:00:00");
}

#[test]
fn time_format_rounds_to_whole_seconds() {
    assert_eq!(format_time_seconds(fx(59.4), fx(1.0)), "59");
    assert_eq!(format_time_seconds(fx(59.5), fx(1.0)), "1:00");
    assert_eq!(format_time_seconds(fx(-0.5), fx(1.0)), "-1");
    assert_eq!(format_time_seconds(fx(-0.4), fx(1.0)), "-0");
    assert_eq!(format_time_seconds(i64::MAX, 0), "2562047788:00:55");
    assert_eq!(format_time_seconds(i64::MIN, 0), "-2562047788:00:55");
}

#[test]
fn time_step_is_the_first_candidate_that_covers_the_naive_step() {
    let steps: Vec<(f64, f64)> = vec![
        (0.5, 1.0),
        (1.0, 1.0),
        (1.1, 2.0),
        (4.0, 5.0),
        (7.0, 10.0),
        (12.0, 15.0),
        (20.0, 30.0),
        (45.0, 60.0),
        (61.0, 120.0),
        (250.0, 300.0),
        (301.0, 600.0),
        (700.0, 900.0),
        (1000.0, 1800.0),
        (2000.0, 3600.0),
        (4000.0, 7200.0),
        (8000.0, 10800.0),
        (12000.0, 21600.0),
        (30000.0, 43200.0),
    ];
    for (naive, expected) in steps {
        assert_eq!(nice_time_step_seconds(fx(naive) as i128, 1), fx(expected) as i128);
        assert_eq!(nice_time_step_seconds(3 * fx(naive) as i128, 3), fx(expected) as i128);
    }
}

#[test]
fn time_step_beyond_the_candidates_rounds_up_to_whole_hours() {
    assert_eq!(nice_time_step_seconds(fx(43_201.0) as i128, 1), fx(13.0 * 3600.0) as i128);
    assert_eq!(nice_time_step_seconds(fx(100_000.0) as i128, 1), fx(28.0 * 3600.0) as i128);
    assert_eq!(nice_time_step_seconds(fx(86_400.0) as i128, 1), fx(24.0 * 3600.0) as i128);
}

#[test]
fn time_ticks_of_degenerate_requests() {
    assert_eq!(nice_time_ticks_seconds(fx(0.0), fx(300.0), 0), Vec::<i64>::new());
    assert_eq!(nice_time_ticks_seconds(fx(42.0), fx(42.0), 4), vec![fx(42.0)]);
    assert_eq!(
        nice_time_ticks_seconds(fx(300.0), fx(0.0), 5),
        nice_time_ticks_seconds(fx(0.0), fx(300.0), 5)
    );
}

#[test]
fn time_ticks_enclose_the_interval() {
    assert_eq!(
        nice_time_ticks_seconds(fx(10.0), fx(95.0), 4),
        vec![fx(0.0), fx(30.0), fx(60.0), fx(90.0), fx(120.0)]
    );
    assert_eq!(
        nice_time_ticks_seconds(fx(-90.0), fx(30.0), 2),
        vec![fx(-120.0), fx(-60.0), fx(0.0), fx(60.0)]
    );
}

#[test]
fn time_step_of_a_span_that_is_not_positive_is_zero() {
    assert_eq!(nice_time_step_seconds(0, 1), 0);
    assert_eq!(nice_time_step_seconds(-5, 3), 0);
    assert_eq!(nice_time_step_seconds(i128::MIN, 0), 0);
}

#[test]
fn time_step_is_at_least_the_naive_step() {
    let cases: Vec<(f64, f64)> = vec![
        (50.0, 60.0),
        (60.0, 60.0),
        (61.0, 120.0),
        (43_200.0, 43_200.0),
        (43_201.0, 46_800.0),
    ];
    for (naive, expected) in cases {
        let step = nice_time_step_seconds(fx(naive) as i128, 1);
        assert_eq!(step, fx(expected) as i128);
        assert!(step >= fx(naive) as i128);
        // A count of zero counts as one.
        assert_eq!(nice_time_step_seconds(fx(naive) as i128, 0), step);
    }
}
