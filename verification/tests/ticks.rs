use vizir_charts::ticks::{nice_step, nice_ticks, ticks_between, MAX_TICKS};

/// Converts a decimal number into a fixed-point scalar.
fn fx(v: f64) -> i64 {
    (v * 1_000_000.0).round() as i64
}

#[test]
fn nice_step_rounds_to_one_two_five_or_ten() {
    // Ratios of the naive step to its magnitude: 1, 1.5, 3.5, 7.5.
    assert_eq!(nice_step(fx(1.0) as i128, 1), fx(1.0) as i128);
    assert_eq!(nice_step(fx(1.49) as i128, 1), fx(1.0) as i128);
    assert_eq!(nice_step(fx(1.5) as i128, 1), fx(2.0) as i128);
    assert_eq!(nice_step(fx(3.49) as i128, 1), fx(2.0) as i128);
    assert_eq!(nice_step(fx(3.5) as i128, 1), fx(5.0) as i128);
    assert_eq!(nice_step(fx(7.49) as i128, 1), fx(5.0) as i128);
    assert_eq!(nice_step(fx(7.5) as i128, 1), fx(10.0) as i128);
    assert_eq!(nice_step(fx(9.99) as i128, 1), fx(10.0) as i128);
    // 3.29 over ten intervals: 0.329 rounds to 0.2.
    assert_eq!(nice_step(fx(3.29) as i128, 10), fx(0.2) as i128);
    // 3.99 over six intervals: 0.665 rounds to 0.5.
    assert_eq!(nice_step(fx(3.99) as i128, 6), fx(0.5) as i128);
    assert_eq!(nice_step(fx(10.0) as i128, 3), fx(2.0) as i128);
    assert_eq!(nice_step(fx(10.0) as i128, 2), fx(5.0) as i128);
    assert_eq!(nice_step(fx(1000.0) as i128, 7), fx(100.0) as i128);
}

#[test]
fn nice_step_is_never_finer_than_one_raw_step() {
    assert_eq!(nice_step(3, 10), 1);
    assert_eq!(nice_step(1, usize::MAX), 1);
    assert_eq!(nice_step(9, 9), 1);
}

#[test]
fn nice_ticks_enclose_the_interval() {
    assert_eq!(
        nice_ticks(fx(0.0), fx(3.29), 6),
        vec![fx(0.0), fx(0.5), fx(1.0), fx(1.5), fx(2.0), fx(2.5), fx(3.0), fx(3.5)]
    );
    let fine = nice_ticks(fx(0.0), fx(3.29), 10);
    assert_eq!(fine.len(), 18);
    assert_eq!(fine[1], fx(0.2));
    assert_eq!(fine[17], fx(3.4));
    assert_eq!(
        nice_ticks(fx(-0.7), fx(3.29), 6),
        vec![fx(-1.0), fx(-0.5), fx(0.0), fx(0.5), fx(1.0), fx(1.5), fx(2.0), fx(2.5), fx(3.0), fx(3.5)]
    );
    assert_eq!(nice_ticks(fx(0.0), fx(10.0), 2), vec![fx(0.0), fx(5.0), fx(10.0)]);
    assert_eq!(nice_ticks(fx(-10.0), fx(-1.0), 2), vec![fx(-10.0), fx(-5.0), fx(0.0)]);
}

#[test]
fn nice_ticks_take_the_bounds_in_either_order() {
    assert_eq!(nice_ticks(fx(10.0), fx(0.0), 5), nice_ticks(fx(0.0), fx(10.0), 5));
}

#[test]
fn nice_ticks_of_degenerate_requests() {
    assert_eq!(nice_ticks(fx(0.0), fx(10.0), 0), Vec::<i64>::new());
    assert_eq!(nice_ticks(fx(4.2), fx(4.2), 5), vec![fx(4.2)]);
    assert_eq!(nice_ticks(0, 0, 1), vec![0]);
}

#[test]
fn nice_ticks_never_decrease_and_cover_both_bounds() {
    for (min, max) in [(0.0, 1.0), (-3.7, 12.1), (0.001, 0.002), (99.0, 100_000.0), (-5.0, -4.0)] {
        for count in [1_usize, 2, 3, 5, 10, 37, 5000] {
            let ticks = nice_ticks(fx(min), fx(max), count);
            assert!(ticks.windows(2).all(|w| w[0] <= w[1]));
            assert!(*ticks.first().unwrap() <= fx(min));
            assert!(*ticks.last().unwrap() >= fx(max));
        }
    }
}

#[test]
fn ticks_are_capped_in_number() {
    let ticks = ticks_between(0, 1_000_000, 1);
    assert_eq!(ticks.len() as i64, MAX_TICKS);
    assert_eq!(ticks[0], 0);
    assert_eq!(*ticks.last().unwrap(), MAX_TICKS - 1);
    let all = ticks_between(-3, 7, 5);
    assert_eq!(all, vec![-5, 0, 5, 10]);
}

#[test]
fn a_span_that_is_not_positive_has_no_step() {
    assert_eq!(nice_step(0, 5), 0);
    assert_eq!(nice_step(-1, 5), 0);
    assert_eq!(nice_step(i128::MIN, 1), 0);
    // A count of zero counts as one.
    assert_eq!(nice_step(fx(3.5) as i128, 0), fx(5.0) as i128);
    assert_eq!(nice_step(0, 0), 0);
}

#[test]
fn a_domain_of_one_raw_step_has_two_ticks() {
    assert_eq!(nice_ticks(0, 1, 10), vec![0, 1]);
}
