use vizir_charts::format::{decimals_for, format_fixed, format_tick_with_step};

/// Converts a decimal number into a fixed-point scalar.
fn fx(v: f64) -> i64 {
    (v * 1_000_000.0).round() as i64
}

#[test]
fn ticks_show_the_decimals_of_their_step() {
    assert_eq!(format_tick_with_step(fx(3.0), fx(0.5)), "3.0");
    assert_eq!(format_tick_with_step(fx(2.5), fx(0.5)), "2.5");
    assert_eq!(format_tick_with_step(fx(10.0), fx(5.0)), "10");
    assert_eq!(format_tick_with_step(fx(0.25), fx(0.05)), "0.25");
    assert_eq!(format_tick_with_step(fx(-1.5), fx(0.5)), "-1.5");
    assert_eq!(format_tick_with_step(fx(0.0), fx(0.5)), "0.0");
    assert_eq!(format_tick_with_step(1, 1), "0.000001");
}

#[test]
fn without_a_step_ticks_show_their_own_decimals() {
    assert_eq!(format_tick_with_step(fx(1.0), 0), "1");
    assert_eq!(format_tick_with_step(fx(1000.0), 0), "1000");
    assert_eq!(format_tick_with_step(fx(0.01), 0), "0.01");
    assert_eq!(format_tick_with_step(fx(-12.345), 0), "-12.345");
    assert_eq!(format_tick_with_step(0, 0), "0");
}

#[test]
fn values_between_steps_round_to_the_nearest() {
    assert_eq!(format_tick_with_step(fx(3.29), fx(1.0)), "3");
    assert_eq!(format_tick_with_step(fx(3.5), fx(1.0)), "4");
    assert_eq!(format_tick_with_step(fx(-3.5), fx(1.0)), "-4");
    assert_eq!(format_tick_with_step(fx(-0.4), fx(1.0)), "0");
    assert_eq!(format_tick_with_step(fx(0.96), fx(0.1)), "1.0");
}

#[test]
fn fixed_text_has_exactly_the_decimals_asked_for() {
    assert_eq!(format_fixed(fx(1.5), 0), "2");
    assert_eq!(format_fixed(fx(1.5), 1), "1.5");
    assert_eq!(format_fixed(fx(1.5), 3), "1.500");
    assert_eq!(format_fixed(fx(1.5), 6), "1.500000");
    assert_eq!(format_fixed(i64::MAX, 6), "9223372036854.775807");
    assert_eq!(format_fixed(i64::MIN, 6), "-9223372036854.775808");
    assert_eq!(format_fixed(i64::MIN, 0), "-9223372036855");
}

#[test]
fn decimals_needed_by_a_value() {
    assert_eq!(decimals_for(0), 0);
    assert_eq!(decimals_for(fx(2.0)), 0);
    assert_eq!(decimals_for(fx(0.5)), 1);
    assert_eq!(decimals_for(fx(-0.25)), 2);
    assert_eq!(decimals_for(fx(0.125)), 3);
    assert_eq!(decimals_for(100), 4);
    assert_eq!(decimals_for(10), 5);
    assert_eq!(decimals_for(1), 6);
    assert_eq!(decimals_for(-1), 6);
}
