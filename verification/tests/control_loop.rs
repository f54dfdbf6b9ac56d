use press_level::cycle::{
    device_path, join_path, led_file, led_path, plan_dev_cycle, plan_sys_cycle,
    render_sys_summary, render_value_line, sys_class_path, SLEEP_MS,
};
use press_level::duty::split_duties;
use press_level::level::{compute_output_pct, MAX_PRESS};
use press_level::parse::parse_count;
use press_level::text::u32_to_decimal;

#[test]
fn level_zero_count() {
    assert_eq!(compute_output_pct(0), 0);
}

#[test]
fn level_midpoint() {
    assert_eq!(compute_output_pct(55), 50);
}

#[test]
fn level_just_below_max() {
    assert_eq!(compute_output_pct(109), 99);
}

#[test]
fn level_at_max() {
    assert_eq!(compute_output_pct(110), 100);
}

#[test]
fn level_saturates_above_max() {
    assert_eq!(compute_output_pct(500), 100);
    assert_eq!(compute_output_pct(u32::MAX), 100);
}

#[test]
fn level_matches_formula_below_max() {
    for count in 0..110u32 {
        assert_eq!(compute_output_pct(count), count * 100 / 110);
    }
    assert_eq!(MAX_PRESS, 110);
}

#[test]
fn level_is_monotonic() {
    let mut prev: u32 = 0;
    for count in 0..600u32 {
        let pct = compute_output_pct(count);
        assert!(pct >= prev);
        assert!(pct <= 100);
        prev = pct;
    }
}

#[test]
fn level_is_deterministic() {
    for count in [0u32, 1, 55, 109, 110, 500, u32::MAX] {
        assert_eq!(compute_output_pct(count), compute_output_pct(count));
    }
}

#[test]
fn duties_zero_percent() {
    assert_eq!(split_duties(0), (0, 0, 0));
}

#[test]
fn duties_fifty_percent() {
    assert_eq!(split_duties(50), (100, 50, 0));
}

#[test]
fn duties_ninety_nine_percent() {
    assert_eq!(split_duties(99), (100, 100, 97));
}

#[test]
fn duties_full_percent() {
    assert_eq!(split_duties(100), (100, 100, 100));
}

#[test]
fn duties_sum_is_triple_pct() {
    let mut prev_sum: u32 = 0;
    for pct in 0..=100u32 {
        let (d0, d1, d2) = split_duties(pct);
        assert!(d0 <= 100 && d1 <= 100 && d2 <= 100);
        let sum = d0 + d1 + d2;
        assert_eq!(sum, 3 * pct);
        assert!(sum >= prev_sum);
        if d1 > 0 {
            assert_eq!(d0, 100);
        }
        if d2 > 0 {
            assert_eq!(d1, 100);
        }
        prev_sum = sum;
    }
}

#[test]
fn duties_saturate_on_huge_pct() {
    assert_eq!(split_duties(u32::MAX), (100, 100, 100));
}

#[test]
fn parse_empty_is_zero() {
    assert_eq!(parse_count(""), 0);
}

#[test]
fn parse_non_numeric_is_zero() {
    assert_eq!(parse_count("abc"), 0);
    assert_eq!(parse_count("12a"), 0);
    assert_eq!(parse_count("-3"), 0);
}

#[test]
fn parse_blank_is_zero() {
    assert_eq!(parse_count(" \t\r\n"), 0);
}

#[test]
fn parse_plain_number() {
    assert_eq!(parse_count("42"), 42);
    assert_eq!(parse_count("0"), 0);
}

#[test]
fn parse_trims_whitespace() {
    assert_eq!(parse_count("55\n"), 55);
    assert_eq!(parse_count("  7 \t"), 7);
}

#[test]
fn parse_leading_zeros() {
    assert_eq!(parse_count("0042"), 42);
}

#[test]
fn parse_largest_value() {
    assert_eq!(parse_count("4294967295"), u32::MAX);
}

#[test]
fn parse_overflow_is_zero() {
    assert_eq!(parse_count("4294967296"), 0);
    assert_eq!(parse_count("99999999999999999999"), 0);
}

#[test]
fn parse_inner_space_is_zero() {
    assert_eq!(parse_count("4 2"), 0);
}

#[test]
fn decimal_rendering() {
    assert_eq!(u32_to_decimal(0), "0");
    assert_eq!(u32_to_decimal(7), "7");
    assert_eq!(u32_to_decimal(42), "42");
    assert_eq!(u32_to_decimal(100), "100");
    assert_eq!(u32_to_decimal(4294967295), "4294967295");
}

#[test]
fn value_line_has_newline() {
    assert_eq!(render_value_line(50), "50\n");
    assert_eq!(render_value_line(0), "0\n");
}

#[test]
fn summary_line_names_all_channels() {
    assert_eq!(
        render_sys_summary(100, 50, 0),
        "WRITE sysfs -> led1_duty=100, led2_duty=50, led3_duty=0\n"
    );
}

#[test]
fn fixed_paths() {
    assert_eq!(device_path(), "/dev/project");
    assert_eq!(sys_class_path(), "/sys/class/project/project");
    assert_eq!(led_file(0), "led1_duty");
    assert_eq!(led_file(1), "led2_duty");
    assert_eq!(led_file(2), "led3_duty");
    assert_eq!(led_path(0), "/sys/class/project/project/led1_duty");
    assert_eq!(led_path(2), "/sys/class/project/project/led3_duty");
    assert_eq!(join_path("/a", "b"), "/a/b");
}

#[test]
fn sleep_interval_is_half_second() {
    assert_eq!(SLEEP_MS, 500);
}

#[test]
fn dev_cycle_midpoint() {
    let c = plan_dev_cycle("55\n");
    assert_eq!(c.count, 55);
    assert_eq!(c.pct, 50);
    assert_eq!(c.line, "50\n");
}

#[test]
fn dev_cycle_bad_input() {
    let c = plan_dev_cycle("abc");
    assert_eq!(c.count, 0);
    assert_eq!(c.pct, 0);
    assert_eq!(c.line, "0\n");
}

#[test]
fn sys_cycle_midpoint() {
    let c = plan_sys_cycle("55");
    assert_eq!(c.count, 55);
    assert_eq!(c.pct, 50);
    assert_eq!(c.duties, (100, 50, 0));
    assert_eq!(c.summary, "WRITE sysfs -> led1_duty=100, led2_duty=50, led3_duty=0\n");
    assert_eq!(c.line0, "100\n");
    assert_eq!(c.line1, "50\n");
    assert_eq!(c.line2, "0\n");
}

#[test]
fn sys_cycle_just_below_max() {
    let c = plan_sys_cycle("109\n");
    assert_eq!(c.pct, 99);
    assert_eq!(c.duties, (100, 100, 97));
}

#[test]
fn sys_cycle_saturated() {
    let c = plan_sys_cycle("110");
    assert_eq!(c.pct, 100);
    assert_eq!(c.duties, (100, 100, 100));
}
