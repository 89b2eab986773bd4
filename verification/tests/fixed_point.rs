use fbw::fixed::{Fixed, SCALE};
use fbw::{clamp, linear_decay_coefficient, linear_range};

fn fx(micros: i64) -> Fixed {
    Fixed::from_micros(micros)
}

#[test]
fn whole_numbers_scale_by_a_million() {
    assert_eq!(SCALE, 1_000_000);
    assert_eq!(Fixed::from_int(30).micros(), 30_000_000);
    assert_eq!(Fixed::from_int(-15).micros(), -15_000_000);
    assert_eq!(Fixed::from_int(i32::MAX).micros(), 2_147_483_647_000_000);
    assert_eq!(Fixed::from_int(i32::MIN).micros(), -2_147_483_648_000_000);
    assert_eq!(Fixed::zero(), fx(0));
    assert_eq!(fx(123).raw, 123);
}

#[test]
fn sums_and_differences_are_exact_within_range() {
    assert_eq!(fx(1_500_000).plus(fx(-2_250_000)), fx(-750_000));
    assert_eq!(fx(1_500_000).minus(fx(-2_250_000)), fx(3_750_000));
    assert_eq!(fx(5).negated(), fx(-5));
}

#[test]
fn sums_and_differences_saturate() {
    assert_eq!(fx(i64::MAX).plus(fx(1)), fx(i64::MAX));
    assert_eq!(fx(i64::MIN).plus(fx(-1)), fx(i64::MIN));
    assert_eq!(fx(i64::MIN).minus(fx(1)), fx(i64::MIN));
    assert_eq!(fx(i64::MAX).minus(fx(-1)), fx(i64::MAX));
    assert_eq!(fx(i64::MIN).negated(), fx(i64::MAX));
    assert_eq!(fx(i64::MAX).negated(), fx(-i64::MAX));
}

#[test]
fn products_round_toward_zero() {
    assert_eq!(fx(1_500_000).times(fx(-2_000_000)), fx(-3_000_000));
    assert_eq!(fx(1).times(fx(500_000)), fx(0));
    assert_eq!(fx(-1).times(fx(500_000)), fx(0));
    assert_eq!(fx(3).times(fx(500_000)), fx(1));
    assert_eq!(fx(-3).times(fx(500_000)), fx(-1));
    assert_eq!(fx(-3).times(fx(-500_000)), fx(1));
}

#[test]
fn products_saturate() {
    assert_eq!(fx(i64::MAX).times(fx(2_000_000)), fx(i64::MAX));
    assert_eq!(fx(i64::MAX).times(fx(-2_000_000)), fx(i64::MIN));
    assert_eq!(fx(i64::MIN).times(fx(i64::MIN)), fx(i64::MAX));
    assert_eq!(fx(i64::MAX).times(fx(1_000_000)), fx(i64::MAX));
}

#[test]
fn ratios_round_toward_zero() {
    assert_eq!(fx(1_500_000).over(fx(4_000_000)), fx(375_000));
    assert_eq!(fx(1_000_000).over(fx(3_000_000)), fx(333_333));
    assert_eq!(fx(-1_000_000).over(fx(3_000_000)), fx(-333_333));
    assert_eq!(fx(2_000_000).over(fx(3_000_000)), fx(666_666));
    assert_eq!(fx(0).over(fx(1)), fx(0));
}

#[test]
fn ratios_saturate() {
    assert_eq!(fx(i64::MAX).over(fx(1)), fx(i64::MAX));
    assert_eq!(fx(i64::MIN).over(fx(500_000)), fx(i64::MIN));
    assert_eq!(fx(1_000_000).over(fx(1)), fx(1_000_000_000_000));
}

#[test]
fn zero_counts_as_positive() {
    assert!(!fx(0).is_negative());
    assert!(!fx(1).is_negative());
    assert!(fx(-1).is_negative());
}

#[test]
fn clamp_limits_to_the_interval() {
    assert_eq!(clamp(fx(400_000), fx(-1_000_000), fx(1_000_000)), fx(400_000));
    assert_eq!(clamp(fx(1_400_000), fx(-1_000_000), fx(1_000_000)), fx(1_000_000));
    assert_eq!(clamp(fx(-1_400_000), fx(-1_000_000), fx(1_000_000)), fx(-1_000_000));
    assert_eq!(clamp(fx(-1_000_000), fx(-1_000_000), fx(1_000_000)), fx(-1_000_000));
    assert_eq!(clamp(fx(1_000_000), fx(-1_000_000), fx(1_000_000)), fx(1_000_000));
}

#[test]
fn linear_range_interpolates_between_the_ends() {
    assert_eq!(linear_range(fx(0), fx(8_595_238), fx(11_083_333)), fx(8_595_238));
    assert_eq!(linear_range(fx(1_000_000), fx(8_595_238), fx(11_083_333)), fx(11_083_333));
    assert_eq!(linear_range(fx(400_000), fx(8_595_238), fx(11_083_333)), fx(9_590_476));
    assert_eq!(linear_range(fx(500_000), fx(-10_000_000), fx(30_000_000)), fx(10_000_000));
}

#[test]
fn linear_range_extends_beyond_the_ends() {
    assert_eq!(linear_range(fx(-400_000), fx(8_595_238), fx(0)), fx(12_033_333));
    assert_eq!(linear_range(fx(2_000_000), fx(0), fx(10_000_000)), fx(20_000_000));
}

#[test]
fn decay_coefficient_is_one_at_start_and_zero_at_end() {
    for (start, end) in [
        (31_000_000i64, 30_000_000i64),
        (-16_000_000, -15_000_000),
        (0, 30_000_000),
        (0, -15_000_000),
        (i64::MIN, i64::MAX),
        (i64::MAX, i64::MIN),
        (5, 6),
    ] {
        assert_eq!(linear_decay_coefficient(fx(start), fx(start), fx(end)), fx(1_000_000));
        assert_eq!(linear_decay_coefficient(fx(end), fx(start), fx(end)), fx(0));
    }
}

#[test]
fn decay_coefficient_upward_interval() {
    let start = fx(0);
    let end = fx(30_000_000);
    assert_eq!(linear_decay_coefficient(fx(-5_000_000), start, end), fx(1_000_000));
    assert_eq!(linear_decay_coefficient(fx(7_500_000), start, end), fx(750_000));
    assert_eq!(linear_decay_coefficient(fx(15_000_000), start, end), fx(500_000));
    assert_eq!(linear_decay_coefficient(fx(20_000_000), start, end), fx(333_333));
    assert_eq!(linear_decay_coefficient(fx(45_000_000), start, end), fx(0));
}

#[test]
fn decay_coefficient_downward_interval() {
    let start = fx(31_000_000);
    let end = fx(30_000_000);
    assert_eq!(linear_decay_coefficient(fx(32_000_000), start, end), fx(1_000_000));
    assert_eq!(linear_decay_coefficient(fx(30_500_000), start, end), fx(500_000));
    assert_eq!(linear_decay_coefficient(fx(30_250_000), start, end), fx(250_000));
    assert_eq!(linear_decay_coefficient(fx(29_000_000), start, end), fx(0));
    assert_eq!(linear_decay_coefficient(fx(-5_000_000), fx(0), fx(-15_000_000)), fx(666_666));
}

#[test]
fn decay_coefficient_of_an_empty_interval() {
    let at = fx(10_000_000);
    assert_eq!(linear_decay_coefficient(fx(10_000_000), at, at), fx(1_000_000));
    assert_eq!(linear_decay_coefficient(fx(10_000_001), at, at), fx(1_000_000));
    assert_eq!(linear_decay_coefficient(fx(9_999_999), at, at), fx(0));
}

#[test]
fn decay_coefficient_over_the_widest_interval() {
    assert_eq!(linear_decay_coefficient(fx(0), fx(i64::MIN), fx(i64::MAX)), fx(499_999));
    assert_eq!(linear_decay_coefficient(fx(-1), fx(i64::MIN), fx(i64::MAX)), fx(500_000));
}

#[test]
fn clamp_applies_the_lower_bound_first() {
    assert_eq!(clamp(fx(5), fx(10), fx(0)), fx(0));
    assert_eq!(clamp(fx(-5), fx(10), fx(0)), fx(0));
    assert_eq!(clamp(fx(15), fx(10), fx(0)), fx(0));
    assert_eq!(clamp(fx(7), fx(7), fx(7)), fx(7));
}
