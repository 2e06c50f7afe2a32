use cpi_oracle::units::clamp_i64;
use cpi_oracle::units::div_toward_zero;
use cpi_oracle::units::e6_to_lamports;
use cpi_oracle::units::fee_of;
use cpi_oracle::units::lamports_to_e6;
use cpi_oracle::units::price_per_share;
use cpi_oracle::units::sat_add;
use cpi_oracle::units::sat_sub;

#[test]
fn lamports_scale_is_one_hundred() {
    assert_eq!(e6_to_lamports(1), 100);
    assert_eq!(e6_to_lamports(10_000_000), 1_000_000_000);
    assert_eq!(lamports_to_e6(1_000_000_000), 10_000_000);
    assert_eq!(lamports_to_e6(199), 1);
    assert_eq!(lamports_to_e6(99), 0);
}

#[test]
fn non_positive_amounts_are_no_lamports() {
    assert_eq!(e6_to_lamports(0), 0);
    assert_eq!(e6_to_lamports(-5), 0);
    assert_eq!(e6_to_lamports(i64::MIN), 0);
}

#[test]
fn lamports_are_held_at_the_largest_value() {
    assert_eq!(e6_to_lamports(i64::MAX), u64::MAX);
    assert_eq!(e6_to_lamports(184_467_440_737_095_516), 18_446_744_073_709_551_600);
    assert_eq!(e6_to_lamports(184_467_440_737_095_517), u64::MAX);
}

#[test]
fn five_percent_fee_on_one_hundred_units() {
    let gross: i64 = 100_000_000;
    let fee = fee_of(gross, 500);
    let net = gross - fee;
    assert_eq!(fee, 5_000_000);
    assert_eq!(net, 95_000_000);
    assert_eq!(fee + net, 100_000_000);
}

#[test]
fn fee_rounds_down_and_never_exceeds_the_amount() {
    assert_eq!(fee_of(199, 50), 0);
    assert_eq!(fee_of(200, 50), 1);
    assert_eq!(fee_of(12_345, 10_000), 12_345);
    assert_eq!(fee_of(0, 10_000), 0);
    assert_eq!(fee_of(-40, 500), 0);
    for gross in [1i64, 7, 999, 1_000_003, i64::MAX] {
        for bps in [0u16, 1, 30, 500, 9_999, 10_000] {
            let fee = fee_of(gross, bps);
            assert!(0 <= fee && fee <= gross);
            assert_eq!(fee + (gross - fee), gross);
        }
    }
}

#[test]
fn saturating_sums_stop_at_the_ends() {
    assert_eq!(sat_add(1, 2), 3);
    assert_eq!(sat_add(i64::MAX, 1), i64::MAX);
    assert_eq!(sat_add(i64::MIN, -1), i64::MIN);
    assert_eq!(sat_sub(5, 7), -2);
    assert_eq!(sat_sub(i64::MIN, 1), i64::MIN);
    assert_eq!(sat_sub(i64::MAX, -1), i64::MAX);
    assert_eq!(clamp_i64(i64::MAX as i128 + 10), i64::MAX);
    assert_eq!(clamp_i64(i64::MIN as i128 - 10), i64::MIN);
    assert_eq!(clamp_i64(-17), -17);
}

#[test]
fn division_rounds_toward_zero() {
    assert_eq!(div_toward_zero(7, 2), 3);
    assert_eq!(div_toward_zero(-7, 2), -3);
    assert_eq!(div_toward_zero(7, -2), -3);
    assert_eq!(div_toward_zero(-7, -2), 3);
    assert_eq!(div_toward_zero(0, -5), 0);
}

#[test]
fn price_per_share_is_value_over_shares() {
    assert_eq!(price_per_share(280_930, 500_000), 561_860);
    assert_eq!(price_per_share(1, 3), 333_333);
    assert_eq!(price_per_share(0, 3), 0);
    assert_eq!(price_per_share(5, 0), 0);
    assert_eq!(price_per_share(-5, 3), 0);
    assert_eq!(price_per_share(i64::MAX, 1), i64::MAX);
}
