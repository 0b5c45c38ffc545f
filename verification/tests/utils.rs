use pump::utils::{constant_product_output, fee_adjusted_amount, proportional_share};

#[test]
fn proportional_share_rounds_down() {
    assert_eq!(proportional_share(7, 1, 2), 3);
    assert_eq!(proportional_share(10_000, 99_000_000, 100_000_000), 9_900);
    assert_eq!(proportional_share(1_000_000, 9_900, 109_900), 90_081);
}

#[test]
fn proportional_share_of_nothing_is_nothing() {
    assert_eq!(proportional_share(0, 5, 9), 0);
    assert_eq!(proportional_share(12, 0, 9), 0);
}

#[test]
fn proportional_share_of_the_whole_is_the_amount() {
    assert_eq!(proportional_share(12, 9, 9), 12);
    assert_eq!(proportional_share(u64::MAX, u64::MAX, u64::MAX), u64::MAX);
}

#[test]
fn proportional_share_uses_a_wide_product() {
    // The product is far beyond 64 bits; the share is exact all the same.
    assert_eq!(proportional_share(u64::MAX, u64::MAX - 1, u64::MAX), u64::MAX - 1);
    assert_eq!(proportional_share(u64::MAX, 1, 2), u64::MAX / 2);
}

#[test]
fn fee_of_one_percent_is_taken_off() {
    assert_eq!(fee_adjusted_amount(10_000, 1_000_000), 9_900);
    assert_eq!(fee_adjusted_amount(90_082, 1_000_000), 89_181);
}

#[test]
fn fee_of_a_fraction_of_a_percent_is_taken_off() {
    // 0.3 percent of 1_000_000 is 3_000.
    assert_eq!(fee_adjusted_amount(1_000_000, 300_000), 997_000);
    // 0.000001 percent is the smallest fee there is.
    assert_eq!(fee_adjusted_amount(100_000_000, 1), 99_999_999);
}

#[test]
fn no_fee_leaves_the_amount() {
    assert_eq!(fee_adjusted_amount(10_000, 0), 10_000);
    assert_eq!(fee_adjusted_amount(u64::MAX, 0), u64::MAX);
}

#[test]
fn full_fee_leaves_nothing() {
    assert_eq!(fee_adjusted_amount(10_000, 100_000_000), 0);
}

#[test]
fn fee_rounds_the_rest_down() {
    assert_eq!(fee_adjusted_amount(1, 1_000_000), 0);
    assert_eq!(fee_adjusted_amount(101, 1_000_000), 99);
}

#[test]
fn curve_pays_the_constant_product_share() {
    assert_eq!(constant_product_output(100_000, 1_000_000, 9_900), Some(90_081));
    assert_eq!(constant_product_output(89_181, 16_000, 89_181), Some(8_000));
    assert_eq!(constant_product_output(1_000, 1_000, 1_000), Some(500));
}

#[test]
fn curve_pays_nothing_for_nothing() {
    assert_eq!(constant_product_output(100_000, 1_000_000, 0), Some(0));
    assert_eq!(constant_product_output(0, 1_000_000, 0), Some(0));
}

#[test]
fn curve_pays_everything_into_an_empty_reserve() {
    assert_eq!(constant_product_output(0, 5, 3), Some(5));
}

#[test]
fn curve_refuses_a_reserve_beyond_64_bits() {
    assert_eq!(constant_product_output(u64::MAX, 10, 1), None);
    assert_eq!(constant_product_output(u64::MAX - 1, 10, 2), None);
}

#[test]
fn curve_prices_at_the_edge_of_64_bits() {
    assert_eq!(constant_product_output(u64::MAX - 1, u64::MAX, 1), Some(1));
    assert_eq!(constant_product_output(1, u64::MAX, u64::MAX - 1), Some(u64::MAX - 1));
}
