use sol_staking_rewards::units::{decimal_factor, scale_to_base_units};

#[test]
fn decimal_factor_values() {
    assert_eq!(decimal_factor(0), Some(1));
    assert_eq!(decimal_factor(6), Some(1_000_000));
    assert_eq!(decimal_factor(9), Some(1_000_000_000));
    assert_eq!(decimal_factor(19), Some(10_000_000_000_000_000_000));
    assert_eq!(decimal_factor(20), None);
    assert_eq!(decimal_factor(255), None);
}

#[test]
fn scaling_multiplies_by_the_factor() {
    assert_eq!(scale_to_base_units(10, 6), Some(10_000_000));
    assert_eq!(scale_to_base_units(500, 6), Some(500_000_000));
    assert_eq!(scale_to_base_units(7, 0), Some(7));
    assert_eq!(scale_to_base_units(0, 19), Some(0));
    assert_eq!(scale_to_base_units(0, 20), None);
    assert_eq!(scale_to_base_units(18_446_744_073_709, 6), Some(18_446_744_073_709_000_000));
    assert_eq!(scale_to_base_units(18_446_744_073_710, 6), None);
}
