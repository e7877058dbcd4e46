use credentia::settlement::{Settlement, BASIS_POINTS};

#[test]
fn ten_percent_interest_five_percent_fee() {
    let s = Settlement::compute(1_000_000, 1000, 500).unwrap();
    assert_eq!(s.interest, 100_000);
    assert_eq!(s.fee_for_platform, 5_000);
    assert_eq!(s.payout_to_lender, 1_095_000);
}

#[test]
fn basis_points_make_up_the_whole() {
    assert_eq!(BASIS_POINTS, 10_000);
    let s = Settlement::compute(777, 10_000, 10_000).unwrap();
    assert_eq!(s.interest, 777);
    assert_eq!(s.fee_for_platform, 777);
    assert_eq!(s.payout_to_lender, 777);
}

#[test]
fn interest_and_fee_round_down() {
    let s = Settlement::compute(19_999, 1, 9_999).unwrap();
    assert_eq!(s.interest, 1);
    assert_eq!(s.fee_for_platform, 0);
    assert_eq!(s.payout_to_lender, 20_000);

    let s = Settlement::compute(9_999, 1, 5_000).unwrap();
    assert_eq!(s.interest, 0);
    assert_eq!(s.fee_for_platform, 0);
    assert_eq!(s.payout_to_lender, 9_999);
}

#[test]
fn zero_rate_returns_the_principal_alone() {
    let s = Settlement::compute(u64::MAX, 0, 500).unwrap();
    assert_eq!(s, Settlement { interest: 0, fee_for_platform: 0, payout_to_lender: u64::MAX });
}

#[test]
fn zero_fee_gives_the_lender_all_interest() {
    let s = Settlement::compute(2_000_000, 250, 0).unwrap();
    assert_eq!(s, Settlement { interest: 50_000, fee_for_platform: 0, payout_to_lender: 2_050_000 });
}

#[test]
fn settlement_identity_on_samples() {
    let samples: [(u64, u16, u16); 6] = [
        (1, 1, 1),
        (1_000_000, 1000, 500),
        (123_456_789, 3333, 7777),
        (5_000_000_000, 65_535, 10_000),
        (42, 0, 0),
        (999_999_999_999, 1, 1),
    ];
    for (amount, rate, fee) in samples {
        let s = Settlement::compute(amount, rate, fee).unwrap();
        let interest = (amount as u128) * (rate as u128) / 10_000;
        assert_eq!(s.interest as u128, interest);
        assert_eq!(
            s.payout_to_lender as u128 + s.fee_for_platform as u128,
            amount as u128 + interest
        );
        assert!(s.fee_for_platform <= s.interest);
        assert!(s.payout_to_lender >= amount);
    }
}

#[test]
fn product_of_principal_and_rate_must_fit() {
    assert_eq!(Settlement::compute(u64::MAX, 2, 0), None);
    assert_eq!(Settlement::compute(u64::MAX / 2 + 1, 2, 0), None);
    assert!(Settlement::compute(u64::MAX / 2, 2, 0).is_some());
}

#[test]
fn product_of_interest_and_fee_must_fit() {
    // The first product fits in both cases; the second only at the lower fee.
    let amount: u64 = 200_000_000_000_000;
    assert!(Settlement::compute(amount, 65_535, 1_000).is_some());
    assert_eq!(Settlement::compute(amount * 1_400 / 1_000, 65_535, 65_535), None);
}

#[test]
fn sum_of_principal_and_interest_must_fit() {
    // At 1 bp the product fits for every principal, the sum does not.
    assert_eq!(Settlement::compute(u64::MAX, 1, 0), None);
    let largest = u64::MAX - u64::MAX / 10_001 - 1;
    assert!(Settlement::compute(largest, 1, 0).is_some());
}

#[test]
fn fee_above_the_whole_sum_is_not_representable() {
    // interest = 6 * amount, fee = 6.5535 * interest > amount + interest.
    assert_eq!(Settlement::compute(10_000, 60_000, 65_535), None);
    // A fee above the interest but within the sum eats into the principal.
    let s = Settlement::compute(10_000, 1_000, 20_000).unwrap();
    assert_eq!(s.interest, 1_000);
    assert_eq!(s.fee_for_platform, 2_000);
    assert_eq!(s.payout_to_lender, 9_000);
}
